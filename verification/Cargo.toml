[package]
name = "arbor"
version = "0.1.0"
edition = "2021"
publish = false

[dependencies]
futures = "0.3"
geo = "*"
legion = "0.4"
nalgebra = "*"
num = "0.4"
rand = "0.8"
serde = { version = "1", features = ["derive"] }
serde_yaml = "0.9"
tokio = { version = "1", features = ["macros", "rt-multi-thread", "time"] }

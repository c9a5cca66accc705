//! A small ecological world: trees that grow, bear fruit and seed new trees
//! under a seasonal clock and a climate model.
//!
//! Real time is scaled into simulated days, seasons and years ([`timer`],
//! [`settings`]).  The temperature follows a daily and a yearly curve
//! ([`climate`], [`interpolations`]).  Each tree runs through a yearly
//! cycle of sleep, blossom, ripening and fall, grows, sets offspring,
//! sheds fruit and seeds new trees ([`tree`]).  Entities live in a `legion`
//! world, and structural changes to it are queued and applied at a barrier
//! ([`store`], [`scheduler`]).
//!
//! All real quantities are fixed-point numbers ([`fixed`]), so that every
//! step of the simulation has an exact statement over the integers.
pub mod climate;
pub mod error;
pub mod fixed;
pub mod interpolations;
pub mod map;
pub mod movements;
pub mod scheduler;
pub mod settings;
pub mod store;
pub mod timer;
pub mod tree;

//! Positions, velocities and the motion integrator.
use std::ops::{Add, AddAssign, Mul};
use vstd::prelude::*;
use crate::fixed::{plus, product, saturated, times};
use crate::timer::Timers;

verus! {

/// Three fixed-point coordinates.
#[derive(Clone, Copy, Debug, PartialEq, Eq, Structural)]
pub struct Vector3 {
    pub x: i64,
    pub y: i64,
    pub z: i64,
}

impl Vector3 {
    pub fn new(x: i64, y: i64, z: i64) -> (v: Vector3)
        ensures
            v == (Vector3 { x, y, z }),
    {
        Vector3 { x, y, z }
    }

    /// The component-wise sum, each coordinate saturating.
    pub open spec fn sum(self, other: Vector3) -> Vector3 {
        Vector3 {
            x: saturated(self.x + other.x) as i64,
            y: saturated(self.y + other.y) as i64,
            z: saturated(self.z + other.z) as i64,
        }
    }

    /// Each coordinate times the fixed-point `factor`.
    pub open spec fn scaled(self, factor: i64) -> Vector3 {
        Vector3 {
            x: product(self.x as int, factor as int) as i64,
            y: product(self.y as int, factor as int) as i64,
            z: product(self.z as int, factor as int) as i64,
        }
    }
}

/// Where an entity is.
#[derive(Clone, Copy, Debug, PartialEq, Eq, Structural)]
pub struct Position(pub Vector3);

/// How far an entity moves per second.
#[derive(Clone, Copy, Debug, PartialEq, Eq, Structural)]
pub struct Velocity(pub Vector3);

impl Add<Position> for Position {
    type Output = Position;

    fn add(self, p: Position) -> (r: Position) {
        Position(Vector3::new(plus(self.0.x, p.0.x), plus(self.0.y, p.0.y), plus(self.0.z, p.0.z)))
    }
}

impl vstd::std_specs::ops::AddSpecImpl<Position> for Position {
    open spec fn obeys_add_spec() -> bool {
        true
    }

    open spec fn add_req(self, p: Position) -> bool {
        true
    }

    open spec fn add_spec(self, p: Position) -> Position {
        Position(self.0.sum(p.0))
    }
}

impl Mul<i64> for Velocity {
    type Output = Position;

    /// The way made in `time` fixed-point seconds.
    fn mul(self, time: i64) -> (r: Position) {
        Position(Vector3::new(times(self.0.x, time), times(self.0.y, time), times(self.0.z, time)))
    }
}

impl vstd::std_specs::ops::MulSpecImpl<i64> for Velocity {
    open spec fn obeys_mul_spec() -> bool {
        true
    }

    open spec fn mul_req(self, time: i64) -> bool {
        true
    }

    open spec fn mul_spec(self, time: i64) -> Position {
        Position(self.0.scaled(time))
    }
}

impl AddAssign for Position {
    fn add_assign(&mut self, p: Position)
        ensures
            *final(self) == Position(old(self).0.sum(p.0)),
    {
        self.0 = Vector3::new(plus(self.0.x, p.0.x), plus(self.0.y, p.0.y), plus(self.0.z, p.0.z));
    }
}

impl Position {
    /// The origin.
    pub fn zero() -> (r: Self)
        ensures
            r == Position(Vector3 { x: 0, y: 0, z: 0 }),
    {
        Position(Vector3::new(0, 0, 0))
    }

    pub fn is_zero(&self) -> (r: bool)
        ensures
            r == (*self == Position(Vector3 { x: 0, y: 0, z: 0 })),
    {
        self.0 == Vector3::new(0, 0, 0)
    }

    pub fn set_zero(&mut self)
        ensures
            *final(self) == Position(Vector3 { x: 0, y: 0, z: 0 }),
    {
        self.0 = Vector3::new(0, 0, 0);
    }
}

/// Where a body that was at `from` is after moving at `velocity` for
/// `seconds`.
pub open spec fn moved(from: Position, velocity: Velocity, seconds: i64) -> Position {
    Position(from.0.sum(velocity.0.scaled(seconds)))
}

/// The motion integrator's fast-tick step: one Euler step over the time
/// since the last fast tick.
pub fn update_positions(pos: &mut Position, vel: &Velocity, timers: &Timers)
    ensures
        *final(pos) == moved(*old(pos), *vel, timers.precize.elapsed_seconds),
{
    pos.add_assign((*vel) * timers.precize.elapsed_seconds);
}

} // verus!

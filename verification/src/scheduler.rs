//! The scheduler's decisions: when a slow tick is due, and in which order
//! its stages run.  The loop that waits, and that runs the stages on the
//! entities, belongs to the program that embeds the simulation.
use std::time::SystemTime;
use vstd::prelude::*;
use crate::fixed::SCALE;
use crate::timer::seconds_since;

verus! {

/// The longest that a fast tick waits for a wake signal, in milliseconds.
pub const FAST_TICK_MILLIS: u64 = 10;

/// The real seconds that pass between two slow ticks, at least.
pub const SLOW_TICK_SECONDS: i64 = 5;

/// One stage of a slow tick.
#[derive(Clone, Copy, Debug, PartialEq, Eq, Structural)]
pub enum Stage {
    /// The time keeper recomputes the phases.
    Time,
    /// The climate model sets the temperature.
    Climate,
    /// The structural changes queued so far are applied.
    Barrier,
    /// Every tree takes its life-cycle step.
    LifeCycle,
    /// Every fruiting tree has the maturity of its offspring set.
    Ripening,
    /// Every fruiting tree sheds the fruit due.
    Shedding,
}

/// The stages of a slow tick, in the order they run.
pub open spec fn slow_order() -> Seq<Stage> {
    seq![
        Stage::Time,
        Stage::Climate,
        Stage::Barrier,
        Stage::LifeCycle,
        Stage::Ripening,
        Stage::Shedding,
    ]
}

impl Stage {
    /// The place of a stage in the slow tick.
    pub open spec fn rank(self) -> int {
        match self {
            Stage::Time => 0,
            Stage::Climate => 1,
            Stage::Barrier => 2,
            Stage::LifeCycle => 3,
            Stage::Ripening => 4,
            Stage::Shedding => 5,
        }
    }

    /// The stage that a slow tick begins with.
    pub fn first() -> (stage: Stage)
        ensures
            stage == slow_order()[0],
    {
        Stage::Time
    }

    /// The stage that follows this one, if the slow tick is not over.
    pub fn next(self) -> (following: Option<Stage>)
        ensures
            slow_order()[self.rank()] == self,
            match following {
                Some(stage) => self.rank() + 1 < slow_order().len() && stage == slow_order()[
                    self.rank() + 1],
                None => self.rank() + 1 == slow_order().len(),
            },
    {
        match self {
            Stage::Time => Some(Stage::Climate),
            Stage::Climate => Some(Stage::Barrier),
            Stage::Barrier => Some(Stage::LifeCycle),
            Stage::LifeCycle => Some(Stage::Ripening),
            Stage::Ripening => Some(Stage::Shedding),
            Stage::Shedding => None,
        }
    }
}

/// What the loop is to run next.
#[derive(Clone, Copy, Debug, PartialEq, Eq, Structural)]
pub struct Tick {
    /// Run the fast systems: the motion integrator.
    pub fast: bool,
    /// Then run the stages of one slow tick.
    pub slow: bool,
}

/// A slow tick is due once whole `SLOW_TICK_SECONDS` have passed since the
/// last one.
pub open spec fn is_slow_tick_due(since_slow: int) -> bool {
    since_slow >= SLOW_TICK_SECONDS * SCALE
}

/// Decides [`is_slow_tick_due`] for the fixed-point seconds since the last
/// slow tick.
pub fn slow_tick_due(since_slow: i64) -> (due: bool)
    ensures
        due == is_slow_tick_due(since_slow as int),
{
    since_slow >= SLOW_TICK_SECONDS * SCALE
}

/// What to run after a wait that ended `since_slow` fixed-point seconds
/// after the last slow tick: the fast systems always, and one slow tick
/// if one is due, however long overdue.
pub fn on_wake(since_slow: i64) -> (tick: Tick)
    ensures
        tick == (Tick { fast: true, slow: is_slow_tick_due(since_slow as int) }),
{
    Tick { fast: true, slow: slow_tick_due(since_slow) }
}

/// The state of the loop: when the last slow tick began.
pub struct Executor {
    pub prev_time: SystemTime,
}

impl Executor {
    /// Begins the run.  The first thing to run is a slow tick, before any
    /// fast one.
    pub fn start() -> (r: (Executor, Tick))
        ensures
            r.1 == (Tick { fast: false, slow: true }),
    {
        (Executor { prev_time: SystemTime::now() }, Tick { fast: false, slow: true })
    }

    /// Called after each wait, whether a wake signal or the timeout ended
    /// it.  Reads the clock and decides as [`on_wake`] does; where a slow
    /// tick is due it counts the time to the next from now.
    pub fn wake(&mut self) -> (tick: Tick)
        ensures
            tick.fast,
            !tick.slow ==> final(self).prev_time == old(self).prev_time,
    {
        let since_slow = seconds_since(&self.prev_time);
        let tick = on_wake(since_slow);
        if tick.slow {
            self.prev_time = SystemTime::now();
        }
        tick
    }
}

} // verus!

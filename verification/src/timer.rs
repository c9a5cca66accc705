//! The time keeper: turns elapsed real time into day, season and year
//! phases under the configured time scale.
use std::time::{Duration, SystemTime, SystemTimeError};
use vstd::prelude::*;
use crate::fixed::{div_floor, lemma_product_fits, mod_floor, SCALE};
use crate::settings::Settings;

verus! {

/// `std::time::SystemTime`: a moment on the system clock, opaque here.
#[verifier::external_type_specification]
#[verifier::external_body]
pub struct ExSystemTime(SystemTime);

/// `std::time::SystemTimeError`: the failure of `SystemTime::elapsed` on a
/// moment in the future, opaque here.
#[verifier::external_type_specification]
#[verifier::external_body]
pub struct ExSystemTimeError(SystemTimeError);

/// `SystemTime::now` reads the system clock; nothing is claimed of what it
/// returns.
pub assume_specification[ SystemTime::now ]() -> SystemTime;

/// `SystemTime::elapsed` compares a moment with the system clock; nothing
/// is claimed of what it returns.
pub assume_specification[ SystemTime::elapsed ](moment: &SystemTime) -> Result<
    Duration,
    SystemTimeError,
>;

/// `Duration::as_micros` gives the whole microseconds of a duration;
/// nothing is claimed of the number.
pub assume_specification[ Duration::as_micros ](duration: &Duration) -> u128;

/// The position of `elapsed` within a cycle of length `period`, as a
/// fixed-point fraction.
pub open spec fn phase_of(elapsed: int, period: int) -> int {
    ((elapsed % period) * SCALE) / period
}

/// A phase is a fraction in `[0, 1)`.
pub proof fn lemma_phase_in_range(elapsed: int, period: int)
    requires
        period > 0,
    ensures
        0 <= phase_of(elapsed, period) < SCALE,
{
    let s = SCALE as int;
    let rest = elapsed % period;
    vstd::arithmetic::div_mod::lemma_mod_bound(elapsed, period);
    let scaled = rest * s;
    assert(0 <= scaled < s * period) by (nonlinear_arith)
        requires
            scaled == rest * s,
            0 <= rest < period,
            s == 1_000_000,
    ;
    vstd::arithmetic::div_mod::lemma_fundamental_div_mod(scaled, period);
    vstd::arithmetic::div_mod::lemma_mod_bound(scaled, period);
    let q = scaled / period;
    let r = scaled % period;
    assert(0 <= q < s) by (nonlinear_arith)
        requires
            scaled == period * q + r,
            0 <= r < period,
            0 <= scaled < s * period,
    ;
}

/// Computes [`phase_of`].
fn phase(elapsed: i64, period: i128) -> (r: i64)
    requires
        0 < period <= 0x2_0000_0000_0000_0000_0000,
    ensures
        r == phase_of(elapsed as int, period as int),
        0 <= r < SCALE,
{
    let rest: i128 = mod_floor(elapsed as i128, period);
    proof {
        lemma_phase_in_range(elapsed as int, period as int);
        let s = SCALE as int;
        assert(0 <= rest * s <= 0x2_0000_0000_0000_0000_0000 * 1_000_000) by (nonlinear_arith)
            requires
                0 <= rest < 0x2_0000_0000_0000_0000_0000,
                s == 1_000_000,
        ;
    }
    let scaled: i128 = rest * (SCALE as i128);
    div_floor(scaled, period) as i64
}

/// The real seconds since `moment`, in fixed point: the clock's reading
/// as [`seconds_of_reading`] counts it.
pub(crate) fn seconds_since(moment: &SystemTime) -> (r: i64)
    ensures
        r >= 0,
{
    let reading: Option<u128> = match moment.elapsed() {
        Ok(duration) => Some(duration.as_micros()),
        Err(_) => None,
    };
    seconds_of_reading(reading)
}

/// The fixed-point seconds that a reading of the clock comes to.  A
/// reading is the whole microseconds since some moment, or nothing where
/// the clock has gone backwards past that moment.
pub open spec fn reading_in_seconds(reading: Option<u128>) -> int {
    match reading {
        Some(micros) => if micros > i64::MAX {
            i64::MAX as int
        } else {
            micros as int
        },
        None => 0,
    }
}

/// Counts a reading of the clock in fixed-point seconds: microseconds are
/// millionths of a second, a reading too long for an `i64` saturates, and
/// no reading counts as no time.
pub fn seconds_of_reading(reading: Option<u128>) -> (r: i64)
    ensures
        r == reading_in_seconds(reading),
        r >= 0,
{
    match reading {
        Some(micros) => {
            if micros > i64::MAX as u128 {
                i64::MAX
            } else {
                micros as i64
            }
        },
        None => 0,
    }
}

/// A stopwatch: the seconds between its last two readings.
pub struct Time {
    /// Fixed-point seconds.
    pub elapsed_seconds: i64,
    /// When the stopwatch was last read.
    pub last_timestamp: SystemTime,
}

impl Time {
    /// Reads the stopwatch and restarts it.
    pub fn lap(&mut self)
        ensures
            final(self).elapsed_seconds >= 0,
    {
        self.elapsed_seconds = seconds_since(&self.last_timestamp);
        self.last_timestamp = SystemTime::now();
    }
}

impl Default for Time {
    fn default() -> (r: Self)
        ensures
            r.elapsed_seconds == 0,
    {
        Time { elapsed_seconds: 0, last_timestamp: SystemTime::now() }
    }
}

#[derive(Clone, Copy, Debug, PartialEq, Eq, Structural)]
pub enum Season {
    Autumn,
    Summer,
    Winter,
    Spring,
}

impl Season {
    /// The season with the given number, counting from spring.
    pub fn from(s: u16) -> (r: Season)
        requires
            s < 4,
        ensures
            r == Season::numbered(s as int),
    {
        match s {
            0 => Season::Spring,
            1 => Season::Summer,
            2 => Season::Autumn,
            _ => Season::Winter,
        }
    }

    /// Spring is season 0, then summer, autumn and winter.
    pub open spec fn numbered(s: int) -> Season {
        if s == 0 {
            Season::Spring
        } else if s == 1 {
            Season::Summer
        } else if s == 2 {
            Season::Autumn
        } else {
            Season::Winter
        }
    }
}

/// The shared time state.
pub struct Timers {
    /// Time between the last two fast ticks.
    pub precize: Time,
    /// Time between the last two slow ticks.
    pub long: Time,
    /// When the simulation started.
    pub initial: SystemTime,
    pub day_of_year: u16,
    pub day_of_season: u16,
    pub current_season: Season,
    /// Phase within the day, a fraction in `[0, 1)`.
    pub time_of_day: i64,
    /// Phase within the season, a fraction in `[0, 1)`.
    pub time_of_season: i64,
    /// Phase within the year, a fraction in `[0, 1)`.
    pub time_of_year: i64,
}

impl Timers {
    /// All three phases are fractions in `[0, 1)`.
    pub open spec fn wf(&self) -> bool {
        &&& 0 <= self.time_of_day < SCALE
        &&& 0 <= self.time_of_season < SCALE
        &&& 0 <= self.time_of_year < SCALE
    }

    /// The three phases are those of one moment, `elapsed` fixed-point
    /// seconds after the start, on the time scale of `settings`.
    pub open spec fn shows(&self, elapsed: int, settings: &Settings) -> bool {
        &&& self.time_of_year == phase_of(elapsed, settings.year_length())
        &&& self.time_of_season == phase_of(elapsed, settings.season_length())
        &&& self.time_of_day == phase_of(elapsed, settings.day_duration as int)
    }

    /// Sets the three phases for the moment `elapsed` fixed-point seconds
    /// after the start.
    pub fn set_phases(&mut self, elapsed: i64, settings: &Settings)
        requires
            settings.is_valid(),
        ensures
            final(self).shows(elapsed as int, settings),
            final(self).wf(),
            final(self).precize == old(self).precize,
            final(self).long == old(self).long,
            final(self).initial == old(self).initial,
            final(self).day_of_year == old(self).day_of_year,
            final(self).day_of_season == old(self).day_of_season,
            final(self).current_season == old(self).current_season,
    {
        let total_season: i128 = settings.wide_season_length();
        let total_year: i128 = total_season * 4;
        self.time_of_year = phase(elapsed, total_year);
        self.time_of_season = phase(elapsed, total_season);
        self.time_of_day = phase(elapsed, settings.day_duration as i128);
    }

    /// The slow-tick update: recomputes the phases from the time since the
    /// start, and laps the slow stopwatch.
    pub fn update_fields(&mut self, settings: &Settings)
        requires
            settings.is_valid(),
        ensures
            exists|elapsed: int| 0 <= elapsed <= i64::MAX && final(self).shows(elapsed, settings),
            final(self).wf(),
            final(self).long.elapsed_seconds >= 0,
            final(self).precize == old(self).precize,
            final(self).initial == old(self).initial,
            final(self).day_of_year == old(self).day_of_year,
            final(self).day_of_season == old(self).day_of_season,
            final(self).current_season == old(self).current_season,
    {
        let elapsed_seconds: i64 = seconds_since(&self.initial);
        self.set_phases(elapsed_seconds, settings);
        self.long.lap();
        assert(self.shows(elapsed_seconds as int, settings));
    }

    /// Decides [`Timers::wf`].
    pub fn is_well_formed(&self) -> (ok: bool)
        ensures
            ok == self.wf(),
    {
        0 <= self.time_of_day && self.time_of_day < SCALE && 0 <= self.time_of_season
            && self.time_of_season < SCALE && 0 <= self.time_of_year && self.time_of_year < SCALE
    }
}

impl Default for Timers {
    /// The state at the start of the simulation: now, in spring, with all
    /// phases and stopwatches at zero.
    fn default() -> (r: Self)
        ensures
            r.precize.elapsed_seconds == 0,
            r.long.elapsed_seconds == 0,
            r.day_of_year == 0,
            r.day_of_season == 0,
            r.current_season == Season::Spring,
            r.time_of_day == 0,
            r.time_of_season == 0,
            r.time_of_year == 0,
            r.wf(),
    {
        Timers {
            precize: Time::default(),
            long: Time::default(),
            initial: SystemTime::now(),
            day_of_year: 0,
            day_of_season: 0,
            current_season: Season::Spring,
            time_of_year: 0,
            time_of_season: 0,
            time_of_day: 0,
        }
    }
}

/// The time keeper's fast-tick step: laps the fast stopwatch.
pub fn update_precise_timer(timers: &mut Timers)
    ensures
        final(timers).precize.elapsed_seconds >= 0,
        final(timers).long == old(timers).long,
        final(timers).initial == old(timers).initial,
        final(timers).day_of_year == old(timers).day_of_year,
        final(timers).day_of_season == old(timers).day_of_season,
        final(timers).current_season == old(timers).current_season,
        final(timers).time_of_day == old(timers).time_of_day,
        final(timers).time_of_season == old(timers).time_of_season,
        final(timers).time_of_year == old(timers).time_of_year,
{
    timers.precize.lap();
}

/// The time keeper's slow-tick step on the shared state and settings.
pub fn update_long_times(timers: &mut Timers, settings: &Settings)
    requires
        settings.is_valid(),
    ensures
        exists|elapsed: int| 0 <= elapsed <= i64::MAX && final(timers).shows(elapsed, settings),
        final(timers).wf(),
        final(timers).long.elapsed_seconds >= 0,
        final(timers).precize == old(timers).precize,
{
    timers.update_fields(settings);
}

/// The time keeper's slow-tick step.
pub fn timer_update(timers: &mut Timers, settings: &Settings)
    requires
        settings.is_valid(),
    ensures
        exists|elapsed: int| 0 <= elapsed <= i64::MAX && final(timers).shows(elapsed, settings),
        final(timers).wf(),
        final(timers).long.elapsed_seconds >= 0,
        final(timers).precize == old(timers).precize,
{
    timers.update_fields(settings);
}

} // verus!

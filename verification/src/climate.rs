//! The climate model: a daily and a yearly temperature curve, sampled by
//! the time of day and the time of year.
use vstd::prelude::*;
use crate::error::ConfigError;
use crate::fixed::{plus, product, saturated, times, SCALE};
use crate::interpolations::{circle_map, circle_value, lemma_circle_map_bounded};
use crate::timer::Timers;

verus! {

/// The samples of a daily curve: one per hour.
pub const HOURS: usize = 24;

/// `cos(2 * pi * hour / 24)` in fixed point, rounded to the nearest
/// millionth.
pub const COSINE_BY_HOUR: [i64; 24] = [
    1_000_000,
    965_926,
    866_025,
    707_107,
    500_000,
    258_819,
    0,
    -258_819,
    -500_000,
    -707_107,
    -866_025,
    -965_926,
    -1_000_000,
    -965_926,
    -866_025,
    -707_107,
    -500_000,
    -258_819,
    0,
    258_819,
    500_000,
    707_107,
    866_025,
    965_926,
];

/// A named climate profile.
pub struct Zone {
    pub name: String,
    /// The yearly curve: temperatures sampled evenly over the year,
    /// starting on the first day of spring.
    pub monthly_temp: Vec<i64>,
}

/// The climate definitions: the zones, and the amplitude by which the
/// temperature swings over a day in all of them.
pub struct ClimateSettings {
    pub zones: Vec<Zone>,
    pub dayly_tempreture_floating: i64,
}

/// The daily curve for a given amplitude: the cosine of the hour, scaled.
pub open spec fn daily_curve(amplitude: int) -> Seq<i64> {
    Seq::new(HOURS as nat, |hour: int| product(COSINE_BY_HOUR@[hour] as int, amplitude) as i64)
}

/// `index` is the first zone called `name`.
pub open spec fn is_first_zone_named(zones: Seq<Zone>, name: Seq<char>, index: int) -> bool {
    &&& 0 <= index < zones.len()
    &&& zones[index].name@ == name
    &&& forall|earlier: int| 0 <= earlier < index ==> (#[trigger] zones[earlier]).name@ != name
}

/// No zone is called `name`.
pub open spec fn no_zone_named(zones: Seq<Zone>, name: Seq<char>) -> bool {
    forall|index: int| 0 <= index < zones.len() ==> (#[trigger] zones[index]).name@ != name
}

/// The temperature that two curves give at a time of day and a time of
/// year: the sum of the two cyclic interpolations.
pub open spec fn normal_temperature(
    daily: Seq<i64>,
    yearly: Seq<i64>,
    time_of_day: int,
    time_of_year: int,
) -> int {
    saturated(circle_value(time_of_day, daily) + circle_value(time_of_year, yearly))
}

/// The shared weather state of one zone.
pub struct Weather {
    dayly_curve: Vec<i64>,
    pub current_tempreture: i64,
    yearly_curve: Vec<i64>,
}

impl Weather {
    /// The hourly samples of the daily swing.
    pub closed spec fn daily(&self) -> Seq<i64> {
        self.dayly_curve@
    }

    /// The samples of the zone's yearly curve.
    pub closed spec fn yearly(&self) -> Seq<i64> {
        self.yearly_curve@
    }

    /// The temperature as of the last update.
    pub closed spec fn temperature(&self) -> i64 {
        self.current_tempreture
    }

    /// Both curves can be interpolated.
    pub open spec fn wf(&self) -> bool {
        &&& self.daily().len() == HOURS
        &&& self.yearly().len() >= 2
    }

    /// Resolves the zone called `zone_name`: the first of that name in
    /// `climate`.  Fails where there is none, or where its yearly curve
    /// has fewer than two samples.
    pub fn prepare(zone_name: &str, climate: &ClimateSettings) -> (r: Result<Weather, ConfigError>)
        ensures
            no_zone_named(climate.zones@, zone_name@) ==> r == Err::<Weather, ConfigError>(
                ConfigError::UnknownZone,
            ),
            forall|index: int|
                is_first_zone_named(climate.zones@, zone_name@, index)
                    && climate.zones[index].monthly_temp.len() < 2 ==> r == Err::<
                    Weather,
                    ConfigError,
                >(ConfigError::DegenerateCurve { zone: index as usize }),
            forall|index: int|
                is_first_zone_named(climate.zones@, zone_name@, index)
                    && climate.zones[index].monthly_temp.len() >= 2 ==> {
                    &&& r is Ok
                    &&& r->Ok_0.wf()
                    &&& r->Ok_0.yearly() == climate.zones[index].monthly_temp@
                    &&& r->Ok_0.daily() == daily_curve(climate.dayly_tempreture_floating as int)
                    &&& r->Ok_0.temperature() == 0
                },
    {
        let wanted: String = zone_name.to_owned();
        let mut index: usize = 0;
        while index < climate.zones.len()
            invariant
                index <= climate.zones.len(),
                wanted@ == zone_name@,
                forall|earlier: int|
                    0 <= earlier < index ==> (#[trigger] climate.zones@[earlier]).name@
                        != zone_name@,
            decreases climate.zones.len() - index,
        {
            if climate.zones[index].name == wanted {
                if climate.zones[index].monthly_temp.len() < 2 {
                    return Err(ConfigError::DegenerateCurve { zone: index });
                }
                let dayly_curve = Self::swing(climate.dayly_tempreture_floating);
                let yearly_curve = climate.zones[index].monthly_temp.clone();
                return Ok(Weather { current_tempreture: 0, dayly_curve, yearly_curve });
            }
            index += 1;
        }
        Err(ConfigError::UnknownZone)
    }

    /// Builds the daily curve for an amplitude.
    fn swing(amplitude: i64) -> (curve: Vec<i64>)
        ensures
            curve@ == daily_curve(amplitude as int),
    {
        let mut curve: Vec<i64> = Vec::new();
        let mut hour: usize = 0;
        while hour < HOURS
            invariant
                hour <= HOURS,
                curve.len() == hour,
                forall|h: int|
                    0 <= h < hour ==> curve@[h] == product(
                        COSINE_BY_HOUR@[h] as int,
                        amplitude as int,
                    ),
            decreases HOURS - hour,
        {
            curve.push(times(COSINE_BY_HOUR[hour], amplitude));
            hour += 1;
        }
        curve
    }

    /// The temperature at the time that `timers` shows.
    pub fn calculate_normal_tempreture(&self, timers: &Timers) -> (r: i64)
        requires
            self.wf(),
            timers.wf(),
        ensures
            r == normal_temperature(
                self.daily(),
                self.yearly(),
                timers.time_of_day as int,
                timers.time_of_year as int,
            ),
    {
        let dayly_fluctuation = circle_map(timers.time_of_day, self.dayly_curve.as_slice());
        // the time of year runs from the first day of spring to the last day of winter
        let yearly_fluctuation = circle_map(timers.time_of_year, self.yearly_curve.as_slice());
        plus(dayly_fluctuation, yearly_fluctuation)
    }
}

/// The climate model's slow-tick step: sets the current temperature.
pub fn weather(weather_resource: &mut Weather, timers: &Timers)
    requires
        old(weather_resource).wf(),
        timers.wf(),
    ensures
        final(weather_resource).wf(),
        final(weather_resource).daily() == old(weather_resource).daily(),
        final(weather_resource).yearly() == old(weather_resource).yearly(),
        final(weather_resource).temperature() == normal_temperature(
            old(weather_resource).daily(),
            old(weather_resource).yearly(),
            timers.time_of_day as int,
            timers.time_of_year as int,
        ),
{
    weather_resource.current_tempreture = weather_resource.calculate_normal_tempreture(timers);
}

/// Without a daily swing the daily curve is flat at zero.
pub proof fn lemma_no_swing()
    ensures
        daily_curve(0).len() == HOURS,
        forall|hour: int| 0 <= hour < HOURS ==> #[trigger] daily_curve(0)[hour] == 0,
{
}

/// Where the daily curve is flat at zero and the yearly curve is flat at
/// `level`, the temperature is `level` at every time of day and of year.
pub proof fn lemma_flat_climate(
    daily: Seq<i64>,
    yearly: Seq<i64>,
    level: i64,
    time_of_day: int,
    time_of_year: int,
)
    requires
        daily.len() >= 1,
        yearly.len() >= 1,
        forall|hour: int| 0 <= hour < daily.len() ==> #[trigger] daily[hour] == 0,
        forall|month: int| 0 <= month < yearly.len() ==> #[trigger] yearly[month] == level,
        0 <= time_of_day <= SCALE,
        0 <= time_of_year <= SCALE,
    ensures
        normal_temperature(daily, yearly, time_of_day, time_of_year) == level,
{
    lemma_circle_map_bounded(time_of_day, daily, 0, 0);
    lemma_circle_map_bounded(time_of_year, yearly, level as int, level as int);
}

/// A zone whose samples all equal `level`, in a climate without daily
/// swing, has the temperature `level` at every time.
pub proof fn lemma_flat_zone(monthly: Seq<i64>, level: i64, time_of_day: int, time_of_year: int)
    requires
        monthly.len() >= 1,
        forall|month: int| 0 <= month < monthly.len() ==> #[trigger] monthly[month] == level,
        0 <= time_of_day <= SCALE,
        0 <= time_of_year <= SCALE,
    ensures
        normal_temperature(daily_curve(0), monthly, time_of_day, time_of_year) == level,
{
    lemma_no_swing();
    lemma_flat_climate(daily_curve(0), monthly, level, time_of_day, time_of_year);
}

/// Two climate definitions say the same: the same amplitude, and the same
/// zones in the same order.
pub open spec fn same_climate(first: ClimateSettings, second: ClimateSettings) -> bool {
    &&& first.dayly_tempreture_floating == second.dayly_tempreture_floating
    &&& first.zones@.len() == second.zones@.len()
    &&& forall|index: int|
        0 <= index < first.zones@.len() ==> {
            &&& (#[trigger] first.zones@[index]).name@ == second.zones@[index].name@
            &&& first.zones@[index].monthly_temp@ == second.zones@[index].monthly_temp@
        }
}

/// A climate definition that was written out and read back resolves every
/// zone name as the one it came from did: to the same failure, or to the
/// same two curves, and so to the same temperature at every time.
pub proof fn lemma_same_climate_resolves_alike(
    first: ClimateSettings,
    second: ClimateSettings,
    name: Seq<char>,
)
    requires
        same_climate(first, second),
    ensures
        no_zone_named(first.zones@, name) ==> no_zone_named(second.zones@, name),
        forall|index: int| #[trigger]
            is_first_zone_named(first.zones@, name, index) ==> {
                &&& is_first_zone_named(second.zones@, name, index)
                &&& first.zones@[index].monthly_temp@ == second.zones@[index].monthly_temp@
            },
        daily_curve(first.dayly_tempreture_floating as int) == daily_curve(
            second.dayly_tempreture_floating as int,
        ),
{
    if no_zone_named(first.zones@, name) {
        assert forall|index: int| 0 <= index < second.zones@.len() implies (
        #[trigger] second.zones@[index]).name@ != name by {
            assert(first.zones@[index].name@ != name);
        }
    }
    assert forall|index: int| #[trigger]
        is_first_zone_named(first.zones@, name, index) implies {
        &&& is_first_zone_named(second.zones@, name, index)
        &&& first.zones@[index].monthly_temp@ == second.zones@[index].monthly_temp@
    } by {
        assert forall|earlier: int| 0 <= earlier < index implies (
        #[trigger] second.zones@[earlier]).name@ != name by {
            assert(first.zones@[earlier].name@ != name);
        }
    }
}

} // verus!

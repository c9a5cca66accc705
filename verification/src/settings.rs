//! The time scale of the simulation and the climate zone it plays in.
use vstd::prelude::*;
use crate::error::ConfigError;
use crate::fixed::{saturate, saturated};

verus! {

/// Runtime configuration.  Simulated time is scaled real time: a year
/// lasts four seasons of `days_in_season` days of `day_duration` real
/// seconds each.
pub struct Settings {
    pub days_in_season: u16,
    /// Real seconds per simulated day, in fixed point.
    pub day_duration: i64,
    pub climate_zone: String,
}

impl Settings {
    /// The length of a season, in fixed-point seconds.
    pub open spec fn season_length(&self) -> int {
        self.days_in_season * self.day_duration
    }

    /// The length of a year, in fixed-point seconds.
    pub open spec fn year_length(&self) -> int {
        4 * self.season_length()
    }

    /// A time scale that phases can be computed from: a season has days
    /// and a day has a duration.
    pub open spec fn is_valid(&self) -> bool {
        &&& self.days_in_season > 0
        &&& self.day_duration > 0
    }

    /// A season, computed wide.
    pub(crate) fn wide_season_length(&self) -> (r: i128)
        ensures
            r == self.season_length(),
            -0x8000_0000_0000_0000_0000 <= r <= 0x8000_0000_0000_0000_0000,
            self.is_valid() ==> r > 0,
    {
        proof {
            let d = self.days_in_season as int;
            let l = self.day_duration as int;
            assert(-0x8000_0000_0000_0000_0000 <= d * l <= 0x8000_0000_0000_0000_0000
                && (l > 0 && d > 0 ==> d * l > 0)) by (nonlinear_arith)
                requires
                    0 <= d < 0x1_0000,
                    -0x8000_0000_0000_0000 <= l < 0x8000_0000_0000_0000,
            ;
        }
        (self.days_in_season as i128) * (self.day_duration as i128)
    }

    /// The real seconds that one simulated year lasts, saturating.
    pub fn seconds_in_year(&self) -> (r: i64)
        ensures
            r == saturated(self.year_length()),
            self.is_valid() ==> r > 0,
    {
        saturate(4 * self.wide_season_length())
    }

    /// Accepts exactly the valid time scales.
    pub fn validate(&self) -> (r: Result<(), ConfigError>)
        ensures
            r is Ok <==> self.is_valid(),
            r is Err ==> r == Err::<(), ConfigError>(ConfigError::BadTimeScale),
    {
        if self.days_in_season == 0 || self.day_duration <= 0 {
            Err(ConfigError::BadTimeScale)
        } else {
            Ok(())
        }
    }
}

impl Default for Settings {
    /// Ten days per season, twelve hours per day, in the moderate zone.
    fn default() -> (r: Self)
        ensures
            r.days_in_season == 10,
            r.day_duration == 43_200_000_000,
            r.climate_zone@ == "moderate"@,
            r.is_valid(),
    {
        Settings {
            days_in_season: 10,
            day_duration: 43_200_000_000,
            climate_zone: "moderate".to_owned(),
        }
    }
}

} // verus!

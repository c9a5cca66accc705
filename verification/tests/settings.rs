use arbor::error::ConfigError;
use arbor::fixed::SCALE;
use arbor::settings::Settings;

fn scale(days_in_season: u16, day_duration: i64) -> Settings {
    Settings { days_in_season, day_duration, climate_zone: "moderate".to_string() }
}

#[test]
fn the_default_is_ten_days_of_twelve_hours() {
    let settings = Settings::default();
    assert_eq!(settings.days_in_season, 10);
    assert_eq!(settings.day_duration, 12 * 60 * 60 * SCALE);
    assert_eq!(settings.climate_zone, "moderate");
    assert_eq!(settings.validate(), Ok(()));
    assert_eq!(settings.seconds_in_year(), 40 * 12 * 60 * 60 * SCALE);
}

#[test]
fn a_year_is_four_seasons() {
    assert_eq!(scale(2, 60 * SCALE).seconds_in_year(), 480 * SCALE);
    assert_eq!(scale(1, 1).seconds_in_year(), 4);
    assert_eq!(scale(0, 60 * SCALE).seconds_in_year(), 0);
    assert_eq!(scale(3, -5).seconds_in_year(), -60);
}

#[test]
fn a_year_too_long_to_count_saturates() {
    assert_eq!(scale(u16::MAX, i64::MAX).seconds_in_year(), i64::MAX);
    assert_eq!(scale(1, i64::MAX / 4).seconds_in_year(), i64::MAX - 3);
    assert_eq!(scale(1, i64::MAX / 4 + 1).seconds_in_year(), i64::MAX);
    assert_eq!(scale(u16::MAX, i64::MIN).seconds_in_year(), i64::MIN);
}

#[test]
fn a_time_scale_needs_days_and_a_duration() {
    assert_eq!(scale(1, 1).validate(), Ok(()));
    assert_eq!(scale(u16::MAX, i64::MAX).validate(), Ok(()));
    assert_eq!(scale(0, 60 * SCALE).validate(), Err(ConfigError::BadTimeScale));
    assert_eq!(scale(2, 0).validate(), Err(ConfigError::BadTimeScale));
    assert_eq!(scale(2, -1).validate(), Err(ConfigError::BadTimeScale));
    assert_eq!(scale(0, 0).validate(), Err(ConfigError::BadTimeScale));
}

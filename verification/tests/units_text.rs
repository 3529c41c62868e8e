//! Fixed-point unit conversion, decimal formatting, and condition naming.

use weathr::condition::{FogIntensity, WeatherCondition};
use weathr::text::{format_centi, format_i64, format_u64, str_eq};
use weathr::units::{
    celsius_to_fahrenheit, fahrenheit_to_celsius, normalize_temperature, TemperatureUnit,
    WeatherUnits,
};

#[test]
fn temperature_conversions_floor_exactly() {
    assert_eq!(fahrenheit_to_celsius(3200), 0);
    assert_eq!(fahrenheit_to_celsius(6440), 1800);
    assert_eq!(fahrenheit_to_celsius(1800), -778, "(18.00 - 32.00) * 5 / 9 floors to -7.78");
    assert_eq!(celsius_to_fahrenheit(0), 3200);
    assert_eq!(celsius_to_fahrenheit(1800), 6440);
    assert_eq!(celsius_to_fahrenheit(-4000), -4000, "the scales cross at -40");
}

#[test]
fn normalisation_follows_the_display_unit() {
    assert_eq!(normalize_temperature(1800, TemperatureUnit::Celsius), 1800);
    assert_eq!(normalize_temperature(1800, TemperatureUnit::Fahrenheit), 6440);
    assert_eq!(WeatherUnits::metric().temperature, TemperatureUnit::Celsius);
    assert_eq!(WeatherUnits::imperial().temperature, TemperatureUnit::Fahrenheit);
    assert_eq!(WeatherUnits::default().temperature, TemperatureUnit::Celsius);
}

#[test]
fn decimal_rendering_matches_the_usual_notation() {
    assert_eq!(format_u64(0), "0");
    assert_eq!(format_u64(42), "42");
    assert_eq!(format_u64(120500), "120500");
    assert_eq!(format_i64(-42), "-42");
    assert_eq!(format_i64(7), "7");
}

#[test]
fn hundredths_render_with_two_decimals() {
    assert_eq!(format_centi(5252), "52.52");
    assert_eq!(format_centi(1341), "13.41");
    assert_eq!(format_centi(-50), "-0.50");
    assert_eq!(format_centi(0), "0.00");
    assert_eq!(format_centi(100), "1.00");
    assert_eq!(format_centi(-18000), "-180.00");
}

#[test]
fn string_equality_compares_characters() {
    assert!(str_eq("abc", "abc"));
    assert!(!str_eq("abc", "abd"));
    assert!(!str_eq("abc", "ab"));
    assert!(str_eq("", ""));
    assert!(str_eq("grüß", "grüß"));
}

#[test]
fn condition_names_round_trip() {
    assert_eq!(WeatherCondition::from_name("clear"), Some(WeatherCondition::Clear));
    assert_eq!(
        WeatherCondition::from_name("thunderstorm-hail"),
        Some(WeatherCondition::ThunderstormHail)
    );
    assert_eq!(WeatherCondition::from_name("rain-showers"), Some(WeatherCondition::RainShowers));
    assert_eq!(WeatherCondition::from_name("sunny"), None);
    assert_eq!(WeatherCondition::from_name(""), None);
}

#[test]
fn weather_codes_fold_to_conditions() {
    assert_eq!(WeatherCondition::from_code(0), WeatherCondition::Clear);
    assert_eq!(WeatherCondition::from_code(1), WeatherCondition::Clear);
    assert_eq!(WeatherCondition::from_code(3), WeatherCondition::PartlyCloudy);
    assert_eq!(WeatherCondition::from_code(6), WeatherCondition::Fog);
    assert_eq!(WeatherCondition::from_code(8), WeatherCondition::Overcast);
    assert_eq!(WeatherCondition::from_code(10), WeatherCondition::RainShowers);
    assert_eq!(WeatherCondition::from_code(14), WeatherCondition::Rain);
    assert_eq!(WeatherCondition::from_code(17), WeatherCondition::FreezingRain);
    assert_eq!(WeatherCondition::from_code(20), WeatherCondition::Drizzle);
    assert_eq!(WeatherCondition::from_code(23), WeatherCondition::SnowShowers);
    assert_eq!(WeatherCondition::from_code(26), WeatherCondition::Snow);
    assert_eq!(WeatherCondition::from_code(29), WeatherCondition::Thunderstorm);
    assert_eq!(WeatherCondition::from_code(30), WeatherCondition::ThunderstormHail);
    assert_eq!(WeatherCondition::from_code(-1), WeatherCondition::Cloudy);
    assert_eq!(WeatherCondition::from_code(99), WeatherCondition::Cloudy);
}

#[test]
fn intensities_follow_the_condition_class() {
    assert!(WeatherCondition::Rain.is_raining());
    assert!(WeatherCondition::Thunderstorm.is_raining());
    assert!(!WeatherCondition::Snow.is_raining());
    assert!(WeatherCondition::Snow.is_snowing());
    assert!(WeatherCondition::ThunderstormHail.is_thunderstorm());
    assert_eq!(WeatherCondition::Drizzle.rain_intensity(), 1);
    assert_eq!(WeatherCondition::Thunderstorm.rain_intensity(), 3);
    assert_eq!(WeatherCondition::Clear.rain_intensity(), 0);
    assert_eq!(WeatherCondition::Snow.snow_intensity(), 2);
    assert_eq!(WeatherCondition::Clear.snow_intensity(), 0);
    assert_eq!(WeatherCondition::Fog.fog_intensity(), Some(FogIntensity::Medium));
    assert_eq!(WeatherCondition::Rain.fog_intensity(), None);
}

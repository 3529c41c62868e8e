//! The Met Office provider: configuration validation, URL, bucket
//! selection, unit normalisation, memo decision, and the end-to-end path
//! from a decoded answer to a cached consumer reading.

use weathr::cache::{cached_weather, make_location_key, WeatherCache};
use weathr::condition::WeatherCondition;
use weathr::error::{NetworkErrorKind, WeatherError};
use weathr::met_office::{
    choose_fetch, find_param, get_current_time_series, MetOfficeFeatures, MetOfficeFetchPlan,
    MetOfficeNamedParameter, MetOfficeParameter, MetOfficeParameterUnit, MetOfficeProvider,
    MetOfficeProviderConfig, MetOfficeProperties, MetOfficeResponse, MetOfficeTimeSeries,
};
use weathr::session::WeatherSession;
use weathr::types::{Provider, WeatherData, WeatherLocation};
use weathr::units::WeatherUnits;

// 2024-06-01T12:00Z as a Unix second.
const BUCKET_START: i64 = 1717243200;

fn config(key: &str) -> MetOfficeProviderConfig {
    MetOfficeProviderConfig {
        include_location_name: true,
        api_key: key.to_string(),
        data_source: String::new(),
    }
}

fn series(temperature_centi: i64, time: &str) -> MetOfficeTimeSeries {
    MetOfficeTimeSeries {
        feels_like_temperature_centi: 1750,
        mslp: 101300,
        precipitation_rate_centi: 0,
        probability_of_precipitation_centi: 500,
        screen_dew_point_temperature_centi: 900,
        screen_relative_humidity_centi: 6400,
        screen_temperature_centi: temperature_centi,
        significant_weather_code: 1,
        time: time.to_string(),
        uv_index: 5,
        visibility: 20000,
        wind_direction_from_10m: 225,
        wind_gust_speed_10m_centi: 1200,
        wind_speed_10m_centi: 800,
    }
}

fn celsius_parameter() -> MetOfficeNamedParameter {
    MetOfficeNamedParameter {
        name: "screenTemperature".to_string(),
        parameter: MetOfficeParameter {
            description: "Screen Air Temperature".to_string(),
            type_: "Parameter".to_string(),
            unit: MetOfficeParameterUnit {
                label: "degrees Celsius".to_string(),
                symbol: vec![("value".to_string(), "Cel".to_string())],
            },
        },
    }
}

fn answer(temperature_centi: i64) -> MetOfficeResponse {
    MetOfficeResponse {
        features: vec![MetOfficeFeatures {
            properties: MetOfficeProperties {
                time_series: vec![series(temperature_centi, "2024-06-01T12:00Z")],
            },
        }],
        parameters: vec![celsius_parameter()],
    }
}

fn berlin() -> WeatherLocation {
    WeatherLocation { latitude_centi: 5252, longitude_centi: 1341, elevation_meters: None }
}

#[test]
fn empty_api_key_is_a_configuration_error() {
    let refused = MetOfficeProvider::new(config(""));
    assert!(matches!(refused, Err(WeatherError::Config(_))));
}

#[test]
fn control_characters_in_the_key_are_refused() {
    let refused = MetOfficeProvider::new(config("abc\ndef"));
    assert!(matches!(refused, Err(WeatherError::Config(_))));
}

#[test]
fn valid_key_builds_and_defaults_the_data_source() {
    let provider = MetOfficeProvider::new(config("SECRET-REDACTED")).unwrap();
    assert_eq!(provider.config.data_source, "BD1");
    assert!(provider.config.include_location_name);
}

#[test]
fn url_carries_location_and_source() {
    let provider = MetOfficeProvider::new(config("SECRET-REDACTED")).unwrap();
    let url = provider.build_url(&berlin());
    assert_eq!(
        url,
        "https://data.hub.api.metoffice.gov.uk/sitespecific/v0/point/hourly?latitude=52.52&longitude=13.41&includeLocationName=true&dataSource=BD1"
    );
}

#[test]
fn out_of_bound_readings_are_rejected_by_the_wellformedness_check() {
    let data = answer(1800);
    assert!(weathr::met_office::response_wf(&data));
    let mut wild = answer(1800);
    wild.features[0].properties.time_series[0].mslp = 1_000_000_000;
    assert!(!weathr::met_office::response_wf(&wild));
}

#[test]
fn the_covering_hourly_bucket_is_selected() {
    let data = answer(1800);
    assert!(get_current_time_series(&data, BUCKET_START).is_some());
    assert!(get_current_time_series(&data, BUCKET_START + 3600).is_some());
    assert!(get_current_time_series(&data, BUCKET_START - 1).is_none());
    assert!(get_current_time_series(&data, BUCKET_START + 3601).is_none());
}

#[test]
fn find_param_returns_the_first_definition() {
    let params = vec![celsius_parameter()];
    let p = find_param(&params, "screenTemperature").unwrap();
    assert_eq!(p.unit.label, "degrees Celsius");
    assert!(find_param(&params, "windSpeed10m").is_none());
}

#[test]
fn celsius_reading_stays_celsius_in_metric() {
    let ts = series(1800, "2024-06-01T12:00Z");
    let t = ts.normalize_screen_temperature(&WeatherUnits::metric(), &vec![celsius_parameter()]);
    assert_eq!(t, 1800);
}

#[test]
fn fahrenheit_reading_is_converted_to_celsius() {
    let mut named = celsius_parameter();
    named.parameter.unit.label = "degrees Fahrenheit".to_string();
    let ts = series(6440, "2024-06-01T12:00Z");
    let t = ts.normalize_screen_temperature(&WeatherUnits::metric(), &vec![named]);
    assert_eq!(t, 1800, "(64.40 F - 32) * 5 / 9 is 18.00 C");
}

#[test]
fn imperial_display_converts_back_to_fahrenheit() {
    let ts = series(1800, "2024-06-01T12:00Z");
    let t = ts.normalize_screen_temperature(&WeatherUnits::imperial(), &vec![celsius_parameter()]);
    assert_eq!(t, 6440);
}

#[test]
fn a_held_lock_never_blocks_the_caller() {
    let memo = Some(answer(1800));
    assert_eq!(
        choose_fetch(false, &memo, BUCKET_START),
        MetOfficeFetchPlan::FetchIndependent
    );
}

#[test]
fn a_covering_memo_is_reused_and_a_stale_one_is_not() {
    let memo = Some(answer(1800));
    assert_eq!(choose_fetch(true, &memo, BUCKET_START + 60), MetOfficeFetchPlan::UseMemo);
    assert_eq!(
        choose_fetch(true, &memo, BUCKET_START + 7200),
        MetOfficeFetchPlan::FetchAndStore,
        "a memo whose buckets no longer cover now forces a fresh fetch"
    );
    assert_eq!(choose_fetch(true, &None, BUCKET_START), MetOfficeFetchPlan::FetchAndStore);
}

#[test]
fn respond_maps_the_covering_reading() {
    let provider = MetOfficeProvider::new(config("SECRET-REDACTED")).unwrap();
    let resp = provider
        .respond(&answer(1800), &berlin(), &WeatherUnits::metric(), BUCKET_START + 60)
        .unwrap();
    assert_eq!(resp.temperature_centi, 1800);
    assert_eq!(resp.apparent_temperature_centi, 1750);
    assert_eq!(resp.humidity_centi, 6400);
    assert_eq!(resp.wind_speed_centi, 1200);
    assert_eq!(resp.wind_direction_centi, 22500);
    assert_eq!(resp.pressure_centi, 10130000);
    assert_eq!(resp.visibility_centi, Some(2000000));
    assert_eq!(resp.weather_code, 1);
    assert_eq!(resp.timestamp, "2024-06-01T12:00Z");
    assert_eq!(resp.attribution, "Data supplied by the Met Office");
}

#[test]
fn respond_without_coverage_is_a_retryable_fault() {
    let provider = MetOfficeProvider::new(config("SECRET-REDACTED")).unwrap();
    let err = provider
        .respond(&answer(1800), &berlin(), &WeatherUnits::metric(), BUCKET_START + 7200)
        .unwrap_err();
    assert!(matches!(
        err,
        WeatherError::Network(NetworkErrorKind::ConnectionRefused { .. })
    ));
}

#[test]
fn fetched_reading_reaches_the_consumer_and_the_cache() {
    // Location (52.52, 13.41), metric units, and a provider answer of
    // 18.00 degrees under a clear sky.
    let provider = MetOfficeProvider::new(config("SECRET-REDACTED")).unwrap();
    let location = berlin();
    let resp = provider
        .respond(&answer(1800), &location, &WeatherUnits::metric(), BUCKET_START + 60)
        .unwrap();
    assert_eq!(resp.temperature_centi, 1800);

    let reading = WeatherData {
        condition: WeatherCondition::Clear,
        temperature_centi: resp.temperature_centi,
        apparent_temperature_centi: resp.apparent_temperature_centi,
        humidity_centi: resp.humidity_centi,
        precipitation_centi: resp.precipitation_centi,
        wind_speed_centi: resp.wind_speed_centi,
        wind_direction_centi: resp.wind_direction_centi,
        cloud_cover_centi: resp.cloud_cover_centi,
        pressure_centi: resp.pressure_centi,
        visibility_centi: resp.visibility_centi,
        is_day: resp.is_day != 0,
        moon_phase_milli: resp.moon_phase_milli,
        timestamp: resp.timestamp.clone(),
    };

    // The consumer receives exactly that value.
    let mut session = WeatherSession::new();
    session.apply_fetch_result(Ok(reading.clone()), reading.clone());
    assert_eq!(session.current_weather.as_ref(), Some(&reading));
    assert_eq!(session.current_weather.as_ref().unwrap().temperature_centi, 1800);
    assert_eq!(session.current_weather.as_ref().unwrap().condition, WeatherCondition::Clear);

    // A cache read for the same rounded location within 300 seconds
    // returns the same value without another call.
    let now: u64 = 1717243260;
    let entry = WeatherCache {
        data: reading.clone(),
        cached_at: now,
        location_key: make_location_key(location.latitude_centi, location.longitude_centi),
        provider: Provider::MetOffice,
    };
    let hit = cached_weather(
        entry,
        location.latitude_centi,
        location.longitude_centi,
        Provider::MetOffice,
        now + 299,
    );
    assert_eq!(hit, Some(reading));
}

//! Cache validity: the TTL boundary, key matching, and the location key
//! text itself.

use weathr::cache::{
    cached_geocode, cached_location, cached_weather, make_location_key, GeocodeCache,
    LocationCache, WeatherCache, GEOCODE_CACHE_DURATION_SECS, LOCATION_CACHE_DURATION_SECS,
    WEATHER_CACHE_DURATION_SECS,
};
use weathr::condition::WeatherCondition;
use weathr::types::{GeoLocation, Provider, WeatherData};

fn reading(temperature_centi: i64) -> WeatherData {
    WeatherData {
        condition: WeatherCondition::Clear,
        temperature_centi,
        apparent_temperature_centi: temperature_centi,
        humidity_centi: 5000,
        precipitation_centi: 0,
        wind_speed_centi: 1000,
        wind_direction_centi: 9000,
        cloud_cover_centi: 2000,
        pressure_centi: 101300,
        visibility_centi: Some(1000000),
        is_day: true,
        moon_phase_milli: Some(500),
        timestamp: "2024-06-01T12:00Z".to_string(),
    }
}

fn weather_entry(cached_at: u64) -> WeatherCache {
    WeatherCache {
        data: reading(1800),
        cached_at,
        location_key: make_location_key(5252, 1341),
        provider: Provider::OpenMeteo,
    }
}

#[test]
fn location_key_renders_two_decimals() {
    assert_eq!(make_location_key(5252, 1341), "52.52,13.41");
    assert_eq!(make_location_key(-50, 5), "-0.50,0.05");
    assert_eq!(make_location_key(0, -18000), "0.00,-180.00");
}

#[test]
fn weather_read_inside_ttl_hits_and_past_ttl_misses() {
    let ttl = WEATHER_CACHE_DURATION_SECS;
    assert_eq!(ttl, 300);
    let entry = weather_entry(10_000);
    let fresh = cached_weather(entry.clone(), 5252, 1341, Provider::OpenMeteo, 10_000 + ttl - 1);
    assert_eq!(fresh, Some(reading(1800)));
    let stale = cached_weather(entry, 5252, 1341, Provider::OpenMeteo, 10_000 + ttl + 1);
    assert_eq!(stale, None);
}

#[test]
fn weather_read_exactly_at_ttl_misses() {
    let entry = weather_entry(10_000);
    let at_ttl = cached_weather(
        entry,
        5252,
        1341,
        Provider::OpenMeteo,
        10_000 + WEATHER_CACHE_DURATION_SECS,
    );
    assert_eq!(at_ttl, None, "freshness is strict");
}

#[test]
fn weather_read_with_mismatched_location_misses() {
    let entry = weather_entry(10_000);
    let other_location = cached_weather(entry, 5253, 1341, Provider::OpenMeteo, 10_001);
    assert_eq!(other_location, None, "a different rounded location misses even when fresh");
}

#[test]
fn weather_read_with_mismatched_provider_misses() {
    let entry = weather_entry(10_000);
    let other_provider = cached_weather(entry, 5252, 1341, Provider::MetOffice, 10_001);
    assert_eq!(other_provider, None, "a different provider misses even when fresh");
}

#[test]
fn entry_stamped_in_the_future_misses() {
    let entry = weather_entry(10_000);
    assert_eq!(cached_weather(entry, 5252, 1341, Provider::OpenMeteo, 9_999), None);
}

#[test]
fn location_slot_obeys_its_day_long_ttl() {
    let ttl = LOCATION_CACHE_DURATION_SECS;
    assert_eq!(ttl, 86400);
    let home = GeoLocation {
        latitude_centi: 5252,
        longitude_centi: 1341,
        city: Some("Berlin".to_string()),
    };
    let entry = LocationCache { location: home.clone(), cached_at: 1_000_000 };
    assert_eq!(cached_location(entry.clone(), 1_000_000 + ttl - 1), Some(home));
    assert_eq!(cached_location(entry, 1_000_000 + ttl + 1), None);
}

#[test]
fn geocode_read_matches_location_and_language() {
    let ttl = GEOCODE_CACHE_DURATION_SECS;
    let entry = GeocodeCache {
        city_name: "Berlin".to_string(),
        cached_at: 500,
        location_key: make_location_key(5252, 1341),
        language: "en".to_string(),
    };
    assert_eq!(
        cached_geocode(entry.clone(), 5252, 1341, "en", 500 + ttl - 1),
        Some("Berlin".to_string())
    );
    assert_eq!(cached_geocode(entry.clone(), 5252, 1341, "de", 501), None);
    assert_eq!(cached_geocode(entry.clone(), 4852, 235, "en", 501), None);
    assert_eq!(cached_geocode(entry, 5252, 1341, "en", 500 + ttl + 1), None);
}

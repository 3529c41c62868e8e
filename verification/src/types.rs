//! Core data model of the pipeline.
//!
//! Coordinates and readings are carried as fixed-point integers: hundredths
//! of a degree for latitude and longitude (the cache-key resolution),
//! hundredths of a unit for the weather variables, and thousandths for the
//! moon phase on its `[0, 1)` scale.

use vstd::prelude::*;

verus! {

/// The identity of a remote weather source, part of the weather cache key.
#[derive(Clone, Copy, Debug, PartialEq, Eq, Structural)]
pub enum Provider {
    OpenMeteo,
    MetOffice,
}

/// The query point of a weather request. Two locations are the same cache
/// key exactly when these hundredth-degree coordinates are equal.
#[derive(Clone, Copy, Debug, PartialEq, Eq, Structural)]
pub struct WeatherLocation {
    /// Latitude in hundredths of a degree.
    pub latitude_centi: i64,
    /// Longitude in hundredths of a degree.
    pub longitude_centi: i64,
    /// Elevation above sea level in metres, when known.
    pub elevation_meters: Option<i64>,
}

/// A geolocated point with its place name, as geocoding resolves it.
#[derive(Clone, Debug, PartialEq, Eq)]
pub struct GeoLocation {
    /// Latitude in hundredths of a degree.
    pub latitude_centi: i64,
    /// Longitude in hundredths of a degree.
    pub longitude_centi: i64,
    /// The resolved city name, when known.
    pub city: Option<String>,
}

/// A normalized current-weather reading. All `*_centi` fields are
/// hundredths of their unit.
#[derive(Clone, Debug, PartialEq, Eq)]
pub struct WeatherData {
    pub condition: crate::condition::WeatherCondition,
    pub temperature_centi: i64,
    pub apparent_temperature_centi: i64,
    pub humidity_centi: i64,
    pub precipitation_centi: i64,
    pub wind_speed_centi: i64,
    pub wind_direction_centi: i64,
    pub cloud_cover_centi: i64,
    pub pressure_centi: i64,
    pub visibility_centi: Option<i64>,
    pub is_day: bool,
    /// Moon phase in thousandths of the `[0, 1)` cycle, when known.
    pub moon_phase_milli: Option<u32>,
    /// ISO-8601 timestamp of the reading.
    pub timestamp: String,
}

/// What a provider call answers before normalisation into [`WeatherData`]:
/// the same variables plus the provider's own code, day flag and credit.
#[derive(Clone, Debug, PartialEq, Eq)]
pub struct WeatherProviderResponse {
    /// The provider's native condition code.
    pub weather_code: i32,
    pub temperature_centi: i64,
    pub apparent_temperature_centi: i64,
    pub humidity_centi: i64,
    pub precipitation_centi: i64,
    pub wind_speed_centi: i64,
    pub wind_direction_centi: i64,
    pub cloud_cover_centi: i64,
    pub pressure_centi: i64,
    pub visibility_centi: Option<i64>,
    /// Nonzero when the reading was taken in daylight.
    pub is_day: i32,
    /// Moon phase in thousandths of the `[0, 1)` cycle, when known.
    pub moon_phase_milli: Option<u32>,
    /// ISO-8601 timestamp of the reading.
    pub timestamp: String,
    /// The provider's required attribution text.
    pub attribution: String,
}

/// A geocoding match for a city query.
#[derive(Clone, Debug, PartialEq, Eq)]
pub struct GeocodedLocation {
    /// Latitude in hundredths of a degree.
    pub latitude_centi: i64,
    /// Longitude in hundredths of a degree.
    pub longitude_centi: i64,
    /// The matched place name.
    pub name: String,
    /// The country of the match, when the index reports one.
    pub country: Option<String>,
}

} // verus!

//! TTL/key validity rules of the on-disk caches.
//!
//! Three artifact kinds (resolved location, geocoded city name, current
//! weather) share one mechanism: a read is valid only while the entry's age
//! is strictly below the kind's time-to-live AND the stored key equals the
//! key freshly computed for the current request. Everything else — a stale
//! entry, a key mismatch — is uniformly a miss, never an error. Reading and
//! writing the files themselves is unverified I/O around this module; it
//! hands whole records in and takes the validated value back.

use vstd::prelude::*;

verus! {

/// Seconds a cached resolved location stays valid.
pub const LOCATION_CACHE_DURATION_SECS: u64 = 86400;

/// Seconds a cached geocoded city name stays valid.
pub const GEOCODE_CACHE_DURATION_SECS: u64 = 86400;

/// Seconds a cached weather reading stays valid.
pub const WEATHER_CACHE_DURATION_SECS: u64 = 300;

/// A cached entry is fresh while its age is strictly below the
/// time-to-live. An entry stamped in the future is never fresh.
pub open spec fn spec_is_fresh(cached_at: u64, now: u64, ttl: u64) -> bool {
    cached_at <= now && now - cached_at < ttl
}

/// Executable freshness test, faithful to [`spec_is_fresh`].
pub fn cache_is_fresh(cached_at: u64, now: u64, ttl: u64) -> (fresh: bool)
    ensures
        fresh == spec_is_fresh(cached_at, now, ttl),
{
    cached_at <= now && now - cached_at < ttl
}

/// The location cache key: both coordinates at hundredth-degree resolution,
/// rendered with two decimal places and joined by a comma.
pub open spec fn spec_location_key(lat_centi: int, lon_centi: int) -> Seq<char> {
    crate::text::spec_centi(lat_centi) + ","@ + crate::text::spec_centi(lon_centi)
}

/// Render the location cache key, as in `(5252, 1341) -> "52.52,13.41"`.
pub fn make_location_key(lat_centi: i64, lon_centi: i64) -> (r: String)
    requires
        lat_centi > i64::MIN,
        lon_centi > i64::MIN,
    ensures
        r@ == spec_location_key(lat_centi as int, lon_centi as int),
{
    let lat = crate::text::format_centi(lat_centi);
    let lon = crate::text::format_centi(lon_centi);
    lat.concat(",").concat(lon.as_str())
}

/// The single-slot record of the last known location.
#[derive(Clone, Debug, PartialEq, Eq)]
pub struct LocationCache {
    pub location: crate::types::GeoLocation,
    /// Seconds since the epoch when the entry was written.
    pub cached_at: u64,
}

/// The cached geocoded city name and the dimensions it is keyed by.
#[derive(Clone, Debug, PartialEq, Eq)]
pub struct GeocodeCache {
    pub city_name: String,
    /// Seconds since the epoch when the entry was written.
    pub cached_at: u64,
    /// The rounded-location key the name was resolved for.
    pub location_key: String,
    /// The language tag the name was resolved in.
    pub language: String,
}

/// The cached weather reading and the dimensions it is keyed by.
#[derive(Clone, Debug, PartialEq, Eq)]
pub struct WeatherCache {
    pub data: crate::types::WeatherData,
    /// Seconds since the epoch when the entry was written.
    pub cached_at: u64,
    /// The rounded-location key the reading was fetched for.
    pub location_key: String,
    /// The provider that produced the reading.
    pub provider: crate::types::Provider,
}

/// Whether a location-cache read at `now` hits: the slot is unkeyed, so
/// only freshness decides.
pub open spec fn spec_location_cache_hit(cache: LocationCache, now: u64) -> bool {
    spec_is_fresh(cache.cached_at, now, LOCATION_CACHE_DURATION_SECS)
}

/// Validate a location cache record read at `now`; a stale record is a
/// miss.
pub fn cached_location(cache: LocationCache, now: u64) -> (r: Option<crate::types::GeoLocation>)
    ensures
        r == if spec_location_cache_hit(cache, now) {
            Some(cache.location)
        } else {
            None::<crate::types::GeoLocation>
        },
{
    if cache_is_fresh(cache.cached_at, now, LOCATION_CACHE_DURATION_SECS) {
        Some(cache.location)
    } else {
        None
    }
}

/// Whether a geocode-cache read hits: the stored key must equal the key of
/// the requested rounded location, the stored language must equal the
/// requested language, and the entry must be fresh.
pub open spec fn spec_geocode_cache_hit(
    cache: GeocodeCache,
    lat_centi: int,
    lon_centi: int,
    language: Seq<char>,
    now: u64,
) -> bool {
    &&& cache.location_key@ == spec_location_key(lat_centi, lon_centi)
    &&& cache.language@ == language
    &&& spec_is_fresh(cache.cached_at, now, GEOCODE_CACHE_DURATION_SECS)
}

/// Validate a geocode cache record read at `now` for the given rounded
/// location and language; any mismatch or staleness is a miss.
pub fn cached_geocode(
    cache: GeocodeCache,
    lat_centi: i64,
    lon_centi: i64,
    language: &str,
    now: u64,
) -> (r: Option<String>)
    requires
        lat_centi > i64::MIN,
        lon_centi > i64::MIN,
    ensures
        r == if spec_geocode_cache_hit(cache, lat_centi as int, lon_centi as int, language@, now) {
            Some(cache.city_name)
        } else {
            None::<String>
        },
{
    let key = make_location_key(lat_centi, lon_centi);
    if !crate::text::str_eq(cache.location_key.as_str(), key.as_str()) {
        return None;
    }
    if !crate::text::str_eq(cache.language.as_str(), language) {
        return None;
    }
    if cache_is_fresh(cache.cached_at, now, GEOCODE_CACHE_DURATION_SECS) {
        Some(cache.city_name)
    } else {
        None
    }
}

/// Whether a weather-cache read hits: the stored key must equal the key of
/// the requested rounded location, the stored provider must be the
/// requested provider, and the entry must be fresh.
pub open spec fn spec_weather_cache_hit(
    cache: WeatherCache,
    lat_centi: int,
    lon_centi: int,
    provider: crate::types::Provider,
    now: u64,
) -> bool {
    &&& cache.location_key@ == spec_location_key(lat_centi, lon_centi)
    &&& cache.provider == provider
    &&& spec_is_fresh(cache.cached_at, now, WEATHER_CACHE_DURATION_SECS)
}

/// Validate a weather cache record read at `now` for the given rounded
/// location and provider; any mismatch or staleness is a miss.
pub fn cached_weather(
    cache: WeatherCache,
    lat_centi: i64,
    lon_centi: i64,
    provider: crate::types::Provider,
    now: u64,
) -> (r: Option<crate::types::WeatherData>)
    requires
        lat_centi > i64::MIN,
        lon_centi > i64::MIN,
    ensures
        r == if spec_weather_cache_hit(
            cache,
            lat_centi as int,
            lon_centi as int,
            provider,
            now,
        ) {
            Some(cache.data)
        } else {
            None::<crate::types::WeatherData>
        },
{
    let key = make_location_key(lat_centi, lon_centi);
    if !crate::text::str_eq(cache.location_key.as_str(), key.as_str()) {
        return None;
    }
    if cache.provider != provider {
        return None;
    }
    if cache_is_fresh(cache.cached_at, now, WEATHER_CACHE_DURATION_SECS) {
        Some(cache.data)
    } else {
        None
    }
}

/// A read one second inside the time-to-live hits; a read one second past
/// it misses. Stated for an entry whose key dimensions match the request.
pub proof fn lemma_cache_ttl_boundary(
    cache: WeatherCache,
    lat_centi: int,
    lon_centi: int,
    ttl: u64,
)
    requires
        cache.location_key@ == spec_location_key(lat_centi, lon_centi),
        ttl == WEATHER_CACHE_DURATION_SECS,
        ttl >= 2,
        cache.cached_at + ttl + 1 <= u64::MAX,
    ensures
        spec_weather_cache_hit(
            cache,
            lat_centi,
            lon_centi,
            cache.provider,
            (cache.cached_at + (ttl - 1)) as u64,
        ),
        !spec_weather_cache_hit(
            cache,
            lat_centi,
            lon_centi,
            cache.provider,
            (cache.cached_at + (ttl + 1)) as u64,
        ),
{
}

/// A fresh entry whose rounded location or provider differs from the
/// request is still a miss.
pub proof fn lemma_cache_key_mismatch(
    cache: WeatherCache,
    lat_centi: int,
    lon_centi: int,
    provider: crate::types::Provider,
    now: u64,
)
    requires
        cache.location_key@ != spec_location_key(lat_centi, lon_centi) || cache.provider
            != provider,
    ensures
        !spec_weather_cache_hit(cache, lat_centi, lon_centi, provider, now),
{
}

} // verus!

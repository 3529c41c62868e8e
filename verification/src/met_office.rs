//! The Met Office site-specific provider: configuration validation,
//! request URL, selection of the hourly bucket that covers "now", unit
//! normalisation, and the mapping into the normalized response.
//!
//! The provider is rate limited, so its last raw answer is memoized in a
//! single slot guarded by a non-blocking lock; [`choose_fetch`] decides,
//! from the lock attempt and the memo, whether to reuse the memo, fetch and
//! store, or fetch independently. The HTTP call, the JSON decoding and the
//! lock itself are unverified plumbing around this module.

use vstd::prelude::*;
use vstd::string::StringSliceAdditionalSpecFns;

verus! {

/// The Met Office site-specific endpoint.
pub open spec fn spec_met_office_base_url() -> Seq<char> {
    "https://data.hub.api.metoffice.gov.uk/sitespecific/v0"@
}

/// Configuration of the Met Office provider.
#[derive(Clone, Debug, PartialEq, Eq)]
pub struct MetOfficeProviderConfig {
    /// Whether the request asks the service to include the location name.
    pub include_location_name: bool,
    /// The API key sent with every request.
    pub api_key: String,
    /// The data source tag of the request; empty means the default.
    pub data_source: String,
}

impl Default for MetOfficeProviderConfig {
    /// The default configuration: location names on, the standard data
    /// source, and no key yet.
    fn default() -> (r: Self)
        ensures
            r.include_location_name,
            r.api_key@ == Seq::<char>::empty(),
            r.data_source@ == "BD1"@,
    {
        MetOfficeProviderConfig {
            include_location_name: true,
            api_key: String::new(),
            data_source: String::from_str("BD1"),
        }
    }
}

/// A key is usable when it is nonempty and every byte is visible ASCII
/// (32 to 126), the range the HTTP header accepts.
pub open spec fn spec_valid_api_key(key: Seq<char>) -> bool {
    let bytes = vstd::utf8::encode_utf8(key);
    bytes.len() > 0 && forall|i: int| 0 <= i < bytes.len() ==> 32 <= #[trigger] bytes[i] < 127
}

/// One unit definition of the response's parameter table.
#[derive(Clone, Debug, PartialEq, Eq)]
pub struct MetOfficeParameterUnit {
    /// The human-readable unit name, e.g. `degrees Celsius`.
    pub label: String,
    /// Symbol entries of the unit definition.
    pub symbol: Vec<(String, String)>,
}

/// One parameter definition of the response's parameter table.
#[derive(Clone, Debug, PartialEq, Eq)]
pub struct MetOfficeParameter {
    pub description: String,
    /// The definition's kind tag; a real definition carries `Parameter`.
    pub type_: String,
    pub unit: MetOfficeParameterUnit,
}

/// A parameter definition together with the field name it describes.
#[derive(Clone, Debug, PartialEq, Eq)]
pub struct MetOfficeNamedParameter {
    pub name: String,
    pub parameter: MetOfficeParameter,
}

/// One hourly reading of the response's time series. Temperatures, rates
/// and speeds are hundredths of their unit.
#[derive(Clone, Debug, PartialEq, Eq)]
pub struct MetOfficeTimeSeries {
    pub feels_like_temperature_centi: i64,
    /// Mean sea level pressure, pascal.
    pub mslp: u64,
    pub precipitation_rate_centi: i64,
    pub probability_of_precipitation_centi: i64,
    pub screen_dew_point_temperature_centi: i64,
    pub screen_relative_humidity_centi: i64,
    pub screen_temperature_centi: i64,
    pub significant_weather_code: i32,
    /// The bucket's start time as the service writes it, e.g.
    /// `2024-01-01T12:00Z`.
    pub time: String,
    pub uv_index: u64,
    /// Visibility in metres.
    pub visibility: u64,
    /// Wind direction in whole degrees.
    pub wind_direction_from_10m: u64,
    pub wind_gust_speed_10m_centi: i64,
    pub wind_speed_10m_centi: i64,
}

/// One feature of the response.
#[derive(Clone, Debug, PartialEq, Eq)]
pub struct MetOfficeFeatures {
    pub properties: MetOfficeProperties,
}

/// The properties of a feature: its hourly time series.
#[derive(Clone, Debug, PartialEq, Eq)]
pub struct MetOfficeProperties {
    pub time_series: Vec<MetOfficeTimeSeries>,
}

/// A decoded Met Office answer: features and the parameter table that maps
/// raw readings to clean units.
#[derive(Clone, Debug, PartialEq, Eq)]
pub struct MetOfficeResponse {
    pub features: Vec<MetOfficeFeatures>,
    pub parameters: Vec<MetOfficeNamedParameter>,
}

/// The values of one reading stay within physical and format bounds; the
/// arithmetic of the mapping cannot overflow under them.
pub open spec fn spec_series_wf(ts: MetOfficeTimeSeries) -> bool {
    &&& -crate::units::TEMPERATURE_CENTI_LIMIT <= ts.screen_temperature_centi
        <= crate::units::TEMPERATURE_CENTI_LIMIT
    &&& ts.mslp < 100_000_000
    &&& ts.uv_index < 1000
    &&& ts.visibility < 100_000_000
    &&& ts.wind_direction_from_10m < 100_000
}

/// Every reading of the response is within bounds.
pub open spec fn spec_response_wf(data: MetOfficeResponse) -> bool {
    forall|f: int, i: int|
        0 <= f < data.features@.len() && 0 <= i
            < data.features@[f].properties.time_series@.len() ==> spec_series_wf(
            #[trigger] data.features@[f].properties.time_series@[i],
        )
}

/// Executable bounds check for one reading, faithful to
/// [`spec_series_wf`].
pub fn series_wf(ts: &MetOfficeTimeSeries) -> (r: bool)
    ensures
        r == spec_series_wf(*ts),
{
    -crate::units::TEMPERATURE_CENTI_LIMIT <= ts.screen_temperature_centi
        && ts.screen_temperature_centi <= crate::units::TEMPERATURE_CENTI_LIMIT && ts.mslp
        < 100_000_000 && ts.uv_index < 1000 && ts.visibility < 100_000_000
        && ts.wind_direction_from_10m < 100_000
}

/// Executable bounds check for a whole response, faithful to
/// [`spec_response_wf`].
pub fn response_wf(data: &MetOfficeResponse) -> (r: bool)
    ensures
        r == spec_response_wf(*data),
{
    let mut f: usize = 0;
    while f < data.features.len()
        invariant
            0 <= f <= data.features@.len(),
            forall|g: int, i: int|
                0 <= g < f && 0 <= i < data.features@[g].properties.time_series@.len()
                    ==> spec_series_wf(#[trigger] data.features@[g].properties.time_series@[i]),
        decreases data.features@.len() - f,
    {
        let series = &data.features[f].properties.time_series;
        let mut i: usize = 0;
        while i < series.len()
            invariant
                0 <= i <= series@.len(),
                series@ == data.features@[f as int].properties.time_series@,
                0 <= f < data.features@.len(),
                forall|j: int| 0 <= j < i ==> spec_series_wf(#[trigger] series@[j]),
            decreases series@.len() - i,
        {
            if !series_wf(&series[i]) {
                return false;
            }
            i = i + 1;
        }
        f = f + 1;
    }
    true
}

/// The Met Office provider: its validated configuration. The HTTP client
/// and the memo slot built around it live with the transport.
pub struct MetOfficeProvider {
    pub config: MetOfficeProviderConfig,
}

impl MetOfficeProvider {
    /// Validate a configuration into a provider. An empty data source
    /// falls back to the default; an absent or non-visible-ASCII key is a
    /// configuration error, never a silent success.
    pub fn new(config: MetOfficeProviderConfig) -> (r: Result<
        MetOfficeProvider,
        crate::error::WeatherError,
    >)
        ensures
            match r {
                Result::Ok(p) => {
                    &&& spec_valid_api_key(config.api_key@)
                    &&& p.config.api_key@ == config.api_key@
                    &&& p.config.include_location_name == config.include_location_name
                    &&& p.config.data_source@ == if config.data_source@ =~= Seq::<char>::empty() {
                        "BD1"@
                    } else {
                        config.data_source@
                    }
                },
                Result::Err(e) => {
                    &&& !spec_valid_api_key(config.api_key@)
                    &&& e matches crate::error::WeatherError::Config(_)
                },
            },
    {
        let MetOfficeProviderConfig { include_location_name, api_key, data_source } = config;
        let data_source = if data_source.as_str().is_empty() {
            proof {
                assert(data_source@ =~= Seq::<char>::empty());
            }
            String::from_str("BD1")
        } else {
            data_source
        };
        if !valid_api_key(api_key.as_str()) {
            return Err(
                crate::error::WeatherError::Config(
                    crate::error::ConfigError::InvalidApiKey {
                        reason: String::from_str(
                            "the API key must be nonempty, with only visible ASCII characters",
                        ),
                    },
                ),
            );
        }
        Ok(MetOfficeProvider {
            config: MetOfficeProviderConfig { include_location_name, api_key, data_source },
        })
    }

    /// The hourly point request URL for a location under this
    /// configuration.
    pub fn build_url(&self, location: &crate::types::WeatherLocation) -> (r: String)
        requires
            location.latitude_centi > i64::MIN,
            location.longitude_centi > i64::MIN,
        ensures
            r@ == spec_met_office_url(self.config, *location),
    {
        let lat = crate::text::format_centi(location.latitude_centi);
        let lon = crate::text::format_centi(location.longitude_centi);
        let flag: &'static str = if self.config.include_location_name {
            "true"
        } else {
            "false"
        };
        proof {
            reveal_strlit("true");
            reveal_strlit("false");
        }
        String::from_str("https://data.hub.api.metoffice.gov.uk/sitespecific/v0").concat(
            "/point/hourly?latitude=",
        ).concat(lat.as_str()).concat("&longitude=").concat(lon.as_str()).concat(
            "&includeLocationName=",
        ).concat(flag).concat("&dataSource=").concat(self.config.data_source.as_str())
    }
}

/// The hourly point request URL a configuration produces for a location.
pub open spec fn spec_met_office_url(
    config: MetOfficeProviderConfig,
    location: crate::types::WeatherLocation,
) -> Seq<char> {
    spec_met_office_base_url() + "/point/hourly?latitude="@ + crate::text::spec_centi(
        location.latitude_centi as int,
    ) + "&longitude="@ + crate::text::spec_centi(location.longitude_centi as int)
        + "&includeLocationName="@ + (if config.include_location_name {
        "true"@
    } else {
        "false"@
    }) + "&dataSource="@ + config.data_source@
}

/// Executable API key check, faithful to [`spec_valid_api_key`].
fn valid_api_key(key: &str) -> (r: bool)
    ensures
        r == spec_valid_api_key(key@),
{
    let bytes = key.as_bytes();
    if bytes.len() == 0 {
        return false;
    }
    let mut i: usize = 0;
    while i < bytes.len()
        invariant
            0 <= i <= bytes@.len(),
            bytes@ == key.spec_bytes(),
            forall|j: int| 0 <= j < i ==> 32 <= #[trigger] bytes@[j] < 127,
        decreases bytes@.len() - i,
    {
        let b = bytes[i];
        if b < 32 || b >= 127 {
            return false;
        }
        i = i + 1;
    }
    true
}

/// The loose bucket time with seconds restored: every `Z` byte becomes
/// `:00Z`, as the service omits the seconds.
pub open spec fn spec_znorm_bytes(b: Seq<u8>) -> Seq<u8>
    decreases b.len(),
{
    if b.len() == 0 {
        Seq::empty()
    } else if b.last() == 0x5A {
        spec_znorm_bytes(b.drop_last()) + seq![0x3Au8, 0x30u8, 0x30u8, 0x5Au8]
    } else {
        spec_znorm_bytes(b.drop_last()) + seq![b.last()]
    }
}

/// The epoch second a bucket's time text denotes: the text must be ASCII
/// and, with seconds restored, parse as a UTC timestamp.
pub open spec fn spec_bucket_start(time: Seq<char>) -> Option<i64> {
    let bytes = vstd::utf8::encode_utf8(time);
    if forall|i: int| 0 <= i < bytes.len() ==> #[trigger] bytes[i] < 128 {
        crate::clock::utc_seconds_of(spec_znorm_bytes(bytes).map_values(|b: u8| b as char))
    } else {
        None
    }
}

/// Whether one hourly reading's bucket covers the epoch second `now`: the
/// bucket runs from its start time to one hour after, both ends included.
pub open spec fn spec_series_covers(ts: MetOfficeTimeSeries, now: i64) -> bool {
    spec_bucket_start(ts.time@) matches Some(start) && start <= now <= start + 3600
}

/// Decide whether one hourly reading's bucket covers `now`.
pub fn series_covers(ts: &MetOfficeTimeSeries, now: i64) -> (r: bool)
    ensures
        r == spec_series_covers(*ts, now),
{
    let bytes = ts.time.as_str().as_bytes();
    let mut out: Vec<u8> = Vec::new();
    let mut i: usize = 0;
    while i < bytes.len()
        invariant
            0 <= i <= bytes@.len(),
            bytes@ == vstd::utf8::encode_utf8(ts.time@),
            forall|j: int| 0 <= j < i ==> #[trigger] bytes@[j] < 128,
            forall|j: int| 0 <= j < out@.len() ==> #[trigger] out@[j] < 128,
            out@ =~= spec_znorm_bytes(bytes@.take(i as int)),
        decreases bytes@.len() - i,
    {
        let b = bytes[i];
        if b >= 128 {
            return false;
        }
        proof {
            assert(bytes@.take(i + 1).drop_last() =~= bytes@.take(i as int));
            assert(bytes@.take(i + 1).last() == b);
        }
        if b == 0x5A {
            out.push(0x3A);
            out.push(0x30);
            out.push(0x30);
            out.push(0x5A);
        } else {
            out.push(b);
        }
        proof {
            assert(out@ =~= spec_znorm_bytes(bytes@.take(i + 1)));
        }
        i = i + 1;
    }
    proof {
        assert(bytes@.take(bytes@.len() as int) =~= bytes@);
    }
    let normalized = crate::geocoding::ascii_bytes_to_string(out);
    proof {
        assert(normalized@ =~= spec_znorm_bytes(bytes@).map_values(|b: u8| b as char));
    }
    match crate::clock::parse_utc_timestamp(normalized.as_str()) {
        Some(start) => start <= now && (now as i128) - (start as i128) <= 3600,
        None => false,
    }
}

/// The first hourly reading of the first feature whose bucket covers
/// `now`, when the response has a feature and such a reading.
pub fn get_current_time_series<'a>(data: &'a MetOfficeResponse, now: i64) -> (r: Option<
    &'a MetOfficeTimeSeries,
>)
    ensures
        match r {
            Some(ts) => {
                &&& data.features@.len() > 0
                &&& exists|i: int|
                    {
                        &&& 0 <= i < data.features@[0].properties.time_series@.len()
                        &&& spec_series_covers(
                            #[trigger] data.features@[0].properties.time_series@[i],
                            now,
                        )
                        &&& *ts == data.features@[0].properties.time_series@[i]
                        &&& forall|j: int| 0 <= j < i ==> !spec_series_covers(
                            #[trigger] data.features@[0].properties.time_series@[j],
                            now,
                        )
                    }
            },
            None => data.features@.len() == 0 || forall|i: int|
                0 <= i < data.features@[0].properties.time_series@.len()
                    ==> !spec_series_covers(
                    #[trigger] data.features@[0].properties.time_series@[i],
                    now,
                ),
        },
{
    if data.features.len() == 0 {
        return None;
    }
    let series = &data.features[0].properties.time_series;
    let mut i: usize = 0;
    while i < series.len()
        invariant
            0 <= i <= series@.len(),
            series@ == data.features@[0].properties.time_series@,
            data.features@.len() > 0,
            forall|j: int| 0 <= j < i ==> !spec_series_covers(#[trigger] series@[j], now),
        decreases series@.len() - i,
    {
        if series_covers(&series[i], now) {
            return Some(&series[i]);
        }
        i = i + 1;
    }
    None
}

/// Whether the response holds a bucket covering `now`: exactly when
/// [`get_current_time_series`] finds one.
pub open spec fn spec_response_covers(data: MetOfficeResponse, now: i64) -> bool {
    data.features@.len() > 0 && exists|i: int|
        0 <= i < data.features@[0].properties.time_series@.len() && spec_series_covers(
            #[trigger] data.features@[0].properties.time_series@[i],
            now,
        )
}

/// How the rate-limited provider obtains its data.
#[derive(Clone, Copy, Debug, PartialEq, Eq, Structural)]
pub enum MetOfficeFetchPlan {
    /// Reuse the memoized answer.
    UseMemo,
    /// Fetch fresh and store the answer in the memo slot.
    FetchAndStore,
    /// The memo lock is held by a concurrent caller: fetch independently
    /// rather than block, and leave the memo alone.
    FetchIndependent,
}

/// Decide how to obtain data, from the non-blocking lock attempt and the
/// memo contents: a held lock never blocks the caller; a memo is reused
/// only while one of its hourly buckets still covers `now`, else a fresh
/// fetch happens unconditionally.
pub fn choose_fetch(lock_acquired: bool, memo: &Option<MetOfficeResponse>, now: i64) -> (r:
    MetOfficeFetchPlan)
    ensures
        r == if !lock_acquired {
            MetOfficeFetchPlan::FetchIndependent
        } else if *memo matches Some(data) && spec_response_covers(data, now) {
            MetOfficeFetchPlan::UseMemo
        } else {
            MetOfficeFetchPlan::FetchAndStore
        },
{
    if !lock_acquired {
        return MetOfficeFetchPlan::FetchIndependent;
    }
    match memo {
        Some(data) => {
            if get_current_time_series(data, now).is_some() {
                MetOfficeFetchPlan::UseMemo
            } else {
                MetOfficeFetchPlan::FetchAndStore
            }
        },
        None => MetOfficeFetchPlan::FetchAndStore,
    }
}

/// The first parameter definition under `name`, when the table has one.
pub open spec fn spec_find_param(
    params: Seq<MetOfficeNamedParameter>,
    name: Seq<char>,
) -> Option<MetOfficeParameter>
    decreases params.len(),
{
    if params.len() == 0 {
        None
    } else if params[0].name@ == name {
        Some(params[0].parameter)
    } else {
        spec_find_param(params.subrange(1, params.len() as int), name)
    }
}

/// Find the first parameter definition under `name`.
pub fn find_param<'a>(params: &'a Vec<MetOfficeNamedParameter>, name: &str) -> (r: Option<
    &'a MetOfficeParameter,
>)
    ensures
        match r {
            Some(p) => spec_find_param(params@, name@) == Some(*p),
            None => spec_find_param(params@, name@) is None,
        },
{
    proof {
        assert(params@.subrange(0, params@.len() as int) =~= params@);
    }
    let mut i: usize = 0;
    while i < params.len()
        invariant
            0 <= i <= params@.len(),
            spec_find_param(params@, name@) == spec_find_param(
                params@.subrange(i as int, params@.len() as int),
                name@,
            ),
        decreases params@.len() - i,
    {
        proof {
            let tail = params@.subrange(i as int, params@.len() as int);
            assert(tail[0] == params@[i as int]);
            assert(tail.subrange(1, tail.len() as int) =~= params@.subrange(
                i + 1,
                params@.len() as int,
            ));
        }
        if crate::text::str_eq(params[i].name.as_str(), name) {
            return Some(&params[i].parameter);
        }
        i = i + 1;
    }
    None
}

/// The screen temperature a reading normalises to: the raw value is
/// Celsius when the parameter table says `degrees Celsius` or carries no
/// real definition, else Fahrenheit; the result is in the display unit.
pub open spec fn spec_normalized_screen_temperature(
    ts: MetOfficeTimeSeries,
    units: crate::units::WeatherUnits,
    params: Seq<MetOfficeNamedParameter>,
) -> int {
    let celsius = if spec_find_param(params, "screenTemperature"@) matches Some(p) && p.type_@
        == "Parameter"@ && p.unit.label@ != "degrees Celsius"@ {
        crate::units::spec_fahrenheit_to_celsius_centi(ts.screen_temperature_centi as int)
    } else {
        ts.screen_temperature_centi as int
    };
    crate::units::spec_normalize_temperature_centi(celsius, units.temperature)
}

impl MetOfficeTimeSeries {
    /// Normalise this reading's screen temperature to the display unit,
    /// assuming Celsius when the service omits the unit definition.
    pub fn normalize_screen_temperature(
        &self,
        units: &crate::units::WeatherUnits,
        params: &Vec<MetOfficeNamedParameter>,
    ) -> (r: i64)
        requires
            spec_series_wf(*self),
        ensures
            r == spec_normalized_screen_temperature(*self, *units, params@),
    {
        let celsius: i64 = match find_param(params, "screenTemperature") {
            Some(p) => {
                if crate::text::str_eq(p.type_.as_str(), "Parameter") && !crate::text::str_eq(
                    p.unit.label.as_str(),
                    "degrees Celsius",
                ) {
                    crate::units::fahrenheit_to_celsius(self.screen_temperature_centi)
                } else {
                    self.screen_temperature_centi
                }
            },
            None => self.screen_temperature_centi,
        };
        proof {
            crate::units::lemma_fahrenheit_to_celsius_bounds(self.screen_temperature_centi as int);
        }
        crate::units::normalize_temperature(celsius, units.temperature)
    }
}

/// The field-by-field statement of the normalized response one covering
/// reading maps to. The service reports no day/night flag; the UV index
/// stands in for it, being nonzero only in daylight.
pub open spec fn spec_met_office_reading(
    resp: crate::types::WeatherProviderResponse,
    ts: MetOfficeTimeSeries,
    units: crate::units::WeatherUnits,
    params: Seq<MetOfficeNamedParameter>,
) -> bool {
    &&& resp.weather_code == ts.significant_weather_code
    &&& resp.temperature_centi == spec_normalized_screen_temperature(ts, units, params)
    &&& resp.apparent_temperature_centi == ts.feels_like_temperature_centi
    &&& resp.humidity_centi == ts.screen_relative_humidity_centi
    &&& resp.precipitation_centi == ts.precipitation_rate_centi
    &&& resp.wind_speed_centi == ts.wind_gust_speed_10m_centi
    &&& resp.wind_direction_centi == ts.wind_direction_from_10m * 100
    &&& resp.cloud_cover_centi == ts.uv_index * 100
    &&& resp.pressure_centi == ts.mslp * 100
    &&& resp.visibility_centi == Some((ts.visibility * 100) as i64)
    &&& resp.is_day == ts.uv_index as i32
    &&& resp.moon_phase_milli == Some(500u32)
    &&& resp.timestamp@ == ts.time@
    &&& resp.attribution@ == "Data supplied by the Met Office"@
}

impl MetOfficeProvider {
    /// The attribution the Met Office terms require alongside its data.
    pub fn get_attribution(&self) -> (r: &'static str)
        ensures
            r@ == "Data supplied by the Met Office"@,
    {
        "Data supplied by the Met Office"
    }

    /// Map a decoded answer to the normalized response: the reading is the
    /// first hourly bucket covering `now`; without one the call fails with
    /// a retryable network-class fault on this request's URL.
    pub fn respond(
        &self,
        data: &MetOfficeResponse,
        location: &crate::types::WeatherLocation,
        units: &crate::units::WeatherUnits,
        now: i64,
    ) -> (r: Result<crate::types::WeatherProviderResponse, crate::error::WeatherError>)
        requires
            spec_response_wf(*data),
            location.latitude_centi > i64::MIN,
            location.longitude_centi > i64::MIN,
        ensures
            match r {
                Result::Ok(resp) => {
                    &&& spec_response_covers(*data, now)
                    &&& exists|i: int|
                        {
                            &&& 0 <= i < data.features@[0].properties.time_series@.len()
                            &&& spec_series_covers(
                                #[trigger] data.features@[0].properties.time_series@[i],
                                now,
                            )
                            &&& forall|j: int| 0 <= j < i ==> !spec_series_covers(
                                #[trigger] data.features@[0].properties.time_series@[j],
                                now,
                            )
                            &&& spec_met_office_reading(
                                resp,
                                data.features@[0].properties.time_series@[i],
                                *units,
                                data.parameters@,
                            )
                        }
                },
                Result::Err(e) => {
                    &&& !spec_response_covers(*data, now)
                    &&& e matches crate::error::WeatherError::Network(
                        crate::error::NetworkErrorKind::ConnectionRefused { url },
                    ) && url@ == spec_met_office_url(self.config, *location)
                },
            },
    {
        let found = get_current_time_series(data, now);
        match found {
            None => {
                // The service answered without a bucket for the current
                // hour; treated as a transport-class fault so the fetch is
                // retried.
                Err(
                    crate::error::WeatherError::Network(
                        crate::error::NetworkErrorKind::ConnectionRefused {
                            url: self.build_url(location),
                        },
                    ),
                )
            },
            Some(ts) => {
                let temperature = ts.normalize_screen_temperature(units, &data.parameters);
                Ok(crate::types::WeatherProviderResponse {
                    weather_code: ts.significant_weather_code,
                    temperature_centi: temperature,
                    apparent_temperature_centi: ts.feels_like_temperature_centi,
                    humidity_centi: ts.screen_relative_humidity_centi,
                    precipitation_centi: ts.precipitation_rate_centi,
                    wind_speed_centi: ts.wind_gust_speed_10m_centi,
                    wind_direction_centi: (ts.wind_direction_from_10m * 100) as i64,
                    cloud_cover_centi: (ts.uv_index * 100) as i64,
                    pressure_centi: (ts.mslp * 100) as i64,
                    visibility_centi: Some((ts.visibility * 100) as i64),
                    is_day: ts.uv_index as i32,
                    moon_phase_milli: Some(500),
                    timestamp: ts.time.clone(),
                    attribution: String::from_str(self.get_attribution()),
                })
            },
        }
    }
}

impl crate::provider::WeatherProvider for MetOfficeProvider {
    fn provider_id(&self) -> crate::types::Provider {
        crate::types::Provider::MetOffice
    }

    fn get_attribution(&self) -> &'static str {
        "Data supplied by the Met Office"
    }
}

} // verus!

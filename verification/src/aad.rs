//! The Astronomical Applications Department supplementary provider: moon
//! phases and the day/night determination from reported sun rise and set
//! times.
//!
//! The HTTP call and the JSON decoding are unverified transport; the
//! decoded payload comes back to [`AADProvider::get_supplementary_weather`].

use vstd::prelude::*;
use vstd::string::StringSliceAdditionalSpecFns;

verus! {

/// The astronomy API endpoint.
pub open spec fn spec_aad_base_url() -> Seq<char> {
    "https://aa.usno.navy.mil/api/"@
}

/// One named moon phase of the API's phase list.
#[derive(Clone, Debug, PartialEq, Eq)]
pub struct MoonPhase {
    /// The phase name, e.g. `Waxing Gibbous`.
    pub phase: String,
}

/// The events of the API's sun and moon tables.
#[derive(Clone, Copy, Debug, PartialEq, Eq, Structural)]
pub enum CelestialPhenomena {
    BeginCivilTwilight,
    Rise,
    UpperTransit,
    Setting,
    EndCivilTwilight,
}

/// One event of the sun table: the event kind and its clock time.
#[derive(Clone, Debug, PartialEq, Eq)]
pub struct SunData {
    pub phen: CelestialPhenomena,
    /// The event's local time, e.g. `06:58`, sometimes suffixed `  ST`.
    pub time: String,
}

/// The moon phase in thousandths of the `[0, 1)` cycle for each of the
/// API's phase names; an unknown name is the new moon.
pub open spec fn spec_moon_phase_milli(name: Seq<char>) -> u32 {
    if name == "Waxing Crescent"@ {
        150u32
    } else if name == "First Quarter"@ {
        250u32
    } else if name == "Waxing Gibbous"@ {
        350u32
    } else if name == "Full Moon"@ {
        500u32
    } else if name == "Waning Gibbous"@ {
        650u32
    } else if name == "Last Quarter"@ {
        750u32
    } else if name == "Waning Crescent"@ {
        850u32
    } else {
        0u32
    }
}

/// The byte string with every `  ST` marker removed, scanning left to
/// right without overlap.
pub open spec fn spec_strip_st_bytes(b: Seq<u8>) -> Seq<u8>
    decreases b.len(),
{
    if b.len() < 4 {
        b
    } else if b[0] == 0x20 && b[1] == 0x20 && b[2] == 0x53 && b[3] == 0x54 {
        spec_strip_st_bytes(b.skip(4))
    } else {
        seq![b[0]] + spec_strip_st_bytes(b.skip(1))
    }
}

/// The cleaned event time: for ASCII text, the `  ST` markers are removed;
/// other text is kept as it is.
pub open spec fn spec_get_time(time: Seq<char>) -> Seq<char> {
    if vstd::utf8::is_ascii_chars(time) {
        spec_strip_st_bytes(vstd::utf8::encode_utf8(time)).map_values(|b: u8| b as char)
    } else {
        time
    }
}

/// Whether `c` is a decimal digit.
pub open spec fn spec_is_digit(c: char) -> bool {
    48 <= c as int <= 57
}

/// The numeric value of a digit character.
pub open spec fn spec_digit_value(c: char) -> int {
    c as int - 48
}

/// What an `HH:MM` clock text denotes, as minutes past midnight: exactly
/// two digits, a colon, two digits, with the hour below 24 and the minute
/// below 60; anything else denotes nothing.
pub open spec fn spec_parse_hhmm(s: Seq<char>) -> Option<u32> {
    if s.len() == 5 && spec_is_digit(s[0]) && spec_is_digit(s[1]) && s[2] == ':' && spec_is_digit(
        s[3],
    ) && spec_is_digit(s[4]) {
        let h = spec_digit_value(s[0]) * 10 + spec_digit_value(s[1]);
        let m = spec_digit_value(s[3]) * 10 + spec_digit_value(s[4]);
        if h < 24 && m < 60 {
            Some((h * 60 + m) as u32)
        } else {
            None
        }
    } else {
        None
    }
}

/// Parse an `HH:MM` clock text into minutes past midnight.
pub fn parse_hhmm(s: &str) -> (r: Option<u32>)
    ensures
        r == spec_parse_hhmm(s@),
        r matches Some(m) ==> m < 1440,
{
    if s.unicode_len() != 5 {
        return None;
    }
    let c0 = s.get_char(0) as u32;
    let c1 = s.get_char(1) as u32;
    let colon = s.get_char(2);
    let c3 = s.get_char(3) as u32;
    let c4 = s.get_char(4) as u32;
    if colon != ':' {
        return None;
    }
    if !(48 <= c0 && c0 <= 57 && 48 <= c1 && c1 <= 57 && 48 <= c3 && c3 <= 57 && 48 <= c4 && c4
        <= 57) {
        return None;
    }
    let h = (c0 - 48) * 10 + (c1 - 48);
    let m = (c3 - 48) * 10 + (c4 - 48);
    if h < 24 && m < 60 {
        Some(h * 60 + m)
    } else {
        None
    }
}

impl SunData {
    /// The event time with the `  ST` markers removed.
    pub fn get_time(&self) -> (r: String)
        ensures
            r@ == spec_get_time(self.time@),
    {
        let time_str = self.time.as_str();
        if !time_str.is_ascii() {
            return self.time.clone();
        }
        proof {
            vstd::string::is_ascii_spec_bytes(time_str);
        }
        let bytes = time_str.as_bytes();
        let mut out: Vec<u8> = Vec::new();
        proof {
            assert(bytes@.skip(0) =~= bytes@);
        }
        let mut i: usize = 0;
        while i < bytes.len()
            invariant
                0 <= i <= bytes@.len(),
                bytes@ == vstd::utf8::encode_utf8(self.time@),
                forall|j: int| 0 <= j < bytes@.len() ==> #[trigger] bytes@[j] < 128,
                forall|j: int| 0 <= j < out@.len() ==> #[trigger] out@[j] < 128,
                spec_strip_st_bytes(bytes@) =~= out@ + spec_strip_st_bytes(
                    bytes@.skip(i as int),
                ),
            decreases bytes@.len() - i,
        {
            proof {
                let rest = bytes@.skip(i as int);
                assert(rest.len() == bytes@.len() - i);
                assert(rest[0] == bytes@[i as int]);
                if rest.len() >= 4 {
                    assert(rest[1] == bytes@[i + 1]);
                    assert(rest[2] == bytes@[i + 2]);
                    assert(rest[3] == bytes@[i + 3]);
                    assert(rest.skip(4) =~= bytes@.skip(i + 4));
                }
                assert(rest.skip(1) =~= bytes@.skip(i + 1));
            }
            if bytes.len() - i >= 4 && bytes[i] == 0x20 && bytes[i + 1] == 0x20 && bytes[i + 2]
                == 0x53 && bytes[i + 3] == 0x54 {
                i = i + 4;
            } else {
                out.push(bytes[i]);
                i = i + 1;
            }
        }
        proof {
            assert(bytes@.skip(bytes@.len() as int) =~= Seq::<u8>::empty());
            assert(spec_strip_st_bytes(bytes@) =~= out@);
        }
        let r = crate::geocoding::ascii_bytes_to_string(out);
        proof {
            assert(r@ =~= spec_get_time(self.time@));
        }
        r
    }

    /// The event's minutes past midnight, when its cleaned time has the
    /// `HH:MM` shape.
    pub fn to_minutes(&self) -> (r: Option<u32>)
        ensures
            r == spec_parse_hhmm(spec_get_time(self.time@)),
            r matches Some(m) ==> m < 1440,
    {
        let cleaned = self.get_time();
        parse_hhmm(cleaned.as_str())
    }
}

/// The first sun-table event of the given kind.
pub open spec fn spec_get_sun_phase(
    sun_data: Seq<SunData>,
    target: CelestialPhenomena,
) -> Option<SunData>
    decreases sun_data.len(),
{
    if sun_data.len() == 0 {
        None
    } else if sun_data[0].phen == target {
        Some(sun_data[0])
    } else {
        spec_get_sun_phase(sun_data.subrange(1, sun_data.len() as int), target)
    }
}

/// Find the first sun-table event of the given kind.
pub fn get_sun_phase<'a>(sun_data: &'a Vec<SunData>, target: CelestialPhenomena) -> (r: Option<
    &'a SunData,
>)
    ensures
        match r {
            Some(item) => spec_get_sun_phase(sun_data@, target) == Some(*item),
            None => spec_get_sun_phase(sun_data@, target) is None,
        },
{
    proof {
        assert(sun_data@.subrange(0, sun_data@.len() as int) =~= sun_data@);
    }
    let mut i: usize = 0;
    while i < sun_data.len()
        invariant
            0 <= i <= sun_data@.len(),
            spec_get_sun_phase(sun_data@, target) == spec_get_sun_phase(
                sun_data@.subrange(i as int, sun_data@.len() as int),
                target,
            ),
        decreases sun_data@.len() - i,
    {
        proof {
            let tail = sun_data@.subrange(i as int, sun_data@.len() as int);
            assert(tail[0] == sun_data@[i as int]);
            assert(tail.subrange(1, tail.len() as int) =~= sun_data@.subrange(
                i + 1,
                sun_data@.len() as int,
            ));
        }
        if sun_data[i].phen == target {
            return Some(&sun_data[i]);
        }
        i = i + 1;
    }
    None
}

/// The astronomy provider.
pub struct AADProvider;

impl Default for AADProvider {
    fn default() -> (r: Self) {
        AADProvider
    }
}

/// A decoded answer of the astronomy API, by request kind.
pub enum AadPayload {
    /// The phase list of a moon-phases answer.
    MoonPhases(Vec<MoonPhase>),
    /// The one-day answer: the current phase name and the sun table.
    SunAndMoon { curphase: String, sundata: Vec<SunData> },
}

/// Translate a named moon phase to thousandths of the cycle.
pub fn convert_string_to_moon_phase(value: &str) -> (r: u32)
    ensures
        r == spec_moon_phase_milli(value@),
{
    proof {
        reveal_strlit("Waxing Crescent");
        reveal_strlit("First Quarter");
        reveal_strlit("Waxing Gibbous");
        reveal_strlit("Full Moon");
        reveal_strlit("Waning Gibbous");
        reveal_strlit("Last Quarter");
        reveal_strlit("Waning Crescent");
    }
    if crate::text::str_eq(value, "Waxing Crescent") {
        150
    } else if crate::text::str_eq(value, "First Quarter") {
        250
    } else if crate::text::str_eq(value, "Waxing Gibbous") {
        350
    } else if crate::text::str_eq(value, "Full Moon") {
        500
    } else if crate::text::str_eq(value, "Waning Gibbous") {
        650
    } else if crate::text::str_eq(value, "Last Quarter") {
        750
    } else if crate::text::str_eq(value, "Waning Crescent") {
        850
    } else {
        0
    }
}

/// What the one-day answer resolves to at `now_minutes` past local
/// midnight: day exactly when the time is strictly between the parsed rise
/// and set; a missing or unparsable rise or set event resolves to nothing,
/// which the interpretation surfaces as a mapping fault.
pub open spec fn spec_interpret_sun_and_moon(
    curphase: Seq<char>,
    sundata: Seq<SunData>,
    now_minutes: u32,
) -> Option<crate::provider::SupplementaryProviderResponse> {
    let rise = spec_get_sun_phase(sundata, CelestialPhenomena::Rise);
    let set = spec_get_sun_phase(sundata, CelestialPhenomena::Setting);
    if rise is Some && set is Some {
        let rise_min = spec_parse_hhmm(spec_get_time(rise->0.time@));
        let set_min = spec_parse_hhmm(spec_get_time(set->0.time@));
        if rise_min is Some && set_min is Some {
            Some(
                crate::provider::SupplementaryProviderResponse::SunAndMoonForOneDay {
                    is_day: rise_min->0 < now_minutes && now_minutes < set_min->0,
                    moon_phase: Some(spec_moon_phase_milli(curphase)),
                },
            )
        } else {
            None
        }
    } else {
        None
    }
}

/// Interpret a decoded one-day answer at `now_minutes` past local
/// midnight.
pub fn interpret_sun_and_moon(
    curphase: &str,
    sundata: &Vec<SunData>,
    now_minutes: u32,
) -> (r: Result<crate::provider::SupplementaryProviderResponse, crate::error::WeatherError>)
    ensures
        match r {
            Result::Ok(resp) => spec_interpret_sun_and_moon(curphase@, sundata@, now_minutes)
                == Some(resp),
            Result::Err(e) => {
                &&& spec_interpret_sun_and_moon(curphase@, sundata@, now_minutes) is None
                &&& e matches crate::error::WeatherError::ProviderMapping { field } && field@
                    == "sundata"@
            },
        },
{
    let moon_phase = convert_string_to_moon_phase(curphase);
    let rise = get_sun_phase(sundata, CelestialPhenomena::Rise);
    let set = get_sun_phase(sundata, CelestialPhenomena::Setting);
    match (rise, set) {
        (Some(rise_item), Some(set_item)) => {
            let rise_min = rise_item.to_minutes();
            let set_min = set_item.to_minutes();
            match (rise_min, set_min) {
                (Some(rise_m), Some(set_m)) => Ok(
                    crate::provider::SupplementaryProviderResponse::SunAndMoonForOneDay {
                        is_day: rise_m < now_minutes && now_minutes < set_m,
                        moon_phase: Some(moon_phase),
                    },
                ),
                _ => Err(
                    crate::error::WeatherError::ProviderMapping {
                        field: String::from_str("sundata"),
                    },
                ),
            }
        },
        _ => Err(
            crate::error::WeatherError::ProviderMapping { field: String::from_str("sundata") },
        ),
    }
}

/// Interpret a decoded moon-phases answer: the first phase of the list; an
/// empty list is a mapping fault.
pub fn interpret_moon_phases(phases: &Vec<MoonPhase>) -> (r: Result<
    crate::provider::SupplementaryProviderResponse,
    crate::error::WeatherError,
>)
    ensures
        match r {
            Result::Ok(resp) => {
                &&& phases@.len() > 0
                &&& resp == crate::provider::SupplementaryProviderResponse::PhasesOfMoon(
                    Some(spec_moon_phase_milli(phases@[0].phase@)),
                )
            },
            Result::Err(e) => {
                &&& phases@.len() == 0
                &&& e matches crate::error::WeatherError::ProviderMapping { field } && field@
                    == "phasedata"@
            },
        },
{
    if phases.len() > 0 {
        let phase = convert_string_to_moon_phase(phases[0].phase.as_str());
        Ok(crate::provider::SupplementaryProviderResponse::PhasesOfMoon(Some(phase)))
    } else {
        Err(
            crate::error::WeatherError::ProviderMapping {
                field: String::from_str("phasedata"),
            },
        )
    }
}

/// The request URL of each request kind, over the request date, the local
/// offset in whole hours, and the location.
pub open spec fn spec_aad_url(
    wanted: crate::provider::SupplementaryProviderRequest,
    location: crate::types::WeatherLocation,
    date: Seq<char>,
    offset_hours: int,
) -> Seq<char> {
    match wanted {
        crate::provider::SupplementaryProviderRequest::PhasesOfMoon => spec_aad_base_url()
            + "moon/phases/date?date="@ + date + "&nump=1"@,
        crate::provider::SupplementaryProviderRequest::SunAndMoonForOneDay => spec_aad_base_url()
            + "rstt/oneday?date="@ + date + "&coords="@ + crate::text::spec_centi(
            location.latitude_centi as int,
        ) + ","@ + crate::text::spec_centi(location.longitude_centi as int) + "&tz="@
            + crate::text::spec_signed_decimal(offset_hours) + "&dst=true"@,
    }
}

/// Build the request URL for a given date text and whole-hour offset.
pub fn request_url(
    wanted: crate::provider::SupplementaryProviderRequest,
    location: &crate::types::WeatherLocation,
    date: &str,
    offset_hours: i64,
) -> (r: String)
    requires
        location.latitude_centi > i64::MIN,
        location.longitude_centi > i64::MIN,
        offset_hours > i64::MIN,
    ensures
        r@ == spec_aad_url(wanted, *location, date@, offset_hours as int),
{
    match wanted {
        crate::provider::SupplementaryProviderRequest::PhasesOfMoon => {
            String::from_str("https://aa.usno.navy.mil/api/").concat(
                "moon/phases/date?date=",
            ).concat(date).concat("&nump=1")
        },
        crate::provider::SupplementaryProviderRequest::SunAndMoonForOneDay => {
            let lat = crate::text::format_centi(location.latitude_centi);
            let lon = crate::text::format_centi(location.longitude_centi);
            let tz = crate::text::format_i64(offset_hours);
            String::from_str("https://aa.usno.navy.mil/api/").concat("rstt/oneday?date=").concat(
                date,
            ).concat("&coords=").concat(lat.as_str()).concat(",").concat(lon.as_str()).concat(
                "&tz=",
            ).concat(tz.as_str()).concat("&dst=true")
        },
    }
}

impl AADProvider {
    pub fn new() -> (r: Self) {
        AADProvider
    }

    /// Build the request URL for the current local date and zone offset.
    pub fn build_url(
        &self,
        wanted: crate::provider::SupplementaryProviderRequest,
        location: &crate::types::WeatherLocation,
    ) -> (r: String)
        requires
            location.latitude_centi > i64::MIN,
            location.longitude_centi > i64::MIN,
        ensures
            exists|date: Seq<char>, offset_hours: int|
                -24 <= offset_hours <= 24 && r@ == spec_aad_url(
                    wanted,
                    *location,
                    date,
                    offset_hours,
                ),
    {
        let date = crate::clock::local_date_string();
        let offset_seconds = crate::clock::local_utc_offset_seconds();
        let offset_hours: i64 = if offset_seconds >= 0 {
            ((offset_seconds as u64) / 3600) as i64
        } else {
            proof {
                vstd::arithmetic::div_mod::lemma_fundamental_div_mod(
                    (-offset_seconds) as int,
                    3600,
                );
            }
            -((((-offset_seconds) as u64) / 3600) as i64)
        };
        proof {
            vstd::arithmetic::div_mod::lemma_fundamental_div_mod(
                (if offset_seconds >= 0 {
                    offset_seconds as int
                } else {
                    -offset_seconds as int
                }),
                3600,
            );
        }
        let r = request_url(wanted, location, date.as_str(), offset_hours);
        proof {
            assert(-24 <= offset_hours as int <= 24 && r@ == spec_aad_url(
                wanted,
                *location,
                date@,
                offset_hours as int,
            ));
        }
        r
    }

    /// Interpret a decoded answer. Day/night is judged against the local
    /// clock at the moment of the call.
    pub fn get_supplementary_weather(&self, payload: &AadPayload) -> (r: Result<
        crate::provider::SupplementaryProviderResponse,
        crate::error::WeatherError,
    >)
        ensures
            payload matches AadPayload::SunAndMoon { curphase, sundata } ==> exists|now: u32|
                #![trigger spec_interpret_sun_and_moon(curphase@, sundata@, now)]
                now < 1440 && (match r {
                    Result::Ok(resp) => spec_interpret_sun_and_moon(curphase@, sundata@, now)
                        == Some(resp),
                    Result::Err(e) => {
                        &&& spec_interpret_sun_and_moon(curphase@, sundata@, now) is None
                        &&& e matches crate::error::WeatherError::ProviderMapping { field }
                            && field@ == "sundata"@
                    },
                }),
            payload matches AadPayload::MoonPhases(phases) ==> match r {
                Result::Ok(resp) => {
                    &&& phases@.len() > 0
                    &&& resp == crate::provider::SupplementaryProviderResponse::PhasesOfMoon(
                        Some(spec_moon_phase_milli(phases@[0].phase@)),
                    )
                },
                Result::Err(e) => {
                    &&& phases@.len() == 0
                    &&& e matches crate::error::WeatherError::ProviderMapping { field } && field@
                        == "phasedata"@
                },
            },
    {
        match payload {
            AadPayload::MoonPhases(phases) => interpret_moon_phases(phases),
            AadPayload::SunAndMoon { curphase, sundata } => {
                let now_minutes = crate::clock::local_minutes_now();
                interpret_sun_and_moon(curphase.as_str(), sundata, now_minutes)
            },
        }
    }
}

impl crate::provider::SupplementaryWeatherProvider for AADProvider {
    fn get_attribution(&self) -> &'static str {
        ""
    }

    fn capabilities(&self) -> Vec<crate::provider::SupplementaryProviderRequest> {
        let mut caps: Vec<crate::provider::SupplementaryProviderRequest> = Vec::new();
        caps.push(crate::provider::SupplementaryProviderRequest::PhasesOfMoon);
        caps
    }
}

} // verus!

//! The consumer-side session state: the last known reading and the offline
//! flag, and how one fetch result updates them.
//!
//! A failed fetch never loses data: when a reading already exists the
//! session only marks itself offline; only when no reading has ever been
//! received does a synthesized fallback enter the session.

use vstd::prelude::*;

verus! {

/// What the consumer shows: the last known reading and whether the session
/// is currently offline.
pub struct WeatherSession {
    pub current_weather: Option<crate::types::WeatherData>,
    pub offline: bool,
}

/// The session a fetch result turns `old` into, given the fallback reading
/// that would be synthesized on a first-ever failure.
pub open spec fn spec_apply_fetch_result(
    old: WeatherSession,
    result: Result<crate::types::WeatherData, crate::error::WeatherError>,
    fallback: crate::types::WeatherData,
) -> WeatherSession {
    match result {
        Result::Ok(w) => WeatherSession { current_weather: Some(w), offline: false },
        Result::Err(_) => if old.current_weather is None {
            WeatherSession { current_weather: Some(fallback), offline: true }
        } else {
            WeatherSession { current_weather: old.current_weather, offline: true }
        },
    }
}

impl WeatherSession {
    /// A fresh session: nothing received yet, not offline.
    pub fn new() -> (s: Self)
        ensures
            s.current_weather is None,
            !s.offline,
    {
        WeatherSession { current_weather: None, offline: false }
    }

    /// Record a reading, clearing the offline flag.
    pub fn update_weather(&mut self, weather: crate::types::WeatherData)
        ensures
            final(self).current_weather == Some(weather),
            !final(self).offline,
    {
        self.current_weather = Some(weather);
        self.offline = false;
    }

    /// Set or clear the offline flag, keeping the reading.
    pub fn set_offline_mode(&mut self, offline: bool)
        ensures
            final(self).offline == offline,
            final(self).current_weather == old(self).current_weather,
    {
        self.offline = offline;
    }

    /// Fold one fetch result into the session. A success replaces the
    /// reading and clears the offline flag; a failure marks the session
    /// offline, and installs `fallback` only when no reading has ever been
    /// received — it never overwrites real data.
    pub fn apply_fetch_result(
        &mut self,
        result: Result<crate::types::WeatherData, crate::error::WeatherError>,
        fallback: crate::types::WeatherData,
    )
        ensures
            *final(self) == spec_apply_fetch_result(*old(self), result, fallback),
    {
        match result {
            Result::Ok(w) => {
                self.update_weather(w);
            },
            Result::Err(_) => {
                if self.current_weather.is_none() {
                    self.current_weather = Some(fallback);
                }
                self.offline = true;
            },
        }
    }
}

/// The fixed reading shown in simulation mode: a pleasant 20-degree day
/// under the chosen condition, rain and storm wind only when the condition
/// calls for them, and daylight unless night is simulated.
pub fn simulated_weather(condition: crate::condition::WeatherCondition, night: bool) -> (w:
    crate::types::WeatherData)
    ensures
        w.condition == condition,
        w.temperature_centi == 2000,
        w.apparent_temperature_centi == 1900,
        w.humidity_centi == 6500,
        w.precipitation_centi == if crate::condition::spec_is_raining(condition) {
            250int
        } else {
            0int
        },
        w.wind_speed_centi == if condition == crate::condition::WeatherCondition::Thunderstorm
            || condition == crate::condition::WeatherCondition::ThunderstormHail {
            4500int
        } else {
            1000int
        },
        w.wind_direction_centi == 22500,
        w.cloud_cover_centi == 5000,
        w.pressure_centi == 101300,
        w.visibility_centi == Some(1000000int as i64),
        w.is_day == !night,
        w.moon_phase_milli == Some(500u32),
        w.timestamp@ == "simulated"@,
{
    let precipitation_centi: i64 = if condition.is_raining() {
        250
    } else {
        0
    };
    let wind_speed_centi: i64 = if condition.is_thunderstorm() {
        4500
    } else {
        1000
    };
    crate::types::WeatherData {
        condition,
        temperature_centi: 2000,
        apparent_temperature_centi: 1900,
        humidity_centi: 6500,
        precipitation_centi,
        wind_speed_centi,
        wind_direction_centi: 22500,
        cloud_cover_centi: 5000,
        pressure_centi: 101300,
        visibility_centi: Some(1000000),
        is_day: !night,
        moon_phase_milli: Some(500),
        timestamp: String::from_str("simulated"),
    }
}

/// When no reading has ever been received and a fetch fails, the consumer
/// sees a synthesized reading whose precipitation is zero unless its
/// condition rains, in which case it lies in [1.00, 5.00); and the session
/// is offline.
pub proof fn lemma_first_failure_installs_fallback(
    old: WeatherSession,
    error: crate::error::WeatherError,
    fallback: crate::types::WeatherData,
)
    requires
        old.current_weather is None,
        crate::offline::spec_fallback_bounds(fallback),
    ensures
        ({
            let new = spec_apply_fetch_result(old, Result::Err(error), fallback);
            &&& new.current_weather matches Some(w) && {
                &&& crate::condition::spec_is_raining(w.condition) ==> 100 <= w.precipitation_centi
                    < 500
                &&& !crate::condition::spec_is_raining(w.condition) ==> w.precipitation_centi == 0
            }
            &&& new.offline
        }),
{
}

/// A failed refresh after a reading exists keeps that reading unchanged and
/// only marks the session offline: fallback synthesis never overwrites real
/// data.
pub proof fn lemma_failure_keeps_last_reading(
    old: WeatherSession,
    error: crate::error::WeatherError,
    fallback: crate::types::WeatherData,
)
    requires
        old.current_weather is Some,
    ensures
        ({
            let new = spec_apply_fetch_result(old, Result::Err(error), fallback);
            &&& new.current_weather == old.current_weather
            &&& new.offline
        }),
{
}

} // verus!

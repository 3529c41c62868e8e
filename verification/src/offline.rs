//! Offline fallback synthesis: a plausible, self-consistent reading for the
//! session whose very first fetch failed.

use vstd::prelude::*;

verus! {

/// Relies on rand's `random_range` over `0..n`: the sample is uniform in
/// the range; it panics only on an empty range, which the bound excludes.
#[verifier::external_body]
fn random_below(n: u64) -> (r: u64)
    requires
        n > 0,
    ensures
        r < n,
{
    rand::random_range(0..n)
}

/// The conditions the fallback can pick from, by pick index.
pub open spec fn spec_fallback_condition(pick: int) -> crate::condition::WeatherCondition {
    if pick == 0 {
        crate::condition::WeatherCondition::Clear
    } else if pick == 1 {
        crate::condition::WeatherCondition::PartlyCloudy
    } else if pick == 2 {
        crate::condition::WeatherCondition::Cloudy
    } else {
        crate::condition::WeatherCondition::Rain
    }
}

/// The random material one synthesized reading consumes: a condition pick
/// and one bounded offset per varying field.
pub struct FallbackDraws {
    /// Which plausible condition to use; below 4.
    pub condition_pick: u64,
    /// Offset above 10.00 degrees; below 15.00.
    pub temperature_r: u64,
    /// Offset above 10.00 degrees; below 15.00.
    pub apparent_r: u64,
    /// Offset above 40.00 percent; below 40.00.
    pub humidity_r: u64,
    /// Offset above 1.00 millimetres; below 4.00. Used only when raining.
    pub precipitation_r: u64,
    /// Offset above 5.00 units of speed; below 10.00.
    pub wind_r: u64,
    /// Degrees of wind direction; below 360.00.
    pub wind_direction_r: u64,
    /// Offset above 20.00 percent of cloud; below 60.00.
    pub cloud_r: u64,
    /// Offset above 1000.00 hectopascal; below 20.00.
    pub pressure_r: u64,
}

impl FallbackDraws {
    /// Every draw is inside its field's range.
    pub open spec fn wf(&self) -> bool {
        &&& self.condition_pick < 4
        &&& self.temperature_r < 1500
        &&& self.apparent_r < 1500
        &&& self.humidity_r < 4000
        &&& self.precipitation_r < 400
        &&& self.wind_r < 1000
        &&& self.wind_direction_r < 36000
        &&& self.cloud_r < 6000
        &&& self.pressure_r < 2000
    }
}

/// Build the synthesized reading from its random material, the local hour,
/// and a timestamp text. Daytime is the hour interval [6, 18); dependent
/// fields follow the picked condition: precipitation is nonzero exactly
/// when the condition rains, and then lies in [1.00, 5.00).
pub fn synthesize_weather(hour: u32, draws: FallbackDraws, timestamp: String) -> (w:
    crate::types::WeatherData)
    requires
        hour < 24,
        draws.wf(),
    ensures
        w.condition == spec_fallback_condition(draws.condition_pick as int),
        w.is_day == (6 <= hour < 18),
        w.temperature_centi == 1000 + draws.temperature_r,
        w.apparent_temperature_centi == 1000 + draws.apparent_r,
        w.humidity_centi == 4000 + draws.humidity_r,
        w.precipitation_centi == if crate::condition::spec_is_raining(w.condition) {
            100 + draws.precipitation_r as int
        } else {
            0
        },
        w.wind_speed_centi == 500 + draws.wind_r,
        w.wind_direction_centi == draws.wind_direction_r,
        w.cloud_cover_centi == 2000 + draws.cloud_r,
        w.pressure_centi == 100000 + draws.pressure_r,
        w.visibility_centi == Some(1000000int as i64),
        w.moon_phase_milli == Some(500u32),
        w.timestamp == timestamp,
{
    let condition = if draws.condition_pick == 0 {
        crate::condition::WeatherCondition::Clear
    } else if draws.condition_pick == 1 {
        crate::condition::WeatherCondition::PartlyCloudy
    } else if draws.condition_pick == 2 {
        crate::condition::WeatherCondition::Cloudy
    } else {
        crate::condition::WeatherCondition::Rain
    };
    let precipitation_centi: i64 = if condition.is_raining() {
        100 + draws.precipitation_r as i64
    } else {
        0
    };
    crate::types::WeatherData {
        condition,
        temperature_centi: 1000 + draws.temperature_r as i64,
        apparent_temperature_centi: 1000 + draws.apparent_r as i64,
        humidity_centi: 4000 + draws.humidity_r as i64,
        precipitation_centi,
        wind_speed_centi: 500 + draws.wind_r as i64,
        wind_direction_centi: draws.wind_direction_r as i64,
        cloud_cover_centi: 2000 + draws.cloud_r as i64,
        pressure_centi: 100000 + draws.pressure_r as i64,
        visibility_centi: Some(1000000),
        is_day: 6 <= hour && hour < 18,
        moon_phase_milli: Some(500),
        timestamp,
    }
}

/// The bounds every synthesized reading satisfies, whatever was drawn.
pub open spec fn spec_fallback_bounds(w: crate::types::WeatherData) -> bool {
    &&& exists|pick: int| 0 <= pick < 4 && w.condition == spec_fallback_condition(pick)
    &&& (crate::condition::spec_is_raining(w.condition) ==> 100 <= w.precipitation_centi < 500)
    &&& (!crate::condition::spec_is_raining(w.condition) ==> w.precipitation_centi == 0)
    &&& 1000 <= w.temperature_centi < 2500
    &&& 1000 <= w.apparent_temperature_centi < 2500
    &&& 4000 <= w.humidity_centi < 8000
    &&& 500 <= w.wind_speed_centi < 1500
    &&& 0 <= w.wind_direction_centi < 36000
    &&& 2000 <= w.cloud_cover_centi < 8000
    &&& 100000 <= w.pressure_centi < 102000
    &&& w.visibility_centi == Some(1000000int as i64)
    &&& w.moon_phase_milli == Some(500u32)
}

/// Synthesize a random offline reading from the thread's random source and
/// the local wall clock.
pub fn generate_offline_weather() -> (w: crate::types::WeatherData)
    ensures
        spec_fallback_bounds(w),
{
    let hour = crate::clock::local_hour_now();
    let timestamp = crate::clock::local_timestamp_string();
    let draws = FallbackDraws {
        condition_pick: random_below(4),
        temperature_r: random_below(1500),
        apparent_r: random_below(1500),
        humidity_r: random_below(4000),
        precipitation_r: random_below(400),
        wind_r: random_below(1000),
        wind_direction_r: random_below(36000),
        cloud_r: random_below(6000),
        pressure_r: random_below(2000),
    };
    let ghost pick = draws.condition_pick as int;
    let w = synthesize_weather(hour, draws, timestamp);
    proof {
        assert(0 <= pick < 4 && w.condition == spec_fallback_condition(pick));
    }
    w
}

} // verus!

//! Unit systems and fixed-point temperature conversion.
//!
//! Temperatures are carried in hundredths of a degree. Conversions round
//! toward negative infinity, so the executable result always equals the
//! mathematical formula under flooring division.

use vstd::prelude::*;

verus! {

/// The unit a temperature is reported in.
#[derive(Clone, Copy, Debug, PartialEq, Eq, Structural)]
pub enum TemperatureUnit {
    Celsius,
    Fahrenheit,
}

/// The unit system readings are normalised to for display.
#[derive(Clone, Copy, Debug, PartialEq, Eq, Structural)]
pub struct WeatherUnits {
    pub temperature: TemperatureUnit,
}

impl WeatherUnits {
    /// The metric system: degrees Celsius.
    pub fn metric() -> (r: Self)
        ensures
            r.temperature == TemperatureUnit::Celsius,
    {
        WeatherUnits { temperature: TemperatureUnit::Celsius }
    }

    /// The imperial system: degrees Fahrenheit.
    pub fn imperial() -> (r: Self)
        ensures
            r.temperature == TemperatureUnit::Fahrenheit,
    {
        WeatherUnits { temperature: TemperatureUnit::Fahrenheit }
    }
}

impl Default for WeatherUnits {
    /// The default unit system is metric.
    fn default() -> (r: Self)
        ensures
            r.temperature == TemperatureUnit::Celsius,
    {
        WeatherUnits { temperature: TemperatureUnit::Celsius }
    }
}

/// Bound on temperature magnitudes (hundredths of a degree) under which the
/// conversions cannot overflow; generous against any physical reading.
pub const TEMPERATURE_CENTI_LIMIT: i64 = 1_000_000_000;

/// Fahrenheit to Celsius in hundredths: (f - 32) * 5 / 9, floored.
pub open spec fn spec_fahrenheit_to_celsius_centi(f: int) -> int {
    ((f - 3200) * 5) / 9
}

/// Celsius to Fahrenheit in hundredths: c * 9 / 5 + 32, floored.
pub open spec fn spec_celsius_to_fahrenheit_centi(c: int) -> int {
    (c * 9) / 5 + 3200
}

/// Flooring division of an i64 by a small positive constant.
fn div_floor(n: i64, d: i64) -> (r: i64)
    requires
        0 < d <= 1000,
        -i64::MAX <= n,
    ensures
        r == n as int / d as int,
{
    let negative = n < 0;
    let m: u64 = if negative {
        (-n) as u64
    } else {
        n as u64
    };
    let du = d as u64;
    let q = m / du;
    let rem = m % du;
    proof {
        assert(du as int == d as int);
        assert(q as int == m as int / du as int);
        assert(rem as int == m as int % du as int);
        vstd::arithmetic::div_mod::lemma_fundamental_div_mod(m as int, du as int);
        let qi = q as int;
        let di = d as int;
        let ri = rem as int;
        assert(m as int == qi * di + ri);
        assert(qi <= qi * di) by (nonlinear_arith)
            requires
                qi >= 0,
                di >= 1,
        ;
        assert(qi <= m as int);
        assert((-qi) * di == -(qi * di)) by (nonlinear_arith);
        assert((-qi - 1) * di == -(qi * di) - di) by (nonlinear_arith);
    }
    let qs = q as i64;
    if !negative {
        proof {
            vstd::arithmetic::div_mod::lemma_fundamental_div_mod_converse(
                n as int,
                d as int,
                qs as int,
                rem as int,
            );
        }
        qs
    } else if rem == 0 {
        proof {
            vstd::arithmetic::div_mod::lemma_fundamental_div_mod_converse(
                n as int,
                d as int,
                -(qs as int),
                0,
            );
        }
        -qs
    } else {
        proof {
            vstd::arithmetic::div_mod::lemma_fundamental_div_mod_converse(
                n as int,
                d as int,
                -(qs as int) - 1,
                d as int - rem as int,
            );
        }
        -qs - 1
    }
}

/// Convert a Fahrenheit reading (hundredths) to Celsius (hundredths).
pub fn fahrenheit_to_celsius(f_centi: i64) -> (r: i64)
    requires
        -TEMPERATURE_CENTI_LIMIT <= f_centi <= TEMPERATURE_CENTI_LIMIT,
    ensures
        r == spec_fahrenheit_to_celsius_centi(f_centi as int),
{
    div_floor((f_centi - 3200) * 5, 9)
}

/// Convert a Celsius reading (hundredths) to Fahrenheit (hundredths).
pub fn celsius_to_fahrenheit(c_centi: i64) -> (r: i64)
    requires
        -TEMPERATURE_CENTI_LIMIT <= c_centi <= TEMPERATURE_CENTI_LIMIT,
    ensures
        r == spec_celsius_to_fahrenheit_centi(c_centi as int),
{
    div_floor(c_centi * 9, 5) + 3200
}

/// A converted Fahrenheit reading stays within the conversion bound.
pub proof fn lemma_fahrenheit_to_celsius_bounds(f: int)
    requires
        -TEMPERATURE_CENTI_LIMIT <= f <= TEMPERATURE_CENTI_LIMIT,
    ensures
        -TEMPERATURE_CENTI_LIMIT <= spec_fahrenheit_to_celsius_centi(f)
            <= TEMPERATURE_CENTI_LIMIT,
{
    let n = (f - 3200) * 5;
    vstd::arithmetic::div_mod::lemma_fundamental_div_mod(n, 9);
    assert(n == 9 * (n / 9) + (n % 9));
}

/// What a Celsius reading (hundredths) normalises to under `unit`.
pub open spec fn spec_normalize_temperature_centi(c: int, unit: TemperatureUnit) -> int {
    match unit {
        TemperatureUnit::Celsius => c,
        TemperatureUnit::Fahrenheit => spec_celsius_to_fahrenheit_centi(c),
    }
}

/// Normalise a Celsius reading (hundredths) to the requested display unit.
pub fn normalize_temperature(c_centi: i64, unit: TemperatureUnit) -> (r: i64)
    requires
        -TEMPERATURE_CENTI_LIMIT <= c_centi <= TEMPERATURE_CENTI_LIMIT,
    ensures
        r == spec_normalize_temperature_centi(c_centi as int, unit),
{
    match unit {
        TemperatureUnit::Celsius => c_centi,
        TemperatureUnit::Fahrenheit => celsius_to_fahrenheit(c_centi),
    }
}

} // verus!

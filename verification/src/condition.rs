//! Weather condition codes and the intensity classes the renderer consumes.

use vstd::prelude::*;

verus! {

/// The normalized weather condition of a reading.
#[derive(Clone, Copy, Debug, PartialEq, Eq, Structural)]
pub enum WeatherCondition {
    Clear,
    PartlyCloudy,
    Cloudy,
    Overcast,
    Fog,
    Drizzle,
    Rain,
    FreezingRain,
    RainShowers,
    Snow,
    SnowGrains,
    SnowShowers,
    Thunderstorm,
    ThunderstormHail,
}

/// How dense a fog animation should be.
#[derive(Clone, Copy, Debug, PartialEq, Eq, Structural)]
pub enum FogIntensity {
    Light,
    Medium,
    Heavy,
}

/// Conditions under which precipitation falls as rain.
pub open spec fn spec_is_raining(c: WeatherCondition) -> bool {
    ||| c == WeatherCondition::Drizzle
    ||| c == WeatherCondition::Rain
    ||| c == WeatherCondition::FreezingRain
    ||| c == WeatherCondition::RainShowers
    ||| c == WeatherCondition::Thunderstorm
    ||| c == WeatherCondition::ThunderstormHail
}

impl WeatherCondition {
    /// Whether precipitation falls as rain under this condition.
    pub fn is_raining(&self) -> (r: bool)
        ensures
            r == spec_is_raining(*self),
    {
        matches!(
            self,
            WeatherCondition::Drizzle
            | WeatherCondition::Rain
            | WeatherCondition::FreezingRain
            | WeatherCondition::RainShowers
            | WeatherCondition::Thunderstorm
            | WeatherCondition::ThunderstormHail
        )
    }

    /// Whether precipitation falls as snow under this condition.
    pub fn is_snowing(&self) -> (r: bool)
        ensures
            r == (*self == WeatherCondition::Snow || *self == WeatherCondition::SnowGrains
                || *self == WeatherCondition::SnowShowers),
    {
        matches!(
            self,
            WeatherCondition::Snow | WeatherCondition::SnowGrains | WeatherCondition::SnowShowers
        )
    }

    /// Whether this condition carries thunder.
    pub fn is_thunderstorm(&self) -> (r: bool)
        ensures
            r == (*self == WeatherCondition::Thunderstorm || *self
                == WeatherCondition::ThunderstormHail),
    {
        matches!(self, WeatherCondition::Thunderstorm | WeatherCondition::ThunderstormHail)
    }

    /// Rain animation intensity on a 0 (none) to 3 (heavy) scale.
    pub fn rain_intensity(&self) -> (r: u8)
        ensures
            r == 0 <==> !spec_is_raining(*self),
            r <= 3,
            *self == WeatherCondition::Drizzle ==> r == 1,
            (*self == WeatherCondition::Thunderstorm || *self
                == WeatherCondition::ThunderstormHail) ==> r == 3,
    {
        match self {
            WeatherCondition::Drizzle => 1,
            WeatherCondition::Rain => 2,
            WeatherCondition::FreezingRain => 2,
            WeatherCondition::RainShowers => 2,
            WeatherCondition::Thunderstorm => 3,
            WeatherCondition::ThunderstormHail => 3,
            _ => 0,
        }
    }

    /// Snow animation intensity on a 0 (none) to 2 (heavy) scale.
    pub fn snow_intensity(&self) -> (r: u8)
        ensures
            r == 0 <==> !(*self == WeatherCondition::Snow || *self == WeatherCondition::SnowGrains
                || *self == WeatherCondition::SnowShowers),
            r <= 2,
    {
        match self {
            WeatherCondition::SnowGrains => 1,
            WeatherCondition::Snow => 2,
            WeatherCondition::SnowShowers => 2,
            _ => 0,
        }
    }

    /// Fog animation density; only the fog condition produces one.
    pub fn fog_intensity(&self) -> (r: Option<FogIntensity>)
        ensures
            r is Some <==> *self == WeatherCondition::Fog,
    {
        match self {
            WeatherCondition::Fog => Some(FogIntensity::Medium),
            _ => None,
        }
    }

    /// The condition selected by its command-line name, if the name is known.
    pub fn from_name(name: &str) -> (r: Option<WeatherCondition>)
        ensures
            match r {
                Some(c) => name@ == spec_condition_name(c),
                None => forall|c: WeatherCondition| name@ != spec_condition_name(c),
            },
    {
        proof {
            reveal_strlit("clear");
            reveal_strlit("partly-cloudy");
            reveal_strlit("cloudy");
            reveal_strlit("overcast");
            reveal_strlit("fog");
            reveal_strlit("drizzle");
            reveal_strlit("rain");
            reveal_strlit("freezing-rain");
            reveal_strlit("rain-showers");
            reveal_strlit("snow");
            reveal_strlit("snow-grains");
            reveal_strlit("snow-showers");
            reveal_strlit("thunderstorm");
            reveal_strlit("thunderstorm-hail");
        }
        if crate::text::str_eq(name, "clear") {
            Some(WeatherCondition::Clear)
        } else if crate::text::str_eq(name, "partly-cloudy") {
            Some(WeatherCondition::PartlyCloudy)
        } else if crate::text::str_eq(name, "cloudy") {
            Some(WeatherCondition::Cloudy)
        } else if crate::text::str_eq(name, "overcast") {
            Some(WeatherCondition::Overcast)
        } else if crate::text::str_eq(name, "fog") {
            Some(WeatherCondition::Fog)
        } else if crate::text::str_eq(name, "drizzle") {
            Some(WeatherCondition::Drizzle)
        } else if crate::text::str_eq(name, "rain") {
            Some(WeatherCondition::Rain)
        } else if crate::text::str_eq(name, "freezing-rain") {
            Some(WeatherCondition::FreezingRain)
        } else if crate::text::str_eq(name, "rain-showers") {
            Some(WeatherCondition::RainShowers)
        } else if crate::text::str_eq(name, "snow") {
            Some(WeatherCondition::Snow)
        } else if crate::text::str_eq(name, "snow-grains") {
            Some(WeatherCondition::SnowGrains)
        } else if crate::text::str_eq(name, "snow-showers") {
            Some(WeatherCondition::SnowShowers)
        } else if crate::text::str_eq(name, "thunderstorm") {
            Some(WeatherCondition::Thunderstorm)
        } else if crate::text::str_eq(name, "thunderstorm-hail") {
            Some(WeatherCondition::ThunderstormHail)
        } else {
            proof {
                assert forall|c: WeatherCondition| name@ != spec_condition_name(c) by {
                    match c {
                        WeatherCondition::Clear => {},
                        WeatherCondition::PartlyCloudy => {},
                        WeatherCondition::Cloudy => {},
                        WeatherCondition::Overcast => {},
                        WeatherCondition::Fog => {},
                        WeatherCondition::Drizzle => {},
                        WeatherCondition::Rain => {},
                        WeatherCondition::FreezingRain => {},
                        WeatherCondition::RainShowers => {},
                        WeatherCondition::Snow => {},
                        WeatherCondition::SnowGrains => {},
                        WeatherCondition::SnowShowers => {},
                        WeatherCondition::Thunderstorm => {},
                        WeatherCondition::ThunderstormHail => {},
                    }
                }
            }
            None
        }
    }
}

/// The condition each Met Office significant weather code folds to:
/// 0 and 1 are clear, 2 and 3 partly cloudy, 5 and 6 mist and fog, 7 and 8
/// cloud and overcast, 9 to 12 showers, 13 to 15 rain, 16 to 18 sleet,
/// 19 to 21 drizzle and hail, 22 and 23 snow showers, 24 to 27 snow,
/// 28 and 29 thunder, 30 thunder with hail; anything else is cloudy.
pub open spec fn spec_condition_of_code(code: int) -> WeatherCondition {
    if code == 0 || code == 1 {
        WeatherCondition::Clear
    } else if code == 2 || code == 3 {
        WeatherCondition::PartlyCloudy
    } else if code == 5 || code == 6 {
        WeatherCondition::Fog
    } else if code == 7 {
        WeatherCondition::Cloudy
    } else if code == 8 {
        WeatherCondition::Overcast
    } else if 9 <= code <= 12 {
        WeatherCondition::RainShowers
    } else if 13 <= code <= 15 {
        WeatherCondition::Rain
    } else if 16 <= code <= 18 {
        WeatherCondition::FreezingRain
    } else if 19 <= code <= 21 {
        WeatherCondition::Drizzle
    } else if code == 22 || code == 23 {
        WeatherCondition::SnowShowers
    } else if 24 <= code <= 27 {
        WeatherCondition::Snow
    } else if code == 28 || code == 29 {
        WeatherCondition::Thunderstorm
    } else if code == 30 {
        WeatherCondition::ThunderstormHail
    } else {
        WeatherCondition::Cloudy
    }
}

impl WeatherCondition {
    /// Fold a provider's significant weather code to a condition.
    pub fn from_code(code: i32) -> (r: WeatherCondition)
        ensures
            r == spec_condition_of_code(code as int),
    {
        if code == 0 || code == 1 {
            WeatherCondition::Clear
        } else if code == 2 || code == 3 {
            WeatherCondition::PartlyCloudy
        } else if code == 5 || code == 6 {
            WeatherCondition::Fog
        } else if code == 7 {
            WeatherCondition::Cloudy
        } else if code == 8 {
            WeatherCondition::Overcast
        } else if 9 <= code && code <= 12 {
            WeatherCondition::RainShowers
        } else if 13 <= code && code <= 15 {
            WeatherCondition::Rain
        } else if 16 <= code && code <= 18 {
            WeatherCondition::FreezingRain
        } else if 19 <= code && code <= 21 {
            WeatherCondition::Drizzle
        } else if code == 22 || code == 23 {
            WeatherCondition::SnowShowers
        } else if 24 <= code && code <= 27 {
            WeatherCondition::Snow
        } else if code == 28 || code == 29 {
            WeatherCondition::Thunderstorm
        } else if code == 30 {
            WeatherCondition::ThunderstormHail
        } else {
            WeatherCondition::Cloudy
        }
    }
}

/// The command-line name of each condition.
pub open spec fn spec_condition_name(c: WeatherCondition) -> Seq<char> {
    match c {
        WeatherCondition::Clear => "clear"@,
        WeatherCondition::PartlyCloudy => "partly-cloudy"@,
        WeatherCondition::Cloudy => "cloudy"@,
        WeatherCondition::Overcast => "overcast"@,
        WeatherCondition::Fog => "fog"@,
        WeatherCondition::Drizzle => "drizzle"@,
        WeatherCondition::Rain => "rain"@,
        WeatherCondition::FreezingRain => "freezing-rain"@,
        WeatherCondition::RainShowers => "rain-showers"@,
        WeatherCondition::Snow => "snow"@,
        WeatherCondition::SnowGrains => "snow-grains"@,
        WeatherCondition::SnowShowers => "snow-showers"@,
        WeatherCondition::Thunderstorm => "thunderstorm"@,
        WeatherCondition::ThunderstormHail => "thunderstorm-hail"@,
    }
}

} // verus!

//! The polymorphic provider surface.
//!
//! A provider's remote call is unverified transport; each implementation's
//! verified substance is its request URL construction and its
//! interpretation of the decoded answer, found on the implementing type.
//! The traits carry what is uniform across providers: identity for cache
//! keys, attribution, and the supplementary capability set.

use vstd::prelude::*;

verus! {

/// What a supplementary source can be asked for.
#[derive(Clone, Copy, Debug, PartialEq, Eq, Structural)]
pub enum SupplementaryProviderRequest {
    /// The current moon phase.
    PhasesOfMoon,
    /// Sun and moon data for the current day: day/night and moon phase.
    SunAndMoonForOneDay,
}

/// What a supplementary source answers. Moon phases are thousandths of the
/// `[0, 1)` cycle.
#[derive(Clone, Debug, PartialEq, Eq, Structural)]
pub enum SupplementaryProviderResponse {
    PhasesOfMoon(Option<u32>),
    SunAndMoonForOneDay { is_day: bool, moon_phase: Option<u32> },
}

/// A remote source of current weather. Its fetched answer is decoded by
/// unverified transport and interpreted by the implementing type's own
/// functions; the trait names what every source shares.
pub trait WeatherProvider {
    /// The identity used in cache keys for readings from this source.
    fn provider_id(&self) -> crate::types::Provider;

    /// The attribution text the source requires alongside its data.
    fn get_attribution(&self) -> &'static str;
}

/// The library error one retried weather fetch surfaces: a success or a
/// terminal error stand for themselves, exhaustion wraps the last
/// underlying network fault.
pub open spec fn spec_weather_retry_error(
    outcome: crate::retry::RetryOutcome<crate::types::WeatherProviderResponse, crate::error::WeatherError>,
) -> Result<crate::types::WeatherProviderResponse, crate::error::WeatherError> {
    match outcome {
        crate::retry::RetryOutcome::Success(v) => Result::Ok(v),
        crate::retry::RetryOutcome::Failed(e) => Result::Err(e),
        crate::retry::RetryOutcome::Exhausted { attempts, last } => Result::Err(
            crate::error::WeatherError::RetriesExhausted {
                attempts,
                last: match last {
                    Some(crate::error::WeatherError::Network(net)) => Some(net),
                    _ => None,
                },
            },
        ),
    }
}

/// Resolve a retried weather fetch to the caller's result.
pub fn weather_retry_result(
    outcome: crate::retry::RetryOutcome<crate::types::WeatherProviderResponse, crate::error::WeatherError>,
) -> (r: Result<crate::types::WeatherProviderResponse, crate::error::WeatherError>)
    ensures
        r == spec_weather_retry_error(outcome),
{
    match outcome {
        crate::retry::RetryOutcome::Success(v) => Ok(v),
        crate::retry::RetryOutcome::Failed(e) => Err(e),
        crate::retry::RetryOutcome::Exhausted { attempts, last } => {
            let last_network = match last {
                Some(crate::error::WeatherError::Network(net)) => Some(net),
                _ => None,
            };
            Err(crate::error::WeatherError::RetriesExhausted { attempts, last: last_network })
        },
    }
}

/// A secondary source used to fill fields a primary provider cannot supply
/// (the day/night flag, the moon phase).
pub trait SupplementaryWeatherProvider {
    /// The attribution text the source requires alongside its data.
    fn get_attribution(&self) -> &'static str;

    /// The requests this source can answer, for mixing and matching when a
    /// supplementary source is unavailable.
    fn capabilities(&self) -> Vec<SupplementaryProviderRequest>;
}

} // verus!

//! Geocoding a city name: request URL construction, interpretation of the
//! index's answer, and the retry policy glue.
//!
//! The HTTP transport is unverified plumbing; it performs one GET per
//! attempt on the URL built here and hands the decoded matches back to
//! [`interpret_geocoding_response`].

use vstd::prelude::*;
use vstd::string::StringSliceAdditionalSpecFns;

verus! {

/// The geocoding endpoint.
pub open spec fn spec_geocoding_url() -> Seq<char> {
    "https://geocoding-api.open-meteo.com/v1/search"@
}

/// The uppercase hexadecimal digit character for `d`.
pub open spec fn spec_hex_digit(d: u8) -> char {
    if d == 0 {
        '0'
    } else if d == 1 {
        '1'
    } else if d == 2 {
        '2'
    } else if d == 3 {
        '3'
    } else if d == 4 {
        '4'
    } else if d == 5 {
        '5'
    } else if d == 6 {
        '6'
    } else if d == 7 {
        '7'
    } else if d == 8 {
        '8'
    } else if d == 9 {
        '9'
    } else if d == 10 {
        'A'
    } else if d == 11 {
        'B'
    } else if d == 12 {
        'C'
    } else if d == 13 {
        'D'
    } else if d == 14 {
        'E'
    } else {
        'F'
    }
}

/// Bytes that pass through URL encoding unchanged: ASCII letters, digits,
/// and `- _ . ~`.
pub open spec fn spec_url_unreserved(b: u8) -> bool {
    ||| 0x41 <= b <= 0x5A  // 'A'..='Z'
    ||| 0x61 <= b <= 0x7A  // 'a'..='z'
    ||| 0x30 <= b <= 0x39  // '0'..='9'
    ||| b == 0x2D  // '-'
    ||| b == 0x5F  // '_'
    ||| b == 0x2E  // '.'
    ||| b == 0x7E  // '~'
}

/// How one byte is URL-encoded: unreserved bytes stand for themselves, a
/// space becomes `+`, everything else becomes `%` and two hex digits.
pub open spec fn spec_url_encode_byte(b: u8) -> Seq<char> {
    if spec_url_unreserved(b) {
        seq![b as char]
    } else if b == 0x20 {
        seq!['+']
    } else {
        seq!['%', spec_hex_digit(b / 16), spec_hex_digit(b % 16)]
    }
}

/// The URL encoding of a byte string.
pub open spec fn spec_url_encode(bytes: Seq<u8>) -> Seq<char>
    decreases bytes.len(),
{
    if bytes.len() == 0 {
        Seq::empty()
    } else {
        spec_url_encode(bytes.drop_last()) + spec_url_encode_byte(bytes.last())
    }
}

/// Relies on `String::from_utf8`: bytes below 128 are valid UTF-8 and
/// decode one-to-one to their ASCII characters.
#[verifier::external_body]
pub(crate) fn ascii_bytes_to_string(bytes: Vec<u8>) -> (r: String)
    requires
        forall|i: int| 0 <= i < bytes@.len() ==> bytes@[i] < 128,
    ensures
        r@.len() == bytes@.len(),
        forall|i: int| 0 <= i < bytes@.len() ==> r@[i] == bytes@[i] as char,
{
    String::from_utf8(bytes).unwrap_or_default()
}

/// URL-encode a query term, byte by byte.
pub fn url_encode(s: &str) -> (r: String)
    ensures
        r@ == spec_url_encode(s.spec_bytes()),
{
    let bytes = s.as_bytes();
    let mut out: Vec<u8> = Vec::new();
    let ghost encoded = spec_url_encode(s.spec_bytes());
    let mut i: usize = 0;
    while i < bytes.len()
        invariant
            0 <= i <= bytes@.len(),
            bytes@ == s.spec_bytes(),
            out@.len() >= i,
            forall|j: int| 0 <= j < out@.len() ==> out@[j] < 128,
            spec_url_encode(bytes@.take(i as int)) =~= out@.map_values(|b: u8| b as char),
        decreases bytes@.len() - i,
    {
        let b = bytes[i];
        proof {
            assert(bytes@.take(i + 1).drop_last() =~= bytes@.take(i as int));
            assert(bytes@.take(i + 1).last() == b);
        }
        if (b >= 0x41 && b <= 0x5A) || (b >= 0x61 && b <= 0x7A) || (b >= 0x30 && b <= 0x39) || b
            == 0x2D || b == 0x5F || b == 0x2E || b == 0x7E {
            out.push(b);
        } else if b == 0x20 {
            out.push(0x2B);  // '+'
            proof {
                assert((0x2Bu8) as char == '+');
            }
        } else {
            out.push(0x25);  // '%'
            out.push(hex_digit(b / 16));
            out.push(hex_digit(b % 16));
            proof {
                assert((0x25u8) as char == '%');
            }
        }
        proof {
            assert(spec_url_encode(bytes@.take(i + 1)) =~= out@.map_values(|x: u8| x as char));
        }
        i = i + 1;
    }
    proof {
        assert(bytes@.take(bytes@.len() as int) =~= bytes@);
    }
    let r = ascii_bytes_to_string(out);
    proof {
        assert(r@ =~= encoded);
    }
    r
}

/// The ASCII code of the uppercase hexadecimal digit for `d`.
fn hex_digit(d: u8) -> (r: u8)
    requires
        d < 16,
    ensures
        r < 128,
        r as char == spec_hex_digit(d),
{
    if d < 10 {
        0x30 + d
    } else {
        proof {
            assert(0x41u8 as char == 'A' && 0x42u8 as char == 'B' && 0x43u8 as char == 'C'
                && 0x44u8 as char == 'D' && 0x45u8 as char == 'E' && 0x46u8 as char == 'F');
        }
        0x41 + (d - 10)
    }
}

/// The one-match geocoding request URL for an encoded city query.
pub open spec fn spec_geocoding_request_url(city: Seq<u8>) -> Seq<char> {
    spec_geocoding_url() + "?name="@ + spec_url_encode(city) + "&count=1&language=en"@
}

/// Build the geocoding request URL for a city query.
pub fn build_geocoding_url(city: &str) -> (r: String)
    ensures
        r@ == spec_geocoding_request_url(city.spec_bytes()),
{
    let encoded = url_encode(city);
    String::from_str("https://geocoding-api.open-meteo.com/v1/search").concat("?name=").concat(
        encoded.as_str(),
    ).concat("&count=1&language=en")
}

/// Interpret the geocoding index's answer for `city`: the first match when
/// one exists, and the terminal city-not-found error exactly when the index
/// answered with no matches.
pub fn interpret_geocoding_response(
    results: Option<Vec<crate::types::GeocodedLocation>>,
    city: &str,
) -> (r: Result<crate::types::GeocodedLocation, crate::error::GeocodingError>)
    ensures
        match r {
            Result::Ok(loc) => {
                &&& results matches Some(v) && v@.len() > 0
                &&& loc == results->0@[0]
            },
            Result::Err(e) => {
                &&& results matches Some(v) ==> v@.len() == 0
                &&& e matches crate::error::GeocodingError::CityNotFound { city: c } && c@ == city@
            },
        },
{
    match results {
        Some(mut v) => {
            if v.len() > 0 {
                let first = v.remove(0);
                Ok(first)
            } else {
                Err(crate::error::GeocodingError::CityNotFound { city: city.to_owned() })
            }
        },
        None => Err(crate::error::GeocodingError::CityNotFound { city: city.to_owned() }),
    }
}

/// The library error that one retry resolution surfaces: a success or a
/// terminal error stand for themselves, exhaustion wraps the last
/// underlying network fault.
pub open spec fn spec_geocode_retry_error(
    outcome: crate::retry::RetryOutcome<crate::types::GeocodedLocation, crate::error::GeocodingError>,
) -> Result<crate::types::GeocodedLocation, crate::error::GeocodingError> {
    match outcome {
        crate::retry::RetryOutcome::Success(v) => Result::Ok(v),
        crate::retry::RetryOutcome::Failed(e) => Result::Err(e),
        crate::retry::RetryOutcome::Exhausted { attempts, last } => Result::Err(
            crate::error::GeocodingError::RetriesExhausted {
                attempts,
                last: match last {
                    Some(crate::error::GeocodingError::Unreachable(net)) => Some(net),
                    _ => None,
                },
            },
        ),
    }
}

/// Resolve a retried geocoding run to the caller's result.
pub fn geocode_retry_result(
    outcome: crate::retry::RetryOutcome<crate::types::GeocodedLocation, crate::error::GeocodingError>,
) -> (r: Result<crate::types::GeocodedLocation, crate::error::GeocodingError>)
    ensures
        r == spec_geocode_retry_error(outcome),
{
    match outcome {
        crate::retry::RetryOutcome::Success(v) => Ok(v),
        crate::retry::RetryOutcome::Failed(e) => Err(e),
        crate::retry::RetryOutcome::Exhausted { attempts, last } => {
            let last_network = match last {
                Some(crate::error::GeocodingError::Unreachable(net)) => Some(net),
                _ => None,
            };
            Err(crate::error::GeocodingError::RetriesExhausted { attempts, last: last_network })
        },
    }
}

/// Run the retry policy over a pre-recorded vector of geocoding attempt
/// outcomes and resolve it to the caller's result: the policy of the live
/// lookup, on one value of the attempts.
pub fn geocode_city_with_retry(
    outcomes: Vec<Result<crate::types::GeocodedLocation, crate::error::GeocodingError>>,
) -> (r: Result<crate::types::GeocodedLocation, crate::error::GeocodingError>)
    requires
        outcomes@.len() == crate::retry::MAX_RETRIES,
    ensures
        r == spec_geocode_retry_error(crate::retry::spec_retry_outcome(outcomes@, 1)),
{
    let report = crate::retry::fetch_with_retry(outcomes);
    geocode_retry_result(report.outcome)
}

} // verus!

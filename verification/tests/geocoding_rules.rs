//! Geocoding: URL encoding, the request URL, the answer interpretation,
//! and the retry glue.

use weathr::error::{GeocodingError, NetworkErrorKind};
use weathr::geocoding::{
    build_geocoding_url, geocode_city_with_retry, interpret_geocoding_response, url_encode,
};
use weathr::types::GeocodedLocation;

fn berlin() -> GeocodedLocation {
    GeocodedLocation {
        latitude_centi: 5252,
        longitude_centi: 1341,
        name: "Berlin".to_string(),
        country: Some("Germany".to_string()),
    }
}

#[test]
fn unreserved_characters_pass_through() {
    assert_eq!(url_encode("Berlin"), "Berlin");
    assert_eq!(url_encode("a-b_c.d~e09"), "a-b_c.d~e09");
}

#[test]
fn spaces_become_plus_and_the_rest_is_escaped() {
    assert_eq!(url_encode("New York"), "New+York");
    assert_eq!(url_encode("a/b?c"), "a%2Fb%3Fc");
    assert_eq!(url_encode("100%"), "100%25");
}

#[test]
fn multibyte_text_is_escaped_byte_by_byte() {
    assert_eq!(url_encode("München"), "M%C3%BCnchen");
}

#[test]
fn request_url_asks_for_one_english_match() {
    assert_eq!(
        build_geocoding_url("New York"),
        "https://geocoding-api.open-meteo.com/v1/search?name=New+York&count=1&language=en"
    );
}

#[test]
fn first_match_wins() {
    let mut other = berlin();
    other.name = "Berlin Brandenburg".to_string();
    let r = interpret_geocoding_response(Some(vec![berlin(), other]), "berlin");
    assert_eq!(r.unwrap(), berlin());
}

#[test]
fn an_empty_answer_is_city_not_found() {
    let empty = interpret_geocoding_response(Some(vec![]), "atlantis");
    assert_eq!(
        empty.unwrap_err(),
        GeocodingError::CityNotFound { city: "atlantis".to_string() }
    );
    let missing = interpret_geocoding_response(None, "atlantis");
    assert!(matches!(missing, Err(GeocodingError::CityNotFound { .. })));
}

#[test]
fn retried_lookup_returns_the_late_success() {
    let fault = GeocodingError::Unreachable(NetworkErrorKind::Dns {
        url: "https://geocoding-api.open-meteo.com/v1/search".to_string(),
    });
    let r = geocode_city_with_retry(vec![Err(fault.clone()), Ok(berlin()), Err(fault)]);
    assert_eq!(r.unwrap(), berlin());
}

#[test]
fn exhausted_lookup_wraps_the_last_network_fault() {
    let fault = |n: u64| {
        GeocodingError::Unreachable(NetworkErrorKind::Timeout {
            url: "https://geocoding-api.open-meteo.com/v1/search".to_string(),
            seconds: n,
        })
    };
    let r = geocode_city_with_retry(vec![
        Err(fault(1)),
        Err(fault(2)),
        Err(fault(3)),
    ]);
    match r.unwrap_err() {
        GeocodingError::RetriesExhausted { attempts, last } => {
            assert_eq!(attempts, 3);
            assert_eq!(
                last,
                Some(NetworkErrorKind::Timeout {
                    url: "https://geocoding-api.open-meteo.com/v1/search".to_string(),
                    seconds: 3,
                })
            );
        }
        other => panic!("expected exhaustion, got {:?}", other),
    }
}

#[test]
fn not_found_short_circuits_the_retry_loop() {
    let not_found = GeocodingError::CityNotFound { city: "atlantis".to_string() };
    let r = geocode_city_with_retry(vec![Err(not_found.clone()), Ok(berlin()), Ok(berlin())]);
    assert_eq!(r.unwrap_err(), not_found);
}

#[test]
fn messages_distinguish_the_fault_kinds() {
    let timeout = NetworkErrorKind::Timeout { url: "https://x".to_string(), seconds: 10 };
    let dns = NetworkErrorKind::Dns { url: "https://x".to_string() };
    let refused = NetworkErrorKind::ConnectionRefused { url: "https://x".to_string() };
    assert_eq!(timeout.user_friendly_message(), "request timed out after 10s: https://x");
    assert_eq!(dns.user_friendly_message(), "could not resolve host: https://x");
    assert_eq!(refused.user_friendly_message(), "connection refused: https://x");
    let not_found = GeocodingError::CityNotFound { city: "atlantis".to_string() };
    assert_eq!(not_found.user_friendly_message(), "city not found: atlantis");
}

//! The astronomy provider: moon phase names, clock-time parsing, the sun
//! table, and day/night determination.

use weathr::aad::{
    convert_string_to_moon_phase, get_sun_phase, interpret_moon_phases, interpret_sun_and_moon,
    parse_hhmm, request_url, CelestialPhenomena, MoonPhase, SunData,
};
use weathr::error::WeatherError;
use weathr::provider::{SupplementaryProviderRequest, SupplementaryProviderResponse};
use weathr::types::WeatherLocation;

fn sun_table() -> Vec<SunData> {
    vec![
        SunData {
            phen: CelestialPhenomena::BeginCivilTwilight,
            time: "04:22".to_string(),
        },
        SunData { phen: CelestialPhenomena::Rise, time: "04:58".to_string() },
        SunData { phen: CelestialPhenomena::UpperTransit, time: "13:04  ST".to_string() },
        SunData { phen: CelestialPhenomena::Setting, time: "21:11".to_string() },
        SunData { phen: CelestialPhenomena::EndCivilTwilight, time: "21:47".to_string() },
    ]
}

#[test]
fn tz_test() {
    let now = chrono::Local::now();
    let date = now.format("%Y-%m-%d").to_string();
    let offset_seconds = now.offset().local_minus_utc();
    let offset_hours = offset_seconds / 3600;
    println!("{date} {offset_hours}");

    let location = WeatherLocation {
        latitude_centi: 5252,
        longitude_centi: 1341,
        elevation_meters: None,
    };

    println!(
        "{}",
        request_url(
            SupplementaryProviderRequest::SunAndMoonForOneDay,
            &location,
            &date,
            offset_hours as i64,
        )
    );
}

#[test]
fn moon_phase_validation() {
    let step = (0.15f64 * 8.0).round() as usize % 8;
    println!("{}", step);
}

#[test]
fn every_phase_name_maps_to_its_fraction() {
    assert_eq!(convert_string_to_moon_phase("Waxing Crescent"), 150);
    assert_eq!(convert_string_to_moon_phase("First Quarter"), 250);
    assert_eq!(convert_string_to_moon_phase("Waxing Gibbous"), 350);
    assert_eq!(convert_string_to_moon_phase("Full Moon"), 500);
    assert_eq!(convert_string_to_moon_phase("Waning Gibbous"), 650);
    assert_eq!(convert_string_to_moon_phase("Last Quarter"), 750);
    assert_eq!(convert_string_to_moon_phase("Waning Crescent"), 850);
    assert_eq!(convert_string_to_moon_phase("New Moon"), 0);
    assert_eq!(convert_string_to_moon_phase("anything else"), 0);
}

#[test]
fn clock_times_parse_strictly() {
    assert_eq!(parse_hhmm("04:58"), Some(4 * 60 + 58));
    assert_eq!(parse_hhmm("00:00"), Some(0));
    assert_eq!(parse_hhmm("23:59"), Some(23 * 60 + 59));
    assert_eq!(parse_hhmm("24:00"), None);
    assert_eq!(parse_hhmm("12:60"), None);
    assert_eq!(parse_hhmm("4:58"), None);
    assert_eq!(parse_hhmm("04.58"), None);
    assert_eq!(parse_hhmm(""), None);
}

#[test]
fn the_seasonal_time_marker_is_stripped() {
    let item = SunData { phen: CelestialPhenomena::UpperTransit, time: "13:04  ST".to_string() };
    assert_eq!(item.get_time(), "13:04");
    assert_eq!(item.to_minutes(), Some(13 * 60 + 4));
    let plain = SunData { phen: CelestialPhenomena::Rise, time: "04:58".to_string() };
    assert_eq!(plain.get_time(), "04:58");
}

#[test]
fn the_sun_table_is_searched_by_event() {
    let table = sun_table();
    let rise = get_sun_phase(&table, CelestialPhenomena::Rise).unwrap();
    assert_eq!(rise.time, "04:58");
    assert!(get_sun_phase(&vec![], CelestialPhenomena::Rise).is_none());
}

#[test]
fn noon_is_day_and_midnight_is_night() {
    let day = interpret_sun_and_moon("Full Moon", &sun_table(), 12 * 60).unwrap();
    match day {
        SupplementaryProviderResponse::SunAndMoonForOneDay { is_day, moon_phase } => {
            assert!(is_day);
            assert_eq!(moon_phase, Some(500));
        }
        _ => panic!("wrong response kind"),
    }
    let night = interpret_sun_and_moon("Full Moon", &sun_table(), 0).unwrap();
    assert!(matches!(
        night,
        SupplementaryProviderResponse::SunAndMoonForOneDay { is_day: false, .. }
    ));
}

#[test]
fn daylight_is_strictly_between_rise_and_set() {
    let at_rise = interpret_sun_and_moon("Full Moon", &sun_table(), 4 * 60 + 58).unwrap();
    assert!(matches!(
        at_rise,
        SupplementaryProviderResponse::SunAndMoonForOneDay { is_day: false, .. }
    ));
    let after_rise = interpret_sun_and_moon("Full Moon", &sun_table(), 4 * 60 + 59).unwrap();
    assert!(matches!(
        after_rise,
        SupplementaryProviderResponse::SunAndMoonForOneDay { is_day: true, .. }
    ));
    let at_set = interpret_sun_and_moon("Full Moon", &sun_table(), 21 * 60 + 11).unwrap();
    assert!(matches!(
        at_set,
        SupplementaryProviderResponse::SunAndMoonForOneDay { is_day: false, .. }
    ));
}

#[test]
fn a_table_without_rise_or_set_is_a_mapping_fault() {
    let table = vec![SunData {
        phen: CelestialPhenomena::UpperTransit,
        time: "13:04".to_string(),
    }];
    let err = interpret_sun_and_moon("Full Moon", &table, 600).unwrap_err();
    assert!(matches!(err, WeatherError::ProviderMapping { .. }));
}

#[test]
fn an_unparsable_time_is_a_mapping_fault() {
    let table = vec![
        SunData { phen: CelestialPhenomena::Rise, time: "sunrise".to_string() },
        SunData { phen: CelestialPhenomena::Setting, time: "21:11".to_string() },
    ];
    let err = interpret_sun_and_moon("Full Moon", &table, 600).unwrap_err();
    assert!(matches!(err, WeatherError::ProviderMapping { .. }));
}

#[test]
fn the_first_listed_phase_is_reported() {
    let phases = vec![
        MoonPhase { phase: "Waxing Gibbous".to_string() },
        MoonPhase { phase: "Full Moon".to_string() },
    ];
    let r = interpret_moon_phases(&phases).unwrap();
    assert_eq!(r, SupplementaryProviderResponse::PhasesOfMoon(Some(350)));
    assert!(matches!(
        interpret_moon_phases(&vec![]),
        Err(WeatherError::ProviderMapping { .. })
    ));
}

#[test]
fn request_urls_carry_date_coordinates_and_zone() {
    let location = WeatherLocation {
        latitude_centi: 5252,
        longitude_centi: 1341,
        elevation_meters: None,
    };
    assert_eq!(
        request_url(SupplementaryProviderRequest::PhasesOfMoon, &location, "2024-06-01", 1),
        "https://aa.usno.navy.mil/api/moon/phases/date?date=2024-06-01&nump=1"
    );
    assert_eq!(
        request_url(
            SupplementaryProviderRequest::SunAndMoonForOneDay,
            &location,
            "2024-06-01",
            -5,
        ),
        "https://aa.usno.navy.mil/api/rstt/oneday?date=2024-06-01&coords=52.52,13.41&tz=-5&dst=true"
    );
}

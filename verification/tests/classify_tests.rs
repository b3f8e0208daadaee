use metar_hazard::classify::{bad_weather, low_ceiling, low_visibility, strong_wind};
use metar_hazard::decode::AirportWeather;
use metar_hazard::time::{ReportTime, UtcInstant};

fn fresh_report() -> AirportWeather {
    // One hour before the reference instant used below.
    AirportWeather {
        time: ReportTime { day: 5, hour: 13, minute: 0 },
        wind_speed_kt: 10,
        wind_gust_speed_kt: None,
        visibility_m: 9999,
        overcast_ceiling_ft: None,
        vertical_visibility_ft: None,
        raw_metar: String::from("RJTT 051300Z 18010KT 9999"),
    }
}

fn reference() -> UtcInstant {
    UtcInstant::new(2024, 3, 5, 14, 0, 0).unwrap()
}

#[test]
fn strong_wind_by_speed() {
    let mut w = fresh_report();
    w.wind_speed_kt = 35;
    assert!(strong_wind(&w));
    assert!(bad_weather(&w, &reference()));
}

#[test]
fn strong_wind_by_gust() {
    let mut w = fresh_report();
    w.wind_speed_kt = 20;
    w.wind_gust_speed_kt = Some(50);
    assert!(strong_wind(&w));
    assert!(bad_weather(&w, &reference()));
}

#[test]
fn wind_thresholds_are_strict() {
    let mut w = fresh_report();
    w.wind_speed_kt = 30;
    w.wind_gust_speed_kt = Some(45);
    assert!(!strong_wind(&w));
    assert!(!bad_weather(&w, &reference()));
}

#[test]
fn low_visibility_rule() {
    let mut w = fresh_report();
    w.visibility_m = 400;
    assert!(low_visibility(&w));
    assert!(bad_weather(&w, &reference()));
    w.visibility_m = 500;
    assert!(!low_visibility(&w));
    assert!(!bad_weather(&w, &reference()));
}

#[test]
fn low_ceiling_needs_secondary_gate() {
    let mut w = fresh_report();
    w.overcast_ceiling_ft = Some(200);
    w.visibility_m = 9000;
    assert!(low_ceiling(&w));
    assert!(!bad_weather(&w, &reference()));
}

#[test]
fn zero_ceiling_passes_secondary_gate() {
    let mut w = fresh_report();
    w.overcast_ceiling_ft = Some(0);
    w.visibility_m = 9000;
    assert!(bad_weather(&w, &reference()));
}

#[test]
fn low_ceiling_with_reduced_visibility() {
    let mut w = fresh_report();
    w.overcast_ceiling_ft = Some(200);
    w.visibility_m = 7000;
    assert!(bad_weather(&w, &reference()));
}

#[test]
fn low_vertical_visibility_with_reduced_visibility() {
    let mut w = fresh_report();
    w.vertical_visibility_ft = Some(100);
    w.visibility_m = 7000;
    assert!(low_ceiling(&w));
    assert!(bad_weather(&w, &reference()));
}

#[test]
fn high_ceiling_not_low() {
    let mut w = fresh_report();
    w.overcast_ceiling_ft = Some(300);
    assert!(!low_ceiling(&w));
    assert!(!bad_weather(&w, &reference()));
}

#[test]
fn stale_report_never_hazardous() {
    let mut w = fresh_report();
    w.time = ReportTime { day: 5, hour: 10, minute: 0 };
    w.wind_speed_kt = 99;
    w.visibility_m = 0;
    w.overcast_ceiling_ft = Some(0);
    assert!(!bad_weather(&w, &reference()));
}

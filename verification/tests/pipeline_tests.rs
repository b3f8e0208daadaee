use metar_hazard::decode::parse_metar;
use metar_hazard::pipeline::process_bulletin;
use metar_hazard::time::{ReportTime, UtcInstant};

fn reference() -> UtcInstant {
    UtcInstant::new(2024, 3, 5, 14, 0, 0).unwrap()
}

#[test]
fn aggregation_preserves_bulletin_order() {
    let r1 = "RJAA 051330Z 35035KT 9999";
    let r2 = "RJBB 051330Z 18010KT 9999";
    let r3 = "RJCC 051330Z 18005KT 0300";
    let bulletin = format!("{}\n{}\n{}", r1, r2, r3);
    let out = process_bulletin(bulletin.as_str(), &reference());
    assert_eq!(out, format!("{}\n{}\n", r1, r3));
}

#[test]
fn calm_bulletin_yields_empty_output() {
    let bulletin = "RJAA 051330Z 18010KT 9999\nRJBB 051330Z 00000KT CAVOK";
    let out = process_bulletin(bulletin, &reference());
    assert_eq!(out, "");
}

#[test]
fn malformed_line_is_skipped() {
    let bulletin = "GARBAGE\n\nRJCC 051330Z 18005KT 0300";
    let out = process_bulletin(bulletin, &reference());
    assert_eq!(out, "RJCC 051330Z 18005KT 0300\n");
}

#[test]
fn stale_report_is_excluded() {
    let bulletin = "RJAA 051000Z 35050KT 0100\nRJCC 051330Z 18005KT 0300";
    let out = process_bulletin(bulletin, &reference());
    assert_eq!(out, "RJCC 051330Z 18005KT 0300\n");
}

#[test]
fn auto_report_in_pipeline() {
    let bulletin = "RJAA 051330Z AUTO 35035KT 9999";
    let out = process_bulletin(bulletin, &reference());
    assert_eq!(out, "RJAA 051330Z AUTO 35035KT 9999\n");
}

#[test]
fn variable_wind_report_in_pipeline() {
    let bulletin = "RJAA 051330Z 35035KT 320V010 9999";
    let out = process_bulletin(bulletin, &reference());
    assert_eq!(out, "RJAA 051330Z 35035KT 320V010 9999\n");
}

#[test]
fn ceiling_from_raw_text_in_pipeline() {
    // The ceiling group is found by substring search over the whole
    // report, beyond the four positional tokens.
    let bulletin = "RJAA 051330Z 18010KT 7000 OVC001";
    let out = process_bulletin(bulletin, &reference());
    assert_eq!(out, "RJAA 051330Z 18010KT 7000 OVC001\n");
}

#[test]
fn undecodable_time_falls_back_to_reference() {
    // The time group is malformed, so the report time falls back to
    // the reference instant's own fields and the report is fresh.
    let bulletin = "RJAA BADTIME 18005KT 0300";
    let out = process_bulletin(bulletin, &reference());
    assert_eq!(out, "RJAA BADTIME 18005KT 0300\n");
}

#[test]
fn decoding_is_idempotent() {
    let raw = "RJAA 051330Z AUTO 18020G35KT 320V010 0400 OVC002";
    let fallback = ReportTime { day: 5, hour: 14, minute: 0 };
    let first = parse_metar(String::from(raw), fallback).unwrap();
    let second = parse_metar(String::from(raw), fallback).unwrap();
    assert_eq!(first, second);
    assert_eq!(first.wind_speed_kt, 20);
    assert_eq!(first.wind_gust_speed_kt, Some(35));
    assert_eq!(first.visibility_m, 400);
    assert_eq!(first.overcast_ceiling_ft, Some(200));
    assert_eq!(first.vertical_visibility_ft, None);
    assert_eq!(first.time, ReportTime { day: 5, hour: 13, minute: 30 });
    assert_eq!(first.raw_metar.as_str(), raw);
}

#[test]
fn short_report_yields_no_decoded_report() {
    let fallback = ReportTime { day: 5, hour: 14, minute: 0 };
    assert!(parse_metar(String::from("RJAA 051330Z 18020KT"), fallback).is_none());
    assert!(parse_metar(String::from(""), fallback).is_none());
}

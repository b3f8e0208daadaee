//! Field decoders: time group, wind group, visibility, ceiling and
//! vertical visibility, and the assembly of a whole decoded report.
//!
//! A malformed field never aborts decoding: it degrades to its safe
//! default (wind speed 0, gust absent, visibility 9999, time falling
//! back to the caller's reference time).  Only a report with too few
//! tokens is rejected as a whole.

use vstd::prelude::*;
use crate::text::{
    all_digits, dec_val, digit_val, ends_with, contains_seq, is_digit, lemma_dec_val_bound,
    parse_digits, pow10, str_contains, str_ends_with, str_eq,
};
use crate::time::ReportTime;
use crate::tokens::{normalize, spec_normalize, spec_tokens, tokenize, FieldTokens};

verus! {

/// Wind speed of a wind token: the two digits after the three-digit
/// direction, for a token that ends in `KT` and is not the all-missing
/// sentinel; 0 for anything else.
pub open spec fn spec_wind_speed(t: Seq<char>) -> int {
    if ends_with(t, "KT"@) && t != "/////KT"@ && t.len() >= 5 && all_digits(t, 3, 5) {
        dec_val(t, 3, 5)
    } else {
        0
    }
}

/// Gust speed of a wind token: the two digits after a `G` at position
/// 5, present only on a well-formed gusting wind token.
pub open spec fn spec_wind_gust(t: Seq<char>) -> Option<int> {
    if ends_with(t, "KT"@) && t != "/////KT"@ && t.len() > 5 && t[5] == 'G' && t.len() >= 8
        && all_digits(t, 6, 8) {
        Some(dec_val(t, 6, 8))
    } else {
        None
    }
}

/// Visibility of a visibility token, in meters: the token read as a
/// four-digit number, or the unlimited/unknown sentinel 9999 for a
/// token of any other length, the all-missing sentinel, a statute-mile
/// value, or the ceiling-and-visibility-OK literal.
pub open spec fn spec_visibility(t: Seq<char>) -> int {
    if t.len() == 4 && t != "////"@ && !ends_with(t, "SM"@) && t != "CAVOK"@ && all_digits(
        t,
        0,
        4,
    ) {
        dec_val(t, 0, 4)
    } else {
        9999
    }
}

/// Report time of a time token: two digits each of day, hour and
/// minute, accepted only within their calendar ranges.
pub open spec fn spec_report_time(t: Seq<char>) -> Option<ReportTime> {
    if t.len() >= 6 && all_digits(t, 0, 6) {
        let d = dec_val(t, 0, 2);
        let h = dec_val(t, 2, 4);
        let mi = dec_val(t, 4, 6);
        if 1 <= d <= 31 && h <= 23 && mi <= 59 {
            Some(ReportTime { day: d as u8, hour: h as u8, minute: mi as u8 })
        } else {
            None
        }
    } else {
        None
    }
}

/// Overcast ceiling of a whole report, in feet: the lowest of the four
/// recognized overcast bands whose group occurs anywhere in the text.
pub open spec fn spec_ceiling(raw: Seq<char>) -> Option<u16> {
    if contains_seq(raw, "OVC000"@) {
        Some(0u16)
    } else if contains_seq(raw, "OVC001"@) {
        Some(100u16)
    } else if contains_seq(raw, "OVC002"@) {
        Some(200u16)
    } else if contains_seq(raw, "OVC003"@) {
        Some(300u16)
    } else {
        None
    }
}

/// Vertical visibility of a whole report, in feet: the lowest of the
/// four recognized bands whose group occurs anywhere in the text.
pub open spec fn spec_vertical_visibility(raw: Seq<char>) -> Option<u16> {
    if contains_seq(raw, "VV000"@) {
        Some(0u16)
    } else if contains_seq(raw, "VV001"@) {
        Some(100u16)
    } else if contains_seq(raw, "VV002"@) {
        Some(200u16)
    } else if contains_seq(raw, "VV003"@) {
        Some(300u16)
    } else {
        None
    }
}

/// A decoded wind speed lies below 100 knots.
pub proof fn lemma_wind_speed_bound(t: Seq<char>)
    ensures
        0 <= spec_wind_speed(t) <= 99,
{
    if ends_with(t, "KT"@) && t != "/////KT"@ && t.len() >= 5 && all_digits(t, 3, 5) {
        lemma_dec_val_bound(t, 3, 5);
        assert(pow10(2nat) == 100) by {
            reveal_with_fuel(pow10, 3);
        }
    }
}

/// A decoded gust speed lies below 100 knots.
pub proof fn lemma_wind_gust_bound(t: Seq<char>)
    ensures
        spec_wind_gust(t) is Some ==> 0 <= spec_wind_gust(t)->0 <= 99,
{
    if spec_wind_gust(t) is Some {
        lemma_dec_val_bound(t, 6, 8);
        assert(pow10(2nat) == 100) by {
            reveal_with_fuel(pow10, 3);
        }
    }
}

/// A decoded visibility lies within the sentinel range 0..9999.
pub proof fn lemma_visibility_bound(t: Seq<char>)
    ensures
        0 <= spec_visibility(t) <= 9999,
{
    if t.len() == 4 && t != "////"@ && !ends_with(t, "SM"@) && t != "CAVOK"@ && all_digits(
        t,
        0,
        4,
    ) {
        lemma_dec_val_bound(t, 0, 4);
        assert(pow10(4nat) == 10000) by {
            reveal_with_fuel(pow10, 5);
        }
    }
}

/// Law: a well-formed plain wind token — three direction digits, two
/// speed digits and the `KT` suffix — decodes to the speed written at
/// positions 3 and 4, with no gust.
pub proof fn lemma_plain_wind_token(t: Seq<char>)
    requires
        t.len() == 7,
        all_digits(t, 0, 5),
        t[5] == 'K',
        t[6] == 'T',
    ensures
        spec_wind_speed(t) == 10 * digit_val(t[3]) + digit_val(t[4]),
        spec_wind_gust(t) is None,
{
    reveal_strlit("KT");
    reveal_strlit("/////KT");
    assert(ends_with(t, "KT"@)) by {
        assert(t.subrange(5, 7) =~= "KT"@);
    }
    assert(t != "/////KT"@) by {
        assert(is_digit(t[0]));
        assert("/////KT"@[0] == '/');
    }
    assert(dec_val(t, 3, 5) == 10 * digit_val(t[3]) + digit_val(t[4])) by {
        reveal_with_fuel(dec_val, 3);
    }
}

/// Law: a visibility token of the wrong length, the all-missing
/// sentinel, a statute-mile value or the ceiling-and-visibility-OK
/// literal decodes to the unlimited sentinel 9999.
pub proof fn lemma_visibility_unlimited(t: Seq<char>)
    requires
        t.len() != 4 || t == "////"@ || ends_with(t, "SM"@) || t == "CAVOK"@,
    ensures
        spec_visibility(t) == 9999,
{
}

/// Decodes the time group of the normalized field tokens.
pub fn parse_time(toks: &FieldTokens) -> (r: Option<ReportTime>)
    ensures
        match r {
            Some(t) => spec_report_time(toks.time@) == Some(t) && t.wf(),
            None => spec_report_time(toks.time@) is None,
        },
{
    let t = toks.time.as_str();
    if t.unicode_len() < 6 {
        return None;
    }
    let d = match parse_digits(t, 0, 2) {
        Some(v) => v,
        None => {
            return None;
        },
    };
    let h = match parse_digits(t, 2, 4) {
        Some(v) => v,
        None => {
            return None;
        },
    };
    let mi = match parse_digits(t, 4, 6) {
        Some(v) => v,
        None => {
            return None;
        },
    };
    if d < 1 || d > 31 || h > 23 || mi > 59 {
        return None;
    }
    Some(ReportTime { day: d as u8, hour: h as u8, minute: mi as u8 })
}

/// Decodes the wind speed of the normalized field tokens, in knots;
/// a missing or malformed wind group decodes to 0.
pub fn parse_wind_speed(toks: &FieldTokens) -> (r: u8)
    ensures
        r as int == spec_wind_speed(toks.wind@),
{
    let w = toks.wind.as_str();
    if str_ends_with(w, "KT") && !str_eq(w, "/////KT") && w.unicode_len() >= 5 {
        match parse_digits(w, 3, 5) {
            Some(v) => {
                proof {
                    lemma_wind_speed_bound(w@);
                }
                v as u8
            },
            None => 0,
        }
    } else {
        0
    }
}

/// Decodes the gust speed of the normalized field tokens, in knots;
/// absent unless a well-formed gust group is present.
pub fn parse_wind_gust_speed(toks: &FieldTokens) -> (r: Option<u8>)
    ensures
        match r {
            Some(v) => spec_wind_gust(toks.wind@) == Some(v as int),
            None => spec_wind_gust(toks.wind@) is None,
        },
{
    let w = toks.wind.as_str();
    let len = w.unicode_len();
    if str_ends_with(w, "KT") && !str_eq(w, "/////KT") && len > 5 && w.get_char(5) == 'G' && len
        >= 8 {
        match parse_digits(w, 6, 8) {
            Some(v) => {
                proof {
                    lemma_wind_gust_bound(w@);
                }
                Some(v as u8)
            },
            None => None,
        }
    } else {
        None
    }
}

/// Decodes the visibility of the normalized field tokens, in meters;
/// anything but a four-digit meter value decodes to the sentinel 9999.
pub fn parse_visibility(toks: &FieldTokens) -> (r: u16)
    ensures
        r as int == spec_visibility(toks.visibility@),
{
    let v = toks.visibility.as_str();
    if v.unicode_len() == 4 && !str_eq(v, "////") && !str_ends_with(v, "SM") && !str_eq(v, "CAVOK") {
        match parse_digits(v, 0, 4) {
            Some(n) => {
                proof {
                    lemma_visibility_bound(v@);
                }
                n as u16
            },
            None => 9999,
        }
    } else {
        9999
    }
}

/// Decodes the overcast ceiling band of a whole raw report, in feet.
pub fn parse_ceiling(raw_metar: &str) -> (r: Option<u16>)
    ensures
        r == spec_ceiling(raw_metar@),
{
    if str_contains(raw_metar, "OVC000") {
        Some(0)
    } else if str_contains(raw_metar, "OVC001") {
        Some(100)
    } else if str_contains(raw_metar, "OVC002") {
        Some(200)
    } else if str_contains(raw_metar, "OVC003") {
        Some(300)
    } else {
        None
    }
}

/// Decodes the vertical-visibility band of a whole raw report, in feet.
pub fn parse_vertical_visibility(raw_metar: &str) -> (r: Option<u16>)
    ensures
        r == spec_vertical_visibility(raw_metar@),
{
    if str_contains(raw_metar, "VV000") {
        Some(0)
    } else if str_contains(raw_metar, "VV001") {
        Some(100)
    } else if str_contains(raw_metar, "VV002") {
        Some(200)
    } else if str_contains(raw_metar, "VV003") {
        Some(300)
    } else {
        None
    }
}

/// One decoded report, with the raw text retained for output.
#[derive(Debug, PartialEq, Eq)]
pub struct AirportWeather {
    pub time: ReportTime,
    pub wind_speed_kt: u8,
    pub wind_gust_speed_kt: Option<u8>,
    pub visibility_m: u16,
    pub overcast_ceiling_ft: Option<u16>,
    pub vertical_visibility_ft: Option<u16>,
    pub raw_metar: String,
}

/// The mathematical value of a decoded report.
pub struct AirportWeatherView {
    pub time: ReportTime,
    pub wind_speed_kt: u8,
    pub wind_gust_speed_kt: Option<u8>,
    pub visibility_m: u16,
    pub overcast_ceiling_ft: Option<u16>,
    pub vertical_visibility_ft: Option<u16>,
    pub raw_metar: Seq<char>,
}

impl View for AirportWeather {
    type V = AirportWeatherView;

    open spec fn view(&self) -> AirportWeatherView {
        AirportWeatherView {
            time: self.time,
            wind_speed_kt: self.wind_speed_kt,
            wind_gust_speed_kt: self.wind_gust_speed_kt,
            visibility_m: self.visibility_m,
            overcast_ceiling_ft: self.overcast_ceiling_ft,
            vertical_visibility_ft: self.vertical_visibility_ft,
            raw_metar: self.raw_metar@,
        }
    }
}

/// The decoded report of one raw report text: its tokens normalized
/// and every field decoded, with `fallback` standing in for an
/// undecodable time group; nothing for a report with too few tokens.
pub open spec fn spec_parse_metar(raw: Seq<char>, fallback: ReportTime) -> Option<
    AirportWeatherView,
> {
    match spec_normalize(spec_tokens(raw)) {
        None => None,
        Some((time_tok, wind_tok, vis_tok)) => Some(
            AirportWeatherView {
                time: match spec_report_time(time_tok) {
                    Some(t) => t,
                    None => fallback,
                },
                wind_speed_kt: spec_wind_speed(wind_tok) as u8,
                wind_gust_speed_kt: match spec_wind_gust(wind_tok) {
                    Some(g) => Some(g as u8),
                    None => None,
                },
                visibility_m: spec_visibility(vis_tok) as u16,
                overcast_ceiling_ft: spec_ceiling(raw),
                vertical_visibility_ft: spec_vertical_visibility(raw),
                raw_metar: raw,
            },
        ),
    }
}

/// Decodes one raw report: tokenizes it, normalizes the tokens and
/// decodes every field, falling back to `fallback` for an undecodable
/// time group; returns nothing for a report with too few tokens.
pub fn parse_metar(raw_metar: String, fallback: ReportTime) -> (r: Option<AirportWeather>)
    requires
        fallback.wf(),
    ensures
        match r {
            Some(w) => spec_parse_metar(raw_metar@, fallback) == Some(w@) && w.time.wf(),
            None => spec_parse_metar(raw_metar@, fallback) is None,
        },
{
    let tokens = tokenize(raw_metar.as_str());
    let ft = match normalize(tokens) {
        Some(f) => f,
        None => {
            return None;
        },
    };
    let time = match parse_time(&ft) {
        Some(t) => t,
        None => fallback,
    };
    let wind_speed_kt = parse_wind_speed(&ft);
    let wind_gust_speed_kt = parse_wind_gust_speed(&ft);
    let visibility_m = parse_visibility(&ft);
    let overcast_ceiling_ft = parse_ceiling(raw_metar.as_str());
    let vertical_visibility_ft = parse_vertical_visibility(raw_metar.as_str());
    proof {
        lemma_wind_speed_bound(ft.wind@);
        lemma_wind_gust_bound(ft.wind@);
        lemma_visibility_bound(ft.visibility@);
    }
    Some(
        AirportWeather {
            time,
            wind_speed_kt,
            wind_gust_speed_kt,
            visibility_m,
            overcast_ceiling_ft,
            vertical_visibility_ft,
            raw_metar,
        },
    )
}

/// Law: decoding is a pure function of the raw text and the fallback
/// time — two decoded reports of the same raw report are identical.
pub proof fn lemma_parse_metar_deterministic(
    r1: AirportWeather,
    r2: AirportWeather,
    raw: Seq<char>,
    fallback: ReportTime,
)
    requires
        spec_parse_metar(raw, fallback) == Some(r1@),
        spec_parse_metar(raw, fallback) == Some(r2@),
    ensures
        r1@ == r2@,
{
}

} // verus!

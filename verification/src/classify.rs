//! Hazard classification: threshold rules over a decoded report and
//! its staleness verdict.

use vstd::prelude::*;
use crate::decode::{AirportWeather, AirportWeatherView};
use crate::time::{is_stale, spec_is_stale, UtcInstant};

verus! {

/// Strong wind: speed above 30 knots, or a gust above 45 knots.
pub open spec fn spec_strong_wind(w: AirportWeatherView) -> bool {
    w.wind_speed_kt > 30 || (w.wind_gust_speed_kt is Some && w.wind_gust_speed_kt->0 > 45)
}

/// Low visibility: below 500 meters.
pub open spec fn spec_low_visibility(w: AirportWeatherView) -> bool {
    w.visibility_m < 500
}

/// Low ceiling: an overcast ceiling or a vertical visibility at or
/// below 200 feet.
pub open spec fn spec_low_ceiling(w: AirportWeatherView) -> bool {
    ||| (w.overcast_ceiling_ft is Some && w.overcast_ceiling_ft->0 <= 200)
    ||| (w.vertical_visibility_ft is Some && w.vertical_visibility_ft->0 <= 200)
}

/// The hazard rules, in order of priority: a stale report is never
/// hazardous; strong wind or low visibility is; a low ceiling is only
/// together with visibility below 8000 meters or a ceiling of 0 feet.
pub open spec fn spec_hazardous(w: AirportWeatherView, stale: bool) -> bool {
    if stale {
        false
    } else if spec_strong_wind(w) || spec_low_visibility(w) {
        true
    } else if spec_low_ceiling(w) {
        w.visibility_m < 8000 || w.overcast_ceiling_ft == Some(0u16)
    } else {
        false
    }
}

/// Decides the strong-wind rule for a decoded report.
pub fn strong_wind(airport_weather: &AirportWeather) -> (r: bool)
    ensures
        r == spec_strong_wind(airport_weather@),
{
    airport_weather.wind_speed_kt > 30 || (match airport_weather.wind_gust_speed_kt {
        Some(x) => x > 45,
        None => false,
    })
}

/// Decides the low-visibility rule for a decoded report.
pub fn low_visibility(airport_weather: &AirportWeather) -> (r: bool)
    ensures
        r == spec_low_visibility(airport_weather@),
{
    airport_weather.visibility_m < 500
}

/// Decides the low-ceiling rule for a decoded report.
pub fn low_ceiling(airport_weather: &AirportWeather) -> (r: bool)
    ensures
        r == spec_low_ceiling(airport_weather@),
{
    (match airport_weather.overcast_ceiling_ft {
        Some(x) => x <= 200,
        None => false,
    }) || (match airport_weather.vertical_visibility_ft {
        Some(x) => x <= 200,
        None => false,
    })
}

/// Decides whether a decoded report counts as bad weather against the
/// reference instant: never when stale, otherwise by the hazard rules
/// in their order of priority.
pub fn bad_weather(airport_weather: &AirportWeather, now: &UtcInstant) -> (r: bool)
    requires
        now.wf(),
    ensures
        r == spec_hazardous(airport_weather@, spec_is_stale(airport_weather.time, *now)),
{
    if is_stale(&airport_weather.time, now) {
        return false;
    }
    if strong_wind(airport_weather) || low_visibility(airport_weather) {
        return true;
    }
    if low_ceiling(airport_weather) {
        return airport_weather.visibility_m < 8000 || (match airport_weather.overcast_ceiling_ft {
            Some(x) => x == 0,
            None => false,
        });
    }
    false
}

} // verus!

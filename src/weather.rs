use vstd::prelude::*;

use crate::kind::WeatherTypes;
use crate::route::{path_tail, path_tail_of, starts_with_text};
use crate::text::same_text;

verus! {

/// A chance of rain, in percent, above which an hour is reported.
pub const RAIN_CHANCE_THRESHOLD: u8 = 30;

/// How long an hour that has begun stays in the rain report.
pub const HOUR_SECONDS: u64 = 3600;

/// When tomorrow begins within this many seconds, the forecast is tomorrow's.
pub const FORECAST_SWITCH_SECONDS: u64 = 28_800;

/// An hour of a forecast as the rain report reads it: its start, the flag
/// that rain is expected (1 for yes) and the chance of rain in percent.
#[derive(Clone, Copy, Debug, PartialEq, Eq, Structural)]
pub struct HourMark {
    pub time_epoch: u64,
    pub will_it_rain: u8,
    pub chance_of_rain: u8,
}

/// Rain is expected in the hour, or likely enough.
pub open spec fn spec_rain_likely(h: HourMark) -> bool {
    h.will_it_rain == 1 || h.chance_of_rain > RAIN_CHANCE_THRESHOLD
}

/// The hour starts after `now`, or began less than an hour before it.
pub open spec fn spec_not_past(h: HourMark, now: u64) -> bool {
    h.time_epoch > now || now - h.time_epoch < HOUR_SECONDS
}

/// The positions of the hours to report, in order: of today's hours those
/// not past and likely to rain (`upcoming`), of tomorrow's those likely to rain.
pub open spec fn reported(hs: Seq<HourMark>, now: u64, upcoming: bool) -> Seq<usize>
    decreases hs.len(),
{
    if hs.len() == 0 {
        Seq::empty()
    } else {
        let rest = reported(hs.drop_last(), now, upcoming);
        let h = hs.last();
        if spec_rain_likely(h) && (!upcoming || spec_not_past(h, now)) {
            rest.push((hs.len() - 1) as usize)
        } else {
            rest
        }
    }
}

/// Whether rain is expected in the hour or its chance is above the threshold.
pub fn rain_likely(h: &HourMark) -> (r: bool)
    ensures
        r == spec_rain_likely(*h),
{
    h.will_it_rain == 1 || h.chance_of_rain > RAIN_CHANCE_THRESHOLD
}

/// Whether the hour is still ahead of `now` or began less than an hour before it.
pub fn not_past(h: &HourMark, now: u64) -> (r: bool)
    ensures
        r == spec_not_past(*h, now),
{
    h.time_epoch > now || now - h.time_epoch < HOUR_SECONDS
}

/// The positions of the hours to report among `hs`; with `upcoming`, only
/// hours that are not past at `now`.
pub fn rain_hours(hs: &Vec<HourMark>, now: u64, upcoming: bool) -> (r: Vec<usize>)
    ensures
        r@ == reported(hs@, now, upcoming),
{
    let mut r: Vec<usize> = Vec::new();
    let mut i: usize = 0;
    while i < hs.len()
        invariant
            i <= hs@.len(),
            r@ == reported(hs@.subrange(0, i as int), now, upcoming),
        decreases hs@.len() - i,
    {
        proof {
            let sub = hs@.subrange(0, i + 1);
            assert(sub.drop_last() =~= hs@.subrange(0, i as int));
            assert(sub.last() == hs@[i as int]);
        }
        if rain_likely(&hs[i]) && (!upcoming || not_past(&hs[i], now)) {
            r.push(i);
        }
        i = i + 1;
    }
    assert(hs@.subrange(0, hs@.len() as int) =~= hs@);
    r
}

/// Whether the forecast to give is tomorrow's: tomorrow has begun by the
/// last update, or begins within `FORECAST_SWITCH_SECONDS` of it.
pub fn use_tomorrow(current_epoch: u64, tomorrow_epoch: u64) -> (r: bool)
    ensures
        r == (tomorrow_epoch < current_epoch || tomorrow_epoch - current_epoch
            < FORECAST_SWITCH_SECONDS),
{
    tomorrow_epoch < current_epoch || (tomorrow_epoch - current_epoch) < FORECAST_SWITCH_SECONDS
}

/// The name of a place with its country: `name (country)`.
pub fn location_label(name: &str, country: &str) -> (r: String)
    ensures
        r@ == name@ + " ("@ + country@ + ")"@,
{
    let mut r = String::from_str(name);
    r.append(" (");
    r.append(country);
    r.append(")");
    r
}

/// What the weather service does with a request.
#[derive(Debug)]
pub enum WeatherRoute {
    /// Not a GET request.
    MethodNotAllowed,
    Healthz,
    /// The path is not below `/v1`.
    InvalidPath,
    /// A report for the configured location.
    DefaultLocation(WeatherTypes),
    /// A report for the location named in the path.
    Location(WeatherTypes, String),
    /// The path goes on after the report's name but names no location.
    MissingLocation,
    NotFound,
}

/// The route of a report's request below its collection `base`.
pub open spec fn report_routed(r: WeatherRoute, kind: WeatherTypes, p: Seq<char>, base: Seq<char>) -> bool {
    if p == base {
        r == WeatherRoute::DefaultLocation(kind)
    } else if path_tail(p).len() == 0 {
        r is MissingLocation
    } else {
        r matches WeatherRoute::Location(k, l) && k == kind && l@ == path_tail(p)[0]
    }
}

/// The route of a request to the weather service, by its method and its path.
pub open spec fn weather_routed(r: WeatherRoute, is_get: bool, p: Seq<char>) -> bool {
    if !is_get {
        r is MethodNotAllowed
    } else if p == "/healthz"@ {
        r is Healthz
    } else if !"/v1"@.is_prefix_of(p) {
        r is InvalidPath
    } else if "/v1/current"@.is_prefix_of(p) {
        report_routed(r, WeatherTypes::Current, p, "/v1/current"@)
    } else if "/v1/forecast"@.is_prefix_of(p) {
        report_routed(r, WeatherTypes::Forecast, p, "/v1/forecast"@)
    } else if "/v1/hourrainforecast"@.is_prefix_of(p) {
        report_routed(r, WeatherTypes::Rain, p, "/v1/hourrainforecast"@)
    } else {
        r is NotFound
    }
}

fn report_route(kind: WeatherTypes, path: &str, base: &str) -> (r: WeatherRoute)
    ensures
        report_routed(r, kind, path@, base@),
{
    if same_text(path, base) {
        return WeatherRoute::DefaultLocation(kind);
    }
    let tail = path_tail_of(path);
    if tail.len() == 0 {
        return WeatherRoute::MissingLocation;
    }
    proof {
        assert(tail@.map_values(|x: String| x@)[0] == tail@[0]@);
    }
    WeatherRoute::Location(kind, tail[0].clone())
}

/// Decides what the weather service does with a request: only GET is
/// served; the health check; the current weather, the forecast and the rain
/// report below `/v1`, for the configured location or for the one named
/// after the report's name.
pub fn weather_route(is_get: bool, path: &str) -> (r: WeatherRoute)
    ensures
        weather_routed(r, is_get, path@),
{
    if !is_get {
        return WeatherRoute::MethodNotAllowed;
    }
    if same_text(path, "/healthz") {
        return WeatherRoute::Healthz;
    }
    if !starts_with_text(path, "/v1") {
        return WeatherRoute::InvalidPath;
    }
    if starts_with_text(path, "/v1/current") {
        report_route(WeatherTypes::Current, path, "/v1/current")
    } else if starts_with_text(path, "/v1/forecast") {
        report_route(WeatherTypes::Forecast, path, "/v1/forecast")
    } else if starts_with_text(path, "/v1/hourrainforecast") {
        report_route(WeatherTypes::Rain, path, "/v1/hourrainforecast")
    } else {
        WeatherRoute::NotFound
    }
}

} // verus!

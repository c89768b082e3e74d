//! Entry points: each reads one whole text and returns the decoded value or
//! the failure at the furthest point reached.
use vstd::prelude::*;

use crate::failure::{Expected, ParseError};
use crate::fields;
use crate::fields::{
    cloud_cover_at, color_at, icao_identifier_at, observation_time_at, pressure_at, runway_report_at,
    runway_visibility_at, temperatures_at, visibility_at, water_conditions_at, weather_at, wind_at,
};
use crate::report;
use crate::report::metar_prefix_at;
use crate::text;
use crate::text::whitespace_at;
use crate::tokens::{
    CloudCover, Color, DateTime, MetarReport, RunwayReport, RunwayVisibility, Span, Temperatures,
    Visibility, WaterConditions, Weather, WeatherModel, Wind,
};
use crate::units::Pressure;
use vstd::string::StringSliceAdditionalSpecFns;

verus! {

/// What an optional weather group holds.
pub open spec fn weather_model(w: Option<Weather>) -> Option<WeatherModel> {
    match w {
        Some(w) => Some(w@),
        None => None,
    }
}

/// A whole report. On success the record is exactly what the report
/// grammar yields for the text; otherwise the error gives the furthest
/// offset reached and what was expected there.
pub fn metar(input: &str) -> (r: Result<MetarReport, ParseError>)
    ensures
        match r {
            Ok(m) => report::metar(input.spec_bytes()) == Some(m@),
            Err(e) => report::metar(input.spec_bytes()) is None && e.wf(
                input.spec_bytes().len() as int,
            ) && (report::metar_prefix(input.spec_bytes()) matches Some((_, end)) ==> (e.offset
                >= end && (e.offset == end ==> e.expected@.contains(Expected::EndOfInput)))) && (
            report::header(input.spec_bytes()) is None ==> e.state() == report::header_failure(
                input.spec_bytes(),
                (0int, Set::<Expected>::empty()),
            )),
        },
{
    let s = input.as_bytes();
    let mut err = ParseError::start();
    match metar_prefix_at(s, &mut err) {
        Some((m, e)) => if e == s.len() {
            Ok(m)
        } else {
            err.note(e, Expected::EndOfInput);
            Err(err)
        },
        None => Err(err),
    }
}

/// Whitespace between fields, garbage it tolerates included. The whole
/// text must be whitespace.
pub fn whitespace(input: &str) -> (r: Result<(), ParseError>)
    ensures
        r is Ok <== text::whitespace(input.spec_bytes(), 0) == input.spec_bytes().len(),
        r is Ok ==> text::whitespace(input.spec_bytes(), 0) == input.spec_bytes().len(),
        r matches Err(e) ==> e.wf(input.spec_bytes().len() as int) && e.offset >= text::whitespace(
            input.spec_bytes(),
            0,
        ) && (e.offset == text::whitespace(input.spec_bytes(), 0) ==> e.expected@.contains(
            Expected::EndOfInput,
        )),
{
    let s = input.as_bytes();
    let mut err = ParseError::start();
    let e = whitespace_at(s, 0, &mut err);
    if e == s.len() {
        Ok(())
    } else {
        err.note(e, Expected::EndOfInput);
        Err(err)
    }
}

/// A station identifier, as a span of the text. The whole text must be the group.
pub fn icao_identifier(input: &str) -> (r: Result<Span, ParseError>)
    ensures
        match r {
            Ok(v) => fields::icao_identifier(input.spec_bytes(), 0) == Some((v, input.spec_bytes().len() as int)),
            Err(e) => !(exists|v: Span| fields::icao_identifier(input.spec_bytes(), 0) == Some((v, input.spec_bytes().len() as int))) && e.wf(input.spec_bytes().len() as int) && (fields::icao_identifier(input.spec_bytes(), 0) matches Some((_, end)) ==> (e.offset
                >= end && (e.offset == end ==> e.expected@.contains(Expected::EndOfInput)))),
        },
{
    let s = input.as_bytes();
    let mut err = ParseError::start();
    match icao_identifier_at(s, 0, &mut err) {
        Some((v, e)) => if e == s.len() {
            Ok(v)
        } else {
            err.note(e, Expected::EndOfInput);
            Err(err)
        },
        None => Err(err),
    }
}

/// An observation time such as `251453Z`. The whole text must be the group.
pub fn observation_time(input: &str) -> (r: Result<DateTime, ParseError>)
    ensures
        match r {
            Ok(v) => fields::observation_time(input.spec_bytes(), 0) == Some((v, input.spec_bytes().len() as int)),
            Err(e) => !(exists|v: DateTime| fields::observation_time(input.spec_bytes(), 0) == Some((v, input.spec_bytes().len() as int))) && e.wf(input.spec_bytes().len() as int) && (fields::observation_time(input.spec_bytes(), 0) matches Some((_, end)) ==> (e.offset
                >= end && (e.offset == end ==> e.expected@.contains(Expected::EndOfInput)))),
        },
{
    let s = input.as_bytes();
    let mut err = ParseError::start();
    match observation_time_at(s, 0, &mut err) {
        Some((v, e)) => if e == s.len() {
            Ok(v)
        } else {
            err.note(e, Expected::EndOfInput);
            Err(err)
        },
        None => Err(err),
    }
}

/// A wind group such as `09015G25KT`; `None` when written as not reported. The whole text must be the group.
pub fn wind(input: &str) -> (r: Result<Option<Wind>, ParseError>)
    ensures
        match r {
            Ok(v) => fields::wind(input.spec_bytes(), 0) == Some((v, input.spec_bytes().len() as int)),
            Err(e) => !(exists|v: Option<Wind>| fields::wind(input.spec_bytes(), 0) == Some((v, input.spec_bytes().len() as int))) && e.wf(input.spec_bytes().len() as int) && (fields::wind(input.spec_bytes(), 0) matches Some((_, end)) ==> (e.offset
                >= end && (e.offset == end ==> e.expected@.contains(Expected::EndOfInput)))),
        },
{
    let s = input.as_bytes();
    let mut err = ParseError::start();
    match wind_at(s, 0, &mut err) {
        Some((v, e)) => if e == s.len() {
            Ok(v)
        } else {
            err.note(e, Expected::EndOfInput);
            Err(err)
        },
        None => Err(err),
    }
}

/// A visibility group such as `1/2SM`; `None` when not determined. The whole text must be the group.
pub fn visibility(input: &str) -> (r: Result<Option<Visibility>, ParseError>)
    ensures
        match r {
            Ok(v) => fields::visibility(input.spec_bytes(), 0) == Some((v, input.spec_bytes().len() as int)),
            Err(e) => !(exists|v: Option<Visibility>| fields::visibility(input.spec_bytes(), 0) == Some((v, input.spec_bytes().len() as int))) && e.wf(input.spec_bytes().len() as int) && (fields::visibility(input.spec_bytes(), 0) matches Some((_, end)) ==> (e.offset
                >= end && (e.offset == end ==> e.expected@.contains(Expected::EndOfInput)))),
        },
{
    let s = input.as_bytes();
    let mut err = ParseError::start();
    match visibility_at(s, 0, &mut err) {
        Some((v, e)) => if e == s.len() {
            Ok(v)
        } else {
            err.note(e, Expected::EndOfInput);
            Err(err)
        },
        None => Err(err),
    }
}

/// A runway visual range such as `R01L/3500VP6000FT`; `None` when written with slashes. The whole text must be the group.
pub fn runway_visibility(input: &str) -> (r: Result<Option<RunwayVisibility>, ParseError>)
    ensures
        match r {
            Ok(v) => fields::runway_visibility(input.spec_bytes(), 0) == Some((v, input.spec_bytes().len() as int)),
            Err(e) => !(exists|v: Option<RunwayVisibility>| fields::runway_visibility(input.spec_bytes(), 0) == Some((v, input.spec_bytes().len() as int))) && e.wf(input.spec_bytes().len() as int) && (fields::runway_visibility(input.spec_bytes(), 0) matches Some((_, end)) ==> (e.offset
                >= end && (e.offset == end ==> e.expected@.contains(Expected::EndOfInput)))),
        },
{
    let s = input.as_bytes();
    let mut err = ParseError::start();
    match runway_visibility_at(s, 0, &mut err) {
        Some((v, e)) => if e == s.len() {
            Ok(v)
        } else {
            err.note(e, Expected::EndOfInput);
            Err(err)
        },
        None => Err(err),
    }
}

/// A runway state report such as `R24/CLRD70`. The whole text must be the group.
pub fn runway_report(input: &str) -> (r: Result<RunwayReport, ParseError>)
    ensures
        match r {
            Ok(v) => fields::runway_report(input.spec_bytes(), 0) == Some((v, input.spec_bytes().len() as int)),
            Err(e) => !(exists|v: RunwayReport| fields::runway_report(input.spec_bytes(), 0) == Some((v, input.spec_bytes().len() as int))) && e.wf(input.spec_bytes().len() as int) && (fields::runway_report(input.spec_bytes(), 0) matches Some((_, end)) ==> (e.offset
                >= end && (e.offset == end ==> e.expected@.contains(Expected::EndOfInput)))),
        },
{
    let s = input.as_bytes();
    let mut err = ParseError::start();
    match runway_report_at(s, 0, &mut err) {
        Some((v, e)) => if e == s.len() {
            Ok(v)
        } else {
            err.note(e, Expected::EndOfInput);
            Err(err)
        },
        None => Err(err),
    }
}

/// A weather group such as `-RA`; `None` for `//`. The whole text must be the group.
pub fn weather(input: &str) -> (r: Result<Option<Weather>, ParseError>)
    ensures
        match r {
            Ok(v) => fields::weather(input.spec_bytes(), 0) == Some((weather_model(v), input.spec_bytes().len() as int)),
            Err(e) => !(exists|v: Option<WeatherModel>| fields::weather(input.spec_bytes(), 0) == Some((v, input.spec_bytes().len() as int))) && e.wf(input.spec_bytes().len() as int) && (fields::weather(input.spec_bytes(), 0) matches Some((_, end)) ==> (e.offset
                >= end && (e.offset == end ==> e.expected@.contains(Expected::EndOfInput)))),
        },
{
    let s = input.as_bytes();
    let mut err = ParseError::start();
    match weather_at(s, 0, &mut err) {
        Some((v, e)) => if e == s.len() {
            Ok(v)
        } else {
            err.note(e, Expected::EndOfInput);
            Err(err)
        },
        None => Err(err),
    }
}

/// A cloud layer such as `FEW025`. The whole text must be the group.
pub fn cloud_cover(input: &str) -> (r: Result<CloudCover, ParseError>)
    ensures
        match r {
            Ok(v) => fields::cloud_cover(input.spec_bytes(), 0) == Some((v, input.spec_bytes().len() as int)),
            Err(e) => !(exists|v: CloudCover| fields::cloud_cover(input.spec_bytes(), 0) == Some((v, input.spec_bytes().len() as int))) && e.wf(input.spec_bytes().len() as int) && (fields::cloud_cover(input.spec_bytes(), 0) matches Some((_, end)) ==> (e.offset
                >= end && (e.offset == end ==> e.expected@.contains(Expected::EndOfInput)))),
        },
{
    let s = input.as_bytes();
    let mut err = ParseError::start();
    match cloud_cover_at(s, 0, &mut err) {
        Some((v, e)) => if e == s.len() {
            Ok(v)
        } else {
            err.note(e, Expected::EndOfInput);
            Err(err)
        },
        None => Err(err),
    }
}

/// Temperatures such as `24/M01`; `None` for `XX/XX`. The whole text must be the group.
pub fn temperatures(input: &str) -> (r: Result<Option<Temperatures>, ParseError>)
    ensures
        match r {
            Ok(v) => fields::temperatures(input.spec_bytes(), 0) == Some((v, input.spec_bytes().len() as int)),
            Err(e) => !(exists|v: Option<Temperatures>| fields::temperatures(input.spec_bytes(), 0) == Some((v, input.spec_bytes().len() as int))) && e.wf(input.spec_bytes().len() as int) && (fields::temperatures(input.spec_bytes(), 0) matches Some((_, end)) ==> (e.offset
                >= end && (e.offset == end ==> e.expected@.contains(Expected::EndOfInput)))),
        },
{
    let s = input.as_bytes();
    let mut err = ParseError::start();
    match temperatures_at(s, 0, &mut err) {
        Some((v, e)) => if e == s.len() {
            Ok(v)
        } else {
            err.note(e, Expected::EndOfInput);
            Err(err)
        },
        None => Err(err),
    }
}

/// A pressure group such as `A3002`; `None` when written as not reported. The whole text must be the group.
pub fn pressure(input: &str) -> (r: Result<Option<Pressure>, ParseError>)
    ensures
        match r {
            Ok(v) => fields::pressure(input.spec_bytes(), 0) == Some((v, input.spec_bytes().len() as int)),
            Err(e) => !(exists|v: Option<Pressure>| fields::pressure(input.spec_bytes(), 0) == Some((v, input.spec_bytes().len() as int))) && e.wf(input.spec_bytes().len() as int) && (fields::pressure(input.spec_bytes(), 0) matches Some((_, end)) ==> (e.offset
                >= end && (e.offset == end ==> e.expected@.contains(Expected::EndOfInput)))),
        },
{
    let s = input.as_bytes();
    let mut err = ParseError::start();
    match pressure_at(s, 0, &mut err) {
        Some((v, e)) => if e == s.len() {
            Ok(v)
        } else {
            err.note(e, Expected::EndOfInput);
            Err(err)
        },
        None => Err(err),
    }
}

/// Sea conditions such as `W13/S3`. The whole text must be the group.
pub fn water_conditions(input: &str) -> (r: Result<WaterConditions, ParseError>)
    ensures
        match r {
            Ok(v) => fields::water_conditions(input.spec_bytes(), 0) == Some((v, input.spec_bytes().len() as int)),
            Err(e) => !(exists|v: WaterConditions| fields::water_conditions(input.spec_bytes(), 0) == Some((v, input.spec_bytes().len() as int))) && e.wf(input.spec_bytes().len() as int) && (fields::water_conditions(input.spec_bytes(), 0) matches Some((_, end)) ==> (e.offset
                >= end && (e.offset == end ==> e.expected@.contains(Expected::EndOfInput)))),
        },
{
    let s = input.as_bytes();
    let mut err = ParseError::start();
    match water_conditions_at(s, 0, &mut err) {
        Some((v, e)) => if e == s.len() {
            Ok(v)
        } else {
            err.note(e, Expected::EndOfInput);
            Err(err)
        },
        None => Err(err),
    }
}

/// A colour state such as `BLACKWHT`. The whole text must be the group.
pub fn color(input: &str) -> (r: Result<Color, ParseError>)
    ensures
        match r {
            Ok(v) => fields::color(input.spec_bytes(), 0) == Some((v, input.spec_bytes().len() as int)),
            Err(e) => !(exists|v: Color| fields::color(input.spec_bytes(), 0) == Some((v, input.spec_bytes().len() as int))) && e.wf(input.spec_bytes().len() as int) && (fields::color(input.spec_bytes(), 0) matches Some((_, end)) ==> (e.offset
                >= end && (e.offset == end ==> e.expected@.contains(Expected::EndOfInput)))),
        },
{
    let s = input.as_bytes();
    let mut err = ParseError::start();
    match color_at(s, 0, &mut err) {
        Some((v, e)) => if e == s.len() {
            Ok(v)
        } else {
            err.note(e, Expected::EndOfInput);
            Err(err)
        },
        None => Err(err),
    }
}
} // verus!

//! The grammar of each report field.
//!
//! Every rule is stated twice: as a spec function from the report bytes and
//! a start position to the decoded value and the end of the match, and as an
//! executable function that is proved to agree with it. Alternatives are
//! tried in order and the first that matches wins. The executable side also
//! notes, in a [`ParseError`], what it expected wherever it failed.
use vstd::prelude::*;

use crate::failure::{noted, Expected, ParseError};
use crate::text::{
    byte_at, byte_is, digit, digit_at, digit_failure, digit_run_end, fixed_digits, fixed_digits_at,
    fixed_digits_failure, letter, letter_failure,
    letter_at, lift_end, lift_pos, lit, lit_at, number, number_at, pow10, run_end, run_end_at,
    whitespace, whitespace_at, whitespace_or_end, whitespace_or_end_at,
};
use crate::tokens::{
    AccumulatedRainfall, CloudCover, CloudCoverage, CloudType, Color, ColorState,
    CompassDirection, Condition, ConditionModel, DateTime, Descriptor, DirectionalOrRawVisiblity,
    DirectionalVisibility, Intensity, MilitaryTime, Obscuration, ObservationFlag, Other,
    OutOfRange, Precipitation, RawVisibility, RunwayReport, RunwayReportInfo, RunwayVisibility,
    Span, Temperatures, TimeRange, Visibility, VisibilityTrend, VisibilityType, WaterConditions,
    WaterSurfaceState, Weather, WeatherModel, Wind,
};
use crate::units::{
    Angle, Length, LengthUnit, Pressure, PressureUnit, ThermodynamicTemperature, Velocity,
    VelocityUnit,
};
use crate::vocabulary::{lex_at, lex_table, Vocabulary};

verus! {

/// The first spelling of a vocabulary at `p`.
pub open spec fn vocab<E: Vocabulary>(s: Seq<u8>, p: int) -> Option<(E, int)> {
    lex_table(E::spellings(), s, p)
}

/// Reads the first spelling of a vocabulary at `p`, noting `label` when
/// there is none.
pub fn vocab_at<E: Vocabulary>(s: &[u8], p: usize, label: Expected, err: &mut ParseError) -> (r:
    Option<(E, usize)>)
    requires
        p <= s@.len(),
        old(err).wf(s@.len() as int),
    ensures
        lift_pos(r) == vocab::<E>(s@, p as int),
        r matches Some((_, e)) ==> p <= e <= s@.len(),
        final(err).wf(s@.len() as int),
{
    let r = lex_at::<E>(s, p);
    if r.is_none() {
        err.note(p, label);
    }
    r
}

/// `METAR` or `SPECI`.
pub open spec fn report_name(s: Seq<u8>, p: int) -> Option<int> {
    if let Some(e) = lit(s, p, "METAR"@) {
        Some(e)
    } else if let Some(e) = lit(s, p, "SPECI"@) {
        Some(e)
    } else {
        None
    }
}

pub fn report_name_at(s: &[u8], p: usize, err: &mut ParseError) -> (r: Option<usize>)
    requires
        p <= s@.len(),
        old(err).wf(s@.len() as int),
    ensures
        lift_end(r) == report_name(s@, p as int),
        r matches Some(e) ==> p <= e <= s@.len(),
        final(err).wf(s@.len() as int),
        final(err).state() == report_name_failure(s@, p as int, old(err).state()),
{
    if let Some(e) = lit_at(s, p, "METAR") {
        Some(e)
    } else if let Some(e) = lit_at(s, p, "SPECI") {
        Some(e)
    } else {
        err.note(p, Expected::ReportName);
        None
    }
}

/// A capital letter or a digit.
pub open spec fn letter_or_digit(s: Seq<u8>, p: int) -> Option<int> {
    if letter(s, p) is Some {
        letter(s, p)
    } else {
        digit(s, p)
    }
}

fn letter_or_digit_at(s: &[u8], p: usize, err: &mut ParseError) -> (r: Option<usize>)
    requires
        p <= s@.len(),
        old(err).wf(s@.len() as int),
    ensures
        lift_end(r) == letter_or_digit(s@, p as int),
        r matches Some(e) ==> e == p + 1 && e <= s@.len(),
        final(err).wf(s@.len() as int),
        final(err).state() == letter_or_digit_failure(s@, p as int, old(err).state()),
{
    if let Some(e) = letter_at(s, p, err) {
        Some(e)
    } else {
        digit_at(s, p, err)
    }
}

/// A station identifier: a letter, then three letters or digits.
pub open spec fn icao_identifier(s: Seq<u8>, p: int) -> Option<(Span, int)> {
    if letter(s, p) is Some && letter_or_digit(s, p + 1) is Some && letter_or_digit(s, p + 2) is Some
        && letter_or_digit(s, p + 3) is Some {
        Some((Span { start: p as usize, end: (p + 4) as usize }, p + 4))
    } else {
        None
    }
}

pub fn icao_identifier_at(s: &[u8], p: usize, err: &mut ParseError) -> (r: Option<(Span, usize)>)
    requires
        p <= s@.len(),
        old(err).wf(s@.len() as int),
    ensures
        lift_pos(r) == icao_identifier(s@, p as int),
        r matches Some((_, e)) ==> p <= e <= s@.len(),
        final(err).wf(s@.len() as int),
        final(err).state() == icao_identifier_failure(s@, p as int, old(err).state()),
{
    let a = letter_at(s, p, err);
    if a.is_none() {
        return None;
    }
    let b = letter_or_digit_at(s, p + 1, err);
    if b.is_none() {
        return None;
    }
    let c = letter_or_digit_at(s, p + 2, err);
    if c.is_none() {
        return None;
    }
    let d = letter_or_digit_at(s, p + 3, err);
    if d.is_none() {
        return None;
    }
    Some((Span { start: p, end: p + 4 }, p + 4))
}

/// The failure state after looking for a report name at `p`.
pub open spec fn report_name_failure(s: Seq<u8>, p: int, f: (int, Set<Expected>)) -> (
    int,
    Set<Expected>,
) {
    if report_name(s, p) is Some {
        f
    } else {
        noted(f, p, Expected::ReportName)
    }
}

/// The failure state after looking for a letter or a digit at `p`.
pub open spec fn letter_or_digit_failure(s: Seq<u8>, p: int, f: (int, Set<Expected>)) -> (
    int,
    Set<Expected>,
) {
    if letter(s, p) is Some {
        f
    } else {
        digit_failure(s, p, letter_failure(s, p, f))
    }
}

/// The failure state after reading a station identifier at `p`: each
/// character is tried in turn until one is missing.
pub open spec fn icao_identifier_failure(s: Seq<u8>, p: int, f: (int, Set<Expected>)) -> (
    int,
    Set<Expected>,
) {
    let f1 = letter_failure(s, p, f);
    if letter(s, p) is None {
        f1
    } else {
        let f2 = letter_or_digit_failure(s, p + 1, f1);
        if letter_or_digit(s, p + 1) is None {
            f2
        } else {
            let f3 = letter_or_digit_failure(s, p + 2, f2);
            if letter_or_digit(s, p + 2) is None {
                f3
            } else {
                letter_or_digit_failure(s, p + 3, f3)
            }
        }
    }
}

/// The failure state after reading hours and minutes at `p`.
pub open spec fn military_time_failure(s: Seq<u8>, p: int, f: (int, Set<Expected>)) -> (
    int,
    Set<Expected>,
) {
    let f1 = fixed_digits_failure(s, p, 2, f);
    match fixed_digits(s, p, 2) {
        Some((_, q)) => fixed_digits_failure(s, q, 2, f1),
        None => f1,
    }
}

/// The failure state after reading an observation time at `p`.
pub open spec fn observation_time_failure(s: Seq<u8>, p: int, f: (int, Set<Expected>)) -> (
    int,
    Set<Expected>,
) {
    let f1 = fixed_digits_failure(s, p, 2, f);
    match fixed_digits(s, p, 2) {
        Some((_, q)) => military_time_failure(s, q, f1),
        None => f1,
    }
}

/// Hours and minutes as four digits.
pub open spec fn military_time(s: Seq<u8>, p: int) -> Option<(MilitaryTime, int)> {
    if let Some((h, q)) = fixed_digits(s, p, 2) {
        if let Some((m, e)) = fixed_digits(s, q, 2) {
            Some((MilitaryTime { hour: h as u8, minute: m as u8 }, e))
        } else {
            None
        }
    } else {
        None
    }
}

pub fn military_time_at(s: &[u8], p: usize, err: &mut ParseError) -> (r: Option<
    (MilitaryTime, usize),
>)
    requires
        p <= s@.len(),
        old(err).wf(s@.len() as int),
    ensures
        lift_pos(r) == military_time(s@, p as int),
        r matches Some((_, e)) ==> p <= e <= s@.len(),
        final(err).wf(s@.len() as int),
        final(err).state() == military_time_failure(s@, p as int, old(err).state()),
{
    if let Some((h, q)) = fixed_digits_at(s, p, 2, err) {
        if let Some((m, e)) = fixed_digits_at(s, q, 2, err) {
            Some((MilitaryTime { hour: h as u8, minute: m as u8 }, e))
        } else {
            None
        }
    } else {
        None
    }
}

/// Day of month, hours and minutes, then `Z` if the station writes it.
pub open spec fn observation_time(s: Seq<u8>, p: int) -> Option<(DateTime, int)> {
    if let Some((d, q)) = fixed_digits(s, p, 2) {
        if let Some((t, e)) = military_time(s, q) {
            let z = byte_is(s, e, 'Z');
            Some(
                (
                    DateTime { day_of_month: d as u8, time: t, is_zulu: z },
                    if z {
                        e + 1
                    } else {
                        e
                    },
                ),
            )
        } else {
            None
        }
    } else {
        None
    }
}

pub fn observation_time_at(s: &[u8], p: usize, err: &mut ParseError) -> (r: Option<
    (DateTime, usize),
>)
    requires
        p <= s@.len(),
        old(err).wf(s@.len() as int),
    ensures
        lift_pos(r) == observation_time(s@, p as int),
        r matches Some((_, e)) ==> p <= e <= s@.len(),
        final(err).wf(s@.len() as int),
        final(err).state() == observation_time_failure(s@, p as int, old(err).state()),
{
    if let Some((d, q)) = fixed_digits_at(s, p, 2, err) {
        if let Some((t, e)) = military_time_at(s, q, err) {
            let z = byte_at(s, e, 'Z');
            Some(
                (
                    DateTime { day_of_month: d as u8, time: t, is_zulu: z },
                    if z {
                        e + 1
                    } else {
                        e
                    },
                ),
            )
        } else {
            None
        }
    } else {
        None
    }
}

/// Two times separated by a slash.
pub open spec fn validity_range(s: Seq<u8>, p: int) -> Option<(TimeRange, int)> {
    if let Some((b, q)) = military_time(s, p) {
        if byte_is(s, q, '/') {
            if let Some((t, e)) = military_time(s, q + 1) {
                Some((TimeRange { begin: b, end: t }, e))
            } else {
                None
            }
        } else {
            None
        }
    } else {
        None
    }
}

pub fn validity_range_at(s: &[u8], p: usize, err: &mut ParseError) -> (r: Option<
    (TimeRange, usize),
>)
    requires
        p <= s@.len(),
        old(err).wf(s@.len() as int),
    ensures
        lift_pos(r) == validity_range(s@, p as int),
        r matches Some((_, e)) ==> p <= e <= s@.len(),
        final(err).wf(s@.len() as int),
{
    if let Some((b, q)) = military_time_at(s, p, err) {
        if byte_at(s, q, '/') {
            if let Some((t, e)) = military_time_at(s, q + 1, err) {
                Some((TimeRange { begin: b, end: t }, e))
            } else {
                None
            }
        } else {
            None
        }
    } else {
        None
    }
}

/// `CC` and the letter of a correction.
pub open spec fn correction_letter(s: Seq<u8>, p: int) -> Option<(ObservationFlag, int)> {
    if let Some(q) = lit(s, p, "CC"@) {
        if letter(s, q) is Some {
            Some((ObservationFlag::Correction { letter: Some(s[q] as char) }, q + 1))
        } else {
            None
        }
    } else {
        None
    }
}

fn correction_letter_at(s: &[u8], p: usize) -> (r: Option<(ObservationFlag, usize)>)
    requires
        p <= s@.len(),
    ensures
        lift_pos(r) == correction_letter(s@, p as int),
        r matches Some((_, e)) ==> p <= e <= s@.len(),
{
    if let Some(q) = lit_at(s, p, "CC") {
        if q < s.len() && 65 <= s[q] && s[q] <= 90 {
            Some((ObservationFlag::Correction { letter: Some(s[q] as char) }, q + 1))
        } else {
            None
        }
    } else {
        None
    }
}

/// `AUTO`, `NIL`, `COR`, `CC` and a letter, or `RTD`.
pub open spec fn observation_flag(s: Seq<u8>, p: int) -> Option<(ObservationFlag, int)> {
    if let Some(e) = lit(s, p, "AUTO"@) {
        Some((ObservationFlag::Auto, e))
    } else if let Some(e) = lit(s, p, "NIL"@) {
        Some((ObservationFlag::Nil, e))
    } else if let Some(e) = lit(s, p, "COR"@) {
        Some((ObservationFlag::Correction { letter: None }, e))
    } else if correction_letter(s, p) is Some {
        correction_letter(s, p)
    } else if let Some(e) = lit(s, p, "RTD"@) {
        Some((ObservationFlag::Delayed, e))
    } else {
        None
    }
}

pub fn observation_flag_at(s: &[u8], p: usize, err: &mut ParseError) -> (r: Option<
    (ObservationFlag, usize),
>)
    requires
        p <= s@.len(),
        old(err).wf(s@.len() as int),
    ensures
        lift_pos(r) == observation_flag(s@, p as int),
        r matches Some((_, e)) ==> p <= e <= s@.len(),
        final(err).wf(s@.len() as int),
{
    if let Some(e) = lit_at(s, p, "AUTO") {
        Some((ObservationFlag::Auto, e))
    } else if let Some(e) = lit_at(s, p, "NIL") {
        Some((ObservationFlag::Nil, e))
    } else if let Some(e) = lit_at(s, p, "COR") {
        Some((ObservationFlag::Correction { letter: None }, e))
    } else if let Some(r) = correction_letter_at(s, p) {
        Some(r)
    } else if let Some(e) = lit_at(s, p, "RTD") {
        Some((ObservationFlag::Delayed, e))
    } else {
        err.note(p, Expected::ObservationType);
        None
    }
}

/// Unit of a wind speed.
pub open spec fn velocity_unit(s: Seq<u8>, p: int) -> Option<(VelocityUnit, int)> {
    if let Some(e) = lit(s, p, "MPS"@) {
        Some((VelocityUnit::MetrePerSecond, e))
    } else if let Some(e) = lit(s, p, "KTM"@) {
        Some((VelocityUnit::Knot, e))
    } else if let Some(e) = lit(s, p, "KTS"@) {
        Some((VelocityUnit::Knot, e))
    } else if let Some(e) = lit(s, p, "KT"@) {
        Some((VelocityUnit::Knot, e))
    } else if let Some(e) = lit(s, p, "KMH"@) {
        Some((VelocityUnit::KilometrePerHour, e))
    } else {
        None
    }
}

fn velocity_unit_at(s: &[u8], p: usize, err: &mut ParseError) -> (r: Option<(VelocityUnit, usize)>)
    requires
        p <= s@.len(),
        old(err).wf(s@.len() as int),
    ensures
        lift_pos(r) == velocity_unit(s@, p as int),
        r matches Some((_, e)) ==> p <= e <= s@.len(),
        final(err).wf(s@.len() as int),
{
    if let Some(e) = lit_at(s, p, "MPS") {
        Some((VelocityUnit::MetrePerSecond, e))
    } else if let Some(e) = lit_at(s, p, "KTM") {
        Some((VelocityUnit::Knot, e))
    } else if let Some(e) = lit_at(s, p, "KTS") {
        Some((VelocityUnit::Knot, e))
    } else if let Some(e) = lit_at(s, p, "KT") {
        Some((VelocityUnit::Knot, e))
    } else if let Some(e) = lit_at(s, p, "KMH") {
        Some((VelocityUnit::KilometrePerHour, e))
    } else {
        err.note(p, Expected::VelocityUnit);
        None
    }
}

/// `VRB` (variable, no direction) or three digits of degrees.
pub open spec fn wind_direction(s: Seq<u8>, p: int) -> Option<(Option<Angle>, int)> {
    if let Some(e) = lit(s, p, "VRB"@) {
        Some((None, e))
    } else if let Some((v, e)) = fixed_digits(s, p, 3) {
        Some((Some(Angle { degrees: v as u32 }), e))
    } else {
        None
    }
}

fn wind_direction_at(s: &[u8], p: usize, err: &mut ParseError) -> (r: Option<
    (Option<Angle>, usize),
>)
    requires
        p <= s@.len(),
        old(err).wf(s@.len() as int),
    ensures
        lift_pos(r) == wind_direction(s@, p as int),
        r matches Some((_, e)) ==> p <= e <= s@.len(),
        final(err).wf(s@.len() as int),
{
    if let Some(e) = lit_at(s, p, "VRB") {
        Some((None, e))
    } else if let Some((v, e)) = fixed_digits_at(s, p, 3, err) {
        Some((Some(Angle::from_degrees(v as u32)), e))
    } else {
        None
    }
}

/// `P` and two digits (above that speed), or a number.
pub open spec fn wind_speed(s: Seq<u8>, p: int) -> Option<(u64, int)> {
    if byte_is(s, p, 'P') && fixed_digits(s, p + 1, 2) is Some {
        fixed_digits(s, p + 1, 2)
    } else {
        number(s, p)
    }
}

fn wind_speed_at(s: &[u8], p: usize, err: &mut ParseError) -> (r: Option<(u64, usize)>)
    requires
        p <= s@.len(),
        old(err).wf(s@.len() as int),
    ensures
        lift_pos(r) == wind_speed(s@, p as int),
        r matches Some((v, e)) ==> p <= e <= s@.len() && v < 1_000_000,
        final(err).wf(s@.len() as int),
{
    if byte_at(s, p, 'P') {
        if let Some((v, e)) = fixed_digits_at(s, p + 1, 2, err) {
            return Some((v, e));
        }
    }
    number_at(s, p, err)
}

/// `G` and a number of the gust speed; `G//` is a gust not measured.
/// Without either, no gust and nothing consumed.
pub open spec fn gust(s: Seq<u8>, p: int) -> (Option<u64>, int) {
    if byte_is(s, p, 'G') && lit(s, p + 1, "//"@) is Some {
        (None, lit(s, p + 1, "//"@)->Some_0)
    } else if byte_is(s, p, 'G') && number(s, p + 1) is Some {
        (Some(number(s, p + 1)->Some_0.0), number(s, p + 1)->Some_0.1)
    } else {
        (None, p)
    }
}

fn gust_at(s: &[u8], p: usize, err: &mut ParseError) -> (r: (Option<u64>, usize))
    requires
        p <= s@.len(),
        old(err).wf(s@.len() as int),
    ensures
        (r.0, r.1 as int) == gust(s@, p as int),
        p <= r.1 <= s@.len(),
        r.0 matches Some(v) ==> v < 1_000_000,
        final(err).wf(s@.len() as int),
{
    if byte_at(s, p, 'G') {
        if let Some(e) = lit_at(s, p + 1, "//") {
            return (None, e);
        }
        if let Some((v, e)) = number_at(s, p + 1, err) {
            return (Some(v), e);
        }
    }
    (None, p)
}

/// Two numbers of degrees around a `V`: the range the wind direction varies in.
pub open spec fn wind_variance(s: Seq<u8>, p: int) -> Option<((Angle, Angle), int)> {
    if let Some((a, q)) = number(s, p) {
        if byte_is(s, q, 'V') {
            if let Some((b, e)) = number(s, q + 1) {
                Some(((Angle { degrees: a as u32 }, Angle { degrees: b as u32 }), e))
            } else {
                None
            }
        } else {
            None
        }
    } else {
        None
    }
}

fn wind_variance_at(s: &[u8], p: usize, err: &mut ParseError) -> (r: Option<
    ((Angle, Angle), usize),
>)
    requires
        p <= s@.len(),
        old(err).wf(s@.len() as int),
    ensures
        lift_pos(r) == wind_variance(s@, p as int),
        r matches Some((_, e)) ==> p <= e <= s@.len(),
        final(err).wf(s@.len() as int),
{
    if let Some((a, q)) = number_at(s, p, err) {
        if byte_at(s, q, 'V') {
            if let Some((b, e)) = number_at(s, q + 1, err) {
                Some(((Angle::from_degrees(a as u32), Angle::from_degrees(b as u32)), e))
            } else {
                None
            }
        } else {
            None
        }
    } else {
        None
    }
}

/// A wind placeholder's trailing variance, itself not measured: `///V///`.
pub open spec fn missing_variance(s: Seq<u8>, p: int) -> Option<int> {
    lit(s, p, "///V///"@)
}

/// The wind group. A group of slashes and a unit is wind not reported,
/// which yields no wind; so does its variance written as `///V///`.
pub open spec fn wind(s: Seq<u8>, p: int) -> Option<(Option<Wind>, int)> {
    if let Some((direction, q1)) = wind_direction(s, p) {
        if let Some((speed, q2)) = wind_speed(s, q1) {
            let (g, q3) = gust(s, q2);
            if let Some((unit, q4)) = velocity_unit(s, q3) {
                let q5 = whitespace(s, q4);
                let (variance, e) = match wind_variance(s, q5) {
                    Some((v, e)) => (Some(v), e),
                    None => (None, q5),
                };
                Some(
                    (
                        Some(
                            Wind {
                                direction,
                                speed: Some(Velocity::spec_new(speed as int, 1, unit)),
                                peak_gust: match g {
                                    Some(v) => Some(Velocity::spec_new(v as int, 1, unit)),
                                    None => None,
                                },
                                variance,
                            },
                        ),
                        e,
                    ),
                )
            } else {
                missing_wind(s, p)
            }
        } else {
            missing_wind(s, p)
        }
    } else {
        missing_wind(s, p)
    }
}

/// Six or five slashes and a unit, then possibly `///V///`.
pub open spec fn missing_wind(s: Seq<u8>, p: int) -> Option<(Option<Wind>, int)> {
    let q = if lit(s, p, "//////"@) is Some {
        lit(s, p, "//////"@)
    } else {
        lit(s, p, "/////"@)
    };
    if let Some(q1) = q {
        if let Some((_, q2)) = velocity_unit(s, q1) {
            let q3 = whitespace(s, q2);
            if let Some(e) = missing_variance(s, q3) {
                Some((None, e))
            } else {
                Some((None, q2))
            }
        } else {
            None
        }
    } else {
        None
    }
}

fn missing_wind_at(s: &[u8], p: usize, err: &mut ParseError) -> (r: Option<(Option<Wind>, usize)>)
    requires
        p <= s@.len(),
        old(err).wf(s@.len() as int),
    ensures
        lift_pos(r) == missing_wind(s@, p as int),
        r matches Some((_, e)) ==> p <= e <= s@.len(),
        final(err).wf(s@.len() as int),
{
    let q = if let Some(e) = lit_at(s, p, "//////") {
        Some(e)
    } else {
        lit_at(s, p, "/////")
    };
    if let Some(q1) = q {
        if let Some((_, q2)) = velocity_unit_at(s, q1, err) {
            let q3 = whitespace_at(s, q2, err);
            if let Some(e) = lit_at(s, q3, "///V///") {
                Some((None, e))
            } else {
                Some((None, q2))
            }
        } else {
            None
        }
    } else {
        None
    }
}

pub fn wind_at(s: &[u8], p: usize, err: &mut ParseError) -> (r: Option<(Option<Wind>, usize)>)
    requires
        p <= s@.len(),
        old(err).wf(s@.len() as int),
    ensures
        lift_pos(r) == wind(s@, p as int),
        r matches Some((_, e)) ==> p <= e <= s@.len(),
        final(err).wf(s@.len() as int),
{
    if let Some((direction, q1)) = wind_direction_at(s, p, err) {
        if let Some((speed, q2)) = wind_speed_at(s, q1, err) {
            let (g, q3) = gust_at(s, q2, err);
            if let Some((unit, q4)) = velocity_unit_at(s, q3, err) {
                let q5 = whitespace_at(s, q4, err);
                let (variance, e) = match wind_variance_at(s, q5, err) {
                    Some((v, e)) => (Some(v), e),
                    None => (None, q5),
                };
                let peak_gust = match g {
                    Some(v) => Some(Velocity::new(v, 1, unit)),
                    None => None,
                };
                return Some(
                    (
                        Some(
                            Wind {
                                direction,
                                speed: Some(Velocity::new(speed, 1, unit)),
                                peak_gust,
                                variance,
                            },
                        ),
                        e,
                    ),
                );
            }
        }
    }
    missing_wind_at(s, p, err)
}

/// Unit of a visibility, which must stand before a separator or the end.
pub open spec fn visibility_unit(s: Seq<u8>, p: int) -> Option<(LengthUnit, int)> {
    let r = if let Some(e) = lit(s, p, "M"@) {
        Some((LengthUnit::Metre, e))
    } else if let Some(e) = lit(s, p, "KM"@) {
        Some((LengthUnit::Kilometre, e))
    } else if let Some(e) = lit(s, p, "SM"@) {
        Some((LengthUnit::StatuteMile, e))
    } else {
        None
    };
    match r {
        Some((u, e)) => if whitespace_or_end(s, e) {
            Some((u, e))
        } else {
            None
        },
        None => None,
    }
}

pub fn visibility_unit_at(s: &[u8], p: usize, err: &mut ParseError) -> (r: Option<
    (LengthUnit, usize),
>)
    requires
        p <= s@.len(),
        old(err).wf(s@.len() as int),
    ensures
        lift_pos(r) == visibility_unit(s@, p as int),
        r matches Some((_, e)) ==> p <= e <= s@.len(),
        final(err).wf(s@.len() as int),
{
    let r = if let Some(e) = lit_at(s, p, "M") {
        Some((LengthUnit::Metre, e))
    } else if let Some(e) = lit_at(s, p, "KM") {
        Some((LengthUnit::Kilometre, e))
    } else if let Some(e) = lit_at(s, p, "SM") {
        Some((LengthUnit::StatuteMile, e))
    } else {
        err.note(p, Expected::VisibilityUnit);
        None
    };
    match r {
        Some((u, e)) => if whitespace_or_end_at(s, e) {
            Some((u, e))
        } else {
            None
        },
        None => None,
    }
}

/// An optional visibility unit; metres when absent.
pub open spec fn visibility_unit_or_metres(s: Seq<u8>, p: int) -> (LengthUnit, int) {
    match visibility_unit(s, p) {
        Some((u, e)) => (u, e),
        None => (LengthUnit::Metre, p),
    }
}

fn visibility_unit_or_metres_at(s: &[u8], p: usize, err: &mut ParseError) -> (r: (
    LengthUnit,
    usize,
))
    requires
        p <= s@.len(),
        old(err).wf(s@.len() as int),
    ensures
        (r.0, r.1 as int) == visibility_unit_or_metres(s@, p as int),
        p <= r.1 <= s@.len(),
        final(err).wf(s@.len() as int),
{
    match visibility_unit_at(s, p, err) {
        Some((u, e)) => (u, e),
        None => (LengthUnit::Metre, p),
    }
}

/// A whole number, a separator, and a fraction, as in `1 1/2SM`.
pub open spec fn mixed_distance(s: Seq<u8>, p: int) -> Option<(Length, int)> {
    if let Some((w, q1)) = number(s, p) {
        let q2 = whitespace(s, q1);
        if let Some((n, q3)) = number(s, q2) {
            if byte_is(s, q3, '/') {
                if let Some((d, q4)) = number(s, q3 + 1) {
                    if d > 0 {
                        let (u, e) = visibility_unit_or_metres(s, q4);
                        Some((Length::spec_new(w * d + n, d as int, u), e))
                    } else {
                        None
                    }
                } else {
                    None
                }
            } else {
                None
            }
        } else {
            None
        }
    } else {
        None
    }
}

fn mixed_distance_at(s: &[u8], p: usize, err: &mut ParseError) -> (r: Option<(Length, usize)>)
    requires
        p <= s@.len(),
        old(err).wf(s@.len() as int),
    ensures
        lift_pos(r) == mixed_distance(s@, p as int),
        r matches Some((_, e)) ==> p <= e <= s@.len(),
        final(err).wf(s@.len() as int),
{
    if let Some((w, q1)) = number_at(s, p, err) {
        let q2 = whitespace_at(s, q1, err);
        if let Some((n, q3)) = number_at(s, q2, err) {
            if byte_at(s, q3, '/') {
                if let Some((d, q4)) = number_at(s, q3 + 1, err) {
                    if d > 0 {
                        let (u, e) = visibility_unit_or_metres_at(s, q4, err);
                        assert(w * d + n <= 999_999 * 999_999 + 999_999) by (nonlinear_arith)
                            requires
                                w < 1_000_000,
                                d < 1_000_000,
                                n < 1_000_000,
                        ;
                        return Some((Length::new(w * d + n, d, u), e));
                    }
                }
            }
        }
    }
    None
}

/// A fraction, as in `1/2SM`.
pub open spec fn fraction_distance(s: Seq<u8>, p: int) -> Option<(Length, int)> {
    if let Some((n, q1)) = number(s, p) {
        if byte_is(s, q1, '/') {
            if let Some((d, q2)) = number(s, q1 + 1) {
                if d > 0 {
                    let (u, e) = visibility_unit_or_metres(s, q2);
                    Some((Length::spec_new(n as int, d as int, u), e))
                } else {
                    None
                }
            } else {
                None
            }
        } else {
            None
        }
    } else {
        None
    }
}

fn fraction_distance_at(s: &[u8], p: usize, err: &mut ParseError) -> (r: Option<(Length, usize)>)
    requires
        p <= s@.len(),
        old(err).wf(s@.len() as int),
    ensures
        lift_pos(r) == fraction_distance(s@, p as int),
        r matches Some((_, e)) ==> p <= e <= s@.len(),
        final(err).wf(s@.len() as int),
{
    if let Some((n, q1)) = number_at(s, p, err) {
        if byte_at(s, q1, '/') {
            if let Some((d, q2)) = number_at(s, q1 + 1, err) {
                if d > 0 {
                    let (u, e) = visibility_unit_or_metres_at(s, q2, err);
                    return Some((Length::new(n, d, u), e));
                }
            }
        }
    }
    None
}

/// A whole number with an optional unit.
pub open spec fn whole_distance(s: Seq<u8>, p: int) -> Option<(Length, int)> {
    if let Some((v, q)) = number(s, p) {
        let (u, e) = visibility_unit_or_metres(s, q);
        Some((Length::spec_new(v as int, 1, u), e))
    } else {
        None
    }
}

fn whole_distance_at(s: &[u8], p: usize, err: &mut ParseError) -> (r: Option<(Length, usize)>)
    requires
        p <= s@.len(),
        old(err).wf(s@.len() as int),
    ensures
        lift_pos(r) == whole_distance(s@, p as int),
        r matches Some((_, e)) ==> p <= e <= s@.len(),
        final(err).wf(s@.len() as int),
{
    if let Some((v, q)) = number_at(s, p, err) {
        let (u, e) = visibility_unit_or_metres_at(s, q, err);
        Some((Length::new(v, 1, u), e))
    } else {
        None
    }
}

/// A distance: mixed number, fraction, or whole number, each with an
/// optional unit. A zero denominator is no fraction.
pub open spec fn distance(s: Seq<u8>, p: int) -> Option<(Length, int)> {
    if mixed_distance(s, p) is Some {
        mixed_distance(s, p)
    } else if fraction_distance(s, p) is Some {
        fraction_distance(s, p)
    } else {
        whole_distance(s, p)
    }
}

fn distance_at(s: &[u8], p: usize, err: &mut ParseError) -> (r: Option<(Length, usize)>)
    requires
        p <= s@.len(),
        old(err).wf(s@.len() as int),
    ensures
        lift_pos(r) == distance(s@, p as int),
        r matches Some((_, e)) ==> p <= e <= s@.len(),
        final(err).wf(s@.len() as int),
{
    if let Some(r) = mixed_distance_at(s, p, err) {
        Some(r)
    } else if let Some(r) = fraction_distance_at(s, p, err) {
        Some(r)
    } else {
        whole_distance_at(s, p, err)
    }
}

/// An optional bound marker, `M` (below) or `P` (above), and what follows
/// it.
pub open spec fn bound(s: Seq<u8>, p: int) -> (Option<OutOfRange>, int) {
    match vocab::<OutOfRange>(s, p) {
        Some((o, e)) => (Some(o), e),
        None => (None, p),
    }
}

fn bound_at(s: &[u8], p: usize, err: &mut ParseError) -> (r: (Option<OutOfRange>, usize))
    requires
        p <= s@.len(),
        old(err).wf(s@.len() as int),
    ensures
        (r.0, r.1 as int) == bound(s@, p as int),
        p <= r.1 <= s@.len(),
        final(err).wf(s@.len() as int),
{
    match vocab_at::<OutOfRange>(s, p, Expected::Bound, err) {
        Some((o, e)) => (Some(o), e),
        None => (None, p),
    }
}

/// A distance, possibly marked as beyond the measurable range.
pub open spec fn raw_visibility(s: Seq<u8>, p: int) -> Option<(RawVisibility, int)> {
    let (o, q) = bound(s, p);
    match distance(s, q) {
        Some((d, e)) => Some((RawVisibility { out_of_range: o, distance: d }, e)),
        None => None,
    }
}

fn raw_visibility_at(s: &[u8], p: usize, err: &mut ParseError) -> (r: Option<
    (RawVisibility, usize),
>)
    requires
        p <= s@.len(),
        old(err).wf(s@.len() as int),
    ensures
        lift_pos(r) == raw_visibility(s@, p as int),
        r matches Some((_, e)) ==> p <= e <= s@.len(),
        final(err).wf(s@.len() as int),
{
    let (o, q) = bound_at(s, p, err);
    match distance_at(s, q, err) {
        Some((d, e)) => Some((RawVisibility { out_of_range: o, distance: d }, e)),
        None => None,
    }
}

/// A distance followed by a compass point.
pub open spec fn directional_visibility(s: Seq<u8>, p: int) -> Option<
    (DirectionalVisibility, int),
> {
    if let Some((d, q)) = raw_visibility(s, p) {
        if let Some((c, e)) = vocab::<CompassDirection>(s, q) {
            Some((DirectionalVisibility { direction: c, distance: d }, e))
        } else {
            None
        }
    } else {
        None
    }
}

fn directional_visibility_at(s: &[u8], p: usize, err: &mut ParseError) -> (r: Option<
    (DirectionalVisibility, usize),
>)
    requires
        p <= s@.len(),
        old(err).wf(s@.len() as int),
    ensures
        lift_pos(r) == directional_visibility(s@, p as int),
        r matches Some((_, e)) ==> p <= e <= s@.len(),
        final(err).wf(s@.len() as int),
{
    if let Some((d, q)) = raw_visibility_at(s, p, err) {
        if let Some((c, e)) = vocab_at::<CompassDirection>(s, q, Expected::CompassDirection, err) {
            Some((DirectionalVisibility { direction: c, distance: d }, e))
        } else {
            None
        }
    } else {
        None
    }
}

/// Visibility not determined: digits then `NDV`, or slashes with an
/// optional `NDV` and unit. Yields no visibility.
pub open spec fn missing_visibility(s: Seq<u8>, p: int) -> Option<int> {
    if let Some(e) = lit(s, digit_run_end(s, p), "NDV"@) {
        Some(e)
    } else if let Some(q1) = lit(s, p, "////"@) {
        let q2 = match lit(s, q1, "NDV"@) {
            Some(e) => e,
            None => q1,
        };
        match visibility_unit(s, q2) {
            Some((_, e)) => Some(e),
            None => Some(q2),
        }
    } else {
        None
    }
}

fn digit_run_end_at(s: &[u8], p: usize) -> (r: usize)
    requires
        p <= s@.len(),
    ensures
        r == digit_run_end(s@, p as int),
        p <= r <= s@.len(),
{
    let mut i = p;
    while i < s.len() && 48 <= s[i] && s[i] <= 57
        invariant
            p <= i <= s@.len(),
            digit_run_end(s@, p as int) == digit_run_end(s@, i as int),
        decreases s@.len() - i,
    {
        i += 1;
    }
    i
}

fn missing_visibility_at(s: &[u8], p: usize, err: &mut ParseError) -> (r: Option<usize>)
    requires
        p <= s@.len(),
        old(err).wf(s@.len() as int),
    ensures
        lift_end(r) == missing_visibility(s@, p as int),
        r matches Some(e) ==> p <= e <= s@.len(),
        final(err).wf(s@.len() as int),
{
    let d = digit_run_end_at(s, p);
    if let Some(e) = lit_at(s, d, "NDV") {
        Some(e)
    } else if let Some(q1) = lit_at(s, p, "////") {
        let q2 = match lit_at(s, q1, "NDV") {
            Some(e) => e,
            None => q1,
        };
        match visibility_unit_at(s, q2, err) {
            Some((_, e)) => Some(e),
            None => Some(q2),
        }
    } else {
        None
    }
}

/// The visibility group: prevailing visibility, then up to two directional
/// readings. A missing reading yields no visibility.
pub open spec fn visibility(s: Seq<u8>, p: int) -> Option<(Option<Visibility>, int)> {
    if let Some(e) = missing_visibility(s, p) {
        Some((None, e))
    } else if let Some((prevailing, q1)) = raw_visibility(s, p) {
        let q2 = whitespace(s, q1);
        if let Some((minimum, q3)) = directional_visibility(s, q2) {
            let q4 = whitespace(s, q3);
            if let Some((maximum, e)) = directional_visibility(s, q4) {
                Some(
                    (
                        Some(
                            Visibility {
                                prevailing: Some(prevailing),
                                minimum: Some(DirectionalOrRawVisiblity::Directional(minimum)),
                                maximum_directional: Some(maximum),
                            },
                        ),
                        e,
                    ),
                )
            } else {
                Some(
                    (
                        Some(
                            Visibility {
                                prevailing: Some(prevailing),
                                minimum: Some(DirectionalOrRawVisiblity::Directional(minimum)),
                                maximum_directional: None,
                            },
                        ),
                        q3,
                    ),
                )
            }
        } else {
            Some(
                (
                    Some(
                        Visibility {
                            prevailing: Some(prevailing),
                            minimum: None,
                            maximum_directional: None,
                        },
                    ),
                    q1,
                ),
            )
        }
    } else {
        None
    }
}

pub fn visibility_at(s: &[u8], p: usize, err: &mut ParseError) -> (r: Option<
    (Option<Visibility>, usize),
>)
    requires
        p <= s@.len(),
        old(err).wf(s@.len() as int),
    ensures
        lift_pos(r) == visibility(s@, p as int),
        r matches Some((_, e)) ==> p <= e <= s@.len(),
        final(err).wf(s@.len() as int),
{
    if let Some(e) = missing_visibility_at(s, p, err) {
        Some((None, e))
    } else if let Some((prevailing, q1)) = raw_visibility_at(s, p, err) {
        let q2 = whitespace_at(s, q1, err);
        if let Some((minimum, q3)) = directional_visibility_at(s, q2, err) {
            let q4 = whitespace_at(s, q3, err);
            if let Some((maximum, e)) = directional_visibility_at(s, q4, err) {
                Some(
                    (
                        Some(
                            Visibility {
                                prevailing: Some(prevailing),
                                minimum: Some(DirectionalOrRawVisiblity::Directional(minimum)),
                                maximum_directional: Some(maximum),
                            },
                        ),
                        e,
                    ),
                )
            } else {
                Some(
                    (
                        Some(
                            Visibility {
                                prevailing: Some(prevailing),
                                minimum: Some(DirectionalOrRawVisiblity::Directional(minimum)),
                                maximum_directional: None,
                            },
                        ),
                        q3,
                    ),
                )
            }
        } else {
            Some(
                (
                    Some(
                        Visibility {
                            prevailing: Some(prevailing),
                            minimum: None,
                            maximum_directional: None,
                        },
                    ),
                    q1,
                ),
            )
        }
    } else {
        None
    }
}

/// A runway designator: digits, then `L`, `C`, `R` or `D` if present.
pub open spec fn designator(s: Seq<u8>, p: int) -> Option<(Span, int)> {
    let q = digit_run_end(s, p);
    if q > p {
        let e = if byte_is(s, q, 'L') || byte_is(s, q, 'C') || byte_is(s, q, 'R') || byte_is(
            s,
            q,
            'D',
        ) {
            q + 1
        } else {
            q
        };
        Some((Span { start: p as usize, end: e as usize }, e))
    } else {
        None
    }
}

fn designator_at(s: &[u8], p: usize, err: &mut ParseError) -> (r: Option<(Span, usize)>)
    requires
        p <= s@.len(),
        old(err).wf(s@.len() as int),
    ensures
        lift_pos(r) == designator(s@, p as int),
        r matches Some((_, e)) ==> p <= e <= s@.len(),
        final(err).wf(s@.len() as int),
{
    let q = digit_run_end_at(s, p);
    if q > p {
        let e = if byte_at(s, q, 'L') || byte_at(s, q, 'C') || byte_at(s, q, 'R') || byte_at(
            s,
            q,
            'D',
        ) {
            q + 1
        } else {
            q
        };
        Some((Span { start: p, end: e }, e))
    } else {
        err.note(p, Expected::RunwayDesignator);
        None
    }
}

/// A runway cleared of deposits: `CLRD` and the friction coefficient in
/// hundredths, or `//` when not measured.
pub open spec fn runway_report_info(s: Seq<u8>, p: int) -> Option<(RunwayReportInfo, int)> {
    if let Some(q) = lit(s, p, "CLRD"@) {
        if let Some(e) = lit(s, q, "//"@) {
            Some((RunwayReportInfo::Cleared { friction: None }, e))
        } else if let Some((v, e)) = number(s, q) {
            Some((RunwayReportInfo::Cleared { friction: Some(v as u32) }, e))
        } else {
            None
        }
    } else {
        None
    }
}

fn runway_report_info_at(s: &[u8], p: usize, err: &mut ParseError) -> (r: Option<
    (RunwayReportInfo, usize),
>)
    requires
        p <= s@.len(),
        old(err).wf(s@.len() as int),
    ensures
        lift_pos(r) == runway_report_info(s@, p as int),
        r matches Some((_, e)) ==> p <= e <= s@.len(),
        final(err).wf(s@.len() as int),
{
    if let Some(q) = lit_at(s, p, "CLRD") {
        if let Some(e) = lit_at(s, q, "//") {
            Some((RunwayReportInfo::Cleared { friction: None }, e))
        } else if let Some((v, e)) = number_at(s, q, err) {
            Some((RunwayReportInfo::Cleared { friction: Some(v as u32) }, e))
        } else {
            None
        }
    } else {
        None
    }
}

/// `R`, a designator and a slash.
pub open spec fn runway_prefix(s: Seq<u8>, p: int) -> Option<(Span, int)> {
    if byte_is(s, p, 'R') {
        if let Some((d, q)) = designator(s, p + 1) {
            if byte_is(s, q, '/') {
                Some((d, q + 1))
            } else {
                None
            }
        } else {
            None
        }
    } else {
        None
    }
}

fn runway_prefix_at(s: &[u8], p: usize, err: &mut ParseError) -> (r: Option<(Span, usize)>)
    requires
        p <= s@.len(),
        old(err).wf(s@.len() as int),
    ensures
        lift_pos(r) == runway_prefix(s@, p as int),
        r matches Some((_, e)) ==> p <= e <= s@.len(),
        final(err).wf(s@.len() as int),
{
    if byte_at(s, p, 'R') {
        if let Some((d, q)) = designator_at(s, p + 1, err) {
            if byte_at(s, q, '/') {
                return Some((d, q + 1));
            }
        }
    }
    None
}

/// A runway visual range reading: bound, number, `FT` for feet (else
/// metres).
pub open spec fn runway_reading(s: Seq<u8>, p: int) -> Option<(RawVisibility, int)> {
    let (o, q1) = bound(s, p);
    if let Some((v, q2)) = number(s, q1) {
        let feet = lit(s, q2, "FT"@) is Some;
        Some(
            (
                RawVisibility {
                    out_of_range: o,
                    distance: Length::spec_new(
                        v as int,
                        1,
                        if feet {
                            LengthUnit::Foot
                        } else {
                            LengthUnit::Metre
                        },
                    ),
                },
                if feet {
                    lit(s, q2, "FT"@)->Some_0
                } else {
                    q2
                },
            ),
        )
    } else {
        None
    }
}

fn runway_reading_at(s: &[u8], p: usize, err: &mut ParseError) -> (r: Option<
    (RawVisibility, usize),
>)
    requires
        p <= s@.len(),
        old(err).wf(s@.len() as int),
    ensures
        lift_pos(r) == runway_reading(s@, p as int),
        r matches Some((_, e)) ==> p <= e <= s@.len(),
        final(err).wf(s@.len() as int),
{
    let (o, q1) = bound_at(s, p, err);
    if let Some((v, q2)) = number_at(s, q1, err) {
        match lit_at(s, q2, "FT") {
            Some(e) => Some(
                (RawVisibility { out_of_range: o, distance: Length::new(v, 1, LengthUnit::Foot) }, e),
            ),
            None => Some(
                (
                    RawVisibility {
                        out_of_range: o,
                        distance: Length::new(v, 1, LengthUnit::Metre),
                    },
                    q2,
                ),
            ),
        }
    } else {
        None
    }
}

/// Two readings around a `V`, with `FT` after the second giving the unit
/// of both.
pub open spec fn runway_range(s: Seq<u8>, p: int) -> Option<((RawVisibility, RawVisibility), int)> {
    let (lo, q1) = bound(s, p);
    if let Some((a, q2)) = number(s, q1) {
        if byte_is(s, q2, 'V') {
            let (hi, q3) = bound(s, q2 + 1);
            if let Some((b, q4)) = number(s, q3) {
                let feet = lit(s, q4, "FT"@) is Some;
                let unit = if feet {
                    LengthUnit::Foot
                } else {
                    LengthUnit::Metre
                };
                Some(
                    (
                        (
                            RawVisibility {
                                out_of_range: lo,
                                distance: Length::spec_new(a as int, 1, unit),
                            },
                            RawVisibility {
                                out_of_range: hi,
                                distance: Length::spec_new(b as int, 1, unit),
                            },
                        ),
                        if feet {
                            lit(s, q4, "FT"@)->Some_0
                        } else {
                            q4
                        },
                    ),
                )
            } else {
                None
            }
        } else {
            None
        }
    } else {
        None
    }
}

fn runway_range_at(s: &[u8], p: usize, err: &mut ParseError) -> (r: Option<
    ((RawVisibility, RawVisibility), usize),
>)
    requires
        p <= s@.len(),
        old(err).wf(s@.len() as int),
    ensures
        lift_pos(r) == runway_range(s@, p as int),
        r matches Some((_, e)) ==> p <= e <= s@.len(),
        final(err).wf(s@.len() as int),
{
    let (lo, q1) = bound_at(s, p, err);
    if let Some((a, q2)) = number_at(s, q1, err) {
        if byte_at(s, q2, 'V') {
            let (hi, q3) = bound_at(s, q2 + 1, err);
            if let Some((b, q4)) = number_at(s, q3, err) {
                let ft = lit_at(s, q4, "FT");
                let unit = if ft.is_some() {
                    LengthUnit::Foot
                } else {
                    LengthUnit::Metre
                };
                let e = match ft {
                    Some(e) => e,
                    None => q4,
                };
                return Some(
                    (
                        (
                            RawVisibility {
                                out_of_range: lo,
                                distance: Length::new(a, 1, unit),
                            },
                            RawVisibility { out_of_range: hi, distance: Length::new(b, 1, unit) },
                        ),
                        e,
                    ),
                );
            }
        }
    }
    None
}

/// An optional tendency, after an optional slash.
pub open spec fn runway_trend(s: Seq<u8>, p: int) -> (Option<VisibilityTrend>, int) {
    let q = if byte_is(s, p, '/') {
        p + 1
    } else {
        p
    };
    match vocab::<VisibilityTrend>(s, q) {
        Some((t, e)) => (Some(t), e),
        None => (None, p),
    }
}

fn runway_trend_at(s: &[u8], p: usize, err: &mut ParseError) -> (r: (
    Option<VisibilityTrend>,
    usize,
))
    requires
        p <= s@.len(),
        old(err).wf(s@.len() as int),
    ensures
        (r.0, r.1 as int) == runway_trend(s@, p as int),
        p <= r.1 <= s@.len(),
        final(err).wf(s@.len() as int),
{
    let q = if byte_at(s, p, '/') {
        p + 1
    } else {
        p
    };
    match vocab_at::<VisibilityTrend>(s, q, Expected::VisibilityTrend, err) {
        Some((t, e)) => (Some(t), e),
        None => (None, p),
    }
}

/// Runway visual range: `R`, designator, slash, a varying or fixed
/// reading, and a tendency. Slashes in place of the reading yield nothing.
pub open spec fn runway_visibility(s: Seq<u8>, p: int) -> Option<
    (Option<RunwayVisibility>, int),
> {
    if let Some((d, q)) = runway_prefix(s, p) {
        if runway_report_info(s, q) is None && runway_range(s, q) is Some {
            let (range, q2) = runway_range(s, q)->Some_0;
            let (t, e) = runway_trend(s, q2);
            Some(
                (
                    Some(
                        RunwayVisibility {
                            designator: d,
                            visibility: VisibilityType::Varying { lower: range.0, upper: range.1 },
                            trend: t,
                        },
                    ),
                    e,
                ),
            )
        } else if runway_report_info(s, q) is None && runway_reading(s, q) is Some {
            let (v, q2) = runway_reading(s, q)->Some_0;
            let (t, e) = runway_trend(s, q2);
            Some(
                (
                    Some(
                        RunwayVisibility {
                            designator: d,
                            visibility: VisibilityType::Fixed(v),
                            trend: t,
                        },
                    ),
                    e,
                ),
            )
        } else {
            missing_runway_visibility(s, p)
        }
    } else {
        missing_runway_visibility(s, p)
    }
}

/// `R`, an optional designator, then five or more slashes before a
/// separator or the end.
pub open spec fn missing_runway_visibility(s: Seq<u8>, p: int) -> Option<
    (Option<RunwayVisibility>, int),
> {
    if byte_is(s, p, 'R') {
        let q = match designator(s, p + 1) {
            Some((_, e)) => e,
            None => p + 1,
        };
        if let Some(q2) = lit(s, q, "/////"@) {
            let e = run_end(s, q2, '/');
            if whitespace_or_end(s, e) {
                Some((None, e))
            } else {
                None
            }
        } else {
            None
        }
    } else {
        None
    }
}

fn missing_runway_visibility_at(s: &[u8], p: usize, err: &mut ParseError) -> (r: Option<
    (Option<RunwayVisibility>, usize),
>)
    requires
        p <= s@.len(),
        old(err).wf(s@.len() as int),
    ensures
        lift_pos(r) == missing_runway_visibility(s@, p as int),
        r matches Some((_, e)) ==> p <= e <= s@.len(),
        final(err).wf(s@.len() as int),
{
    if byte_at(s, p, 'R') {
        let q = match designator_at(s, p + 1, err) {
            Some((_, e)) => e,
            None => p + 1,
        };
        if let Some(q2) = lit_at(s, q, "/////") {
            let e = run_end_at(s, q2, '/');
            if whitespace_or_end_at(s, e) {
                return Some((None, e));
            }
        }
    }
    None
}

pub fn runway_visibility_at(s: &[u8], p: usize, err: &mut ParseError) -> (r: Option<
    (Option<RunwayVisibility>, usize),
>)
    requires
        p <= s@.len(),
        old(err).wf(s@.len() as int),
    ensures
        lift_pos(r) == runway_visibility(s@, p as int),
        r matches Some((_, e)) ==> p <= e <= s@.len(),
        final(err).wf(s@.len() as int),
{
    if let Some((d, q)) = runway_prefix_at(s, p, err) {
        let mut scratch = ParseError::start();
        let is_report = runway_report_info_at(s, q, &mut scratch).is_some();
        if !is_report {
            if let Some((range, q2)) = runway_range_at(s, q, err) {
                let (t, e) = runway_trend_at(s, q2, err);
                return Some(
                    (
                        Some(
                            RunwayVisibility {
                                designator: d,
                                visibility: VisibilityType::Varying {
                                    lower: range.0,
                                    upper: range.1,
                                },
                                trend: t,
                            },
                        ),
                        e,
                    ),
                );
            }
            if let Some((v, q2)) = runway_reading_at(s, q, err) {
                let (t, e) = runway_trend_at(s, q2, err);
                return Some(
                    (
                        Some(
                            RunwayVisibility {
                                designator: d,
                                visibility: VisibilityType::Fixed(v),
                                trend: t,
                            },
                        ),
                        e,
                    ),
                );
            }
        }
    }
    missing_runway_visibility_at(s, p, err)
}

/// A runway state report: `R`, designator, slash, and what is reported.
pub open spec fn runway_report(s: Seq<u8>, p: int) -> Option<(RunwayReport, int)> {
    if let Some((d, q)) = runway_prefix(s, p) {
        if let Some((info, e)) = runway_report_info(s, q) {
            Some((RunwayReport { designator: d, report_info: info }, e))
        } else {
            None
        }
    } else {
        None
    }
}

pub fn runway_report_at(s: &[u8], p: usize, err: &mut ParseError) -> (r: Option<
    (RunwayReport, usize),
>)
    requires
        p <= s@.len(),
        old(err).wf(s@.len() as int),
    ensures
        lift_pos(r) == runway_report(s@, p as int),
        r matches Some((_, e)) ==> p <= e <= s@.len(),
        final(err).wf(s@.len() as int),
{
    if let Some((d, q)) = runway_prefix_at(s, p, err) {
        if let Some((info, e)) = runway_report_info_at(s, q, err) {
            return Some((RunwayReport { designator: d, report_info: info }, e));
        }
    }
    None
}

/// The value of a weather result as its model.
pub open spec fn lift_weather(r: Option<(Option<Weather>, usize)>) -> Option<
    (Option<WeatherModel>, int),
> {
    match r {
        Some((Some(w), e)) => Some((Some(w@), e as int)),
        Some((None, e)) => Some((None, e as int)),
        None => None,
    }
}

/// `-` light, `+` heavy, nothing moderate.
pub open spec fn intensity(s: Seq<u8>, p: int) -> (Intensity, int) {
    if byte_is(s, p, '-') {
        (Intensity::Light, p + 1)
    } else if byte_is(s, p, '+') {
        (Intensity::Heavy, p + 1)
    } else {
        (Intensity::Moderate, p)
    }
}

fn intensity_at(s: &[u8], p: usize, err: &mut ParseError) -> (r: (Intensity, usize))
    requires
        p <= s@.len(),
        old(err).wf(s@.len() as int),
    ensures
        (r.0, r.1 as int) == intensity(s@, p as int),
        p <= r.1 <= s@.len(),
        final(err).wf(s@.len() as int),
{
    if byte_at(s, p, '-') {
        (Intensity::Light, p + 1)
    } else if byte_at(s, p, '+') {
        (Intensity::Heavy, p + 1)
    } else {
        err.note(p, Expected::Intensity);
        (Intensity::Moderate, p)
    }
}

/// Precipitation codes one after another, as many as come.
pub open spec fn precipitations(s: Seq<u8>, p: int) -> (Seq<Precipitation>, int)
    decreases s.len() - p,
{
    match vocab::<Precipitation>(s, p) {
        Some((x, q)) => if p < q <= s.len() {
            let (rest, e) = precipitations(s, q);
            (seq![x] + rest, e)
        } else {
            (Seq::empty(), p)
        },
        None => (Seq::empty(), p),
    }
}

fn precipitations_at(s: &[u8], p: usize, err: &mut ParseError) -> (r: (
    Vec<Precipitation>,
    usize,
))
    requires
        p <= s@.len(),
        old(err).wf(s@.len() as int),
    ensures
        (r.0@, r.1 as int) == precipitations(s@, p as int),
        p <= r.1 <= s@.len(),
        final(err).wf(s@.len() as int),
{
    let mut v: Vec<Precipitation> = Vec::new();
    let mut i = p;
    loop
        invariant
            p <= i <= s@.len(),
            precipitations(s@, p as int) == (v@ + precipitations(s@, i as int).0, precipitations(
                s@,
                i as int,
            ).1),
            err.wf(s@.len() as int),
        ensures
            p <= i <= s@.len(),
            precipitations(s@, p as int) == (v@, i as int),
        decreases s@.len() - i,
    {
        match vocab_at::<Precipitation>(s, i, Expected::Precipitation, err) {
            Some((x, q)) => {
                if q <= i {
                    assert(v@ + Seq::<Precipitation>::empty() =~= v@);
                    break;
                }
                let ghost before = v@;
                v.push(x);
                assert(before + (seq![x] + precipitations(s@, q as int).0) =~= v@ + precipitations(
                    s@,
                    q as int,
                ).0);
                i = q;
            },
            None => {
                assert(v@ + Seq::<Precipitation>::empty() =~= v@);
                break;
            },
        }
    }
    (v, i)
}

/// The weather prefix: intensity, `VC` for vicinity, and a descriptor if
/// present; returns where the condition starts.
pub open spec fn weather_prefix(s: Seq<u8>, p: int) -> (Intensity, bool, Option<Descriptor>, int) {
    let (i, q1) = intensity(s, p);
    let (vc, q2) = match lit(s, q1, "VC"@) {
        Some(e) => (true, e),
        None => (false, q1),
    };
    match vocab::<Descriptor>(s, q2) {
        Some((d, e)) => (i, vc, Some(d), e),
        None => (i, vc, None, q2),
    }
}

fn weather_prefix_at(s: &[u8], p: usize, err: &mut ParseError) -> (r: (
    Intensity,
    bool,
    Option<Descriptor>,
    usize,
))
    requires
        p <= s@.len(),
        old(err).wf(s@.len() as int),
    ensures
        (r.0, r.1, r.2, r.3 as int) == weather_prefix(s@, p as int),
        p <= r.3 <= s@.len(),
        final(err).wf(s@.len() as int),
{
    let (i, q1) = intensity_at(s, p, err);
    let (vc, q2) = match lit_at(s, q1, "VC") {
        Some(e) => (true, e),
        None => (false, q1),
    };
    match vocab_at::<Descriptor>(s, q2, Expected::Descriptor, err) {
        Some((d, e)) => (i, vc, Some(d), e),
        None => (i, vc, None, q2),
    }
}

/// A weather group: `//` (not observed, yields nothing), or the prefix
/// followed by precipitation, an obscuration, another phenomenon, or
/// nothing when a descriptor was given.
pub open spec fn weather(s: Seq<u8>, p: int) -> Option<(Option<WeatherModel>, int)> {
    if let Some(e) = lit(s, p, "//"@) {
        Some((None, e))
    } else {
        let (i, vc, d, q) = weather_prefix(s, p);
        weather_condition(s, q, i, vc, d)
    }
}

/// The condition of a weather group at `q`, after its prefix: precipitation,
/// an obscuration, another phenomenon, or nothing when a descriptor was
/// given.
pub open spec fn weather_condition(
    s: Seq<u8>,
    q: int,
    i: Intensity,
    vc: bool,
    d: Option<Descriptor>,
) -> Option<(Option<WeatherModel>, int)> {
    let (ps, e) = precipitations(s, q);
    if ps.len() > 0 {
        Some(
            (
                Some(
                    WeatherModel {
                        intensity: i,
                        vicinity: vc,
                        descriptor: d,
                        condition: Some(ConditionModel::Precipitation(ps)),
                    },
                ),
                e,
            ),
        )
    } else if let Some((o, e)) = vocab::<Obscuration>(s, q) {
        Some(
            (
                Some(
                    WeatherModel {
                        intensity: i,
                        vicinity: vc,
                        descriptor: d,
                        condition: Some(ConditionModel::Obscuration(o)),
                    },
                ),
                e,
            ),
        )
    } else if let Some((o, e)) = vocab::<Other>(s, q) {
        Some(
            (
                Some(
                    WeatherModel {
                        intensity: i,
                        vicinity: vc,
                        descriptor: d,
                        condition: Some(ConditionModel::Other(o)),
                    },
                ),
                e,
            ),
        )
    } else if d is Some {
        Some((Some(WeatherModel { intensity: i, vicinity: vc, descriptor: d, condition: None }), q))
    } else {
        None
    }
}

pub fn weather_at(s: &[u8], p: usize, err: &mut ParseError) -> (r: Option<
    (Option<Weather>, usize),
>)
    requires
        p <= s@.len(),
        old(err).wf(s@.len() as int),
    ensures
        lift_weather(r) == weather(s@, p as int),
        r matches Some((_, e)) ==> p <= e <= s@.len(),
        final(err).wf(s@.len() as int),
{
    if let Some(e) = lit_at(s, p, "//") {
        return Some((None, e));
    }
    let (i, vc, d, q) = weather_prefix_at(s, p, err);
    let (ps, e) = precipitations_at(s, q, err);
    if ps.len() > 0 {
        let w = Weather {
            intensity: i,
            vicinity: vc,
            descriptor: d,
            condition: Some(Condition::Precipitation(ps)),
        };
        Some((Some(w), e))
    } else if let Some((o, e)) = vocab_at::<Obscuration>(s, q, Expected::Obscuration, err) {
        let w = Weather {
            intensity: i,
            vicinity: vc,
            descriptor: d,
            condition: Some(Condition::Obscuration(o)),
        };
        Some((Some(w), e))
    } else if let Some((o, e)) = vocab_at::<Other>(s, q, Expected::OtherCondition, err) {
        let w = Weather {
            intensity: i,
            vicinity: vc,
            descriptor: d,
            condition: Some(Condition::Other(o)),
        };
        Some((Some(w), e))
    } else if d.is_some() {
        Some((Some(Weather { intensity: i, vicinity: vc, descriptor: d, condition: None }), q))
    } else {
        None
    }
}

/// Recent weather: `RE` and a weather group.
pub open spec fn recent_weather(s: Seq<u8>, p: int) -> Option<(Option<WeatherModel>, int)> {
    if let Some(q) = lit(s, p, "RE"@) {
        weather(s, q)
    } else {
        None
    }
}

pub fn recent_weather_at(s: &[u8], p: usize, err: &mut ParseError) -> (r: Option<
    (Option<Weather>, usize),
>)
    requires
        p <= s@.len(),
        old(err).wf(s@.len() as int),
    ensures
        lift_weather(r) == recent_weather(s@, p as int),
        r matches Some((_, e)) ==> p <= e <= s@.len(),
        final(err).wf(s@.len() as int),
{
    if let Some(q) = lit_at(s, p, "RE") {
        weather_at(s, q, err)
    } else {
        None
    }
}

/// An optional cloud type; `///` is a type not assessed.
pub open spec fn cloud_type(s: Seq<u8>, p: int) -> (Option<CloudType>, int) {
    if let Some((t, e)) = vocab::<CloudType>(s, p) {
        (Some(t), e)
    } else if let Some(e) = lit(s, p, "///"@) {
        (None, e)
    } else {
        (None, p)
    }
}

fn cloud_type_at(s: &[u8], p: usize, err: &mut ParseError) -> (r: (Option<CloudType>, usize))
    requires
        p <= s@.len(),
        old(err).wf(s@.len() as int),
    ensures
        (r.0, r.1 as int) == cloud_type(s@, p as int),
        p <= r.1 <= s@.len(),
        final(err).wf(s@.len() as int),
{
    if let Some((t, e)) = vocab_at::<CloudType>(s, p, Expected::CloudType, err) {
        (Some(t), e)
    } else if let Some(e) = lit_at(s, p, "///") {
        (None, e)
    } else {
        (None, p)
    }
}

/// A cloud base of three digits, in hundreds of feet.
pub open spec fn cloud_base(v: u64) -> Length {
    Length::spec_new(100 * v, 1, LengthUnit::Foot)
}

/// A cloud layer: coverage, then a base (`///` when not measured) and a
/// type; either may be missing.
pub open spec fn cloud_cover(s: Seq<u8>, p: int) -> Option<(CloudCover, int)> {
    if let Some((c, q)) = vocab::<CloudCoverage>(s, p) {
        let q1 = whitespace(s, q);
        if let Some(q2) = lit(s, q1, "///"@) {
            let (t, e) = cloud_type(s, whitespace(s, q2));
            Some((CloudCover { coverage: c, base: None, cloud_type: t }, e))
        } else if let Some((b, q2)) = fixed_digits(s, q1, 3) {
            let q3 = whitespace(s, q2);
            if lit(s, q3, "//"@) is Some && whitespace_or_end(s, lit(s, q3, "//"@)->Some_0) {
                Some(
                    (
                        CloudCover { coverage: c, base: Some(cloud_base(b)), cloud_type: None },
                        lit(s, q3, "//"@)->Some_0,
                    ),
                )
            } else {
                let (t, e) = cloud_type(s, q3);
                Some((CloudCover { coverage: c, base: Some(cloud_base(b)), cloud_type: t }, e))
            }
        } else {
            Some((CloudCover { coverage: c, base: None, cloud_type: None }, q))
        }
    } else {
        None
    }
}

pub fn cloud_cover_at(s: &[u8], p: usize, err: &mut ParseError) -> (r: Option<(CloudCover, usize)>)
    requires
        p <= s@.len(),
        old(err).wf(s@.len() as int),
    ensures
        lift_pos(r) == cloud_cover(s@, p as int),
        r matches Some((_, e)) ==> p <= e <= s@.len(),
        final(err).wf(s@.len() as int),
{
    if let Some((c, q)) = vocab_at::<CloudCoverage>(s, p, Expected::CloudCoverage, err) {
        let q1 = whitespace_at(s, q, err);
        if let Some(q2) = lit_at(s, q1, "///") {
            let q3 = whitespace_at(s, q2, err);
            let (t, e) = cloud_type_at(s, q3, err);
            Some((CloudCover { coverage: c, base: None, cloud_type: t }, e))
        } else if let Some((b, q2)) = fixed_digits_at(s, q1, 3, err) {
            let q3 = whitespace_at(s, q2, err);
            let base = Length::new(100 * b, 1, LengthUnit::Foot);
            if let Some(q4) = lit_at(s, q3, "//") {
                if whitespace_or_end_at(s, q4) {
                    return Some((CloudCover { coverage: c, base: Some(base), cloud_type: None }, q4));
                }
            }
            let (t, e) = cloud_type_at(s, q3, err);
            Some((CloudCover { coverage: c, base: Some(base), cloud_type: t }, e))
        } else {
            Some((CloudCover { coverage: c, base: None, cloud_type: None }, q))
        }
    } else {
        None
    }
}

/// A temperature in whole degrees Celsius; `M` or `-` before it makes it
/// negative.
pub open spec fn temperature(s: Seq<u8>, p: int) -> Option<(ThermodynamicTemperature, int)> {
    let minus = byte_is(s, p, 'M') || byte_is(s, p, '-');
    let q = if minus {
        p + 1
    } else {
        p
    };
    if let Some((v, e)) = number(s, q) {
        Some(
            (
                ThermodynamicTemperature::spec_from_celsius(
                    if minus {
                        -(v as int)
                    } else {
                        v as int
                    },
                ),
                e,
            ),
        )
    } else {
        None
    }
}

fn temperature_at(s: &[u8], p: usize, err: &mut ParseError) -> (r: Option<
    (ThermodynamicTemperature, usize),
>)
    requires
        p <= s@.len(),
        old(err).wf(s@.len() as int),
    ensures
        lift_pos(r) == temperature(s@, p as int),
        r matches Some((_, e)) ==> p <= e <= s@.len(),
        final(err).wf(s@.len() as int),
{
    let minus = byte_at(s, p, 'M') || byte_at(s, p, '-');
    if !minus {
        err.note(p, Expected::Minus);
    }
    let q = if minus {
        p + 1
    } else {
        p
    };
    if let Some((v, e)) = number_at(s, q, err) {
        let c: i64 = if minus {
            -(v as i64)
        } else {
            v as i64
        };
        Some((ThermodynamicTemperature::from_celsius(c), e))
    } else {
        None
    }
}

/// `/` or `.` between air temperature and dewpoint.
pub open spec fn temperature_separator(s: Seq<u8>, p: int) -> Option<int> {
    if byte_is(s, p, '/') || byte_is(s, p, '.') {
        Some(p + 1)
    } else {
        None
    }
}

/// Air temperature and dewpoint. A dewpoint of `XX` or `//`, or none at
/// all, is not reported; `XX/XX` is no temperatures. A visibility unit may
/// not follow.
pub open spec fn temperatures(s: Seq<u8>, p: int) -> Option<(Option<Temperatures>, int)> {
    if let Some((air, q1)) = temperature(s, p) {
        if let Some(q2) = temperature_separator(s, q1) {
            let placeholder = if lit(s, q2, "XX"@) is Some {
                lit(s, q2, "XX"@)
            } else {
                lit(s, q2, "//"@)
            };
            if placeholder is Some && visibility_unit(s, placeholder->Some_0) is None {
                Some((Some(Temperatures { air, dewpoint: None }), placeholder->Some_0))
            } else {
                let (dewpoint, e) = match temperature(s, q2) {
                    Some((t, e)) => (Some(t), e),
                    None => (None, q2),
                };
                if visibility_unit(s, e) is None {
                    Some((Some(Temperatures { air, dewpoint }), e))
                } else {
                    missing_temperatures(s, p)
                }
            }
        } else {
            missing_temperatures(s, p)
        }
    } else {
        missing_temperatures(s, p)
    }
}

/// `XX/XX`: no temperatures.
pub open spec fn missing_temperatures(s: Seq<u8>, p: int) -> Option<(Option<Temperatures>, int)> {
    if let Some(e) = lit(s, p, "XX/XX"@) {
        Some((None, e))
    } else {
        None
    }
}

pub fn temperatures_at(s: &[u8], p: usize, err: &mut ParseError) -> (r: Option<
    (Option<Temperatures>, usize),
>)
    requires
        p <= s@.len(),
        old(err).wf(s@.len() as int),
    ensures
        lift_pos(r) == temperatures(s@, p as int),
        r matches Some((_, e)) ==> p <= e <= s@.len(),
        final(err).wf(s@.len() as int),
{
    if let Some((air, q1)) = temperature_at(s, p, err) {
        if byte_at(s, q1, '/') || byte_at(s, q1, '.') {
            let q2 = q1 + 1;
            let placeholder = if let Some(e) = lit_at(s, q2, "XX") {
                Some(e)
            } else {
                lit_at(s, q2, "//")
            };
            let mut scratch = ParseError::start();
            if let Some(e) = placeholder {
                if visibility_unit_at(s, e, &mut scratch).is_none() {
                    return Some((Some(Temperatures { air, dewpoint: None }), e));
                }
            }
            let (dewpoint, e) = match temperature_at(s, q2, err) {
                Some((t, e)) => (Some(t), e),
                None => (None, q2),
            };
            if visibility_unit_at(s, e, &mut scratch).is_none() {
                return Some((Some(Temperatures { air, dewpoint }), e));
            }
        }
    }
    if let Some(e) = lit_at(s, p, "XX/XX") {
        Some((None, e))
    } else {
        None
    }
}

/// A number with an optional decimal fraction, as a numerator and a power
/// of ten.
pub open spec fn decimal(s: Seq<u8>, p: int) -> Option<((u64, u64), int)> {
    if let Some((w, q)) = number(s, p) {
        if byte_is(s, q, '.') && number(s, q + 1) is Some {
            let (f, e) = number(s, q + 1)->Some_0;
            let k = pow10((e - (q + 1)) as nat);
            Some((((w * k + f) as u64, k as u64), e))
        } else {
            Some(((w, 1), q))
        }
    } else {
        None
    }
}

fn decimal_at(s: &[u8], p: usize, err: &mut ParseError) -> (r: Option<((u64, u64), usize)>)
    requires
        p <= s@.len(),
        old(err).wf(s@.len() as int),
    ensures
        lift_pos(r) == decimal(s@, p as int),
        r matches Some(((n, d), e)) ==> p <= e <= s@.len() && n <= 1_000_000_000_000
            && 1 <= d <= 1_000_000,
        final(err).wf(s@.len() as int),
{
    if let Some((w, q)) = number_at(s, p, err) {
        if byte_at(s, q, '.') {
            if let Some((f, e)) = number_at(s, q + 1, err) {
                let k = pow10_exec(e - (q + 1));
                assert(w * k + f <= 999_999 * 1_000_000 + 999_999) by (nonlinear_arith)
                    requires
                        w < 1_000_000,
                        k <= 1_000_000,
                        f < 1_000_000,
                ;
                return Some(((w * k + f, k), e));
            }
        }
        Some(((w, 1), q))
    } else {
        None
    }
}

fn pow10_exec(k: usize) -> (r: u64)
    requires
        k <= 6,
    ensures
        r == pow10(k as nat),
        1 <= r <= 1_000_000,
{
    let mut r: u64 = 1;
    let mut i: usize = 0;
    while i < k
        invariant
            0 <= i <= k,
            k <= 6,
            r == pow10(i as nat),
            1 <= r <= pow10(i as nat),
            r <= 1_000_000,
        decreases k - i,
    {
        proof {
            reveal_with_fuel(pow10, 7);
        }
        r = r * 10;
        i += 1;
    }
    r
}

/// Unit of a pressure: `QFE`, `QNH` or `Q` for hectopascals, `A` for
/// hundredths of inches of mercury.
pub open spec fn pressure_unit(s: Seq<u8>, p: int) -> Option<(PressureUnit, int)> {
    if let Some(e) = lit(s, p, "QFE"@) {
        Some((PressureUnit::Hectopascal, e))
    } else if let Some(e) = lit(s, p, "QNH"@) {
        Some((PressureUnit::Hectopascal, e))
    } else if let Some(e) = lit(s, p, "Q"@) {
        Some((PressureUnit::Hectopascal, e))
    } else if let Some(e) = lit(s, p, "A"@) {
        Some((PressureUnit::InchOfMercury, e))
    } else {
        None
    }
}

fn pressure_unit_at(s: &[u8], p: usize, err: &mut ParseError) -> (r: Option<(PressureUnit, usize)>)
    requires
        p <= s@.len(),
        old(err).wf(s@.len() as int),
    ensures
        lift_pos(r) == pressure_unit(s@, p as int),
        r matches Some((u, e)) ==> p <= e <= s@.len() && u != PressureUnit::Pascal,
        final(err).wf(s@.len() as int),
{
    if let Some(e) = lit_at(s, p, "QFE") {
        Some((PressureUnit::Hectopascal, e))
    } else if let Some(e) = lit_at(s, p, "QNH") {
        Some((PressureUnit::Hectopascal, e))
    } else if let Some(e) = lit_at(s, p, "Q") {
        Some((PressureUnit::Hectopascal, e))
    } else if let Some(e) = lit_at(s, p, "A") {
        Some((PressureUnit::InchOfMercury, e))
    } else {
        err.note(p, Expected::PressureUnit);
        None
    }
}

/// The pressure `n / d` read with `unit`: inches of mercury are written in
/// hundredths.
pub open spec fn pressure_reading(n: u64, d: u64, unit: PressureUnit) -> Pressure {
    if unit == PressureUnit::InchOfMercury {
        Pressure::spec_new(n as int, 100 * d, unit)
    } else {
        Pressure::spec_new(n as int, d as int, unit)
    }
}

/// A pressure group: unit and value; `////` or `NIL` for the value is a
/// pressure not reported.
pub open spec fn pressure(s: Seq<u8>, p: int) -> Option<(Option<Pressure>, int)> {
    if let Some((u, q1)) = pressure_unit(s, p) {
        let q2 = whitespace(s, q1);
        if let Some(((n, d), e)) = decimal(s, q2) {
            Some((Some(pressure_reading(n, d, u)), e))
        } else if let Some(e) = lit(s, q2, "////"@) {
            Some((None, e))
        } else if let Some(e) = lit(s, q2, "NIL"@) {
            Some((None, e))
        } else {
            None
        }
    } else {
        None
    }
}

pub fn pressure_at(s: &[u8], p: usize, err: &mut ParseError) -> (r: Option<
    (Option<Pressure>, usize),
>)
    requires
        p <= s@.len(),
        old(err).wf(s@.len() as int),
    ensures
        lift_pos(r) == pressure(s@, p as int),
        r matches Some((_, e)) ==> p <= e <= s@.len(),
        final(err).wf(s@.len() as int),
{
    if let Some((u, q1)) = pressure_unit_at(s, p, err) {
        let q2 = whitespace_at(s, q1, err);
        if let Some(((n, d), e)) = decimal_at(s, q2, err) {
            let v = if u == PressureUnit::InchOfMercury {
                Pressure::new(n, 100 * d, u)
            } else {
                Pressure::new(n, d, u)
            };
            Some((Some(v), e))
        } else if let Some(e) = lit_at(s, q2, "////") {
            Some((None, e))
        } else if let Some(e) = lit_at(s, q2, "NIL") {
            Some((None, e))
        } else {
            None
        }
    } else {
        None
    }
}

/// A number with a required decimal point, in millimetres.
pub open spec fn rainfall_amount(s: Seq<u8>, p: int) -> Option<(Length, int)> {
    if let Some((w, q)) = number(s, p) {
        if byte_is(s, q, '.') && number(s, q + 1) is Some {
            match decimal(s, p) {
                Some(((n, d), e)) => Some((Length::spec_new(n as int, d as int, LengthUnit::Millimetre), e)),
                None => None,
            }
        } else {
            None
        }
    } else {
        None
    }
}

fn rainfall_amount_at(s: &[u8], p: usize, err: &mut ParseError) -> (r: Option<(Length, usize)>)
    requires
        p <= s@.len(),
        old(err).wf(s@.len() as int),
    ensures
        lift_pos(r) == rainfall_amount(s@, p as int),
        r matches Some((_, e)) ==> p <= e <= s@.len(),
        final(err).wf(s@.len() as int),
{
    if let Some((_, q)) = number_at(s, p, err) {
        if byte_at(s, q, '.') {
            if number_at(s, q + 1, err).is_some() {
                if let Some(((n, d), e)) = decimal_at(s, p, err) {
                    return Some((Length::new(n, d, LengthUnit::Millimetre), e));
                }
            }
        }
    }
    None
}

/// Rainfall: `RF`, the last ten minutes, a slash, and since 09:00.
pub open spec fn accumulated_rainfall(s: Seq<u8>, p: int) -> Option<(AccumulatedRainfall, int)> {
    if let Some(q1) = lit(s, p, "RF"@) {
        if let Some((recent, q2)) = rainfall_amount(s, q1) {
            if byte_is(s, q2, '/') {
                if let Some((past, e)) = rainfall_amount(s, q2 + 1) {
                    Some((AccumulatedRainfall { recent, past }, e))
                } else {
                    None
                }
            } else {
                None
            }
        } else {
            None
        }
    } else {
        None
    }
}

pub fn accumulated_rainfall_at(s: &[u8], p: usize, err: &mut ParseError) -> (r: Option<
    (AccumulatedRainfall, usize),
>)
    requires
        p <= s@.len(),
        old(err).wf(s@.len() as int),
    ensures
        lift_pos(r) == accumulated_rainfall(s@, p as int),
        r matches Some((_, e)) ==> p <= e <= s@.len(),
        final(err).wf(s@.len() as int),
{
    if let Some(q1) = lit_at(s, p, "RF") {
        if let Some((recent, q2)) = rainfall_amount_at(s, q1, err) {
            if byte_at(s, q2, '/') {
                if let Some((past, e)) = rainfall_amount_at(s, q2 + 1, err) {
                    return Some((AccumulatedRainfall { recent, past }, e));
                }
            }
        }
    }
    None
}

/// Colour state: `BLACK` if the field is closed, the current colour, and
/// the next colour if given.
pub open spec fn color(s: Seq<u8>, p: int) -> Option<(Color, int)> {
    let (black, q1) = match lit(s, p, "BLACK"@) {
        Some(e) => (true, e),
        None => (false, p),
    };
    let q2 = whitespace(s, q1);
    if let Some((current, q3)) = vocab::<ColorState>(s, q2) {
        let q4 = whitespace(s, q3);
        match vocab::<ColorState>(s, q4) {
            Some((next, e)) => Some(
                (Color { is_black: black, current_color: current, next_color: Some(next) }, e),
            ),
            None => Some(
                (Color { is_black: black, current_color: current, next_color: None }, q4),
            ),
        }
    } else {
        None
    }
}

pub fn color_at(s: &[u8], p: usize, err: &mut ParseError) -> (r: Option<(Color, usize)>)
    requires
        p <= s@.len(),
        old(err).wf(s@.len() as int),
    ensures
        lift_pos(r) == color(s@, p as int),
        r matches Some((_, e)) ==> p <= e <= s@.len(),
        final(err).wf(s@.len() as int),
{
    let (black, q1) = match lit_at(s, p, "BLACK") {
        Some(e) => (true, e),
        None => (false, p),
    };
    let q2 = whitespace_at(s, q1, err);
    if let Some((current, q3)) = vocab_at::<ColorState>(s, q2, Expected::ColorState, err) {
        let q4 = whitespace_at(s, q3, err);
        match vocab_at::<ColorState>(s, q4, Expected::ColorState, err) {
            Some((next, e)) => Some(
                (Color { is_black: black, current_color: current, next_color: Some(next) }, e),
            ),
            None => Some(
                (Color { is_black: black, current_color: current, next_color: None }, q4),
            ),
        }
    } else {
        None
    }
}

/// Sea surface temperature after `W`: `//` when not measured.
pub open spec fn water_temperature(s: Seq<u8>, p: int) -> Option<
    (Option<ThermodynamicTemperature>, int),
> {
    if let Some(e) = lit(s, p, "//"@) {
        Some((None, e))
    } else if let Some((v, e)) = number(s, p) {
        Some((Some(ThermodynamicTemperature::spec_from_celsius(v as int)), e))
    } else {
        None
    }
}

fn water_temperature_at(s: &[u8], p: usize, err: &mut ParseError) -> (r: Option<
    (Option<ThermodynamicTemperature>, usize),
>)
    requires
        p <= s@.len(),
        old(err).wf(s@.len() as int),
    ensures
        lift_pos(r) == water_temperature(s@, p as int),
        r matches Some((_, e)) ==> p <= e <= s@.len(),
        final(err).wf(s@.len() as int),
{
    if let Some(e) = lit_at(s, p, "//") {
        Some((None, e))
    } else if let Some((v, e)) = number_at(s, p, err) {
        Some((Some(ThermodynamicTemperature::from_celsius(v as i64)), e))
    } else {
        None
    }
}

/// Sea conditions: `W`, temperature, slash, then `S` and the state of the
/// surface (`/` when not observed), or `H` and the significant wave height
/// in decimetres (slashes when not measured).
pub open spec fn water_conditions(s: Seq<u8>, p: int) -> Option<(WaterConditions, int)> {
    if byte_is(s, p, 'W') {
        if let Some((t, q1)) = water_temperature(s, p + 1) {
            if byte_is(s, q1, '/') && byte_is(s, q1 + 1, 'S') {
                let q2 = q1 + 2;
                if let Some(e) = lit(s, q2, "/"@) {
                    Some(
                        (
                            WaterConditions {
                                temperature: t,
                                surface_state: None,
                                significant_wave_height: None,
                            },
                            e,
                        ),
                    )
                } else if let Some((st, e)) = vocab::<WaterSurfaceState>(s, q2) {
                    Some(
                        (
                            WaterConditions {
                                temperature: t,
                                surface_state: Some(st),
                                significant_wave_height: None,
                            },
                            e,
                        ),
                    )
                } else {
                    None
                }
            } else if byte_is(s, q1, '/') && byte_is(s, q1 + 1, 'H') {
                let q2 = q1 + 2;
                if byte_is(s, q2, '/') {
                    Some(
                        (
                            WaterConditions {
                                temperature: t,
                                surface_state: None,
                                significant_wave_height: None,
                            },
                            run_end(s, q2, '/'),
                        ),
                    )
                } else if let Some((h, e)) = number(s, q2) {
                    Some(
                        (
                            WaterConditions {
                                temperature: t,
                                surface_state: None,
                                significant_wave_height: Some(
                                    Length::spec_new(h as int, 1, LengthUnit::Decimetre),
                                ),
                            },
                            e,
                        ),
                    )
                } else {
                    None
                }
            } else {
                None
            }
        } else {
            None
        }
    } else {
        None
    }
}

pub fn water_conditions_at(s: &[u8], p: usize, err: &mut ParseError) -> (r: Option<
    (WaterConditions, usize),
>)
    requires
        p <= s@.len(),
        old(err).wf(s@.len() as int),
    ensures
        lift_pos(r) == water_conditions(s@, p as int),
        r matches Some((_, e)) ==> p <= e <= s@.len(),
        final(err).wf(s@.len() as int),
{
    if !byte_at(s, p, 'W') {
        return None;
    }
    if let Some((t, q1)) = water_temperature_at(s, p + 1, err) {
        if byte_at(s, q1, '/') && byte_at(s, q1 + 1, 'S') {
            let q2 = q1 + 2;
            if let Some(e) = lit_at(s, q2, "/") {
                Some(
                    (
                        WaterConditions {
                            temperature: t,
                            surface_state: None,
                            significant_wave_height: None,
                        },
                        e,
                    ),
                )
            } else if let Some((st, e)) = vocab_at::<WaterSurfaceState>(s, q2, Expected::Digit, err) {
                Some(
                    (
                        WaterConditions {
                            temperature: t,
                            surface_state: Some(st),
                            significant_wave_height: None,
                        },
                        e,
                    ),
                )
            } else {
                None
            }
        } else if byte_at(s, q1, '/') && byte_at(s, q1 + 1, 'H') {
            let q2 = q1 + 2;
            if byte_at(s, q2, '/') {
                Some(
                    (
                        WaterConditions {
                            temperature: t,
                            surface_state: None,
                            significant_wave_height: None,
                        },
                        run_end_at(s, q2, '/'),
                    ),
                )
            } else if let Some((h, e)) = number_at(s, q2, err) {
                Some(
                    (
                        WaterConditions {
                            temperature: t,
                            surface_state: None,
                            significant_wave_height: Some(
                                Length::new(h, 1, LengthUnit::Decimetre),
                            ),
                        },
                        e,
                    ),
                )
            } else {
                None
            }
        } else {
            None
        }
    } else {
        None
    }
}

} // verus!

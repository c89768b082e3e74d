//! Repeated fields, trend forecasts and the whole report.
use vstd::prelude::*;

use crate::failure::{Expected, ParseError};
use crate::fields::{icao_identifier_failure, observation_time_failure, report_name_failure};
use crate::text::whitespace_failure;
use crate::fields::{
    cloud_cover, cloud_cover_at, color, color_at, icao_identifier, icao_identifier_at,
    observation_flag, observation_flag_at, observation_time, observation_time_at, pressure,
    pressure_at, recent_weather, recent_weather_at, report_name, report_name_at, runway_report,
    runway_report_at, runway_visibility, runway_visibility_at, temperatures, temperatures_at,
    accumulated_rainfall, accumulated_rainfall_at, validity_range, validity_range_at, visibility,
    visibility_at, vocab, vocab_at, water_conditions, water_conditions_at, weather, weather_at, wind,
    wind_at, military_time, military_time_at,
};
use crate::text::{
    byte_at, byte_is, lift_pos, lit, lit_at, run_end, run_end_at, whitespace, whitespace_at,
};
use crate::tokens::{
    trend_models, weather_models, AccumulatedRainfall, CloudCover, Color, ColorState, DateTime,
    MetarModel, MetarReport, ObservationFlag, RunwayReport, RunwayVisibility, Span, Temperatures,
    TimeRange, Trend, TrendModel, TrendReport, TrendReportModel, TrendTime, Visibility,
    WaterConditions, Weather, WeatherModel, Wind,
};
use crate::units::Pressure;

verus! {

/// A field rule that may be repeated: it yields a value, or nothing for a
/// field written as not reported.
pub trait Rule: Sized {
    type Out;

    type Model;

    /// What the rule yields at `p`, and where it ends.
    spec fn spec_parse(s: Seq<u8>, p: int) -> Option<(Option<Self::Model>, int)>;

    /// What a value holds.
    spec fn model(v: Self::Out) -> Self::Model;

    fn parse_at(s: &[u8], p: usize, err: &mut ParseError) -> (r: Option<(Option<Self::Out>, usize)>)
        requires
            p <= s@.len(),
            old(err).wf(s@.len() as int),
        ensures
            match r {
                Some((Some(v), e)) => Self::spec_parse(s@, p as int) == Some(
                    (Some(Self::model(v)), e as int),
                ),
                Some((None, e)) => Self::spec_parse(s@, p as int) == Some(
                    (None::<Self::Model>, e as int),
                ),
                None => Self::spec_parse(s@, p as int) is None,
            },
            r matches Some((_, e)) ==> p <= e <= s@.len(),
            final(err).wf(s@.len() as int),
    ;
}

/// The models of a list of values.
pub open spec fn models<R: Rule>(v: Seq<R::Out>) -> Seq<R::Model> {
    v.map_values(|x: R::Out| R::model(x))
}

/// Occurrences of a rule separated by whitespace, from `p`: the values
/// yielded, in order, and the end of the last occurrence. The first
/// occurrence stands at `p`, each later one after a separator; a separator
/// not followed by an occurrence is left alone.
pub open spec fn repeated<R: Rule>(s: Seq<u8>, p: int, first: bool) -> (Seq<R::Model>, int)
    decreases s.len() - p,
{
    let start = if first {
        p
    } else {
        whitespace(s, p)
    };
    match R::spec_parse(s, start) {
        Some((v, q)) => if p < q <= s.len() {
            let (rest, e) = repeated::<R>(s, q, false);
            (
                match v {
                    Some(x) => seq![x] + rest,
                    None => rest,
                },
                e,
            )
        } else {
            (Seq::empty(), p)
        },
        None => (Seq::empty(), p),
    }
}

/// Reads occurrences of a rule separated by whitespace.
pub fn repeated_at<R: Rule>(s: &[u8], p: usize, err: &mut ParseError) -> (r: (Vec<R::Out>, usize))
    requires
        p <= s@.len(),
        old(err).wf(s@.len() as int),
    ensures
        (models::<R>(r.0@), r.1 as int) == repeated::<R>(s@, p as int, true),
        p <= r.1 <= s@.len(),
        final(err).wf(s@.len() as int),
{
    let mut v: Vec<R::Out> = Vec::new();
    let mut i = p;
    let mut first = true;
    loop
        invariant
            p <= i <= s@.len(),
            repeated::<R>(s@, p as int, true) == (models::<R>(v@) + repeated::<R>(
                s@,
                i as int,
                first,
            ).0, repeated::<R>(s@, i as int, first).1),
            err.wf(s@.len() as int),
        ensures
            p <= i <= s@.len(),
            repeated::<R>(s@, p as int, true) == (models::<R>(v@), i as int),
        decreases s@.len() - i,
    {
        let start = if first {
            i
        } else {
            whitespace_at(s, i, err)
        };
        match R::parse_at(s, start, err) {
            Some((x, q)) => {
                if q <= i {
                    assert(repeated::<R>(s@, i as int, first) == (Seq::<R::Model>::empty(), i as int));
                    assert(models::<R>(v@) + Seq::<R::Model>::empty() =~= models::<R>(v@));
                    break;
                }
                let ghost before = v@;
                let ghost rest = repeated::<R>(s@, q as int, false).0;
                match x {
                    Some(x) => {
                        let ghost m = R::model(x);
                        v.push(x);
                        assert(models::<R>(v@) =~= models::<R>(before).push(m));
                        assert(models::<R>(before) + (seq![m] + rest) =~= models::<R>(v@) + rest);
                    },
                    None => {},
                }
                i = q;
                first = false;
            },
            None => {
                assert(repeated::<R>(s@, i as int, first) == (Seq::<R::Model>::empty(), i as int));
                assert(models::<R>(v@) + Seq::<R::Model>::empty() =~= models::<R>(v@));
                break;
            },
        }
    }
    (v, i)
}

/// Observation flags.
pub struct FlagRule;

impl Rule for FlagRule {
    type Out = ObservationFlag;

    type Model = ObservationFlag;

    open spec fn spec_parse(s: Seq<u8>, p: int) -> Option<(Option<ObservationFlag>, int)> {
        match observation_flag(s, p) {
            Some((f, e)) => Some((Some(f), e)),
            None => None,
        }
    }

    open spec fn model(v: ObservationFlag) -> ObservationFlag {
        v
    }

    fn parse_at(s: &[u8], p: usize, err: &mut ParseError) -> (r: Option<
        (Option<ObservationFlag>, usize),
    >) {
        match observation_flag_at(s, p, err) {
            Some((f, e)) => Some((Some(f), e)),
            None => None,
        }
    }
}

/// Runway visual ranges.
pub struct RunwayVisibilityRule;

impl Rule for RunwayVisibilityRule {
    type Out = RunwayVisibility;

    type Model = RunwayVisibility;

    open spec fn spec_parse(s: Seq<u8>, p: int) -> Option<(Option<RunwayVisibility>, int)> {
        runway_visibility(s, p)
    }

    open spec fn model(v: RunwayVisibility) -> RunwayVisibility {
        v
    }

    fn parse_at(s: &[u8], p: usize, err: &mut ParseError) -> (r: Option<
        (Option<RunwayVisibility>, usize),
    >) {
        runway_visibility_at(s, p, err)
    }
}

/// Runway state reports.
pub struct RunwayReportRule;

impl Rule for RunwayReportRule {
    type Out = RunwayReport;

    type Model = RunwayReport;

    open spec fn spec_parse(s: Seq<u8>, p: int) -> Option<(Option<RunwayReport>, int)> {
        match runway_report(s, p) {
            Some((r, e)) => Some((Some(r), e)),
            None => None,
        }
    }

    open spec fn model(v: RunwayReport) -> RunwayReport {
        v
    }

    fn parse_at(s: &[u8], p: usize, err: &mut ParseError) -> (r: Option<
        (Option<RunwayReport>, usize),
    >) {
        match runway_report_at(s, p, err) {
            Some((r, e)) => Some((Some(r), e)),
            None => None,
        }
    }
}

/// Current weather.
pub struct WeatherRule;

impl Rule for WeatherRule {
    type Out = Weather;

    type Model = WeatherModel;

    open spec fn spec_parse(s: Seq<u8>, p: int) -> Option<(Option<WeatherModel>, int)> {
        weather(s, p)
    }

    open spec fn model(v: Weather) -> WeatherModel {
        v@
    }

    fn parse_at(s: &[u8], p: usize, err: &mut ParseError) -> (r: Option<(Option<Weather>, usize)>) {
        weather_at(s, p, err)
    }
}

/// Recent weather.
pub struct RecentWeatherRule;

impl Rule for RecentWeatherRule {
    type Out = Weather;

    type Model = WeatherModel;

    open spec fn spec_parse(s: Seq<u8>, p: int) -> Option<(Option<WeatherModel>, int)> {
        recent_weather(s, p)
    }

    open spec fn model(v: Weather) -> WeatherModel {
        v@
    }

    fn parse_at(s: &[u8], p: usize, err: &mut ParseError) -> (r: Option<(Option<Weather>, usize)>) {
        recent_weather_at(s, p, err)
    }
}

/// Cloud layers.
pub struct CloudRule;

impl Rule for CloudRule {
    type Out = CloudCover;

    type Model = CloudCover;

    open spec fn spec_parse(s: Seq<u8>, p: int) -> Option<(Option<CloudCover>, int)> {
        match cloud_cover(s, p) {
            Some((c, e)) => Some((Some(c), e)),
            None => None,
        }
    }

    open spec fn model(v: CloudCover) -> CloudCover {
        v
    }

    fn parse_at(s: &[u8], p: usize, err: &mut ParseError) -> (r: Option<(Option<CloudCover>, usize)>) {
        match cloud_cover_at(s, p, err) {
            Some((c, e)) => Some((Some(c), e)),
            None => None,
        }
    }
}

/// Pressure groups.
pub struct PressureRule;

impl Rule for PressureRule {
    type Out = Pressure;

    type Model = Pressure;

    open spec fn spec_parse(s: Seq<u8>, p: int) -> Option<(Option<Pressure>, int)> {
        pressure(s, p)
    }

    open spec fn model(v: Pressure) -> Pressure {
        v
    }

    fn parse_at(s: &[u8], p: usize, err: &mut ParseError) -> (r: Option<(Option<Pressure>, usize)>) {
        pressure_at(s, p, err)
    }
}

/// Trend forecasts.
pub struct TrendRule;

impl Rule for TrendRule {
    type Out = Trend;

    type Model = TrendModel;

    open spec fn spec_parse(s: Seq<u8>, p: int) -> Option<(Option<TrendModel>, int)> {
        match trend(s, p) {
            Some((t, e)) => Some((Some(t), e)),
            None => None,
        }
    }

    open spec fn model(v: Trend) -> TrendModel {
        v@
    }

    fn parse_at(s: &[u8], p: usize, err: &mut ParseError) -> (r: Option<(Option<Trend>, usize)>) {
        match trend_at(s, p, err) {
            Some((t, e)) => Some((Some(t), e)),
            None => None,
        }
    }
}

/// A value that may be missing, and where the text continues.
pub open spec fn optional<T>(r: Option<(T, int)>, p: int) -> (Option<T>, int) {
    match r {
        Some((v, e)) => (Some(v), e),
        None => (None, p),
    }
}

/// A field that may be missing or written as not reported.
pub open spec fn optional_field<T>(r: Option<(Option<T>, int)>, p: int) -> (Option<T>, int) {
    match r {
        Some((v, e)) => (v, e),
        None => (None, p),
    }
}

/// When a trend applies: `FM` and `TL` times, or one of `AT`, `FM`, `TL`
/// and a time.
pub open spec fn trend_time(s: Seq<u8>, p: int) -> Option<(TrendTime, int)> {
    if let Some((range, e)) = trend_time_range(s, p) {
        Some((range, e))
    } else if let Some(q) = lit(s, p, "AT"@) {
        match military_time(s, q) {
            Some((t, e)) => Some((TrendTime::At(t), e)),
            None => None,
        }
    } else if let Some(q) = lit(s, p, "FM"@) {
        match military_time(s, q) {
            Some((t, e)) => Some((TrendTime::From(t), e)),
            None => None,
        }
    } else if let Some(q) = lit(s, p, "TL"@) {
        match military_time(s, q) {
            Some((t, e)) => Some((TrendTime::Until(t), e)),
            None => None,
        }
    } else {
        None
    }
}

/// `FM` and a time, a separator, `TL` and a time.
pub open spec fn trend_time_range(s: Seq<u8>, p: int) -> Option<(TrendTime, int)> {
    if let Some(q1) = lit(s, p, "FM"@) {
        if let Some((from, q2)) = military_time(s, q1) {
            if let Some(q3) = lit(s, whitespace(s, q2), "TL"@) {
                if let Some((until, e)) = military_time(s, q3) {
                    Some((TrendTime::Range { from, until }, e))
                } else {
                    None
                }
            } else {
                None
            }
        } else {
            None
        }
    } else {
        None
    }
}

fn trend_time_range_at(s: &[u8], p: usize, err: &mut ParseError) -> (r: Option<
    (TrendTime, usize),
>)
    requires
        p <= s@.len(),
        old(err).wf(s@.len() as int),
    ensures
        lift_pos(r) == trend_time_range(s@, p as int),
        r matches Some((_, e)) ==> p <= e <= s@.len(),
        final(err).wf(s@.len() as int),
{
    if let Some(q1) = lit_at(s, p, "FM") {
        if let Some((from, q2)) = military_time_at(s, q1, err) {
            let w = whitespace_at(s, q2, err);
            if let Some(q3) = lit_at(s, w, "TL") {
                if let Some((until, e)) = military_time_at(s, q3, err) {
                    return Some((TrendTime::Range { from, until }, e));
                }
            }
        }
    }
    None
}

fn trend_time_at(s: &[u8], p: usize, err: &mut ParseError) -> (r: Option<(TrendTime, usize)>)
    requires
        p <= s@.len(),
        old(err).wf(s@.len() as int),
    ensures
        lift_pos(r) == trend_time(s@, p as int),
        r matches Some((_, e)) ==> p <= e <= s@.len(),
        final(err).wf(s@.len() as int),
{
    if let Some((range, e)) = trend_time_range_at(s, p, err) {
        Some((range, e))
    } else if let Some(q) = lit_at(s, p, "AT") {
        match military_time_at(s, q, err) {
            Some((t, e)) => Some((TrendTime::At(t), e)),
            None => None,
        }
    } else if let Some(q) = lit_at(s, p, "FM") {
        match military_time_at(s, q, err) {
            Some((t, e)) => Some((TrendTime::From(t), e)),
            None => None,
        }
    } else if let Some(q) = lit_at(s, p, "TL") {
        match military_time_at(s, q, err) {
            Some((t, e)) => Some((TrendTime::Until(t), e)),
            None => None,
        }
    } else {
        err.note(p, Expected::TrendTimeType);
        None
    }
}

/// The forecast conditions after `BECMG` or `TEMPO`: time, wind,
/// visibility, weather (then `NSW` if written), clouds and colour state,
/// each separated by whitespace and each optional.
pub open spec fn trend_report(s: Seq<u8>, p: int) -> (TrendReportModel, int) {
    let q1 = whitespace(s, p);
    let (time, q2) = optional(trend_time(s, q1), q1);
    let q3 = whitespace(s, q2);
    let (w, q4) = optional_field(wind(s, q3), q3);
    let q5 = whitespace(s, q4);
    let (v, q6) = optional_field(visibility(s, q5), q5);
    let q7 = whitespace(s, q6);
    let (wx, q8) = repeated::<WeatherRule>(s, q7, true);
    let q9 = whitespace(s, q8);
    let q10 = match lit(s, q9, "NSW"@) {
        Some(e) => e,
        None => q9,
    };
    let q11 = whitespace(s, q10);
    let (clouds, q12) = repeated::<CloudRule>(s, q11, true);
    let q13 = whitespace(s, q12);
    let (c, q14) = optional(vocab::<ColorState>(s, q13), q13);
    (
        TrendReportModel {
            time,
            wind: w,
            visibility: v,
            weather: wx,
            cloud_cover: clouds,
            color_state: c,
        },
        whitespace(s, q14),
    )
}

fn trend_report_at(s: &[u8], p: usize, err: &mut ParseError) -> (r: (TrendReport, usize))
    requires
        p <= s@.len(),
        old(err).wf(s@.len() as int),
    ensures
        (r.0@, r.1 as int) == trend_report(s@, p as int),
        p <= r.1 <= s@.len(),
        final(err).wf(s@.len() as int),
{
    let q1 = whitespace_at(s, p, err);
    let (time, q2) = match trend_time_at(s, q1, err) {
        Some((t, e)) => (Some(t), e),
        None => (None, q1),
    };
    let q3 = whitespace_at(s, q2, err);
    let (w, q4) = match wind_at(s, q3, err) {
        Some((w, e)) => (w, e),
        None => (None, q3),
    };
    let q5 = whitespace_at(s, q4, err);
    let (v, q6) = match visibility_at(s, q5, err) {
        Some((v, e)) => (v, e),
        None => (None, q5),
    };
    let q7 = whitespace_at(s, q6, err);
    let (wx, q8) = repeated_at::<WeatherRule>(s, q7, err);
    let q9 = whitespace_at(s, q8, err);
    let q10 = match lit_at(s, q9, "NSW") {
        Some(e) => e,
        None => q9,
    };
    let q11 = whitespace_at(s, q10, err);
    let (clouds, q12) = repeated_at::<CloudRule>(s, q11, err);
    let q13 = whitespace_at(s, q12, err);
    let (c, q14) = match vocab_at::<ColorState>(s, q13, Expected::ColorState, err) {
        Some((c, e)) => (Some(c), e),
        None => (None, q13),
    };
    let e = whitespace_at(s, q14, err);
    proof {
        assert(weather_models(wx@) =~= models::<WeatherRule>(wx@));
        assert(clouds@ =~= models::<CloudRule>(clouds@));
    }
    (
        TrendReport {
            time,
            wind: w,
            visibility: v,
            weather: wx,
            cloud_cover: clouds,
            color_state: c,
        },
        e,
    )
}

/// A trend: `NOSIG` or `NSG`, or `BECMG` or `TEMPO` and what is forecast.
pub open spec fn trend(s: Seq<u8>, p: int) -> Option<(TrendModel, int)> {
    if let Some(e) = lit(s, p, "NOSIG"@) {
        Some((TrendModel::NoSignificantChange, e))
    } else if let Some(e) = lit(s, p, "NSG"@) {
        Some((TrendModel::NoSignificantChange, e))
    } else if let Some(q) = lit(s, p, "BECMG"@) {
        let (t, e) = trend_report(s, q);
        Some((TrendModel::Becoming(t), e))
    } else if let Some(q) = lit(s, p, "TEMPO"@) {
        let (t, e) = trend_report(s, q);
        Some((TrendModel::Temporarily(t), e))
    } else {
        None
    }
}

pub fn trend_at(s: &[u8], p: usize, err: &mut ParseError) -> (r: Option<(Trend, usize)>)
    requires
        p <= s@.len(),
        old(err).wf(s@.len() as int),
    ensures
        match r {
            Some((t, e)) => trend(s@, p as int) == Some((t@, e as int)),
            None => trend(s@, p as int) is None,
        },
        r matches Some((_, e)) ==> p <= e <= s@.len(),
        final(err).wf(s@.len() as int),
{
    if let Some(e) = lit_at(s, p, "NOSIG") {
        Some((Trend::NoSignificantChange, e))
    } else if let Some(e) = lit_at(s, p, "NSG") {
        Some((Trend::NoSignificantChange, e))
    } else if let Some(q) = lit_at(s, p, "BECMG") {
        let (t, e) = trend_report_at(s, q, err);
        Some((Trend::Becoming(t), e))
    } else if let Some(q) = lit_at(s, p, "TEMPO") {
        let (t, e) = trend_report_at(s, q, err);
        Some((Trend::Temporarily(t), e))
    } else {
        err.note(p, Expected::Trend);
        None
    }
}

/// The end of the run of bytes other than `$` from `p`.
pub open spec fn remark_end(s: Seq<u8>, p: int) -> int
    decreases s.len() - p,
{
    if 0 <= p < s.len() && !byte_is(s, p, '$') {
        remark_end(s, p + 1)
    } else {
        p
    }
}

fn remark_end_at(s: &[u8], p: usize) -> (r: usize)
    requires
        p <= s@.len(),
    ensures
        r == remark_end(s@, p as int),
        p <= r <= s@.len(),
{
    let mut i = p;
    while i < s.len() && !byte_at(s, i, '$')
        invariant
            p <= i <= s@.len(),
            remark_end(s@, p as int) == remark_end(s@, i as int),
        decreases s@.len() - i,
    {
        i += 1;
    }
    i
}

/// The first of three readings that is present.
pub open spec fn first_present<T>(a: Option<T>, b: Option<T>, c: Option<T>) -> Option<T> {
    if a is Some {
        a
    } else if b is Some {
        b
    } else {
        c
    }
}

/// Report name, identifier, time, validity range, report name again (some
/// stations put it here), and observation flags.
#[verifier::opaque]
pub open spec fn header(s: Seq<u8>) -> Option<
    (Span, DateTime, Option<TimeRange>, Seq<ObservationFlag>, int),
> {
    let p0 = whitespace(s, 0);
    let p1 = match report_name(s, p0) {
        Some(e) => e,
        None => p0,
    };
    let p2 = whitespace(s, p1);
    match icao_identifier(s, p2) {
        None => None,
        Some((identifier, p3)) => {
            let p4 = whitespace(s, p3);
            match observation_time(s, p4) {
                None => None,
                Some((time, p5)) => {
                    let p6 = whitespace(s, p5);
                    let (validity, p7) = optional(validity_range(s, p6), p6);
                    let p8 = whitespace(s, p7);
                    let p9 = match report_name(s, p8) {
                        Some(e) => e,
                        None => p8,
                    };
                    let p10 = whitespace(s, p9);
                    let (flags, p11) = repeated::<FlagRule>(s, p10, true);
                    Some((identifier, time, validity, flags, p11))
                },
            }
        },
    }
}

/// The failure state when the header cannot be read: whitespace and the
/// report name may be noted as expected at the start, then the identifier,
/// then the time, is read until a character is missing.
#[verifier::opaque]
pub open spec fn header_failure(s: Seq<u8>, f: (int, Set<Expected>)) -> (int, Set<Expected>) {
    let f1 = whitespace_failure(s, 0, f);
    let p0 = whitespace(s, 0);
    let f2 = report_name_failure(s, p0, f1);
    let p1 = match report_name(s, p0) {
        Some(e) => e,
        None => p0,
    };
    let f3 = whitespace_failure(s, p1, f2);
    let p2 = whitespace(s, p1);
    let f4 = icao_identifier_failure(s, p2, f3);
    match icao_identifier(s, p2) {
        None => f4,
        Some((_, p3)) => {
            let f5 = whitespace_failure(s, p3, f4);
            observation_time_failure(s, whitespace(s, p3), f5)
        },
    }
}

fn header_at(s: &[u8], err: &mut ParseError) -> (r: Option<
    (Span, DateTime, Option<TimeRange>, Vec<ObservationFlag>, usize),
>)
    requires
        old(err).wf(s@.len() as int),
    ensures
        match r {
            Some((i, t, v, f, e)) => header(s@) == Some((i, t, v, f@, e as int)),
            None => header(s@) is None,
        },
        r matches Some((_, _, _, _, e)) ==> e <= s@.len(),
        final(err).wf(s@.len() as int),
        header(s@) is None ==> final(err).state() == header_failure(s@, old(err).state()),
{
    reveal(header);
    reveal(header_failure);
    let p0 = whitespace_at(s, 0, err);
    let p1 = match report_name_at(s, p0, err) {
        Some(e) => e,
        None => p0,
    };
    let p2 = whitespace_at(s, p1, err);
    let (identifier, p3) = match icao_identifier_at(s, p2, err) {
        Some(x) => x,
        None => {
            return None;
        },
    };
    let p4 = whitespace_at(s, p3, err);
    let (time, p5) = match observation_time_at(s, p4, err) {
        Some(x) => x,
        None => {
            return None;
        },
    };
    let p6 = whitespace_at(s, p5, err);
    let (validity, p7) = match validity_range_at(s, p6, err) {
        Some((v, e)) => (Some(v), e),
        None => (None, p6),
    };
    let p8 = whitespace_at(s, p7, err);
    let p9 = match report_name_at(s, p8, err) {
        Some(e) => e,
        None => p8,
    };
    let p10 = whitespace_at(s, p9, err);
    let (flags, p11) = repeated_at::<FlagRule>(s, p10, err);
    assert(models::<FlagRule>(flags@) =~= flags@);
    Some((identifier, time, validity, flags, p11))
}

/// Wind, temperatures (some stations put them here), visibility, runway
/// visual ranges, weather, cloud layers and `CAVOK`.
#[verifier::opaque]
pub open spec fn observed(s: Seq<u8>, p: int) -> (
    (
        Option<Wind>,
        Option<Temperatures>,
        Option<Visibility>,
        Seq<RunwayVisibility>,
        Seq<WeatherModel>,
        Seq<CloudCover>,
        bool,
    ),
    int,
) {
    let (w, p13) = optional_field(wind(s, p), p);
    let p14 = whitespace(s, p13);
    let (pre_t, p15) = optional_field(temperatures(s, p14), p14);
    let p16 = whitespace(s, p15);
    let (vis, p17) = optional_field(visibility(s, p16), p16);
    let p18 = whitespace(s, p17);
    let (rvr, p19) = repeated::<RunwayVisibilityRule>(s, p18, true);
    let p20 = whitespace(s, p19);
    let (wx, p21) = repeated::<WeatherRule>(s, p20, true);
    let p22 = whitespace(s, p21);
    let (clouds, p23) = repeated::<CloudRule>(s, p22, true);
    let p24 = whitespace(s, p23);
    let (cavok, p25) = match lit(s, p24, "CAVOK"@) {
        Some(e) => (true, whitespace(s, e)),
        None => (false, p24),
    };
    ((w, pre_t, vis, rvr, wx, clouds, cavok), p25)
}

fn observed_at(s: &[u8], p: usize, err: &mut ParseError) -> (r: (
    (
        Option<Wind>,
        Option<Temperatures>,
        Option<Visibility>,
        Vec<RunwayVisibility>,
        Vec<Weather>,
        Vec<CloudCover>,
        bool,
    ),
    usize,
))
    requires
        p <= s@.len(),
        old(err).wf(s@.len() as int),
    ensures
        observed(s@, p as int) == (
            (r.0.0, r.0.1, r.0.2, r.0.3@, weather_models(r.0.4@), r.0.5@, r.0.6),
            r.1 as int,
        ),
        p <= r.1 <= s@.len(),
        final(err).wf(s@.len() as int),
{
    reveal(observed);
    let (w, p13) = match wind_at(s, p, err) {
        Some((v, e)) => (v, e),
        None => (None, p),
    };
    let p14 = whitespace_at(s, p13, err);
    let (pre_t, p15) = match temperatures_at(s, p14, err) {
        Some((v, e)) => (v, e),
        None => (None, p14),
    };
    let p16 = whitespace_at(s, p15, err);
    let (vis, p17) = match visibility_at(s, p16, err) {
        Some((v, e)) => (v, e),
        None => (None, p16),
    };
    let p18 = whitespace_at(s, p17, err);
    let (rvr, p19) = repeated_at::<RunwayVisibilityRule>(s, p18, err);
    let p20 = whitespace_at(s, p19, err);
    let (wx, p21) = repeated_at::<WeatherRule>(s, p20, err);
    let p22 = whitespace_at(s, p21, err);
    let (clouds, p23) = repeated_at::<CloudRule>(s, p22, err);
    let p24 = whitespace_at(s, p23, err);
    let (cavok, p25) = match lit_at(s, p24, "CAVOK") {
        Some(e) => (true, whitespace_at(s, e, err)),
        None => (false, p24),
    };
    assert(models::<RunwayVisibilityRule>(rvr@) =~= rvr@);
    assert(models::<WeatherRule>(wx@) =~= weather_models(wx@));
    assert(models::<CloudRule>(clouds@) =~= clouds@);
    ((w, pre_t, vis, rvr, wx, clouds, cavok), p25)
}

/// Temperatures, pressure (further pressure groups are read and left out),
/// cloud layers (some stations put them here) and temperatures again.
#[verifier::opaque]
pub open spec fn ground(s: Seq<u8>, p: int) -> (
    (Option<Temperatures>, Option<Pressure>, Seq<CloudCover>, Option<Temperatures>),
    int,
) {
    let (t, p26) = optional_field(temperatures(s, p), p);
    let p27 = whitespace(s, p26);
    let (pr, p28) = optional_field(pressure(s, p27), p27);
    let p29 = whitespace(s, p28);
    let (_, p30) = repeated::<PressureRule>(s, p29, true);
    let p31 = whitespace(s, p30);
    let (clouds, p32) = repeated::<CloudRule>(s, p31, true);
    let p33 = whitespace(s, p32);
    let (post_t, p34) = optional_field(temperatures(s, p33), p33);
    ((t, pr, clouds, post_t), p34)
}

fn ground_at(s: &[u8], p: usize, err: &mut ParseError) -> (r: (
    (Option<Temperatures>, Option<Pressure>, Vec<CloudCover>, Option<Temperatures>),
    usize,
))
    requires
        p <= s@.len(),
        old(err).wf(s@.len() as int),
    ensures
        ground(s@, p as int) == ((r.0.0, r.0.1, r.0.2@, r.0.3), r.1 as int),
        p <= r.1 <= s@.len(),
        final(err).wf(s@.len() as int),
{
    reveal(ground);
    let (t, p26) = match temperatures_at(s, p, err) {
        Some((v, e)) => (v, e),
        None => (None, p),
    };
    let p27 = whitespace_at(s, p26, err);
    let (pr, p28) = match pressure_at(s, p27, err) {
        Some((v, e)) => (v, e),
        None => (None, p27),
    };
    let p29 = whitespace_at(s, p28, err);
    let (_, p30) = repeated_at::<PressureRule>(s, p29, err);
    let p31 = whitespace_at(s, p30, err);
    let (clouds, p32) = repeated_at::<CloudRule>(s, p31, err);
    let p33 = whitespace_at(s, p32, err);
    let (post_t, p34) = match temperatures_at(s, p33, err) {
        Some((v, e)) => (v, e),
        None => (None, p33),
    };
    assert(models::<CloudRule>(clouds@) =~= clouds@);
    ((t, pr, clouds, post_t), p34)
}

/// Rainfall, recent weather, colour state, runway visual ranges (some
/// stations put them here), runway states and sea conditions.
#[verifier::opaque]
pub open spec fn supplementary(s: Seq<u8>, p: int) -> (
    (
        Option<AccumulatedRainfall>,
        Seq<WeatherModel>,
        Option<Color>,
        Seq<RunwayVisibility>,
        Seq<RunwayReport>,
        Option<WaterConditions>,
    ),
    int,
) {
    let (rain, p36) = optional(accumulated_rainfall(s, p), p);
    let p37 = whitespace(s, p36);
    let (recent, p38) = repeated::<RecentWeatherRule>(s, p37, true);
    let p39 = whitespace(s, p38);
    let (col, p40) = optional(color(s, p39), p39);
    let p41 = whitespace(s, p40);
    let (rvr, p42) = repeated::<RunwayVisibilityRule>(s, p41, true);
    let p43 = whitespace(s, p42);
    let (reports, p44) = repeated::<RunwayReportRule>(s, p43, true);
    let p45 = whitespace(s, p44);
    let (water, p46) = optional(water_conditions(s, p45), p45);
    ((rain, recent, col, rvr, reports, water), p46)
}

fn supplementary_at(s: &[u8], p: usize, err: &mut ParseError) -> (r: (
    (
        Option<AccumulatedRainfall>,
        Vec<Weather>,
        Option<Color>,
        Vec<RunwayVisibility>,
        Vec<RunwayReport>,
        Option<WaterConditions>,
    ),
    usize,
))
    requires
        p <= s@.len(),
        old(err).wf(s@.len() as int),
    ensures
        supplementary(s@, p as int) == (
            (r.0.0, weather_models(r.0.1@), r.0.2, r.0.3@, r.0.4@, r.0.5),
            r.1 as int,
        ),
        p <= r.1 <= s@.len(),
        final(err).wf(s@.len() as int),
{
    reveal(supplementary);
    let (rain, p36) = match accumulated_rainfall_at(s, p, err) {
        Some((v, e)) => (Some(v), e),
        None => (None, p),
    };
    let p37 = whitespace_at(s, p36, err);
    let (recent, p38) = repeated_at::<RecentWeatherRule>(s, p37, err);
    let p39 = whitespace_at(s, p38, err);
    let (col, p40) = match color_at(s, p39, err) {
        Some((v, e)) => (Some(v), e),
        None => (None, p39),
    };
    let p41 = whitespace_at(s, p40, err);
    let (rvr, p42) = repeated_at::<RunwayVisibilityRule>(s, p41, err);
    let p43 = whitespace_at(s, p42, err);
    let (reports, p44) = repeated_at::<RunwayReportRule>(s, p43, err);
    let p45 = whitespace_at(s, p44, err);
    let (water, p46) = match water_conditions_at(s, p45, err) {
        Some((v, e)) => (Some(v), e),
        None => (None, p45),
    };
    assert(models::<RecentWeatherRule>(recent@) =~= weather_models(recent@));
    assert(models::<RunwayVisibilityRule>(rvr@) =~= rvr@);
    assert(models::<RunwayReportRule>(reports@) =~= reports@);
    ((rain, recent, col, rvr, reports, water), p46)
}

/// The remark, from `RMK` up to a `$` or the end; the maintenance marker
/// `$`; stray slashes; `=` with anything after it.
#[verifier::opaque]
pub open spec fn trailer(s: Seq<u8>, p: int) -> (Option<Span>, bool, int) {
    let (remark, p50) = match lit(s, p, "RMK"@) {
        Some(q) => (Some(Span { start: p as usize, end: remark_end(s, q) as usize }), remark_end(s, q)),
        None => (None, p),
    };
    let maintenance = byte_is(s, p50, '$');
    let p51 = if maintenance {
        p50 + 1
    } else {
        p50
    };
    let p52 = run_end(s, p51, '/');
    let end = if byte_is(s, p52, '=') {
        s.len() as int
    } else {
        p52
    };
    (remark, maintenance, end)
}

fn trailer_at(s: &[u8], p: usize) -> (r: (Option<Span>, bool, usize))
    requires
        p <= s@.len(),
    ensures
        trailer(s@, p as int) == (r.0, r.1, r.2 as int),
        p <= r.2 <= s@.len(),
{
    reveal(trailer);
    let (remark, p50) = match lit_at(s, p, "RMK") {
        Some(q) => {
            let e = remark_end_at(s, q);
            (Some(Span { start: p, end: e }), e)
        },
        None => (None, p),
    };
    let maintenance = byte_at(s, p50, '$');
    let p51 = if maintenance {
        p50 + 1
    } else {
        p50
    };
    let p52 = run_end_at(s, p51, '/');
    let end = if byte_at(s, p52, '=') {
        s.len()
    } else {
        p52
    };
    (remark, maintenance, end)
}

/// A report from the start of the text, and where it ends.
///
/// Fields come in a fixed order, each optional but the identifier and the
/// time, separated by whitespace that may itself be missing. Runway visual
/// ranges and cloud layers may stand at two places; the report lists those
/// of the first place, then those of the second. Temperatures may stand at
/// three places; the first present wins.
pub open spec fn metar_prefix(s: Seq<u8>) -> Option<(MetarModel, int)> {
    match header(s) {
        None => None,
        Some((identifier, time, validity, flags, p11)) => {
            let p12 = whitespace(s, p11);
            let (o, p25) = observed(s, p12);
            let (g, p34) = ground(s, p25);
            let p35 = whitespace(s, p34);
            let (a, p46) = supplementary(s, p35);
            let p47 = whitespace(s, p46);
            let (trends, p48) = repeated::<TrendRule>(s, p47, true);
            let p49 = whitespace(s, p48);
            let (remark, maintenance, end) = trailer(s, p49);
            Some(
                (
                    MetarModel {
                        identifier,
                        observation_time: Some(time),
                        observation_validity_range: validity,
                        observation_flags: flags,
                        wind: o.0,
                        visibility: o.2,
                        runway_visibilities: o.3 + a.3,
                        runway_reports: a.4,
                        weather: o.4,
                        cloud_cover: o.5 + g.2,
                        cavok: o.6,
                        temperatures: first_present(o.1, g.0, g.3),
                        pressure: g.1,
                        accumulated_rainfall: a.0,
                        color: a.2,
                        recent_weather: a.1,
                        water_conditions: a.5,
                        trends,
                        remark,
                        maintenance_needed: maintenance,
                    },
                    end,
                ),
            )
        },
    }
}

/// A report that takes the whole text.
pub open spec fn metar(s: Seq<u8>) -> Option<MetarModel> {
    match metar_prefix(s) {
        Some((m, e)) => if e == s.len() {
            Some(m)
        } else {
            None
        },
        None => None,
    }
}

/// Reads a report from the start of the text.
pub fn metar_prefix_at(s: &[u8], err: &mut ParseError) -> (r: Option<(MetarReport, usize)>)
    requires
        old(err).wf(s@.len() as int),
    ensures
        match r {
            Some((m, e)) => metar_prefix(s@) == Some((m@, e as int)),
            None => metar_prefix(s@) is None,
        },
        r matches Some((_, e)) ==> e <= s@.len(),
        final(err).wf(s@.len() as int),
        header(s@) is None ==> final(err).state() == header_failure(s@, old(err).state()),
{
    let (identifier, time, validity, flags, p11) = match header_at(s, err) {
        Some(x) => x,
        None => {
            return None;
        },
    };
    let p12 = whitespace_at(s, p11, err);
    let ((w, pre_t, vis, mut rvr1, wx, mut clouds1, cavok), p25) = observed_at(s, p12, err);
    let ((t, pr, mut clouds2, post_t), p34) = ground_at(s, p25, err);
    let p35 = whitespace_at(s, p34, err);
    let ((rain, recent, col, mut rvr2, reports, water), p46) = supplementary_at(s, p35, err);
    let p47 = whitespace_at(s, p46, err);
    let (trends, p48) = repeated_at::<TrendRule>(s, p47, err);
    let p49 = whitespace_at(s, p48, err);
    let (remark, maintenance, end) = trailer_at(s, p49);
    let temperatures = if pre_t.is_some() {
        pre_t
    } else if t.is_some() {
        t
    } else {
        post_t
    };
    let ghost r1 = rvr1@;
    let ghost r2 = rvr2@;
    let ghost c1 = clouds1@;
    let ghost c2 = clouds2@;
    rvr1.append(&mut rvr2);
    clouds1.append(&mut clouds2);
    assert(models::<TrendRule>(trends@) =~= trend_models(trends@));
    let m = MetarReport {
        identifier,
        observation_time: Some(time),
        observation_validity_range: validity,
        observation_flags: flags,
        wind: w,
        visibility: vis,
        runway_visibilities: rvr1,
        runway_reports: reports,
        weather: wx,
        cloud_cover: clouds1,
        cavok,
        temperatures,
        pressure: pr,
        accumulated_rainfall: rain,
        color: col,
        recent_weather: recent,
        water_conditions: water,
        trends,
        remark,
        maintenance_needed: maintenance,
    };
    Some((m, end))
}

} // verus!

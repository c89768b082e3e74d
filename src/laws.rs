//! Laws of the report grammar: exact readings of numeric fields, missing
//! data read as absent, and weather groups read back as they are written.
use vstd::prelude::*;

use crate::fields::{
    icao_identifier, icao_identifier_failure, letter_or_digit_failure, report_name, cloud_cover,
    decimal, directional_visibility, raw_visibility, precipitations, pressure, pressure_unit, temperature,
    temperatures, velocity_unit, visibility, visibility_unit, vocab, water_conditions, weather,
    weather_condition,
    weather_prefix, wind, wind_direction,
};
use crate::text::{
    ascii, byte_is, is_letter, digit_run_end, fixed_digits, is_digit, lit, m_group, m_groups, number, numeral,
    numeral_fixed_digits, numeral_len, numeral_number, numeral_value, pow10, slash_garbage,
    spaced_ms, spaced_slashes, whitespace, whitespace_unit,
};
use crate::tokens::{
    condition_text, precipitation_text, weather_text, weather_well_formed, CloudCoverage,
    ConditionModel, Descriptor, Intensity, Obscuration, Other, Precipitation, Temperatures,
    OutOfRange, RawVisibility, Visibility, WeatherModel, Wind,
};
use crate::units::{
    F64_EPSILON_INVERSE, Angle, Length, LengthUnit, Pressure, PressureUnit, ThermodynamicTemperature, Velocity,
    VelocityUnit,
};
use crate::failure::{noted, Expected};
use crate::report::{header, header_failure, metar, repeated, Rule, WeatherRule};
use crate::vocabulary::{lex_table, Vocabulary};
use vstd::utf8::{encode_utf8, is_ascii_chars, is_ascii_chars_concat, is_ascii_chars_encode_utf8};

verus! {

proof fn placeholder_weather(s: Seq<u8>, p: int)
    requires
        0 <= p <= s.len(),
    ensures
        lit(s, p, "//"@) is Some ==> weather(s, p) == Some((None::<WeatherModel>, p + 2)),
{
    reveal_strlit("//");
}

proof fn placeholder_temperatures(s: Seq<u8>, p: int)
    requires
        0 <= p <= s.len(),
    ensures
        lit(s, p, "XX/XX"@) is Some ==> temperatures(s, p) == Some((None::<Temperatures>, p + 5)),
{
    reveal_strlit("XX/XX");
    if lit(s, p, "XX/XX"@) is Some {
        assert("XX/XX"@[0] == 'X' && "XX/XX"@[1] == 'X');
        assert(s[p] == 'X' as u8);
        assert(s[p + 1] == 'X' as u8);
        assert(digit_run_end(s, p) == p);
        assert(digit_run_end(s, p + 1) == p + 1);
        assert(temperature(s, p) is None);
    }
}

proof fn placeholder_visibility(s: Seq<u8>, p: int)
    requires
        0 <= p <= s.len(),
    ensures
        lit(s, p, "////"@) is Some ==> (visibility(s, p) matches Some((None, _))),
{
    reveal_strlit("////");
    reveal_strlit("NDV");
    if lit(s, p, "////"@) is Some {
        assert("////"@[0] == '/' && "NDV"@[0] == 'N');
        assert(s[p] == '/' as u8);
        assert(digit_run_end(s, p) == p);
        assert(lit(s, p, "NDV"@) is None);
    }
}

proof fn placeholder_wind(s: Seq<u8>, p: int)
    requires
        0 <= p <= s.len(),
    ensures
        (lit(s, p, "/////"@) is Some && velocity_unit(s, p + 5) is Some) ==> (wind(s, p) matches Some(
            (None, _),
        )),
{
    reveal_strlit("/////");
    reveal_strlit("//////");
    reveal_strlit("VRB");
    reveal_strlit("MPS");
    reveal_strlit("KTM");
    reveal_strlit("KTS");
    reveal_strlit("KT");
    reveal_strlit("KMH");
    if lit(s, p, "/////"@) is Some && velocity_unit(s, p + 5) is Some {
        assert("/////"@[0] == '/' && "/////"@.len() == 5 && "//////"@[5] == '/' && "VRB"@[0]
            == 'V');
        assert("MPS"@[0] == 'M' && "KTM"@[0] == 'K' && "KTS"@[0] == 'K' && "KT"@[0] == 'K'
            && "KMH"@[0] == 'K');
        assert(s[p] == '/' as u8);
        assert(!is_digit(s[p]));
        assert(fixed_digits(s, p, 3) is None);
        assert(wind_direction(s, p) is None);
        assert(s[p + 5] == 'M' as u8 || s[p + 5] == 'K' as u8);
        assert(lit(s, p, "//////"@) is None);
    }
}

proof fn placeholder_pressure(s: Seq<u8>, p: int)
    requires
        0 <= p <= s.len(),
    ensures
        (pressure_unit(s, p) matches Some((_, q)) && (lit(s, whitespace(s, q), "////"@) is Some
            || lit(s, whitespace(s, q), "NIL"@) is Some)) ==> (pressure(s, p) matches Some(
            (None, _),
        )),
{
    reveal_strlit("////");
    reveal_strlit("NIL");
    if pressure_unit(s, p) is Some {
        let q = whitespace(s, pressure_unit(s, p)->Some_0.1);
        if lit(s, q, "////"@) is Some || lit(s, q, "NIL"@) is Some {
            assert("////"@[0] == '/' && "NIL"@[0] == 'N');
            assert(s[q] == '/' as u8 || s[q] == 'N' as u8);
            assert(digit_run_end(s, q) == q);
            assert(decimal(s, q) is None);
        }
    }
}

/// Missing data written as a placeholder yields an absent value, never a
/// failure and never a default: `//` for weather, `XX/XX` for temperatures,
/// `////` for visibility, five slashes and a unit for wind, `////` or `NIL`
/// after a pressure unit, `///` for a cloud base, `//` for a sea
/// temperature.
pub proof fn placeholders_are_absent(s: Seq<u8>, p: int)
    requires
        0 <= p <= s.len(),
    ensures
        lit(s, p, "//"@) is Some ==> weather(s, p) == Some((None::<WeatherModel>, p + 2)),
        lit(s, p, "XX/XX"@) is Some ==> temperatures(s, p) == Some((None::<Temperatures>, p + 5)),
        lit(s, p, "////"@) is Some ==> (visibility(s, p) matches Some((None, _))),
        (lit(s, p, "/////"@) is Some && velocity_unit(s, p + 5) is Some) ==> (wind(s, p) matches Some(
            (None, _),
        )),
        (pressure_unit(s, p) matches Some((_, q)) && (lit(s, whitespace(s, q), "////"@) is Some
            || lit(s, whitespace(s, q), "NIL"@) is Some)) ==> (pressure(s, p) matches Some(
            (None, _),
        )),
        (vocab::<CloudCoverage>(s, p) matches Some((_, q)) && lit(s, whitespace(s, q), "///"@)
            is Some) ==> (cloud_cover(s, p) matches Some((c, _)) && c.base is None),
        (byte_is(s, p, 'W') && lit(s, p + 1, "//"@) is Some) ==> (water_conditions(s, p) matches Some(
            (w, _),
        ) ==> w.temperature is None),
{
    placeholder_weather(s, p);
    placeholder_temperatures(s, p);
    placeholder_visibility(s, p);
    placeholder_wind(s, p);
    placeholder_pressure(s, p);
}

/// The canonical unit of a wind speed: `MPS`, `KT` or `KMH`.
pub open spec fn speed_unit_text(unit: VelocityUnit) -> Seq<u8> {
    match unit {
        VelocityUnit::MetrePerSecond => seq!['M' as u8, 'P' as u8, 'S' as u8],
        VelocityUnit::Knot => seq!['K' as u8, 'T' as u8],
        VelocityUnit::KilometrePerHour => seq!['K' as u8, 'M' as u8, 'H' as u8],
    }
}

/// A wind group: a three-digit direction, a two-digit speed, `G` and a
/// two-digit gust if there is one, and the unit.
pub open spec fn wind_text(direction: nat, speed: nat, gust: Option<nat>, unit: VelocityUnit) -> Seq<
    u8,
> {
    numeral(direction, 3) + numeral(speed, 2) + match gust {
        Some(g) => seq!['G' as u8] + numeral(g, 2),
        None => Seq::empty(),
    } + speed_unit_text(unit)
}

proof fn lemma_nothing_after_end(s: Seq<u8>)
    ensures
        whitespace(s, s.len() as int) == s.len(),
        number(s, s.len() as int) is None,
{
    let n = s.len() as int;
    assert(spaced_slashes(s, n) == n);
    assert(slash_garbage(s, n) is None);
    assert(spaced_ms(s, n) == n);
    assert(m_group(s, n) is None);
    assert(m_groups(s, n) == n);
    assert(whitespace_unit(s, n) is None);
    assert(digit_run_end(s, n) == n);
}

proof fn speed_unit_reads(s: Seq<u8>, q: int, unit: VelocityUnit)
    requires
        0 <= q <= s.len(),
        s.subrange(q, s.len() as int) == speed_unit_text(unit),
    ensures
        velocity_unit(s, q) == Some((unit, s.len() as int)),
{
    reveal_strlit("MPS");
    reveal_strlit("KTM");
    reveal_strlit("KTS");
    reveal_strlit("KT");
    reveal_strlit("KMH");
    assert("MPS"@.len() == 3 && "MPS"@[0] == 'M' && "MPS"@[1] == 'P' && "MPS"@[2] == 'S');
    assert("KTM"@.len() == 3 && "KTM"@[0] == 'K' && "KTM"@[1] == 'T' && "KTM"@[2] == 'M');
    assert("KTS"@.len() == 3 && "KTS"@[0] == 'K' && "KTS"@[1] == 'T' && "KTS"@[2] == 'S');
    assert("KT"@.len() == 2 && "KT"@[0] == 'K' && "KT"@[1] == 'T');
    assert("KMH"@.len() == 3 && "KMH"@[0] == 'K' && "KMH"@[1] == 'M' && "KMH"@[2] == 'H');
    let u = speed_unit_text(unit);
    assert(s.len() == q + u.len());
    assert(forall|i: int| 0 <= i < u.len() ==> s[q + i] == #[trigger] u[i]) by {
        assert forall|i: int| 0 <= i < u.len() implies s[q + i] == #[trigger] u[i] by {
            assert(s[q + i] == s.subrange(q, s.len() as int)[i]);
        }
    }
    match unit {
        VelocityUnit::MetrePerSecond => {
            assert(s[q] == 'M' as u8 && s[q + 1] == 'P' as u8 && s[q + 2] == 'S' as u8);
            assert(lit(s, q, "MPS"@) == Some(s.len() as int));
        },
        VelocityUnit::Knot => {
            assert(s[q] == 'K' as u8 && s[q + 1] == 'T' as u8);
            assert(lit(s, q, "MPS"@) is None);
            assert(lit(s, q, "KTM"@) is None);
            assert(lit(s, q, "KTS"@) is None);
            assert(lit(s, q, "KT"@) == Some(s.len() as int));
        },
        VelocityUnit::KilometrePerHour => {
            assert(s[q] == 'K' as u8 && s[q + 1] == 'M' as u8 && s[q + 2] == 'H' as u8);
            assert(lit(s, q, "MPS"@) is None);
            assert(lit(s, q, "KTM"@) is None);
            assert(lit(s, q, "KTS"@) is None);
            assert(lit(s, q, "KT"@) is None);
            assert(lit(s, q, "KMH"@) == Some(s.len() as int));
        },
    }
}

/// Reading a wind group gives back exactly the direction, the speed and
/// the gust written in it, in the unit written, and takes the whole group.
pub proof fn wind_readings_are_exact(
    direction: nat,
    speed: nat,
    gust: Option<nat>,
    unit: VelocityUnit,
)
    requires
        direction < 1000,
        speed < 100,
        gust matches Some(g) ==> g < 100,
    ensures
        wind(wind_text(direction, speed, gust, unit), 0) == Some(
            (
                Some(
                    Wind {
                        direction: Some(Angle { degrees: direction as u32 }),
                        speed: Some(Velocity::spec_new(speed as int, 1, unit)),
                        peak_gust: match gust {
                            Some(g) => Some(Velocity::spec_new(g as int, 1, unit)),
                            None => None,
                        },
                        variance: None,
                    },
                ),
                wind_text(direction, speed, gust, unit).len() as int,
            ),
        ),
{
    let s = wind_text(direction, speed, gust, unit);
    let n = s.len() as int;
    reveal_with_fuel(pow10, 4);
    reveal_strlit("VRB");
    reveal_strlit("//");
    assert("VRB"@[0] == 'V' && "//"@[0] == '/');
    let g_text = match gust {
        Some(g) => seq!['G' as u8] + numeral(g, 2),
        None => Seq::<u8>::empty(),
    };
    numeral_len(direction, 3);
    numeral_len(speed, 2);
    assert(s.subrange(0, 3) =~= numeral(direction, 3));
    assert(s.subrange(3, 5) =~= numeral(speed, 2));
    numeral_fixed_digits(s, 0, 3, direction);
    numeral_value(s, 0, 3, direction);
    assert(lit(s, 0, "VRB"@) is None);
    let q3: int = 5 + g_text.len() as int;
    let u = speed_unit_text(unit);
    assert(n == q3 + u.len());
    assert(s.subrange(q3, n) =~= u);
    speed_unit_reads(s, q3, unit);
    match gust {
        Some(g) => {
            numeral_len(g, 2);
            assert(s[5] == 'G' as u8);
            assert(s.subrange(6, 8) =~= numeral(g, 2));
            numeral_number(s, 6, 2, g);
            numeral_value(s, 6, 2, g);
            assert(lit(s, 6, "//"@) is None);
        },
        None => {},
    }
    numeral_number(s, 3, 2, speed);
    numeral_value(s, 3, 2, speed);
    assert(!byte_is(s, 3, 'P'));
    lemma_nothing_after_end(s);
}

/// A wind group read from whole numbers is calm exactly when both its
/// direction and its speed are zero, in any unit: conversion neither turns
/// zero into something else nor a whole speed into something near zero.
pub proof fn wind_readings_calm_exactly_at_zero(direction: nat, speed: nat, unit: VelocityUnit)
    requires
        direction < 1000,
        speed < 100,
    ensures
        wind(wind_text(direction, speed, None, unit), 0) matches Some((Some(w), _)) && w.spec_is_calm()
            == Some(direction == 0 && speed == 0),
{
    wind_readings_are_exact(direction, speed, None, unit);
    let v = Velocity::spec_new(speed as int, 1, unit);
    let (a, b) = unit.factor();
    assert(1 <= a <= 1852 && 1 <= b <= 3600);
    assert(0 <= speed * a <= 100 * 1852) by (nonlinear_arith)
        requires
            speed < 100,
            1 <= a <= 1852,
    ;
    assert(v.numerator == speed * a);
    assert(v.denominator == b);
    if speed > 0 {
        assert(speed * a >= 1) by (nonlinear_arith)
            requires
                speed >= 1,
                a >= 1,
        ;
        assert(v.numerator * F64_EPSILON_INVERSE >= F64_EPSILON_INVERSE) by (nonlinear_arith)
            requires
                v.numerator >= 1,
        ;
        assert(!v.spec_is_near_zero());
    } else {
        assert(speed == 0);
        assert(speed * a == 0) by (nonlinear_arith)
            requires
                speed == 0,
        ;
        assert(v.numerator == 0);
        assert(v.spec_is_near_zero());
    }
}

/// A whole number of degrees in two digits, after `M` when negative.
pub open spec fn signed_numeral(t: int) -> Seq<u8> {
    if t < 0 {
        seq!['M' as u8] + numeral((-t) as nat, 2)
    } else {
        numeral(t as nat, 2)
    }
}

/// A temperature group: air temperature, a slash, dewpoint.
pub open spec fn temperatures_text(air: int, dewpoint: int) -> Seq<u8> {
    signed_numeral(air) + seq!['/' as u8] + signed_numeral(dewpoint)
}

proof fn lemma_signed_temperature(s: Seq<u8>, p: int, t: int)
    requires
        -100 < t < 100,
        0 <= p,
        p + signed_numeral(t).len() <= s.len(),
        s.subrange(p, p + signed_numeral(t).len()) == signed_numeral(t),
        p + signed_numeral(t).len() == s.len() || !is_digit(s[p + signed_numeral(t).len()]),
    ensures
        temperature(s, p) == Some(
            (ThermodynamicTemperature::spec_from_celsius(t), p + signed_numeral(t).len()),
        ),
        is_digit(s[p]) || s[p] == 'M' as u8,
{
    reveal_with_fuel(pow10, 3);
    let k: int = if t < 0 {
        1
    } else {
        0
    };
    let v: nat = if t < 0 {
        (-t) as nat
    } else {
        t as nat
    };
    numeral_len(v, 2);
    assert(signed_numeral(t).len() == k + 2);
    assert(s.subrange(p + k, p + k + 2) =~= numeral(v, 2)) by {
        assert(signed_numeral(t).subrange(k, k + 2) =~= numeral(v, 2));
        assert(s.subrange(p + k, p + k + 2) =~= s.subrange(p, p + k + 2).subrange(k, k + 2));
    }
    numeral_number(s, p + k, 2, v);
    numeral_value(s, p + k, 2, v);
    if t < 0 {
        assert(s[p] == signed_numeral(t)[0]);
        assert(s[p] == 'M' as u8);
    } else {
        assert(!byte_is(s, p, 'M'));
        assert(!byte_is(s, p, '-'));
    }
}

/// Reading a temperature group gives back exactly the air temperature and
/// the dewpoint written in it, negative ones included, and takes the whole
/// group.
pub proof fn temperature_readings_are_exact(air: int, dewpoint: int)
    requires
        -100 < air < 100,
        -100 < dewpoint < 100,
    ensures
        temperatures(temperatures_text(air, dewpoint), 0) == Some(
            (
                Some(
                    Temperatures {
                        air: ThermodynamicTemperature::spec_from_celsius(air),
                        dewpoint: Some(ThermodynamicTemperature::spec_from_celsius(dewpoint)),
                    },
                ),
                temperatures_text(air, dewpoint).len() as int,
            ),
        ),
{
    let s = temperatures_text(air, dewpoint);
    let a = signed_numeral(air);
    let d = signed_numeral(dewpoint);
    let q1 = a.len() as int;
    let q2 = q1 + 1;
    numeral_len(if air < 0 { (-air) as nat } else { air as nat }, 2);
    numeral_len(if dewpoint < 0 { (-dewpoint) as nat } else { dewpoint as nat }, 2);
    assert(s.subrange(0, q1) =~= a);
    assert(s.subrange(q2, q2 + d.len()) =~= d);
    assert(s[q1] == '/' as u8);
    lemma_signed_temperature(s, 0, air);
    lemma_signed_temperature(s, q2, dewpoint);
    reveal_strlit("XX");
    reveal_strlit("//");
    reveal_strlit("M");
    reveal_strlit("KM");
    reveal_strlit("SM");
    assert("XX"@[0] == 'X' && "//"@[0] == '/');
    assert("M"@.len() == 1 && "KM"@.len() == 2 && "SM"@.len() == 2);
    assert(lit(s, q2, "XX"@) is None);
    assert(lit(s, q2, "//"@) is None);
    assert(visibility_unit(s, s.len() as int) is None);
}

/// A weather group ending at `q` is followed by a space or the end.
pub open spec fn boundary(t: Seq<char>, q: int) -> bool {
    q == t.len() || (0 <= q < t.len() && t[q] == ' ')
}

/// The two characters at `q` spell `c`.
pub open spec fn pair_at(t: Seq<char>, q: int, c: Seq<char>) -> bool {
    0 <= q && q + 2 <= t.len() && t.subrange(q, q + 2) == c
}

proof fn lemma_pair_bytes(t: Seq<char>, q: int, c: Seq<char>)
    requires
        pair_at(t, q, c),
        c.len() == 2,
    ensures
        ascii(t)[q] == #[verifier::truncate] (c[0] as u8),
        ascii(t)[q + 1] == #[verifier::truncate] (c[1] as u8),
        ascii(t).len() == t.len(),
{
    assert(t[q] == t.subrange(q, q + 2)[0]);
    assert(t[q + 1] == t.subrange(q, q + 2)[1]);
}

proof fn lex_descriptor(t: Seq<char>, q: int, v: Descriptor)
    requires
        pair_at(t, q, v.spec_code()),
    ensures
        vocab::<Descriptor>(ascii(t), q) == Some((v, q + 2)),
        lit(ascii(t), q, "VC"@) is None,
        lit(ascii(t), q, "//"@) is None,
        !byte_is(ascii(t), q, '-') && !byte_is(ascii(t), q, '+'),
{
    reveal_strlit("MI");
    reveal_strlit("PR");
    reveal_strlit("BC");
    reveal_strlit("DR");
    reveal_strlit("BL");
    reveal_strlit("SH");
    reveal_strlit("TS");
    reveal_strlit("FZ");
    reveal_strlit("VC");
    reveal_strlit("//");
    assert("MI"@.len() == 2 && "MI"@[0] == 'M' && "MI"@[1] == 'I');
    assert("PR"@.len() == 2 && "PR"@[0] == 'P' && "PR"@[1] == 'R');
    assert("BC"@.len() == 2 && "BC"@[0] == 'B' && "BC"@[1] == 'C');
    assert("DR"@.len() == 2 && "DR"@[0] == 'D' && "DR"@[1] == 'R');
    assert("BL"@.len() == 2 && "BL"@[0] == 'B' && "BL"@[1] == 'L');
    assert("SH"@.len() == 2 && "SH"@[0] == 'S' && "SH"@[1] == 'H');
    assert("TS"@.len() == 2 && "TS"@[0] == 'T' && "TS"@[1] == 'S');
    assert("FZ"@.len() == 2 && "FZ"@[0] == 'F' && "FZ"@[1] == 'Z');
    assert("VC"@.len() == 2 && "VC"@[0] == 'V' && "VC"@[1] == 'C');
    assert("//"@.len() == 2 && "//"@[0] == '/' && "//"@[1] == '/');
    reveal_with_fuel(lex_table, 9);
    lemma_pair_bytes(t, q, v.spec_code());
}

proof fn no_descriptor_at_boundary(t: Seq<char>, q: int)
    requires
        boundary(t, q),
    ensures
        vocab::<Descriptor>(ascii(t), q) is None,
{
    reveal_strlit("MI");
    reveal_strlit("PR");
    reveal_strlit("BC");
    reveal_strlit("DR");
    reveal_strlit("BL");
    reveal_strlit("SH");
    reveal_strlit("TS");
    reveal_strlit("FZ");
    assert("MI"@.len() == 2 && "MI"@[0] == 'M');
    assert("PR"@.len() == 2 && "PR"@[0] == 'P');
    assert("BC"@.len() == 2 && "BC"@[0] == 'B');
    assert("DR"@.len() == 2 && "DR"@[0] == 'D');
    assert("BL"@.len() == 2 && "BL"@[0] == 'B');
    assert("SH"@.len() == 2 && "SH"@[0] == 'S');
    assert("TS"@.len() == 2 && "TS"@[0] == 'T');
    assert("FZ"@.len() == 2 && "FZ"@[0] == 'F');
    reveal_with_fuel(lex_table, 9);
    assert(ascii(t).len() == t.len());
    if q < t.len() {
        assert(ascii(t)[q] == ' ' as u8);
    }
}

proof fn lex_precipitation(t: Seq<char>, q: int, v: Precipitation)
    requires
        pair_at(t, q, v.spec_code()),
    ensures
        vocab::<Precipitation>(ascii(t), q) == Some((v, q + 2)),
        lit(ascii(t), q, "VC"@) is None,
        lit(ascii(t), q, "//"@) is None,
        !byte_is(ascii(t), q, '-') && !byte_is(ascii(t), q, '+'),
{
    reveal_strlit("RA");
    reveal_strlit("DZ");
    reveal_strlit("SN");
    reveal_strlit("SG");
    reveal_strlit("IC");
    reveal_strlit("PL");
    reveal_strlit("GR");
    reveal_strlit("GS");
    reveal_strlit("UP");
    reveal_strlit("VC");
    reveal_strlit("//");
    assert("RA"@.len() == 2 && "RA"@[0] == 'R' && "RA"@[1] == 'A');
    assert("DZ"@.len() == 2 && "DZ"@[0] == 'D' && "DZ"@[1] == 'Z');
    assert("SN"@.len() == 2 && "SN"@[0] == 'S' && "SN"@[1] == 'N');
    assert("SG"@.len() == 2 && "SG"@[0] == 'S' && "SG"@[1] == 'G');
    assert("IC"@.len() == 2 && "IC"@[0] == 'I' && "IC"@[1] == 'C');
    assert("PL"@.len() == 2 && "PL"@[0] == 'P' && "PL"@[1] == 'L');
    assert("GR"@.len() == 2 && "GR"@[0] == 'G' && "GR"@[1] == 'R');
    assert("GS"@.len() == 2 && "GS"@[0] == 'G' && "GS"@[1] == 'S');
    assert("UP"@.len() == 2 && "UP"@[0] == 'U' && "UP"@[1] == 'P');
    assert("VC"@.len() == 2 && "VC"@[0] == 'V' && "VC"@[1] == 'C');
    assert("//"@.len() == 2 && "//"@[0] == '/' && "//"@[1] == '/');
    reveal_with_fuel(lex_table, 10);
    lemma_pair_bytes(t, q, v.spec_code());
}

proof fn no_precipitation_at_boundary(t: Seq<char>, q: int)
    requires
        boundary(t, q),
    ensures
        vocab::<Precipitation>(ascii(t), q) is None,
{
    reveal_strlit("RA");
    reveal_strlit("DZ");
    reveal_strlit("SN");
    reveal_strlit("SG");
    reveal_strlit("IC");
    reveal_strlit("PL");
    reveal_strlit("GR");
    reveal_strlit("GS");
    reveal_strlit("UP");
    assert("RA"@.len() == 2 && "RA"@[0] == 'R');
    assert("DZ"@.len() == 2 && "DZ"@[0] == 'D');
    assert("SN"@.len() == 2 && "SN"@[0] == 'S');
    assert("SG"@.len() == 2 && "SG"@[0] == 'S');
    assert("IC"@.len() == 2 && "IC"@[0] == 'I');
    assert("PL"@.len() == 2 && "PL"@[0] == 'P');
    assert("GR"@.len() == 2 && "GR"@[0] == 'G');
    assert("GS"@.len() == 2 && "GS"@[0] == 'G');
    assert("UP"@.len() == 2 && "UP"@[0] == 'U');
    reveal_with_fuel(lex_table, 10);
    assert(ascii(t).len() == t.len());
    if q < t.len() {
        assert(ascii(t)[q] == ' ' as u8);
    }
}

proof fn lex_obscuration(t: Seq<char>, q: int, v: Obscuration)
    requires
        pair_at(t, q, v.spec_code()),
    ensures
        vocab::<Obscuration>(ascii(t), q) == Some((v, q + 2)),
        lit(ascii(t), q, "VC"@) is None,
        lit(ascii(t), q, "//"@) is None,
        !byte_is(ascii(t), q, '-') && !byte_is(ascii(t), q, '+'),
{
    reveal_strlit("FG");
    reveal_strlit("BR");
    reveal_strlit("HZ");
    reveal_strlit("VA");
    reveal_strlit("DU");
    reveal_strlit("FU");
    reveal_strlit("SA");
    reveal_strlit("PY");
    reveal_strlit("VC");
    reveal_strlit("//");
    assert("FG"@.len() == 2 && "FG"@[0] == 'F' && "FG"@[1] == 'G');
    assert("BR"@.len() == 2 && "BR"@[0] == 'B' && "BR"@[1] == 'R');
    assert("HZ"@.len() == 2 && "HZ"@[0] == 'H' && "HZ"@[1] == 'Z');
    assert("VA"@.len() == 2 && "VA"@[0] == 'V' && "VA"@[1] == 'A');
    assert("DU"@.len() == 2 && "DU"@[0] == 'D' && "DU"@[1] == 'U');
    assert("FU"@.len() == 2 && "FU"@[0] == 'F' && "FU"@[1] == 'U');
    assert("SA"@.len() == 2 && "SA"@[0] == 'S' && "SA"@[1] == 'A');
    assert("PY"@.len() == 2 && "PY"@[0] == 'P' && "PY"@[1] == 'Y');
    assert("VC"@.len() == 2 && "VC"@[0] == 'V' && "VC"@[1] == 'C');
    assert("//"@.len() == 2 && "//"@[0] == '/' && "//"@[1] == '/');
    reveal_with_fuel(lex_table, 9);
    lemma_pair_bytes(t, q, v.spec_code());
}

proof fn no_obscuration_at_boundary(t: Seq<char>, q: int)
    requires
        boundary(t, q),
    ensures
        vocab::<Obscuration>(ascii(t), q) is None,
{
    reveal_strlit("FG");
    reveal_strlit("BR");
    reveal_strlit("HZ");
    reveal_strlit("VA");
    reveal_strlit("DU");
    reveal_strlit("FU");
    reveal_strlit("SA");
    reveal_strlit("PY");
    assert("FG"@.len() == 2 && "FG"@[0] == 'F');
    assert("BR"@.len() == 2 && "BR"@[0] == 'B');
    assert("HZ"@.len() == 2 && "HZ"@[0] == 'H');
    assert("VA"@.len() == 2 && "VA"@[0] == 'V');
    assert("DU"@.len() == 2 && "DU"@[0] == 'D');
    assert("FU"@.len() == 2 && "FU"@[0] == 'F');
    assert("SA"@.len() == 2 && "SA"@[0] == 'S');
    assert("PY"@.len() == 2 && "PY"@[0] == 'P');
    reveal_with_fuel(lex_table, 9);
    assert(ascii(t).len() == t.len());
    if q < t.len() {
        assert(ascii(t)[q] == ' ' as u8);
    }
}

proof fn lex_other(t: Seq<char>, q: int, v: Other)
    requires
        pair_at(t, q, v.spec_code()),
    ensures
        vocab::<Other>(ascii(t), q) == Some((v, q + 2)),
        lit(ascii(t), q, "VC"@) is None,
        lit(ascii(t), q, "//"@) is None,
        !byte_is(ascii(t), q, '-') && !byte_is(ascii(t), q, '+'),
{
    reveal_strlit("SQ");
    reveal_strlit("PO");
    reveal_strlit("DS");
    reveal_strlit("SS");
    reveal_strlit("FC");
    reveal_strlit("VC");
    reveal_strlit("//");
    assert("SQ"@.len() == 2 && "SQ"@[0] == 'S' && "SQ"@[1] == 'Q');
    assert("PO"@.len() == 2 && "PO"@[0] == 'P' && "PO"@[1] == 'O');
    assert("DS"@.len() == 2 && "DS"@[0] == 'D' && "DS"@[1] == 'S');
    assert("SS"@.len() == 2 && "SS"@[0] == 'S' && "SS"@[1] == 'S');
    assert("FC"@.len() == 2 && "FC"@[0] == 'F' && "FC"@[1] == 'C');
    assert("VC"@.len() == 2 && "VC"@[0] == 'V' && "VC"@[1] == 'C');
    assert("//"@.len() == 2 && "//"@[0] == '/' && "//"@[1] == '/');
    reveal_with_fuel(lex_table, 6);
    lemma_pair_bytes(t, q, v.spec_code());
}

proof fn no_other_at_boundary(t: Seq<char>, q: int)
    requires
        boundary(t, q),
    ensures
        vocab::<Other>(ascii(t), q) is None,
{
    reveal_strlit("SQ");
    reveal_strlit("PO");
    reveal_strlit("DS");
    reveal_strlit("SS");
    reveal_strlit("FC");
    assert("SQ"@.len() == 2 && "SQ"@[0] == 'S');
    assert("PO"@.len() == 2 && "PO"@[0] == 'P');
    assert("DS"@.len() == 2 && "DS"@[0] == 'D');
    assert("SS"@.len() == 2 && "SS"@[0] == 'S');
    assert("FC"@.len() == 2 && "FC"@[0] == 'F');
    reveal_with_fuel(lex_table, 6);
    assert(ascii(t).len() == t.len());
    if q < t.len() {
        assert(ascii(t)[q] == ' ' as u8);
    }
}

proof fn no_descriptor_at_precipitation(t: Seq<char>, q: int, x: Precipitation)
    requires
        pair_at(t, q, x.spec_code()),
    ensures
        vocab::<Descriptor>(ascii(t), q) is None,
{
    reveal_strlit("MI");
    reveal_strlit("PR");
    reveal_strlit("BC");
    reveal_strlit("DR");
    reveal_strlit("BL");
    reveal_strlit("SH");
    reveal_strlit("TS");
    reveal_strlit("FZ");
    reveal_strlit("RA");
    reveal_strlit("DZ");
    reveal_strlit("SN");
    reveal_strlit("SG");
    reveal_strlit("IC");
    reveal_strlit("PL");
    reveal_strlit("GR");
    reveal_strlit("GS");
    reveal_strlit("UP");
    assert("MI"@.len() == 2 && "MI"@[0] == 'M' && "MI"@[1] == 'I');
    assert("PR"@.len() == 2 && "PR"@[0] == 'P' && "PR"@[1] == 'R');
    assert("BC"@.len() == 2 && "BC"@[0] == 'B' && "BC"@[1] == 'C');
    assert("DR"@.len() == 2 && "DR"@[0] == 'D' && "DR"@[1] == 'R');
    assert("BL"@.len() == 2 && "BL"@[0] == 'B' && "BL"@[1] == 'L');
    assert("SH"@.len() == 2 && "SH"@[0] == 'S' && "SH"@[1] == 'H');
    assert("TS"@.len() == 2 && "TS"@[0] == 'T' && "TS"@[1] == 'S');
    assert("FZ"@.len() == 2 && "FZ"@[0] == 'F' && "FZ"@[1] == 'Z');
    assert("RA"@.len() == 2 && "RA"@[0] == 'R' && "RA"@[1] == 'A');
    assert("DZ"@.len() == 2 && "DZ"@[0] == 'D' && "DZ"@[1] == 'Z');
    assert("SN"@.len() == 2 && "SN"@[0] == 'S' && "SN"@[1] == 'N');
    assert("SG"@.len() == 2 && "SG"@[0] == 'S' && "SG"@[1] == 'G');
    assert("IC"@.len() == 2 && "IC"@[0] == 'I' && "IC"@[1] == 'C');
    assert("PL"@.len() == 2 && "PL"@[0] == 'P' && "PL"@[1] == 'L');
    assert("GR"@.len() == 2 && "GR"@[0] == 'G' && "GR"@[1] == 'R');
    assert("GS"@.len() == 2 && "GS"@[0] == 'G' && "GS"@[1] == 'S');
    assert("UP"@.len() == 2 && "UP"@[0] == 'U' && "UP"@[1] == 'P');
    reveal_with_fuel(lex_table, 9);
    lemma_pair_bytes(t, q, x.spec_code());
}

proof fn no_descriptor_at_obscuration(t: Seq<char>, q: int, x: Obscuration)
    requires
        pair_at(t, q, x.spec_code()),
    ensures
        vocab::<Descriptor>(ascii(t), q) is None,
{
    reveal_strlit("MI");
    reveal_strlit("PR");
    reveal_strlit("BC");
    reveal_strlit("DR");
    reveal_strlit("BL");
    reveal_strlit("SH");
    reveal_strlit("TS");
    reveal_strlit("FZ");
    reveal_strlit("FG");
    reveal_strlit("BR");
    reveal_strlit("HZ");
    reveal_strlit("VA");
    reveal_strlit("DU");
    reveal_strlit("FU");
    reveal_strlit("SA");
    reveal_strlit("PY");
    assert("MI"@.len() == 2 && "MI"@[0] == 'M' && "MI"@[1] == 'I');
    assert("PR"@.len() == 2 && "PR"@[0] == 'P' && "PR"@[1] == 'R');
    assert("BC"@.len() == 2 && "BC"@[0] == 'B' && "BC"@[1] == 'C');
    assert("DR"@.len() == 2 && "DR"@[0] == 'D' && "DR"@[1] == 'R');
    assert("BL"@.len() == 2 && "BL"@[0] == 'B' && "BL"@[1] == 'L');
    assert("SH"@.len() == 2 && "SH"@[0] == 'S' && "SH"@[1] == 'H');
    assert("TS"@.len() == 2 && "TS"@[0] == 'T' && "TS"@[1] == 'S');
    assert("FZ"@.len() == 2 && "FZ"@[0] == 'F' && "FZ"@[1] == 'Z');
    assert("FG"@.len() == 2 && "FG"@[0] == 'F' && "FG"@[1] == 'G');
    assert("BR"@.len() == 2 && "BR"@[0] == 'B' && "BR"@[1] == 'R');
    assert("HZ"@.len() == 2 && "HZ"@[0] == 'H' && "HZ"@[1] == 'Z');
    assert("VA"@.len() == 2 && "VA"@[0] == 'V' && "VA"@[1] == 'A');
    assert("DU"@.len() == 2 && "DU"@[0] == 'D' && "DU"@[1] == 'U');
    assert("FU"@.len() == 2 && "FU"@[0] == 'F' && "FU"@[1] == 'U');
    assert("SA"@.len() == 2 && "SA"@[0] == 'S' && "SA"@[1] == 'A');
    assert("PY"@.len() == 2 && "PY"@[0] == 'P' && "PY"@[1] == 'Y');
    reveal_with_fuel(lex_table, 9);
    lemma_pair_bytes(t, q, x.spec_code());
}

proof fn no_descriptor_at_other(t: Seq<char>, q: int, x: Other)
    requires
        pair_at(t, q, x.spec_code()),
    ensures
        vocab::<Descriptor>(ascii(t), q) is None,
{
    reveal_strlit("MI");
    reveal_strlit("PR");
    reveal_strlit("BC");
    reveal_strlit("DR");
    reveal_strlit("BL");
    reveal_strlit("SH");
    reveal_strlit("TS");
    reveal_strlit("FZ");
    reveal_strlit("SQ");
    reveal_strlit("PO");
    reveal_strlit("DS");
    reveal_strlit("SS");
    reveal_strlit("FC");
    assert("MI"@.len() == 2 && "MI"@[0] == 'M' && "MI"@[1] == 'I');
    assert("PR"@.len() == 2 && "PR"@[0] == 'P' && "PR"@[1] == 'R');
    assert("BC"@.len() == 2 && "BC"@[0] == 'B' && "BC"@[1] == 'C');
    assert("DR"@.len() == 2 && "DR"@[0] == 'D' && "DR"@[1] == 'R');
    assert("BL"@.len() == 2 && "BL"@[0] == 'B' && "BL"@[1] == 'L');
    assert("SH"@.len() == 2 && "SH"@[0] == 'S' && "SH"@[1] == 'H');
    assert("TS"@.len() == 2 && "TS"@[0] == 'T' && "TS"@[1] == 'S');
    assert("FZ"@.len() == 2 && "FZ"@[0] == 'F' && "FZ"@[1] == 'Z');
    assert("SQ"@.len() == 2 && "SQ"@[0] == 'S' && "SQ"@[1] == 'Q');
    assert("PO"@.len() == 2 && "PO"@[0] == 'P' && "PO"@[1] == 'O');
    assert("DS"@.len() == 2 && "DS"@[0] == 'D' && "DS"@[1] == 'S');
    assert("SS"@.len() == 2 && "SS"@[0] == 'S' && "SS"@[1] == 'S');
    assert("FC"@.len() == 2 && "FC"@[0] == 'F' && "FC"@[1] == 'C');
    reveal_with_fuel(lex_table, 9);
    lemma_pair_bytes(t, q, x.spec_code());
}

proof fn no_precipitation_at_obscuration(t: Seq<char>, q: int, x: Obscuration)
    requires
        pair_at(t, q, x.spec_code()),
    ensures
        vocab::<Precipitation>(ascii(t), q) is None,
{
    reveal_strlit("RA");
    reveal_strlit("DZ");
    reveal_strlit("SN");
    reveal_strlit("SG");
    reveal_strlit("IC");
    reveal_strlit("PL");
    reveal_strlit("GR");
    reveal_strlit("GS");
    reveal_strlit("UP");
    reveal_strlit("FG");
    reveal_strlit("BR");
    reveal_strlit("HZ");
    reveal_strlit("VA");
    reveal_strlit("DU");
    reveal_strlit("FU");
    reveal_strlit("SA");
    reveal_strlit("PY");
    assert("RA"@.len() == 2 && "RA"@[0] == 'R' && "RA"@[1] == 'A');
    assert("DZ"@.len() == 2 && "DZ"@[0] == 'D' && "DZ"@[1] == 'Z');
    assert("SN"@.len() == 2 && "SN"@[0] == 'S' && "SN"@[1] == 'N');
    assert("SG"@.len() == 2 && "SG"@[0] == 'S' && "SG"@[1] == 'G');
    assert("IC"@.len() == 2 && "IC"@[0] == 'I' && "IC"@[1] == 'C');
    assert("PL"@.len() == 2 && "PL"@[0] == 'P' && "PL"@[1] == 'L');
    assert("GR"@.len() == 2 && "GR"@[0] == 'G' && "GR"@[1] == 'R');
    assert("GS"@.len() == 2 && "GS"@[0] == 'G' && "GS"@[1] == 'S');
    assert("UP"@.len() == 2 && "UP"@[0] == 'U' && "UP"@[1] == 'P');
    assert("FG"@.len() == 2 && "FG"@[0] == 'F' && "FG"@[1] == 'G');
    assert("BR"@.len() == 2 && "BR"@[0] == 'B' && "BR"@[1] == 'R');
    assert("HZ"@.len() == 2 && "HZ"@[0] == 'H' && "HZ"@[1] == 'Z');
    assert("VA"@.len() == 2 && "VA"@[0] == 'V' && "VA"@[1] == 'A');
    assert("DU"@.len() == 2 && "DU"@[0] == 'D' && "DU"@[1] == 'U');
    assert("FU"@.len() == 2 && "FU"@[0] == 'F' && "FU"@[1] == 'U');
    assert("SA"@.len() == 2 && "SA"@[0] == 'S' && "SA"@[1] == 'A');
    assert("PY"@.len() == 2 && "PY"@[0] == 'P' && "PY"@[1] == 'Y');
    reveal_with_fuel(lex_table, 10);
    lemma_pair_bytes(t, q, x.spec_code());
}

proof fn no_precipitation_at_other(t: Seq<char>, q: int, x: Other)
    requires
        pair_at(t, q, x.spec_code()),
    ensures
        vocab::<Precipitation>(ascii(t), q) is None,
{
    reveal_strlit("RA");
    reveal_strlit("DZ");
    reveal_strlit("SN");
    reveal_strlit("SG");
    reveal_strlit("IC");
    reveal_strlit("PL");
    reveal_strlit("GR");
    reveal_strlit("GS");
    reveal_strlit("UP");
    reveal_strlit("SQ");
    reveal_strlit("PO");
    reveal_strlit("DS");
    reveal_strlit("SS");
    reveal_strlit("FC");
    assert("RA"@.len() == 2 && "RA"@[0] == 'R' && "RA"@[1] == 'A');
    assert("DZ"@.len() == 2 && "DZ"@[0] == 'D' && "DZ"@[1] == 'Z');
    assert("SN"@.len() == 2 && "SN"@[0] == 'S' && "SN"@[1] == 'N');
    assert("SG"@.len() == 2 && "SG"@[0] == 'S' && "SG"@[1] == 'G');
    assert("IC"@.len() == 2 && "IC"@[0] == 'I' && "IC"@[1] == 'C');
    assert("PL"@.len() == 2 && "PL"@[0] == 'P' && "PL"@[1] == 'L');
    assert("GR"@.len() == 2 && "GR"@[0] == 'G' && "GR"@[1] == 'R');
    assert("GS"@.len() == 2 && "GS"@[0] == 'G' && "GS"@[1] == 'S');
    assert("UP"@.len() == 2 && "UP"@[0] == 'U' && "UP"@[1] == 'P');
    assert("SQ"@.len() == 2 && "SQ"@[0] == 'S' && "SQ"@[1] == 'Q');
    assert("PO"@.len() == 2 && "PO"@[0] == 'P' && "PO"@[1] == 'O');
    assert("DS"@.len() == 2 && "DS"@[0] == 'D' && "DS"@[1] == 'S');
    assert("SS"@.len() == 2 && "SS"@[0] == 'S' && "SS"@[1] == 'S');
    assert("FC"@.len() == 2 && "FC"@[0] == 'F' && "FC"@[1] == 'C');
    reveal_with_fuel(lex_table, 10);
    lemma_pair_bytes(t, q, x.spec_code());
}

proof fn no_obscuration_at_other(t: Seq<char>, q: int, x: Other)
    requires
        pair_at(t, q, x.spec_code()),
    ensures
        vocab::<Obscuration>(ascii(t), q) is None,
{
    reveal_strlit("FG");
    reveal_strlit("BR");
    reveal_strlit("HZ");
    reveal_strlit("VA");
    reveal_strlit("DU");
    reveal_strlit("FU");
    reveal_strlit("SA");
    reveal_strlit("PY");
    reveal_strlit("SQ");
    reveal_strlit("PO");
    reveal_strlit("DS");
    reveal_strlit("SS");
    reveal_strlit("FC");
    assert("FG"@.len() == 2 && "FG"@[0] == 'F' && "FG"@[1] == 'G');
    assert("BR"@.len() == 2 && "BR"@[0] == 'B' && "BR"@[1] == 'R');
    assert("HZ"@.len() == 2 && "HZ"@[0] == 'H' && "HZ"@[1] == 'Z');
    assert("VA"@.len() == 2 && "VA"@[0] == 'V' && "VA"@[1] == 'A');
    assert("DU"@.len() == 2 && "DU"@[0] == 'D' && "DU"@[1] == 'U');
    assert("FU"@.len() == 2 && "FU"@[0] == 'F' && "FU"@[1] == 'U');
    assert("SA"@.len() == 2 && "SA"@[0] == 'S' && "SA"@[1] == 'A');
    assert("PY"@.len() == 2 && "PY"@[0] == 'P' && "PY"@[1] == 'Y');
    assert("SQ"@.len() == 2 && "SQ"@[0] == 'S' && "SQ"@[1] == 'Q');
    assert("PO"@.len() == 2 && "PO"@[0] == 'P' && "PO"@[1] == 'O');
    assert("DS"@.len() == 2 && "DS"@[0] == 'D' && "DS"@[1] == 'S');
    assert("SS"@.len() == 2 && "SS"@[0] == 'S' && "SS"@[1] == 'S');
    assert("FC"@.len() == 2 && "FC"@[0] == 'F' && "FC"@[1] == 'C');
    reveal_with_fuel(lex_table, 9);
    lemma_pair_bytes(t, q, x.spec_code());
}

proof fn descriptor_code_len(v: Descriptor)
    ensures
        v.spec_code().len() == 2,
{
    reveal_strlit("MI");
    reveal_strlit("PR");
    reveal_strlit("BC");
    reveal_strlit("DR");
    reveal_strlit("BL");
    reveal_strlit("SH");
    reveal_strlit("TS");
    reveal_strlit("FZ");
}

proof fn precipitation_code_len(v: Precipitation)
    ensures
        v.spec_code().len() == 2,
{
    reveal_strlit("RA");
    reveal_strlit("DZ");
    reveal_strlit("SN");
    reveal_strlit("SG");
    reveal_strlit("IC");
    reveal_strlit("PL");
    reveal_strlit("GR");
    reveal_strlit("GS");
    reveal_strlit("UP");
}

proof fn obscuration_code_len(v: Obscuration)
    ensures
        v.spec_code().len() == 2,
{
    reveal_strlit("FG");
    reveal_strlit("BR");
    reveal_strlit("HZ");
    reveal_strlit("VA");
    reveal_strlit("DU");
    reveal_strlit("FU");
    reveal_strlit("SA");
    reveal_strlit("PY");
}

proof fn other_code_len(v: Other)
    ensures
        v.spec_code().len() == 2,
{
    reveal_strlit("SQ");
    reveal_strlit("PO");
    reveal_strlit("DS");
    reveal_strlit("SS");
    reveal_strlit("FC");
}

proof fn lemma_precipitation_text_len(ps: Seq<Precipitation>)
    ensures
        precipitation_text(ps).len() == 2 * ps.len(),
    decreases ps.len(),
{
    if ps.len() > 0 {
        lemma_precipitation_text_len(ps.drop_last());
        precipitation_code_len(ps.last());
    }
}

proof fn lemma_precipitation_text_front(ps: Seq<Precipitation>)
    requires
        ps.len() > 0,
    ensures
        precipitation_text(ps) == ps[0].spec_code() + precipitation_text(ps.drop_first()),
    decreases ps.len(),
{
    if ps.len() == 1 {
        assert(ps.drop_last().len() == 0);
        assert(ps.drop_first().len() == 0);
        assert(precipitation_text(ps) =~= ps[0].spec_code() + precipitation_text(ps.drop_first()));
    } else {
        lemma_precipitation_text_front(ps.drop_last());
        assert(ps.drop_last().drop_first() =~= ps.drop_first().drop_last());
        assert(ps.drop_first().last() == ps.last());
        assert(ps.drop_last()[0] == ps[0]);
        assert(precipitation_text(ps) == precipitation_text(ps.drop_last()) + ps.last().spec_code());
        assert(precipitation_text(ps.drop_first()) == precipitation_text(ps.drop_first().drop_last())
            + ps.drop_first().last().spec_code());
        assert(precipitation_text(ps) =~= ps[0].spec_code() + precipitation_text(ps.drop_first()));
    }
}

proof fn precipitations_of_text(t: Seq<char>, q: int, e: int, ps: Seq<Precipitation>)
    requires
        0 <= q <= e <= t.len(),
        t.subrange(q, e) == precipitation_text(ps),
        boundary(t, e),
    ensures
        precipitations(ascii(t), q) == (ps, e),
    decreases ps.len(),
{
    lemma_precipitation_text_len(ps);
    assert(ascii(t).len() == t.len());
    if ps.len() == 0 {
        assert(t.subrange(q, e).len() == e - q);
        assert(q == e);
        no_precipitation_at_boundary(t, q);
        assert(ps =~= Seq::<Precipitation>::empty());
    } else {
        lemma_precipitation_text_front(ps);
        precipitation_code_len(ps[0]);
        let rest = precipitation_text(ps.drop_first());
        assert(t.subrange(q, q + 2) =~= t.subrange(q, e).subrange(0, 2));
        assert(t.subrange(q, q + 2) =~= ps[0].spec_code());
        lex_precipitation(t, q, ps[0]);
        assert(t.subrange(q + 2, e) =~= t.subrange(q, e).subrange(2, e - q));
        assert(t.subrange(q + 2, e) =~= rest);
        precipitations_of_text(t, q + 2, e, ps.drop_first());
        assert(seq![ps[0]] + ps.drop_first() =~= ps);
    }
}

/// Nothing at `q` can be taken for `VC`, `//`, or an intensity mark.
pub open spec fn starts_cleanly(s: Seq<u8>, q: int) -> bool {
    lit(s, q, "VC"@) is None && lit(s, q, "//"@) is None && !byte_is(s, q, '-') && !byte_is(
        s,
        q,
        '+',
    )
}

/// The parts of a weather group's text: intensity, `VC`, descriptor,
/// condition.
pub open spec fn weather_parts(w: WeatherModel) -> (Seq<char>, Seq<char>, Seq<char>, Seq<char>) {
    (
        w.intensity.spec_code(),
        if w.vicinity {
            "VC"@
        } else {
            Seq::empty()
        },
        match w.descriptor {
            Some(d) => d.spec_code(),
            None => Seq::empty(),
        },
        match w.condition {
            Some(c) => condition_text(c),
            None => Seq::empty(),
        },
    )
}

proof fn condition_round_trip(w: WeatherModel, t: Seq<char>, q: int, e: int)
    requires
        weather_well_formed(w),
        0 <= q <= e <= t.len(),
        t.subrange(q, e) == weather_parts(w).3,
        boundary(t, e),
    ensures
        weather_condition(ascii(t), q, w.intensity, w.vicinity, w.descriptor) == Some(
            (Some(w), e),
        ),
        w.condition is Some ==> starts_cleanly(ascii(t), q),
        w.descriptor is None ==> vocab::<Descriptor>(ascii(t), q) is None,
{
    assert(ascii(t).len() == t.len());
    match w.condition {
        Some(ConditionModel::Precipitation(ps)) => {
            lemma_precipitation_text_front(ps);
            precipitation_code_len(ps[0]);
            lemma_precipitation_text_len(ps);
            assert(t.subrange(q, q + 2) =~= t.subrange(q, e).subrange(0, 2));
            assert(t.subrange(q, q + 2) =~= ps[0].spec_code());
            lex_precipitation(t, q, ps[0]);
            precipitations_of_text(t, q, e, ps);
            if w.descriptor is None {
                no_descriptor_at_precipitation(t, q, ps[0]);
            }
        },
        Some(ConditionModel::Obscuration(o)) => {
            obscuration_code_len(o);
            assert(t.subrange(q, q + 2) =~= o.spec_code());
            lex_obscuration(t, q, o);
            no_precipitation_at_obscuration(t, q, o);
            if w.descriptor is None {
                no_descriptor_at_obscuration(t, q, o);
            }
            assert(t.subrange(q, e).len() == e - q);
        },
        Some(ConditionModel::Other(x)) => {
            other_code_len(x);
            assert(t.subrange(q, q + 2) =~= x.spec_code());
            lex_other(t, q, x);
            no_precipitation_at_other(t, q, x);
            no_obscuration_at_other(t, q, x);
            if w.descriptor is None {
                no_descriptor_at_other(t, q, x);
            }
            assert(t.subrange(q, e).len() == e - q);
        },
        None => {
            assert(weather_parts(w).3.len() == 0);
            assert(t.subrange(q, e).len() == e - q);
            assert(q == e);
            no_precipitation_at_boundary(t, q);
            no_obscuration_at_boundary(t, q);
            no_other_at_boundary(t, q);
        },
    }
}

proof fn prefix_round_trip(w: WeatherModel, t: Seq<char>, q0: int)
    requires
        0 <= q0,
        q0 + weather_text(w).len() <= t.len(),
        t.subrange(q0, q0 + weather_text(w).len()) == weather_parts(w).0 + weather_parts(w).1
            + weather_parts(w).2 + weather_parts(w).3,
        ({
            let q3: int = q0 + (weather_parts(w).0.len() + weather_parts(w).1.len()
                + weather_parts(w).2.len()) as int;
            &&& w.descriptor is None && !w.vicinity ==> starts_cleanly(ascii(t), q3)
            &&& w.descriptor is None ==> vocab::<Descriptor>(ascii(t), q3) is None
        }),
    ensures
        weather_prefix(ascii(t), q0) == (
            w.intensity,
            w.vicinity,
            w.descriptor,
            q0 + (weather_parts(w).0.len() + weather_parts(w).1.len()
                + weather_parts(w).2.len()) as int,
        ),
        lit(ascii(t), q0, "//"@) is None,
{
    let (ic, vc, dc, cc) = weather_parts(w);
    let u = t.subrange(q0, q0 + weather_text(w).len());
    let s = ascii(t);
    reveal_strlit("-");
    reveal_strlit("");
    reveal_strlit("+");
    reveal_strlit("VC");
    reveal_strlit("//");
    assert("-"@.len() == 1 && "-"@[0] == '-' && "+"@.len() == 1 && "+"@[0] == '+');
    assert(""@.len() == 0);
    assert("VC"@.len() == 2 && "VC"@[0] == 'V' && "VC"@[1] == 'C');
    assert("//"@.len() == 2 && "//"@[0] == '/');
    assert(s.len() == t.len());
    if let Some(d) = w.descriptor {
        descriptor_code_len(d);
    }
    let q1 = q0 + ic.len() as int;
    let q2 = q1 + vc.len();
    if let Some(d) = w.descriptor {
        assert(t.subrange(q2, q2 + 2) =~= u.subrange(q2 - q0, q2 - q0 + 2));
        assert(t.subrange(q2, q2 + 2) =~= d.spec_code());
        lex_descriptor(t, q2, d);
    }
    if w.vicinity {
        assert(u[q1 - q0] == 'V' && u[q1 - q0 + 1] == 'C');
        assert(t[q1] == 'V' && t[q1 + 1] == 'C');
        assert(s[q1] == 'V' as u8 && s[q1 + 1] == 'C' as u8);
        assert(lit(s, q1, "VC"@) == Some(q1 + 2));
        assert(!byte_is(s, q1, '-') && !byte_is(s, q1, '+'));
        assert(lit(s, q1, "//"@) is None);
    }
    if w.intensity != Intensity::Moderate {
        assert(u[0] == ic[0]);
        assert(t[q0] == ic[0]);
        assert(lit(s, q0, "//"@) is None);
    }
}

/// A well-formed weather group written at `q0` and followed by a space or
/// the end of the text is read back at `q0` as the same group.
proof fn weather_round_trip_at(w: WeatherModel, t: Seq<char>, q0: int)
    requires
        weather_well_formed(w),
        0 <= q0,
        q0 + weather_text(w).len() <= t.len(),
        t.subrange(q0, q0 + weather_text(w).len()) == weather_text(w),
        boundary(t, q0 + weather_text(w).len()),
    ensures
        weather(ascii(t), q0) == Some((Some(w), q0 + weather_text(w).len())),
{
    let (ic, vc, dc, cc) = weather_parts(w);
    let e = q0 + weather_text(w).len();
    assert(weather_text(w) =~= ic + vc + dc + cc);
    let q3 = q0 + ic.len() + vc.len() + dc.len();
    assert(t.subrange(q3 as int, e) =~= t.subrange(q0, e).subrange(q3 - q0, e - q0));
    assert(t.subrange(q3 as int, e) =~= cc);
    condition_round_trip(w, t, q3 as int, e);
    prefix_round_trip(w, t, q0);
}

/// Writing a well-formed weather group as text and reading it back gives
/// the same group, and the reading takes the whole text.
pub proof fn weather_text_round_trip(w: WeatherModel)
    requires
        weather_well_formed(w),
    ensures
        weather(ascii(weather_text(w)), 0) == Some((Some(w), weather_text(w).len() as int)),
{
    let t = weather_text(w);
    assert(t.subrange(0, t.len() as int) =~= t);
    weather_round_trip_at(w, t, 0);
}

proof fn intensity_code_is_ascii(v: Intensity)
    ensures
        is_ascii_chars(v.spec_code()),
{
    reveal_strlit("-");
    reveal_strlit("");
    reveal_strlit("+");
    assert("-"@.len() == 1 && "-"@[0] == '-');
    assert(""@.len() == 0);
    assert("+"@.len() == 1 && "+"@[0] == '+');
}

proof fn descriptor_code_is_ascii(v: Descriptor)
    ensures
        is_ascii_chars(v.spec_code()),
{
    reveal_strlit("MI");
    reveal_strlit("PR");
    reveal_strlit("BC");
    reveal_strlit("DR");
    reveal_strlit("BL");
    reveal_strlit("SH");
    reveal_strlit("TS");
    reveal_strlit("FZ");
    assert("MI"@.len() == 2 && "MI"@[0] == 'M' && "MI"@[1] == 'I');
    assert("PR"@.len() == 2 && "PR"@[0] == 'P' && "PR"@[1] == 'R');
    assert("BC"@.len() == 2 && "BC"@[0] == 'B' && "BC"@[1] == 'C');
    assert("DR"@.len() == 2 && "DR"@[0] == 'D' && "DR"@[1] == 'R');
    assert("BL"@.len() == 2 && "BL"@[0] == 'B' && "BL"@[1] == 'L');
    assert("SH"@.len() == 2 && "SH"@[0] == 'S' && "SH"@[1] == 'H');
    assert("TS"@.len() == 2 && "TS"@[0] == 'T' && "TS"@[1] == 'S');
    assert("FZ"@.len() == 2 && "FZ"@[0] == 'F' && "FZ"@[1] == 'Z');
}

proof fn precipitation_code_is_ascii(v: Precipitation)
    ensures
        is_ascii_chars(v.spec_code()),
{
    reveal_strlit("RA");
    reveal_strlit("DZ");
    reveal_strlit("SN");
    reveal_strlit("SG");
    reveal_strlit("IC");
    reveal_strlit("PL");
    reveal_strlit("GR");
    reveal_strlit("GS");
    reveal_strlit("UP");
    assert("RA"@.len() == 2 && "RA"@[0] == 'R' && "RA"@[1] == 'A');
    assert("DZ"@.len() == 2 && "DZ"@[0] == 'D' && "DZ"@[1] == 'Z');
    assert("SN"@.len() == 2 && "SN"@[0] == 'S' && "SN"@[1] == 'N');
    assert("SG"@.len() == 2 && "SG"@[0] == 'S' && "SG"@[1] == 'G');
    assert("IC"@.len() == 2 && "IC"@[0] == 'I' && "IC"@[1] == 'C');
    assert("PL"@.len() == 2 && "PL"@[0] == 'P' && "PL"@[1] == 'L');
    assert("GR"@.len() == 2 && "GR"@[0] == 'G' && "GR"@[1] == 'R');
    assert("GS"@.len() == 2 && "GS"@[0] == 'G' && "GS"@[1] == 'S');
    assert("UP"@.len() == 2 && "UP"@[0] == 'U' && "UP"@[1] == 'P');
}

proof fn obscuration_code_is_ascii(v: Obscuration)
    ensures
        is_ascii_chars(v.spec_code()),
{
    reveal_strlit("FG");
    reveal_strlit("BR");
    reveal_strlit("HZ");
    reveal_strlit("VA");
    reveal_strlit("DU");
    reveal_strlit("FU");
    reveal_strlit("SA");
    reveal_strlit("PY");
    assert("FG"@.len() == 2 && "FG"@[0] == 'F' && "FG"@[1] == 'G');
    assert("BR"@.len() == 2 && "BR"@[0] == 'B' && "BR"@[1] == 'R');
    assert("HZ"@.len() == 2 && "HZ"@[0] == 'H' && "HZ"@[1] == 'Z');
    assert("VA"@.len() == 2 && "VA"@[0] == 'V' && "VA"@[1] == 'A');
    assert("DU"@.len() == 2 && "DU"@[0] == 'D' && "DU"@[1] == 'U');
    assert("FU"@.len() == 2 && "FU"@[0] == 'F' && "FU"@[1] == 'U');
    assert("SA"@.len() == 2 && "SA"@[0] == 'S' && "SA"@[1] == 'A');
    assert("PY"@.len() == 2 && "PY"@[0] == 'P' && "PY"@[1] == 'Y');
}

proof fn other_code_is_ascii(v: Other)
    ensures
        is_ascii_chars(v.spec_code()),
{
    reveal_strlit("SQ");
    reveal_strlit("PO");
    reveal_strlit("DS");
    reveal_strlit("SS");
    reveal_strlit("FC");
    assert("SQ"@.len() == 2 && "SQ"@[0] == 'S' && "SQ"@[1] == 'Q');
    assert("PO"@.len() == 2 && "PO"@[0] == 'P' && "PO"@[1] == 'O');
    assert("DS"@.len() == 2 && "DS"@[0] == 'D' && "DS"@[1] == 'S');
    assert("SS"@.len() == 2 && "SS"@[0] == 'S' && "SS"@[1] == 'S');
    assert("FC"@.len() == 2 && "FC"@[0] == 'F' && "FC"@[1] == 'C');
}

proof fn precipitation_text_is_ascii(ps: Seq<Precipitation>)
    ensures
        is_ascii_chars(precipitation_text(ps)),
    decreases ps.len(),
{
    if ps.len() > 0 {
        precipitation_text_is_ascii(ps.drop_last());
        precipitation_code_is_ascii(ps.last());
        is_ascii_chars_concat(
            precipitation_text(ps),
            precipitation_text(ps.drop_last()),
            ps.last().spec_code(),
        );
    }
}

proof fn weather_text_is_ascii(w: WeatherModel)
    ensures
        is_ascii_chars(weather_text(w)),
{
    let (ic, vc, dc, cc) = weather_parts(w);
    intensity_code_is_ascii(w.intensity);
    reveal_strlit("VC");
    assert("VC"@.len() == 2 && "VC"@[0] == 'V' && "VC"@[1] == 'C');
    assert(is_ascii_chars(vc));
    if let Some(d) = w.descriptor {
        descriptor_code_is_ascii(d);
    }
    assert(is_ascii_chars(dc));
    match w.condition {
        Some(ConditionModel::Precipitation(ps)) => precipitation_text_is_ascii(ps),
        Some(ConditionModel::Obscuration(o)) => obscuration_code_is_ascii(o),
        Some(ConditionModel::Other(x)) => other_code_is_ascii(x),
        None => {},
    }
    assert(is_ascii_chars(cc));
    assert(weather_text(w) =~= ic + vc + dc + cc);
    is_ascii_chars_concat(ic + vc, ic, vc);
    is_ascii_chars_concat(ic + vc + dc, ic + vc, dc);
    is_ascii_chars_concat(ic + vc + dc + cc, ic + vc + dc, cc);
}

/// The UTF-8 bytes of a well-formed weather group's text read back as the
/// same group, taking the whole text: what `Weather::to_text` writes,
/// `parse::weather` reads back.
pub proof fn weather_text_reads_back(w: WeatherModel)
    requires
        weather_well_formed(w),
    ensures
        weather(encode_utf8(weather_text(w)), 0) == Some(
            (Some(w), encode_utf8(weather_text(w)).len() as int),
        ),
{
    let t = weather_text(w);
    weather_text_is_ascii(w);
    is_ascii_chars_encode_utf8(t);
    assert(encode_utf8(t) =~= ascii(t));
    weather_text_round_trip(w);
}

/// A text that starts with a capital letter, `-` or `+`, and with `MI`
/// when it starts with `M`.
pub open spec fn code_start(c: Seq<char>) -> bool {
    c.len() >= 2 && ('A' <= c[0] <= 'Z' || c[0] == '-' || c[0] == '+') && (c[0] == 'M' ==> c[1]
        == 'I')
}

proof fn descriptor_code_start(v: Descriptor)
    ensures
        v.spec_code().len() == 2,
        code_start(v.spec_code()),
{
    reveal_strlit("MI");
    reveal_strlit("PR");
    reveal_strlit("BC");
    reveal_strlit("DR");
    reveal_strlit("BL");
    reveal_strlit("SH");
    reveal_strlit("TS");
    reveal_strlit("FZ");
    assert("MI"@.len() == 2 && "MI"@[0] == 'M' && "MI"@[1] == 'I');
    assert("PR"@.len() == 2 && "PR"@[0] == 'P' && "PR"@[1] == 'R');
    assert("BC"@.len() == 2 && "BC"@[0] == 'B' && "BC"@[1] == 'C');
    assert("DR"@.len() == 2 && "DR"@[0] == 'D' && "DR"@[1] == 'R');
    assert("BL"@.len() == 2 && "BL"@[0] == 'B' && "BL"@[1] == 'L');
    assert("SH"@.len() == 2 && "SH"@[0] == 'S' && "SH"@[1] == 'H');
    assert("TS"@.len() == 2 && "TS"@[0] == 'T' && "TS"@[1] == 'S');
    assert("FZ"@.len() == 2 && "FZ"@[0] == 'F' && "FZ"@[1] == 'Z');
}

proof fn precipitation_code_start(v: Precipitation)
    ensures
        v.spec_code().len() == 2,
        code_start(v.spec_code()),
{
    reveal_strlit("RA");
    reveal_strlit("DZ");
    reveal_strlit("SN");
    reveal_strlit("SG");
    reveal_strlit("IC");
    reveal_strlit("PL");
    reveal_strlit("GR");
    reveal_strlit("GS");
    reveal_strlit("UP");
    assert("RA"@.len() == 2 && "RA"@[0] == 'R' && "RA"@[1] == 'A');
    assert("DZ"@.len() == 2 && "DZ"@[0] == 'D' && "DZ"@[1] == 'Z');
    assert("SN"@.len() == 2 && "SN"@[0] == 'S' && "SN"@[1] == 'N');
    assert("SG"@.len() == 2 && "SG"@[0] == 'S' && "SG"@[1] == 'G');
    assert("IC"@.len() == 2 && "IC"@[0] == 'I' && "IC"@[1] == 'C');
    assert("PL"@.len() == 2 && "PL"@[0] == 'P' && "PL"@[1] == 'L');
    assert("GR"@.len() == 2 && "GR"@[0] == 'G' && "GR"@[1] == 'R');
    assert("GS"@.len() == 2 && "GS"@[0] == 'G' && "GS"@[1] == 'S');
    assert("UP"@.len() == 2 && "UP"@[0] == 'U' && "UP"@[1] == 'P');
}

proof fn obscuration_code_start(v: Obscuration)
    ensures
        v.spec_code().len() == 2,
        code_start(v.spec_code()),
{
    reveal_strlit("FG");
    reveal_strlit("BR");
    reveal_strlit("HZ");
    reveal_strlit("VA");
    reveal_strlit("DU");
    reveal_strlit("FU");
    reveal_strlit("SA");
    reveal_strlit("PY");
    assert("FG"@.len() == 2 && "FG"@[0] == 'F' && "FG"@[1] == 'G');
    assert("BR"@.len() == 2 && "BR"@[0] == 'B' && "BR"@[1] == 'R');
    assert("HZ"@.len() == 2 && "HZ"@[0] == 'H' && "HZ"@[1] == 'Z');
    assert("VA"@.len() == 2 && "VA"@[0] == 'V' && "VA"@[1] == 'A');
    assert("DU"@.len() == 2 && "DU"@[0] == 'D' && "DU"@[1] == 'U');
    assert("FU"@.len() == 2 && "FU"@[0] == 'F' && "FU"@[1] == 'U');
    assert("SA"@.len() == 2 && "SA"@[0] == 'S' && "SA"@[1] == 'A');
    assert("PY"@.len() == 2 && "PY"@[0] == 'P' && "PY"@[1] == 'Y');
}

proof fn other_code_start(v: Other)
    ensures
        v.spec_code().len() == 2,
        code_start(v.spec_code()),
{
    reveal_strlit("SQ");
    reveal_strlit("PO");
    reveal_strlit("DS");
    reveal_strlit("SS");
    reveal_strlit("FC");
    assert("SQ"@.len() == 2 && "SQ"@[0] == 'S' && "SQ"@[1] == 'Q');
    assert("PO"@.len() == 2 && "PO"@[0] == 'P' && "PO"@[1] == 'O');
    assert("DS"@.len() == 2 && "DS"@[0] == 'D' && "DS"@[1] == 'S');
    assert("SS"@.len() == 2 && "SS"@[0] == 'S' && "SS"@[1] == 'S');
    assert("FC"@.len() == 2 && "FC"@[0] == 'F' && "FC"@[1] == 'C');
}

proof fn weather_text_start(w: WeatherModel)
    requires
        weather_well_formed(w),
    ensures
        code_start(weather_text(w)),
{
    let (ic, vc, dc, cc) = weather_parts(w);
    let t = weather_text(w);
    assert(t =~= ic + vc + dc + cc);
    reveal_strlit("-");
    reveal_strlit("");
    reveal_strlit("+");
    reveal_strlit("VC");
    assert("-"@.len() == 1 && "-"@[0] == '-' && "+"@.len() == 1 && "+"@[0] == '+');
    assert(""@.len() == 0);
    assert("VC"@.len() == 2 && "VC"@[0] == 'V' && "VC"@[1] == 'C');
    let rest = vc + dc + cc;
    assert(t =~= ic + rest);
    if let Some(d) = w.descriptor {
        descriptor_code_start(d);
    }
    match w.condition {
        Some(ConditionModel::Precipitation(ps)) => {
            lemma_precipitation_text_front(ps);
            precipitation_code_start(ps[0]);
            assert(cc[0] == ps[0].spec_code()[0] && cc[1] == ps[0].spec_code()[1]);
        },
        Some(ConditionModel::Obscuration(o)) => {
            obscuration_code_start(o);
        },
        Some(ConditionModel::Other(x)) => {
            other_code_start(x);
        },
        None => {},
    }
    assert(code_start(rest));
    if ic.len() == 1 {
        assert(t[0] == ic[0]);
    } else {
        assert(t =~= rest);
    }
}

/// Weather groups written one after another, separated by single spaces.
pub open spec fn weather_list_text(ws: Seq<WeatherModel>) -> Seq<char>
    decreases ws.len(),
{
    if ws.len() == 0 {
        Seq::empty()
    } else if ws.len() == 1 {
        weather_text(ws[0])
    } else {
        weather_text(ws[0]) + seq![' '] + weather_list_text(ws.drop_first())
    }
}

proof fn nothing_read_at_end(t: Seq<char>)
    ensures
        weather(ascii(t), t.len() as int) is None,
        whitespace(ascii(t), t.len() as int) == t.len(),
{
    let s = ascii(t);
    let n = t.len() as int;
    assert(s.len() == t.len());
    lemma_nothing_after_end(s);
    reveal_strlit("//");
    reveal_strlit("VC");
    assert("//"@.len() == 2 && "VC"@.len() == 2);
    no_descriptor_at_boundary(t, n);
    no_precipitation_at_boundary(t, n);
    no_obscuration_at_boundary(t, n);
    no_other_at_boundary(t, n);
}

proof fn single_space_separates(t: Seq<char>, p: int)
    requires
        0 <= p,
        p + 3 <= t.len(),
        t[p] == ' ',
        code_start(t.subrange(p + 1, t.len() as int)),
    ensures
        whitespace(ascii(t), p) == p + 1,
{
    let s = ascii(t);
    assert(s.len() == t.len());
    let c = t.subrange(p + 1, t.len() as int);
    assert(t[p + 1] == c[0] && t[p + 2] == c[1]);
    assert(s[p] == ' ' as u8);
    assert(spaced_slashes(s, p) == p);
    assert(slash_garbage(s, p) is None);
    if t[p + 1] == 'M' {
        assert(s[p + 2] == 'I' as u8);
        assert(spaced_ms(s, p + 2) == p + 2);
    }
    assert(m_group(s, p) is None);
    assert(m_groups(s, p) == p);
    assert(whitespace_unit(s, p) == Some(p + 1));
    assert(spaced_slashes(s, p + 1) == p + 1);
    assert(slash_garbage(s, p + 1) is None);
    assert(spaced_ms(s, p + 1) == p + 1);
    assert(m_group(s, p + 1) is None);
    assert(m_groups(s, p + 1) == p + 1);
    assert(whitespace_unit(s, p + 1) is None);
    assert(whitespace(s, p + 1) == p + 1);
}

proof fn weather_list_tail(ws: Seq<WeatherModel>, t: Seq<char>, p: int)
    requires
        forall|i: int| 0 <= i < ws.len() ==> weather_well_formed(#[trigger] ws[i]),
        0 <= p <= t.len(),
        ws.len() == 0 ==> p == t.len(),
        ws.len() > 0 ==> t.subrange(p, t.len() as int) == seq![' '] + weather_list_text(ws),
    ensures
        repeated::<WeatherRule>(ascii(t), p, false) == (ws, t.len() as int),
    decreases ws.len(),
{
    let s = ascii(t);
    let n = t.len() as int;
    assert(s.len() == t.len());
    if ws.len() == 0 {
        nothing_read_at_end(t);
        assert(ws =~= Seq::<WeatherModel>::empty());
    } else {
        let w = ws[0];
        let u = weather_text(w);
        weather_text_start(w);
        let l = weather_list_text(ws);
        assert(t.subrange(p, n).len() == n - p);
        assert((seq![' '] + l).len() == l.len() + 1);
        assert(t.subrange(p + 1, n) =~= t.subrange(p, n).subrange(1, n - p));
        assert(t.subrange(p + 1, n) =~= l);
        if ws.len() > 1 {
            assert(l =~= u + seq![' '] + weather_list_text(ws.drop_first()));
        } else {
            assert(l == u);
        }
        assert(l.subrange(0, u.len() as int) =~= u);
        assert(t.subrange(p + 1, p + 1 + u.len()) =~= l.subrange(0, u.len() as int));
        assert(t[p] == ' ') by {
            assert(t[p] == t.subrange(p, n)[0]);
        }
        assert(code_start(t.subrange(p + 1, n))) by {
            assert(t.subrange(p + 1, n)[0] == u[0]);
            assert(t.subrange(p + 1, n)[1] == u[1]);
        }
        single_space_separates(t, p);
        let e = p + 1 + u.len();
        if ws.len() > 1 {
            assert(t.subrange(e, n) =~= seq![' '] + weather_list_text(ws.drop_first())) by {
                assert(weather_list_text(ws) =~= u + seq![' '] + weather_list_text(ws.drop_first()));
                assert(t.subrange(e, n) =~= t.subrange(p + 1, n).subrange(u.len() as int, n - p - 1));
            }
            assert(t[e] == ' ') by {
                assert(t[e] == t.subrange(e, n)[0]);
            }
        } else {
            assert(weather_list_text(ws) == u);
            assert(t.subrange(p + 1, n).len() == n - p - 1);
            assert(e == n);
        }
        weather_round_trip_at(w, t, p + 1);
        assert forall|i: int| 0 <= i < ws.drop_first().len() implies weather_well_formed(
            #[trigger] ws.drop_first()[i],
        ) by {
            assert(ws.drop_first()[i] == ws[i + 1]);
        }
        weather_list_tail(ws.drop_first(), t, e);
        assert(seq![w] + ws.drop_first() =~= ws);
    }
}

/// Weather groups written one after another with single spaces read back
/// as the same groups in the same order, taking the whole text.
pub proof fn weather_list_round_trip(ws: Seq<WeatherModel>)
    requires
        forall|i: int| 0 <= i < ws.len() ==> weather_well_formed(#[trigger] ws[i]),
    ensures
        repeated::<WeatherRule>(ascii(weather_list_text(ws)), 0, true) == (
            ws,
            weather_list_text(ws).len() as int,
        ),
{
    let t = weather_list_text(ws);
    if ws.len() == 0 {
        nothing_read_at_end(t);
        assert(ws =~= Seq::<WeatherModel>::empty());
    } else {
        weather_list_head(ws, t);
    }
}

proof fn weather_list_head(ws: Seq<WeatherModel>, t: Seq<char>)
    requires
        forall|i: int| 0 <= i < ws.len() ==> weather_well_formed(#[trigger] ws[i]),
        ws.len() > 0,
        t == weather_list_text(ws),
    ensures
        repeated::<WeatherRule>(ascii(t), 0, true) == (ws, t.len() as int),
{
    let n = t.len() as int;
    let w = ws[0];
    let u = weather_text(w);
    let rest = ws.drop_first();
    weather_text_start(w);
    if ws.len() > 1 {
        assert(t =~= u + seq![' '] + weather_list_text(rest));
    } else {
        assert(t == u);
    }
    assert(t.subrange(0, u.len() as int) =~= u);
    let e = u.len() as int;
    if ws.len() > 1 {
        assert(t.subrange(e, n) =~= seq![' '] + weather_list_text(rest));
        assert(t[e] == ' ');
    }
    weather_round_trip_at(w, t, 0);
    assert forall|i: int| 0 <= i < rest.len() implies weather_well_formed(#[trigger] rest[i]) by {
        assert(rest[i] == ws[i + 1]);
    }
    weather_list_tail(rest, t, e);
    assert(ascii(t).len() == t.len());
    assert(WeatherRule::spec_parse(ascii(t), 0) == Some((Some(w), e)));
    assert(0 < e <= n);
    assert(seq![w] + rest =~= ws);
}

/// A pressure group: `A` and four digits of hundredths of inches of mercury,
/// or `Q` and four digits of hectopascals.
pub open spec fn pressure_text(inches: bool, value: nat) -> Seq<u8> {
    seq![if inches { 'A' as u8 } else { 'Q' as u8 }] + numeral(value, 4)
}

/// Reading a pressure group gives back exactly the pressure written in it,
/// and takes the whole group.
pub proof fn pressure_readings_are_exact(inches: bool, value: nat)
    requires
        value < 10000,
    ensures
        pressure(pressure_text(inches, value), 0) == Some(
            (
                Some(
                    if inches {
                        Pressure::spec_new(value as int, 100, PressureUnit::InchOfMercury)
                    } else {
                        Pressure::spec_new(value as int, 1, PressureUnit::Hectopascal)
                    },
                ),
                5int,
            ),
        ),
{
    let s = pressure_text(inches, value);
    numeral_len(value, 4);
    assert(s.len() == 5);
    assert(s.subrange(1, 5) =~= numeral(value, 4));
    reveal_with_fuel(pow10, 5);
    numeral_number(s, 1, 4, value);
    numeral_value(s, 1, 4, value);
    reveal_strlit("QFE");
    reveal_strlit("QNH");
    reveal_strlit("Q");
    reveal_strlit("A");
    assert("QFE"@.len() == 3 && "QFE"@[0] == 'Q' && "QFE"@[1] == 'F');
    assert("QNH"@.len() == 3 && "QNH"@[0] == 'Q' && "QNH"@[1] == 'N');
    assert("Q"@.len() == 1 && "Q"@[0] == 'Q' && "A"@.len() == 1 && "A"@[0] == 'A');
    assert(!is_digit(s[0]));
    // No separator between the unit and the digits.
    assert(spaced_slashes(s, 1) == 1);
    assert(slash_garbage(s, 1) is None);
    assert(spaced_ms(s, 1) == 1);
    assert(m_group(s, 1) is None);
    assert(m_groups(s, 1) == 1);
    assert(whitespace_unit(s, 1) is None);
    assert(whitespace(s, 1) == 1);
    lemma_nothing_after_end(s);
    assert(!byte_is(s, 5, '.'));
    assert(decimal(s, 1) == Some(((value as u64, 1u64), 5int)));
}

/// A prevailing visibility of a whole number of statute miles: one or two
/// digits and `SM`.
pub open spec fn statute_miles_text(miles: nat) -> Seq<u8> {
    numeral(miles, 2) + seq!['S' as u8, 'M' as u8]
}

/// Reading a visibility in statute miles gives back exactly the distance
/// written in it, and takes the whole group.
pub proof fn visibility_readings_are_exact(miles: nat)
    requires
        miles < 100,
    ensures
        visibility(statute_miles_text(miles), 0) == Some(
            (
                Some(
                    Visibility {
                        prevailing: Some(
                            RawVisibility {
                                out_of_range: None,
                                distance: Length::spec_new(miles as int, 1, LengthUnit::StatuteMile),
                            },
                        ),
                        minimum: None,
                        maximum_directional: None,
                    },
                ),
                4int,
            ),
        ),
{
    let s = statute_miles_text(miles);
    numeral_len(miles, 2);
    assert(s.len() == 4);
    assert(s.subrange(0, 2) =~= numeral(miles, 2));
    reveal_with_fuel(pow10, 3);
    numeral_number(s, 0, 2, miles);
    numeral_value(s, 0, 2, miles);
    assert(s[2] == 'S' as u8 && s[3] == 'M' as u8);
    reveal_strlit("NDV");
    reveal_strlit("////");
    reveal_strlit("M");
    reveal_strlit("P");
    reveal_strlit("KM");
    reveal_strlit("SM");
    assert("NDV"@.len() == 3 && "////"@[0] == '/' && "M"@.len() == 1 && "M"@[0] == 'M');
    assert("P"@.len() == 1 && "P"@[0] == 'P' && "KM"@.len() == 2 && "KM"@[0] == 'K');
    assert("SM"@.len() == 2 && "SM"@[0] == 'S' && "SM"@[1] == 'M');
    reveal_with_fuel(lex_table, 3);
    assert(digit_run_end(s, 2) == 2);
    assert(lit(s, 2, "NDV"@) is None);
    assert(vocab::<OutOfRange>(s, 0) is None);
    assert(spaced_slashes(s, 2) == 2);
    assert(slash_garbage(s, 2) is None);
    assert(spaced_ms(s, 2) == 2);
    assert(m_group(s, 2) is None);
    assert(m_groups(s, 2) == 2);
    assert(whitespace_unit(s, 2) is None);
    assert(whitespace(s, 2) == 2);
    assert(number(s, 2) is None);
    lemma_nothing_after_end(s);
    assert(visibility_unit(s, 2) == Some((LengthUnit::StatuteMile, 4int)));
    assert(raw_visibility(s, 0) == Some(
        (
            RawVisibility {
                out_of_range: None,
                distance: Length::spec_new(miles as int, 1, LengthUnit::StatuteMile),
            },
            4int,
        ),
    ));
    assert(vocab::<OutOfRange>(s, 4) is None);
    assert(directional_visibility(s, 4) is None);
}

/// A report whose station identifier stops after two characters cannot be
/// read, and the failure lies at the third character with exactly a digit
/// and a letter expected there.
pub proof fn short_identifier_fails_at_it(s: Seq<u8>)
    requires
        s.len() >= 3,
        is_letter(s[0]),
        is_letter(s[1]) || is_digit(s[1]),
        !is_letter(s[2]) && !is_digit(s[2]),
    ensures
        header(s) is None,
        metar(s) is None,
        header_failure(s, (0int, Set::<Expected>::empty())) == (
            2int,
            set![Expected::Digit, Expected::Letter],
        ),
{
    reveal(header);
    reveal(header_failure);
    reveal_strlit("METAR");
    reveal_strlit("SPECI");
    assert("METAR"@.len() == 5 && "METAR"@[2] == 'T');
    assert("SPECI"@.len() == 5 && "SPECI"@[2] == 'E');
    assert(spaced_slashes(s, 0) == 0);
    assert(slash_garbage(s, 0) is None);
    assert(spaced_ms(s, 0) == 0);
    assert(m_group(s, 0) is None);
    assert(m_groups(s, 0) == 0);
    assert(whitespace_unit(s, 0) is None);
    assert(whitespace(s, 0) == 0);
    assert(lit(s, 0, "METAR"@) is None);
    assert(lit(s, 0, "SPECI"@) is None);
    assert(report_name(s, 0) is None);
    assert(icao_identifier(s, 0) is None);
    let f0 = (0int, Set::<Expected>::empty());
    let f1 = noted(noted(noted(f0, 0, Expected::Whitespace), 0, Expected::ReportName), 0, Expected::Whitespace);
    assert(f1.0 == 0);
    let f2 = letter_or_digit_failure(s, 1, f1);
    assert(f2.0 <= 1);
    assert(icao_identifier_failure(s, 0, f1) == letter_or_digit_failure(s, 2, f2));
    assert(letter_or_digit_failure(s, 2, f2) == noted(noted(f2, 2, Expected::Letter), 2, Expected::Digit));
    assert(set![Expected::Letter].insert(Expected::Digit) =~= set![Expected::Digit, Expected::Letter]);
}

} // verus!

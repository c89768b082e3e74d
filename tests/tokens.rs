use metar::failure::{Expected, ParseError};
use metar::tokens::{
    CloudCoverage, ColorState, CompassDirection, Condition, Descriptor, Intensity, MilitaryTime,
    ObservationFlag, Precipitation, TimeRange, Weather, Wind,
};
use metar::units::{Angle, Length, LengthUnit, Velocity, VelocityUnit};
use metar::vocabulary::{from_code, Vocabulary};

#[test]
fn codes_and_synonyms() {
    assert_eq!(from_code::<CloudCoverage>("FEW"), Some(CloudCoverage::Few));
    assert_eq!(from_code::<CloudCoverage>("FW"), Some(CloudCoverage::Few));
    assert_eq!(from_code::<CloudCoverage>("SC"), Some(CloudCoverage::Scattered));
    assert_eq!(from_code::<ColorState>("YLO"), Some(ColorState::YellowOne));
    assert_eq!(from_code::<ColorState>("YLO1"), Some(ColorState::YellowOne));
    assert_eq!(from_code::<CloudCoverage>("FEWX"), None);
    assert_eq!(from_code::<CompassDirection>(""), None);
    assert_eq!(CloudCoverage::Few.code(), "FEW");
    assert_eq!(ColorState::BluePlus.code(), "BLU+");
    assert_eq!(Intensity::Moderate.code(), "");
}

#[test]
fn every_code_reads_back() {
    for v in [
        CloudCoverage::NoCloud,
        CloudCoverage::NilCloud,
        CloudCoverage::Clear,
        CloudCoverage::NoSignificantCloud,
        CloudCoverage::Few,
        CloudCoverage::Scattered,
        CloudCoverage::Broken,
        CloudCoverage::Overcast,
        CloudCoverage::VerticalVisibility,
    ] {
        assert_eq!(from_code::<CloudCoverage>(v.code()), Some(v));
    }
    for v in [Descriptor::Shallow, Descriptor::Freezing, Descriptor::Thunderstorm] {
        assert_eq!(from_code::<Descriptor>(v.code()), Some(v));
    }
}

#[test]
fn observation_flag_codes() {
    assert_eq!(ObservationFlag::from_code("AUTO"), Some(ObservationFlag::Auto));
    assert_eq!(ObservationFlag::from_code("NIL"), Some(ObservationFlag::Nil));
    assert_eq!(
        ObservationFlag::from_code("CCA"),
        Some(ObservationFlag::Correction { letter: Some('A') })
    );
    assert_eq!(ObservationFlag::from_code("CC1"), None);
    assert_eq!(ObservationFlag::from_code("CCAB"), None);
    assert_eq!(ObservationFlag::Correction { letter: Some('B') }.to_text(), "CCB");
    assert_eq!(ObservationFlag::Correction { letter: None }.to_text(), "COR");
    assert_eq!(ObservationFlag::Delayed.to_text(), "RTD");
}

#[test]
fn weather_text() {
    let w = Weather {
        intensity: Intensity::Heavy,
        vicinity: false,
        descriptor: Some(Descriptor::Thunderstorm),
        condition: Some(Condition::Precipitation(vec![Precipitation::Rain, Precipitation::Snow])),
    };
    assert_eq!(w.to_text(), "+TSRASN");
    let back = metar::parse::weather(&w.to_text()).unwrap().unwrap();
    assert_eq!(back, w);
    let w = Weather { intensity: Intensity::Moderate, vicinity: true, descriptor: Some(Descriptor::Showers), condition: None };
    assert_eq!(w.to_text(), "VCSH");
}

#[test]
fn units_agree() {
    assert!(Velocity::new(1, 1, VelocityUnit::Knot) == Velocity::new(463, 900, VelocityUnit::MetrePerSecond));
    assert!(Velocity::new(1000, 1, VelocityUnit::Knot) == Velocity::new(1852, 1, VelocityUnit::KilometrePerHour));
    assert!(Velocity::new(1, 1, VelocityUnit::Knot) != Velocity::new(1, 1, VelocityUnit::KilometrePerHour));
    assert!(Length::new(1, 1, LengthUnit::StatuteMile) == Length::new(1609344, 1000, LengthUnit::Metre));
    assert!(Length::new(3, 1, LengthUnit::Foot) == Length::new(9144, 10000, LengthUnit::Metre));
    let one_knot = Velocity::new(1, 1, VelocityUnit::Knot);
    let mps = one_knot.numerator as f64 / one_knot.denominator as f64;
    assert!((mps - 0.514444).abs() < 1e-6);
}

#[test]
fn calm_wind() {
    let calm = Wind {
        direction: Some(Angle { degrees: 0 }),
        speed: Some(Velocity::new(0, 1, VelocityUnit::Knot)),
        peak_gust: None,
        variance: None,
    };
    assert_eq!(calm.is_calm(), Some(true));
    let breeze = Wind { speed: Some(Velocity::new(3, 1, VelocityUnit::Knot)), ..calm };
    assert_eq!(breeze.is_calm(), Some(false));
    let variable = Wind { direction: None, ..calm };
    assert_eq!(variable.is_calm(), None);
}

#[test]
fn time_range_duration() {
    let r = TimeRange {
        begin: MilitaryTime { hour: 12, minute: 0 },
        end: MilitaryTime { hour: 14, minute: 30 },
    };
    assert_eq!(r.duration_minutes(), 150);
}

#[test]
fn failure_messages() {
    let mut e = ParseError::start();
    assert_eq!(e.message(), "unclear cause");
    e.note(3, Expected::Whitespace);
    assert_eq!(e.message(), "expected whitespace");
    e.note(3, Expected::Digit);
    e.note(3, Expected::Letter);
    e.note(3, Expected::Digit);
    e.note(1, Expected::Trend);
    assert_eq!(e.offset, 3);
    assert_eq!(e.expected, vec![Expected::Digit, Expected::Letter, Expected::Whitespace]);
    assert_eq!(e.message(), "expected one of digit, letter, or whitespace");
    e.note(5, Expected::CompassDirection);
    assert_eq!(e.message(), "expected 8-point compass direction");
}

#[test]
fn quantities_order_by_value() {
    let ten_knots = Velocity::new(10, 1, VelocityUnit::Knot);
    let five_mps = Velocity::new(5, 1, VelocityUnit::MetrePerSecond);
    let seventeen_kmh = Velocity::new(17, 1, VelocityUnit::KilometrePerHour);
    let eighteen_kmh = Velocity::new(18, 1, VelocityUnit::KilometrePerHour);
    assert!(five_mps < ten_knots);
    assert!(seventeen_kmh < five_mps);
    assert!(eighteen_kmh == five_mps);
    assert!(Length::new(1, 1, LengthUnit::StatuteMile) > Length::new(1, 1, LengthUnit::Kilometre));
    assert!(Length::new(3, 1, LengthUnit::Foot) < Length::new(1, 1, LengthUnit::Metre));
    assert_eq!(
        Length::new(1, 2, LengthUnit::Metre).partial_cmp(&Length::new(5, 1, LengthUnit::Decimetre)),
        Some(std::cmp::Ordering::Equal)
    );
}

#[test]
fn calm_uses_float_epsilon() {
    let tiny = Wind {
        direction: Some(Angle { degrees: 0 }),
        speed: Some(Velocity { numerator: 1, denominator: 100_000_000_000_000_000 }),
        peak_gust: None,
        variance: None,
    };
    assert_eq!(tiny.is_calm(), Some(true));
    let slow = Wind { speed: Some(Velocity::new(1, 1000, VelocityUnit::MetrePerSecond)), ..tiny };
    assert_eq!(slow.is_calm(), Some(false));
    let still = metar::parse::wind("00000KMH").unwrap().unwrap();
    assert_eq!(still.is_calm(), Some(true));
    let light = metar::parse::wind("00001MPS").unwrap().unwrap();
    assert_eq!(light.is_calm(), Some(false));
}

#[test]
fn correction_letter_may_be_any_alphabetic_character() {
    assert_eq!(
        ObservationFlag::from_code("CCé"),
        Some(ObservationFlag::Correction { letter: Some('é') })
    );
    assert_eq!(ObservationFlag::from_code("CCé1"), None);
    assert_eq!(ObservationFlag::from_code("CC-"), None);
    let flag = ObservationFlag::Correction { letter: Some('é') };
    let text = flag.to_text();
    assert_eq!(text, "CCé");
    let back = ObservationFlag::from_code(&text).unwrap();
    assert_eq!(back, flag);
    assert_eq!(back.to_text(), text);
    assert_eq!(
        ObservationFlag::from_code_with("CCx", false),
        None
    );
}

#[test]
fn message_does_not_depend_on_label_order() {
    let a = ParseError { offset: 2, expected: vec![Expected::Letter, Expected::Digit] };
    let b = ParseError { offset: 2, expected: vec![Expected::Digit, Expected::Letter, Expected::Digit] };
    assert_eq!(a.message(), "expected one of digit, or letter");
    assert_eq!(a.message(), b.message());
    assert_eq!(b.sorted_expected(), vec![Expected::Digit, Expected::Letter]);
}

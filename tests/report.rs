use metar::failure::Expected;
use metar::parse::metar;
use metar::tokens::{
    CloudCoverage, Condition, Descriptor, Intensity, Obscuration, ObservationFlag, Trend,
};
use metar::units::{Angle, Length, LengthUnit, Pressure, PressureUnit, ThermodynamicTemperature, Velocity, VelocityUnit};

#[test]
fn seattle_report() {
    let input = "KSEA 251453Z 18004KT 10SM FEW025 SCT250 14/09 A3002 RMK AO2 SLP171";
    let r = metar(input).unwrap();
    assert_eq!(&input[r.identifier.start..r.identifier.end], "KSEA");
    let t = r.observation_time.unwrap();
    assert_eq!((t.day_of_month, t.time.hour, t.time.minute, t.is_zulu), (25, 14, 53, true));
    let w = r.wind.unwrap();
    assert_eq!(w.direction, Some(Angle { degrees: 180 }));
    assert!(w.speed == Some(Velocity::new(4, 1, VelocityUnit::Knot)));
    let v = r.visibility.unwrap().prevailing.unwrap();
    assert!(v.distance == Length::new(10, 1, LengthUnit::StatuteMile));
    assert_eq!(r.cloud_cover.len(), 2);
    assert_eq!(r.cloud_cover[0].coverage, CloudCoverage::Few);
    assert!(r.cloud_cover[0].base == Some(Length::new(2500, 1, LengthUnit::Foot)));
    assert_eq!(r.cloud_cover[1].coverage, CloudCoverage::Scattered);
    assert!(r.cloud_cover[1].base == Some(Length::new(25000, 1, LengthUnit::Foot)));
    let t = r.temperatures.unwrap();
    assert!(t.air == ThermodynamicTemperature::from_celsius(14));
    assert!(t.dewpoint == Some(ThermodynamicTemperature::from_celsius(9)));
    assert!(r.pressure == Some(Pressure::new(3002, 100, PressureUnit::InchOfMercury)));
    let remark = r.remark.unwrap();
    assert!(input[remark.start..remark.end].starts_with("RMK"));
    assert!(!r.cavok);
    assert!(!r.maintenance_needed);
}

#[test]
fn shallow_fog_report() {
    let r = metar("EPSY 290130Z 19002KT 2000 MIFG").unwrap();
    let w = r.wind.unwrap();
    assert_eq!(w.direction, Some(Angle { degrees: 190 }));
    assert!(w.speed == Some(Velocity::new(2, 1, VelocityUnit::Knot)));
    let v = r.visibility.unwrap().prevailing.unwrap();
    assert!(v.distance == Length::new(2000, 1, LengthUnit::Metre));
    assert_eq!(r.weather.len(), 1);
    assert_eq!(r.weather[0].intensity, Intensity::Moderate);
    assert_eq!(r.weather[0].descriptor, Some(Descriptor::Shallow));
    assert_eq!(r.weather[0].condition, Some(Condition::Obscuration(Obscuration::Fog)));
}

#[test]
fn automatic_report_without_dewpoint() {
    let r = metar("CWLC 270000Z AUTO 14/ RMK AO1 T0137").unwrap();
    assert_eq!(r.observation_flags, vec![ObservationFlag::Auto]);
    let t = r.temperatures.unwrap();
    assert!(t.air == ThermodynamicTemperature::from_celsius(14));
    assert!(t.dewpoint.is_none());
    assert!(r.wind.is_none());
}

#[test]
fn truncated_identifier_fails_at_it() {
    let e = metar("KS 251453Z").unwrap_err();
    assert_eq!(e.offset, 2);
    assert!(e.expected.contains(&Expected::Letter));
    assert!(e.expected.contains(&Expected::Digit));
    assert_eq!(e.message(), "expected one of digit, or letter");
}

#[test]
fn dangling_suffix_fails() {
    let e = metar("KSEA 251453Z 18004KT ???").unwrap_err();
    assert!(e.offset >= 21);
}

#[test]
fn clouds_from_two_places_are_concatenated() {
    let r = metar("ABCD 010000Z 00000KT 9999 FEW010 Q1013 BKN020").unwrap();
    assert_eq!(r.cloud_cover.len(), 2);
    assert_eq!(r.cloud_cover[0].coverage, CloudCoverage::Few);
    assert_eq!(r.cloud_cover[1].coverage, CloudCoverage::Broken);
    assert!(r.pressure == Some(Pressure::new(1013, 1, PressureUnit::Hectopascal)));
    assert_eq!(r.wind.unwrap().is_calm(), Some(true));
}

#[test]
fn cavok_trends_and_end_marker() {
    let r = metar("METAR LFPG 251200Z 24010KT CAVOK 18/12 Q1015 NOSIG=").unwrap();
    assert!(r.cavok);
    assert_eq!(r.trends, vec![Trend::NoSignificantChange]);
    assert!(r.temperatures.is_some());
    let r = metar("EGLL 251150Z 24015KT 9999 SCT030 15/08 Q1012 TEMPO FM1200 TL1400 4000 SHRA").unwrap();
    match &r.trends[0] {
        Trend::Temporarily(t) => {
            assert_eq!(t.weather.len(), 1);
            assert!(t.visibility.is_some());
            assert!(matches!(t.time, Some(metar::tokens::TrendTime::Range { .. })));
        }
        _ => panic!("expected a temporary trend"),
    }
}

#[test]
fn maintenance_marker_and_runway_reports() {
    let r = metar("KXYZ 251453Z AUTO 18004KT 10SM CLR 14/09 A3002 RMK AO2 $").unwrap();
    assert!(r.maintenance_needed);
    let r = metar("ULLI 251200Z 24004MPS 9999 SCT030 M05/M10 Q1020 R88/CLRD70 NOSIG").unwrap();
    assert_eq!(r.runway_reports.len(), 1);
    assert!(r.temperatures.unwrap().air == ThermodynamicTemperature::from_celsius(-5));
}

#[test]
fn missing_wind_is_absent_not_calm() {
    let r = metar("KXYZ 251453Z /////KT 10SM 14/09 A3002").unwrap();
    assert!(r.wind.is_none());
}

#[test]
fn weather_keeps_its_order() {
    let r = metar("KXYZ 251453Z 18004KT 3SM -RA BR OVC008 10/09 A2992 RESN").unwrap();
    assert_eq!(r.weather.len(), 2);
    assert_eq!(
        r.weather[0].condition,
        Some(Condition::Precipitation(vec![metar::tokens::Precipitation::Rain]))
    );
    assert_eq!(r.weather[1].condition, Some(Condition::Obscuration(Obscuration::Mist)));
    assert_eq!(r.recent_weather.len(), 1);
}

#[test]
fn runway_ranges_from_two_places_are_concatenated() {
    let r = metar("EDDF 251450Z 27010KT 0800 R25L/0600N FG VV002 05/05 Q1020 R07R/0800U").unwrap();
    assert_eq!(r.runway_visibilities.len(), 2);
    assert_eq!(r.runway_visibilities[0].designator.start, 27);
    assert_eq!(r.runway_visibilities[1].trend, Some(metar::tokens::VisibilityTrend::Up));
}

#[test]
fn military_colour_and_sea_state() {
    let r = metar("EGXX 251450Z 27010KT 9999 FEW030 12/08 Q1015 BLU GRN").unwrap();
    let c = r.color.unwrap();
    assert_eq!(c.current_color, metar::tokens::ColorState::Blue);
    assert_eq!(c.next_color, Some(metar::tokens::ColorState::Green));
    let r = metar("ENQA 251450Z 27010KT 9999 FEW030 12/08 Q1015 W11/S4").unwrap();
    assert_eq!(
        r.water_conditions.unwrap().surface_state,
        Some(metar::tokens::WaterSurfaceState::Moderate)
    );
}

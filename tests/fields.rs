use metar::parse::{
    cloud_cover, color, icao_identifier, observation_time, pressure, runway_visibility,
    temperatures, visibility, water_conditions, weather, whitespace, wind,
};
use metar::tokens::{
    CloudCoverage, ColorState, Condition, Descriptor, Intensity, Obscuration, OutOfRange,
    Precipitation, VisibilityTrend, VisibilityType, WaterSurfaceState,
};
use metar::units::{Angle, Length, LengthUnit, Pressure, PressureUnit, ThermodynamicTemperature, Velocity, VelocityUnit};

#[test]
fn parse_icao_identifier() {
    for val in ["KSEA", "A302"] {
        icao_identifier(val).expect(val);
    }
}

#[test]
fn parse_observation_time() {
    for val in ["251453Z"] {
        observation_time(val).expect(val);
    }
}

#[test]
fn parse_wind() {
    for val in ["1804KT", "VRB04G19KT", "09015G25KT", "/////KT ///V///"] {
        wind(val).expect(val);
    }
}

#[test]
fn parse_prevailing_visibility() {
    for val in ["1/2SM", "10SM"] {
        visibility(val).expect(val);
    }
}

#[test]
fn parse_runway_visibility() {
    for val in ["R40/3000FT", "R01L/3500VP6000FT", "R06/0600N", "R31///////"] {
        runway_visibility(val).expect(val);
    }
}

#[test]
fn parse_weather() {
    for val in ["-RA", "BR", "MIFG"] {
        weather(val).expect(val);
    }
}

#[test]
fn parse_cloud_cover() {
    for val in ["FEW025", "SCT250"] {
        cloud_cover(val).expect(val);
    }
}

#[test]
fn parse_temperatures() {
    for val in ["14/09", "24/M01", "14/"] {
        temperatures(val).expect(val);
    }
}

#[test]
fn parse_pressure() {
    for val in ["A3002"] {
        pressure(val).expect(val);
    }
}

#[test]
fn parse_water_conditions() {
    for val in ["W13/S3", "W13/S/", "W13/H10", "W///S3", "W13/H//"] {
        water_conditions(val).expect(val);
    }
}

#[test]
fn parse_color() {
    for val in ["WHT", "BLACKWHT", "WHT BLU"] {
        color(val).expect(val);
    }
}

#[test]
fn parse_whitespace() {
    for val in [" ///// ", " > ", "\t", "\r\n\r\n", " > /// \n> "] {
        whitespace(val).expect(val);
    }
}

#[test]
fn wind_values_are_exact() {
    let w = wind("18004KT").unwrap().unwrap();
    assert_eq!(w.direction, Some(Angle { degrees: 180 }));
    assert!(w.speed == Some(Velocity::new(4, 1, VelocityUnit::Knot)));
    assert!(w.peak_gust.is_none());
    assert!(w.variance.is_none());

    let w = wind("VRB02KT").unwrap().unwrap();
    assert_eq!(w.direction, None);
    assert!(w.speed == Some(Velocity::new(2, 1, VelocityUnit::Knot)));

    let w = wind("09015G25KT").unwrap().unwrap();
    assert_eq!(w.direction, Some(Angle { degrees: 90 }));
    assert!(w.speed == Some(Velocity::new(15, 1, VelocityUnit::Knot)));
    assert!(w.peak_gust == Some(Velocity::new(25, 1, VelocityUnit::Knot)));

    let w = wind("24008MPS 200V280").unwrap().unwrap();
    assert!(w.speed == Some(Velocity::new(8, 1, VelocityUnit::MetrePerSecond)));
    assert_eq!(w.variance, Some((Angle { degrees: 200 }, Angle { degrees: 280 })));

    let w = wind("27010G//KT").unwrap().unwrap();
    assert!(w.peak_gust.is_none());
}

#[test]
fn wind_speed_above_marker() {
    let w = wind("270P99KT").unwrap().unwrap();
    assert!(w.speed == Some(Velocity::new(99, 1, VelocityUnit::Knot)));
}

#[test]
fn wind_units_are_converted() {
    let kmh = wind("09036KMH").unwrap().unwrap();
    assert!(kmh.speed == Some(Velocity::new(10, 1, VelocityUnit::MetrePerSecond)));
    let kt = wind("09010KTS").unwrap().unwrap();
    assert!(kt.speed == Some(Velocity::new(1852 * 10, 3600, VelocityUnit::MetrePerSecond)));
}

#[test]
fn placeholders_are_absent() {
    assert!(wind("/////KT").unwrap().is_none());
    assert!(wind("//////MPS").unwrap().is_none());
    assert!(visibility("////").unwrap().is_none());
    assert!(visibility("9999NDV").unwrap().is_none());
    assert!(temperatures("XX/XX").unwrap().is_none());
    assert!(pressure("Q////").unwrap().is_none());
    assert!(pressure("QNIL").unwrap().is_none());
    assert!(pressure("A ////").unwrap().is_none());
    assert!(weather("//").unwrap().is_none());
    assert!(runway_visibility("R31///////").unwrap().is_none());
    assert!(runway_visibility("R/////").unwrap().is_none());
    let c = cloud_cover("BKN///").unwrap();
    assert_eq!(c.coverage, CloudCoverage::Broken);
    assert!(c.base.is_none());
    assert!(c.cloud_type.is_none());
    let t = temperatures("14/XX").unwrap().unwrap();
    assert!(t.dewpoint.is_none());
    let w = water_conditions("W///S3").unwrap();
    assert!(w.temperature.is_none());
}

#[test]
fn visibility_fractions_and_units() {
    let v = visibility("1/2SM").unwrap().unwrap();
    let p = v.prevailing.unwrap();
    assert!(p.distance == Length::new(1, 2, LengthUnit::StatuteMile));
    assert!(p.distance == Length::new(804672, 1000, LengthUnit::Metre));
    let v = visibility("1 1/4SM").unwrap().unwrap();
    assert!(v.prevailing.unwrap().distance == Length::new(5, 4, LengthUnit::StatuteMile));
    let v = visibility("10SM").unwrap().unwrap();
    assert!(v.prevailing.unwrap().distance == Length::new(10, 1, LengthUnit::StatuteMile));
    let v = visibility("2000").unwrap().unwrap();
    assert!(v.prevailing.unwrap().distance == Length::new(2, 1, LengthUnit::Kilometre));
    let v = visibility("M1/4SM").unwrap().unwrap();
    assert_eq!(v.prevailing.unwrap().out_of_range, Some(OutOfRange::Below));
}

#[test]
fn visibility_with_directions() {
    let v = visibility("4000 1500SW 6000N").unwrap().unwrap();
    assert!(v.prevailing.unwrap().distance == Length::new(4000, 1, LengthUnit::Metre));
    match v.minimum.unwrap() {
        metar::tokens::DirectionalOrRawVisiblity::Directional(d) => {
            assert_eq!(d.direction, metar::tokens::CompassDirection::SouthWest);
            assert!(d.distance.distance == Length::new(1500, 1, LengthUnit::Metre));
        }
        _ => panic!("expected a directional reading"),
    }
    let max = v.maximum_directional.unwrap();
    assert_eq!(max.direction, metar::tokens::CompassDirection::North);
}

#[test]
fn runway_visibility_values() {
    let r = runway_visibility("R01L/3500VP6000FT").unwrap().unwrap();
    assert_eq!((r.designator.start, r.designator.end), (1, 4));
    match r.visibility {
        VisibilityType::Varying { lower, upper } => {
            assert!(lower.distance == Length::new(3500, 1, LengthUnit::Foot));
            assert_eq!(lower.out_of_range, None);
            assert!(upper.distance == Length::new(6000, 1, LengthUnit::Foot));
            assert_eq!(upper.out_of_range, Some(OutOfRange::Above));
        }
        _ => panic!("expected a varying range"),
    }
    let r = runway_visibility("R06/0600N").unwrap().unwrap();
    assert_eq!(r.trend, Some(VisibilityTrend::NoChange));
    match r.visibility {
        VisibilityType::Fixed(v) => assert!(v.distance == Length::new(600, 1, LengthUnit::Metre)),
        _ => panic!("expected a fixed reading"),
    }
}

#[test]
fn runway_report_is_not_runway_visibility() {
    assert!(runway_visibility("R24/CLRD70").is_err());
    let r = metar::parse::runway_report("R24/CLRD70").unwrap();
    assert_eq!(
        r.report_info,
        metar::tokens::RunwayReportInfo::Cleared { friction: Some(70) }
    );
    let r = metar::parse::runway_report("R24/CLRD//").unwrap();
    assert_eq!(r.report_info, metar::tokens::RunwayReportInfo::Cleared { friction: None });
}

#[test]
fn weather_values() {
    let w = weather("-RA").unwrap().unwrap();
    assert_eq!(w.intensity, Intensity::Light);
    assert_eq!(w.condition, Some(Condition::Precipitation(vec![Precipitation::Rain])));
    let w = weather("MIFG").unwrap().unwrap();
    assert_eq!(w.intensity, Intensity::Moderate);
    assert_eq!(w.descriptor, Some(Descriptor::Shallow));
    assert_eq!(w.condition, Some(Condition::Obscuration(Obscuration::Fog)));
    let w = weather("+TSRASN").unwrap().unwrap();
    assert_eq!(w.intensity, Intensity::Heavy);
    assert_eq!(
        w.condition,
        Some(Condition::Precipitation(vec![Precipitation::Rain, Precipitation::Snow]))
    );
    let w = weather("VCTS").unwrap().unwrap();
    assert!(w.vicinity);
    assert_eq!(w.descriptor, Some(Descriptor::Thunderstorm));
    assert_eq!(w.condition, None);
    assert!(weather("XY").is_err());
}

#[test]
fn cloud_cover_values() {
    let c = cloud_cover("FEW025").unwrap();
    assert_eq!(c.coverage, CloudCoverage::Few);
    assert!(c.base == Some(Length::new(2500, 1, LengthUnit::Foot)));
    let c = cloud_cover("FW025").unwrap();
    assert_eq!(c.coverage, CloudCoverage::Few);
    let c = cloud_cover("BKN030CB").unwrap();
    assert_eq!(c.cloud_type, Some(metar::tokens::CloudType::Cumulonimbus));
    let c = cloud_cover("NSC").unwrap();
    assert_eq!(c.coverage, CloudCoverage::NoSignificantCloud);
    assert!(c.base.is_none());
}

#[test]
fn temperatures_values() {
    let t = temperatures("24/M01").unwrap().unwrap();
    assert!(t.air == ThermodynamicTemperature::from_celsius(24));
    assert!(t.dewpoint == Some(ThermodynamicTemperature::from_celsius(-1)));
    assert!(t.air == ThermodynamicTemperature::from_kelvin(29715, 100));
    let t = temperatures("14/").unwrap().unwrap();
    assert!(t.air == ThermodynamicTemperature::from_celsius(14));
    assert!(t.dewpoint.is_none());
    let t = temperatures("M05/M10").unwrap().unwrap();
    assert!(t.air == ThermodynamicTemperature::from_celsius(-5));
}

#[test]
fn pressure_values() {
    let p = pressure("A3002").unwrap().unwrap();
    assert!(p == Pressure::new(3002, 100, PressureUnit::InchOfMercury));
    assert!(p == Pressure::new(3002 * 3386389, 100 * 1000, PressureUnit::Pascal));
    let p = pressure("Q1013").unwrap().unwrap();
    assert!(p == Pressure::new(101300, 1, PressureUnit::Pascal));
    let p = pressure("QNH1013.5").unwrap().unwrap();
    assert!(p == Pressure::new(10135, 10, PressureUnit::Hectopascal));
}

#[test]
fn water_and_color_values() {
    let w = water_conditions("W13/S3").unwrap();
    assert!(w.temperature == Some(ThermodynamicTemperature::from_celsius(13)));
    assert_eq!(w.surface_state, Some(WaterSurfaceState::Slight));
    let w = water_conditions("W13/H10").unwrap();
    assert!(w.significant_wave_height == Some(Length::new(1, 1, LengthUnit::Metre)));
    let c = color("BLACKWHT").unwrap();
    assert!(c.is_black);
    assert_eq!(c.current_color, ColorState::White);
    let c = color("WHT BLU").unwrap();
    assert_eq!(c.next_color, Some(ColorState::Blue));
    let c = color("YLO").unwrap();
    assert_eq!(c.current_color, ColorState::YellowOne);
}

#[test]
fn whole_text_must_be_consumed() {
    assert!(wind("18004KT X").is_err());
    assert!(whitespace(" x").is_err());
    assert!(cloud_cover("FEW025 SCT250").is_err());
}

use mattori_home::peripherals::{
    ctrl_meas_byte, status_ok, verify_id, AtmosphereFeatures, Leds, Mode, Overscan, ParseLedsError, Register,
};
use mattori_home::sanyo::{AcState, Sanyo, SanyoError};
use mattori_home::sanyo_types::{SanyoMode, SanyoTemperatureCode, SanyoTrigger};
use mattori_home::text::parse_encoded;
use mattori_home::types::{ACMode, IrTarget, InvalidAcMode};

#[test]
fn mode_names_any_case() {
    assert_eq!("COOL".parse::<ACMode>(), Ok(ACMode::Cool));
    assert_eq!("Auto".parse::<ACMode>(), Ok(ACMode::Auto));
    assert_eq!(ACMode::parse("fan"), Ok(ACMode::Fan));
    assert_eq!(ACMode::parse("Dry"), Ok(ACMode::Dry));
    assert_eq!(ACMode::parse("warm"), Ok(ACMode::Warm));
    assert_eq!(ACMode::parse("heat"), Err(InvalidAcMode));
    assert_eq!(ACMode::parse(""), Err(InvalidAcMode));
    assert_eq!(ACMode::from_lowercase(&"cool".to_string()), Ok(ACMode::Cool));
    assert_eq!(ACMode::from_lowercase(&"COOL".to_string()), Err(InvalidAcMode));
    assert_eq!(ACMode::default(), ACMode::Auto);
}

#[test]
fn set_point_texts() {
    assert_eq!("25".parse::<SanyoTemperatureCode>(), Ok(SanyoTemperatureCode::T25));
    assert_eq!(SanyoTemperatureCode::parse("+16"), Ok(SanyoTemperatureCode::T16));
    assert!(SanyoTemperatureCode::parse("31").is_err());
    assert!(SanyoTemperatureCode::parse("2a").is_err());
    assert!(SanyoTemperatureCode::parse("").is_err());
    assert!(SanyoTemperatureCode::parse("99999999999").is_err());
    assert_eq!(SanyoTemperatureCode::from_lowercase("30"), Ok(SanyoTemperatureCode::T30));
}

#[test]
fn sanyo_mode_text() {
    assert_eq!(SanyoMode::parse("Cool".to_string()).unwrap(), SanyoMode::Cool);
    let e = SanyoMode::parse("Heat".to_string()).unwrap_err();
    assert_eq!(e.input, "Heat");
}

#[test]
fn encoded_hex() {
    assert_eq!(parse_encoded("1a9").unwrap(), 425);
    assert_eq!(parse_encoded("D48").unwrap(), 3400);
    assert_eq!(parse_encoded("+ff").unwrap(), 255);
    assert!(parse_encoded("").is_err());
    assert!(parse_encoded("g").is_err());
    assert!(parse_encoded("-1").is_err());
    assert!(parse_encoded("100000000000000000000000000000000").is_err());
}

#[test]
fn led_names() {
    assert_eq!("GREEN".parse::<Leds>(), Ok(Leds::Green));
    assert_eq!(Leds::parse("yellow"), Ok(Leds::Yellow));
    assert_eq!(Leds::parse("red"), Err(ParseLedsError {}));
    assert_eq!(u8::from(Leds::Green), 6);
    assert_eq!(u8::from(Leds::Yellow), 5);
}

#[test]
fn atmosphere_feature_dependencies() {
    let only_altitude = AtmosphereFeatures { temperature: false, pressure: false, humidity: false, altitude: true };
    assert!(only_altitude.pressure_enabled());
    assert!(only_altitude.temperature_enabled());
    assert!(!only_altitude.humidity_enabled());
    let only_humidity = AtmosphereFeatures { temperature: false, pressure: false, humidity: true, altitude: false };
    assert!(only_humidity.temperature_enabled());
    assert!(!only_humidity.pressure_enabled());
    let none = AtmosphereFeatures { temperature: false, pressure: false, humidity: false, altitude: false };
    assert!(!none.temperature_enabled());
    let all = AtmosphereFeatures::default();
    assert!(all.temperature_enabled() && all.pressure_enabled() && all.humidity_enabled() && all.altitude_enabled());
}

#[test]
fn sensor_codes() {
    assert_eq!(u8::from(Mode::Normal), 0x03);
    assert_eq!(u8::from(Mode::Sleep), 0x00);
    assert_eq!(u8::from(Register::ChipId), 0xd0);
    assert_eq!(u8::from(Register::HumidData), 0xfd);
    assert_eq!(u8::from(Overscan::X16), 0x05);
}

#[test]
fn registered_state_is_applied() {
    let mut s = Sanyo::default();
    let state = AcState { unpowered: false, mode: ACMode::Cool, temperature: SanyoTemperatureCode::T25 };
    let seq = state.send(&mut s).unwrap();
    let st = s.status();
    assert!(st.powered);
    assert_eq!(st.mode, ACMode::Cool);
    assert_eq!(st.temperature, SanyoTemperatureCode::T25);
    assert_eq!(seq.0, s.as_ir_sequence(SanyoTrigger::On).unwrap().0);
    // same set point again: no step is needed, and power off is sent
    let state = AcState { unpowered: true, ..state };
    let seq = state.send(&mut s).unwrap();
    assert!(!s.is_powered());
    assert_eq!(seq.0, s.as_ir_sequence(SanyoTrigger::Off).unwrap().0);
    let mut fresh = Sanyo::default();
    assert_eq!(fresh.temp_set(SanyoTemperatureCode::T16).unwrap_err(), SanyoError::TemperatureSame);
}

#[test]
fn sensor_register_bytes() {
    assert_eq!(ctrl_meas_byte(Overscan::X1, Overscan::X16, Mode::Normal), (1 << 5) + (5 << 2) + 3);
    assert_eq!(ctrl_meas_byte(Overscan::X16, Overscan::X16, Mode::Force), 0xb5);
    assert!(status_ok(0x00));
    assert!(status_ok(0x01));
    assert!(!status_ok(0x08));
    assert!(!status_ok(0x09));
    assert!(verify_id(0x60));
    assert!(!verify_id(0x58));
}

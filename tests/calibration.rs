use mattori_home::calibration::{Calibration, Humidity, PackedHumidity, Temperature};
use mattori_home::peripherals::AtmoI2cRawReadingType;
use mattori_home::sanyo_types::SanyoTemperatureCode;
use std::convert::TryFrom;

#[test]
fn temperature_block_little_endian() {
    let t = Temperature::unpack(&[0x70, 0x6b, 0x43, 0x67, 0x18, 0xfc]);
    assert_eq!(t, Temperature { a: 0x6b70, b: 0x6743, c: -1000 });
}

#[test]
fn humidity_nibbles() {
    let p = PackedHumidity::unpack(&[0x6e, 0x01, 0x00, 0x13, 0x25, 0x03, 0x1e]);
    assert_eq!(p, PackedHumidity { b: 366, c: 0, d: 19, e: 0x25, f: 3, g: 30 });
    let h = Humidity::from(75, p);
    assert_eq!(h, Humidity { a: 75, b: 366, c: 0, d: 19 * 16 + 5, e: 3 * 16 + 2, f: 30 });
    let negative = PackedHumidity { b: 0, c: 0, d: -2, e: 0xf1, f: -1, g: -3 };
    let h = Humidity::from(0, negative);
    assert_eq!(h.d, -32 + 1);
    assert_eq!(h.e, -16 + 15);
    assert_eq!(h.f, -3);
}

#[test]
fn whole_record_and_short_blocks() {
    let mut tp = vec![0u8; 24];
    tp[6] = 0x01;
    tp[7] = 0x80;
    tp[22] = 0xff;
    tp[23] = 0x7f;
    let h = [0u8; 7];
    let c = Calibration::parse(&tp, 9, &h).unwrap();
    assert_eq!(c.pressure.a, 0x8001);
    assert_eq!(c.pressure.i, 0x7fff);
    assert_eq!(c.humidity.a, 9);
    assert_eq!(Calibration::parse(&tp[..5], 0, &h), Err(AtmoI2cRawReadingType::Temperature));
    assert_eq!(Calibration::parse(&tp[..23], 0, &h), Err(AtmoI2cRawReadingType::Pressure));
    assert_eq!(Calibration::parse(&tp, 0, &h[..6]), Err(AtmoI2cRawReadingType::Humidity));
}

#[test]
fn set_point_conversions() {
    assert_eq!(SanyoTemperatureCode::try_from(20u32), Ok(SanyoTemperatureCode::T20));
    assert!(SanyoTemperatureCode::try_from(0u32).is_err());
    assert_eq!(u8::from(&SanyoTemperatureCode::T30), 30);
    assert_eq!(u32::from(SanyoTemperatureCode::T16), 16);
}

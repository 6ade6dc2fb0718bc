//! The atmospheric sensor's calibration record: little-endian fields read
//! from its calibration registers, and the humidity values that the sensor
//! stores split across nibbles.
use crate::peripherals::AtmoI2cRawReadingType;
use vstd::prelude::*;

verus! {

/// Bytes of the temperature block.
pub const TEMPERATURE_BYTES: usize = 6;

/// Bytes of the pressure block, which follows the temperature block.
pub const PRESSURE_BYTES: usize = 18;

/// Bytes of the humidity block read from the second humidity register.
pub const HUMIDITY_BYTES: usize = 7;

/// The unsigned value of the little-endian pair `lo`, `hi`.
pub open spec fn le_u16(lo: u8, hi: u8) -> int {
    lo + 256 * hi
}

/// The two's-complement value of the little-endian pair `lo`, `hi`.
pub open spec fn le_i16(lo: u8, hi: u8) -> int {
    if le_u16(lo, hi) >= 32768 {
        le_u16(lo, hi) - 65536
    } else {
        le_u16(lo, hi)
    }
}

/// The two's-complement value of one byte.
pub open spec fn byte_i8(b: u8) -> int {
    if b >= 128 {
        b - 256
    } else {
        b as int
    }
}

fn read_u16(bytes: &[u8], at: usize) -> (r: u16)
    requires
        at + 1 < bytes@.len(),
    ensures
        r == le_u16(bytes@[at as int], bytes@[at + 1]),
{
    bytes[at] as u16 + 256 * (bytes[at + 1] as u16)
}

fn read_i16(bytes: &[u8], at: usize) -> (r: i16)
    requires
        at + 1 < bytes@.len(),
    ensures
        r == le_i16(bytes@[at as int], bytes@[at + 1]),
{
    let u = read_u16(bytes, at);
    if u >= 32768 {
        (u as i32 - 65536) as i16
    } else {
        u as i16
    }
}

fn read_i8(b: u8) -> (r: i8)
    ensures
        r == byte_i8(b),
{
    if b >= 128 {
        (b as i16 - 256) as i8
    } else {
        b as i8
    }
}

/// Temperature coefficients.
#[derive(Clone, Copy, Debug, PartialEq, Eq, Structural)]
pub struct Temperature {
    pub a: u16,
    pub b: i16,
    pub c: i16,
}

/// Pressure coefficients.
#[derive(Clone, Copy, Debug, PartialEq, Eq, Structural)]
pub struct Pressure {
    pub a: u16,
    pub b: i16,
    pub c: i16,
    pub d: i16,
    pub e: i16,
    pub f: i16,
    pub g: i16,
    pub h: i16,
    pub i: i16,
}

/// The humidity block as stored: the fourth and fifth values share byte `e`.
#[derive(Clone, Copy, Debug, PartialEq, Eq, Structural)]
pub struct PackedHumidity {
    pub b: i16,
    pub c: u8,
    pub d: i8,
    pub e: u8,
    pub f: i8,
    pub g: i8,
}

/// Humidity coefficients.
#[derive(Clone, Copy, Debug, PartialEq, Eq, Structural)]
pub struct Humidity {
    pub a: u8,
    pub b: i16,
    pub c: u8,
    pub d: i16,
    pub e: i16,
    pub f: i8,
}

/// All coefficients of the sensor.
#[derive(Clone, Copy, Debug, PartialEq, Eq, Structural)]
pub struct Calibration {
    pub temperature: Temperature,
    pub pressure: Pressure,
    pub humidity: Humidity,
}

/// The temperature block at the start of `b`.
pub open spec fn temperature_of(b: Seq<u8>) -> Temperature {
    Temperature { a: le_u16(b[0], b[1]) as u16, b: le_i16(b[2], b[3]) as i16, c: le_i16(b[4], b[5]) as i16 }
}

/// The pressure block at offset `at` of `b`.
pub open spec fn pressure_of(b: Seq<u8>, at: int) -> Pressure {
    Pressure {
        a: le_u16(b[at], b[at + 1]) as u16,
        b: le_i16(b[at + 2], b[at + 3]) as i16,
        c: le_i16(b[at + 4], b[at + 5]) as i16,
        d: le_i16(b[at + 6], b[at + 7]) as i16,
        e: le_i16(b[at + 8], b[at + 9]) as i16,
        f: le_i16(b[at + 10], b[at + 11]) as i16,
        g: le_i16(b[at + 12], b[at + 13]) as i16,
        h: le_i16(b[at + 14], b[at + 15]) as i16,
        i: le_i16(b[at + 16], b[at + 17]) as i16,
    }
}

/// The packed humidity block at the start of `b`.
pub open spec fn packed_humidity_of(b: Seq<u8>) -> PackedHumidity {
    PackedHumidity {
        b: le_i16(b[0], b[1]) as i16,
        c: b[2],
        d: byte_i8(b[3]) as i8,
        e: b[4],
        f: byte_i8(b[5]) as i8,
        g: byte_i8(b[6]) as i8,
    }
}

/// The humidity coefficients from the first one and the packed block.
pub open spec fn humidity_of(a: u8, p: PackedHumidity) -> Humidity {
    Humidity {
        a,
        b: p.b,
        c: p.c,
        d: (p.d * 16 + p.e % 16) as i16,
        e: (p.f * 16 + p.e / 16) as i16,
        f: p.g,
    }
}

impl Temperature {
    /// Reads the block from the first `TEMPERATURE_BYTES` bytes.
    pub fn unpack(bytes: &[u8]) -> (r: Temperature)
        requires
            bytes@.len() >= TEMPERATURE_BYTES,
        ensures
            r == temperature_of(bytes@),
    {
        Temperature { a: read_u16(bytes, 0), b: read_i16(bytes, 2), c: read_i16(bytes, 4) }
    }
}

impl Pressure {
    /// Reads the block from bytes `at` to `at + PRESSURE_BYTES`.
    pub fn unpack(bytes: &[u8], at: usize) -> (r: Pressure)
        requires
            at + PRESSURE_BYTES <= bytes@.len(),
        ensures
            r == pressure_of(bytes@, at as int),
    {
        let len = bytes.len();
        assert(at + PRESSURE_BYTES <= len);
        Pressure {
            a: read_u16(bytes, at),
            b: read_i16(bytes, at + 2),
            c: read_i16(bytes, at + 4),
            d: read_i16(bytes, at + 6),
            e: read_i16(bytes, at + 8),
            f: read_i16(bytes, at + 10),
            g: read_i16(bytes, at + 12),
            h: read_i16(bytes, at + 14),
            i: read_i16(bytes, at + 16),
        }
    }
}

impl PackedHumidity {
    /// Reads the block from the first `HUMIDITY_BYTES` bytes.
    pub fn unpack(bytes: &[u8]) -> (r: PackedHumidity)
        requires
            bytes@.len() >= HUMIDITY_BYTES,
        ensures
            r == packed_humidity_of(bytes@),
    {
        PackedHumidity {
            b: read_i16(bytes, 0),
            c: bytes[2],
            d: read_i8(bytes[3]),
            e: bytes[4],
            f: read_i8(bytes[5]),
            g: read_i8(bytes[6]),
        }
    }
}

impl Humidity {
    /// Joins the first coefficient, read on its own, with the packed block:
    /// the fourth value takes the low nibble of the shared byte, the fifth
    /// its high nibble.
    pub fn from(a: u8, packed: PackedHumidity) -> (r: Humidity)
        ensures
            r == humidity_of(a, packed),
    {
        Humidity {
            a,
            b: packed.b,
            c: packed.c,
            d: (packed.d as i16) * 16 + (packed.e % 16) as i16,
            e: (packed.f as i16) * 16 + (packed.e / 16) as i16,
            f: packed.g,
        }
    }
}

impl Calibration {
    /// The record from the temperature and pressure registers `tp`, the first
    /// humidity register `h1` and the second humidity registers `h`; a block
    /// that is too short is named in the error.
    pub fn parse(tp: &[u8], h1: u8, h: &[u8]) -> (r: Result<Calibration, AtmoI2cRawReadingType>)
        ensures
            tp@.len() < TEMPERATURE_BYTES ==> r == Err::<Calibration, AtmoI2cRawReadingType>(
                AtmoI2cRawReadingType::Temperature,
            ),
            TEMPERATURE_BYTES <= tp@.len() < TEMPERATURE_BYTES + PRESSURE_BYTES ==> r == Err::<
                Calibration,
                AtmoI2cRawReadingType,
            >(AtmoI2cRawReadingType::Pressure),
            tp@.len() >= TEMPERATURE_BYTES + PRESSURE_BYTES && h@.len() < HUMIDITY_BYTES ==> r == Err::<
                Calibration,
                AtmoI2cRawReadingType,
            >(AtmoI2cRawReadingType::Humidity),
            tp@.len() >= TEMPERATURE_BYTES + PRESSURE_BYTES && h@.len() >= HUMIDITY_BYTES ==> r == Ok::<
                Calibration,
                AtmoI2cRawReadingType,
            >(
                Calibration {
                    temperature: temperature_of(tp@),
                    pressure: pressure_of(tp@, TEMPERATURE_BYTES as int),
                    humidity: humidity_of(h1, packed_humidity_of(h@)),
                },
            ),
    {
        if tp.len() < TEMPERATURE_BYTES {
            return Err(AtmoI2cRawReadingType::Temperature);
        }
        if tp.len() < TEMPERATURE_BYTES + PRESSURE_BYTES {
            return Err(AtmoI2cRawReadingType::Pressure);
        }
        if h.len() < HUMIDITY_BYTES {
            return Err(AtmoI2cRawReadingType::Humidity);
        }
        let temperature = Temperature::unpack(tp);
        let pressure = Pressure::unpack(tp, TEMPERATURE_BYTES);
        let humidity = Humidity::from(h1, PackedHumidity::unpack(h));
        Ok(Calibration { temperature, pressure, humidity })
    }
}

} // verus!

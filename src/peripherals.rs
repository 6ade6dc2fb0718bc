//! Small pieces of the board's other peripherals: which readings of the
//! atmospheric sensor depend on which, the sensor's register map and modes,
//! the status LEDs, and the error kinds of the hardware drivers.
use crate::text::{lower_of, lowercase, text_is};
use vstd::prelude::*;

verus! {

/// Which readings of the atmospheric sensor were asked for.
#[derive(Clone, Copy, Debug, PartialEq, Eq, Structural)]
pub struct AtmosphereFeatures {
    pub temperature: bool,
    pub pressure: bool,
    pub humidity: bool,
    pub altitude: bool,
}

impl Default for AtmosphereFeatures {
    /// Every reading.
    fn default() -> (r: AtmosphereFeatures)
        ensures
            r == (AtmosphereFeatures { temperature: true, pressure: true, humidity: true, altitude: true }),
    {
        AtmosphereFeatures { temperature: true, pressure: true, humidity: true, altitude: true }
    }
}

impl AtmosphereFeatures {
    /// Temperature is read when asked for, or when pressure or humidity need
    /// it for compensation.
    pub fn temperature_enabled(&self) -> (r: bool)
        ensures
            r == (self.temperature || self.pressure || self.altitude || self.humidity),
    {
        self.temperature || self.pressure_enabled() || self.humidity_enabled()
    }

    /// Pressure is read when asked for, or when altitude needs it.
    pub fn pressure_enabled(&self) -> (r: bool)
        ensures
            r == (self.pressure || self.altitude),
    {
        self.pressure || self.altitude_enabled()
    }

    pub fn humidity_enabled(&self) -> (r: bool)
        ensures
            r == self.humidity,
    {
        self.humidity
    }

    pub fn altitude_enabled(&self) -> (r: bool)
        ensures
            r == self.altitude,
    {
        self.altitude
    }
}

/// Power mode of the atmospheric sensor.
#[derive(Clone, Copy, Debug, PartialEq, Eq, Structural)]
pub enum Mode {
    Sleep,
    Force,
    Normal,
}

/// The mode bits of the control register.
pub open spec fn mode_bits(mode: Mode) -> u8 {
    match mode {
        Mode::Sleep => 0x00u8,
        Mode::Force => 0x01u8,
        Mode::Normal => 0x03u8,
    }
}

/// The mode bits of the control register.
impl From<Mode> for u8 {
    fn from(value: Mode) -> (r: u8) {
        match value {
            Mode::Sleep => 0x00,
            Mode::Force => 0x01,
            Mode::Normal => 0x03,
        }
    }
}

impl vstd::std_specs::convert::FromSpecImpl<Mode> for u8 {
    open spec fn obeys_from_spec() -> bool {
        true
    }

    open spec fn from_spec(value: Mode) -> u8 {
        mode_bits(value)
    }
}

/// Registers of the atmospheric sensor.
#[derive(Clone, Copy, Debug, PartialEq, Eq, Structural)]
pub enum Register {
    ChipId,
    Status,
    SoftReset,
    CtrlHum,
    CtrlMeas,
    Config,
    DigT1,
    DigH1,
    DigH2,
    TempData,
    PressureData,
    HumidData,
}

/// The register's address.
impl From<Register> for u8 {
    fn from(value: Register) -> (r: u8) {
        match value {
            Register::ChipId => 0xd0,
            Register::Status => 0xf3,
            Register::SoftReset => 0xe0,
            Register::CtrlHum => 0xf2,
            Register::CtrlMeas => 0xf4,
            Register::Config => 0xf5,
            Register::DigT1 => 0x88,
            Register::DigH1 => 0xa1,
            Register::DigH2 => 0xe1,
            Register::TempData => 0xfa,
            Register::PressureData => 0xf7,
            Register::HumidData => 0xfd,
        }
    }
}

impl vstd::std_specs::convert::FromSpecImpl<Register> for u8 {
    open spec fn obeys_from_spec() -> bool {
        true
    }

    open spec fn from_spec(value: Register) -> u8 {
        match value {
            Register::ChipId => 0xd0u8,
            Register::Status => 0xf3u8,
            Register::SoftReset => 0xe0u8,
            Register::CtrlHum => 0xf2u8,
            Register::CtrlMeas => 0xf4u8,
            Register::Config => 0xf5u8,
            Register::DigT1 => 0x88u8,
            Register::DigH1 => 0xa1u8,
            Register::DigH2 => 0xe1u8,
            Register::TempData => 0xfau8,
            Register::PressureData => 0xf7u8,
            Register::HumidData => 0xfdu8,
        }
    }
}

/// Oversampling of one measurement.
#[derive(Clone, Copy, Debug, PartialEq, Eq, Structural)]
pub enum Overscan {
    X1,
    X16,
}

/// The oversampling bits of a control register.
pub open spec fn overscan_bits(o: Overscan) -> u8 {
    match o {
        Overscan::X1 => 0x01u8,
        Overscan::X16 => 0x05u8,
    }
}

/// The oversampling bits of a control register.
impl From<Overscan> for u8 {
    fn from(value: Overscan) -> (r: u8) {
        match value {
            Overscan::X1 => 0x01,
            Overscan::X16 => 0x05,
        }
    }
}

impl vstd::std_specs::convert::FromSpecImpl<Overscan> for u8 {
    open spec fn obeys_from_spec() -> bool {
        true
    }

    open spec fn from_spec(value: Overscan) -> u8 {
        overscan_bits(value)
    }
}

/// The identifier that the sensor's chip-id register holds.
pub const CHIP_ID: u8 = 0x60;

/// The chip-id register read `id` belongs to the expected sensor.
pub fn verify_id(id: u8) -> (r: bool)
    ensures
        r == (id == CHIP_ID),
{
    id == CHIP_ID
}

/// The status register read `status` shows no measurement in progress
/// (bit 3 clear).
pub fn status_ok(status: u8) -> (r: bool)
    ensures
        r == ((status / 8) % 2 == 0),
{
    let busy = (status & 0x8) >> 3;
    assert(busy == (status / 8) % 2) by (bit_vector)
        requires
            busy == (status & 0x8) >> 3,
    ;
    busy != 1
}

/// The control-measure register value: temperature oversampling in bits
/// 5 to 7, pressure oversampling in bits 2 to 4, the mode in bits 0 and 1.
pub fn ctrl_meas_byte(temperature: Overscan, pressure: Overscan, mode: Mode) -> (r: u8)
    ensures
        r == overscan_bits(temperature) * 32 + overscan_bits(pressure) * 4 + mode_bits(mode),
{
    let t = u8::from(temperature);
    let p = u8::from(pressure);
    let m = u8::from(mode);
    assert(t <= 5 && p <= 5 && m <= 3);
    assert((t << 5u8) == t * 32 && (p << 2u8) == p * 4) by (bit_vector)
        requires
            t <= 5,
            p <= 5,
    ;
    (t << 5) + (p << 2) + m
}

/// Which raw reading a packed value was meant to be.
#[derive(Clone, Copy, Debug, PartialEq, Eq, Structural)]
pub enum AtmoI2cRawReadingType {
    Temperature,
    Pressure,
    Humidity,
}

/// The status LEDs.
#[derive(Clone, Copy, Debug, PartialEq, Eq, Structural)]
pub enum Leds {
    Green,
    Yellow,
}

/// A text that names no LED.
#[derive(Clone, Copy, Debug, PartialEq, Eq, Structural)]
pub struct ParseLedsError {}

/// The LED that the lower-case text `t` names.
pub open spec fn led_named(t: Seq<char>) -> Result<Leds, ParseLedsError> {
    if t == seq!['g', 'r', 'e', 'e', 'n'] {
        Ok(Leds::Green)
    } else if t == seq!['y', 'e', 'l', 'l', 'o', 'w'] {
        Ok(Leds::Yellow)
    } else {
        Err(ParseLedsError {})
    }
}

impl Leds {
    /// The LED named by an already lower-case text.
    pub fn from_lowercase(t: &String) -> (r: Result<Leds, ParseLedsError>)
        ensures
            r == led_named(t@),
    {
        proof {
            reveal_strlit("green");
            reveal_strlit("yellow");
            assert("green"@ =~= seq!['g', 'r', 'e', 'e', 'n']);
            assert("yellow"@ =~= seq!['y', 'e', 'l', 'l', 'o', 'w']);
        }
        if text_is(t, "green") {
            Ok(Leds::Green)
        } else if text_is(t, "yellow") {
            Ok(Leds::Yellow)
        } else {
            Err(ParseLedsError {})
        }
    }

    /// The LED named by `s`, in any case.
    pub fn parse(s: &str) -> (r: Result<Leds, ParseLedsError>)
        ensures
            r == led_named(lower_of(s@)),
    {
        let t = lowercase(s);
        Leds::from_lowercase(&t)
    }
}

/// The GPIO pin that drives the LED.
impl From<Leds> for u8 {
    fn from(value: Leds) -> (r: u8) {
        match value {
            Leds::Green => 6,
            Leds::Yellow => 5,
        }
    }
}

impl vstd::std_specs::convert::FromSpecImpl<Leds> for u8 {
    open spec fn obeys_from_spec() -> bool {
        true
    }

    open spec fn from_spec(value: Leds) -> u8 {
        match value {
            Leds::Green => 6u8,
            Leds::Yellow => 5u8,
        }
    }
}

impl std::str::FromStr for Leds {
    type Err = ParseLedsError;

    fn from_str(s: &str) -> Result<Leds, ParseLedsError> {
        Leds::parse(s)
    }
}

/// Setting up the bus or a pin failed.
#[derive(Clone, Copy, Debug, PartialEq, Eq, Structural)]
pub enum I2cError {
    Initialization,
    SlaveAddr(u16),
    Pin(u8),
}

/// A hardware-library error, reduced to what can be cloned.
#[derive(Clone, Debug)]
pub enum RppalError {
    Io,
    InvalidSlaveAddress(u16),
    FeatureNotSupported,
    UnknownModel,
    PinNotAvailable(u8),
    PermissionDenied(String),
    ThreadPanic,
}

#[derive(Clone, Copy, Debug, PartialEq, Eq, Structural)]
pub enum LedError {
    I2cError(I2cError),
}

#[derive(Clone, Copy, Debug, PartialEq, Eq, Structural)]
pub enum LcdError {
    I2cError(I2cError),
    Send,
    ThreadWait,
    ProcessingWait,
}

/// Failures of the infrared receiver.
#[derive(Clone, Debug)]
pub enum IrInError {
    I2cError(I2cError),
    PulsesLock,
    Send,
    ThreadWait,
    PulseReceive,
    IrInterrupt(RppalError),
}

/// Failures of the infrared transmitter, or of the target behind it.
#[derive(Clone, Debug)]
pub enum IrOutError<E> {
    I2cError(I2cError),
    IrTarget(E),
    Send,
    Mutex,
}

} // verus!

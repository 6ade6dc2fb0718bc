//! Pulse, sequence and frame types shared by the codec, the capture and
//! transmit paths, and the appliance targets.
use crate::text::{lower_of, lowercase, text_is};
use vstd::prelude::*;

verus! {

/// The length of one mark or space, in microseconds.
#[derive(Clone, Copy, Debug, PartialEq, Eq, Structural, Hash, PartialOrd, Ord)]
pub struct IrPulse(pub u128);

impl IrPulse {
    pub fn into_inner(self) -> (r: u128)
        ensures
            r == self.0,
    {
        self.0
    }
}

/// Marks and spaces in turn, starting with a mark.
#[derive(Clone, Debug, PartialEq, Eq, PartialOrd, Ord)]
pub struct IrSequence(pub Vec<IrPulse>);

impl View for IrSequence {
    type V = Seq<IrPulse>;

    open spec fn view(&self) -> Seq<IrPulse> {
        self.0@
    }
}

impl IrSequence {
    pub fn into_inner(self) -> (r: Vec<IrPulse>)
        ensures
            r@ == self@,
    {
        self.0
    }

    pub fn as_slice(&self) -> (r: &[IrPulse])
        ensures
            r@ == self@,
    {
        self.0.as_slice()
    }
}

/// The frames that a pulse sequence carried, in order; an empty frame is a
/// repeat frame.
#[derive(Clone, Debug, PartialEq, Eq)]
pub struct IrPulseBytes(pub Vec<Vec<u8>>);

/// The contents of each byte buffer, in order.
pub open spec fn frames_view(frames: Seq<Vec<u8>>) -> Seq<Seq<u8>> {
    frames.map_values(|f: Vec<u8>| f@)
}

impl View for IrPulseBytes {
    type V = Seq<Seq<u8>>;

    open spec fn view(&self) -> Seq<Seq<u8>> {
        frames_view(self.0@)
    }
}

/// Why a pulse sequence does not decode.
#[derive(Clone, Copy, Debug, PartialEq, Eq, Structural)]
pub enum IrDecodeError {
    /// Fewer than ten pulses.
    TooShort,
    /// The sequence ended with a lone pulse where a leader pair was due.
    OddEnd,
    /// A pair that should open a frame is neither leader nor repeat.
    UnknownEnd,
    /// The stop mark is off, or a byte was left unfinished.
    InvalidBits,
    /// A data pair fits no bit.
    UnknownBit,
    /// The pulses ran out inside a frame.
    UnexpectedEnd,
}

/// Why a frame cannot be encoded.
#[derive(Clone, Copy, Debug, PartialEq, Eq, Structural)]
pub enum IrEncodeError {
    /// A frame without bytes.
    EmptyFrame,
}

/// A pulse-timing format: how frames of bytes become pulses and back.
pub trait IrFormat {
    fn verify_leader(first_pulse: &IrPulse, second_pulse: &IrPulse) -> bool;

    fn verify_repeat(first_pulse: &IrPulse, second_pulse: &IrPulse) -> bool;

    fn decode(data: &[IrPulse]) -> Result<IrPulseBytes, IrDecodeError>;

    fn encode(bytes: &[u8]) -> Result<IrSequence, IrEncodeError>;
}

/// A position on an appliance's temperature ladder.
pub trait TemperatureCode {}

/// Operating mode of an air conditioner.
#[derive(Clone, Copy, Debug, PartialEq, Eq, Structural, Hash)]
pub enum ACMode {
    Auto,
    Warm,
    Dry,
    Cool,
    Fan,
}

impl Default for ACMode {
    fn default() -> (r: ACMode)
        ensures
            r == ACMode::Auto,
    {
        ACMode::Auto
    }
}

/// A text that names no mode.
#[derive(Clone, Copy, Debug, PartialEq, Eq, Structural)]
pub struct InvalidAcMode;

/// The mode that the lower-case text `t` names.
pub open spec fn mode_named(t: Seq<char>) -> Result<ACMode, InvalidAcMode> {
    if t == seq!['a', 'u', 't', 'o'] {
        Ok(ACMode::Auto)
    } else if t == seq!['w', 'a', 'r', 'm'] {
        Ok(ACMode::Warm)
    } else if t == seq!['d', 'r', 'y'] {
        Ok(ACMode::Dry)
    } else if t == seq!['c', 'o', 'o', 'l'] {
        Ok(ACMode::Cool)
    } else if t == seq!['f', 'a', 'n'] {
        Ok(ACMode::Fan)
    } else {
        Err(InvalidAcMode)
    }
}

impl ACMode {
    /// The mode named by an already lower-case text.
    pub fn from_lowercase(t: &String) -> (r: Result<ACMode, InvalidAcMode>)
        ensures
            r == mode_named(t@),
    {
        proof {
            reveal_strlit("auto");
            reveal_strlit("warm");
            reveal_strlit("dry");
            reveal_strlit("cool");
            reveal_strlit("fan");
            assert("auto"@ =~= seq!['a', 'u', 't', 'o']);
            assert("warm"@ =~= seq!['w', 'a', 'r', 'm']);
            assert("dry"@ =~= seq!['d', 'r', 'y']);
            assert("cool"@ =~= seq!['c', 'o', 'o', 'l']);
            assert("fan"@ =~= seq!['f', 'a', 'n']);
        }
        if text_is(t, "auto") {
            Ok(ACMode::Auto)
        } else if text_is(t, "warm") {
            Ok(ACMode::Warm)
        } else if text_is(t, "dry") {
            Ok(ACMode::Dry)
        } else if text_is(t, "cool") {
            Ok(ACMode::Cool)
        } else if text_is(t, "fan") {
            Ok(ACMode::Fan)
        } else {
            Err(InvalidAcMode)
        }
    }

    /// The mode named by `s`, in any case.
    pub fn parse(s: &str) -> (r: Result<ACMode, InvalidAcMode>)
        ensures
            r == mode_named(lower_of(s@)),
    {
        let t = lowercase(s);
        ACMode::from_lowercase(&t)
    }
}

impl std::str::FromStr for ACMode {
    type Err = InvalidAcMode;

    fn from_str(s: &str) -> Result<ACMode, InvalidAcMode> {
        ACMode::parse(s)
    }
}

/// What an appliance target holds: power, mode and ladder position.
#[derive(Clone, Copy, Debug, PartialEq, Eq, Structural)]
pub struct IrStatus<T> {
    pub powered: bool,
    pub mode: ACMode,
    pub temperature: T,
}

/// An appliance driven by infrared commands. Each operation returns the
/// pulses to transmit; the target itself never transmits.
pub trait IrTarget {
    type Error;
    type Temperature: TemperatureCode;
    type Format: IrFormat;

    fn power_off(&mut self) -> Result<IrSequence, Self::Error>;

    fn power_on(&mut self) -> Result<IrSequence, Self::Error>;

    fn temp_up(&mut self) -> Result<IrSequence, Self::Error>;

    fn temp_down(&mut self) -> Result<IrSequence, Self::Error>;

    fn temp_set(&mut self, temp: Self::Temperature) -> Result<IrSequence, Self::Error>;

    fn mode_set(&mut self, mode: ACMode) -> Result<IrSequence, Self::Error>;

    fn status(&self) -> IrStatus<Self::Temperature>;
}

/// A receiver of pulses in one format.
pub trait IrSource {
    type Format: IrFormat;
}

} // verus!

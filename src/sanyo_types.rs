//! The temperature ladder of the Sanyo air conditioner and the payloads of
//! its commands.
use crate::types::{ACMode, IrPulse, IrSequence, TemperatureCode};
use crate::text::{lower_of, lowercase, parse_u32, text_is, unsigned_numeral};
use vstd::prelude::*;

verus! {

/// A set point from 16 to 30 degrees, one step apart.
#[derive(Clone, Copy, Debug, PartialEq, Eq, Structural, Hash, PartialOrd, Ord)]
pub enum SanyoTemperatureCode {
    T16,
    T17,
    T18,
    T19,
    T20,
    T21,
    T22,
    T23,
    T24,
    T25,
    T26,
    T27,
    T28,
    T29,
    T30,
}

/// The number of positions on the ladder.
pub const LADDER_LEN: usize = 15;

impl SanyoTemperatureCode {
    /// Position on the ladder, 0 for 16 degrees.
    pub open spec fn position(self) -> nat {
        match self {
            SanyoTemperatureCode::T16 => 0,
            SanyoTemperatureCode::T17 => 1,
            SanyoTemperatureCode::T18 => 2,
            SanyoTemperatureCode::T19 => 3,
            SanyoTemperatureCode::T20 => 4,
            SanyoTemperatureCode::T21 => 5,
            SanyoTemperatureCode::T22 => 6,
            SanyoTemperatureCode::T23 => 7,
            SanyoTemperatureCode::T24 => 8,
            SanyoTemperatureCode::T25 => 9,
            SanyoTemperatureCode::T26 => 10,
            SanyoTemperatureCode::T27 => 11,
            SanyoTemperatureCode::T28 => 12,
            SanyoTemperatureCode::T29 => 13,
            SanyoTemperatureCode::T30 => 14,
        }
    }

    /// The code at position `i`, for `i` below 15.
    pub open spec fn at_position(i: nat) -> SanyoTemperatureCode {
        if i == 0 {
            SanyoTemperatureCode::T16
        } else if i == 1 {
            SanyoTemperatureCode::T17
        } else if i == 2 {
            SanyoTemperatureCode::T18
        } else if i == 3 {
            SanyoTemperatureCode::T19
        } else if i == 4 {
            SanyoTemperatureCode::T20
        } else if i == 5 {
            SanyoTemperatureCode::T21
        } else if i == 6 {
            SanyoTemperatureCode::T22
        } else if i == 7 {
            SanyoTemperatureCode::T23
        } else if i == 8 {
            SanyoTemperatureCode::T24
        } else if i == 9 {
            SanyoTemperatureCode::T25
        } else if i == 10 {
            SanyoTemperatureCode::T26
        } else if i == 11 {
            SanyoTemperatureCode::T27
        } else if i == 12 {
            SanyoTemperatureCode::T28
        } else if i == 13 {
            SanyoTemperatureCode::T29
        } else {
            SanyoTemperatureCode::T30
        }
    }

    /// The set point in degrees.
    pub open spec fn degrees(self) -> nat {
        self.position() + 16
    }

    pub fn ind(&self) -> (r: u8)
        ensures
            r as nat == self.position(),
    {
        match self {
            SanyoTemperatureCode::T16 => 0,
            SanyoTemperatureCode::T17 => 1,
            SanyoTemperatureCode::T18 => 2,
            SanyoTemperatureCode::T19 => 3,
            SanyoTemperatureCode::T20 => 4,
            SanyoTemperatureCode::T21 => 5,
            SanyoTemperatureCode::T22 => 6,
            SanyoTemperatureCode::T23 => 7,
            SanyoTemperatureCode::T24 => 8,
            SanyoTemperatureCode::T25 => 9,
            SanyoTemperatureCode::T26 => 10,
            SanyoTemperatureCode::T27 => 11,
            SanyoTemperatureCode::T28 => 12,
            SanyoTemperatureCode::T29 => 13,
            SanyoTemperatureCode::T30 => 14,
        }
    }

    /// The next position down, or `None` at the bottom of the ladder.
    pub fn down(&self) -> (r: Option<SanyoTemperatureCode>)
        ensures
            r == if self.position() == 0 {
                None
            } else {
                Some(SanyoTemperatureCode::at_position((self.position() - 1) as nat))
            },
    {
        match self {
            SanyoTemperatureCode::T16 => None,
            SanyoTemperatureCode::T17 => Some(SanyoTemperatureCode::T16),
            SanyoTemperatureCode::T18 => Some(SanyoTemperatureCode::T17),
            SanyoTemperatureCode::T19 => Some(SanyoTemperatureCode::T18),
            SanyoTemperatureCode::T20 => Some(SanyoTemperatureCode::T19),
            SanyoTemperatureCode::T21 => Some(SanyoTemperatureCode::T20),
            SanyoTemperatureCode::T22 => Some(SanyoTemperatureCode::T21),
            SanyoTemperatureCode::T23 => Some(SanyoTemperatureCode::T22),
            SanyoTemperatureCode::T24 => Some(SanyoTemperatureCode::T23),
            SanyoTemperatureCode::T25 => Some(SanyoTemperatureCode::T24),
            SanyoTemperatureCode::T26 => Some(SanyoTemperatureCode::T25),
            SanyoTemperatureCode::T27 => Some(SanyoTemperatureCode::T26),
            SanyoTemperatureCode::T28 => Some(SanyoTemperatureCode::T27),
            SanyoTemperatureCode::T29 => Some(SanyoTemperatureCode::T28),
            SanyoTemperatureCode::T30 => Some(SanyoTemperatureCode::T29),
        }
    }

    /// The next position up, or `None` at the top of the ladder.
    pub fn up(&self) -> (r: Option<SanyoTemperatureCode>)
        ensures
            r == if self.position() + 1 == LADDER_LEN {
                None
            } else {
                Some(SanyoTemperatureCode::at_position(self.position() + 1))
            },
    {
        match self {
            SanyoTemperatureCode::T16 => Some(SanyoTemperatureCode::T17),
            SanyoTemperatureCode::T17 => Some(SanyoTemperatureCode::T18),
            SanyoTemperatureCode::T18 => Some(SanyoTemperatureCode::T19),
            SanyoTemperatureCode::T19 => Some(SanyoTemperatureCode::T20),
            SanyoTemperatureCode::T20 => Some(SanyoTemperatureCode::T21),
            SanyoTemperatureCode::T21 => Some(SanyoTemperatureCode::T22),
            SanyoTemperatureCode::T22 => Some(SanyoTemperatureCode::T23),
            SanyoTemperatureCode::T23 => Some(SanyoTemperatureCode::T24),
            SanyoTemperatureCode::T24 => Some(SanyoTemperatureCode::T25),
            SanyoTemperatureCode::T25 => Some(SanyoTemperatureCode::T26),
            SanyoTemperatureCode::T26 => Some(SanyoTemperatureCode::T27),
            SanyoTemperatureCode::T27 => Some(SanyoTemperatureCode::T28),
            SanyoTemperatureCode::T28 => Some(SanyoTemperatureCode::T29),
            SanyoTemperatureCode::T29 => Some(SanyoTemperatureCode::T30),
            SanyoTemperatureCode::T30 => None,
        }
    }

    /// Every code, from the bottom of the ladder to the top.
    pub fn items() -> (r: [SanyoTemperatureCode; 15])
        ensures
            forall|i: int| 0 <= i < 15 ==> (#[trigger] r@[i]).position() == i,
    {
        [
            SanyoTemperatureCode::T16,
            SanyoTemperatureCode::T17,
            SanyoTemperatureCode::T18,
            SanyoTemperatureCode::T19,
            SanyoTemperatureCode::T20,
            SanyoTemperatureCode::T21,
            SanyoTemperatureCode::T22,
            SanyoTemperatureCode::T23,
            SanyoTemperatureCode::T24,
            SanyoTemperatureCode::T25,
            SanyoTemperatureCode::T26,
            SanyoTemperatureCode::T27,
            SanyoTemperatureCode::T28,
            SanyoTemperatureCode::T29,
            SanyoTemperatureCode::T30,
        ]
    }

    /// The set point in degrees.
    pub fn to_degrees(&self) -> (r: u8)
        ensures
            r as nat == self.degrees(),
    {
        self.ind() + 16
    }

    /// The code for a set point in degrees.
    pub fn from_degrees(value: u32) -> (r: Result<SanyoTemperatureCode, InvalidSanyoTemperatureCode>)
        ensures
            16 <= value <= 30 ==> r == Ok::<SanyoTemperatureCode, InvalidSanyoTemperatureCode>(
                SanyoTemperatureCode::at_position((value - 16) as nat),
            ),
            !(16 <= value <= 30) ==> r == Err::<SanyoTemperatureCode, InvalidSanyoTemperatureCode>(
                InvalidSanyoTemperatureCode,
            ),
    {
        match value {
            16 => Ok(SanyoTemperatureCode::T16),
            17 => Ok(SanyoTemperatureCode::T17),
            18 => Ok(SanyoTemperatureCode::T18),
            19 => Ok(SanyoTemperatureCode::T19),
            20 => Ok(SanyoTemperatureCode::T20),
            21 => Ok(SanyoTemperatureCode::T21),
            22 => Ok(SanyoTemperatureCode::T22),
            23 => Ok(SanyoTemperatureCode::T23),
            24 => Ok(SanyoTemperatureCode::T24),
            25 => Ok(SanyoTemperatureCode::T25),
            26 => Ok(SanyoTemperatureCode::T26),
            27 => Ok(SanyoTemperatureCode::T27),
            28 => Ok(SanyoTemperatureCode::T28),
            29 => Ok(SanyoTemperatureCode::T29),
            30 => Ok(SanyoTemperatureCode::T30),
            _ => Err(InvalidSanyoTemperatureCode),
        }
    }
}

/// The code that a set point of `n` degrees names.
pub open spec fn code_for_degrees(n: nat) -> Result<SanyoTemperatureCode, InvalidSanyoTemperatureCode> {
    if 16 <= n <= 30 {
        Ok(SanyoTemperatureCode::at_position((n - 16) as nat))
    } else {
        Err(InvalidSanyoTemperatureCode)
    }
}

/// The code that the decimal text `t` names.
pub open spec fn code_named(t: Seq<char>) -> Result<SanyoTemperatureCode, InvalidSanyoTemperatureCode> {
    match unsigned_numeral(t, 10, u32::MAX as nat) {
        Some(n) => code_for_degrees(n),
        None => Err(InvalidSanyoTemperatureCode),
    }
}

impl SanyoTemperatureCode {
    /// The code named by an already lower-case decimal text.
    pub fn from_lowercase(t: &str) -> (r: Result<SanyoTemperatureCode, InvalidSanyoTemperatureCode>)
        ensures
            r == code_named(t@),
    {
        match parse_u32(t) {
            Ok(n) => SanyoTemperatureCode::try_from(n),
            Err(_) => Err(InvalidSanyoTemperatureCode),
        }
    }

    /// The code named by the decimal text `s`, in any case.
    pub fn parse(s: &str) -> (r: Result<SanyoTemperatureCode, InvalidSanyoTemperatureCode>)
        ensures
            r == code_named(lower_of(s@)),
    {
        let t = lowercase(s);
        SanyoTemperatureCode::from_lowercase(t.as_str())
    }
}

impl TryFrom<u32> for SanyoTemperatureCode {
    type Error = InvalidSanyoTemperatureCode;

    fn try_from(value: u32) -> (r: Result<SanyoTemperatureCode, InvalidSanyoTemperatureCode>) {
        SanyoTemperatureCode::from_degrees(value)
    }
}

impl vstd::std_specs::convert::TryFromSpecImpl<u32> for SanyoTemperatureCode {
    open spec fn obeys_try_from_spec() -> bool {
        true
    }

    open spec fn try_from_spec(value: u32) -> Result<SanyoTemperatureCode, InvalidSanyoTemperatureCode> {
        code_for_degrees(value as nat)
    }
}

impl std::str::FromStr for SanyoTemperatureCode {
    type Err = InvalidSanyoTemperatureCode;

    fn from_str(s: &str) -> Result<SanyoTemperatureCode, InvalidSanyoTemperatureCode> {
        SanyoTemperatureCode::parse(s)
    }
}

impl Default for SanyoTemperatureCode {
    fn default() -> (r: SanyoTemperatureCode)
        ensures
            r == SanyoTemperatureCode::T16,
    {
        SanyoTemperatureCode::T16
    }
}

impl TemperatureCode for SanyoTemperatureCode {}

impl From<&SanyoTemperatureCode> for u8 {
    fn from(code: &SanyoTemperatureCode) -> (r: u8) {
        code.to_degrees()
    }
}

impl vstd::std_specs::convert::FromSpecImpl<&SanyoTemperatureCode> for u8 {
    open spec fn obeys_from_spec() -> bool {
        true
    }

    open spec fn from_spec(code: &SanyoTemperatureCode) -> u8 {
        code.degrees() as u8
    }
}

impl From<SanyoTemperatureCode> for u32 {
    fn from(code: SanyoTemperatureCode) -> (r: u32) {
        code.to_degrees() as u32
    }
}

impl vstd::std_specs::convert::FromSpecImpl<SanyoTemperatureCode> for u32 {
    open spec fn obeys_from_spec() -> bool {
        true
    }

    open spec fn from_spec(code: SanyoTemperatureCode) -> u32 {
        code.degrees() as u32
    }
}

/// A number or text that names no set point.
#[derive(Clone, Copy, Debug, PartialEq, Eq, Structural)]
pub struct InvalidSanyoTemperatureCode;

/// The modes this appliance's payloads are known for.
#[derive(Clone, Copy, Debug, PartialEq, Eq, Structural, Hash)]
pub enum SanyoMode {
    Cool,
}

impl Default for SanyoMode {
    fn default() -> (r: SanyoMode)
        ensures
            r == SanyoMode::Cool,
    {
        SanyoMode::Cool
    }
}

/// A text that names no mode of this appliance; it keeps the text.
#[derive(Clone, Debug)]
pub struct InvalidSanyoMode {
    pub input: String,
}

impl SanyoMode {
    /// The mode named by `value`, in any case; otherwise the text back in the error.
    pub fn parse(value: String) -> (r: Result<SanyoMode, InvalidSanyoMode>)
        ensures
            lower_of(value@) == seq!['c', 'o', 'o', 'l'] ==> (r matches Ok(SanyoMode::Cool)),
            lower_of(value@) != seq!['c', 'o', 'o', 'l'] ==> (r matches Err(e) && e.input@ == value@),
    {
        let t = lowercase(value.as_str());
        proof {
            reveal_strlit("cool");
            assert("cool"@ =~= seq!['c', 'o', 'o', 'l']);
        }
        if text_is(&t, "cool") {
            Ok(SanyoMode::Cool)
        } else {
            Err(InvalidSanyoMode { input: value })
        }
    }
}

/// What a command asks of the appliance.
#[derive(Clone, Copy, Debug, PartialEq, Eq, Structural, Hash, PartialOrd, Ord)]
pub enum SanyoTrigger {
    Up,
    Down,
    On,
    Off,
}

/// Recorded pulses for one mode and set point: a step up and a step down
/// where the ladder allows them, power on and power off.
#[derive(Clone, Debug)]
pub struct SanyoTemperatureCodeSequence {
    pub up: Option<Vec<IrPulse>>,
    pub down: Option<Vec<IrPulse>>,
    pub on: Vec<IrPulse>,
    pub off: Vec<IrPulse>,
}

/// The pulses of an optional sequence.
pub open spec fn sequence_view(r: Option<IrSequence>) -> Option<Seq<IrPulse>> {
    match r {
        Some(s) => Some(s@),
        None => None,
    }
}

fn copy_pulses(v: &Vec<IrPulse>) -> (r: Vec<IrPulse>)
    ensures
        r@ == v@,
{
    let mut r: Vec<IrPulse> = Vec::new();
    let mut i: usize = 0;
    while i < v.len()
        invariant
            i <= v@.len(),
            r@ == v@.take(i as int),
        decreases v@.len() - i,
    {
        r.push(v[i]);
        i = i + 1;
        assert(r@ =~= v@.take(i as int));
    }
    assert(v@.take(i as int) =~= v@);
    r
}

impl SanyoTemperatureCodeSequence {
    /// The recorded pulses for `trigger`, if there are any.
    pub open spec fn pulses_for(&self, trigger: SanyoTrigger) -> Option<Seq<IrPulse>> {
        match trigger {
            SanyoTrigger::Up => match self.up {
                Some(v) => Some(v@),
                None => None,
            },
            SanyoTrigger::Down => match self.down {
                Some(v) => Some(v@),
                None => None,
            },
            SanyoTrigger::On => Some(self.on@),
            SanyoTrigger::Off => Some(self.off@),
        }
    }

    /// A copy of the recorded pulses for `trigger`; `None` where the ladder
    /// has no step in that direction.
    pub fn for_trigger(&self, trigger: SanyoTrigger) -> (r: Option<IrSequence>)
        ensures
            sequence_view(r) == self.pulses_for(trigger),
    {
        match trigger {
            SanyoTrigger::Up => match &self.up {
                Some(v) => Some(IrSequence(copy_pulses(v))),
                None => None,
            },
            SanyoTrigger::Down => match &self.down {
                Some(v) => Some(IrSequence(copy_pulses(v))),
                None => None,
            },
            SanyoTrigger::On => Some(IrSequence(copy_pulses(&self.on))),
            SanyoTrigger::Off => Some(IrSequence(copy_pulses(&self.off))),
        }
    }
}

/// Byte 5 of a payload: which kind of command it is.
pub open spec fn command_byte(trigger: SanyoTrigger) -> u8 {
    match trigger {
        SanyoTrigger::Up | SanyoTrigger::Down => 132,
        SanyoTrigger::Off => 133,
        SanyoTrigger::On => 134,
    }
}

/// Byte 6 of a payload: the set point.
pub open spec fn set_point_byte(temperature: SanyoTemperatureCode) -> u8 {
    (24 + 2 * temperature.position()) as u8
}

/// Byte 8 of a payload: the power flag.
pub open spec fn power_byte(trigger: SanyoTrigger) -> u8 {
    match trigger {
        SanyoTrigger::Off => 3,
        _ => 35,
    }
}

/// Byte 16 of a payload: a check value over set point and command.
pub open spec fn check_byte(temperature: SanyoTemperatureCode, trigger: SanyoTrigger) -> u8 {
    let i = temperature.position() as int;
    let base: int = if i <= 3 {
        60 + 2 * i
    } else if i >= 12 {
        54 + 2 * (i - 12)
    } else {
        53 + 2 * (i - 4)
    };
    let offset = match trigger {
        SanyoTrigger::Up | SanyoTrigger::Down => 1int,
        SanyoTrigger::Off => 0int,
        SanyoTrigger::On => 3int,
    };
    (base + offset) as u8
}

/// The fixed 17-byte template with bytes 5, 6, 8 and 16 filled in.
pub open spec fn template(byte5: u8, byte6: u8, byte8: u8, byte16: u8) -> Seq<u8> {
    seq![64, 0, 20, 128, 67, byte5, byte6, 64, byte8, 0, 104, 0, 0, 1, 0, 0, byte16]
}

/// The payload that asks for `trigger` at set point `temperature`.
pub open spec fn sanyo_frame(temperature: SanyoTemperatureCode, trigger: SanyoTrigger) -> Seq<u8> {
    template(
        command_byte(trigger),
        set_point_byte(temperature),
        power_byte(trigger),
        check_byte(temperature, trigger),
    )
}

/// The number of bytes of every payload.
pub const SANYO_FRAME_LEN: usize = 17;

/// Fills the template.
pub fn build_sequence(byte5: u8, byte6: u8, byte8: u8, byte16: u8) -> (r: Vec<u8>)
    ensures
        r@ == template(byte5, byte6, byte8, byte16),
{
    let r = vec![64, 0, 20, 128, 67, byte5, byte6, 64, byte8, 0, 104, 0, 0, 1, 0, 0, byte16];
    assert(r@ =~= template(byte5, byte6, byte8, byte16));
    r
}

/// The payload for `trigger` at `temperature`. The mode does not change the
/// payload: how it would is not known.
pub fn sanyo_sequence(mode: ACMode, temperature: SanyoTemperatureCode, trigger: SanyoTrigger) -> (r: Vec<u8>)
    ensures
        r@ == sanyo_frame(temperature, trigger),
{
    let i = temperature.ind();
    let byte5: u8 = match trigger {
        SanyoTrigger::Down | SanyoTrigger::Up => 132,
        SanyoTrigger::Off => 133,
        SanyoTrigger::On => 134,
    };
    let byte8: u8 = match trigger {
        SanyoTrigger::Off => 3,
        SanyoTrigger::Down | SanyoTrigger::On | SanyoTrigger::Up => 35,
    };
    let base: u8 = if i <= 3 {
        60 + i * 2
    } else if i >= 12 {
        54 + (i - 12) * 2
    } else {
        53 + (i - 4) * 2
    };
    let offset: u8 = match trigger {
        SanyoTrigger::Down | SanyoTrigger::Up => 1,
        SanyoTrigger::Off => 0,
        SanyoTrigger::On => 3,
    };
    build_sequence(byte5, 24 + i * 2, byte8, base + offset)
}

} // verus!

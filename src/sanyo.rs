//! The Sanyo air conditioner: a state machine over power, mode and set point
//! whose operations return the AEHA pulses that carry each command.
use crate::aeha::{bit_of, encode_spec, encoded_pulse, Aeha};
use crate::sanyo_types::{
    sanyo_frame, sanyo_sequence, set_point_byte, SanyoTemperatureCode, SanyoTrigger, LADDER_LEN,
    SANYO_FRAME_LEN,
};
use crate::types::{ACMode, IrEncodeError, IrFormat, IrPulse, IrSequence, IrStatus, IrTarget};
use vstd::prelude::*;

verus! {

/// Why an operation on the appliance failed.
#[derive(Clone, Copy, Debug, PartialEq, Eq, Structural)]
pub enum SanyoError {
    /// The set point is already at that end of the ladder.
    TemperatureRange,
    /// The set point asked for is the current one.
    TemperatureSame,
    /// The payload could not be encoded.
    EncodeError(IrEncodeError),
}

/// The number of pulses of every command: a leader pair, one pair per bit of
/// the payload, and the stop mark.
pub const SANYO_SEQ_LENGTH: usize = 16 * SANYO_FRAME_LEN + 3;

/// The pulses that carry `trigger` at set point `temperature`.
pub open spec fn sanyo_pulses(temperature: SanyoTemperatureCode, trigger: SanyoTrigger) -> Seq<IrPulse> {
    encode_spec(sanyo_frame(temperature, trigger))
}

/// `r` succeeded with exactly `pulses`.
pub open spec fn sends(r: Result<IrSequence, SanyoError>, pulses: Seq<IrPulse>) -> bool {
    match r {
        Ok(s) => s@ == pulses,
        Err(_) => false,
    }
}

proof fn lemma_bits_determine(a: u8, b: u8)
    requires
        bit_of(a, 0) == bit_of(b, 0),
        bit_of(a, 1) == bit_of(b, 1),
        bit_of(a, 2) == bit_of(b, 2),
        bit_of(a, 3) == bit_of(b, 3),
        bit_of(a, 4) == bit_of(b, 4),
        bit_of(a, 5) == bit_of(b, 5),
        bit_of(a, 6) == bit_of(b, 6),
        bit_of(a, 7) == bit_of(b, 7),
    ensures
        a == b,
{
    assert(a == b) by (bit_vector)
        requires
            ((a >> 0u8) & 1 == 1) == ((b >> 0u8) & 1 == 1),
            ((a >> 1u8) & 1 == 1) == ((b >> 1u8) & 1 == 1),
            ((a >> 2u8) & 1 == 1) == ((b >> 2u8) & 1 == 1),
            ((a >> 3u8) & 1 == 1) == ((b >> 3u8) & 1 == 1),
            ((a >> 4u8) & 1 == 1) == ((b >> 4u8) & 1 == 1),
            ((a >> 5u8) & 1 == 1) == ((b >> 5u8) & 1 == 1),
            ((a >> 6u8) & 1 == 1) == ((b >> 6u8) & 1 == 1),
            ((a >> 7u8) & 1 == 1) == ((b >> 7u8) & 1 == 1),
    ;
}

/// For one trigger, the 15 set points give pairwise different pulse
/// sequences, each of the same fixed length.
pub proof fn lemma_ladder_distinct(trigger: SanyoTrigger, a: SanyoTemperatureCode, b: SanyoTemperatureCode)
    requires
        a != b,
    ensures
        sanyo_pulses(a, trigger) != sanyo_pulses(b, trigger),
        sanyo_pulses(a, trigger).len() == SANYO_SEQ_LENGTH,
        sanyo_pulses(b, trigger).len() == SANYO_SEQ_LENGTH,
{
    let fa = sanyo_frame(a, trigger);
    let fb = sanyo_frame(b, trigger);
    assert(fa[6] == set_point_byte(a) && fb[6] == set_point_byte(b));
    assert(fa[6] != fb[6]);
    if sanyo_pulses(a, trigger) == sanyo_pulses(b, trigger) {
        assert forall|k: u8| k < 8 implies #[trigger] bit_of(fa[6], k) == bit_of(fb[6], k) by {
            let x = 2 + 16 * 6 + 2 * (k as int) + 1;
            assert((x - 2) / 16 == 6 && ((x - 2) % 16) / 2 == k && (x - 2) % 2 == 1);
            assert(sanyo_pulses(a, trigger)[x] == sanyo_pulses(b, trigger)[x]);
            assert(encoded_pulse(fa, x) == encoded_pulse(fb, x));
        }
        lemma_bits_determine(fa[6], fb[6]);
    }
}

/// The appliance's state as this controller last set it.
pub struct Sanyo {
    powered: bool,
    mode: ACMode,
    temp: SanyoTemperatureCode,
}

impl View for Sanyo {
    type V = IrStatus<SanyoTemperatureCode>;

    closed spec fn view(&self) -> IrStatus<SanyoTemperatureCode> {
        IrStatus { powered: self.powered, mode: self.mode, temperature: self.temp }
    }
}

impl Default for Sanyo {
    /// Powered off, automatic mode, lowest set point.
    fn default() -> (r: Sanyo)
        ensures
            r@ == (IrStatus { powered: false, mode: ACMode::Auto, temperature: SanyoTemperatureCode::T16 }),
    {
        Sanyo { powered: false, mode: ACMode::Auto, temp: SanyoTemperatureCode::T16 }
    }
}

impl Sanyo {
    /// The pulses for `trigger` in the current state.
    pub fn as_ir_sequence(&self, trigger: SanyoTrigger) -> (r: Result<IrSequence, SanyoError>)
        ensures
            sends(r, sanyo_pulses(self@.temperature, trigger)),
    {
        let frame = sanyo_sequence(self.mode, self.temp, trigger);
        match Aeha::encode(frame.as_slice()) {
            Ok(s) => Ok(s),
            Err(e) => Err(SanyoError::EncodeError(e)),
        }
    }

    pub fn is_powered(&self) -> (r: bool)
        ensures
            r == self@.powered,
    {
        self.powered
    }

    pub fn temperature(&self) -> (r: &SanyoTemperatureCode)
        ensures
            *r == self@.temperature,
    {
        &self.temp
    }

    pub fn mode(&self) -> (r: &ACMode)
        ensures
            *r == self@.mode,
    {
        &self.mode
    }
}

impl IrTarget for Sanyo {
    type Error = SanyoError;
    type Temperature = SanyoTemperatureCode;
    type Format = Aeha;

    fn power_off(&mut self) -> (r: Result<IrSequence, SanyoError>)
        ensures
            final(self)@ == (IrStatus { powered: false, ..old(self)@ }),
            sends(r, sanyo_pulses(old(self)@.temperature, SanyoTrigger::Off)),
    {
        let r = self.as_ir_sequence(SanyoTrigger::Off);
        self.powered = false;
        r
    }

    fn power_on(&mut self) -> (r: Result<IrSequence, SanyoError>)
        ensures
            final(self)@ == (IrStatus { powered: true, ..old(self)@ }),
            sends(r, sanyo_pulses(old(self)@.temperature, SanyoTrigger::On)),
    {
        let r = self.as_ir_sequence(SanyoTrigger::On);
        self.powered = true;
        r
    }

    fn temp_up(&mut self) -> (r: Result<IrSequence, SanyoError>)
        ensures
            old(self)@.temperature.position() + 1 == LADDER_LEN ==> r == Err::<IrSequence, SanyoError>(
                SanyoError::TemperatureRange,
            ) && final(self)@ == old(self)@,
            old(self)@.temperature.position() + 1 < LADDER_LEN ==> {
                let t = SanyoTemperatureCode::at_position(old(self)@.temperature.position() + 1);
                &&& final(self)@ == (IrStatus { temperature: t, ..old(self)@ })
                &&& sends(r, sanyo_pulses(t, SanyoTrigger::Up))
            },
    {
        match self.temp.up() {
            None => Err(SanyoError::TemperatureRange),
            Some(t) => {
                self.temp = t;
                self.as_ir_sequence(SanyoTrigger::Up)
            },
        }
    }

    fn temp_down(&mut self) -> (r: Result<IrSequence, SanyoError>)
        ensures
            old(self)@.temperature.position() == 0 ==> r == Err::<IrSequence, SanyoError>(
                SanyoError::TemperatureRange,
            ) && final(self)@ == old(self)@,
            old(self)@.temperature.position() > 0 ==> {
                let t = SanyoTemperatureCode::at_position(
                    (old(self)@.temperature.position() - 1) as nat,
                );
                &&& final(self)@ == (IrStatus { temperature: t, ..old(self)@ })
                &&& sends(r, sanyo_pulses(t, SanyoTrigger::Down))
            },
    {
        match self.temp.down() {
            None => Err(SanyoError::TemperatureRange),
            Some(t) => {
                self.temp = t;
                self.as_ir_sequence(SanyoTrigger::Down)
            },
        }
    }

    /// Moves straight to `temp`: a lower set point is sent as a step down, a
    /// higher one as a step up. The current set point is refused.
    fn temp_set(&mut self, temp: SanyoTemperatureCode) -> (r: Result<IrSequence, SanyoError>)
        ensures
            temp == old(self)@.temperature ==> r == Err::<IrSequence, SanyoError>(
                SanyoError::TemperatureSame,
            ) && final(self)@ == old(self)@,
            temp != old(self)@.temperature ==> {
                &&& final(self)@ == (IrStatus { temperature: temp, ..old(self)@ })
                &&& sends(
                    r,
                    sanyo_pulses(
                        temp,
                        if temp.position() < old(self)@.temperature.position() {
                            SanyoTrigger::Down
                        } else {
                            SanyoTrigger::Up
                        },
                    ),
                )
            },
    {
        let current = self.temp.ind();
        let target = temp.ind();
        let trigger = if target < current {
            SanyoTrigger::Down
        } else if target > current {
            SanyoTrigger::Up
        } else {
            return Err(SanyoError::TemperatureSame);
        };
        self.temp = temp;
        self.as_ir_sequence(trigger)
    }

    /// Records `mode` and sends the power-on command, which is what the mode
    /// change amounts to on this appliance as far as its payloads are known.
    fn mode_set(&mut self, mode: ACMode) -> (r: Result<IrSequence, SanyoError>)
        ensures
            final(self)@ == (IrStatus { mode, ..old(self)@ }),
            sends(r, sanyo_pulses(old(self)@.temperature, SanyoTrigger::On)),
    {
        self.mode = mode;
        self.as_ir_sequence(SanyoTrigger::On)
    }

    fn status(&self) -> (r: IrStatus<SanyoTemperatureCode>)
        ensures
            r == self@,
    {
        IrStatus { powered: self.powered, mode: self.mode, temperature: self.temp }
    }
}

/// A whole appliance state to bring the target to in one go.
#[derive(Clone, Copy, Debug, PartialEq, Eq, Structural)]
pub struct AcState {
    pub unpowered: bool,
    pub mode: ACMode,
    pub temperature: SanyoTemperatureCode,
}

impl AcState {
    /// Sets the mode, moves to the set point unless the target is already
    /// there, and ends with power on or off; returns the pulses of that last
    /// command.
    pub fn send(&self, target: &mut Sanyo) -> (r: Result<IrSequence, SanyoError>)
        ensures
            final(target)@ == (IrStatus {
                powered: !self.unpowered,
                mode: self.mode,
                temperature: self.temperature,
            }),
            sends(
                r,
                sanyo_pulses(
                    self.temperature,
                    if self.unpowered {
                        SanyoTrigger::Off
                    } else {
                        SanyoTrigger::On
                    },
                ),
            ),
    {
        if let Err(e) = target.mode_set(self.mode) {
            return Err(e);
        }
        if target.temperature().ind() != self.temperature.ind() {
            if let Err(e) = target.temp_set(self.temperature) {
                return Err(e);
            }
        }
        if self.unpowered {
            target.power_off()
        } else {
            target.power_on()
        }
    }
}

} // verus!

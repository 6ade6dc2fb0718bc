//! The decisions of transmission: how a pulse sequence becomes carrier
//! bursts and silent waits, and what the worker does after each poll of its
//! queue.
use crate::types::{IrPulse, IrSequence};
use vstd::prelude::*;

verus! {

/// Period of one carrier burst, in microseconds.
pub const CARRIER_PERIOD_US: u64 = 18;

/// Active part of one carrier burst, in microseconds.
pub const CARRIER_WIDTH_US: u64 = 8;

/// Microseconds of mark per carrier burst.
pub const CARRIER_CYCLE_US: u128 = 26;

/// One step for a driver that plays carrier bursts and waits.
#[derive(Clone, Copy, Debug, PartialEq, Eq, Structural)]
pub enum CarrierStep {
    /// One burst: the output is active for `width_us` of every `period_us`.
    Pulse { period_us: u64, width_us: u64 },
    /// The output stays silent for this many microseconds.
    Wait(u128),
}

/// The fixed carrier burst.
pub open spec fn burst() -> CarrierStep {
    CarrierStep::Pulse { period_us: CARRIER_PERIOD_US, width_us: CARRIER_WIDTH_US }
}

/// The steps for pulse `p` at index `i`: bursts for a mark, one wait for a space.
pub open spec fn steps_for(i: int, p: IrPulse) -> Seq<CarrierStep> {
    if i % 2 == 0 {
        Seq::new((p.0 / CARRIER_CYCLE_US) as nat, |k: int| burst())
    } else {
        seq![CarrierStep::Wait(p.0)]
    }
}

/// The steps for the whole of `s`, in order.
pub open spec fn carrier_steps(s: Seq<IrPulse>) -> Seq<CarrierStep>
    decreases s.len(),
{
    if s.len() == 0 {
        seq![]
    } else {
        carrier_steps(s.drop_last()) + steps_for(s.len() - 1, s.last())
    }
}

/// Expands `seq` into one list of steps: each mark of `m` microseconds
/// becomes `m / 26` carrier bursts, each space one wait of its length.
pub fn pwm_sequence(seq: &IrSequence) -> (r: Vec<CarrierStep>)
    ensures
        r@ == carrier_steps(seq@),
{
    let pulses = seq.as_slice();
    let mut out: Vec<CarrierStep> = Vec::new();
    let mut i: usize = 0;
    while i < pulses.len()
        invariant
            i <= pulses@.len(),
            pulses@ == seq@,
            out@ == carrier_steps(pulses@.take(i as int)),
        decreases pulses@.len() - i,
    {
        let ghost before = out@;
        let p = pulses[i];
        if i % 2 == 0 {
            let n = p.0 / CARRIER_CYCLE_US;
            let mut c: u128 = 0;
            while c < n
                invariant
                    c <= n,
                    out@ == before + Seq::new(c as nat, |k: int| burst()),
                decreases n - c,
            {
                out.push(CarrierStep::Pulse { period_us: CARRIER_PERIOD_US, width_us: CARRIER_WIDTH_US });
                c = c + 1;
                assert(out@ =~= before + Seq::new(c as nat, |k: int| burst()));
            }
        } else {
            out.push(CarrierStep::Wait(p.0));
        }
        proof {
            let t = pulses@.take(i + 1);
            assert(t.drop_last() =~= pulses@.take(i as int));
            assert(t.last() == p);
            assert(out@ =~= before + steps_for(i as int, p));
        }
        i = i + 1;
    }
    assert(pulses@.take(i as int) =~= pulses@);
    out
}

/// What a poll of the work queue found.
#[derive(Clone, Copy, Debug, PartialEq, Eq, Structural)]
pub enum QueuePoll {
    Received,
    Empty,
    Disconnected,
}

/// What the transmit worker does next.
#[derive(Clone, Copy, Debug, PartialEq, Eq, Structural)]
pub enum WorkerAction {
    /// Play the sequence that was received.
    Play,
    /// Poll again.
    Continue,
    /// Leave the loop.
    Stop,
}

/// A requested stop ends the worker before it polls; a closed queue ends it
/// too; a sequence is played; an empty poll only leads to the next one.
pub fn worker_action(stop_requested: bool, poll: QueuePoll) -> (r: WorkerAction)
    ensures
        r == if stop_requested {
            WorkerAction::Stop
        } else {
            match poll {
                QueuePoll::Received => WorkerAction::Play,
                QueuePoll::Empty => WorkerAction::Continue,
                QueuePoll::Disconnected => WorkerAction::Stop,
            }
        },
{
    if stop_requested {
        return WorkerAction::Stop;
    }
    match poll {
        QueuePoll::Received => WorkerAction::Play,
        QueuePoll::Empty => WorkerAction::Continue,
        QueuePoll::Disconnected => WorkerAction::Stop,
    }
}

} // verus!

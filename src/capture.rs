//! The decisions of pulse capture. Raw edge-to-edge durations and timeout
//! markers come in one ordered stream; short durations are merged
//! (debounce), each emitted pulse is snapped to a tick grid, pulses longer
//! than the noise limit are dropped, and a timeout closes the sequence
//! gathered so far.
use crate::types::{IrPulse, IrSequence};
use vstd::prelude::*;

verus! {

/// Durations at or below this many microseconds are merged with the next.
pub const DEBOUNCE_US: u128 = 100;

/// Pulses longer than this many microseconds are noise from the idle line.
pub const MAX_PULSE_US: u128 = 10_000;

/// Milliseconds without an edge after which a capture is complete.
pub const WAIT_TIMEOUT_MS: u64 = 100;

/// One event of the merged stream: the time since the previous edge, in
/// microseconds, or the end of a quiet period.
#[derive(Clone, Copy, Debug, PartialEq, Eq, Structural)]
pub enum IrInterruptMessage {
    Pulse(u128),
    Timeout,
}

/// `m` rounded to the nearest multiple of `fac`, halves rounded up.
pub open spec fn snap(m: int, fac: int) -> int {
    if m % fac >= fac / 2 {
        m - m % fac + fac
    } else {
        m - m % fac
    }
}

/// The tick grid: 10 us below 1 ms, 50 us below 2 ms, 200 us above.
#[verifier::opaque]
pub open spec fn normalized(m: int) -> int {
    if m < 1000 {
        snap(m, 10)
    } else if m < 2000 {
        snap(m, 50)
    } else {
        snap(m, 200)
    }
}

fn round(i: u128, fac: u128) -> (r: u128)
    requires
        fac > 0,
        i + fac <= u128::MAX,
    ensures
        r == snap(i as int, fac as int),
{
    let rem = i % fac;
    assert(rem <= i) by (nonlinear_arith)
        requires
            rem == i % fac,
            fac > 0,
    ;
    if rem >= fac / 2 {
        i + (fac - rem)
    } else {
        i - rem
    }
}

/// Snaps a duration to the tick grid.
pub fn normalize(m: u128) -> (r: u128)
    requires
        m <= u128::MAX - 200,
    ensures
        r == normalized(m as int),
{
    reveal(normalized);
    if m < 1000 {
        round(m, 10)
    } else if m < 2000 {
        round(m, 50)
    } else {
        round(m, 200)
    }
}

/// What a capture holds between events.
pub struct CaptureState {
    /// A merged duration not yet over the debounce limit.
    pub pending: Option<nat>,
    /// The pulses of the sequence being captured.
    pub sequence: Seq<IrPulse>,
}

/// The pulse `d` left after debouncing, added to `seq` on the tick grid
/// unless it snaps to zero or is noise from the idle line.
pub open spec fn accept(seq: Seq<IrPulse>, d: nat) -> Seq<IrPulse> {
    let n = normalized(d as int);
    if n == 0 || n > MAX_PULSE_US {
        seq
    } else {
        seq.push(IrPulse(n as u128))
    }
}

/// The state after `event`, and the sequence it completes, if any.
pub open spec fn capture_step(st: CaptureState, event: IrInterruptMessage) -> (CaptureState, Option<Seq<IrPulse>>) {
    match event {
        IrInterruptMessage::Pulse(d) => {
            match st.pending {
                Some(l) => if l + d > DEBOUNCE_US {
                    (CaptureState { pending: None, sequence: accept(st.sequence, (l + d) as nat) }, None)
                } else {
                    (CaptureState { pending: Some((l + d) as nat), sequence: st.sequence }, None)
                },
                None => if d > DEBOUNCE_US {
                    (CaptureState { pending: None, sequence: accept(st.sequence, d as nat) }, None)
                } else {
                    (CaptureState { pending: Some(d as nat), sequence: st.sequence }, None)
                },
            }
        },
        IrInterruptMessage::Timeout => {
            let seq = match st.pending {
                Some(l) => accept(st.sequence, l),
                None => st.sequence,
            };
            (
                CaptureState { pending: None, sequence: seq![] },
                if seq.len() > 0 { Some(seq) } else { None },
            )
        },
    }
}

/// The state after `events` in order, and the sequences they complete.
pub open spec fn run_capture(st: CaptureState, events: Seq<IrInterruptMessage>) -> (CaptureState, Seq<Seq<IrPulse>>)
    decreases events.len(),
{
    if events.len() == 0 {
        (st, seq![])
    } else {
        let (next, done) = capture_step(st, events[0]);
        let (last, rest) = run_capture(next, events.drop_first());
        (
            last,
            match done {
                Some(s) => seq![s] + rest,
                None => rest,
            },
        )
    }
}

/// One pulse event for each duration of `ds`.
pub open spec fn pulse_events(ds: Seq<u128>) -> Seq<IrInterruptMessage> {
    ds.map_values(|d: u128| IrInterruptMessage::Pulse(d))
}

/// The pulses that the durations `ds` leave in a capture, in order: each on
/// the tick grid, with those that snap to zero or exceed the noise limit left
/// out.
pub open spec fn kept_pulses(ds: Seq<u128>) -> Seq<IrPulse>
    decreases ds.len(),
{
    if ds.len() == 0 {
        seq![]
    } else {
        accept(seq![], ds[0] as nat) + kept_pulses(ds.drop_first())
    }
}

/// The sequences that a timeout completes from `s`: none when it is empty.
pub open spec fn completed(s: Seq<IrPulse>) -> Seq<Seq<IrPulse>> {
    if s.len() > 0 {
        seq![s]
    } else {
        seq![]
    }
}

proof fn lemma_run_pulses(s: Seq<IrPulse>, ds: Seq<u128>)
    requires
        forall|i: int| 0 <= i < ds.len() ==> #[trigger] ds[i] > DEBOUNCE_US,
    ensures
        run_capture(
            CaptureState { pending: None, sequence: s },
            pulse_events(ds).push(IrInterruptMessage::Timeout),
        ) == (CaptureState { pending: None, sequence: seq![] }, completed(s + kept_pulses(ds))),
    decreases ds.len(),
{
    let events = pulse_events(ds).push(IrInterruptMessage::Timeout);
    let st = CaptureState { pending: None, sequence: s };
    let empty = CaptureState { pending: None, sequence: seq![] };
    if ds.len() == 0 {
        assert(events[0] == IrInterruptMessage::Timeout);
        assert(capture_step(st, events[0]) == (empty, if s.len() > 0 { Some(s) } else { None }));
        assert(events.drop_first() =~= seq![]);
        assert(run_capture(empty, events.drop_first()) == (empty, Seq::<Seq<IrPulse>>::empty()));
        assert(s + kept_pulses(ds) =~= s);
        assert(seq![s] + Seq::<Seq<IrPulse>>::empty() =~= seq![s]);
        assert(run_capture(st, events) == (empty, completed(s)));
    } else {
        let next = accept(s, ds[0] as nat);
        assert(ds[0] > DEBOUNCE_US);
        assert(events[0] == IrInterruptMessage::Pulse(ds[0]));
        assert(capture_step(st, events[0]) == (CaptureState { pending: None, sequence: next }, None::<Seq<IrPulse>>));
        assert(events.drop_first() =~= pulse_events(ds.drop_first()).push(IrInterruptMessage::Timeout));
        lemma_run_pulses(next, ds.drop_first());
        let nst = CaptureState { pending: None, sequence: next };
        assert(run_capture(st, events) == run_capture(nst, events.drop_first()));
        assert(next + kept_pulses(ds.drop_first()) =~= s + kept_pulses(ds));
    }
}

/// Timeout segmentation: from an empty capture, pulses that are no bounce
/// (each over the debounce limit) followed by a quiet period complete exactly
/// one sequence, holding every one of those pulses on the tick grid in
/// arrival order except noise over the limit, and leave the capture empty;
/// when every pulse was noise nothing is completed.
pub proof fn lemma_timeout_completes(ds: Seq<u128>)
    requires
        forall|i: int| 0 <= i < ds.len() ==> #[trigger] ds[i] > DEBOUNCE_US,
    ensures
        run_capture(
            CaptureState { pending: None, sequence: seq![] },
            pulse_events(ds).push(IrInterruptMessage::Timeout),
        ) == (CaptureState { pending: None, sequence: seq![] }, completed(kept_pulses(ds))),
{
    lemma_run_pulses(seq![], ds);
    assert(Seq::<IrPulse>::empty() + kept_pulses(ds) =~= kept_pulses(ds));
}

/// `p` lies on the tick grid of its own range.
pub open spec fn on_grid(p: int) -> bool {
    if p < 1000 {
        p % 10 == 0
    } else if p < 2000 {
        p % 50 == 0
    } else {
        p % 200 == 0
    }
}

/// A pulse a capture may hold: longer than zero, at most the noise limit, on
/// the tick grid.
pub open spec fn valid_pulse(p: IrPulse) -> bool {
    0 < p.0 <= MAX_PULSE_US && on_grid(p.0 as int)
}

proof fn lemma_normalized_on_grid(m: int)
    requires
        m >= 0,
    ensures
        normalized(m) >= 0,
        on_grid(normalized(m)),
{
    reveal(normalized);
    let fac: int = if m < 1000 {
        10
    } else if m < 2000 {
        50
    } else {
        200
    };
    let k = m / fac;
    assert(m - m % fac == fac * k && m % fac >= 0) by (nonlinear_arith)
        requires
            fac > 0,
            k == m / fac,
    ;
    let r = normalized(m);
    let j: int = if m % fac >= fac / 2 { k + 1 } else { k };
    assert(r == fac * j);
    assert(j >= 0) by (nonlinear_arith)
        requires
            m >= 0,
            fac > 0,
            k == m / fac,
            j == k || j == k + 1,
    ;
    if fac == 10 {
        assert(r <= 1000 && r % 10 == 0) by (nonlinear_arith)
            requires
                r == 10 * j,
                j == k || j == k + 1,
                k == m / 10,
                0 <= m < 1000,
        ;
        assert(r == 1000 || r < 1000);
    } else if fac == 50 {
        assert(r >= 1000 && r <= 2000 && r % 50 == 0 && (r == 2000 ==> r % 200 == 0)) by (nonlinear_arith)
            requires
                r == 50 * j,
                j == k || j == k + 1,
                k == m / 50,
                1000 <= m < 2000,
        ;
    } else {
        assert(r >= 2000 && r % 200 == 0) by (nonlinear_arith)
            requires
                r == 200 * j,
                j == k || j == k + 1,
                k == m / 200,
                m >= 2000,
        ;
    }
}

/// Every pulse a capture keeps is longer than zero, at most the noise limit,
/// and on the tick grid.
pub proof fn lemma_kept_pulses_valid(ds: Seq<u128>)
    ensures
        forall|i: int| 0 <= i < kept_pulses(ds).len() ==> valid_pulse(#[trigger] kept_pulses(ds)[i]),
    decreases ds.len(),
{
    if ds.len() > 0 {
        lemma_kept_pulses_valid(ds.drop_first());
        let head = accept(seq![], ds[0] as nat);
        let rest = kept_pulses(ds.drop_first());
        assert(kept_pulses(ds) == head + rest);
        assert forall|i: int| 0 <= i < kept_pulses(ds).len() implies valid_pulse(#[trigger] kept_pulses(ds)[i]) by {
            if i >= head.len() {
                assert(kept_pulses(ds)[i] == rest[i - head.len()]);
            } else {
                let n = normalized(ds[0] as int);
                lemma_normalized_on_grid(ds[0] as int);
                assert(head =~= seq![IrPulse(n as u128)]);
                assert(kept_pulses(ds)[i] == head[i]);
            }
        }
    }
}

/// Debounce: with nothing pending, a duration at or below the debounce limit
/// followed by one that takes the sum over it adds exactly one pulse, the sum
/// on the tick grid (unless that is noise), completes nothing, and leaves
/// nothing pending.
pub proof fn lemma_debounce_merges(st: CaptureState, a: u128, b: u128)
    requires
        st.pending is None,
        a <= DEBOUNCE_US,
        a + b > DEBOUNCE_US,
    ensures
        run_capture(st, seq![IrInterruptMessage::Pulse(a), IrInterruptMessage::Pulse(b)]) == (
        CaptureState { pending: None, sequence: accept(st.sequence, (a + b) as nat) },
        Seq::<Seq<IrPulse>>::empty()),
{
    let events = seq![IrInterruptMessage::Pulse(a), IrInterruptMessage::Pulse(b)];
    let mid = CaptureState { pending: Some(a as nat), sequence: st.sequence };
    let last = CaptureState { pending: None, sequence: accept(st.sequence, (a + b) as nat) };
    assert(capture_step(st, events[0]) == (mid, None::<Seq<IrPulse>>));
    assert(events.drop_first() =~= seq![IrInterruptMessage::Pulse(b)]);
    assert(capture_step(mid, IrInterruptMessage::Pulse(b)) == (last, None::<Seq<IrPulse>>));
    assert(seq![IrInterruptMessage::Pulse(b)].drop_first() =~= Seq::<IrInterruptMessage>::empty());
    assert(run_capture(last, Seq::<IrInterruptMessage>::empty()) == (last, Seq::<Seq<IrPulse>>::empty()));
    assert(run_capture(mid, seq![IrInterruptMessage::Pulse(b)]) == (last, Seq::<Seq<IrPulse>>::empty()));
}

/// Capture in progress: the debounce accumulator and the sequence so far.
pub struct IrCapture {
    pending: Option<u128>,
    sequence: Vec<IrPulse>,
}

impl View for IrCapture {
    type V = CaptureState;

    closed spec fn view(&self) -> CaptureState {
        CaptureState {
            pending: match self.pending {
                Some(l) => Some(l as nat),
                None => None,
            },
            sequence: self.sequence@,
        }
    }
}

impl IrCapture {
    /// The accumulator stays at or below the debounce limit.
    pub closed spec fn wf(&self) -> bool {
        &&& match self.pending {
            Some(l) => l <= DEBOUNCE_US,
            None => true,
        }
        &&& forall|i: int| 0 <= i < self.sequence@.len() ==> valid_pulse(#[trigger] self.sequence@[i])
    }

    pub fn new() -> (r: IrCapture)
        ensures
            r.wf(),
            r@ == (CaptureState { pending: None, sequence: seq![] }),
    {
        IrCapture { pending: None, sequence: Vec::new() }
    }

    fn push_pulse(&mut self, d: u128)
        requires
            d <= u128::MAX - 200,
        ensures
            final(self).pending == old(self).pending,
            final(self).sequence@ == accept(old(self).sequence@, d as nat),
            (forall|i: int| 0 <= i < old(self).sequence@.len() ==> valid_pulse(#[trigger] old(self).sequence@[i]))
                ==> (forall|i: int| 0 <= i < final(self).sequence@.len() ==> valid_pulse(#[trigger] final(self).sequence@[i])),
    {
        let n = normalize(d);
        proof {
            lemma_normalized_on_grid(d as int);
        }
        if n != 0 && n <= MAX_PULSE_US {
            self.sequence.push(IrPulse(n));
        }
    }

    /// Takes one event of the merged stream. A timeout hands back the
    /// completed sequence, if it holds any pulse, and leaves the capture empty.
    /// A completed sequence is never empty, and each of its pulses is longer
    /// than zero, at most the noise limit, and on the tick grid.
    pub fn handle(&mut self, event: IrInterruptMessage) -> (r: Option<IrSequence>)
        requires
            old(self).wf(),
            event matches IrInterruptMessage::Pulse(d) ==> d <= u128::MAX - 300,
        ensures
            final(self).wf(),
            (final(self)@, match r {
                Some(s) => Some(s@),
                None => None,
            }) == capture_step(old(self)@, event),
            r matches Some(s) ==> s@.len() > 0 && forall|i: int| 0 <= i < s@.len() ==> valid_pulse(#[trigger] s@[i]),
    {
        match event {
            IrInterruptMessage::Pulse(d) => {
                match self.pending {
                    Some(l) => {
                        if l + d > DEBOUNCE_US {
                            self.pending = None;
                            self.push_pulse(l + d);
                        } else {
                            self.pending = Some(l + d);
                        }
                    },
                    None => {
                        if d > DEBOUNCE_US {
                            self.push_pulse(d);
                        } else {
                            self.pending = Some(d);
                        }
                    },
                }
                None
            },
            IrInterruptMessage::Timeout => {
                if let Some(l) = self.pending {
                    self.pending = None;
                    self.push_pulse(l);
                }
                let mut done: Vec<IrPulse> = Vec::new();
                std::mem::swap(&mut done, &mut self.sequence);
                if done.len() > 0 {
                    Some(IrSequence(done))
                } else {
                    None
                }
            },
        }
    }
}

} // verus!

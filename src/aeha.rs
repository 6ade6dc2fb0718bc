//! The AEHA pulse-timing format: a leader of 8 + 4 cycles, then one mark and
//! one space per bit (a space of 1 cycle for 0, 3 cycles for 1, least
//! significant bit first), then a stop mark of 1 cycle.
use crate::types::{
    IrDecodeError, IrEncodeError, IrFormat, IrPulse, IrPulseBytes, IrSequence, frames_view,
};
use vstd::prelude::*;

verus! {

/// The nominal cycle, in microseconds.
pub const STD_CYCLE: u128 = 425;

/// The gap between frames, in microseconds; a space over half of it ends a frame.
pub const WAIT_LENGTH: u128 = 10000;

/// `len` lies strictly within 35% of `target` on either side.
pub open spec fn within_tolerance(len: int, target: int) -> bool {
    100 * len > 65 * target && 100 * len < 135 * target
}

/// Exact tolerance test on integers: `100 * len` is compared with `65 * target`
/// and `135 * target` without computing either product.
pub fn in_tolerance(len: u128, target: u128) -> (r: bool)
    ensures
        r == within_tolerance(len as int, target as int),
{
    let q = target / 20;
    let m = target % 20;
    let low = q * 13 + (m * 13) / 20;
    let lower_ok = len > low;
    proof {
        let f = (m * 13) / 20;
        let r = (m * 13) % 20;
        assert(target == 20 * q + m);
        assert(13 * m == 20 * f + r && 0 <= r < 20) by (nonlinear_arith)
            requires
                f == (m * 13) / 20,
                r == (m * 13) % 20,
        ;
        assert(lower_ok == (20 * (len as int) > 13 * (target as int))) by (nonlinear_arith)
            requires
                target == 20 * q + m,
                13 * m == 20 * f + r,
                0 <= r < 20,
                low == 13 * q + f,
                lower_ok == (len > low),
        ;
    }
    let upper_ok = if len < target {
        true
    } else {
        let d = len - target;
        let high = q * 7 + (m * 7 + 19) / 20;
        proof {
            let c = (m * 7 + 19) / 20;
            let s = (m * 7 + 19) % 20;
            assert(7 * m + 19 == 20 * c + s && 0 <= s < 20) by (nonlinear_arith)
                requires
                    c == (m * 7 + 19) / 20,
                    s == (m * 7 + 19) % 20,
            ;
            assert((d < high) == (20 * (d as int) < 7 * (target as int))) by (nonlinear_arith)
                requires
                    target == 20 * q + m,
                    7 * m + 19 == 20 * c + s,
                    0 <= s < 20,
                    high == 7 * q + c,
            ;
        }
        d < high
    };
    lower_ok && upper_ok
}


/// `p` lies within tolerance of `cycles` nominal cycles.
pub open spec fn pulse_in_bounds(p: IrPulse, cycles: int) -> bool {
    within_tolerance(p.0 as int, STD_CYCLE * cycles)
}

/// A leader pair: mark of about 8 cycles, space of about 4.
pub open spec fn is_leader(mark: IrPulse, space: IrPulse) -> bool {
    pulse_in_bounds(mark, 8) && pulse_in_bounds(space, 4)
}

/// A repeat pair: mark and space of about 8 cycles each.
pub open spec fn is_repeat(mark: IrPulse, space: IrPulse) -> bool {
    pulse_in_bounds(mark, 8) && pulse_in_bounds(space, 8)
}

/// Where a decoder stands between two pairs of pulses.
pub struct DecodeState {
    /// Frames finished so far.
    pub frames: Seq<Seq<u8>>,
    /// Whole bytes of the frame being read.
    pub bytes: Seq<u8>,
    /// Bits of the byte being read, below `bits`.
    pub byte: u8,
    /// How many bits of the current byte were read.
    pub bits: u8,
    /// The next pair must be a leader or a repeat pair.
    pub expect_leader: bool,
}

/// The state before the first pair.
pub open spec fn initial_state() -> DecodeState {
    DecodeState { frames: seq![], bytes: seq![], byte: 0, bits: 0, expect_leader: true }
}

/// Adds one bit at position `bits` of the current byte; the eighth bit closes it.
pub open spec fn push_bit(st: DecodeState, one: bool) -> DecodeState {
    let byte = if one { st.byte | (1u8 << st.bits) } else { st.byte };
    let bits = ((st.bits + 1) % 8) as u8;
    if bits == 0 {
        DecodeState { frames: st.frames, bytes: st.bytes.push(byte), byte: 0, bits, expect_leader: false }
    } else {
        DecodeState { frames: st.frames, bytes: st.bytes, byte, bits, expect_leader: false }
    }
}

/// One pair of a mark and a space read in state `st`. A leader or repeat
/// pair opens a frame; inside a frame a space longer than half the frame gap
/// closes it (with no bytes it is a repeat frame) and drops the bits of an
/// unfinished byte but not their count; other spaces give one bit.
pub open spec fn pair_step(st: DecodeState, mark: IrPulse, space: IrPulse) -> Result<DecodeState, IrDecodeError> {
    if st.expect_leader {
        if is_leader(mark, space) || is_repeat(mark, space) {
            Ok(DecodeState { expect_leader: false, ..st })
        } else {
            Err(IrDecodeError::UnknownEnd)
        }
    } else if !pulse_in_bounds(mark, 1) {
        Err(IrDecodeError::UnknownBit)
    } else if space.0 > WAIT_LENGTH / 2 {
        Ok(
            DecodeState {
                frames: st.frames.push(st.bytes),
                bytes: seq![],
                byte: 0,
                bits: st.bits,
                expect_leader: true,
            },
        )
    } else if pulse_in_bounds(space, 1) {
        Ok(push_bit(st, false))
    } else if pulse_in_bounds(space, 3) {
        Ok(push_bit(st, true))
    } else {
        Err(IrDecodeError::UnknownBit)
    }
}

/// The lone stop mark `p` read in state `st`.
pub open spec fn finish(st: DecodeState, p: IrPulse) -> Result<Seq<Seq<u8>>, IrDecodeError> {
    if st.expect_leader {
        Err(IrDecodeError::OddEnd)
    } else if pulse_in_bounds(p, 1) && st.bits == 0 {
        Ok(st.frames.push(st.bytes))
    } else {
        Err(IrDecodeError::InvalidBits)
    }
}

/// Decoding of `data` from index `i` on, in state `st`.
pub open spec fn decode_from(data: Seq<IrPulse>, i: nat, st: DecodeState) -> Result<Seq<Seq<u8>>, IrDecodeError>
    decreases data.len() - i,
{
    if i >= data.len() {
        Err(IrDecodeError::UnexpectedEnd)
    } else if i + 1 == data.len() {
        finish(st, data[i as int])
    } else {
        match pair_step(st, data[i as int], data[(i + 1) as int]) {
            Ok(next) => decode_from(data, i + 2, next),
            Err(e) => Err(e),
        }
    }
}

/// The frames that `data` carries, or the first fault in it.
pub open spec fn decode_spec(data: Seq<IrPulse>) -> Result<Seq<Seq<u8>>, IrDecodeError> {
    if data.len() < 10 {
        Err(IrDecodeError::TooShort)
    } else {
        decode_from(data, 0, initial_state())
    }
}

/// The frames of a decoding result, or its error.
pub open spec fn decoded_view(r: Result<IrPulseBytes, IrDecodeError>) -> Result<Seq<Seq<u8>>, IrDecodeError> {
    match r {
        Ok(b) => Ok(b@),
        Err(e) => Err(e),
    }
}

/// Bit `k` of `b`, counting from the least significant.
pub open spec fn bit_of(b: u8, k: u8) -> bool {
    (b >> k) & 1 == 1
}

/// Pulse `i` of the frame that carries `b`: leader, one mark and space per
/// bit, and the stop mark.
pub open spec fn encoded_pulse(b: Seq<u8>, i: int) -> u128 {
    if i == 0 {
        (STD_CYCLE * 8) as u128
    } else if i == 1 {
        (STD_CYCLE * 4) as u128
    } else if i == 16 * b.len() + 2 {
        STD_CYCLE
    } else if (i - 2) % 2 == 0 {
        STD_CYCLE
    } else if bit_of(b[(i - 2) / 16], (((i - 2) % 16) / 2) as u8) {
        (STD_CYCLE * 3) as u128
    } else {
        STD_CYCLE
    }
}

/// The pulses of one frame carrying `b`.
pub open spec fn encode_spec(b: Seq<u8>) -> Seq<IrPulse> {
    Seq::new((16 * b.len() + 3) as nat, |i: int| IrPulse(encoded_pulse(b, i)))
}

/// The pulses of an encoding result, or its error.
pub open spec fn encoded_view(r: Result<IrSequence, IrEncodeError>) -> Result<Seq<IrPulse>, IrEncodeError> {
    match r {
        Ok(s) => Ok(s@),
        Err(e) => Err(e),
    }
}

/// The low `t` bits of `v`.
pub open spec fn low_bits(v: u8, t: u8) -> u8 {
    v & (((1u8 << t) as u8 - 1) as u8)
}

proof fn lemma_add_bit(v: u8, t: u8)
    requires
        t < 8,
    ensures
        t < 7 ==> (if (v >> t) & 1 == 1 {
            low_bits(v, t) | (1u8 << t)
        } else {
            low_bits(v, t)
        }) == low_bits(v, (t + 1) as u8),
        t == 7 ==> (if (v >> t) & 1 == 1 {
            low_bits(v, t) | (1u8 << t)
        } else {
            low_bits(v, t)
        }) == v,
        low_bits(v, 0) == 0,
{
    assert(t < 7 ==> (if (v >> t) & 1 == 1 {
        (v & (((1u8 << t) - 1) as u8)) | (1u8 << t)
    } else {
        v & (((1u8 << t) - 1) as u8)
    }) == v & (((1u8 << ((t + 1) as u8)) - 1) as u8)) by (bit_vector)
        requires
            t < 8,
    ;
    assert(t == 7 ==> (if (v >> t) & 1 == 1 {
        (v & (((1u8 << t) - 1) as u8)) | (1u8 << t)
    } else {
        v & (((1u8 << t) - 1) as u8)
    }) == v) by (bit_vector);
    assert(v & (((1u8 << 0u8) - 1) as u8) == 0) by (bit_vector);
}

proof fn lemma_pair_index(n: int, j: int, t: int)
    requires
        0 <= j < n,
        0 <= t < 8,
    ensures
        (16 * j + 2 * t) % 2 == 0,
        (16 * j + 2 * t + 1) % 2 == 1,
        (16 * j + 2 * t + 1) / 16 == j,
        ((16 * j + 2 * t + 1) % 16) / 2 == t,
        2 + 16 * j + 2 * t + 1 < 16 * n + 2,
{
    assert((16 * j + 2 * t) % 2 == 0 && (16 * j + 2 * t + 1) % 2 == 1) by (nonlinear_arith)
        requires
            0 <= j,
            0 <= t < 8,
    ;
    assert((16 * j + 2 * t + 1) / 16 == j && (16 * j + 2 * t + 1) % 16 == 2 * t + 1) by (nonlinear_arith)
        requires
            0 <= j,
            0 <= t < 8,
    ;
    assert(16 * j + 2 * t + 1 < 16 * n) by (nonlinear_arith)
        requires
            0 <= j < n,
            0 <= t < 8,
    ;
}

/// How many nominal cycles pulse `i` of the frame carrying `b` lasts.
pub open spec fn nominal_cycles(b: Seq<u8>, i: int) -> int {
    if i == 0 {
        8
    } else if i == 1 {
        4
    } else if i == 16 * b.len() + 2 {
        1
    } else if (i - 2) % 2 == 0 {
        1
    } else if bit_of(b[(i - 2) / 16], (((i - 2) % 16) / 2) as u8) {
        3
    } else {
        1
    }
}

/// `d` has the shape of the frame carrying `b`, and every pulse but the one
/// at `fault` lies within tolerance of its nominal length.
pub open spec fn near_frame(d: Seq<IrPulse>, b: Seq<u8>, fault: int) -> bool {
    &&& d.len() == 16 * b.len() + 3
    &&& forall|x: int|
        0 <= x < d.len() && x != fault ==> #[trigger] pulse_in_bounds(d[x], nominal_cycles(b, x))
}

/// Pulse `x` is a data pulse that fits no bit: a mark outside the one-cycle
/// band, or a space in neither band that is no frame gap.
pub open spec fn bad_data_pulse(d: Seq<IrPulse>, b: Seq<u8>, x: int) -> bool {
    &&& 2 <= x < 16 * b.len() + 2
    &&& !pulse_in_bounds(d[x], 1)
    &&& (x - 2) % 2 == 1 ==> !pulse_in_bounds(d[x], 3) && d[x].0 <= WAIT_LENGTH / 2
}

/// Decoding `d`, close to the frame carrying `b`, from bit `t` of byte `j` on.
proof fn lemma_decode_data(b: Seq<u8>, d: Seq<IrPulse>, fault: int, j: int, t: int, st: DecodeState)
    requires
        0 <= j <= b.len(),
        0 <= t < 8,
        j == b.len() ==> t == 0,
        near_frame(d, b, fault),
        fault < 0 || (bad_data_pulse(d, b, fault) && fault >= 2 + 16 * j + 2 * t),
        st.frames == Seq::<Seq<u8>>::empty(),
        st.bytes == b.take(j),
        j < b.len() ==> st.byte == low_bits(b[j], t as u8),
        st.bits == t,
        !st.expect_leader,
    ensures
        decode_from(d, (2 + 16 * j + 2 * t) as nat, st) == if fault < 0 {
            Ok::<Seq<Seq<u8>>, IrDecodeError>(seq![b])
        } else {
            Err::<Seq<Seq<u8>>, IrDecodeError>(IrDecodeError::UnknownBit)
        },
    decreases 8 * (b.len() - j) - t,
{
    let i = 2 + 16 * j + 2 * t;
    if j == b.len() {
        assert(b.take(j) =~= b);
        assert(nominal_cycles(b, i) == 1);
        assert(pulse_in_bounds(d[i], nominal_cycles(b, i)));
        assert(st.frames.push(st.bytes) =~= seq![b]);
    } else {
        lemma_pair_index(b.len() as int, j, t);
        lemma_add_bit(b[j], t as u8);
        let mark = d[i];
        let space = d[i + 1];
        let one = bit_of(b[j], t as u8);
        assert(nominal_cycles(b, i) == 1);
        assert(nominal_cycles(b, i + 1) == if one { 3int } else { 1int });
        if fault == i {
            assert(pair_step(st, mark, space) == Err::<DecodeState, IrDecodeError>(IrDecodeError::UnknownBit));
        } else if fault == i + 1 {
            assert(pulse_in_bounds(d[i], nominal_cycles(b, i)));
            assert(pair_step(st, mark, space) == Err::<DecodeState, IrDecodeError>(IrDecodeError::UnknownBit));
        } else {
            assert(pulse_in_bounds(d[i], nominal_cycles(b, i)));
            assert(pulse_in_bounds(d[i + 1], nominal_cycles(b, i + 1)));
            let next = push_bit(st, one);
            assert(pair_step(st, mark, space) == Ok::<DecodeState, IrDecodeError>(next));
            if t < 7 {
                lemma_decode_data(b, d, fault, j, t + 1, next);
                assert(2 + 16 * j + 2 * (t + 1) == i + 2);
            } else {
                assert(b.take(j).push(b[j]) =~= b.take(j + 1));
                if j + 1 < b.len() {
                    lemma_add_bit(b[j + 1], 0);
                }
                lemma_decode_data(b, d, fault, j + 1, 0, next);
                assert(2 + 16 * (j + 1) == i + 2);
            }
        }
    }
}

proof fn lemma_decode_near(b: Seq<u8>, d: Seq<IrPulse>, fault: int)
    requires
        b.len() > 0,
        near_frame(d, b, fault),
        fault < 0 || bad_data_pulse(d, b, fault),
    ensures
        decode_spec(d) == if fault < 0 {
            Ok::<Seq<Seq<u8>>, IrDecodeError>(seq![b])
        } else {
            Err::<Seq<Seq<u8>>, IrDecodeError>(IrDecodeError::UnknownBit)
        },
{
    let st = DecodeState { frames: seq![], bytes: seq![], byte: 0, bits: 0, expect_leader: false };
    assert(pulse_in_bounds(d[0], nominal_cycles(b, 0)));
    assert(pulse_in_bounds(d[1], nominal_cycles(b, 1)));
    assert(pair_step(initial_state(), d[0], d[1]) == Ok::<DecodeState, IrDecodeError>(st));
    assert(b.take(0) =~= seq![]);
    lemma_add_bit(b[0], 0);
    lemma_decode_data(b, d, fault, 0, 0, st);
}

/// Tolerance: a pulse sequence of the shape of a frame whose every pulse lies
/// within 35% of its nominal length decodes to that frame.
pub proof fn lemma_tolerant_decode(b: Seq<u8>, d: Seq<IrPulse>)
    requires
        b.len() > 0,
        d.len() == 16 * b.len() + 3,
        forall|x: int| 0 <= x < d.len() ==> #[trigger] pulse_in_bounds(d[x], nominal_cycles(b, x)),
    ensures
        decode_spec(d) == Ok::<Seq<Seq<u8>>, IrDecodeError>(seq![b]),
{
    lemma_decode_near(b, d, -1);
}

/// Tolerance: where one data pulse of such a sequence fits no bit (a mark
/// outside the one-cycle band, or a space in neither band and no frame gap),
/// decoding reports `UnknownBit`.
pub proof fn lemma_out_of_band_decode(b: Seq<u8>, d: Seq<IrPulse>, fault: int)
    requires
        b.len() > 0,
        d.len() == 16 * b.len() + 3,
        forall|x: int|
            0 <= x < d.len() && x != fault ==> #[trigger] pulse_in_bounds(d[x], nominal_cycles(b, x)),
        bad_data_pulse(d, b, fault),
    ensures
        decode_spec(d) == Err::<Seq<Seq<u8>>, IrDecodeError>(IrDecodeError::UnknownBit),
{
    lemma_decode_near(b, d, fault);
}

/// Round trip: decoding the pulses that encode a non-empty frame gives back
/// that one frame.
pub proof fn lemma_round_trip(b: Seq<u8>)
    requires
        b.len() > 0,
    ensures
        decode_spec(encode_spec(b)) == Ok::<Seq<Seq<u8>>, IrDecodeError>(seq![b]),
{
    let d = encode_spec(b);
    assert forall|x: int| 0 <= x < d.len() implies #[trigger] pulse_in_bounds(d[x], nominal_cycles(b, x)) by {
        assert(d[x].0 == STD_CYCLE * nominal_cycles(b, x));
    }
    lemma_tolerant_decode(b, d);
}

/// Tolerance: inside a frame, a pair whose mark is within 35% of one cycle
/// and whose space is no frame gap reads as bit 0 when the space is within
/// 35% of one cycle, as bit 1 when within 35% of three cycles, and as
/// `UnknownBit` otherwise; the two bands never overlap. A mark outside its
/// band is `UnknownBit` too.
pub proof fn lemma_bit_classification(st: DecodeState, mark: IrPulse, space: IrPulse)
    requires
        !st.expect_leader,
    ensures
        !(pulse_in_bounds(space, 1) && pulse_in_bounds(space, 3)),
        !pulse_in_bounds(mark, 1) ==> pair_step(st, mark, space) == Err::<DecodeState, IrDecodeError>(
            IrDecodeError::UnknownBit,
        ),
        pulse_in_bounds(mark, 1) && space.0 <= WAIT_LENGTH / 2 ==> pair_step(st, mark, space) == if pulse_in_bounds(
            space,
            1,
        ) {
            Ok::<DecodeState, IrDecodeError>(push_bit(st, false))
        } else if pulse_in_bounds(space, 3) {
            Ok::<DecodeState, IrDecodeError>(push_bit(st, true))
        } else {
            Err::<DecodeState, IrDecodeError>(IrDecodeError::UnknownBit)
        },
{
}

/// The AEHA format.
pub struct Aeha {}

impl Aeha {
    /// `pulse` lies within tolerance of `cycles` nominal cycles.
    pub fn in_bounds(pulse: IrPulse, cycles: u128) -> (r: bool)
        requires
            cycles * STD_CYCLE <= u128::MAX,
        ensures
            r == pulse_in_bounds(pulse, cycles as int),
    {
        in_tolerance(pulse.0, STD_CYCLE * cycles)
    }
}

impl IrFormat for Aeha {
    fn verify_leader(first_pulse: &IrPulse, second_pulse: &IrPulse) -> (r: bool)
        ensures
            r == is_leader(*first_pulse, *second_pulse),
    {
        Self::in_bounds(*first_pulse, 8) && Self::in_bounds(*second_pulse, 4)
    }

    fn verify_repeat(first_pulse: &IrPulse, second_pulse: &IrPulse) -> (r: bool)
        ensures
            r == is_repeat(*first_pulse, *second_pulse),
    {
        Self::in_bounds(*first_pulse, 8) && Self::in_bounds(*second_pulse, 8)
    }

    fn decode(data: &[IrPulse]) -> (r: Result<IrPulseBytes, IrDecodeError>)
        ensures
            decoded_view(r) == decode_spec(data@),
    {
        if data.len() < 10 {
            return Err(IrDecodeError::TooShort);
        }
        let mut frames: Vec<Vec<u8>> = Vec::new();
        let mut bytes: Vec<u8> = Vec::new();
        let mut byte: u8 = 0;
        let mut bits: u8 = 0;
        let mut expect_leader = true;
        let mut i: usize = 0;
        assert(frames_view(frames@) =~= seq![]);
        while i < data.len()
            invariant
                i <= data@.len(),
                bits < 8,
                decode_from(
                    data@,
                    i as nat,
                    DecodeState { frames: frames_view(frames@), bytes: bytes@, byte, bits, expect_leader },
                ) == decode_spec(data@),
            decreases data@.len() - i,
        {
            let ghost st = DecodeState { frames: frames_view(frames@), bytes: bytes@, byte, bits, expect_leader };
            if i + 1 == data.len() {
                if expect_leader {
                    return Err(IrDecodeError::OddEnd);
                }
                if Self::in_bounds(data[i], 1) && bits == 0 {
                    frames.push(bytes);
                    proof {
                        assert(frames_view(frames@) =~= st.frames.push(st.bytes));
                    }
                    return Ok(IrPulseBytes(frames));
                }
                return Err(IrDecodeError::InvalidBits);
            }
            let mark = data[i];
            let space = data[i + 1];
            if expect_leader {
                if Self::verify_leader(&mark, &space) || Self::verify_repeat(&mark, &space) {
                    expect_leader = false;
                } else {
                    return Err(IrDecodeError::UnknownEnd);
                }
            } else if !Self::in_bounds(mark, 1) {
                return Err(IrDecodeError::UnknownBit);
            } else if space.0 > WAIT_LENGTH / 2 {
                frames.push(bytes);
                bytes = Vec::new();
                byte = 0;
                expect_leader = true;
                proof {
                    assert(frames_view(frames@) =~= st.frames.push(st.bytes));
                }
            } else {
                let one = if Self::in_bounds(space, 1) {
                    false
                } else if Self::in_bounds(space, 3) {
                    true
                } else {
                    return Err(IrDecodeError::UnknownBit);
                };
                if one {
                    byte = byte | (1u8 << bits);
                }
                bits = (bits + 1) % 8;
                if bits == 0 {
                    bytes.push(byte);
                    byte = 0;
                }
            }
            assert(data@[i as int] == mark && data@[i + 1] == space);
            i = i + 2;
        }
        Err(IrDecodeError::UnexpectedEnd)
    }

    fn encode(bytes: &[u8]) -> (r: Result<IrSequence, IrEncodeError>)
        ensures
            encoded_view(r) == if bytes@.len() == 0 {
                Err(IrEncodeError::EmptyFrame)
            } else {
                Ok(encode_spec(bytes@))
            },
    {
        if bytes.len() == 0 {
            return Err(IrEncodeError::EmptyFrame);
        }
        let ghost b = bytes@;
        let mut code: Vec<IrPulse> = Vec::new();
        code.push(IrPulse(STD_CYCLE * 8));
        code.push(IrPulse(STD_CYCLE * 4));
        let mut j: usize = 0;
        while j < bytes.len()
            invariant
                j <= b.len(),
                b == bytes@,
                code@.len() == 2 + 16 * j,
                forall|x: int| 0 <= x < code@.len() ==> code@[x] == IrPulse(#[trigger] encoded_pulse(b, x)),
            decreases b.len() - j,
        {
            let value = bytes[j];
            let mut k: u8 = 0;
            while k < 8
                invariant
                    j < b.len(),
                    b == bytes@,
                    value == b[j as int],
                    k <= 8,
                    code@.len() == 2 + 16 * j + 2 * k,
                    forall|x: int| 0 <= x < code@.len() ==> code@[x] == IrPulse(#[trigger] encoded_pulse(b, x)),
                decreases 8 - k,
            {
                let ghost at = 2 + 16 * j + 2 * k;
                proof {
                    assert((at - 2) % 2 == 0 && (at + 1 - 2) % 2 == 1) by (nonlinear_arith)
                        requires
                            at == 2 + 16 * j + 2 * k,
                    ;
                    assert((at + 1 - 2) / 16 == j && ((at + 1 - 2) % 16) / 2 == k) by (nonlinear_arith)
                        requires
                            at == 2 + 16 * j + 2 * k,
                            0 <= k < 8,
                    ;
                    assert(at != 16 * b.len() + 2 && at + 1 != 16 * b.len() + 2) by (nonlinear_arith)
                        requires
                            at == 2 + 16 * j + 2 * k,
                            0 <= k < 8,
                            j < b.len(),
                    ;
                }
                assert(((value >> k) & 1u8 == 0) == !((value >> k) & 1u8 == 1)) by (bit_vector);
                code.push(IrPulse(STD_CYCLE));
                if (value >> k) & 1 == 0 {
                    code.push(IrPulse(STD_CYCLE));
                } else {
                    code.push(IrPulse(STD_CYCLE * 3));
                }
                assert(code@[at] == IrPulse(encoded_pulse(b, at)));
                assert(code@[at + 1] == IrPulse(encoded_pulse(b, at + 1)));
                k = k + 1;
            }
            j = j + 1;
        }
        code.push(IrPulse(STD_CYCLE));
        let r = IrSequence(code);
        assert(r@ =~= encode_spec(b));
        Ok(r)
    }
}

} // verus!

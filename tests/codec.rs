use mattori_home::aeha::{in_tolerance, Aeha, STD_CYCLE};
use mattori_home::types::{IrDecodeError, IrEncodeError, IrFormat, IrPulse, IrPulseBytes};

fn pulses(v: &[u128]) -> Vec<IrPulse> {
    v.iter().map(|p| IrPulse(*p)).collect()
}

fn frame_of(bytes: &[u8]) -> Vec<u128> {
    let mut out = vec![3400, 1700];
    for b in bytes {
        for k in 0..8 {
            out.push(425);
            out.push(if (b >> k) & 1 == 1 { 1275 } else { 425 });
        }
    }
    out.push(425);
    out
}

#[test]
fn decode_zero_byte_frame() {
    let data = pulses(&frame_of(&[0x00]));
    assert_eq!(data.len(), 19);
    let r = Aeha::decode(&data).unwrap();
    assert_eq!(r.0, vec![vec![0x00u8]]);
}

#[test]
fn decode_zero_byte_frame_with_jitter() {
    let mut raw = vec![3350, 1750];
    for _ in 0..8 {
        raw.push(410);
        raw.push(440);
    }
    raw.push(430);
    let r = Aeha::decode(&pulses(&raw)).unwrap();
    assert_eq!(r.0, vec![vec![0x00u8]]);
}

#[test]
fn round_trip_bytes() {
    for bytes in [vec![0x00u8], vec![0xFF], vec![0x01, 0x80, 0xA5, 0x5A], (0..=255u8).collect::<Vec<_>>()] {
        let seq = Aeha::encode(&bytes).unwrap();
        assert_eq!(seq.0.len(), 16 * bytes.len() + 3);
        let back = Aeha::decode(&seq.0).unwrap();
        assert_eq!(back.0, vec![bytes.clone()]);
    }
}

#[test]
fn encode_exact_pulses() {
    let seq = Aeha::encode(&[0x05]).unwrap();
    let expected = pulses(&[3400, 1700, 425, 1275, 425, 425, 425, 1275, 425, 425, 425, 425, 425, 425, 425, 425, 425, 425, 425]);
    assert_eq!(seq.0, expected);
}

#[test]
fn encode_empty_frame_fails() {
    assert_eq!(Aeha::encode(&[]).unwrap_err(), IrEncodeError::EmptyFrame);
}

#[test]
fn decode_too_short() {
    let data = pulses(&[3400, 1700, 425, 425, 425, 425, 425, 425, 425]);
    assert_eq!(Aeha::decode(&data).unwrap_err(), IrDecodeError::TooShort);
}

#[test]
fn decode_unknown_leader() {
    let mut raw = frame_of(&[0x12]);
    raw[1] = 1000;
    assert_eq!(Aeha::decode(&pulses(&raw)).unwrap_err(), IrDecodeError::UnknownEnd);
}

#[test]
fn decode_unknown_bit_outside_tolerance() {
    // 425 * 1.35 = 573.75: a space of 600 is outside the one-cycle band and
    // far below the three-cycle band.
    let mut raw = frame_of(&[0x00]);
    raw[3] = 600;
    assert_eq!(Aeha::decode(&pulses(&raw)).unwrap_err(), IrDecodeError::UnknownBit);
    // a mark outside its band
    let mut raw = frame_of(&[0x00]);
    raw[2] = 200;
    assert_eq!(Aeha::decode(&pulses(&raw)).unwrap_err(), IrDecodeError::UnknownBit);
}

#[test]
fn decode_bands_edges() {
    // one cycle: strictly between 276.25 and 573.75
    let mut raw = frame_of(&[0x00]);
    raw[3] = 573;
    assert!(Aeha::decode(&pulses(&raw)).is_ok());
    raw[3] = 277;
    assert!(Aeha::decode(&pulses(&raw)).is_ok());
    raw[3] = 276;
    assert_eq!(Aeha::decode(&pulses(&raw)).unwrap_err(), IrDecodeError::UnknownBit);
    // three cycles: strictly between 828.75 and 1721.25
    raw[3] = 829;
    assert_eq!(Aeha::decode(&pulses(&raw)).unwrap().0, vec![vec![0x01u8]]);
    raw[3] = 1721;
    assert_eq!(Aeha::decode(&pulses(&raw)).unwrap().0, vec![vec![0x01u8]]);
    raw[3] = 1722;
    assert_eq!(Aeha::decode(&pulses(&raw)).unwrap_err(), IrDecodeError::UnknownBit);
}

#[test]
fn decode_partial_byte_is_invalid_bits() {
    let mut raw = vec![3400, 1700];
    for _ in 0..5 {
        raw.push(425);
        raw.push(425);
    }
    raw.push(425);
    assert_eq!(Aeha::decode(&pulses(&raw)).unwrap_err(), IrDecodeError::InvalidBits);
}

#[test]
fn decode_even_length_is_unexpected_end() {
    let mut raw = frame_of(&[0x00]);
    raw.push(425);
    assert_eq!(Aeha::decode(&pulses(&raw)).unwrap_err(), IrDecodeError::UnexpectedEnd);
}

#[test]
fn decode_two_frames_and_repeat() {
    let mut raw = frame_of(&[0xAB]);
    raw.push(20000);
    let second = frame_of(&[0x01, 0x02]);
    raw.extend_from_slice(&second);
    raw.push(20000);
    // repeat frame: leader of 8 + 8 cycles, then the stop mark
    raw.extend_from_slice(&[3400, 3400, 425]);
    let r = Aeha::decode(&pulses(&raw)).unwrap();
    assert_eq!(r.0, vec![vec![0xABu8], vec![0x01, 0x02], vec![]]);
}

#[test]
fn decode_odd_end_after_gap() {
    let mut raw = frame_of(&[0xAB]);
    raw.push(20000);
    raw.push(3400);
    assert_eq!(Aeha::decode(&pulses(&raw)).unwrap_err(), IrDecodeError::OddEnd);
}

#[test]
fn tolerance_exact_values() {
    assert!(in_tolerance(425, STD_CYCLE));
    assert!(!in_tolerance(276, 425));
    assert!(in_tolerance(277, 425));
    assert!(in_tolerance(2295 - 1, 1700));
    assert!(!in_tolerance(2295, 1700));
    assert!(!in_tolerance(1105, 1700));
    assert!(in_tolerance(1106, 1700));
    assert!(!in_tolerance(0, 0));
    assert!(!in_tolerance(u128::MAX, 425));
    assert!(Aeha::in_bounds(IrPulse(1275), 3));
    assert!(!Aeha::in_bounds(IrPulse(1275), 1));
}

#[test]
fn verify_leader_and_repeat() {
    assert!(Aeha::verify_leader(&IrPulse(3400), &IrPulse(1700)));
    assert!(!Aeha::verify_leader(&IrPulse(3400), &IrPulse(3400)));
    assert!(Aeha::verify_repeat(&IrPulse(3400), &IrPulse(3400)));
    assert!(!Aeha::verify_repeat(&IrPulse(3400), &IrPulse(1700)));
}

#[test]
fn frames_to_string() {
    let b = IrPulseBytes(vec![vec![0x0A, 0xFF], vec![]]);
    assert_eq!(b.to_string(), "Frame #1 0x0A, 0xFF\nFrame #2 Repeat\n");
    let one = IrPulseBytes(vec![vec![0x00]]);
    assert_eq!(one.to_string(), "Frame #1 0x00");
    assert_eq!(IrPulseBytes(vec![]).to_string(), "");
    let many = IrPulseBytes((0..12).map(|i| vec![i as u8]).collect());
    assert!(many.to_string().ends_with("Frame #12 0x0B"));
}

use mattori_home::aeha::Aeha;
use mattori_home::sanyo::{Sanyo, SanyoError, SANYO_SEQ_LENGTH};
use mattori_home::sanyo_types::{
    build_sequence, sanyo_sequence, SanyoTemperatureCode, SanyoTemperatureCodeSequence, SanyoTrigger,
    SANYO_FRAME_LEN,
};
use mattori_home::types::{ACMode, IrFormat, IrPulse, IrSequence, IrTarget};

fn at(code: SanyoTemperatureCode) -> Sanyo {
    let mut s = Sanyo::default();
    while *s.temperature() != code {
        s.temp_up().unwrap();
    }
    s
}

fn distinct_for(trigger: SanyoTrigger) {
    let mut all: Vec<IrSequence> = SanyoTemperatureCode::items()
        .iter()
        .map(|c| at(*c).as_ir_sequence(trigger).unwrap())
        .collect();
    assert_eq!(all.len(), 15);
    all.sort_unstable();
    all.dedup();
    assert_eq!(all.len(), 15);
    for seq in &all {
        assert_eq!(seq.0.len(), SANYO_SEQ_LENGTH);
    }
}

#[test]
fn all_temperature_ir_sequences_unique_off() {
    distinct_for(SanyoTrigger::Off);
}

#[test]
fn all_temperature_ir_sequences_unique_on() {
    distinct_for(SanyoTrigger::On);
}

#[test]
fn all_temperature_ir_sequences_unique_down() {
    distinct_for(SanyoTrigger::Down);
}

#[test]
fn all_temperature_ir_sequences_unique_up() {
    distinct_for(SanyoTrigger::Up);
}

#[test]
fn default_state() {
    let s = Sanyo::default();
    let st = s.status();
    assert!(!st.powered);
    assert_eq!(st.mode, ACMode::Auto);
    assert_eq!(st.temperature, SanyoTemperatureCode::T16);
}

#[test]
fn temp_up_at_top_fails_and_keeps_state() {
    let mut s = at(SanyoTemperatureCode::T30);
    s.power_on().unwrap();
    let before = s.status();
    assert_eq!(s.temp_up().unwrap_err(), SanyoError::TemperatureRange);
    assert_eq!(s.status(), before);
}

#[test]
fn temp_down_at_bottom_fails_and_keeps_state() {
    let mut s = Sanyo::default();
    let before = s.status();
    assert_eq!(s.temp_down().unwrap_err(), SanyoError::TemperatureRange);
    assert_eq!(s.status(), before);
}

#[test]
fn temp_steps_send_payloads() {
    let mut s = Sanyo::default();
    let seq = s.temp_up().unwrap();
    assert_eq!(*s.temperature(), SanyoTemperatureCode::T17);
    let frame = Aeha::decode(&seq.0).unwrap();
    assert_eq!(frame.0, vec![sanyo_sequence(ACMode::Auto, SanyoTemperatureCode::T17, SanyoTrigger::Up)]);
    let seq = s.temp_down().unwrap();
    assert_eq!(*s.temperature(), SanyoTemperatureCode::T16);
    let frame = Aeha::decode(&seq.0).unwrap();
    assert_eq!(frame.0, vec![sanyo_sequence(ACMode::Auto, SanyoTemperatureCode::T16, SanyoTrigger::Down)]);
}

#[test]
fn temp_set_direction_and_same() {
    let mut s = at(SanyoTemperatureCode::T20);
    let seq = s.temp_set(SanyoTemperatureCode::T25).unwrap();
    assert_eq!(*s.temperature(), SanyoTemperatureCode::T25);
    assert_eq!(
        Aeha::decode(&seq.0).unwrap().0,
        vec![sanyo_sequence(ACMode::Auto, SanyoTemperatureCode::T25, SanyoTrigger::Up)]
    );
    let seq = s.temp_set(SanyoTemperatureCode::T18).unwrap();
    assert_eq!(
        Aeha::decode(&seq.0).unwrap().0,
        vec![sanyo_sequence(ACMode::Auto, SanyoTemperatureCode::T18, SanyoTrigger::Down)]
    );
    let before = s.status();
    assert_eq!(s.temp_set(SanyoTemperatureCode::T18).unwrap_err(), SanyoError::TemperatureSame);
    assert_eq!(s.status(), before);
}

#[test]
fn power_and_mode() {
    let mut s = Sanyo::default();
    let on = s.power_on().unwrap();
    assert!(s.is_powered());
    let off = s.power_off().unwrap();
    assert!(!s.is_powered());
    assert_ne!(on.0, off.0);
    let m = s.mode_set(ACMode::Cool).unwrap();
    assert_eq!(*s.mode(), ACMode::Cool);
    assert_eq!(m.0, on.0);
}

#[test]
fn payload_bytes() {
    let f = sanyo_sequence(ACMode::Cool, SanyoTemperatureCode::T16, SanyoTrigger::On);
    assert_eq!(f, vec![64, 0, 20, 128, 67, 134, 24, 64, 35, 0, 104, 0, 0, 1, 0, 0, 63]);
    let f = sanyo_sequence(ACMode::Cool, SanyoTemperatureCode::T30, SanyoTrigger::Off);
    assert_eq!(f, vec![64, 0, 20, 128, 67, 133, 52, 64, 3, 0, 104, 0, 0, 1, 0, 0, 58]);
    let f = sanyo_sequence(ACMode::Cool, SanyoTemperatureCode::T24, SanyoTrigger::Up);
    assert_eq!(f, vec![64, 0, 20, 128, 67, 132, 40, 64, 35, 0, 104, 0, 0, 1, 0, 0, 62]);
    assert_eq!(f.len(), SANYO_FRAME_LEN);
    assert_eq!(build_sequence(1, 2, 3, 4), vec![64, 0, 20, 128, 67, 1, 2, 64, 3, 0, 104, 0, 0, 1, 0, 0, 4]);
}

#[test]
fn ladder_steps() {
    assert_eq!(SanyoTemperatureCode::T16.down(), None);
    assert_eq!(SanyoTemperatureCode::T30.up(), None);
    assert_eq!(SanyoTemperatureCode::T21.up(), Some(SanyoTemperatureCode::T22));
    assert_eq!(SanyoTemperatureCode::T21.down(), Some(SanyoTemperatureCode::T20));
    assert_eq!(SanyoTemperatureCode::T21.ind(), 5);
    assert_eq!(SanyoTemperatureCode::T21.to_degrees(), 21);
    assert_eq!(SanyoTemperatureCode::from_degrees(30), Ok(SanyoTemperatureCode::T30));
    assert!(SanyoTemperatureCode::from_degrees(31).is_err());
    assert!(SanyoTemperatureCode::from_degrees(15).is_err());
    let items = SanyoTemperatureCode::items();
    for (i, c) in items.iter().enumerate() {
        assert_eq!(c.ind() as usize, i);
    }
}

#[test]
fn recorded_table_entry() {
    let entry = SanyoTemperatureCodeSequence {
        up: None,
        down: Some(vec![IrPulse(1), IrPulse(2)]),
        on: vec![IrPulse(3)],
        off: vec![IrPulse(4)],
    };
    assert!(entry.for_trigger(SanyoTrigger::Up).is_none());
    assert_eq!(entry.for_trigger(SanyoTrigger::Down).unwrap().0, vec![IrPulse(1), IrPulse(2)]);
    assert_eq!(entry.for_trigger(SanyoTrigger::On).unwrap().0, vec![IrPulse(3)]);
    assert_eq!(entry.for_trigger(SanyoTrigger::Off).unwrap().0, vec![IrPulse(4)]);
}

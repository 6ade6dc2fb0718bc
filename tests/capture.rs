use mattori_home::capture::{normalize, IrCapture, IrInterruptMessage};
use mattori_home::transmit::{pwm_sequence, worker_action, CarrierStep, QueuePoll, WorkerAction};
use mattori_home::types::{IrPulse, IrSequence};

#[test]
fn debounce_merges_short_pulses() {
    let mut c = IrCapture::new();
    assert!(c.handle(IrInterruptMessage::Pulse(40)).is_none());
    assert!(c.handle(IrInterruptMessage::Pulse(70)).is_none());
    let done = c.handle(IrInterruptMessage::Timeout).unwrap();
    assert_eq!(done.0, vec![IrPulse(110)]);
}

#[test]
fn pending_pulse_flushed_before_timeout() {
    let mut c = IrCapture::new();
    c.handle(IrInterruptMessage::Pulse(3400));
    c.handle(IrInterruptMessage::Pulse(60));
    let done = c.handle(IrInterruptMessage::Timeout).unwrap();
    assert_eq!(done.0, vec![IrPulse(3400), IrPulse(60)]);
}

#[test]
fn timeout_completes_one_sequence_and_empties() {
    let mut c = IrCapture::new();
    for d in [3412u128, 1690, 431, 1280, 419] {
        assert!(c.handle(IrInterruptMessage::Pulse(d)).is_none());
    }
    let done = c.handle(IrInterruptMessage::Timeout).unwrap();
    assert_eq!(done.0, vec![IrPulse(3400), IrPulse(1700), IrPulse(430), IrPulse(1300), IrPulse(420)]);
    assert!(c.handle(IrInterruptMessage::Timeout).is_none());
}

#[test]
fn long_pulses_are_dropped() {
    let mut c = IrCapture::new();
    c.handle(IrInterruptMessage::Pulse(250_000));
    c.handle(IrInterruptMessage::Pulse(500));
    c.handle(IrInterruptMessage::Pulse(10_050));
    c.handle(IrInterruptMessage::Pulse(10_100));
    let done = c.handle(IrInterruptMessage::Timeout).unwrap();
    assert_eq!(done.0, vec![IrPulse(500), IrPulse(10_000)]);
}

#[test]
fn normalize_grid() {
    assert_eq!(normalize(104), 100);
    assert_eq!(normalize(105), 110);
    assert_eq!(normalize(999), 1000);
    assert_eq!(normalize(1024), 1000);
    assert_eq!(normalize(1025), 1050);
    assert_eq!(normalize(1999), 2000);
    assert_eq!(normalize(2099), 2000);
    assert_eq!(normalize(2100), 2200);
    assert_eq!(normalize(0), 0);
}

#[test]
fn carrier_expansion() {
    let seq = IrSequence(vec![IrPulse(52), IrPulse(100), IrPulse(25), IrPulse(7)]);
    let steps = pwm_sequence(&seq);
    let burst = CarrierStep::Pulse { period_us: 18, width_us: 8 };
    assert_eq!(steps, vec![burst, burst, CarrierStep::Wait(100), CarrierStep::Wait(7)]);
    assert!(pwm_sequence(&IrSequence(vec![])).is_empty());
}

#[test]
fn worker_decisions() {
    assert_eq!(worker_action(true, QueuePoll::Received), WorkerAction::Stop);
    assert_eq!(worker_action(false, QueuePoll::Received), WorkerAction::Play);
    assert_eq!(worker_action(false, QueuePoll::Empty), WorkerAction::Continue);
    assert_eq!(worker_action(false, QueuePoll::Disconnected), WorkerAction::Stop);
}

#[test]
fn pulse_snapping_to_zero_is_dropped() {
    let mut c = IrCapture::new();
    assert!(c.handle(IrInterruptMessage::Pulse(3)).is_none());
    assert!(c.handle(IrInterruptMessage::Timeout).is_none());
    // a short remainder after real pulses is dropped too
    c.handle(IrInterruptMessage::Pulse(500));
    c.handle(IrInterruptMessage::Pulse(4));
    let done = c.handle(IrInterruptMessage::Timeout).unwrap();
    assert_eq!(done.0, vec![IrPulse(500)]);
}

#[test]
fn noise_inside_a_run_is_left_out_in_order() {
    let mut c = IrCapture::new();
    for d in [3400u128, 25_000, 1700, 430] {
        c.handle(IrInterruptMessage::Pulse(d));
    }
    let done = c.handle(IrInterruptMessage::Timeout).unwrap();
    assert_eq!(done.0, vec![IrPulse(3400), IrPulse(1700), IrPulse(430)]);
    let mut c = IrCapture::new();
    c.handle(IrInterruptMessage::Pulse(50_000));
    assert!(c.handle(IrInterruptMessage::Timeout).is_none());
}

use ccs811::bus::{BusAction, BusEvent, Drive};
use ccs811::error::{Ccs811Error, TxPoint};
use ccs811::lifecycle::{
    application_version_action, baseline_read_action, baseline_write_action, begin_init,
    begin_step, bootloader_version_action, env_data_action, hardware_version_action, mode_value,
    start_init, start_step, Ccs811Mode, BEGIN_STATUS_MASK,
};

/// Answers one action the way a healthy transport would: reads return the
/// next scripted byte, everything else completes.
fn respond(action: &BusAction, reads: &mut Vec<u8>) -> BusEvent {
    match action {
        BusAction::ReadByte(_) => BusEvent::Byte(reads.remove(0)),
        BusAction::ReadWord(_) => BusEvent::Word(0),
        BusAction::BlockRead { len, .. } => BusEvent::Block(vec![0; *len]),
        _ => BusEvent::Done,
    }
}

/// Runs the begin sequence against scripted read bytes, collecting every
/// action it issues.
fn run_begin(has_wake: bool, mut reads: Vec<u8>) -> (Vec<BusAction>, Result<(), Ccs811Error>) {
    let mut actions = Vec::new();
    let (mut state, mut action) = begin_init();
    loop {
        let event = respond(&action, &mut reads);
        actions.push(action);
        match begin_step(state, has_wake, event) {
            Drive::Next(s, a) => {
                state = s;
                action = a;
            },
            Drive::Done => return (actions, Ok(())),
            Drive::Fail(e) => return (actions, Err(e)),
        }
    }
}

#[test]
fn begin_performs_the_steps_in_order() {
    // 0xA0: application mode and verify-complete, the two required bits.
    let (actions, outcome) = run_begin(false, vec![0x81, 0xA0]);
    assert_eq!(
        actions,
        vec![
            BusAction::SetSlaveAddress(0x5A),
            BusAction::BlockWrite { reg: 0xFF, data: vec![0x11, 0xE5, 0x72, 0x8A] },
            BusAction::WaitMicros(2000),
            BusAction::ReadByte(0x20),
            BusAction::CommandWrite(0xF4),
            BusAction::WaitMicros(1000),
            BusAction::ReadByte(0x00),
        ]
    );
    assert_eq!(outcome, Ok(()));
}

#[test]
fn begin_status_gate_requires_both_bits() {
    // Application mode alone, verify-complete alone, and neither all fail;
    // both together pass, extra bits allowed.
    for status in [0x80u8, 0x20, 0x10, 0x00] {
        let (_, outcome) = run_begin(false, vec![0x81, status]);
        assert_eq!(
            outcome,
            Err(Ccs811Error::StatusMismatch { expected: BEGIN_STATUS_MASK, actual: status })
        );
    }
    let (_, outcome) = run_begin(false, vec![0x81, 0xB0]);
    assert_eq!(outcome, Ok(()));
}

#[test]
fn begin_with_wake_line_brackets_the_sequence() {
    let (actions, outcome) = run_begin(true, vec![0x81, 0xA0]);
    assert_eq!(actions[0], BusAction::SetSlaveAddress(0x5A));
    assert_eq!(actions[1], BusAction::SetWakeLow);
    assert_eq!(actions[2], BusAction::WaitMicros(50));
    assert_eq!(
        actions[3],
        BusAction::BlockWrite { reg: 0xFF, data: vec![0x11, 0xE5, 0x72, 0x8A] }
    );
    // On full success the wake line is released again.
    assert_eq!(*actions.last().unwrap(), BusAction::SetWakeHigh);
    assert_eq!(outcome, Ok(()));
}

#[test]
fn begin_hw_id_mismatch_aborts_before_app_start() {
    let (actions, outcome) = run_begin(false, vec![0x99, 0xA0]);
    assert_eq!(outcome, Err(Ccs811Error::WrongHardwareId(0x99)));
    assert!(!actions.contains(&BusAction::CommandWrite(0xF4)));
    assert_eq!(*actions.last().unwrap(), BusAction::ReadByte(0x20));
}

#[test]
fn begin_transport_failure_at_reset() {
    let (mut state, mut action) = begin_init();
    assert_eq!(action, BusAction::SetSlaveAddress(0x5A));
    match begin_step(state, false, BusEvent::Done) {
        Drive::Next(s, a) => {
            state = s;
            action = a;
        },
        other => panic!("expected the reset write, got {:?}", other),
    }
    assert_eq!(action, BusAction::BlockWrite { reg: 0xFF, data: vec![0x11, 0xE5, 0x72, 0x8A] });
    match begin_step(state, false, BusEvent::Failed) {
        Drive::Fail(err) => assert_eq!(err, Ccs811Error::Transport(TxPoint::ResetWrite)),
        other => panic!("expected a transport failure, got {:?}", other),
    }
}

#[test]
fn mode_values_follow_the_datasheet() {
    assert_eq!(mode_value(Ccs811Mode::Idle), 0);
    assert_eq!(mode_value(Ccs811Mode::Sec1), 1);
    assert_eq!(mode_value(Ccs811Mode::Sec10), 2);
    assert_eq!(mode_value(Ccs811Mode::Sec60), 3);
}

#[test]
fn start_writes_the_mode_into_the_upper_bits() {
    let (state, action) = start_init(Ccs811Mode::Sec1, false);
    assert_eq!(action, BusAction::BlockWrite { reg: 0x01, data: vec![0x10] });
    match start_step(state, Ccs811Mode::Sec1, false, BusEvent::Done) {
        Drive::Done => {},
        other => panic!("expected completion, got {:?}", other),
    }
}

#[test]
fn start_with_wake_line_brackets_the_mode_write() {
    let (state, action) = start_init(Ccs811Mode::Sec60, true);
    assert_eq!(action, BusAction::SetWakeLow);
    let (state, action) = match start_step(state, Ccs811Mode::Sec60, true, BusEvent::Done) {
        Drive::Next(s, a) => (s, a),
        other => panic!("expected the wake settle wait, got {:?}", other),
    };
    assert_eq!(action, BusAction::WaitMicros(50));
    let (state, action) = match start_step(state, Ccs811Mode::Sec60, true, BusEvent::Done) {
        Drive::Next(s, a) => (s, a),
        other => panic!("expected the mode write, got {:?}", other),
    };
    assert_eq!(action, BusAction::BlockWrite { reg: 0x01, data: vec![0x30] });
    let (state, action) = match start_step(state, Ccs811Mode::Sec60, true, BusEvent::Done) {
        Drive::Next(s, a) => (s, a),
        other => panic!("expected the wake release, got {:?}", other),
    };
    assert_eq!(action, BusAction::SetWakeHigh);
    match start_step(state, Ccs811Mode::Sec60, true, BusEvent::Done) {
        Drive::Done => {},
        other => panic!("expected completion, got {:?}", other),
    }
}

#[test]
fn start_mode_write_failure() {
    let (state, _) = start_init(Ccs811Mode::Idle, false);
    match start_step(state, Ccs811Mode::Idle, false, BusEvent::Failed) {
        Drive::Fail(err) => assert_eq!(err, Ccs811Error::Transport(TxPoint::ModeWrite)),
        other => panic!("expected a transport failure, got {:?}", other),
    }
}

#[test]
fn accessor_actions_target_their_registers() {
    assert_eq!(hardware_version_action(), BusAction::ReadByte(0x21));
    assert_eq!(
        bootloader_version_action(),
        BusAction::BlockRead { reg: 0x23, len: 2 }
    );
    assert_eq!(
        application_version_action(),
        BusAction::BlockRead { reg: 0x24, len: 2 }
    );
    assert_eq!(baseline_read_action(), BusAction::ReadWord(0x11));
    assert_eq!(
        baseline_write_action(0xBEEF),
        BusAction::WriteWord { reg: 0x11, value: 0xBEEF }
    );
}

#[test]
fn env_data_action_writes_both_encoded_pairs() {
    assert_eq!(
        env_data_action(48, 255, 23, 152),
        BusAction::BlockWrite { reg: 0x05, data: vec![0x60, 0xFF, 0x2E, 0x98] }
    );
}

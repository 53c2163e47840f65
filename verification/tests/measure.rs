use ccs811::bus::{BusAction, BusEvent};
use ccs811::error::{Ccs811Error, TxPoint};
use ccs811::measure::{decode_alg_result, read_init, read_step, ReadStep};

#[test]
fn decode_valid_block() {
    let buffer = vec![0x01, 0x94, 0x00, 0x32, 0x00, 0x00, 0, 0];
    let data = decode_alg_result(buffer.clone()).expect("block is valid");
    assert_eq!(data.e_co2, 404);
    assert_eq!(data.t_voc, 50);
    assert_eq!(data.raw, buffer);
}

#[test]
fn decode_e_co2_out_of_range() {
    // 0x2001 = 8193, one above the valid range, error flag clear.
    let buffer = vec![0x20, 0x01, 0x00, 0x32, 0x00, 0x00, 0, 0];
    let err = decode_alg_result(buffer).unwrap_err();
    assert_eq!(err, Ccs811Error::OutOfRange { e_co2: 8193, t_voc: 50 });
}

#[test]
fn decode_t_voc_out_of_range() {
    // 0x04A4 = 1188, one above the valid range.
    let buffer = vec![0x01, 0x94, 0x04, 0xA4, 0x00, 0x00, 0, 0];
    let err = decode_alg_result(buffer).unwrap_err();
    assert_eq!(err, Ccs811Error::OutOfRange { e_co2: 404, t_voc: 1188 });
}

#[test]
fn decode_range_boundaries_pass() {
    // 0x2000 = 8192 and 0x04A3 = 1187 are the last values in range.
    let buffer = vec![0x20, 0x00, 0x04, 0xA3, 0x00, 0x00, 0, 0];
    let data = decode_alg_result(buffer).expect("boundary values are valid");
    assert_eq!(data.e_co2, 8192);
    assert_eq!(data.t_voc, 1187);
}

#[test]
fn decode_error_flag_rejects() {
    let buffer = vec![0x01, 0x94, 0x00, 0x32, 0x00, 0x12, 0, 0];
    let err = decode_alg_result(buffer).unwrap_err();
    assert_eq!(err, Ccs811Error::ChipError(0x12));
}

#[test]
fn decode_error_flag_wins_over_range() {
    // The flag is checked first: values out of range do not change the error.
    let buffer = vec![0xFF, 0xFF, 0xFF, 0xFF, 0x00, 0x01, 0, 0];
    let err = decode_alg_result(buffer).unwrap_err();
    assert_eq!(err, Ccs811Error::ChipError(0x01));
}

#[test]
fn read_without_wake_line() {
    let (state, action) = read_init(false);
    assert_eq!(action, BusAction::BlockRead { reg: 0x02, len: 8 });
    let buffer = vec![0x01, 0x94, 0x00, 0x32, 0x00, 0x00, 0, 0];
    match read_step(state, false, BusEvent::Block(buffer)) {
        ReadStep::Done(data) => {
            assert_eq!(data.e_co2, 404);
            assert_eq!(data.t_voc, 50);
        },
        other => panic!("expected a decoded record, got {:?}", other),
    }
}

#[test]
fn read_with_wake_line_brackets_the_block_read() {
    let buffer = vec![0x01, 0x94, 0x00, 0x32, 0x00, 0x00, 0, 0];
    let (state, action) = read_init(true);
    assert_eq!(action, BusAction::SetWakeLow);
    let (state, action) = match read_step(state, true, BusEvent::Done) {
        ReadStep::Next(s, a) => (s, a),
        other => panic!("expected the wake settle wait, got {:?}", other),
    };
    assert_eq!(action, BusAction::WaitMicros(50));
    let (state, action) = match read_step(state, true, BusEvent::Done) {
        ReadStep::Next(s, a) => (s, a),
        other => panic!("expected the block read, got {:?}", other),
    };
    assert_eq!(action, BusAction::BlockRead { reg: 0x02, len: 8 });
    let (state, action) = match read_step(state, true, BusEvent::Block(buffer)) {
        ReadStep::Next(s, a) => (s, a),
        other => panic!("expected the wake release, got {:?}", other),
    };
    assert_eq!(action, BusAction::SetWakeHigh);
    match read_step(state, true, BusEvent::Done) {
        ReadStep::Done(data) => {
            assert_eq!(data.e_co2, 404);
            assert_eq!(data.t_voc, 50);
        },
        other => panic!("expected a decoded record, got {:?}", other),
    }
}

#[test]
fn read_releases_wake_before_reporting_chip_error() {
    let buffer = vec![0x01, 0x94, 0x00, 0x32, 0x00, 0x07, 0, 0];
    let (state, _) = read_init(true);
    let (state, _) = match read_step(state, true, BusEvent::Done) {
        ReadStep::Next(s, a) => (s, a),
        other => panic!("expected the wake settle wait, got {:?}", other),
    };
    let (state, _) = match read_step(state, true, BusEvent::Done) {
        ReadStep::Next(s, a) => (s, a),
        other => panic!("expected the block read, got {:?}", other),
    };
    let (state, action) = match read_step(state, true, BusEvent::Block(buffer)) {
        ReadStep::Next(s, a) => (s, a),
        other => panic!("expected the wake release, got {:?}", other),
    };
    assert_eq!(action, BusAction::SetWakeHigh);
    match read_step(state, true, BusEvent::Done) {
        ReadStep::Fail(err) => assert_eq!(err, Ccs811Error::ChipError(0x07)),
        other => panic!("expected the chip-reported error, got {:?}", other),
    }
}

#[test]
fn read_transport_failure() {
    let (state, _) = read_init(false);
    match read_step(state, false, BusEvent::Failed) {
        ReadStep::Fail(err) => assert_eq!(err, Ccs811Error::Transport(TxPoint::DataRead)),
        other => panic!("expected a transport failure, got {:?}", other),
    }
}

use ccs811::bus::{BusAction, BusEvent, Drive};
use ccs811::error::{Ccs811Error, TxPoint};
use ccs811::flashing::{flash_init, flash_step};

/// Answers one action the way a healthy transport would: status reads return
/// the next scripted byte, everything else completes.
fn respond(action: &BusAction, reads: &mut Vec<u8>) -> BusEvent {
    match action {
        BusAction::ReadByte(_) => BusEvent::Byte(reads.remove(0)),
        _ => BusEvent::Done,
    }
}

/// Runs the flashing procedure over an image against scripted status bytes,
/// collecting every action it issues.
fn run_flash(data: &Vec<u8>, mut reads: Vec<u8>) -> (Vec<BusAction>, Result<(), Ccs811Error>) {
    let mut actions = Vec::new();
    let (mut state, mut action) = flash_init();
    loop {
        let event = respond(&action, &mut reads);
        actions.push(action);
        match flash_step(state, data, event) {
            Drive::Next(s, a) => {
                state = s;
                action = a;
            },
            Drive::Done => return (actions, Ok(())),
            Drive::Fail(e) => return (actions, Err(e)),
        }
    }
}

/// The status bytes of a flash run whose four checkpoints all pass:
/// valid-application, erase-complete, the verify checkpoint, and the final
/// valid-application check.
fn healthy_statuses() -> Vec<u8> {
    vec![0x10, 0x40, 0x70, 0x10]
}

#[test]
fn flash_writes_a_20_byte_image_in_chunks_of_8_8_4() {
    let data: Vec<u8> = (0u8..20).collect();
    let (actions, outcome) = run_flash(&data, healthy_statuses());
    assert_eq!(outcome, Ok(()));
    let chunks: Vec<&BusAction> = actions
        .iter()
        .filter(|a| matches!(a, BusAction::BlockWrite { reg: 0xF2, .. }))
        .collect();
    assert_eq!(
        chunks,
        vec![
            &BusAction::BlockWrite { reg: 0xF2, data: data[0..8].to_vec() },
            &BusAction::BlockWrite { reg: 0xF2, data: data[8..16].to_vec() },
            &BusAction::BlockWrite { reg: 0xF2, data: data[16..20].to_vec() },
        ]
    );
    // Concatenated in order, the chunks give back the image exactly.
    let mut streamed: Vec<u8> = Vec::new();
    for chunk in chunks {
        if let BusAction::BlockWrite { data: bytes, .. } = chunk {
            streamed.extend_from_slice(bytes);
        }
    }
    assert_eq!(streamed, data);
}

#[test]
fn flash_full_action_order() {
    let data: Vec<u8> = (0u8..10).collect();
    let (actions, outcome) = run_flash(&data, healthy_statuses());
    assert_eq!(outcome, Ok(()));
    assert_eq!(
        actions,
        vec![
            BusAction::SetSlaveAddress(0x5A),
            BusAction::BlockWrite { reg: 0xFF, data: vec![0x11, 0xE5, 0x72, 0x8A] },
            BusAction::WaitMicros(2000),
            BusAction::ReadByte(0x00),
            BusAction::BlockWrite { reg: 0xF1, data: vec![0xE7, 0xA7, 0xE6, 0x09] },
            BusAction::WaitMicros(500000),
            BusAction::ReadByte(0x00),
            BusAction::BlockWrite { reg: 0xF2, data: data[0..8].to_vec() },
            BusAction::BlockWrite { reg: 0xF2, data: data[8..10].to_vec() },
            BusAction::WaitMicros(50000),
            BusAction::CommandWrite(0xF3),
            BusAction::WaitMicros(70000),
            BusAction::ReadByte(0x00),
            BusAction::BlockWrite { reg: 0xFF, data: vec![0x11, 0xE5, 0x72, 0x8A] },
            BusAction::WaitMicros(2000),
            BusAction::ReadByte(0x00),
        ]
    );
}

#[test]
fn flash_not_valid_aborts_before_erase() {
    let data: Vec<u8> = (0u8..20).collect();
    let (actions, outcome) = run_flash(&data, vec![0x00]);
    assert_eq!(outcome, Err(Ccs811Error::NotValid(0x00)));
    assert!(!actions.iter().any(|a| matches!(a, BusAction::BlockWrite { reg: 0xF1, .. })));
}

#[test]
fn flash_not_erased_never_reaches_the_chunk_stream() {
    let data: Vec<u8> = (0u8..20).collect();
    let (actions, outcome) = run_flash(&data, vec![0x10, 0x00]);
    assert_eq!(outcome, Err(Ccs811Error::NotErased(0x00)));
    assert!(!actions.iter().any(|a| matches!(a, BusAction::BlockWrite { reg: 0xF2, .. })));
}

#[test]
fn flash_not_verified_aborts_before_the_final_reset() {
    let data: Vec<u8> = (0u8..20).collect();
    let (actions, outcome) = run_flash(&data, vec![0x10, 0x40, 0x00]);
    assert_eq!(outcome, Err(Ccs811Error::NotVerified(0x00)));
    // Only one reset was written: the final reset was never reached.
    let resets: usize = actions
        .iter()
        .filter(|a| matches!(a, BusAction::BlockWrite { reg: 0xFF, .. }))
        .count();
    assert_eq!(resets, 1);
}

#[test]
fn flash_verify_checkpoint_requires_all_three_bits() {
    // Erase-complete alone is not enough: erase, verify and valid must all
    // be reported after the stream.
    let data: Vec<u8> = (0u8..20).collect();
    for status in [0x40u8, 0x60, 0x50, 0x30, 0x10] {
        let (_, outcome) = run_flash(&data, vec![0x10, 0x40, status]);
        assert_eq!(outcome, Err(Ccs811Error::NotVerified(status)));
    }
    let (_, outcome) = run_flash(&data, vec![0x10, 0x40, 0xF0, 0x10]);
    assert_eq!(outcome, Ok(()));
}

#[test]
fn flash_invalid_after_final_reset() {
    let data: Vec<u8> = (0u8..20).collect();
    let (_, outcome) = run_flash(&data, vec![0x10, 0x40, 0x70, 0x00]);
    assert_eq!(outcome, Err(Ccs811Error::InvalidAfterFlash(0x00)));
}

#[test]
fn flash_empty_image_writes_no_chunks() {
    let data: Vec<u8> = Vec::new();
    let (actions, outcome) = run_flash(&data, healthy_statuses());
    assert_eq!(outcome, Ok(()));
    assert!(!actions.iter().any(|a| matches!(a, BusAction::BlockWrite { reg: 0xF2, .. })));
}

#[test]
fn flash_exact_chunk_image_writes_one_chunk() {
    let data: Vec<u8> = (0u8..8).collect();
    let (actions, outcome) = run_flash(&data, healthy_statuses());
    assert_eq!(outcome, Ok(()));
    let chunks: Vec<&BusAction> = actions
        .iter()
        .filter(|a| matches!(a, BusAction::BlockWrite { reg: 0xF2, .. }))
        .collect();
    assert_eq!(chunks, vec![&BusAction::BlockWrite { reg: 0xF2, data: data.clone() }]);
}

#[test]
fn flash_chunk_write_failure_aborts_the_stream() {
    let data: Vec<u8> = (0u8..20).collect();
    let (mut state, mut action) = flash_init();
    let mut reads: Vec<u8> = vec![0x10, 0x40];
    let mut wrote_first_chunk = false;
    loop {
        let event = if matches!(action, BusAction::BlockWrite { reg: 0xF2, .. }) && wrote_first_chunk {
            BusEvent::Failed
        } else {
            if matches!(action, BusAction::BlockWrite { reg: 0xF2, .. }) {
                wrote_first_chunk = true;
            }
            respond(&action, &mut reads)
        };
        match flash_step(state, &data, event) {
            Drive::Next(s, a) => {
                state = s;
                action = a;
            },
            Drive::Done => panic!("the aborted stream must not complete"),
            Drive::Fail(err) => {
                assert_eq!(err, Ccs811Error::Transport(TxPoint::ChunkWrite));
                return;
            },
        }
    }
}

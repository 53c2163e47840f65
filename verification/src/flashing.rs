//! Firmware flashing: a strictly sequential, non-resumable procedure that
//! erases the chip's application firmware and streams a new image in
//! eight-byte chunks. Each checkpoint is hard: the first failure aborts the
//! whole procedure with a distinct error, and no step is retried.
//!
//! Like the lifecycle sequence, flashing is a step machine whose contract is
//! its transition function [`spec_flash_step`]: the checkpoint order, the
//! chunk order, and the abort behaviour are all stated there.

use vstd::prelude::*;
use crate::bus::{ActionSpec, BusAction, BusEvent, Drive, DriveSpec, EventSpec};
use crate::error::{Ccs811Error, TxPoint};
use crate::regs::{
    erase_payload, reset_payload, spec_erase_payload, spec_reset_payload, status_ok,
    CCS811_APP_DATA,
    CCS811_APP_ERASE, CCS811_APP_VERIFY, CCS811_SLAVEADDR_0, CCS811_STATUS,
    CCS811_STATUS_APP_ERASE, CCS811_STATUS_APP_VALID, CCS811_STATUS_APP_VERIFY, CCS811_SW_RESET,
    WAIT_AFTER_APPDATA_US, WAIT_AFTER_APPERASE_US, WAIT_AFTER_APPVERIFY_US, WAIT_AFTER_RESET_US,
};

verus! {

/// Firmware is streamed to the application data register in chunks of at
/// most this many bytes.
pub const CHUNK_SIZE: usize = 8;

/// The bits the post-stream verify checkpoint requires, all of them:
/// erase-complete, verify-complete and valid-application.
pub const VERIFIED_STATUS_MASK: u8 = CCS811_STATUS_APP_ERASE | CCS811_STATUS_APP_VERIFY
    | CCS811_STATUS_APP_VALID;

/// The chunk of the image that one write starting at `offset` carries: the
/// next eight bytes, or whatever remains when fewer are left.
pub open spec fn spec_chunk_at(data: Seq<u8>, offset: int) -> Seq<u8>
    recommends
        0 <= offset < data.len(),
{
    data.subrange(
        offset,
        if offset + 8 <= data.len() {
            offset + 8
        } else {
            data.len() as int
        },
    )
}

/// The image split into the chunks the stream writes, in file order.
pub open spec fn spec_chunks(data: Seq<u8>) -> Seq<Seq<u8>>
    decreases data.len(),
{
    if data.len() == 0 {
        seq![]
    } else if data.len() <= 8 {
        seq![data]
    } else {
        seq![data.take(8)] + spec_chunks(data.skip(8))
    }
}

/// The chunks partition the image: concatenated in order they give back the
/// image exactly, every chunk but the last holds eight bytes, and the last
/// holds between one and eight.
pub proof fn lemma_chunks_partition(data: Seq<u8>)
    ensures
        spec_chunks(data).flatten() == data,
        forall|i: int|
            0 <= i < spec_chunks(data).len() - 1 ==> (#[trigger] spec_chunks(data)[i]).len() == 8,
        spec_chunks(data).len() > 0 ==> 0 < spec_chunks(data).last().len() <= 8,
        spec_chunks(data).len() == 0 ==> data.len() == 0,
    decreases data.len(),
{
    if data.len() == 0 {
        assert(spec_chunks(data).flatten() =~= data);
    } else if data.len() <= 8 {
        spec_chunks(data).lemma_flatten_one_element();
    } else {
        let head = data.take(8);
        let tail = data.skip(8);
        lemma_chunks_partition(tail);
        let s = spec_chunks(data);
        assert(s =~= seq![head] + spec_chunks(tail));
        assert(s.first() == head);
        assert(s.drop_first() =~= spec_chunks(tail));
        assert(s.flatten() == head + spec_chunks(tail).flatten());
        assert(s.flatten() =~= data);
        assert(forall|i: int|
            0 <= i < s.len() - 1 ==> (#[trigger] s[i]).len() == 8) by {
            assert(forall|i: int|
                1 <= i < s.len() - 1 ==> s[i] == #[trigger] spec_chunks(tail)[i - 1]);
        }
    }
}

/// Each chunk in file order starts eight bytes after the one before it: the
/// chunk at position `k` is the slice of the image starting at `8 * k`.
pub proof fn lemma_chunks_indexed(data: Seq<u8>, k: int)
    requires
        0 <= k < spec_chunks(data).len(),
    ensures
        8 * k < data.len(),
        spec_chunks(data)[k] == spec_chunk_at(data, 8 * k),
    decreases data.len(),
{
    if data.len() == 0 {
    } else if data.len() <= 8 {
        assert(spec_chunks(data)[0] =~= spec_chunk_at(data, 0));
    } else {
        if k == 0 {
            assert(spec_chunks(data)[0] =~= spec_chunk_at(data, 0));
        } else {
            let tail = data.skip(8);
            lemma_chunks_indexed(tail, k - 1);
            assert(8 * k < data.len()) by {
                assert(8 * (k - 1) < tail.len());
                assert(8 * k == 8 * (k - 1) + 8);
            }
            assert(spec_chunks(data)[k] == spec_chunks(tail)[k - 1]);
            assert(spec_chunk_at(tail, 8 * (k - 1)) =~= spec_chunk_at(data, 8 * k));
        }
    }
}

/// Where the flashing procedure stands: each state names the action whose
/// outcome the machine is waiting for.
#[derive(Clone, Copy, PartialEq, Eq, Structural, Debug)]
pub enum FlashState {
    /// Selecting the chip's bus address.
    SelectAddress,
    /// Writing the software reset magic.
    ResetWrite,
    /// Waiting after the reset.
    ResetSettle,
    /// Reading the status register at the valid-application checkpoint.
    ValidRead,
    /// Writing the erase magic.
    EraseWrite,
    /// Waiting after the erase command.
    EraseSettle,
    /// Reading the status register at the erase-complete checkpoint.
    ErasedRead,
    /// Writing the image chunk that starts at this offset.
    ChunkWrite { offset: usize },
    /// Waiting after the last chunk.
    DataSettle,
    /// Writing the verify command.
    VerifyWrite,
    /// Waiting after the verify command.
    VerifySettle,
    /// Reading the status register at the verify-complete checkpoint.
    VerifiedRead,
    /// Writing the reset magic after the verified stream.
    FinalResetWrite,
    /// Waiting after the final reset.
    FinalResetSettle,
    /// Reading the status register for the final valid-application check.
    FinalRead,
}

/// The first state and pending action of the flashing procedure.
pub open spec fn spec_flash_init() -> (FlashState, ActionSpec) {
    (FlashState::SelectAddress, ActionSpec::SetSlaveAddress(CCS811_SLAVEADDR_0))
}

/// The transition function of the flashing procedure over the firmware
/// image `data`: reset, require a valid application, erase, require the
/// erase-complete bit, stream the image in order in chunks of at most eight
/// bytes, verify, require the verify checkpoint, reset again, and require a
/// valid application once more. Every checkpoint failure carries its own
/// error and aborts at once.
pub open spec fn spec_flash_step(s: FlashState, data: Seq<u8>, e: EventSpec) -> DriveSpec<
    FlashState,
> {
    match s {
        FlashState::SelectAddress => match e {
            EventSpec::Done => DriveSpec::Next(
                FlashState::ResetWrite,
                ActionSpec::BlockWrite { reg: CCS811_SW_RESET, data: spec_reset_payload() },
            ),
            _ => DriveSpec::Fail(Ccs811Error::Transport(TxPoint::SelectAddress)),
        },
        FlashState::ResetWrite => match e {
            EventSpec::Done => DriveSpec::Next(
                FlashState::ResetSettle,
                ActionSpec::WaitMicros(WAIT_AFTER_RESET_US),
            ),
            _ => DriveSpec::Fail(Ccs811Error::Transport(TxPoint::ResetWrite)),
        },
        FlashState::ResetSettle => DriveSpec::Next(
            FlashState::ValidRead,
            ActionSpec::ReadByte(CCS811_STATUS),
        ),
        FlashState::ValidRead => match e {
            EventSpec::Byte(st) => if status_ok(st, CCS811_STATUS_APP_VALID) {
                DriveSpec::Next(
                    FlashState::EraseWrite,
                    ActionSpec::BlockWrite { reg: CCS811_APP_ERASE, data: spec_erase_payload() },
                )
            } else {
                DriveSpec::Fail(Ccs811Error::NotValid(st))
            },
            _ => DriveSpec::Fail(Ccs811Error::Transport(TxPoint::ValidRead)),
        },
        FlashState::EraseWrite => match e {
            EventSpec::Done => DriveSpec::Next(
                FlashState::EraseSettle,
                ActionSpec::WaitMicros(WAIT_AFTER_APPERASE_US),
            ),
            _ => DriveSpec::Fail(Ccs811Error::Transport(TxPoint::EraseWrite)),
        },
        FlashState::EraseSettle => DriveSpec::Next(
            FlashState::ErasedRead,
            ActionSpec::ReadByte(CCS811_STATUS),
        ),
        FlashState::ErasedRead => match e {
            EventSpec::Byte(st) => if status_ok(st, CCS811_STATUS_APP_ERASE) {
                if data.len() == 0 {
                    DriveSpec::Next(
                        FlashState::DataSettle,
                        ActionSpec::WaitMicros(WAIT_AFTER_APPDATA_US),
                    )
                } else {
                    DriveSpec::Next(
                        FlashState::ChunkWrite { offset: 0 },
                        ActionSpec::BlockWrite {
                            reg: CCS811_APP_DATA,
                            data: spec_chunk_at(data, 0),
                        },
                    )
                }
            } else {
                DriveSpec::Fail(Ccs811Error::NotErased(st))
            },
            _ => DriveSpec::Fail(Ccs811Error::Transport(TxPoint::ErasedRead)),
        },
        FlashState::ChunkWrite { offset } => match e {
            EventSpec::Done => if offset + 8 < data.len() {
                DriveSpec::Next(
                    FlashState::ChunkWrite { offset: (offset + 8) as usize },
                    ActionSpec::BlockWrite {
                        reg: CCS811_APP_DATA,
                        data: spec_chunk_at(data, offset + 8),
                    },
                )
            } else {
                DriveSpec::Next(
                    FlashState::DataSettle,
                    ActionSpec::WaitMicros(WAIT_AFTER_APPDATA_US),
                )
            },
            _ => DriveSpec::Fail(Ccs811Error::Transport(TxPoint::ChunkWrite)),
        },
        FlashState::DataSettle => DriveSpec::Next(
            FlashState::VerifyWrite,
            ActionSpec::CommandWrite(CCS811_APP_VERIFY),
        ),
        FlashState::VerifyWrite => match e {
            EventSpec::Done => DriveSpec::Next(
                FlashState::VerifySettle,
                ActionSpec::WaitMicros(WAIT_AFTER_APPVERIFY_US),
            ),
            _ => DriveSpec::Fail(Ccs811Error::Transport(TxPoint::VerifyWrite)),
        },
        FlashState::VerifySettle => DriveSpec::Next(
            FlashState::VerifiedRead,
            ActionSpec::ReadByte(CCS811_STATUS),
        ),
        FlashState::VerifiedRead => match e {
            EventSpec::Byte(st) => if status_ok(st, VERIFIED_STATUS_MASK) {
                DriveSpec::Next(
                    FlashState::FinalResetWrite,
                    ActionSpec::BlockWrite { reg: CCS811_SW_RESET, data: spec_reset_payload() },
                )
            } else {
                DriveSpec::Fail(Ccs811Error::NotVerified(st))
            },
            _ => DriveSpec::Fail(Ccs811Error::Transport(TxPoint::VerifiedRead)),
        },
        FlashState::FinalResetWrite => match e {
            EventSpec::Done => DriveSpec::Next(
                FlashState::FinalResetSettle,
                ActionSpec::WaitMicros(WAIT_AFTER_RESET_US),
            ),
            _ => DriveSpec::Fail(Ccs811Error::Transport(TxPoint::FinalResetWrite)),
        },
        FlashState::FinalResetSettle => DriveSpec::Next(
            FlashState::FinalRead,
            ActionSpec::ReadByte(CCS811_STATUS),
        ),
        FlashState::FinalRead => match e {
            EventSpec::Byte(st) => if status_ok(st, CCS811_STATUS_APP_VALID) {
                DriveSpec::Done
            } else {
                DriveSpec::Fail(Ccs811Error::InvalidAfterFlash(st))
            },
            _ => DriveSpec::Fail(Ccs811Error::Transport(TxPoint::FinalRead)),
        },
    }
}

/// Copies the image chunk that starts at `offset`: the next eight bytes, or
/// whatever remains when fewer are left.
pub fn chunk_at(data: &Vec<u8>, offset: usize) -> (v: Vec<u8>)
    requires
        offset < data@.len(),
    ensures
        v@ == spec_chunk_at(data@, offset as int),
{
    let end: usize = if data.len() - offset > CHUNK_SIZE {
        offset + CHUNK_SIZE
    } else {
        data.len()
    };
    let mut v: Vec<u8> = Vec::new();
    let mut i: usize = offset;
    while i < end
        invariant
            offset <= i <= end <= data@.len(),
            v@ == data@.subrange(offset as int, i as int),
        decreases end - i,
    {
        v.push(data[i]);
        proof {
            assert(v@ =~= data@.subrange(offset as int, i + 1 as int));
        }
        i += 1;
    }
    proof {
        assert(v@ =~= spec_chunk_at(data@, offset as int));
    }
    v
}

/// Starts the flashing procedure: returns its first state and pending
/// action.
pub fn flash_init() -> (r: (FlashState, BusAction))
    ensures
        r.0 == spec_flash_init().0,
        r.1@ == spec_flash_init().1,
{
    (FlashState::SelectAddress, BusAction::SetSlaveAddress(CCS811_SLAVEADDR_0))
}

/// Steps the flashing procedure over the firmware image, exactly as
/// [`spec_flash_step`] says.
pub fn flash_step(s: FlashState, data: &Vec<u8>, e: BusEvent) -> (r: Drive<FlashState>)
    ensures
        r@ == spec_flash_step(s, data@, e@),
{
    match s {
        FlashState::SelectAddress => match e {
            BusEvent::Done => Drive::Next(
                FlashState::ResetWrite,
                BusAction::BlockWrite { reg: CCS811_SW_RESET, data: reset_payload() },
            ),
            _ => Drive::Fail(Ccs811Error::Transport(TxPoint::SelectAddress)),
        },
        FlashState::ResetWrite => match e {
            BusEvent::Done => Drive::Next(
                FlashState::ResetSettle,
                BusAction::WaitMicros(WAIT_AFTER_RESET_US),
            ),
            _ => Drive::Fail(Ccs811Error::Transport(TxPoint::ResetWrite)),
        },
        FlashState::ResetSettle => Drive::Next(
            FlashState::ValidRead,
            BusAction::ReadByte(CCS811_STATUS),
        ),
        FlashState::ValidRead => match e {
            BusEvent::Byte(st) => if st & CCS811_STATUS_APP_VALID == CCS811_STATUS_APP_VALID {
                Drive::Next(
                    FlashState::EraseWrite,
                    BusAction::BlockWrite { reg: CCS811_APP_ERASE, data: erase_payload() },
                )
            } else {
                Drive::Fail(Ccs811Error::NotValid(st))
            },
            _ => Drive::Fail(Ccs811Error::Transport(TxPoint::ValidRead)),
        },
        FlashState::EraseWrite => match e {
            BusEvent::Done => Drive::Next(
                FlashState::EraseSettle,
                BusAction::WaitMicros(WAIT_AFTER_APPERASE_US),
            ),
            _ => Drive::Fail(Ccs811Error::Transport(TxPoint::EraseWrite)),
        },
        FlashState::EraseSettle => Drive::Next(
            FlashState::ErasedRead,
            BusAction::ReadByte(CCS811_STATUS),
        ),
        FlashState::ErasedRead => match e {
            BusEvent::Byte(st) => if st & CCS811_STATUS_APP_ERASE == CCS811_STATUS_APP_ERASE {
                if data.len() == 0 {
                    Drive::Next(
                        FlashState::DataSettle,
                        BusAction::WaitMicros(WAIT_AFTER_APPDATA_US),
                    )
                } else {
                    Drive::Next(
                        FlashState::ChunkWrite { offset: 0 },
                        BusAction::BlockWrite { reg: CCS811_APP_DATA, data: chunk_at(data, 0) },
                    )
                }
            } else {
                Drive::Fail(Ccs811Error::NotErased(st))
            },
            _ => Drive::Fail(Ccs811Error::Transport(TxPoint::ErasedRead)),
        },
        FlashState::ChunkWrite { offset } => match e {
            BusEvent::Done => if offset < data.len() && data.len() - offset > 8 {
                let next: usize = offset + 8;
                Drive::Next(
                    FlashState::ChunkWrite { offset: next },
                    BusAction::BlockWrite { reg: CCS811_APP_DATA, data: chunk_at(data, next) },
                )
            } else {
                Drive::Next(FlashState::DataSettle, BusAction::WaitMicros(WAIT_AFTER_APPDATA_US))
            },
            _ => Drive::Fail(Ccs811Error::Transport(TxPoint::ChunkWrite)),
        },
        FlashState::DataSettle => Drive::Next(
            FlashState::VerifyWrite,
            BusAction::CommandWrite(CCS811_APP_VERIFY),
        ),
        FlashState::VerifyWrite => match e {
            BusEvent::Done => Drive::Next(
                FlashState::VerifySettle,
                BusAction::WaitMicros(WAIT_AFTER_APPVERIFY_US),
            ),
            _ => Drive::Fail(Ccs811Error::Transport(TxPoint::VerifyWrite)),
        },
        FlashState::VerifySettle => Drive::Next(
            FlashState::VerifiedRead,
            BusAction::ReadByte(CCS811_STATUS),
        ),
        FlashState::VerifiedRead => match e {
            BusEvent::Byte(st) => if st & VERIFIED_STATUS_MASK == VERIFIED_STATUS_MASK {
                Drive::Next(
                    FlashState::FinalResetWrite,
                    BusAction::BlockWrite { reg: CCS811_SW_RESET, data: reset_payload() },
                )
            } else {
                Drive::Fail(Ccs811Error::NotVerified(st))
            },
            _ => Drive::Fail(Ccs811Error::Transport(TxPoint::VerifiedRead)),
        },
        FlashState::FinalResetWrite => match e {
            BusEvent::Done => Drive::Next(
                FlashState::FinalResetSettle,
                BusAction::WaitMicros(WAIT_AFTER_RESET_US),
            ),
            _ => Drive::Fail(Ccs811Error::Transport(TxPoint::FinalResetWrite)),
        },
        FlashState::FinalResetSettle => Drive::Next(
            FlashState::FinalRead,
            BusAction::ReadByte(CCS811_STATUS),
        ),
        FlashState::FinalRead => match e {
            BusEvent::Byte(st) => if st & CCS811_STATUS_APP_VALID == CCS811_STATUS_APP_VALID {
                Drive::Done
            } else {
                Drive::Fail(Ccs811Error::InvalidAfterFlash(st))
            },
            _ => Drive::Fail(Ccs811Error::Transport(TxPoint::FinalRead)),
        },
    }
}

/// A failure at the erase-complete checkpoint aborts the procedure at once
/// with its own error; in particular it can never reach the chunk stream.
pub proof fn lemma_not_erased_aborts(data: Seq<u8>, st: u8)
    requires
        st & CCS811_STATUS_APP_ERASE != CCS811_STATUS_APP_ERASE,
    ensures
        spec_flash_step(FlashState::ErasedRead, data, EventSpec::Byte(st)) == DriveSpec::Fail::<
            FlashState,
        >(Ccs811Error::NotErased(st)),
{
}

/// A chunk of the image is written only right after the erase-complete
/// checkpoint passed, or right after an earlier chunk write succeeded: no
/// other state and no failed event can issue one.
pub proof fn lemma_chunk_write_gated(s: FlashState, data: Seq<u8>, e: EventSpec)
    ensures
        (spec_flash_step(s, data, e) matches DriveSpec::Next(_, a) && a matches
            ActionSpec::BlockWrite { reg, .. } && reg == CCS811_APP_DATA) ==> ((s
            == FlashState::ErasedRead && erase_checkpoint_passed(e)) || (s matches
            FlashState::ChunkWrite { .. } && e == EventSpec::Done)),
{
}

/// Whether an action streams a chunk of the firmware image.
pub open spec fn is_chunk_write(a: ActionSpec) -> bool {
    a matches ActionSpec::BlockWrite { reg, .. } && reg == CCS811_APP_DATA
}

/// Whether an event is a status read that passed the erase-complete
/// checkpoint.
pub open spec fn erase_checkpoint_passed(e: EventSpec) -> bool {
    e matches EventSpec::Byte(st) && status_ok(st, CCS811_STATUS_APP_ERASE)
}

/// The chunk-stream states are entered only from the erase-complete
/// checkpoint with the erase bit reported, or from within the stream.
pub proof fn lemma_chunk_state_gated(s: FlashState, data: Seq<u8>, e: EventSpec)
    ensures
        (spec_flash_step(s, data, e) matches DriveSpec::Next(s2, _) && s2 matches
            FlashState::ChunkWrite { .. }) ==> ((s matches FlashState::ChunkWrite { .. })
            || (s == FlashState::ErasedRead && erase_checkpoint_passed(e))),
{
}

/// The actions a flashing run emits, one per consumed event, until the run
/// completes, fails, or the events run out.
pub open spec fn spec_flash_trace(s: FlashState, data: Seq<u8>, events: Seq<EventSpec>) -> Seq<
    ActionSpec,
>
    decreases events.len(),
{
    if events.len() == 0 {
        seq![]
    } else {
        match spec_flash_step(s, data, events[0]) {
            DriveSpec::Next(s2, a) => seq![a] + spec_flash_trace(s2, data, events.drop_first()),
            _ => seq![],
        }
    }
}

/// In every run of the flashing machine that does not start inside the
/// chunk stream, under any event sequence, a firmware chunk is written only
/// if some status read passed the erase-complete checkpoint: a failure at
/// that checkpoint can never reach the chunk stream.
pub proof fn lemma_flash_trace_chunks_gated(s: FlashState, data: Seq<u8>, events: Seq<EventSpec>)
    ensures
        (exists|k: int|
            0 <= k < spec_flash_trace(s, data, events).len() && is_chunk_write(
                #[trigger] spec_flash_trace(s, data, events)[k],
            )) ==> ((s matches FlashState::ChunkWrite { .. }) || exists|i: int|
            0 <= i < events.len() && erase_checkpoint_passed(#[trigger] events[i])),
    decreases events.len(),
{
    if events.len() > 0 {
        match spec_flash_step(s, data, events[0]) {
            DriveSpec::Next(s2, a) => {
                let rest = events.drop_first();
                let tail = spec_flash_trace(s2, data, rest);
                let tr = spec_flash_trace(s, data, events);
                lemma_flash_trace_chunks_gated(s2, data, rest);
                lemma_chunk_write_gated(s, data, events[0]);
                lemma_chunk_state_gated(s, data, events[0]);
                assert(tr == seq![a] + tail);
                if exists|k: int| 0 <= k < tr.len() && is_chunk_write(#[trigger] tr[k]) {
                    let k = choose|k: int| 0 <= k < tr.len() && is_chunk_write(#[trigger] tr[k]);
                    if !(s matches FlashState::ChunkWrite { .. }) {
                        if k == 0 {
                            // The very next action streams a chunk: the step
                            // just passed the erase checkpoint.
                            assert(erase_checkpoint_passed(events[0]));
                        } else {
                            assert(tail[k - 1] == tr[k]);
                            assert(exists|k2: int|
                                0 <= k2 < tail.len() && is_chunk_write(#[trigger] tail[k2]));
                            if s2 matches FlashState::ChunkWrite { .. } {
                                // Entering the stream consumed the passing
                                // erase-checkpoint event.
                                assert(erase_checkpoint_passed(events[0]));
                            } else {
                                let i = choose|i: int|
                                    0 <= i < rest.len() && erase_checkpoint_passed(
                                        #[trigger] rest[i],
                                    );
                                assert(erase_checkpoint_passed(events[i + 1]));
                            }
                        }
                    }
                }
            },
            _ => {},
        }
    }
}

/// A flashing run of an empty image whose transactions all succeed and
/// whose checkpoints all pass issues exactly, and in this order: the reset,
/// its wait, the valid-application status read, the erase command, its
/// wait, the erase-complete status read, the post-stream wait, the verify
/// command, its wait, the verify status read, the final reset, its wait,
/// and the final status read.
pub proof fn lemma_flash_checkpoint_order(v: u8, e: u8, w: u8, f: u8)
    requires
        status_ok(v, CCS811_STATUS_APP_VALID),
        status_ok(e, CCS811_STATUS_APP_ERASE),
        status_ok(w, VERIFIED_STATUS_MASK),
        status_ok(f, CCS811_STATUS_APP_VALID),
    ensures
        spec_flash_trace(
            FlashState::SelectAddress,
            Seq::<u8>::empty(),
            seq![
                EventSpec::Done,
                EventSpec::Done,
                EventSpec::Done,
                EventSpec::Byte(v),
                EventSpec::Done,
                EventSpec::Done,
                EventSpec::Byte(e),
                EventSpec::Done,
                EventSpec::Done,
                EventSpec::Done,
                EventSpec::Byte(w),
                EventSpec::Done,
                EventSpec::Done,
                EventSpec::Byte(f),
            ],
        ) =~= seq![
            ActionSpec::BlockWrite { reg: CCS811_SW_RESET, data: spec_reset_payload() },
            ActionSpec::WaitMicros(WAIT_AFTER_RESET_US),
            ActionSpec::ReadByte(CCS811_STATUS),
            ActionSpec::BlockWrite { reg: CCS811_APP_ERASE, data: spec_erase_payload() },
            ActionSpec::WaitMicros(WAIT_AFTER_APPERASE_US),
            ActionSpec::ReadByte(CCS811_STATUS),
            ActionSpec::WaitMicros(WAIT_AFTER_APPDATA_US),
            ActionSpec::CommandWrite(CCS811_APP_VERIFY),
            ActionSpec::WaitMicros(WAIT_AFTER_APPVERIFY_US),
            ActionSpec::ReadByte(CCS811_STATUS),
            ActionSpec::BlockWrite { reg: CCS811_SW_RESET, data: spec_reset_payload() },
            ActionSpec::WaitMicros(WAIT_AFTER_RESET_US),
            ActionSpec::ReadByte(CCS811_STATUS),
        ],
{
    reveal_with_fuel(spec_flash_trace, 15);
}

/// Each of the four flashing checkpoints fails with its own distinct error,
/// carrying the status byte it observed.
pub proof fn lemma_checkpoint_errors(data: Seq<u8>, st: u8)
    ensures
        !status_ok(st, CCS811_STATUS_APP_VALID) ==> spec_flash_step(
            FlashState::ValidRead,
            data,
            EventSpec::Byte(st),
        ) == DriveSpec::Fail::<FlashState>(Ccs811Error::NotValid(st)),
        !status_ok(st, CCS811_STATUS_APP_ERASE) ==> spec_flash_step(
            FlashState::ErasedRead,
            data,
            EventSpec::Byte(st),
        ) == DriveSpec::Fail::<FlashState>(Ccs811Error::NotErased(st)),
        !status_ok(st, VERIFIED_STATUS_MASK) ==> spec_flash_step(
            FlashState::VerifiedRead,
            data,
            EventSpec::Byte(st),
        ) == DriveSpec::Fail::<FlashState>(Ccs811Error::NotVerified(st)),
        !status_ok(st, CCS811_STATUS_APP_VALID) ==> spec_flash_step(
            FlashState::FinalRead,
            data,
            EventSpec::Byte(st),
        ) == DriveSpec::Fail::<FlashState>(Ccs811Error::InvalidAfterFlash(st)),
{
}

/// The stream writes the image's chunks in file order: entering the stream
/// issues the chunk at offset zero, and after the chunk at `offset` the
/// machine issues the one eight bytes further, until the image is spent.
pub proof fn lemma_chunk_order(data: Seq<u8>, offset: usize, st: u8)
    requires
        data.len() <= usize::MAX,
    ensures
        status_ok(st, CCS811_STATUS_APP_ERASE) && data.len() > 0 ==> spec_flash_step(
            FlashState::ErasedRead,
            data,
            EventSpec::Byte(st),
        ) == DriveSpec::Next(
            FlashState::ChunkWrite { offset: 0 },
            ActionSpec::BlockWrite { reg: CCS811_APP_DATA, data: spec_chunk_at(data, 0) },
        ),
        offset + 8 < data.len() ==> spec_flash_step(
            FlashState::ChunkWrite { offset },
            data,
            EventSpec::Done,
        ) == DriveSpec::Next(
            FlashState::ChunkWrite { offset: (offset + 8) as usize },
            ActionSpec::BlockWrite { reg: CCS811_APP_DATA, data: spec_chunk_at(data, offset + 8) },
        ),
        offset + 8 >= data.len() ==> spec_flash_step(
            FlashState::ChunkWrite { offset },
            data,
            EventSpec::Done,
        ) == DriveSpec::Next::<FlashState>(
            FlashState::DataSettle,
            ActionSpec::WaitMicros(WAIT_AFTER_APPDATA_US),
        ),
{
}

} // verus!

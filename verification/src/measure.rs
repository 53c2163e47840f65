//! Measurement reads: the algorithm-result block is fetched between a wake
//! and a sleep of the chip, then decoded. The decoding is a pure function of
//! the eight raw bytes: byte 5 is an error flag that fails the read when
//! non-zero, bytes 0-1 and 2-3 are the big-endian eCO2 and tVOC values, and
//! a value outside its valid range fails the read even with the error flag
//! clear.

use vstd::prelude::*;
use crate::bus::{ActionSpec, BusAction, BusEvent, EventSpec};
use crate::error::{Ccs811Error, TxPoint};
use crate::regs::{CCS811_ALG_RESULT_DATA, WAIT_AFTER_WAKE_US};

verus! {

/// Highest eCO2 value (parts per million) a read may report.
pub const MAX_E_CO2: u16 = 8192;

/// Highest tVOC value (parts per billion) a read may report.
pub const MAX_T_VOC: u16 = 1187;

/// One decoded measurement: the two derived values and the raw eight-byte
/// register block they came from, kept for diagnostics.
#[derive(PartialEq, Eq, Debug)]
pub struct Ccs811Data {
    pub t_voc: u16,
    pub e_co2: u16,
    pub raw: Vec<u8>,
}

/// The mathematical model of a [`Ccs811Data`] record.
#[verifier::ext_equal]
pub struct DataSpec {
    pub t_voc: u16,
    pub e_co2: u16,
    pub raw: Seq<u8>,
}

impl View for Ccs811Data {
    type V = DataSpec;

    open spec fn view(&self) -> DataSpec {
        DataSpec { t_voc: self.t_voc, e_co2: self.e_co2, raw: self.raw@ }
    }
}

/// The eCO2 value of a raw block: the big-endian 16-bit value of bytes 0-1.
pub open spec fn spec_e_co2(b: Seq<u8>) -> int
    recommends
        b.len() == 8,
{
    b[0] * 256 + b[1]
}

/// The tVOC value of a raw block: the big-endian 16-bit value of bytes 2-3.
pub open spec fn spec_t_voc(b: Seq<u8>) -> int
    recommends
        b.len() == 8,
{
    b[2] * 256 + b[3]
}

/// What decoding a raw block yields: the chip-reported error if the flag
/// byte is set, the out-of-range failure if a value exceeds its range, and
/// the record otherwise.
pub open spec fn spec_decode(b: Seq<u8>) -> Result<DataSpec, Ccs811Error>
    recommends
        b.len() == 8,
{
    if b[5] != 0 {
        Err(Ccs811Error::ChipError(b[5]))
    } else if spec_t_voc(b) > MAX_T_VOC || spec_e_co2(b) > MAX_E_CO2 {
        Err(
            Ccs811Error::OutOfRange {
                e_co2: spec_e_co2(b) as u16,
                t_voc: spec_t_voc(b) as u16,
            },
        )
    } else {
        Ok(DataSpec { t_voc: spec_t_voc(b) as u16, e_co2: spec_e_co2(b) as u16, raw: b })
    }
}

/// The model of a decode result.
pub open spec fn spec_decode_view(r: Result<Ccs811Data, Ccs811Error>) -> Result<
    DataSpec,
    Ccs811Error,
> {
    match r {
        Ok(d) => Ok(d@),
        Err(e) => Err(e),
    }
}

/// Decodes one eight-byte algorithm-result block, exactly as
/// [`spec_decode`] says: a read succeeds if and only if the error flag is
/// clear and both values are within range, and each failure reports what
/// was observed.
pub fn decode_alg_result(buffer: Vec<u8>) -> (r: Result<Ccs811Data, Ccs811Error>)
    requires
        buffer@.len() == 8,
    ensures
        spec_decode_view(r) == spec_decode(buffer@),
        r is Ok <==> (buffer@[5] == 0 && spec_t_voc(buffer@) <= MAX_T_VOC && spec_e_co2(buffer@)
            <= MAX_E_CO2),
{
    let flag: u8 = buffer[5];
    if flag != 0 {
        return Err(Ccs811Error::ChipError(flag));
    }
    let e_co2: u16 = buffer[0] as u16 * 256 + buffer[1] as u16;
    let t_voc: u16 = buffer[2] as u16 * 256 + buffer[3] as u16;
    if t_voc > MAX_T_VOC || e_co2 > MAX_E_CO2 {
        return Err(Ccs811Error::OutOfRange { e_co2, t_voc });
    }
    Ok(Ccs811Data { t_voc, e_co2, raw: buffer })
}

/// Where the `read` sequence stands.
#[derive(PartialEq, Eq, Debug)]
pub enum ReadState {
    /// Driving the wake line low.
    WakeLow,
    /// Waiting after waking.
    WakeSettle,
    /// Reading the algorithm-result block.
    DataRead,
    /// Releasing the wake line; the raw block still waits to be decoded.
    WakeRelease { raw: Vec<u8> },
}

/// The mathematical model of a [`ReadState`].
#[verifier::ext_equal]
pub enum ReadStateSpec {
    WakeLow,
    WakeSettle,
    DataRead,
    WakeRelease { raw: Seq<u8> },
}

impl View for ReadState {
    type V = ReadStateSpec;

    open spec fn view(&self) -> ReadStateSpec {
        match self {
            ReadState::WakeLow => ReadStateSpec::WakeLow,
            ReadState::WakeSettle => ReadStateSpec::WakeSettle,
            ReadState::DataRead => ReadStateSpec::DataRead,
            ReadState::WakeRelease { raw } => ReadStateSpec::WakeRelease { raw: raw@ },
        }
    }
}

/// The outcome of stepping the `read` sequence: the next pending action, the
/// decoded measurement, or the first failure.
#[derive(PartialEq, Eq, Debug)]
pub enum ReadStep {
    Next(ReadState, BusAction),
    Done(Ccs811Data),
    Fail(Ccs811Error),
}

/// The mathematical model of a [`ReadStep`].
#[verifier::ext_equal]
pub enum ReadStepSpec {
    Next(ReadStateSpec, ActionSpec),
    Done(DataSpec),
    Fail(Ccs811Error),
}

impl View for ReadStep {
    type V = ReadStepSpec;

    open spec fn view(&self) -> ReadStepSpec {
        match self {
            ReadStep::Next(s, a) => ReadStepSpec::Next(s@, a@),
            ReadStep::Done(d) => ReadStepSpec::Done(d@),
            ReadStep::Fail(e) => ReadStepSpec::Fail(*e),
        }
    }
}

/// The final step of a read: the decode of the raw block.
pub open spec fn spec_read_finish(b: Seq<u8>) -> ReadStepSpec
    recommends
        b.len() == 8,
{
    match spec_decode(b) {
        Ok(d) => ReadStepSpec::Done(d),
        Err(e) => ReadStepSpec::Fail(e),
    }
}

/// The first state and pending action of the `read` sequence: wake the chip
/// first where a wake line exists, else read the block at once.
pub open spec fn spec_read_init(has_wake: bool) -> (ReadStateSpec, ActionSpec) {
    if has_wake {
        (ReadStateSpec::WakeLow, ActionSpec::SetWakeLow)
    } else {
        (ReadStateSpec::DataRead, ActionSpec::BlockRead { reg: CCS811_ALG_RESULT_DATA, len: 8 })
    }
}

/// The transition function of the `read` sequence: wake, fetch the
/// eight-byte block, release the wake line, then decode. The wake line is
/// released before the block is decoded, so it is released whether or not
/// the decode succeeds.
pub open spec fn spec_read_step(s: ReadStateSpec, has_wake: bool, e: EventSpec) -> ReadStepSpec {
    match s {
        ReadStateSpec::WakeLow => ReadStepSpec::Next(
            ReadStateSpec::WakeSettle,
            ActionSpec::WaitMicros(WAIT_AFTER_WAKE_US),
        ),
        ReadStateSpec::WakeSettle => ReadStepSpec::Next(
            ReadStateSpec::DataRead,
            ActionSpec::BlockRead { reg: CCS811_ALG_RESULT_DATA, len: 8 },
        ),
        ReadStateSpec::DataRead => match e {
            EventSpec::Block(buf) => if buf.len() == 8 {
                if has_wake {
                    ReadStepSpec::Next(
                        ReadStateSpec::WakeRelease { raw: buf },
                        ActionSpec::SetWakeHigh,
                    )
                } else {
                    spec_read_finish(buf)
                }
            } else {
                ReadStepSpec::Fail(Ccs811Error::Transport(TxPoint::DataRead))
            },
            _ => ReadStepSpec::Fail(Ccs811Error::Transport(TxPoint::DataRead)),
        },
        ReadStateSpec::WakeRelease { raw } => if raw.len() == 8 {
            spec_read_finish(raw)
        } else {
            ReadStepSpec::Fail(Ccs811Error::Transport(TxPoint::DataRead))
        },
    }
}

/// Starts the `read` sequence.
pub fn read_init(has_wake: bool) -> (r: (ReadState, BusAction))
    ensures
        r.0@ == spec_read_init(has_wake).0,
        r.1@ == spec_read_init(has_wake).1,
{
    if has_wake {
        (ReadState::WakeLow, BusAction::SetWakeLow)
    } else {
        (ReadState::DataRead, BusAction::BlockRead { reg: CCS811_ALG_RESULT_DATA, len: 8 })
    }
}

/// Steps the `read` sequence, exactly as [`spec_read_step`] says.
pub fn read_step(s: ReadState, has_wake: bool, e: BusEvent) -> (r: ReadStep)
    ensures
        r@ == spec_read_step(s@, has_wake, e@),
{
    match s {
        ReadState::WakeLow => ReadStep::Next(
            ReadState::WakeSettle,
            BusAction::WaitMicros(WAIT_AFTER_WAKE_US),
        ),
        ReadState::WakeSettle => ReadStep::Next(
            ReadState::DataRead,
            BusAction::BlockRead { reg: CCS811_ALG_RESULT_DATA, len: 8 },
        ),
        ReadState::DataRead => match e {
            BusEvent::Block(buf) => if buf.len() == 8 {
                if has_wake {
                    ReadStep::Next(ReadState::WakeRelease { raw: buf }, BusAction::SetWakeHigh)
                } else {
                    match decode_alg_result(buf) {
                        Ok(d) => ReadStep::Done(d),
                        Err(err) => ReadStep::Fail(err),
                    }
                }
            } else {
                ReadStep::Fail(Ccs811Error::Transport(TxPoint::DataRead))
            },
            _ => ReadStep::Fail(Ccs811Error::Transport(TxPoint::DataRead)),
        },
        ReadState::WakeRelease { raw } => if raw.len() == 8 {
            match decode_alg_result(raw) {
                Ok(d) => ReadStep::Done(d),
                Err(err) => ReadStep::Fail(err),
            }
        } else {
            ReadStep::Fail(Ccs811Error::Transport(TxPoint::DataRead))
        },
    }
}

/// A read fails with the chip-reported error whenever the flag byte of the
/// block is non-zero, whatever the decoded values are.
pub proof fn lemma_read_error_flag_rejects(b: Seq<u8>)
    requires
        b.len() == 8,
        b[5] != 0,
    ensures
        spec_read_finish(b) == ReadStepSpec::Fail(Ccs811Error::ChipError(b[5])),
{
}

/// A read fails as out-of-range whenever a decoded value exceeds its valid
/// range, even though the error flag is clear.
pub proof fn lemma_read_range_rejects(b: Seq<u8>)
    requires
        b.len() == 8,
        b[5] == 0,
        spec_t_voc(b) > MAX_T_VOC || spec_e_co2(b) > MAX_E_CO2,
    ensures
        spec_read_finish(b) == ReadStepSpec::Fail(
            Ccs811Error::OutOfRange {
                e_co2: spec_e_co2(b) as u16,
                t_voc: spec_t_voc(b) as u16,
            },
        ),
{
}

} // verus!

//! The transaction vocabulary between the protocol engine and the caller's
//! transport. The engine never touches the bus itself: it hands out one
//! [`BusAction`] at a time, and is stepped with the [`BusEvent`] that the
//! transport produced for it.

use vstd::prelude::*;
use crate::error::Ccs811Error;

verus! {

/// One transaction the caller's transport must perform.
#[derive(PartialEq, Eq, Debug)]
pub enum BusAction {
    /// Select the chip's bus address for all following transactions.
    SetSlaveAddress(u16),
    /// Write the payload bytes to the given register.
    BlockWrite { reg: u8, data: Vec<u8> },
    /// Write the single command byte, with no payload.
    CommandWrite(u8),
    /// Read one byte from the given register.
    ReadByte(u8),
    /// Read one 16-bit word from the given register.
    ReadWord(u8),
    /// Write one 16-bit word to the given register.
    WriteWord { reg: u8, value: u16 },
    /// Read `len` bytes from the given register.
    BlockRead { reg: u8, len: usize },
    /// Drive the wake line low (chip active). A no-op without a wake line.
    SetWakeLow,
    /// Drive the wake line high (chip idle). A no-op without a wake line.
    SetWakeHigh,
    /// Wait this many microseconds before the next transaction.
    WaitMicros(u64),
}

/// The mathematical model of a [`BusAction`].
#[verifier::ext_equal]
pub enum ActionSpec {
    SetSlaveAddress(u16),
    BlockWrite { reg: u8, data: Seq<u8> },
    CommandWrite(u8),
    ReadByte(u8),
    ReadWord(u8),
    WriteWord { reg: u8, value: u16 },
    BlockRead { reg: u8, len: usize },
    SetWakeLow,
    SetWakeHigh,
    WaitMicros(u64),
}

impl View for BusAction {
    type V = ActionSpec;

    open spec fn view(&self) -> ActionSpec {
        match self {
            BusAction::SetSlaveAddress(a) => ActionSpec::SetSlaveAddress(*a),
            BusAction::BlockWrite { reg, data } => ActionSpec::BlockWrite { reg: *reg, data: data@ },
            BusAction::CommandWrite(c) => ActionSpec::CommandWrite(*c),
            BusAction::ReadByte(r) => ActionSpec::ReadByte(*r),
            BusAction::ReadWord(r) => ActionSpec::ReadWord(*r),
            BusAction::WriteWord { reg, value } => ActionSpec::WriteWord { reg: *reg, value: *value },
            BusAction::BlockRead { reg, len } => ActionSpec::BlockRead { reg: *reg, len: *len },
            BusAction::SetWakeLow => ActionSpec::SetWakeLow,
            BusAction::SetWakeHigh => ActionSpec::SetWakeHigh,
            BusAction::WaitMicros(us) => ActionSpec::WaitMicros(*us),
        }
    }
}

/// What the transport reports back for one performed [`BusAction`].
#[derive(PartialEq, Eq, Debug)]
pub enum BusEvent {
    /// A write, wait, or pin action completed.
    Done,
    /// A one-byte read returned this byte.
    Byte(u8),
    /// A word read returned this value.
    Word(u16),
    /// A block read returned these bytes.
    Block(Vec<u8>),
    /// The transport failed to perform the action.
    Failed,
}

/// The mathematical model of a [`BusEvent`].
#[verifier::ext_equal]
pub enum EventSpec {
    Done,
    Byte(u8),
    Word(u16),
    Block(Seq<u8>),
    Failed,
}

impl View for BusEvent {
    type V = EventSpec;

    open spec fn view(&self) -> EventSpec {
        match self {
            BusEvent::Done => EventSpec::Done,
            BusEvent::Byte(b) => EventSpec::Byte(*b),
            BusEvent::Word(w) => EventSpec::Word(*w),
            BusEvent::Block(v) => EventSpec::Block(v@),
            BusEvent::Failed => EventSpec::Failed,
        }
    }
}

/// The outcome of stepping a machine whose success carries no data: either
/// the next pending action together with the machine's new state, or
/// completion, or the first failure.
#[derive(PartialEq, Eq, Debug)]
pub enum Drive<S> {
    /// The operation continues: new state, and the action now pending.
    Next(S, BusAction),
    /// The operation completed successfully.
    Done,
    /// The operation aborted with this failure.
    Fail(Ccs811Error),
}

/// The mathematical model of a [`Drive`] outcome.
#[verifier::ext_equal]
pub enum DriveSpec<S> {
    Next(S, ActionSpec),
    Done,
    Fail(Ccs811Error),
}

impl<S> View for Drive<S> {
    type V = DriveSpec<S>;

    open spec fn view(&self) -> DriveSpec<S> {
        match self {
            Drive::Next(s, a) => DriveSpec::Next(*s, a@),
            Drive::Done => DriveSpec::Done,
            Drive::Fail(e) => DriveSpec::Fail(*e),
        }
    }
}

} // verus!

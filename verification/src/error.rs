//! Failure taxonomy of the driver core. Every operation is a best-effort
//! attempt: the first failing step aborts the whole operation, and the error
//! names the step and what was observed, so an operator can tell where the
//! hardware sequence broke.

use vstd::prelude::*;

verus! {

/// The logical transaction at which a transport failure occurred.
#[derive(Clone, Copy, PartialEq, Eq, Structural, Debug)]
pub enum TxPoint {
    /// Selecting the chip's bus address.
    SelectAddress,
    /// Writing the software reset magic.
    ResetWrite,
    /// Reading the hardware identity register.
    HwIdRead,
    /// Writing the application start command.
    AppStartWrite,
    /// Reading the status register during the lifecycle sequence.
    StatusRead,
    /// Writing the measurement mode register.
    ModeWrite,
    /// Reading the algorithm result block.
    DataRead,
    /// Reading the status register at the valid-application checkpoint.
    ValidRead,
    /// Writing the application erase magic.
    EraseWrite,
    /// Reading the status register at the erase-complete checkpoint.
    ErasedRead,
    /// Writing one firmware chunk.
    ChunkWrite,
    /// Writing the application verify command.
    VerifyWrite,
    /// Reading the status register at the verify-complete checkpoint.
    VerifiedRead,
    /// Writing the reset magic after flashing.
    FinalResetWrite,
    /// Reading the status register after the post-flash reset.
    FinalRead,
}

/// Why an operation failed.
#[derive(Clone, Copy, PartialEq, Eq, Structural, Debug)]
pub enum Ccs811Error {
    /// The underlying bus or pin transaction failed at the named step.
    Transport(TxPoint),
    /// The hardware identity register reported this value instead of the
    /// expected constant.
    WrongHardwareId(u8),
    /// The lifecycle status check found some of the required bits missing.
    StatusMismatch { expected: u8, actual: u8 },
    /// The error flag byte of a measurement read was non-zero; its value.
    ChipError(u8),
    /// A decoded measurement exceeded its valid numeric range.
    OutOfRange { e_co2: u16, t_voc: u16 },
    /// Flashing checkpoint: no valid application was present before erasing.
    NotValid(u8),
    /// Flashing checkpoint: the erase-complete bit did not appear.
    NotErased(u8),
    /// Flashing checkpoint: the verify-complete check failed after
    /// streaming the image.
    NotVerified(u8),
    /// Flashing checkpoint: no valid application was present after the
    /// final reset.
    InvalidAfterFlash(u8),
}

} // verus!

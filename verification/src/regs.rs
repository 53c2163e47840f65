//! Register map of the gas-sensing chip: bus address, register mailboxes,
//! status bit masks, command payloads, and the wait intervals each command
//! needs. The waits are longer than the datasheet minimums where experience
//! showed the minimums to be insufficient.

use vstd::prelude::*;

verus! {

/// The chip's fixed bus address.
pub const CCS811_SLAVEADDR_0: u16 = 0x5A;

/// Status register (1 byte).
pub const CCS811_STATUS: u8 = 0x00;

/// Measurement mode register (1 byte); bits 4-6 hold the drive mode.
pub const CCS811_MEAS_MODE: u8 = 0x01;

/// Algorithm result register (up to 8 bytes).
pub const CCS811_ALG_RESULT_DATA: u8 = 0x02;

/// Environmental data register (4 bytes).
pub const CCS811_ENV_DATA: u8 = 0x05;

/// Baseline register (2 bytes), an opaque calibration word.
pub const CCS811_BASELINE: u8 = 0x11;

/// Hardware identity register (1 byte).
pub const CCS811_HW_ID: u8 = 0x20;

/// Hardware version register (1 byte).
pub const CCS811_HW_VERSION: u8 = 0x21;

/// Bootloader version register (2 bytes).
pub const CCS811_FW_BOOT_VERSION: u8 = 0x23;

/// Application version register (2 bytes).
pub const CCS811_FW_APP_VERSION: u8 = 0x24;

/// Application erase register (4-byte magic payload).
pub const CCS811_APP_ERASE: u8 = 0xF1;

/// Application data register: firmware is streamed here in chunks of at
/// most eight bytes.
pub const CCS811_APP_DATA: u8 = 0xF2;

/// Application verify command (no payload).
pub const CCS811_APP_VERIFY: u8 = 0xF3;

/// Application start command (no payload).
pub const CCS811_APP_START: u8 = 0xF4;

/// Software reset register (4-byte magic payload).
pub const CCS811_SW_RESET: u8 = 0xFF;

/// The value the hardware identity register must report.
pub const CCS811_HW_ID_VALUE: u8 = 0x81;

/// Status bit: the chip runs its application firmware (else boot mode).
pub const CCS811_STATUS_APP_MODE: u8 = 0b10000000;

/// Status bit: an application erase completed.
pub const CCS811_STATUS_APP_ERASE: u8 = 0b01000000;

/// Status bit: an application verify completed.
pub const CCS811_STATUS_APP_VERIFY: u8 = 0b00100000;

/// Status bit: a valid application firmware is present.
pub const CCS811_STATUS_APP_VALID: u8 = 0b00010000;

/// Wait after a software reset, in microseconds.
pub const WAIT_AFTER_RESET_US: u64 = 2000;

/// Wait after the application start command, in microseconds.
pub const WAIT_AFTER_APPSTART_US: u64 = 1000;

/// Wait after driving the wake line low, in microseconds.
pub const WAIT_AFTER_WAKE_US: u64 = 50;

/// Wait after the application erase command, in microseconds
/// (the datasheet's 300 ms proved too short).
pub const WAIT_AFTER_APPERASE_US: u64 = 500000;

/// Wait after the application verify command, in microseconds.
pub const WAIT_AFTER_APPVERIFY_US: u64 = 70000;

/// Wait after streaming the last firmware chunk, in microseconds.
pub const WAIT_AFTER_APPDATA_US: u64 = 50000;

/// The four-byte magic sequence the software reset register expects.
pub open spec fn spec_reset_payload() -> Seq<u8> {
    seq![0x11u8, 0xE5u8, 0x72u8, 0x8Au8]
}

/// Builds the software reset payload.
pub fn reset_payload() -> (v: Vec<u8>)
    ensures
        v@ == spec_reset_payload(),
{
    let mut v: Vec<u8> = Vec::new();
    v.push(0x11);
    v.push(0xE5);
    v.push(0x72);
    v.push(0x8A);
    proof {
        assert(v@ =~= spec_reset_payload());
    }
    v
}

/// The four-byte magic sequence the application erase register expects.
pub open spec fn spec_erase_payload() -> Seq<u8> {
    seq![0xE7u8, 0xA7u8, 0xE6u8, 0x09u8]
}

/// Builds the application erase payload.
pub fn erase_payload() -> (v: Vec<u8>)
    ensures
        v@ == spec_erase_payload(),
{
    let mut v: Vec<u8> = Vec::new();
    v.push(0xE7);
    v.push(0xA7);
    v.push(0xE6);
    v.push(0x09);
    proof {
        assert(v@ =~= spec_erase_payload());
    }
    v
}

/// A "required bits present" status test: the check passes only when every
/// bit of the required mask is set in the status byte.
pub open spec fn status_ok(status: u8, required: u8) -> bool {
    status & required == required
}

} // verus!

//! Lifecycle sequencing: bringing the chip from power-on to a measuring
//! state, selecting a drive mode, and the single-register accessors.
//!
//! The `begin` sequence is a step machine. The caller performs each pending
//! [`BusAction`] and feeds the resulting [`BusEvent`] back through
//! [`begin_step`]; the machine decides what comes next. Its contract is the
//! transition function [`spec_begin_step`], so the exact order of
//! transactions — reset, hardware-identity check, application start, status
//! check — and the abort at the first failing step are stated facts, not
//! implementation accidents.

use vstd::prelude::*;
use crate::bus::{ActionSpec, BusAction, BusEvent, Drive, DriveSpec, EventSpec};
use crate::error::{Ccs811Error, TxPoint};
use crate::regs::{
    status_ok, reset_payload, spec_reset_payload, CCS811_APP_START, CCS811_BASELINE,
    CCS811_ENV_DATA, CCS811_FW_APP_VERSION, CCS811_FW_BOOT_VERSION, CCS811_HW_ID,
    CCS811_HW_ID_VALUE, CCS811_HW_VERSION, CCS811_MEAS_MODE, CCS811_SLAVEADDR_0, CCS811_STATUS,
    CCS811_STATUS_APP_MODE, CCS811_STATUS_APP_VERIFY, CCS811_SW_RESET, WAIT_AFTER_APPSTART_US,
    WAIT_AFTER_RESET_US, WAIT_AFTER_WAKE_US,
};
use crate::codec::{env_data_payload, spec_env_payload};

verus! {

/// The drive modes of the measurement engine: idle, or one sample every
/// 1, 10, or 60 seconds.
#[derive(Clone, Copy, PartialEq, Eq, Structural, Debug)]
pub enum Ccs811Mode {
    Idle,
    Sec1,
    Sec10,
    Sec60,
}

/// The integer the chip encodes each drive mode as.
pub open spec fn spec_mode_value(m: Ccs811Mode) -> u8 {
    match m {
        Ccs811Mode::Idle => 0,
        Ccs811Mode::Sec1 => 1,
        Ccs811Mode::Sec10 => 2,
        Ccs811Mode::Sec60 => 3,
    }
}

/// The measurement-mode register byte for a drive mode: the mode value
/// shifted into bits 4-6, low bits zero.
pub open spec fn spec_meas_mode_byte(m: Ccs811Mode) -> u8 {
    spec_mode_value(m) << 4
}

/// Returns the integer the chip encodes the given drive mode as.
pub fn mode_value(m: Ccs811Mode) -> (r: u8)
    ensures
        r == spec_mode_value(m),
{
    match m {
        Ccs811Mode::Idle => 0,
        Ccs811Mode::Sec1 => 1,
        Ccs811Mode::Sec10 => 2,
        Ccs811Mode::Sec60 => 3,
    }
}

/// The bits the lifecycle status check requires: the chip must run its
/// application firmware and report the verify-complete bit.
pub const BEGIN_STATUS_MASK: u8 = CCS811_STATUS_APP_MODE | CCS811_STATUS_APP_VERIFY;

/// Where the `begin` sequence stands: each state names the action whose
/// outcome the machine is waiting for.
#[derive(Clone, Copy, PartialEq, Eq, Structural, Debug)]
pub enum BeginState {
    /// Selecting the chip's bus address.
    SelectAddress,
    /// Driving the wake line low.
    WakeLow,
    /// Waiting for the oscillator to stabilize after waking.
    WakeSettle,
    /// Writing the software reset magic.
    ResetWrite,
    /// Waiting after the reset.
    ResetSettle,
    /// Reading the hardware identity register.
    HwIdRead,
    /// Writing the application start command.
    AppStartWrite,
    /// Waiting after the application start.
    AppStartSettle,
    /// Reading the status register.
    StatusRead,
    /// Releasing the wake line after full success.
    WakeRelease,
}

/// The first state and pending action of the `begin` sequence.
pub open spec fn spec_begin_init() -> (BeginState, ActionSpec) {
    (BeginState::SelectAddress, ActionSpec::SetSlaveAddress(CCS811_SLAVEADDR_0))
}

/// The transition function of the `begin` sequence: given the machine's
/// state, whether a wake line is configured, and the event the transport
/// produced for the pending action, it yields the next pending action,
/// completion, or the first failure. Wait and pin steps cannot fail and
/// ignore the event; every fallible step aborts on anything but its
/// expected outcome.
pub open spec fn spec_begin_step(s: BeginState, has_wake: bool, e: EventSpec) -> DriveSpec<
    BeginState,
> {
    match s {
        BeginState::SelectAddress => match e {
            EventSpec::Done => if has_wake {
                DriveSpec::Next(BeginState::WakeLow, ActionSpec::SetWakeLow)
            } else {
                DriveSpec::Next(
                    BeginState::ResetWrite,
                    ActionSpec::BlockWrite { reg: CCS811_SW_RESET, data: spec_reset_payload() },
                )
            },
            _ => DriveSpec::Fail(Ccs811Error::Transport(TxPoint::SelectAddress)),
        },
        BeginState::WakeLow => DriveSpec::Next(
            BeginState::WakeSettle,
            ActionSpec::WaitMicros(WAIT_AFTER_WAKE_US),
        ),
        BeginState::WakeSettle => DriveSpec::Next(
            BeginState::ResetWrite,
            ActionSpec::BlockWrite { reg: CCS811_SW_RESET, data: spec_reset_payload() },
        ),
        BeginState::ResetWrite => match e {
            EventSpec::Done => DriveSpec::Next(
                BeginState::ResetSettle,
                ActionSpec::WaitMicros(WAIT_AFTER_RESET_US),
            ),
            _ => DriveSpec::Fail(Ccs811Error::Transport(TxPoint::ResetWrite)),
        },
        BeginState::ResetSettle => DriveSpec::Next(
            BeginState::HwIdRead,
            ActionSpec::ReadByte(CCS811_HW_ID),
        ),
        BeginState::HwIdRead => match e {
            EventSpec::Byte(b) => if b == CCS811_HW_ID_VALUE {
                DriveSpec::Next(
                    BeginState::AppStartWrite,
                    ActionSpec::CommandWrite(CCS811_APP_START),
                )
            } else {
                DriveSpec::Fail(Ccs811Error::WrongHardwareId(b))
            },
            _ => DriveSpec::Fail(Ccs811Error::Transport(TxPoint::HwIdRead)),
        },
        BeginState::AppStartWrite => match e {
            EventSpec::Done => DriveSpec::Next(
                BeginState::AppStartSettle,
                ActionSpec::WaitMicros(WAIT_AFTER_APPSTART_US),
            ),
            _ => DriveSpec::Fail(Ccs811Error::Transport(TxPoint::AppStartWrite)),
        },
        BeginState::AppStartSettle => DriveSpec::Next(
            BeginState::StatusRead,
            ActionSpec::ReadByte(CCS811_STATUS),
        ),
        BeginState::StatusRead => match e {
            EventSpec::Byte(st) => if status_ok(st, BEGIN_STATUS_MASK) {
                if has_wake {
                    DriveSpec::Next(BeginState::WakeRelease, ActionSpec::SetWakeHigh)
                } else {
                    DriveSpec::Done
                }
            } else {
                DriveSpec::Fail(
                    Ccs811Error::StatusMismatch { expected: BEGIN_STATUS_MASK, actual: st },
                )
            },
            _ => DriveSpec::Fail(Ccs811Error::Transport(TxPoint::StatusRead)),
        },
        BeginState::WakeRelease => DriveSpec::Done,
    }
}

/// Starts the `begin` sequence: returns its first state and pending action.
pub fn begin_init() -> (r: (BeginState, BusAction))
    ensures
        r.0 == spec_begin_init().0,
        r.1@ == spec_begin_init().1,
{
    (BeginState::SelectAddress, BusAction::SetSlaveAddress(CCS811_SLAVEADDR_0))
}

/// Steps the `begin` sequence with the transport's event for the pending
/// action, exactly as [`spec_begin_step`] says.
pub fn begin_step(s: BeginState, has_wake: bool, e: BusEvent) -> (r: Drive<BeginState>)
    ensures
        r@ == spec_begin_step(s, has_wake, e@),
{
    match s {
        BeginState::SelectAddress => match e {
            BusEvent::Done => if has_wake {
                Drive::Next(BeginState::WakeLow, BusAction::SetWakeLow)
            } else {
                Drive::Next(
                    BeginState::ResetWrite,
                    BusAction::BlockWrite { reg: CCS811_SW_RESET, data: reset_payload() },
                )
            },
            _ => Drive::Fail(Ccs811Error::Transport(TxPoint::SelectAddress)),
        },
        BeginState::WakeLow => Drive::Next(
            BeginState::WakeSettle,
            BusAction::WaitMicros(WAIT_AFTER_WAKE_US),
        ),
        BeginState::WakeSettle => Drive::Next(
            BeginState::ResetWrite,
            BusAction::BlockWrite { reg: CCS811_SW_RESET, data: reset_payload() },
        ),
        BeginState::ResetWrite => match e {
            BusEvent::Done => Drive::Next(
                BeginState::ResetSettle,
                BusAction::WaitMicros(WAIT_AFTER_RESET_US),
            ),
            _ => Drive::Fail(Ccs811Error::Transport(TxPoint::ResetWrite)),
        },
        BeginState::ResetSettle => Drive::Next(
            BeginState::HwIdRead,
            BusAction::ReadByte(CCS811_HW_ID),
        ),
        BeginState::HwIdRead => match e {
            BusEvent::Byte(b) => if b == CCS811_HW_ID_VALUE {
                Drive::Next(BeginState::AppStartWrite, BusAction::CommandWrite(CCS811_APP_START))
            } else {
                Drive::Fail(Ccs811Error::WrongHardwareId(b))
            },
            _ => Drive::Fail(Ccs811Error::Transport(TxPoint::HwIdRead)),
        },
        BeginState::AppStartWrite => match e {
            BusEvent::Done => Drive::Next(
                BeginState::AppStartSettle,
                BusAction::WaitMicros(WAIT_AFTER_APPSTART_US),
            ),
            _ => Drive::Fail(Ccs811Error::Transport(TxPoint::AppStartWrite)),
        },
        BeginState::AppStartSettle => Drive::Next(
            BeginState::StatusRead,
            BusAction::ReadByte(CCS811_STATUS),
        ),
        BeginState::StatusRead => match e {
            BusEvent::Byte(st) => if st & BEGIN_STATUS_MASK == BEGIN_STATUS_MASK {
                if has_wake {
                    Drive::Next(BeginState::WakeRelease, BusAction::SetWakeHigh)
                } else {
                    Drive::Done
                }
            } else {
                Drive::Fail(Ccs811Error::StatusMismatch { expected: BEGIN_STATUS_MASK, actual: st })
            },
            _ => Drive::Fail(Ccs811Error::Transport(TxPoint::StatusRead)),
        },
        BeginState::WakeRelease => Drive::Done,
    }
}

/// A hardware-identity mismatch aborts the lifecycle sequence at once with
/// the observed identity byte; no further action is issued.
pub proof fn lemma_begin_hw_id_mismatch_aborts(has_wake: bool, b: u8)
    requires
        b != CCS811_HW_ID_VALUE,
    ensures
        spec_begin_step(BeginState::HwIdRead, has_wake, EventSpec::Byte(b)) == DriveSpec::Fail::<
            BeginState,
        >(Ccs811Error::WrongHardwareId(b)),
{
}

/// The application start command is issued only from the hardware-identity
/// checkpoint, and only when the chip reported the expected identity: a
/// mismatch can never reach the application start.
pub proof fn lemma_begin_app_start_gated(s: BeginState, has_wake: bool, e: EventSpec)
    ensures
        (spec_begin_step(s, has_wake, e) matches DriveSpec::Next(_, a) && a == ActionSpec::CommandWrite(
            CCS811_APP_START,
        )) ==> s == BeginState::HwIdRead && e == EventSpec::Byte(CCS811_HW_ID_VALUE),
{
}

/// The actions a machine run emits, one per consumed event, until the run
/// completes, fails, or the events run out.
pub open spec fn spec_begin_trace(s: BeginState, has_wake: bool, events: Seq<EventSpec>) -> Seq<
    ActionSpec,
>
    decreases events.len(),
{
    if events.len() == 0 {
        seq![]
    } else {
        match spec_begin_step(s, has_wake, events[0]) {
            DriveSpec::Next(s2, a) => seq![a] + spec_begin_trace(s2, has_wake, events.drop_first()),
            _ => seq![],
        }
    }
}

/// In every run of the `begin` machine, from any state and under any event
/// sequence, the application start command is issued only if the chip
/// reported the expected hardware identity somewhere in the run: a chip
/// that never reports it never sees an application start.
pub proof fn lemma_begin_trace_app_start(s: BeginState, has_wake: bool, events: Seq<EventSpec>)
    ensures
        spec_begin_trace(s, has_wake, events).contains(
            ActionSpec::CommandWrite(CCS811_APP_START),
        ) ==> events.contains(EventSpec::Byte(CCS811_HW_ID_VALUE)),
    decreases events.len(),
{
    let target = ActionSpec::CommandWrite(CCS811_APP_START);
    if events.len() > 0 {
        match spec_begin_step(s, has_wake, events[0]) {
            DriveSpec::Next(s2, a) => {
                let rest = events.drop_first();
                let tail = spec_begin_trace(s2, has_wake, rest);
                lemma_begin_trace_app_start(s2, has_wake, rest);
                assert(spec_begin_trace(s, has_wake, events) == seq![a] + tail);
                if (seq![a] + tail).contains(target) {
                    let k = choose|k: int|
                        0 <= k < (seq![a] + tail).len() && (seq![a] + tail)[k] == target;
                    if k == 0 {
                        lemma_begin_app_start_gated(s, has_wake, events[0]);
                        assert(events[0] == EventSpec::Byte(CCS811_HW_ID_VALUE));
                    } else {
                        assert(tail[k - 1] == target);
                        assert(tail.contains(target));
                        let j = choose|j: int|
                            0 <= j < rest.len() && rest[j] == EventSpec::Byte(
                                CCS811_HW_ID_VALUE,
                            );
                        assert(events[j + 1] == EventSpec::Byte(CCS811_HW_ID_VALUE));
                    }
                }
            },
            _ => {},
        }
    }
}

/// Without a wake line, a `begin` run whose transactions all succeed issues
/// exactly, and in this order: the reset write, the reset wait, the
/// hardware-identity read, the application start, the start wait, and the
/// status read.
pub proof fn lemma_begin_action_order(st: u8)
    ensures
        spec_begin_trace(
            BeginState::SelectAddress,
            false,
            seq![
                EventSpec::Done,
                EventSpec::Done,
                EventSpec::Done,
                EventSpec::Byte(CCS811_HW_ID_VALUE),
                EventSpec::Done,
                EventSpec::Done,
                EventSpec::Byte(st),
            ],
        ) =~= seq![
            ActionSpec::BlockWrite { reg: CCS811_SW_RESET, data: spec_reset_payload() },
            ActionSpec::WaitMicros(WAIT_AFTER_RESET_US),
            ActionSpec::ReadByte(CCS811_HW_ID),
            ActionSpec::CommandWrite(CCS811_APP_START),
            ActionSpec::WaitMicros(WAIT_AFTER_APPSTART_US),
            ActionSpec::ReadByte(CCS811_STATUS),
        ],
{
    reveal_with_fuel(spec_begin_trace, 8);
}

/// Where the `start` sequence stands.
#[derive(Clone, Copy, PartialEq, Eq, Structural, Debug)]
pub enum StartState {
    /// Driving the wake line low.
    WakeLow,
    /// Waiting after waking.
    WakeSettle,
    /// Writing the measurement mode register.
    ModeWrite,
    /// Releasing the wake line.
    WakeRelease,
}

/// The first state and pending action of the `start` sequence for a drive
/// mode: wake the chip first where a wake line exists, else write the mode
/// at once.
pub open spec fn spec_start_init(mode: Ccs811Mode, has_wake: bool) -> (StartState, ActionSpec) {
    if has_wake {
        (StartState::WakeLow, ActionSpec::SetWakeLow)
    } else {
        (
            StartState::ModeWrite,
            ActionSpec::BlockWrite { reg: CCS811_MEAS_MODE, data: seq![spec_meas_mode_byte(mode)] },
        )
    }
}

/// The transition function of the `start` sequence: wake, write the mode
/// byte, release the wake line; the one fallible step is the mode write.
pub open spec fn spec_start_step(
    s: StartState,
    mode: Ccs811Mode,
    has_wake: bool,
    e: EventSpec,
) -> DriveSpec<StartState> {
    match s {
        StartState::WakeLow => DriveSpec::Next(
            StartState::WakeSettle,
            ActionSpec::WaitMicros(WAIT_AFTER_WAKE_US),
        ),
        StartState::WakeSettle => DriveSpec::Next(
            StartState::ModeWrite,
            ActionSpec::BlockWrite { reg: CCS811_MEAS_MODE, data: seq![spec_meas_mode_byte(mode)] },
        ),
        StartState::ModeWrite => match e {
            EventSpec::Done => if has_wake {
                DriveSpec::Next(StartState::WakeRelease, ActionSpec::SetWakeHigh)
            } else {
                DriveSpec::Done
            },
            _ => DriveSpec::Fail(Ccs811Error::Transport(TxPoint::ModeWrite)),
        },
        StartState::WakeRelease => DriveSpec::Done,
    }
}

/// Builds the one-byte measurement-mode payload for a drive mode.
fn meas_mode_payload(mode: Ccs811Mode) -> (v: Vec<u8>)
    ensures
        v@ == seq![spec_meas_mode_byte(mode)],
{
    let mut v: Vec<u8> = Vec::new();
    let value: u8 = mode_value(mode);
    v.push(value << 4);
    proof {
        assert(v@ =~= seq![spec_meas_mode_byte(mode)]);
    }
    v
}

/// Starts the `start` sequence for a drive mode.
pub fn start_init(mode: Ccs811Mode, has_wake: bool) -> (r: (StartState, BusAction))
    ensures
        r.0 == spec_start_init(mode, has_wake).0,
        r.1@ == spec_start_init(mode, has_wake).1,
{
    if has_wake {
        (StartState::WakeLow, BusAction::SetWakeLow)
    } else {
        (
            StartState::ModeWrite,
            BusAction::BlockWrite { reg: CCS811_MEAS_MODE, data: meas_mode_payload(mode) },
        )
    }
}

/// Steps the `start` sequence, exactly as [`spec_start_step`] says.
pub fn start_step(s: StartState, mode: Ccs811Mode, has_wake: bool, e: BusEvent) -> (r: Drive<
    StartState,
>)
    ensures
        r@ == spec_start_step(s, mode, has_wake, e@),
{
    match s {
        StartState::WakeLow => Drive::Next(
            StartState::WakeSettle,
            BusAction::WaitMicros(WAIT_AFTER_WAKE_US),
        ),
        StartState::WakeSettle => Drive::Next(
            StartState::ModeWrite,
            BusAction::BlockWrite { reg: CCS811_MEAS_MODE, data: meas_mode_payload(mode) },
        ),
        StartState::ModeWrite => match e {
            BusEvent::Done => if has_wake {
                Drive::Next(StartState::WakeRelease, BusAction::SetWakeHigh)
            } else {
                Drive::Done
            },
            _ => Drive::Fail(Ccs811Error::Transport(TxPoint::ModeWrite)),
        },
        StartState::WakeRelease => Drive::Done,
    }
}

/// The single read that yields the hardware version byte.
pub fn hardware_version_action() -> (a: BusAction)
    ensures
        a@ == ActionSpec::ReadByte(CCS811_HW_VERSION),
{
    BusAction::ReadByte(CCS811_HW_VERSION)
}

/// The single read that yields the two bootloader version bytes.
pub fn bootloader_version_action() -> (a: BusAction)
    ensures
        a@ == (ActionSpec::BlockRead { reg: CCS811_FW_BOOT_VERSION, len: 2 }),
{
    BusAction::BlockRead { reg: CCS811_FW_BOOT_VERSION, len: 2 }
}

/// The single read that yields the two application version bytes.
pub fn application_version_action() -> (a: BusAction)
    ensures
        a@ == (ActionSpec::BlockRead { reg: CCS811_FW_APP_VERSION, len: 2 }),
{
    BusAction::BlockRead { reg: CCS811_FW_APP_VERSION, len: 2 }
}

/// The single read that yields the opaque baseline calibration word.
pub fn baseline_read_action() -> (a: BusAction)
    ensures
        a@ == ActionSpec::ReadWord(CCS811_BASELINE),
{
    BusAction::ReadWord(CCS811_BASELINE)
}

/// The single write that stores a baseline calibration word, verbatim and
/// uninterpreted.
pub fn baseline_write_action(baseline: u16) -> (a: BusAction)
    ensures
        a@ == (ActionSpec::WriteWord { reg: CCS811_BASELINE, value: baseline }),
{
    BusAction::WriteWord { reg: CCS811_BASELINE, value: baseline }
}

/// The single write that stores both encoded environmental values: the
/// four-byte payload is the encoded humidity pair followed by the encoded
/// temperature pair, written in one transaction.
pub fn env_data_action(h_base: u8, h_frac: u16, t_base: u8, t_frac: u16) -> (a: BusAction)
    ensures
        a@ == (ActionSpec::BlockWrite {
            reg: CCS811_ENV_DATA,
            data: spec_env_payload(h_base, h_frac, t_base, t_frac),
        }),
{
    BusAction::BlockWrite {
        reg: CCS811_ENV_DATA,
        data: env_data_payload(h_base, h_frac, t_base, t_frac),
    }
}

} // verus!

//! Bit images of the architectural control registers.
//!
//! The hardware consumes each typed value of the register model as one
//! fixed-width bit pattern. These functions pin down the exact image the
//! shell around the crate writes for each value, so the typed model and the
//! bits on the wire cannot drift apart.

use vstd::prelude::*;

use crate::boot::ExecutionLevel;
use crate::machine::SavedProgramStatus;
use crate::machine::StackSelect;
use crate::machine::TimerCounterConfig;

verus! {

/// Debug-mask bit of the saved-program-status register.
pub const STATUS_DEBUG_BIT: u64 = 1 << 9;

/// Asynchronous-abort-mask bit of the saved-program-status register.
pub const STATUS_ASYNC_ABORT_BIT: u64 = 1 << 8;

/// Interrupt-mask bit of the saved-program-status register.
pub const STATUS_IRQ_BIT: u64 = 1 << 7;

/// Fast-interrupt-mask bit of the saved-program-status register.
pub const STATUS_FIQ_BIT: u64 = 1 << 6;

/// Physical-counter access bit of the counter control register.
pub const COUNTER_PHYSICAL_ACCESS_BIT: u64 = 1 << 0;

/// Physical-timer access bit of the counter control register.
pub const COUNTER_TIMER_ACCESS_BIT: u64 = 1 << 1;

/// 64-bit-width bit of the hypervisor configuration register.
pub const RUNTIME_WIDE_BIT: u64 = 1 << 31;

/// Mode field of the saved-program-status register: the target level and
/// stack selection the return-from-exception resumes with.
pub open spec fn spec_mode_bits(level: ExecutionLevel, select: StackSelect) -> u64 {
    match (level, select) {
        (ExecutionLevel::Level1, StackSelect::Dedicated) => 0x5,
        (ExecutionLevel::Level1, StackSelect::Shared) => 0x4,
        (ExecutionLevel::Level2, StackSelect::Dedicated) => 0x9,
        (ExecutionLevel::Level2, StackSelect::Shared) => 0x8,
    }
}

/// Image of the saved-program-status register for a typed status value.
pub open spec fn spec_status_bits(status: SavedProgramStatus) -> u64 {
    (if status.debug_masked {
        STATUS_DEBUG_BIT
    } else {
        0
    }) | (if status.async_abort_masked {
        STATUS_ASYNC_ABORT_BIT
    } else {
        0
    }) | (if status.irq_masked {
        STATUS_IRQ_BIT
    } else {
        0
    }) | (if status.fiq_masked {
        STATUS_FIQ_BIT
    } else {
        0
    }) | spec_mode_bits(status.target_level, status.stack_select)
}

/// Image of the counter control register: both direct-access bits set when
/// the runtime level may read the counters, clear otherwise.
pub open spec fn spec_counter_control_bits(direct_counter_access: bool) -> u64 {
    if direct_counter_access {
        COUNTER_TIMER_ACCESS_BIT | COUNTER_PHYSICAL_ACCESS_BIT
    } else {
        0
    }
}

/// Image of the hypervisor configuration register: the width bit alone.
pub open spec fn spec_hypervisor_control_bits(wide: bool) -> u64 {
    if wide {
        RUNTIME_WIDE_BIT
    } else {
        0
    }
}

/// Executable counterpart of [`spec_status_bits`].
pub fn status_bits(status: SavedProgramStatus) -> (bits: u64)
    ensures
        bits == spec_status_bits(status),
{
    let mode: u64 = match (status.target_level, status.stack_select) {
        (ExecutionLevel::Level1, StackSelect::Dedicated) => 0x5,
        (ExecutionLevel::Level1, StackSelect::Shared) => 0x4,
        (ExecutionLevel::Level2, StackSelect::Dedicated) => 0x9,
        (ExecutionLevel::Level2, StackSelect::Shared) => 0x8,
    };
    (if status.debug_masked {
        STATUS_DEBUG_BIT
    } else {
        0
    }) | (if status.async_abort_masked {
        STATUS_ASYNC_ABORT_BIT
    } else {
        0
    }) | (if status.irq_masked {
        STATUS_IRQ_BIT
    } else {
        0
    }) | (if status.fiq_masked {
        STATUS_FIQ_BIT
    } else {
        0
    }) | mode
}

/// Executable counterpart of [`spec_counter_control_bits`], on the typed
/// counter configuration.
pub fn counter_control_bits(config: TimerCounterConfig) -> (bits: u64)
    ensures
        bits == spec_counter_control_bits(config.direct_counter_access),
{
    if config.direct_counter_access {
        COUNTER_TIMER_ACCESS_BIT | COUNTER_PHYSICAL_ACCESS_BIT
    } else {
        0
    }
}

/// Executable counterpart of [`spec_hypervisor_control_bits`].
pub fn hypervisor_control_bits(wide: bool) -> (bits: u64)
    ensures
        bits == spec_hypervisor_control_bits(wide),
{
    if wide {
        RUNTIME_WIDE_BIT
    } else {
        0
    }
}

} // verus!

//! Core identification and reset dispatch.

use kernel_boot::boot::boot_dispatch;
use kernel_boot::boot::core_id;
use kernel_boot::boot::BootDecision;
use kernel_boot::boot::ExecutionLevel;
use kernel_boot::boot::BOOT_CORE_ID;

#[test]
fn identifies_core_from_affinity_bits() {
    assert_eq!(core_id(0), 0);
    assert_eq!(core_id(1), 1);
    assert_eq!(core_id(2), 2);
    // Affinity bits above the core field do not change the identifier.
    assert_eq!(core_id(0x8000_0003), 3);
    assert_eq!(core_id(0xFFFF_FFFF_FFFF_FFFC), 0);
}

#[test]
fn identification_is_idempotent_within_a_run() {
    // Within one run a core's affinity register never changes, so repeated
    // identification of the same core yields the same identifier.
    let affinity: u64 = 0x8000_0001;
    let first = core_id(affinity);
    let second = core_id(affinity);
    let third = core_id(affinity);
    assert_eq!(first, second);
    assert_eq!(second, third);
}

#[test]
fn boot_core_at_elevated_level_enters_kernel() {
    assert_eq!(
        boot_dispatch(BOOT_CORE_ID, ExecutionLevel::Level2),
        BootDecision::EnterKernel
    );
}

#[test]
fn non_boot_cores_always_park() {
    for core in 1..8u64 {
        assert_eq!(boot_dispatch(core, ExecutionLevel::Level2), BootDecision::Park);
        assert_eq!(boot_dispatch(core, ExecutionLevel::Level1), BootDecision::Park);
    }
}

#[test]
fn boot_core_at_runtime_level_parks() {
    assert_eq!(boot_dispatch(BOOT_CORE_ID, ExecutionLevel::Level1), BootDecision::Park);
}

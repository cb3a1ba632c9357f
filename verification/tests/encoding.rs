//! Register bit images.

use kernel_boot::boot::ExecutionLevel;
use kernel_boot::encoding::counter_control_bits;
use kernel_boot::encoding::hypervisor_control_bits;
use kernel_boot::encoding::status_bits;
use kernel_boot::machine::SavedProgramStatus;
use kernel_boot::machine::StackSelect;
use kernel_boot::machine::TimerCounterConfig;
use kernel_boot::transition::build_frame;

#[test]
fn frame_status_image_masks_everything_and_selects_runtime_stack() {
    // Debug, async abort, IRQ and FIQ masked, runtime level on its
    // dedicated stack: bits 9..6 set plus mode 0b0101.
    let frame = build_frame(0x8_0000, 0x7_0000);
    assert_eq!(status_bits(frame.status), 0x3C5);
}

#[test]
fn status_image_reflects_each_mask_bit() {
    let base = SavedProgramStatus {
        debug_masked: false,
        async_abort_masked: false,
        irq_masked: false,
        fiq_masked: false,
        target_level: ExecutionLevel::Level1,
        stack_select: StackSelect::Shared,
    };
    assert_eq!(status_bits(base), 0x4);
    let mut status = base;
    status.fiq_masked = true;
    assert_eq!(status_bits(status), 0x44);
    status.irq_masked = true;
    assert_eq!(status_bits(status), 0xC4);
    status.stack_select = StackSelect::Dedicated;
    assert_eq!(status_bits(status), 0xC5);
}

#[test]
fn counter_control_image_grants_both_direct_access_bits() {
    let granted = TimerCounterConfig { direct_counter_access: true, virtual_counter_offset: 0 };
    let withheld = TimerCounterConfig { direct_counter_access: false, virtual_counter_offset: 0 };
    assert_eq!(counter_control_bits(granted), 0b11);
    assert_eq!(counter_control_bits(withheld), 0);
}

#[test]
fn hypervisor_control_image_is_the_width_bit() {
    assert_eq!(hypervisor_control_bits(true), 1 << 31);
    assert_eq!(hypervisor_control_bits(false), 0);
}

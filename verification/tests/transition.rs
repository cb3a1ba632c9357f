//! The privilege transition engine and the register model.

use kernel_boot::boot::ExecutionLevel;
use kernel_boot::machine::apply_plan;
use kernel_boot::machine::MachineState;
use kernel_boot::machine::RegisterOp;
use kernel_boot::machine::SavedProgramStatus;
use kernel_boot::machine::StackSelect;
use kernel_boot::machine::TimerCounterConfig;
use kernel_boot::transition::build_frame;
use kernel_boot::transition::enter_kernel;
use kernel_boot::transition::reset_dispatch;

const HANDOFF_ENTRY: u64 = 0x0008_0000;
const STACK_TOP: u64 = 0x0007_0000;

/// A state full of reset-time garbage: nothing the transition relies on.
fn scrambled_reset_state() -> MachineState {
    MachineState {
        level: ExecutionLevel::Level2,
        timer: TimerCounterConfig { direct_counter_access: false, virtual_counter_offset: 7 },
        runtime_level_wide: false,
        saved_status: SavedProgramStatus {
            debug_masked: false,
            async_abort_masked: false,
            irq_masked: false,
            fiq_masked: false,
            target_level: ExecutionLevel::Level2,
            stack_select: StackSelect::Shared,
        },
        resume_address: 0xDEAD,
        dedicated_stack_pointer: 0,
        program_counter: 0x1234,
        active_stack_pointer: 0xAAAA,
    }
}

#[test]
fn frame_masks_everything_and_selects_dedicated_stack() {
    let frame = build_frame(HANDOFF_ENTRY, STACK_TOP);
    assert!(frame.status.debug_masked);
    assert!(frame.status.async_abort_masked);
    assert!(frame.status.irq_masked);
    assert!(frame.status.fiq_masked);
    assert_eq!(frame.status.target_level, ExecutionLevel::Level1);
    assert_eq!(frame.status.stack_select, StackSelect::Dedicated);
    assert_eq!(frame.resume_address, HANDOFF_ENTRY);
    assert_eq!(frame.stack_top, STACK_TOP);
}

#[test]
fn transition_issues_exactly_one_return_from_exception() {
    let plan = enter_kernel(HANDOFF_ENTRY, STACK_TOP);
    let mut returns: usize = 0;
    for op in plan.iter() {
        if matches!(op, RegisterOp::ReturnFromException) {
            returns += 1;
        }
    }
    assert_eq!(returns, 1);
    // It is the final operation: nothing runs at the elevated level after it.
    assert!(matches!(plan.last(), Some(RegisterOp::ReturnFromException)));
    assert_eq!(plan.len(), 6);
}

#[test]
fn transition_lands_at_runtime_level_with_installed_stack() {
    let plan = enter_kernel(HANDOFF_ENTRY, STACK_TOP);
    let handed = apply_plan(scrambled_reset_state(), &plan);
    assert_eq!(handed.level, ExecutionLevel::Level1);
    assert_eq!(handed.program_counter, HANDOFF_ENTRY);
    // The stack-pointer value the handoff observes is the installed one.
    assert_eq!(handed.active_stack_pointer, STACK_TOP);
    assert_eq!(handed.dedicated_stack_pointer, STACK_TOP);
    assert!(handed.saved_status.debug_masked);
    assert!(handed.saved_status.async_abort_masked);
    assert!(handed.saved_status.irq_masked);
    assert!(handed.saved_status.fiq_masked);
    assert!(handed.timer.direct_counter_access);
    assert_eq!(handed.timer.virtual_counter_offset, 0);
    assert!(handed.runtime_level_wide);
}

#[test]
fn handoff_is_independent_of_reset_garbage() {
    let plan = enter_kernel(HANDOFF_ENTRY, STACK_TOP);
    let from_scrambled = apply_plan(scrambled_reset_state(), &plan);
    let mut other = scrambled_reset_state();
    other.resume_address = 0xBEEF;
    other.active_stack_pointer = 0x5555;
    other.timer = TimerCounterConfig { direct_counter_access: true, virtual_counter_offset: 99 };
    let from_other = apply_plan(other, &plan);
    assert_eq!(from_scrambled, from_other);
}

#[test]
fn scenario_boot_core_transition_hands_off_once() {
    // Boot core at the elevated level, identifiers match: the transition
    // succeeds and the runtime handoff is reached exactly once, at the
    // runtime level.
    let plan = reset_dispatch(0, ExecutionLevel::Level2, HANDOFF_ENTRY, STACK_TOP);
    assert_eq!(plan.len(), 6);
    let mut returns: usize = 0;
    for op in plan.iter() {
        if matches!(op, RegisterOp::ReturnFromException) {
            returns += 1;
        }
    }
    assert_eq!(returns, 1);
    let handed = apply_plan(scrambled_reset_state(), &plan);
    assert_eq!(handed.level, ExecutionLevel::Level1);
    assert_eq!(handed.program_counter, HANDOFF_ENTRY);
}

#[test]
fn scenario_non_boot_core_parks_and_touches_nothing() {
    // A non-boot core at the elevated level parks forever: it performs no
    // register operation and the machine state is exactly as it found it.
    let plan = reset_dispatch(1, ExecutionLevel::Level2, HANDOFF_ENTRY, STACK_TOP);
    assert!(plan.is_empty());
    let before = scrambled_reset_state();
    let after = apply_plan(before, &plan);
    assert_eq!(after, before);
}

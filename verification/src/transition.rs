//! The privilege transition engine.
//!
//! On the boot core at the elevated level, the engine configures counter
//! access for the runtime level, selects its 64-bit instruction width, builds
//! the synthetic exception frame, and issues the single return-from-exception
//! that drops to the runtime level. The engine is expressed here as the exact
//! sequence of register operations to perform; the hardware shell around the
//! crate carries them out one by one, in order, with nothing in between.

use vstd::prelude::*;

use crate::boot::BootDecision;
use crate::boot::CoreId;
use crate::boot::ExecutionLevel;
use crate::boot::boot_dispatch;
use crate::boot::spec_boot_decision;
use crate::machine::MachineState;
use crate::machine::RegisterOp;
use crate::machine::SavedProgramStatus;
use crate::machine::StackSelect;
use crate::machine::SyntheticExceptionFrame;
use crate::machine::TimerCounterConfig;
use crate::machine::apply_from;
use crate::machine::apply_program;
use crate::machine::return_count;
use crate::machine::return_count_from;

verus! {

/// The one counter configuration this layer installs: the runtime level may
/// read the counters directly, with a zero offset on virtual counter reads.
pub open spec fn timer_direct_access() -> TimerCounterConfig {
    TimerCounterConfig { direct_counter_access: true, virtual_counter_offset: 0 }
}

/// The saved status the frame carries: every maskable interrupt class masked
/// — no exception handling exists yet at the runtime level — targeting the
/// runtime level on its dedicated stack.
pub open spec fn masked_runtime_status() -> SavedProgramStatus {
    SavedProgramStatus {
        debug_masked: true,
        async_abort_masked: true,
        irq_masked: true,
        fiq_masked: true,
        target_level: ExecutionLevel::Level1,
        stack_select: StackSelect::Dedicated,
    }
}

/// The frame the engine assembles for a given handoff entry point and
/// exclusively-owned stack top.
pub open spec fn spec_frame(handoff_entry: u64, stack_top: u64) -> SyntheticExceptionFrame {
    SyntheticExceptionFrame {
        status: masked_runtime_status(),
        resume_address: handoff_entry,
        stack_top: stack_top,
    }
}

/// Assembles the synthetic exception frame field by field: all interrupt
/// classes masked, runtime level on its dedicated stack, resuming at the
/// externally supplied handoff entry with the externally supplied stack top.
pub fn build_frame(handoff_entry: u64, stack_top: u64) -> (frame: SyntheticExceptionFrame)
    ensures
        frame == spec_frame(handoff_entry, stack_top),
        frame.well_formed(),
        frame.resume_address == handoff_entry,
        frame.stack_top == stack_top,
{
    SyntheticExceptionFrame {
        status: SavedProgramStatus {
            debug_masked: true,
            async_abort_masked: true,
            irq_masked: true,
            fiq_masked: true,
            target_level: ExecutionLevel::Level1,
            stack_select: StackSelect::Dedicated,
        },
        resume_address: handoff_entry,
        stack_top: stack_top,
    }
}

/// The engine's fixed operation sequence for a frame: configure counter
/// access, select the 64-bit width, write the saved status, the resume
/// address and the dedicated stack pointer, then return from exception.
pub open spec fn transition_plan(frame: SyntheticExceptionFrame) -> Seq<RegisterOp> {
    seq![
        RegisterOp::SetTimerControl { config: timer_direct_access() },
        RegisterOp::SetRuntimeLevelWide { wide: true },
        RegisterOp::SetSavedStatus { status: frame.status },
        RegisterOp::SetResumeAddress { address: frame.resume_address },
        RegisterOp::SetDedicatedStackPointer { address: frame.stack_top },
        RegisterOp::ReturnFromException,
    ]
}

/// The state the boot core hands to the runtime: executing at the handoff
/// entry, at the runtime level, on the installed stack top, with every
/// interrupt class masked and counter access configured.
pub open spec fn handed_off_state(handoff_entry: u64, stack_top: u64) -> MachineState {
    MachineState {
        level: ExecutionLevel::Level1,
        timer: timer_direct_access(),
        runtime_level_wide: true,
        saved_status: masked_runtime_status(),
        resume_address: handoff_entry,
        dedicated_stack_pointer: stack_top,
        program_counter: handoff_entry,
        active_stack_pointer: stack_top,
    }
}

/// The transition issues exactly one return-from-exception, and it is the
/// final operation of the plan: nothing runs at the elevated level after it.
pub proof fn lemma_transition_single_return(frame: SyntheticExceptionFrame)
    ensures
        transition_plan(frame).len() == 6,
        return_count(transition_plan(frame)) == 1,
        transition_plan(frame).last() is ReturnFromException,
{
    reveal_with_fuel(return_count_from, 8);
}

/// Performing the whole plan from any starting state lands in the handed-off
/// state: runtime level, executing at the handoff entry, and — the stack
/// handoff — the stack-pointer value the resumed code observes is exactly the
/// stack top that was installed.
pub proof fn lemma_transition_reaches_runtime(
    handoff_entry: u64,
    stack_top: u64,
    start: MachineState,
)
    ensures
        apply_program(start, transition_plan(spec_frame(handoff_entry, stack_top)))
            == handed_off_state(handoff_entry, stack_top),
        handed_off_state(handoff_entry, stack_top).level is Level1,
        handed_off_state(handoff_entry, stack_top).program_counter == handoff_entry,
        handed_off_state(handoff_entry, stack_top).active_stack_pointer == stack_top,
{
    reveal_with_fuel(apply_from, 8);
}

/// Steps of the engine past the dispatch guard: build the frame and lay out
/// the register operations ending in the single return-from-exception. The
/// resulting plan drops any starting state to the runtime level, resuming at
/// `handoff_entry` on `stack_top`.
pub fn enter_kernel(handoff_entry: u64, stack_top: u64) -> (plan: Vec<RegisterOp>)
    ensures
        plan@ == transition_plan(spec_frame(handoff_entry, stack_top)),
        return_count(plan@) == 1,
        plan@.last() is ReturnFromException,
        forall|start: MachineState|
            apply_program(start, plan@) == handed_off_state(handoff_entry, stack_top),
{
    let frame = build_frame(handoff_entry, stack_top);
    let mut plan: Vec<RegisterOp> = Vec::new();
    plan.push(RegisterOp::SetTimerControl {
        config: TimerCounterConfig { direct_counter_access: true, virtual_counter_offset: 0 },
    });
    plan.push(RegisterOp::SetRuntimeLevelWide { wide: true });
    plan.push(RegisterOp::SetSavedStatus { status: frame.status });
    plan.push(RegisterOp::SetResumeAddress { address: frame.resume_address });
    plan.push(RegisterOp::SetDedicatedStackPointer { address: frame.stack_top });
    plan.push(RegisterOp::ReturnFromException);
    proof {
        assert(plan@ =~= transition_plan(spec_frame(handoff_entry, stack_top)));
        lemma_transition_single_return(spec_frame(handoff_entry, stack_top));
        assert forall|start: MachineState|
            apply_program(start, plan@) == handed_off_state(handoff_entry, stack_top) by {
            lemma_transition_reaches_runtime(handoff_entry, stack_top, start);
        };
    }
    plan
}

/// What the whole reset path performs on a given core: the full transition
/// plan on the boot core at the elevated level, nothing at all otherwise.
pub open spec fn boot_plan(
    core: CoreId,
    level: ExecutionLevel,
    handoff_entry: u64,
    stack_top: u64,
) -> Seq<RegisterOp> {
    if spec_boot_decision(core, level) is EnterKernel {
        transition_plan(spec_frame(handoff_entry, stack_top))
    } else {
        Seq::empty()
    }
}

/// The reset entry's computation: decide, then hand back the operations this
/// core must perform. Exactly one core — the boot core at the elevated level
/// — receives the transition plan; every other core receives an empty plan
/// and parks.
pub fn reset_dispatch(
    core: CoreId,
    level: ExecutionLevel,
    handoff_entry: u64,
    stack_top: u64,
) -> (plan: Vec<RegisterOp>)
    ensures
        plan@ == boot_plan(core, level, handoff_entry, stack_top),
        plan@.len() == 0 <==> spec_boot_decision(core, level) is Park,
{
    match boot_dispatch(core, level) {
        BootDecision::EnterKernel => enter_kernel(handoff_entry, stack_top),
        BootDecision::Park => Vec::new(),
    }
}

/// A parked core is silent: its plan is empty, so it performs no register
/// operation, issues no return-from-exception, and leaves the machine state
/// exactly as it found it.
pub proof fn lemma_parked_core_is_silent(
    core: CoreId,
    level: ExecutionLevel,
    handoff_entry: u64,
    stack_top: u64,
    start: MachineState,
)
    requires
        spec_boot_decision(core, level) is Park,
    ensures
        boot_plan(core, level, handoff_entry, stack_top).len() == 0,
        return_count(boot_plan(core, level, handoff_entry, stack_top)) == 0,
        apply_program(start, boot_plan(core, level, handoff_entry, stack_top)) == start,
{
}

} // verus!

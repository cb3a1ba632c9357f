//! The execution-level register model.
//!
//! The privilege transition touches a handful of architectural registers,
//! each through a single uncached, side-effecting operation. This module
//! gives those operations and the state they act on a plain representation:
//! a [`RegisterOp`] is one hardware operation, a [`MachineState`] is the
//! per-core state the operations read and write, and [`apply_op`] is the
//! architectural meaning of one operation. No concurrent writers exist: each
//! field is owned by exactly one core's boot path before any cross-core
//! signaling is set up.

use vstd::prelude::*;

use crate::boot::ExecutionLevel;

verus! {

/// Counter access granted to the lower level: a permission bit plus the
/// offset applied to virtual counter reads.
#[derive(Clone, Copy, PartialEq, Eq, Structural, Debug)]
pub struct TimerCounterConfig {
    /// Whether the runtime level may read the physical and virtual counters
    /// directly, without trapping to the elevated level.
    pub direct_counter_access: bool,
    /// Offset applied to virtual counter reads; fixed at zero here.
    pub virtual_counter_offset: u64,
}

impl TimerCounterConfig {
    /// The one configuration this layer installs: direct access, zero offset.
    pub open spec fn well_formed(self) -> bool {
        self.direct_counter_access && self.virtual_counter_offset == 0
    }
}

/// Which stack pointer the target level runs on after the return.
#[derive(Clone, Copy, PartialEq, Eq, Structural, Debug)]
pub enum StackSelect {
    /// The target level's own dedicated stack-pointer register.
    Dedicated,
    /// The stack pointer shared with the lowest level.
    Shared,
}

/// Contents of the saved-program-status register: the interrupt-mask bits and
/// the target level and stack selection that a return-from-exception resumes
/// with.
#[derive(Clone, Copy, PartialEq, Eq, Structural, Debug)]
pub struct SavedProgramStatus {
    /// Debug exceptions masked.
    pub debug_masked: bool,
    /// Asynchronous external aborts masked.
    pub async_abort_masked: bool,
    /// Ordinary interrupts masked.
    pub irq_masked: bool,
    /// Fast interrupts masked.
    pub fiq_masked: bool,
    /// Privilege tier that the return-from-exception resumes at.
    pub target_level: ExecutionLevel,
    /// Stack pointer the resumed code runs on.
    pub stack_select: StackSelect,
}

impl SavedProgramStatus {
    /// All four maskable interrupt classes are masked.
    pub open spec fn all_interrupts_masked(self) -> bool {
        &&& self.debug_masked
        &&& self.async_abort_masked
        &&& self.irq_masked
        &&& self.fiq_masked
    }
}

/// A hand-assembled saved-state record: processor status, resume address and
/// target stack-pointer value, requested via return-from-exception without a
/// genuine preceding exception. It exists only between construction and the
/// single return-from-exception that consumes it.
#[derive(Clone, Copy, PartialEq, Eq, Structural, Debug)]
pub struct SyntheticExceptionFrame {
    /// Saved processor status to restore on return.
    pub status: SavedProgramStatus,
    /// Address execution resumes at after the return.
    pub resume_address: u64,
    /// Value installed as the target level's dedicated stack pointer.
    pub stack_top: u64,
}

impl SyntheticExceptionFrame {
    /// The frame invariant: every maskable interrupt class masked — no
    /// exception handling exists yet at the runtime level — the target is the
    /// runtime level, and its dedicated stack is selected.
    pub open spec fn well_formed(self) -> bool {
        &&& self.status.all_interrupts_masked()
        &&& self.status.target_level is Level1
        &&& self.status.stack_select is Dedicated
    }
}

/// One single side-effecting hardware register operation of the boot path.
#[derive(Clone, Copy, PartialEq, Eq, Structural, Debug)]
pub enum RegisterOp {
    /// Grant the runtime level counter access with the given configuration.
    SetTimerControl { config: TimerCounterConfig },
    /// Select the 64-bit instruction width for the runtime level.
    SetRuntimeLevelWide { wide: bool },
    /// Write the saved-program-status register.
    SetSavedStatus { status: SavedProgramStatus },
    /// Write the resume-address register consumed by the return.
    SetResumeAddress { address: u64 },
    /// Write the runtime level's dedicated stack-pointer register.
    SetDedicatedStackPointer { address: u64 },
    /// Execute the return-from-exception: irreversible; control resumes at
    /// the saved status's target level, at the resume address, on the
    /// selected stack.
    ReturnFromException,
}

/// The per-core architectural state this layer touches. `program_counter`
/// and `active_stack_pointer` describe where the core is executing and which
/// stack value it observes; the remaining fields are the registers the boot
/// path writes.
#[derive(Clone, Copy, PartialEq, Eq, Structural, Debug)]
pub struct MachineState {
    /// Privilege tier the core currently executes at.
    pub level: ExecutionLevel,
    /// Counter access configuration for the runtime level.
    pub timer: TimerCounterConfig,
    /// Whether the runtime level executes with 64-bit instruction width.
    pub runtime_level_wide: bool,
    /// Saved-program-status register.
    pub saved_status: SavedProgramStatus,
    /// Resume-address register.
    pub resume_address: u64,
    /// The runtime level's dedicated stack-pointer register.
    pub dedicated_stack_pointer: u64,
    /// Address the core is executing at.
    pub program_counter: u64,
    /// Stack-pointer value the currently executing code observes.
    pub active_stack_pointer: u64,
}

/// Architectural meaning of one register operation: a pure transformer of the
/// per-core state. The return-from-exception moves the core to the saved
/// status's target level, resumes at the resume address, and — when the
/// dedicated stack is selected — makes the dedicated stack-pointer value the
/// one the resumed code observes.
pub open spec fn apply_op(s: MachineState, op: RegisterOp) -> MachineState {
    match op {
        RegisterOp::SetTimerControl { config } => MachineState { timer: config, ..s },
        RegisterOp::SetRuntimeLevelWide { wide } => MachineState { runtime_level_wide: wide, ..s },
        RegisterOp::SetSavedStatus { status } => MachineState { saved_status: status, ..s },
        RegisterOp::SetResumeAddress { address } => MachineState { resume_address: address, ..s },
        RegisterOp::SetDedicatedStackPointer { address } => MachineState {
            dedicated_stack_pointer: address,
            ..s
        },
        RegisterOp::ReturnFromException => MachineState {
            level: s.saved_status.target_level,
            program_counter: s.resume_address,
            active_stack_pointer: if s.saved_status.stack_select is Dedicated {
                s.dedicated_stack_pointer
            } else {
                s.active_stack_pointer
            },
            ..s
        },
    }
}

/// State after performing `ops[i..]` in order, starting from `s`.
pub open spec fn apply_from(s: MachineState, ops: Seq<RegisterOp>, i: nat) -> MachineState
    decreases ops.len() - i,
{
    if i < ops.len() {
        apply_from(apply_op(s, ops[i as int]), ops, i + 1)
    } else {
        s
    }
}

/// State after performing the whole operation sequence in order.
pub open spec fn apply_program(s: MachineState, ops: Seq<RegisterOp>) -> MachineState {
    apply_from(s, ops, 0)
}

/// Number of return-from-exception operations in `ops[i..]`.
pub open spec fn return_count_from(ops: Seq<RegisterOp>, i: nat) -> nat
    decreases ops.len() - i,
{
    if i < ops.len() {
        (if ops[i as int] is ReturnFromException {
            1nat
        } else {
            0nat
        }) + return_count_from(ops, i + 1)
    } else {
        0
    }
}

/// Number of return-from-exception operations in the whole sequence.
pub open spec fn return_count(ops: Seq<RegisterOp>) -> nat {
    return_count_from(ops, 0)
}

/// Executable counterpart of [`apply_op`]: steps the modeled state by one
/// operation.
pub fn apply_operation(s: MachineState, op: RegisterOp) -> (t: MachineState)
    ensures
        t == apply_op(s, op),
{
    match op {
        RegisterOp::SetTimerControl { config } => MachineState { timer: config, ..s },
        RegisterOp::SetRuntimeLevelWide { wide } => MachineState { runtime_level_wide: wide, ..s },
        RegisterOp::SetSavedStatus { status } => MachineState { saved_status: status, ..s },
        RegisterOp::SetResumeAddress { address } => MachineState { resume_address: address, ..s },
        RegisterOp::SetDedicatedStackPointer { address } => MachineState {
            dedicated_stack_pointer: address,
            ..s
        },
        RegisterOp::ReturnFromException => MachineState {
            level: s.saved_status.target_level,
            program_counter: s.resume_address,
            active_stack_pointer: if matches!(s.saved_status.stack_select, StackSelect::Dedicated) {
                s.dedicated_stack_pointer
            } else {
                s.active_stack_pointer
            },
            ..s
        },
    }
}

/// Executable counterpart of [`apply_program`]: performs every operation of
/// the plan, in order, on the modeled state.
pub fn apply_plan(s: MachineState, ops: &Vec<RegisterOp>) -> (t: MachineState)
    ensures
        t == apply_program(s, ops@),
{
    let mut current = s;
    let mut i: usize = 0;
    while i < ops.len()
        invariant
            i <= ops.len(),
            apply_from(current, ops@, i as nat) == apply_program(s, ops@),
        decreases ops.len() - i,
    {
        current = apply_operation(current, ops[i]);
        i = i + 1;
    }
    current
}

} // verus!

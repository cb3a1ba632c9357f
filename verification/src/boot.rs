//! Core identification and the reset-time dispatch decision.
//!
//! Every hardware thread runs the same reset path. Exactly one core — the
//! configured boot core, and only when it finds itself at the elevated
//! execution level — proceeds into the privilege transition; every other core
//! parks forever. Nothing precedes this decision: no stack exists yet.

use vstd::prelude::*;

verus! {

/// Stable numeric identifier of one hardware thread within one run.
pub type CoreId = u64;

/// The single core designated to perform kernel bring-up; all others park.
pub const BOOT_CORE_ID: u64 = 0;

/// Mask selecting the affinity bits that distinguish the cores present on
/// this machine from the raw multiprocessor-affinity register value.
pub const CORE_AFFINITY_MASK: u64 = 3;

/// The two processor privilege tiers this layer models. Only the downward
/// move from `Level2` to `Level1` exists; there is no path back up.
#[derive(Clone, Copy, PartialEq, Eq, Structural, Debug)]
pub enum ExecutionLevel {
    /// Elevated, boot-adjacent tier the boot core wakes up in.
    Level2,
    /// Kernel runtime tier that the transition drops to.
    Level1,
}

/// The total outcome of reset dispatch: each core does exactly one of these.
#[derive(Clone, Copy, PartialEq, Eq, Structural, Debug)]
pub enum BootDecision {
    /// Proceed into the privilege transition engine.
    EnterKernel,
    /// Repeated low-power wait with no exit condition.
    Park,
}

/// The identifier a core derives from its affinity register value.
pub open spec fn spec_core_id(affinity: u64) -> CoreId {
    affinity & CORE_AFFINITY_MASK
}

/// What reset dispatch decides for a core: enter the kernel exactly when the
/// identifier matches the boot core and the core sits at the elevated level.
pub open spec fn spec_boot_decision(core: CoreId, level: ExecutionLevel) -> BootDecision {
    if core == BOOT_CORE_ID && level is Level2 {
        BootDecision::EnterKernel
    } else {
        BootDecision::Park
    }
}

/// Core identification: derives the stable per-thread identifier from the
/// affinity register value the caller read. Pure, total, and free of any
/// stack-dependent state, so it is safe before a stack exists.
pub fn core_id(affinity: u64) -> (id: CoreId)
    ensures
        id == spec_core_id(affinity),
        id <= CORE_AFFINITY_MASK,
{
    proof {
        assert(affinity & 3 <= 3) by (bit_vector);
    }
    affinity & CORE_AFFINITY_MASK
}

/// Boot dispatch: the single decision taken at reset, with no side effect
/// before it. Exactly one of the two outcomes is returned, and `EnterKernel`
/// comes back precisely for the boot core at the elevated level.
pub fn boot_dispatch(core: CoreId, level: ExecutionLevel) -> (decision: BootDecision)
    ensures
        decision == spec_boot_decision(core, level),
        decision is EnterKernel <==> (core == BOOT_CORE_ID && level is Level2),
{
    if core == BOOT_CORE_ID && level == ExecutionLevel::Level2 {
        BootDecision::EnterKernel
    } else {
        BootDecision::Park
    }
}

/// Every core whose identifier differs from the boot core parks, whatever
/// level it wakes up at; it never reaches the privilege transition engine.
pub proof fn lemma_non_boot_core_parks(core: CoreId, level: ExecutionLevel)
    requires
        core != BOOT_CORE_ID,
    ensures
        spec_boot_decision(core, level) is Park,
{
}

/// Core identification is deterministic: within one run the affinity register
/// of a physical core never changes, so repeated identification of the same
/// core — equal register reads — always yields the same identifier.
pub proof fn lemma_core_id_stable(first_read: u64, second_read: u64)
    requires
        first_read == second_read,
    ensures
        spec_core_id(first_read) == spec_core_id(second_read),
{
}

} // verus!

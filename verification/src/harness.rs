//! The fault verification harness.
//!
//! Once the privilege transition is done, this protocol validates that memory
//! protection and synchronous-exception delivery are correctly wired, without
//! relying on the very subsystems under test: bring up the console
//! (best-effort), enable protection, bring up the fixed priority-ordered
//! early drivers, then deliberately read an address far outside any mapped
//! region. If the read diverts into synchronous-exception handling, the
//! external handler signals success; if it completes normally, the harness
//! falls through to an explicit failure signal — its self-check that the
//! fault was not silently ignored.
//!
//! The harness is a state machine: the environment performs the pending
//! action of each state and answers with an event; [`spec_step`] is the
//! transition function. Every run is boot-time and one-shot: terminal states
//! absorb every further event, and nothing is retried.

use vstd::prelude::*;

verus! {

/// Address of the deliberate out-of-range read: 9 GiB, far beyond any
/// installed memory.
pub const FAULT_INJECTION_ADDRESS: u64 = 9 * 1024 * 1024 * 1024;

/// Two-valued, irreversible termination signal consumed by the host test
/// runner; its encoding is host-specific and lives outside this crate.
#[derive(Clone, Copy, PartialEq, Eq, Structural, Debug)]
pub enum TerminationSignal {
    Success,
    Failure,
}

/// Which failure the harness reports; the two causes are distinguished in
/// observable output.
#[derive(Clone, Copy, PartialEq, Eq, Structural, Debug)]
pub enum FailureCause {
    /// The external protection-enable operation returned an error.
    ProtectionSetup,
    /// The deliberate invalid read completed instead of faulting.
    FaultNotDetected,
}

/// States of the harness protocol, in the order a fully successful run
/// passes through them, plus the four terminal outcomes.
#[derive(Clone, Copy, PartialEq, Eq, Structural, Debug)]
pub enum HarnessState {
    /// Nothing brought up yet; pending: the minimal output driver.
    Init,
    /// Console attempt finished — failure tolerated, output is best-effort
    /// diagnostics only; pending: the protection-enable operation.
    ConsoleUp,
    /// Protection enabled and the first `drivers_ready` early drivers up;
    /// pending: initialization of driver `drivers_ready`.
    ProtectionEnabled { drivers_ready: usize },
    /// Every early driver up; pending: the deliberate invalid read.
    EarlyDriversUp,
    /// Terminal: the read diverted into synchronous-exception handling.
    /// Control left through the external handler, which signals success;
    /// the harness's own failure path is never reached.
    Diverted,
    /// Terminal: the read completed normally. The harness falls through and
    /// reports the missed fault, signaling failure.
    NotDiverted,
    /// Terminal: protection enable failed. The harness reports the cause and
    /// signals failure without ever attempting fault injection.
    Aborted,
    /// Terminal: an early driver failed before output was trustworthy. The
    /// core parks silently; no termination signal is ever produced.
    Parked,
}

/// Answers the environment hands back after performing a pending action.
#[derive(Clone, Copy, PartialEq, Eq, Structural, Debug)]
pub enum HarnessEvent {
    /// Outcome of bringing up the minimal output driver.
    ConsoleResult { ok: bool },
    /// Outcome of the external protection-enable operation.
    ProtectionResult { ok: bool },
    /// Outcome of initializing the pending early driver.
    DriverResult { ok: bool },
    /// Whether the deliberate read diverted into synchronous-exception
    /// handling instead of completing.
    ReadOutcome { diverted: bool },
}

/// Actions the environment performs on the harness's behalf.
#[derive(Clone, Copy, PartialEq, Eq, Structural, Debug)]
pub enum HarnessAction {
    /// Bring up the minimal output driver.
    BringUpConsole,
    /// Invoke the external protection-enable operation.
    EnableProtection,
    /// Initialize early driver `index` of the fixed priority-ordered list.
    InitDriver { index: usize },
    /// Perform one non-caching, side-effect-visible read at `address`.
    InjectFault { address: u64 },
    /// Print the diagnostic for `cause` and signal failure.
    ReportFailure { cause: FailureCause },
    /// Park the core: repeated low-power wait, no exit condition.
    Park,
}

/// The four states no event leaves.
pub open spec fn is_terminal(s: HarnessState) -> bool {
    s is Diverted || s is NotDiverted || s is Aborted || s is Parked
}

/// A state is consistent with a driver count when its progress index lies
/// inside the driver list.
pub open spec fn state_wf(s: HarnessState, driver_count: usize) -> bool {
    s matches HarnessState::ProtectionEnabled { drivers_ready } ==> drivers_ready < driver_count
}

/// The harness transition function. An event a state does not expect leaves
/// the state unchanged, and terminal states absorb every event: each run is
/// one-shot.
pub open spec fn spec_step(
    s: HarnessState,
    driver_count: usize,
    event: HarnessEvent,
) -> HarnessState {
    match s {
        HarnessState::Init => match event {
            // Console failure is tolerated: output stays best-effort.
            HarnessEvent::ConsoleResult { .. } => HarnessState::ConsoleUp,
            _ => s,
        },
        HarnessState::ConsoleUp => match event {
            HarnessEvent::ProtectionResult { ok } => if !ok {
                HarnessState::Aborted
            } else if driver_count == 0 {
                HarnessState::EarlyDriversUp
            } else {
                HarnessState::ProtectionEnabled { drivers_ready: 0 }
            },
            _ => s,
        },
        HarnessState::ProtectionEnabled { drivers_ready } => match event {
            HarnessEvent::DriverResult { ok } => if !ok {
                HarnessState::Parked
            } else if drivers_ready + 1 == driver_count {
                HarnessState::EarlyDriversUp
            } else {
                HarnessState::ProtectionEnabled { drivers_ready: (drivers_ready + 1) as usize }
            },
            _ => s,
        },
        HarnessState::EarlyDriversUp => match event {
            HarnessEvent::ReadOutcome { diverted } => if diverted {
                HarnessState::Diverted
            } else {
                HarnessState::NotDiverted
            },
            _ => s,
        },
        _ => s,
    }
}

/// The action pending in a state, if any. `Diverted` has none: control
/// already left through the external exception handler.
pub open spec fn spec_action(s: HarnessState) -> Option<HarnessAction> {
    match s {
        HarnessState::Init => Some(HarnessAction::BringUpConsole),
        HarnessState::ConsoleUp => Some(HarnessAction::EnableProtection),
        HarnessState::ProtectionEnabled { drivers_ready } => Some(
            HarnessAction::InitDriver { index: drivers_ready },
        ),
        HarnessState::EarlyDriversUp => Some(
            HarnessAction::InjectFault { address: FAULT_INJECTION_ADDRESS },
        ),
        HarnessState::Diverted => None,
        HarnessState::NotDiverted => Some(
            HarnessAction::ReportFailure { cause: FailureCause::FaultNotDetected },
        ),
        HarnessState::Aborted => Some(
            HarnessAction::ReportFailure { cause: FailureCause::ProtectionSetup },
        ),
        HarnessState::Parked => Some(HarnessAction::Park),
    }
}

/// The termination signal a run ends with in a state, if any. A parked core
/// is silent: it produces no signal at all.
pub open spec fn spec_signal(s: HarnessState) -> Option<TerminationSignal> {
    match s {
        HarnessState::Diverted => Some(TerminationSignal::Success),
        HarnessState::NotDiverted => Some(TerminationSignal::Failure),
        HarnessState::Aborted => Some(TerminationSignal::Failure),
        _ => None,
    }
}

/// Executable counterpart of [`spec_step`].
pub fn harness_step(s: HarnessState, driver_count: usize, event: HarnessEvent) -> (next:
    HarnessState)
    requires
        state_wf(s, driver_count),
    ensures
        next == spec_step(s, driver_count, event),
        state_wf(next, driver_count),
{
    match s {
        HarnessState::Init => match event {
            HarnessEvent::ConsoleResult { .. } => HarnessState::ConsoleUp,
            _ => s,
        },
        HarnessState::ConsoleUp => match event {
            HarnessEvent::ProtectionResult { ok } => if !ok {
                HarnessState::Aborted
            } else if driver_count == 0 {
                HarnessState::EarlyDriversUp
            } else {
                HarnessState::ProtectionEnabled { drivers_ready: 0 }
            },
            _ => s,
        },
        HarnessState::ProtectionEnabled { drivers_ready } => match event {
            HarnessEvent::DriverResult { ok } => if !ok {
                HarnessState::Parked
            } else if drivers_ready + 1 == driver_count {
                HarnessState::EarlyDriversUp
            } else {
                HarnessState::ProtectionEnabled { drivers_ready: drivers_ready + 1 }
            },
            _ => s,
        },
        HarnessState::EarlyDriversUp => match event {
            HarnessEvent::ReadOutcome { diverted } => if diverted {
                HarnessState::Diverted
            } else {
                HarnessState::NotDiverted
            },
            _ => s,
        },
        _ => s,
    }
}

/// Executable counterpart of [`spec_action`].
pub fn pending_action(s: HarnessState) -> (action: Option<HarnessAction>)
    ensures
        action == spec_action(s),
{
    match s {
        HarnessState::Init => Some(HarnessAction::BringUpConsole),
        HarnessState::ConsoleUp => Some(HarnessAction::EnableProtection),
        HarnessState::ProtectionEnabled { drivers_ready } => Some(
            HarnessAction::InitDriver { index: drivers_ready },
        ),
        HarnessState::EarlyDriversUp => Some(
            HarnessAction::InjectFault { address: FAULT_INJECTION_ADDRESS },
        ),
        HarnessState::Diverted => None,
        HarnessState::NotDiverted => Some(
            HarnessAction::ReportFailure { cause: FailureCause::FaultNotDetected },
        ),
        HarnessState::Aborted => Some(
            HarnessAction::ReportFailure { cause: FailureCause::ProtectionSetup },
        ),
        HarnessState::Parked => Some(HarnessAction::Park),
    }
}

/// Executable counterpart of [`spec_signal`].
pub fn expected_signal(s: HarnessState) -> (signal: Option<TerminationSignal>)
    ensures
        signal == spec_signal(s),
{
    match s {
        HarnessState::Diverted => Some(TerminationSignal::Success),
        HarnessState::NotDiverted => Some(TerminationSignal::Failure),
        HarnessState::Aborted => Some(TerminationSignal::Failure),
        _ => None,
    }
}

/// Executable counterpart of [`is_terminal`].
pub fn reached_terminal(s: HarnessState) -> (b: bool)
    ensures
        b == is_terminal(s),
{
    match s {
        HarnessState::Diverted => true,
        HarnessState::NotDiverted => true,
        HarnessState::Aborted => true,
        HarnessState::Parked => true,
        _ => false,
    }
}

/// State after feeding the harness `events[i..]` in order, starting from `s`.
pub open spec fn run_events_from(
    s: HarnessState,
    driver_count: usize,
    events: Seq<HarnessEvent>,
    i: nat,
) -> HarnessState
    decreases events.len() - i,
{
    if i < events.len() {
        run_events_from(spec_step(s, driver_count, events[i as int]), driver_count, events, i + 1)
    } else {
        s
    }
}

/// State after feeding the harness the whole event sequence in order.
pub open spec fn run_events(
    s: HarnessState,
    driver_count: usize,
    events: Seq<HarnessEvent>,
) -> HarnessState {
    run_events_from(s, driver_count, events, 0)
}

/// Terminal states are truly terminal: no sequence of later events moves the
/// harness out of one. Every run is boot-time and one-shot.
pub proof fn lemma_terminal_absorbs(s: HarnessState, driver_count: usize, events: Seq<
    HarnessEvent,
>)
    requires
        is_terminal(s),
    ensures
        run_events(s, driver_count, events) == s,
{
    lemma_terminal_absorbs_from(s, driver_count, events, 0);
}

proof fn lemma_terminal_absorbs_from(
    s: HarnessState,
    driver_count: usize,
    events: Seq<HarnessEvent>,
    i: nat,
)
    requires
        is_terminal(s),
    ensures
        run_events_from(s, driver_count, events, i) == s,
    decreases events.len() - i,
{
    if i < events.len() {
        lemma_terminal_absorbs_from(s, driver_count, events, i + 1);
    }
}

/// Once the protection-enable operation fails, the harness is finished: it
/// moves to the aborted state, whose pending action reports the protection
/// cause and signals failure, and no continuation of the run ever performs
/// fault injection — the deliberate read is never attempted.
pub proof fn lemma_protection_failure_aborts(driver_count: usize, later: Seq<HarnessEvent>)
    ensures
        spec_step(
            HarnessState::ConsoleUp,
            driver_count,
            (HarnessEvent::ProtectionResult { ok: false }),
        ) is Aborted,
        run_events(HarnessState::Aborted, driver_count, later) is Aborted,
        spec_action(HarnessState::Aborted) == Some(
            (HarnessAction::ReportFailure { cause: FailureCause::ProtectionSetup }),
        ),
        spec_signal(HarnessState::Aborted) == Some(TerminationSignal::Failure),
{
    lemma_terminal_absorbs(HarnessState::Aborted, driver_count, later);
}

/// Fault injection is pending only in the fully-initialized state: a state
/// whose action is the deliberate read is `EarlyDriversUp` and nothing else.
pub proof fn lemma_only_ready_state_injects(s: HarnessState)
    ensures
        (spec_action(s) matches Some(action) && action is InjectFault) ==> s is EarlyDriversUp,
{
}

/// Whether every early driver initialized successfully.
pub open spec fn all_drivers_ok(drivers: Seq<bool>) -> bool {
    forall|i: int| 0 <= i < drivers.len() ==> drivers[i]
}

/// The terminal state one full run ends in, as a function of what the
/// environment answered. The console result is absent on purpose: console
/// failure is tolerated and never influences the outcome.
pub open spec fn spec_run_outcome(
    protection_ok: bool,
    drivers: Seq<bool>,
    read_diverted: bool,
) -> HarnessState {
    if !protection_ok {
        HarnessState::Aborted
    } else if !all_drivers_ok(drivers) {
        HarnessState::Parked
    } else if read_diverted {
        HarnessState::Diverted
    } else {
        HarnessState::NotDiverted
    }
}

/// Drives the harness from `Init` to its terminal state, given the answers
/// the environment produced for each pending action in protocol order.
pub fn run_harness(
    console_ok: bool,
    protection_ok: bool,
    drivers_ok: &Vec<bool>,
    read_diverted: bool,
) -> (outcome: HarnessState)
    ensures
        outcome == spec_run_outcome(protection_ok, drivers_ok@, read_diverted),
        is_terminal(outcome),
{
    let driver_count = drivers_ok.len();
    let mut state = harness_step(
        HarnessState::Init,
        driver_count,
        HarnessEvent::ConsoleResult { ok: console_ok },
    );
    state = harness_step(state, driver_count, HarnessEvent::ProtectionResult { ok: protection_ok });
    if !protection_ok {
        return state;
    }
    let mut i: usize = 0;
    while i < driver_count
        invariant
            i <= driver_count,
            driver_count == drivers_ok@.len(),
            protection_ok,
            forall|j: int| 0 <= j < i ==> drivers_ok@[j],
            state == (if i < driver_count {
                HarnessState::ProtectionEnabled { drivers_ready: i }
            } else {
                HarnessState::EarlyDriversUp
            }),
        decreases driver_count - i,
    {
        let ok = drivers_ok[i];
        state = harness_step(state, driver_count, HarnessEvent::DriverResult { ok });
        if !ok {
            proof {
                assert(!drivers_ok@[i as int]);
                assert(!all_drivers_ok(drivers_ok@));
            }
            return state;
        }
        i = i + 1;
    }
    state = harness_step(state, driver_count, HarnessEvent::ReadOutcome { diverted: read_diverted });
    state
}

} // verus!

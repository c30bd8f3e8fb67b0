//! Fault indicator: the diagnostic LED state machine.
//!
//! Exactly one diagnostic state is active at a time. Each state owns a
//! distinct toggle period, strictly ordered by severity so that a field
//! observer can classify a failure by blink frequency alone. Transitions
//! run one way, toward higher severity, with a single exception: the
//! indicator may cycle between `Running` and `WaitingForHost`, and only
//! before the main idle loop is reached. `Panic` and `HardFault` absorb:
//! once entered, the machine never leaves them short of a physical reset.

use vstd::prelude::*;
use crate::registers::{
    GpioPortModel, SysCtlModel, diag_output_ready, minimal_diag_bringup, toggle_pins,
};

verus! {

/// Busy-wait iterations of one half blink cycle in the `Running` state.
pub const RUNNING_PERIOD: u32 = 10_000_000;

/// Half blink cycle while enumerated USB waits for a host.
pub const WAITING_FOR_HOST_PERIOD: u32 = 5_000_000;

/// Half blink cycle after the vendor driver refused to initialize.
pub const INIT_FAILED_PERIOD: u32 = 50_000;

/// Half blink cycle of the panic path.
pub const PANIC_PERIOD: u32 = 10_000;

/// Half blink cycle of the hardware-fault trap; as fast as the panic
/// pattern, the two mark the unrecoverable class.
pub const HARD_FAULT_PERIOD: u32 = 10_000;

/// The five observable system-health states.
#[derive(Clone, Copy, PartialEq, Eq, Structural, Debug)]
pub enum DiagnosticState {
    /// Normal operation: slow periodic toggle.
    Running,
    /// Bring-up done, bus connected, no host yet: steady blink.
    WaitingForHost,
    /// The vendor driver returned a null instance: fast blink.
    InitFailed,
    /// An internal invariant violation was detected: very fast blink.
    Panic,
    /// The CPU raised a fault trap: fastest blink.
    HardFault,
}

/// Toggle period a state programs into the indicator.
pub open spec fn spec_period(s: DiagnosticState) -> u32 {
    match s {
        DiagnosticState::Running => RUNNING_PERIOD,
        DiagnosticState::WaitingForHost => WAITING_FOR_HOST_PERIOD,
        DiagnosticState::InitFailed => INIT_FAILED_PERIOD,
        DiagnosticState::Panic => PANIC_PERIOD,
        DiagnosticState::HardFault => HARD_FAULT_PERIOD,
    }
}

/// Failure severity, rising from normal operation to the fault trap.
pub open spec fn severity(s: DiagnosticState) -> int {
    match s {
        DiagnosticState::Running => 0,
        DiagnosticState::WaitingForHost => 1,
        DiagnosticState::InitFailed => 2,
        DiagnosticState::Panic => 3,
        DiagnosticState::HardFault => 4,
    }
}

/// States the machine never leaves.
pub open spec fn is_terminal(s: DiagnosticState) -> bool {
    s == DiagnosticState::Panic || s == DiagnosticState::HardFault
}

/// The transition discipline: terminal states absorb; otherwise the
/// machine moves only toward equal or higher severity, except that it
/// may fall back from `WaitingForHost` to `Running` before the idle
/// loop has been reached.
pub open spec fn transition_allowed(
    from: DiagnosticState,
    to: DiagnosticState,
    idle_reached: bool,
) -> bool {
    if is_terminal(from) {
        to == from
    } else if severity(to) >= severity(from) {
        true
    } else {
        from == DiagnosticState::WaitingForHost && to == DiagnosticState::Running
            && !idle_reached
    }
}

/// Toggle period of a state.
pub fn period_of(s: DiagnosticState) -> (p: u32)
    ensures
        p == spec_period(s),
{
    match s {
        DiagnosticState::Running => RUNNING_PERIOD,
        DiagnosticState::WaitingForHost => WAITING_FOR_HOST_PERIOD,
        DiagnosticState::InitFailed => INIT_FAILED_PERIOD,
        DiagnosticState::Panic => PANIC_PERIOD,
        DiagnosticState::HardFault => HARD_FAULT_PERIOD,
    }
}

/// Blink periods classify severity: every step down the severity order
/// strictly slows the blink, and the two unrecoverable states share the
/// fastest period.
pub proof fn lemma_period_ordering()
    ensures
        spec_period(DiagnosticState::Running) > spec_period(DiagnosticState::WaitingForHost),
        spec_period(DiagnosticState::WaitingForHost) > spec_period(DiagnosticState::InitFailed),
        spec_period(DiagnosticState::InitFailed) > spec_period(DiagnosticState::Panic),
        spec_period(DiagnosticState::Panic) == spec_period(DiagnosticState::HardFault),
        forall|s: DiagnosticState| #[trigger] spec_period(s) > 0,
{
}

/// A terminal state allows no transition but to itself.
pub proof fn lemma_terminal_absorbs(
    from: DiagnosticState,
    to: DiagnosticState,
    idle_reached: bool,
)
    requires
        is_terminal(from),
        transition_allowed(from, to, idle_reached),
    ensures
        to == from,
{
}

/// The state after taking each transition of a chain in turn.
pub open spec fn chain_end(s0: DiagnosticState, steps: Seq<DiagnosticState>) -> DiagnosticState
    decreases steps.len(),
{
    if steps.len() == 0 {
        s0
    } else {
        chain_end(steps[0], steps.skip(1))
    }
}

/// Every transition of a chain is allowed from its predecessor.
pub open spec fn chain_allowed(
    s0: DiagnosticState,
    steps: Seq<DiagnosticState>,
    idle_reached: bool,
) -> bool
    decreases steps.len(),
{
    if steps.len() == 0 {
        true
    } else {
        transition_allowed(s0, steps[0], idle_reached)
            && chain_allowed(steps[0], steps.skip(1), idle_reached)
    }
}

/// Once a terminal state is entered, every allowed chain of transitions,
/// of any length, stays in it: the process never returns to normal
/// operation.
pub proof fn lemma_terminal_holds_forever(
    s0: DiagnosticState,
    steps: Seq<DiagnosticState>,
    idle_reached: bool,
)
    requires
        is_terminal(s0),
        chain_allowed(s0, steps, idle_reached),
    ensures
        chain_end(s0, steps) == s0,
    decreases steps.len(),
{
    if steps.len() > 0 {
        lemma_terminal_absorbs(s0, steps[0], idle_reached);
        lemma_terminal_holds_forever(steps[0], steps.skip(1), idle_reached);
    }
}

/// The diagnostic indicator: the active state, the toggle period it
/// programmed, the elapsed share of the current half cycle, and whether
/// the main idle loop has been reached.
#[derive(Clone, Copy, PartialEq, Eq, Structural, Debug)]
pub struct FaultIndicator {
    pub state: DiagnosticState,
    pub period: u32,
    pub elapsed: u32,
    pub idle_reached: bool,
}

impl FaultIndicator {
    /// The programmed period always matches the active state and the
    /// elapsed count stays inside the current half cycle.
    pub open spec fn wf(self) -> bool {
        &&& self.period == spec_period(self.state)
        &&& self.elapsed < self.period
    }

    /// A fresh indicator: bring-up is under way, counted as normal
    /// operation, idle loop not yet reached.
    pub fn new() -> (ind: FaultIndicator)
        ensures
            ind.wf(),
            ind.state == DiagnosticState::Running,
            !ind.idle_reached,
    {
        FaultIndicator {
            state: DiagnosticState::Running,
            period: RUNNING_PERIOD,
            elapsed: 0,
            idle_reached: false,
        }
    }

    /// Reprogram the indicator to a new state: only transitions the
    /// discipline allows, and the new period begins at once.
    pub fn set_state(&mut self, s: DiagnosticState)
        requires
            old(self).wf(),
            transition_allowed(old(self).state, s, old(self).idle_reached),
        ensures
            final(self).wf(),
            final(self).state == s,
            final(self).period == spec_period(s),
            final(self).elapsed == 0,
            final(self).idle_reached == old(self).idle_reached,
    {
        proof {
            lemma_period_ordering();
        }
        self.state = s;
        self.period = period_of(s);
        self.elapsed = 0;
    }

    /// Record that the main idle loop has been entered; from here on the
    /// fall-back from `WaitingForHost` to `Running` is closed.
    pub fn mark_idle_reached(&mut self)
        requires
            old(self).wf(),
        ensures
            final(self).wf(),
            final(self).state == old(self).state,
            final(self).period == old(self).period,
            final(self).elapsed == old(self).elapsed,
            final(self).idle_reached,
    {
        self.idle_reached = true;
    }

    /// One busy-wait step. The diagnostic pin inverts exactly when the
    /// elapsed count completes the programmed half cycle; in every other
    /// step the pin holds its level.
    pub fn tick(&mut self, port: &mut GpioPortModel)
        requires
            old(self).wf(),
        ensures
            final(self).wf(),
            final(self).state == old(self).state,
            final(self).period == old(self).period,
            final(self).idle_reached == old(self).idle_reached,
            if old(self).elapsed + 1 == old(self).period {
                final(self).elapsed == 0
                    && final(port).data == old(port).data ^ crate::DIAG_PIN_MASK
            } else {
                final(self).elapsed == old(self).elapsed + 1
                    && *final(port) == *old(port)
            },
            final(port).dir == old(port).dir,
            final(port).den == old(port).den,
            final(port).amsel == old(port).amsel,
    {
        if self.elapsed + 1 == self.period {
            self.elapsed = 0;
            toggle_pins(port, crate::DIAG_PIN_MASK);
        } else {
            self.elapsed = self.elapsed + 1;
        }
    }
}

/// The panic path: re-establish the minimal diagnostic bring-up, which
/// assumes nothing about earlier initialization, and halt the indicator
/// in the absorbing `Panic` state.
pub fn enter_panic(
    sys: &mut SysCtlModel,
    port: &mut GpioPortModel,
    ind: &mut FaultIndicator,
)
    requires
        old(ind).wf(),
        !is_terminal(old(ind).state),
    ensures
        final(ind).wf(),
        final(ind).state == DiagnosticState::Panic,
        final(ind).period == PANIC_PERIOD,
        diag_output_ready(*final(sys), *final(port)),
{
    minimal_diag_bringup(sys, port);
    ind.set_state(DiagnosticState::Panic);
}

/// The hardware-fault trap: the same minimal re-bring-up — it must work
/// even when the diagnostic pins were never configured — then halt in
/// the absorbing `HardFault` state. Nothing of the USB driver is
/// touched: the fault may have been raised inside it.
pub fn enter_hard_fault(
    sys: &mut SysCtlModel,
    port: &mut GpioPortModel,
    ind: &mut FaultIndicator,
)
    requires
        old(ind).wf(),
        !is_terminal(old(ind).state),
    ensures
        final(ind).wf(),
        final(ind).state == DiagnosticState::HardFault,
        final(ind).period == HARD_FAULT_PERIOD,
        diag_output_ready(*final(sys), *final(port)),
{
    minimal_diag_bringup(sys, port);
    ind.set_state(DiagnosticState::HardFault);
}

} // verus!

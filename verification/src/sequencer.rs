//! The bring-up sequencer.
//!
//! Bring-up is a strictly ordered, non-skippable chain of phases: clock
//! and pins for the diagnostic output, FPU lazy stacking, system clock
//! and tick timer, USB pins, the one-way device-mode commitment,
//! instance construction, interrupt registration, the vendor driver's
//! initialization, bus connect, and — last of all, because every earlier
//! phase programs state the interrupt handlers assume — the global
//! interrupt unmask. The driver's initialization is the one phase that
//! can fail (a null instance returned); failure drops the machine into
//! the absorbing `InitFailed` phase, never retried, cleared only by a
//! physical reset.

use vstd::prelude::*;
use crate::device::{
    InstanceSlot, UsbStackModel, usb_set_device_mode,
    NUM_STRING_DESCRIPTORS, USB_CONF_ATTR_SELF_PWR, USB_PID_SERIAL, USB_VID_TI_1CBE,
};
use crate::device::tUSBMode;
use crate::diagnostics::{DiagnosticState, FaultIndicator};
use crate::registers::{
    GpioPortModel, PinMode, SysCtlModel, await_gpio_ready, configure_pins, diag_output_ready,
    enable_gpio_clock, set_pins_low,
};

verus! {

/// GPIO port D carries the USB data pair.
pub const USB_PORT: u32 = 3;

/// Pins 4 and 5 of the USB port are the data pair.
pub const USB_PIN_MASK: u32 = 0x30;

/// System-clock configuration word: main oscillator, 16 MHz crystal,
/// PLL divided by four.
pub const SYSCTL_SYSDIV_4: u32 = 0x01C00000;
pub const SYSCTL_USE_PLL: u32 = 0x00000000;
pub const SYSCTL_OSC_MAIN: u32 = 0x00000000;
pub const SYSCTL_XTAL_16MHZ: u32 = 0x00000540;

/// The PLL target frequency the configuration word selects.
pub const PLL_SYSTEM_CLOCK_HZ: u32 = 50_000_000;

/// Tick-timer interrupts per second.
pub const SYSTICK_RATE_HZ: u32 = 100;

/// The phases of bring-up, in their one and only order.
#[derive(Clone, Copy, PartialEq, Eq, Structural, Debug)]
pub enum BringupPhase {
    /// Clock bring-up for the diagnostic output's port.
    DiagClockPending,
    /// Pin configuration for the diagnostic output.
    DiagPinsPending,
    /// FPU lazy-context-save enable.
    FpuPending,
    /// System clock to the PLL target, then the tick timer.
    SystemClockPending,
    /// Clock and pin bring-up for the USB data pair, analog mode.
    UsbPinsPending,
    /// Force the driver's mode flag to device-only.
    ModeCommitPending,
    /// Construct the device instance at its final storage address.
    InstancePending,
    /// Register the interrupt entry point with the driver's routing.
    InterruptRegistrationPending,
    /// Hand the instance to the driver's initialization entry point.
    DriverInitPending,
    /// Make the device visible on the bus.
    BusConnectPending,
    /// Globally unmask interrupts: the final commit.
    InterruptEnablePending,
    /// The idle health loop: bring-up succeeded.
    Idle,
    /// The driver returned a null instance: halt, reset required.
    InitFailed,
}

/// What the shell must perform for each phase.
#[derive(Clone, Copy, PartialEq, Eq, Structural, Debug)]
pub enum BringupAction {
    EnableDiagClock,
    ConfigureDiagPins,
    EnableFpu,
    ConfigureSystemClock,
    ConfigureUsbPins,
    CommitDeviceMode,
    ConstructInstance,
    RegisterInterruptHandler,
    InitializeDriver,
    ConnectBus,
    EnableInterrupts,
    RunIdleLoop,
    IndicateInitFailure,
}

/// What came back from performing a phase's action.
#[derive(Clone, Copy, PartialEq, Eq, Structural, Debug)]
pub enum StepEvent {
    /// The action ran; no result value to report.
    Completed,
    /// The driver's initialization returned a null instance.
    DriverReturnedNull,
    /// The driver's initialization returned a live instance.
    DriverReturnedInstance,
}

/// Position of a phase in the order; the failure phase sits last.
pub open spec fn phase_index(p: BringupPhase) -> int {
    match p {
        BringupPhase::DiagClockPending => 0,
        BringupPhase::DiagPinsPending => 1,
        BringupPhase::FpuPending => 2,
        BringupPhase::SystemClockPending => 3,
        BringupPhase::UsbPinsPending => 4,
        BringupPhase::ModeCommitPending => 5,
        BringupPhase::InstancePending => 6,
        BringupPhase::InterruptRegistrationPending => 7,
        BringupPhase::DriverInitPending => 8,
        BringupPhase::BusConnectPending => 9,
        BringupPhase::InterruptEnablePending => 10,
        BringupPhase::Idle => 11,
        BringupPhase::InitFailed => 12,
    }
}

/// The two phases the machine never leaves.
pub open spec fn phase_terminal(p: BringupPhase) -> bool {
    p == BringupPhase::Idle || p == BringupPhase::InitFailed
}

/// The action owed in a phase.
pub open spec fn spec_action(p: BringupPhase) -> BringupAction {
    match p {
        BringupPhase::DiagClockPending => BringupAction::EnableDiagClock,
        BringupPhase::DiagPinsPending => BringupAction::ConfigureDiagPins,
        BringupPhase::FpuPending => BringupAction::EnableFpu,
        BringupPhase::SystemClockPending => BringupAction::ConfigureSystemClock,
        BringupPhase::UsbPinsPending => BringupAction::ConfigureUsbPins,
        BringupPhase::ModeCommitPending => BringupAction::CommitDeviceMode,
        BringupPhase::InstancePending => BringupAction::ConstructInstance,
        BringupPhase::InterruptRegistrationPending => BringupAction::RegisterInterruptHandler,
        BringupPhase::DriverInitPending => BringupAction::InitializeDriver,
        BringupPhase::BusConnectPending => BringupAction::ConnectBus,
        BringupPhase::InterruptEnablePending => BringupAction::EnableInterrupts,
        BringupPhase::Idle => BringupAction::RunIdleLoop,
        BringupPhase::InitFailed => BringupAction::IndicateInitFailure,
    }
}

/// The action owed in a phase.
pub fn next_action(p: BringupPhase) -> (a: BringupAction)
    ensures
        a == spec_action(p),
{
    match p {
        BringupPhase::DiagClockPending => BringupAction::EnableDiagClock,
        BringupPhase::DiagPinsPending => BringupAction::ConfigureDiagPins,
        BringupPhase::FpuPending => BringupAction::EnableFpu,
        BringupPhase::SystemClockPending => BringupAction::ConfigureSystemClock,
        BringupPhase::UsbPinsPending => BringupAction::ConfigureUsbPins,
        BringupPhase::ModeCommitPending => BringupAction::CommitDeviceMode,
        BringupPhase::InstancePending => BringupAction::ConstructInstance,
        BringupPhase::InterruptRegistrationPending => BringupAction::RegisterInterruptHandler,
        BringupPhase::DriverInitPending => BringupAction::InitializeDriver,
        BringupPhase::BusConnectPending => BringupAction::ConnectBus,
        BringupPhase::InterruptEnablePending => BringupAction::EnableInterrupts,
        BringupPhase::Idle => BringupAction::RunIdleLoop,
        BringupPhase::InitFailed => BringupAction::IndicateInitFailure,
    }
}

/// The next phase, given what the performed action reported. A phase
/// whose action ran moves to its one successor; the driver phase alone
/// branches, on the initialization result; an event that does not
/// belong to the phase moves nothing; terminal phases absorb.
pub open spec fn spec_advance(p: BringupPhase, e: StepEvent) -> BringupPhase {
    match p {
        BringupPhase::DiagClockPending => if e == StepEvent::Completed {
            BringupPhase::DiagPinsPending
        } else {
            p
        },
        BringupPhase::DiagPinsPending => if e == StepEvent::Completed {
            BringupPhase::FpuPending
        } else {
            p
        },
        BringupPhase::FpuPending => if e == StepEvent::Completed {
            BringupPhase::SystemClockPending
        } else {
            p
        },
        BringupPhase::SystemClockPending => if e == StepEvent::Completed {
            BringupPhase::UsbPinsPending
        } else {
            p
        },
        BringupPhase::UsbPinsPending => if e == StepEvent::Completed {
            BringupPhase::ModeCommitPending
        } else {
            p
        },
        BringupPhase::ModeCommitPending => if e == StepEvent::Completed {
            BringupPhase::InstancePending
        } else {
            p
        },
        BringupPhase::InstancePending => if e == StepEvent::Completed {
            BringupPhase::InterruptRegistrationPending
        } else {
            p
        },
        BringupPhase::InterruptRegistrationPending => if e == StepEvent::Completed {
            BringupPhase::DriverInitPending
        } else {
            p
        },
        BringupPhase::DriverInitPending => if e == StepEvent::DriverReturnedNull {
            BringupPhase::InitFailed
        } else if e == StepEvent::DriverReturnedInstance {
            BringupPhase::BusConnectPending
        } else {
            p
        },
        BringupPhase::BusConnectPending => if e == StepEvent::Completed {
            BringupPhase::InterruptEnablePending
        } else {
            p
        },
        BringupPhase::InterruptEnablePending => if e == StepEvent::Completed {
            BringupPhase::Idle
        } else {
            p
        },
        BringupPhase::Idle => p,
        BringupPhase::InitFailed => p,
    }
}

/// The next phase, given what the performed action reported.
pub fn advance(p: BringupPhase, e: StepEvent) -> (n: BringupPhase)
    ensures
        n == spec_advance(p, e),
{
    match p {
        BringupPhase::DiagClockPending => if matches!(e, StepEvent::Completed) {
            BringupPhase::DiagPinsPending
        } else {
            p
        },
        BringupPhase::DiagPinsPending => if matches!(e, StepEvent::Completed) {
            BringupPhase::FpuPending
        } else {
            p
        },
        BringupPhase::FpuPending => if matches!(e, StepEvent::Completed) {
            BringupPhase::SystemClockPending
        } else {
            p
        },
        BringupPhase::SystemClockPending => if matches!(e, StepEvent::Completed) {
            BringupPhase::UsbPinsPending
        } else {
            p
        },
        BringupPhase::UsbPinsPending => if matches!(e, StepEvent::Completed) {
            BringupPhase::ModeCommitPending
        } else {
            p
        },
        BringupPhase::ModeCommitPending => if matches!(e, StepEvent::Completed) {
            BringupPhase::InstancePending
        } else {
            p
        },
        BringupPhase::InstancePending => if matches!(e, StepEvent::Completed) {
            BringupPhase::InterruptRegistrationPending
        } else {
            p
        },
        BringupPhase::InterruptRegistrationPending => if matches!(e, StepEvent::Completed) {
            BringupPhase::DriverInitPending
        } else {
            p
        },
        BringupPhase::DriverInitPending => if matches!(e, StepEvent::DriverReturnedNull) {
            BringupPhase::InitFailed
        } else if matches!(e, StepEvent::DriverReturnedInstance) {
            BringupPhase::BusConnectPending
        } else {
            p
        },
        BringupPhase::BusConnectPending => if matches!(e, StepEvent::Completed) {
            BringupPhase::InterruptEnablePending
        } else {
            p
        },
        BringupPhase::InterruptEnablePending => if matches!(e, StepEvent::Completed) {
            BringupPhase::Idle
        } else {
            p
        },
        BringupPhase::Idle => p,
        BringupPhase::InitFailed => p,
    }
}

/// Phases never skip and never run backward: a step either stands
/// still, moves to the immediate successor, or — from the driver phase
/// alone, on a null result alone — drops to the failure phase.
pub proof fn lemma_phases_never_skip(p: BringupPhase, e: StepEvent)
    ensures
        spec_advance(p, e) == p
            || phase_index(spec_advance(p, e)) == phase_index(p) + 1
            || spec_advance(p, e) == BringupPhase::InitFailed,
        spec_advance(p, e) == BringupPhase::InitFailed && p != BringupPhase::InitFailed
            ==> p == BringupPhase::DriverInitPending && e == StepEvent::DriverReturnedNull,
{
}

/// The phase after feeding each event of a sequence in turn.
pub open spec fn run_events(p: BringupPhase, evs: Seq<StepEvent>) -> BringupPhase
    decreases evs.len(),
{
    if evs.len() == 0 {
        p
    } else {
        run_events(spec_advance(p, evs[0]), evs.skip(1))
    }
}

/// Once the failure phase is reached the machine stays in it under
/// every further event sequence: initialization failure is permanent
/// short of a physical reset.
pub proof fn lemma_init_failure_is_permanent(evs: Seq<StepEvent>)
    ensures
        run_events(BringupPhase::InitFailed, evs) == BringupPhase::InitFailed,
    decreases evs.len(),
{
    if evs.len() > 0 {
        lemma_init_failure_is_permanent(evs.skip(1));
    }
}

/// A null instance from the driver's initialization puts and keeps the
/// machine in the failure phase, whatever happens afterwards.
pub proof fn lemma_null_driver_halts_bringup(evs: Seq<StepEvent>)
    ensures
        run_events(
            spec_advance(BringupPhase::DriverInitPending, StepEvent::DriverReturnedNull),
            evs,
        ) == BringupPhase::InitFailed,
{
    lemma_init_failure_is_permanent(evs);
}

/// The idle phase likewise absorbs: the health loop is never left.
pub proof fn lemma_idle_is_permanent(evs: Seq<StepEvent>)
    ensures
        run_events(BringupPhase::Idle, evs) == BringupPhase::Idle,
    decreases evs.len(),
{
    if evs.len() > 0 {
        lemma_idle_is_permanent(evs.skip(1));
    }
}

/// The ordered call sequence of a whole bring-up: the success run, or
/// the run cut short by a null instance from the driver.
pub open spec fn spec_trace(driver_returns_null: bool) -> Seq<BringupAction> {
    if driver_returns_null {
        seq![
            BringupAction::EnableDiagClock,
            BringupAction::ConfigureDiagPins,
            BringupAction::EnableFpu,
            BringupAction::ConfigureSystemClock,
            BringupAction::ConfigureUsbPins,
            BringupAction::CommitDeviceMode,
            BringupAction::ConstructInstance,
            BringupAction::RegisterInterruptHandler,
            BringupAction::InitializeDriver,
            BringupAction::IndicateInitFailure,
        ]
    } else {
        seq![
            BringupAction::EnableDiagClock,
            BringupAction::ConfigureDiagPins,
            BringupAction::EnableFpu,
            BringupAction::ConfigureSystemClock,
            BringupAction::ConfigureUsbPins,
            BringupAction::CommitDeviceMode,
            BringupAction::ConstructInstance,
            BringupAction::RegisterInterruptHandler,
            BringupAction::InitializeDriver,
            BringupAction::ConnectBus,
            BringupAction::EnableInterrupts,
            BringupAction::RunIdleLoop,
        ]
    }
}

/// The event a phase's action reports in a run where the driver's
/// result is fixed.
pub open spec fn event_at(p: BringupPhase, driver_returns_null: bool) -> StepEvent {
    if p == BringupPhase::DriverInitPending {
        if driver_returns_null {
            StepEvent::DriverReturnedNull
        } else {
            StepEvent::DriverReturnedInstance
        }
    } else {
        StepEvent::Completed
    }
}

/// Steps still ahead of a phase before a terminal phase is reached.
pub open spec fn remaining_steps(p: BringupPhase) -> nat {
    if phase_terminal(p) {
        0
    } else {
        (12 - phase_index(p)) as nat
    }
}

/// The actions the machine emits from a phase to the end of the run.
pub open spec fn machine_trace_from(p: BringupPhase, driver_returns_null: bool) -> Seq<
    BringupAction,
>
    decreases remaining_steps(p),
{
    if phase_terminal(p) {
        seq![spec_action(p)]
    } else {
        seq![spec_action(p)]
            + machine_trace_from(spec_advance(p, event_at(p, driver_returns_null)),
                driver_returns_null)
    }
}

/// The machine, started at the first phase and fed each action's own
/// event, emits exactly the ordered call sequence of the run.
pub proof fn lemma_machine_emits_trace(driver_returns_null: bool)
    ensures
        machine_trace_from(BringupPhase::DiagClockPending, driver_returns_null)
            == spec_trace(driver_returns_null),
{
    reveal_with_fuel(machine_trace_from, 14);
    assert(machine_trace_from(BringupPhase::DiagClockPending, driver_returns_null)
        =~= spec_trace(driver_returns_null));
}

/// Global interrupts are unmasked strictly after the bus connect is
/// issued, and the interrupt entry point is registered strictly before
/// the driver's initialization runs: in the success trace each pair
/// appears once and in that order.
pub proof fn lemma_interrupt_unmask_follows_connect()
    ensures
        ({
            let t = spec_trace(false);
            &&& exists|i: int|
                0 <= i < t.len() && #[trigger] t[i] == BringupAction::ConnectBus
            &&& exists|j: int|
                0 <= j < t.len() && #[trigger] t[j] == BringupAction::EnableInterrupts
            &&& forall|i: int, j: int|
                0 <= i < t.len() && 0 <= j < t.len()
                    && #[trigger] t[i] == BringupAction::ConnectBus
                    && #[trigger] t[j] == BringupAction::EnableInterrupts ==> i < j
            &&& forall|i: int, j: int|
                0 <= i < t.len() && 0 <= j < t.len()
                    && #[trigger] t[i] == BringupAction::RegisterInterruptHandler
                    && #[trigger] t[j] == BringupAction::InitializeDriver ==> i < j
        }),
{
    let t = spec_trace(false);
    assert(t[9] == BringupAction::ConnectBus);
    assert(t[10] == BringupAction::EnableInterrupts);
    assert(t[7] == BringupAction::RegisterInterruptHandler);
    assert(t[8] == BringupAction::InitializeDriver);
    assert(forall|i: int|
        0 <= i < t.len() && #[trigger] t[i] == BringupAction::ConnectBus ==> i == 9);
    assert(forall|j: int|
        0 <= j < t.len() && #[trigger] t[j] == BringupAction::EnableInterrupts ==> j == 10);
    assert(forall|i: int|
        0 <= i < t.len() && #[trigger] t[i] == BringupAction::RegisterInterruptHandler
            ==> i == 7);
    assert(forall|j: int|
        0 <= j < t.len() && #[trigger] t[j] == BringupAction::InitializeDriver ==> j == 8);
}

/// Everything bring-up programs, gathered in one place: the register
/// double, the two GPIO ports, the latched platform switches, the USB
/// stack mode, the instance slot, the indicator and the machine phase.
pub struct BoardModel {
    /// Clock-gating block and its ready bits.
    pub sys: SysCtlModel,
    /// The port carrying the diagnostic output.
    pub diag_port: GpioPortModel,
    /// The port carrying the USB data pair.
    pub usb_port: GpioPortModel,
    /// FPU lazy context saving is on.
    pub fpu_lazy_stacking: bool,
    /// The system-clock configuration word in force.
    pub clock_config: u32,
    /// The system clock frequency in force.
    pub clock_hz: u32,
    /// The tick timer's reload value.
    pub systick_period: u32,
    /// The tick timer is counting and interrupting.
    pub systick_enabled: bool,
    /// The USB stack's mode latch.
    pub stack: UsbStackModel,
    /// The device instance's process-lifetime slot.
    pub slot: InstanceSlot,
    /// The interrupt entry point is registered with the driver.
    pub interrupt_registered: bool,
    /// The device is visible on the bus.
    pub bus_connected: bool,
    /// Global interrupts are unmasked.
    pub interrupts_enabled: bool,
    /// The diagnostic indicator.
    pub indicator: FaultIndicator,
    /// Where the sequencer stands.
    pub phase: BringupPhase,
}

impl BoardModel {
    /// The cross-field discipline: interrupts are never unmasked before
    /// the bus connect, handlers are registered before interrupts can
    /// fire, and the component invariants hold.
    pub open spec fn wf(self) -> bool {
        &&& self.indicator.wf()
        &&& self.stack.wf()
        &&& self.slot.wf()
        &&& self.interrupts_enabled ==> self.bus_connected
        &&& self.interrupts_enabled ==> self.interrupt_registered
    }

    /// The board as the platform runtime hands it over: registers at
    /// reset values, nothing latched, the machine at its first phase.
    /// The double's latency and the slot's storage address are the
    /// model's two free parameters.
    pub fn new(ready_lag: u32, slot_addr: u64) -> (board: BoardModel)
        ensures
            board.wf(),
            board.sys == (SysCtlModel { rcgcgpio: 0, prgpio: 0, ready_lag }),
            board.diag_port == (GpioPortModel { dir: 0, den: 0, amsel: 0, data: 0 }),
            board.usb_port == (GpioPortModel { dir: 0, den: 0, amsel: 0, data: 0 }),
            !board.fpu_lazy_stacking,
            !board.systick_enabled,
            board.stack.mode == tUSBMode::Unset,
            !board.stack.committed,
            board.slot.addr == slot_addr,
            board.slot.contents matches Option::None,
            !board.slot.registered,
            !board.interrupt_registered,
            !board.bus_connected,
            !board.interrupts_enabled,
            board.indicator.state == DiagnosticState::Running,
            !board.indicator.idle_reached,
            board.phase == BringupPhase::DiagClockPending,
    {
        BoardModel {
            sys: SysCtlModel { rcgcgpio: 0, prgpio: 0, ready_lag },
            diag_port: GpioPortModel { dir: 0, den: 0, amsel: 0, data: 0 },
            usb_port: GpioPortModel { dir: 0, den: 0, amsel: 0, data: 0 },
            fpu_lazy_stacking: false,
            clock_config: 0,
            clock_hz: 0,
            systick_period: 0,
            systick_enabled: false,
            stack: UsbStackModel::new(),
            slot: InstanceSlot::new(slot_addr),
            interrupt_registered: false,
            bus_connected: false,
            interrupts_enabled: false,
            indicator: FaultIndicator::new(),
            phase: BringupPhase::DiagClockPending,
        }
    }
}

/// The whole bring-up, run against the board model, with the vendor
/// driver's one decision injected as an argument. Returns the
/// instrumented call sequence. On success the board stands in the idle
/// phase with the bus connected before interrupts were unmasked; on a
/// null instance the board halts in the failure phase with interrupts
/// still masked and the indicator showing `InitFailed`.
pub fn run_bringup(board: &mut BoardModel, driver_returns_null: bool) -> (trace: Vec<
    BringupAction,
>)
    requires
        old(board).wf(),
        old(board).phase == BringupPhase::DiagClockPending,
        old(board).indicator.state == DiagnosticState::Running,
        !old(board).indicator.idle_reached,
        !old(board).slot.registered,
        !old(board).bus_connected,
        !old(board).interrupts_enabled,
    ensures
        final(board).wf(),
        trace@ == spec_trace(driver_returns_null),
        final(board).slot.addr == old(board).slot.addr,
        final(board).slot.registered,
        final(board).slot.contents == Option::Some(
            crate::device::spec_constructed_instance(
                old(board).slot.addr, USB_VID_TI_1CBE, USB_PID_SERIAL, 0,
                USB_CONF_ATTR_SELF_PWR, NUM_STRING_DESCRIPTORS)),
        final(board).stack.mode == tUSBMode::ForceDevice,
        final(board).stack.committed,
        final(board).fpu_lazy_stacking,
        final(board).clock_hz == PLL_SYSTEM_CLOCK_HZ,
        final(board).systick_period == PLL_SYSTEM_CLOCK_HZ / SYSTICK_RATE_HZ,
        final(board).systick_enabled,
        final(board).interrupt_registered,
        diag_output_ready(final(board).sys, final(board).diag_port),
        final(board).usb_port.amsel == old(board).usb_port.amsel | USB_PIN_MASK,
        final(board).usb_port.dir == old(board).usb_port.dir & !USB_PIN_MASK,
        final(board).usb_port.den == old(board).usb_port.den & !USB_PIN_MASK,
        !driver_returns_null ==> {
            &&& final(board).phase == BringupPhase::Idle
            &&& final(board).bus_connected
            &&& final(board).interrupts_enabled
            &&& final(board).indicator.state == DiagnosticState::WaitingForHost
            &&& final(board).indicator.idle_reached
        },
        driver_returns_null ==> {
            &&& final(board).phase == BringupPhase::InitFailed
            &&& !final(board).bus_connected
            &&& !final(board).interrupts_enabled
            &&& final(board).indicator.state == DiagnosticState::InitFailed
        },
{
    let mut trace: Vec<BringupAction> = Vec::new();

    // Phase 1: clock for the diagnostic port; this layer cannot fail.
    trace.push(next_action(board.phase));
    enable_gpio_clock(&mut board.sys, crate::DIAG_PORT);
    await_gpio_ready(&mut board.sys, crate::DIAG_PORT);
    board.phase = advance(board.phase, StepEvent::Completed);

    // Phase 2: the diagnostic pin, driven low (indicator off).
    trace.push(next_action(board.phase));
    proof {
        crate::registers::lemma_or_sets_mask(board.diag_port.dir, crate::DIAG_PIN_MASK);
        crate::registers::lemma_or_sets_mask(board.diag_port.den, crate::DIAG_PIN_MASK);
    }
    configure_pins(&mut board.diag_port, crate::DIAG_PIN_MASK, PinMode::DigitalOutput);
    set_pins_low(&mut board.diag_port, crate::DIAG_PIN_MASK);
    board.phase = advance(board.phase, StepEvent::Completed);

    // Phase 3: FPU lazy stacking, before any interrupt could use the FPU.
    trace.push(next_action(board.phase));
    board.fpu_lazy_stacking = true;
    board.phase = advance(board.phase, StepEvent::Completed);

    // Phase 4: system clock to the PLL target, then the tick timer the
    // driver times protocol events against.
    trace.push(next_action(board.phase));
    board.clock_config = SYSCTL_SYSDIV_4 | SYSCTL_USE_PLL | SYSCTL_OSC_MAIN
        | SYSCTL_XTAL_16MHZ;
    board.clock_hz = PLL_SYSTEM_CLOCK_HZ;
    board.systick_period = board.clock_hz / SYSTICK_RATE_HZ;
    board.systick_enabled = true;
    board.phase = advance(board.phase, StepEvent::Completed);

    // Phase 5: clock and analog-mode pins for the USB data pair; the
    // diagnostic port's clock-gate and ready bits stay up throughout.
    trace.push(next_action(board.phase));
    proof {
        crate::registers::lemma_or_preserves_mask(board.sys.rcgcgpio,
            1u32 << crate::DIAG_PORT, 1u32 << USB_PORT);
    }
    enable_gpio_clock(&mut board.sys, USB_PORT);
    proof {
        crate::registers::lemma_or_preserves_mask(board.sys.prgpio,
            1u32 << crate::DIAG_PORT, 1u32 << USB_PORT);
    }
    await_gpio_ready(&mut board.sys, USB_PORT);
    configure_pins(&mut board.usb_port, USB_PIN_MASK, PinMode::AnalogUsb);
    board.phase = advance(board.phase, StepEvent::Completed);

    // Phase 6: the one-way device-only commitment.
    trace.push(next_action(board.phase));
    usb_set_device_mode(&mut board.stack);
    board.phase = advance(board.phase, StepEvent::Completed);

    // Phase 7: construct the instance at its fixed storage address.
    trace.push(next_action(board.phase));
    board.slot.construct(USB_VID_TI_1CBE, USB_PID_SERIAL, 0, USB_CONF_ATTR_SELF_PWR,
        NUM_STRING_DESCRIPTORS);
    board.phase = advance(board.phase, StepEvent::Completed);

    // Phase 8: register the interrupt entry point before the driver can
    // raise an interrupt.
    trace.push(next_action(board.phase));
    board.interrupt_registered = true;
    board.phase = advance(board.phase, StepEvent::Completed);

    // Phase 9: hand the instance to the driver; from here it is
    // foreign-owned whatever the result.
    trace.push(next_action(board.phase));
    board.slot.register();
    if driver_returns_null {
        board.phase = advance(board.phase, StepEvent::DriverReturnedNull);
        trace.push(next_action(board.phase));
        board.indicator.set_state(DiagnosticState::InitFailed);
        proof {
            assert(trace@ =~= spec_trace(true));
        }
        return trace;
    }
    board.phase = advance(board.phase, StepEvent::DriverReturnedInstance);

    // Phase 10: make the device visible on the bus.
    trace.push(next_action(board.phase));
    board.bus_connected = true;
    board.phase = advance(board.phase, StepEvent::Completed);

    // Phase 11: the final commit — unmask interrupts only now, with
    // every handler's state already programmed.
    trace.push(next_action(board.phase));
    board.interrupts_enabled = true;
    board.phase = advance(board.phase, StepEvent::Completed);

    // Phase 12: the idle health loop, waiting for a host.
    trace.push(next_action(board.phase));
    board.indicator.set_state(DiagnosticState::WaitingForHost);
    board.indicator.mark_idle_reached();
    proof {
        assert(trace@ =~= spec_trace(false));
    }
    trace
}

/// One pass of the idle health loop: only the indicator is driven; no
/// USB work happens here — protocol activity runs in interrupt context
/// inside the driver and the dispatch shim.
pub fn idle_step(board: &mut BoardModel)
    requires
        old(board).wf(),
        old(board).phase == BringupPhase::Idle,
    ensures
        final(board).wf(),
        final(board).phase == BringupPhase::Idle,
        final(board).indicator.state == old(board).indicator.state,
        final(board).sys == old(board).sys,
        final(board).usb_port == old(board).usb_port,
        final(board).stack == old(board).stack,
        final(board).slot == old(board).slot,
        final(board).bus_connected == old(board).bus_connected,
        final(board).interrupts_enabled == old(board).interrupts_enabled,
        final(board).interrupt_registered == old(board).interrupt_registered,
        if old(board).indicator.elapsed + 1 == old(board).indicator.period {
            final(board).diag_port.data == old(board).diag_port.data ^ crate::DIAG_PIN_MASK
        } else {
            final(board).diag_port == old(board).diag_port
        },
{
    let ind = &mut board.indicator;
    ind.tick(&mut board.diag_port);
}

} // verus!


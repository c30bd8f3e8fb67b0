use usb_cdc_bringup::diagnostics::{
    enter_hard_fault, enter_panic, period_of, DiagnosticState, FaultIndicator,
    HARD_FAULT_PERIOD, INIT_FAILED_PERIOD, PANIC_PERIOD, RUNNING_PERIOD,
    WAITING_FOR_HOST_PERIOD,
};
use usb_cdc_bringup::registers::{GpioPortModel, SysCtlModel};
use usb_cdc_bringup::DIAG_PIN_MASK;

#[test]
fn period_ordering_over_all_five_states() {
    let running = period_of(DiagnosticState::Running);
    let waiting = period_of(DiagnosticState::WaitingForHost);
    let init_failed = period_of(DiagnosticState::InitFailed);
    let panic_p = period_of(DiagnosticState::Panic);
    let hard_fault = period_of(DiagnosticState::HardFault);
    assert!(running > waiting);
    assert!(waiting > init_failed);
    assert!(init_failed > panic_p);
    assert!(init_failed > hard_fault);
    assert_eq!(panic_p, hard_fault);
}

#[test]
fn period_constants_match_states() {
    assert_eq!(period_of(DiagnosticState::Running), RUNNING_PERIOD);
    assert_eq!(period_of(DiagnosticState::WaitingForHost), WAITING_FOR_HOST_PERIOD);
    assert_eq!(period_of(DiagnosticState::InitFailed), INIT_FAILED_PERIOD);
    assert_eq!(period_of(DiagnosticState::Panic), PANIC_PERIOD);
    assert_eq!(period_of(DiagnosticState::HardFault), HARD_FAULT_PERIOD);
}

#[test]
fn set_state_reprograms_period_immediately() {
    let mut ind = FaultIndicator::new();
    assert_eq!(ind.state, DiagnosticState::Running);
    assert_eq!(ind.period, RUNNING_PERIOD);
    ind.set_state(DiagnosticState::WaitingForHost);
    assert_eq!(ind.period, WAITING_FOR_HOST_PERIOD);
    assert_eq!(ind.elapsed, 0);
    // the pre-idle fall-back to Running is allowed
    ind.set_state(DiagnosticState::Running);
    assert_eq!(ind.period, RUNNING_PERIOD);
}

#[test]
fn tick_toggles_exactly_once_per_period() {
    let mut ind = FaultIndicator::new();
    ind.set_state(DiagnosticState::HardFault);
    let mut port = GpioPortModel { dir: DIAG_PIN_MASK, den: DIAG_PIN_MASK, amsel: 0, data: 0 };
    for _ in 0..HARD_FAULT_PERIOD - 1 {
        ind.tick(&mut port);
        assert_eq!(port.data, 0);
    }
    ind.tick(&mut port);
    assert_eq!(port.data, DIAG_PIN_MASK);
    for _ in 0..HARD_FAULT_PERIOD - 1 {
        ind.tick(&mut port);
        assert_eq!(port.data, DIAG_PIN_MASK);
    }
    ind.tick(&mut port);
    assert_eq!(port.data, 0);
}

#[test]
fn panic_path_reprograms_and_halts_in_panic() {
    let mut sys = SysCtlModel { rcgcgpio: 0, prgpio: 0, ready_lag: 1 };
    let mut port = GpioPortModel { dir: 0, den: 0, amsel: 0, data: 0 };
    let mut ind = FaultIndicator::new();
    enter_panic(&mut sys, &mut port, &mut ind);
    assert_eq!(ind.state, DiagnosticState::Panic);
    assert_eq!(ind.period, PANIC_PERIOD);
    assert_eq!(port.dir & DIAG_PIN_MASK, DIAG_PIN_MASK);
    assert_eq!(port.den & DIAG_PIN_MASK, DIAG_PIN_MASK);
}

#[test]
fn fault_trap_before_any_pin_configuration_still_blinks() {
    // the trap fires on a board whose diagnostic pins were never set up
    let mut sys = SysCtlModel { rcgcgpio: 0, prgpio: 0, ready_lag: 9 };
    let mut port = GpioPortModel { dir: 0, den: 0, amsel: 0, data: 0 };
    let mut ind = FaultIndicator::new();
    enter_hard_fault(&mut sys, &mut port, &mut ind);
    // the minimal bring-up alone made the output drivable
    assert_eq!(sys.rcgcgpio & (1 << usb_cdc_bringup::DIAG_PORT), 1 << usb_cdc_bringup::DIAG_PORT);
    assert_eq!(sys.prgpio & (1 << usb_cdc_bringup::DIAG_PORT), 1 << usb_cdc_bringup::DIAG_PORT);
    assert_eq!(port.dir & DIAG_PIN_MASK, DIAG_PIN_MASK);
    assert_eq!(port.den & DIAG_PIN_MASK, DIAG_PIN_MASK);
    assert_eq!(ind.state, DiagnosticState::HardFault);
    assert_eq!(ind.period, HARD_FAULT_PERIOD);
    // and the pattern is live: one full half cycle inverts the pin
    for _ in 0..HARD_FAULT_PERIOD {
        ind.tick(&mut port);
    }
    assert_eq!(port.data & DIAG_PIN_MASK, DIAG_PIN_MASK);
}

#[test]
fn hard_fault_state_outlasts_ticking() {
    let mut sys = SysCtlModel { rcgcgpio: 0, prgpio: 0, ready_lag: 0 };
    let mut port = GpioPortModel { dir: 0, den: 0, amsel: 0, data: 0 };
    let mut ind = FaultIndicator::new();
    enter_hard_fault(&mut sys, &mut port, &mut ind);
    for _ in 0..3 * HARD_FAULT_PERIOD {
        ind.tick(&mut port);
        assert_eq!(ind.state, DiagnosticState::HardFault);
    }
}

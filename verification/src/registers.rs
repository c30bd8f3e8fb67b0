//! Register-access layer over a register-model double.
//!
//! The hardware's clock-gating block and GPIO ports are modelled as plain
//! structs of register words. The double also models the one hardware
//! behaviour the layer depends on: after a peripheral's clock-gate bit is
//! set, its ready-status bit rises within a bounded number of cycles, so
//! the busy-poll in `await_gpio_ready` terminates and never returns before
//! the ready bit is observed set.

use vstd::prelude::*;

verus! {

/// A bit mask is fully set in a register word.
pub open spec fn bits_set(reg: u32, mask: u32) -> bool {
    reg & mask == mask
}

/// Setting a mask by `|` leaves the mask set.
pub proof fn lemma_or_sets_mask(x: u32, m: u32)
    by (bit_vector)
    ensures
        bits_set(x | m, m),
{
}

/// Setting a mask that is already set changes nothing.
pub proof fn lemma_or_absorbed(x: u32, m: u32)
    by (bit_vector)
    requires
        bits_set(x, m),
    ensures
        x | m == x,
{
}

/// Setting one mask leaves another, already set, mask set.
pub proof fn lemma_or_preserves_mask(x: u32, kept: u32, added: u32)
    by (bit_vector)
    requires
        bits_set(x, kept),
    ensures
        bits_set(x | added, kept),
{
}

/// Clock-gating and peripheral-ready registers of the system control
/// block, plus the double's latency counter: the number of poll cycles
/// the modelled hardware still takes before it raises a pending
/// ready-status bit.
#[derive(Clone, Copy, PartialEq, Eq, Structural, Debug)]
pub struct SysCtlModel {
    /// GPIO run-mode clock-gating register: one enable bit per port.
    pub rcgcgpio: u32,
    /// GPIO peripheral-ready register: one status bit per port.
    pub prgpio: u32,
    /// Remaining poll cycles before a pending ready bit rises.
    pub ready_lag: u32,
}

/// Direction, digital-enable, analog-select and data registers of one
/// GPIO port.
#[derive(Clone, Copy, PartialEq, Eq, Structural, Debug)]
pub struct GpioPortModel {
    pub dir: u32,
    pub den: u32,
    pub amsel: u32,
    pub data: u32,
}

/// How a pin group is to be wired.
#[derive(Clone, Copy, PartialEq, Eq, Structural, Debug)]
pub enum PinMode {
    /// Digital output: direction and digital-enable bits set, analog off.
    DigitalOutput,
    /// Analog function for the USB data pair: direction and digital
    /// paths released, analog-select bits set.
    AnalogUsb,
}

/// Set the clock-gate bit of one GPIO port.
pub fn enable_gpio_clock(sys: &mut SysCtlModel, port: u32)
    requires
        port < 8,
    ensures
        final(sys).rcgcgpio == old(sys).rcgcgpio | (1u32 << port),
        bits_set(final(sys).rcgcgpio, 1u32 << port),
        final(sys).prgpio == old(sys).prgpio,
        final(sys).ready_lag == old(sys).ready_lag,
{
    let mask: u32 = 1u32 << port;
    proof {
        lemma_or_sets_mask(sys.rcgcgpio, mask);
    }
    sys.rcgcgpio = sys.rcgcgpio | mask;
}

/// One read of the peripheral-ready register, advancing the hardware
/// double by one cycle: an enabled port whose ready bit is still down
/// either rises now (lag exhausted) or comes one cycle closer. Ready
/// bits only ever rise, never fall.
pub fn poll_gpio_ready(sys: &mut SysCtlModel, port: u32) -> (ready: bool)
    requires
        port < 8,
    ensures
        ready == bits_set(final(sys).prgpio, 1u32 << port),
        final(sys).rcgcgpio == old(sys).rcgcgpio,
        final(sys).prgpio == old(sys).prgpio
            || final(sys).prgpio == old(sys).prgpio | (1u32 << port),
        bits_set(old(sys).prgpio, 1u32 << port) ==> *final(sys) == *old(sys),
        (bits_set(old(sys).rcgcgpio, 1u32 << port) && !bits_set(old(sys).prgpio, 1u32 << port))
            ==> if old(sys).ready_lag == 0 {
                final(sys).prgpio == old(sys).prgpio | (1u32 << port)
                    && bits_set(final(sys).prgpio, 1u32 << port)
            } else {
                final(sys).prgpio == old(sys).prgpio
                    && final(sys).ready_lag == old(sys).ready_lag - 1
            },
        !bits_set(old(sys).rcgcgpio, 1u32 << port) && !bits_set(old(sys).prgpio, 1u32 << port)
            ==> final(sys).prgpio == old(sys).prgpio && final(sys).ready_lag == old(sys).ready_lag,
{
    let mask: u32 = 1u32 << port;
    if sys.rcgcgpio & mask == mask && sys.prgpio & mask != mask {
        if sys.ready_lag == 0 {
            proof {
                lemma_or_sets_mask(sys.prgpio, mask);
            }
            sys.prgpio = sys.prgpio | mask;
        } else {
            sys.ready_lag = sys.ready_lag - 1;
        }
    }
    sys.prgpio & mask == mask
}

/// Busy-poll the ready-status bit of an enabled port. The loop condition
/// is monotonic (ready bits only rise) and the function returns only
/// once the true ready bit has been observed set; the double's bounded
/// latency makes the unbounded-looking wait terminate.
pub fn await_gpio_ready(sys: &mut SysCtlModel, port: u32)
    requires
        port < 8,
        bits_set(old(sys).rcgcgpio, 1u32 << port),
    ensures
        bits_set(final(sys).prgpio, 1u32 << port),
        final(sys).rcgcgpio == old(sys).rcgcgpio,
        final(sys).prgpio == old(sys).prgpio
            || final(sys).prgpio == old(sys).prgpio | (1u32 << port),
        bits_set(old(sys).prgpio, 1u32 << port) ==> *final(sys) == *old(sys),
{
    loop
        invariant
            port < 8,
            bits_set(sys.rcgcgpio, 1u32 << port),
            sys.rcgcgpio == old(sys).rcgcgpio,
            sys.prgpio == old(sys).prgpio
                || sys.prgpio == old(sys).prgpio | (1u32 << port),
            bits_set(old(sys).prgpio, 1u32 << port) ==> *sys == *old(sys),
        ensures
            bits_set(sys.prgpio, 1u32 << port),
            sys.rcgcgpio == old(sys).rcgcgpio,
            sys.prgpio == old(sys).prgpio
                || sys.prgpio == old(sys).prgpio | (1u32 << port),
            bits_set(old(sys).prgpio, 1u32 << port) ==> *sys == *old(sys),
        decreases sys.ready_lag,
    {
        proof {
            lemma_or_sets_mask(old(sys).prgpio, 1u32 << port);
            lemma_or_absorbed(old(sys).prgpio | (1u32 << port), 1u32 << port);
        }
        let ready = poll_gpio_ready(sys, port);
        if ready {
            break;
        }
    }
}

/// Configure a pin group of one port in one logical operation, composed
/// of independent register writes with no atomicity across them.
pub fn configure_pins(port: &mut GpioPortModel, pins: u32, mode: PinMode)
    ensures
        mode == PinMode::DigitalOutput ==> {
            &&& final(port).dir == old(port).dir | pins
            &&& final(port).den == old(port).den | pins
            &&& final(port).amsel == old(port).amsel
        },
        mode == PinMode::AnalogUsb ==> {
            &&& final(port).dir == old(port).dir & !pins
            &&& final(port).den == old(port).den & !pins
            &&& final(port).amsel == old(port).amsel | pins
        },
        final(port).data == old(port).data,
{
    match mode {
        PinMode::DigitalOutput => {
            port.dir = port.dir | pins;
            port.den = port.den | pins;
        }
        PinMode::AnalogUsb => {
            port.dir = port.dir & !pins;
            port.den = port.den & !pins;
            port.amsel = port.amsel | pins;
        }
    }
}

/// Drive a pin group high.
pub fn set_pins_high(port: &mut GpioPortModel, pins: u32)
    ensures
        final(port).data == old(port).data | pins,
        final(port).dir == old(port).dir,
        final(port).den == old(port).den,
        final(port).amsel == old(port).amsel,
{
    port.data = port.data | pins;
}

/// Drive a pin group low.
pub fn set_pins_low(port: &mut GpioPortModel, pins: u32)
    ensures
        final(port).data == old(port).data & !pins,
        final(port).dir == old(port).dir,
        final(port).den == old(port).den,
        final(port).amsel == old(port).amsel,
{
    port.data = port.data & !pins;
}

/// Invert a pin group, the indicator's one blink step.
pub fn toggle_pins(port: &mut GpioPortModel, pins: u32)
    ensures
        final(port).data == old(port).data ^ pins,
        final(port).dir == old(port).dir,
        final(port).den == old(port).den,
        final(port).amsel == old(port).amsel,
{
    port.data = port.data ^ pins;
}

/// The diagnostic output can be driven: its port's clock is gated on and
/// ready, and its pin is wired as a digital output.
pub open spec fn diag_output_ready(sys: SysCtlModel, port: GpioPortModel) -> bool {
    &&& bits_set(sys.rcgcgpio, 1u32 << crate::DIAG_PORT)
    &&& bits_set(sys.prgpio, 1u32 << crate::DIAG_PORT)
    &&& bits_set(port.dir, crate::DIAG_PIN_MASK)
    &&& bits_set(port.den, crate::DIAG_PIN_MASK)
}

/// Minimal bring-up of the diagnostic output alone: gate its port's
/// clock, wait for the ready bit, wire its one pin as a digital output.
/// The panic path and the fault trap re-run this before blinking, so it
/// is idempotent: when the output is already ready nothing changes.
pub fn minimal_diag_bringup(sys: &mut SysCtlModel, port: &mut GpioPortModel)
    ensures
        diag_output_ready(*final(sys), *final(port)),
        final(port).data == old(port).data,
        final(port).amsel == old(port).amsel,
        diag_output_ready(*old(sys), *old(port))
            ==> *final(sys) == *old(sys) && *final(port) == *old(port),
{
    proof {
        if bits_set(old(sys).rcgcgpio, 1u32 << crate::DIAG_PORT) {
            lemma_or_absorbed(old(sys).rcgcgpio, 1u32 << crate::DIAG_PORT);
        }
        if bits_set(old(port).dir, crate::DIAG_PIN_MASK) {
            lemma_or_absorbed(old(port).dir, crate::DIAG_PIN_MASK);
        }
        if bits_set(old(port).den, crate::DIAG_PIN_MASK) {
            lemma_or_absorbed(old(port).den, crate::DIAG_PIN_MASK);
        }
        lemma_or_sets_mask(old(port).dir, crate::DIAG_PIN_MASK);
        lemma_or_sets_mask(old(port).den, crate::DIAG_PIN_MASK);
    }
    enable_gpio_clock(sys, crate::DIAG_PORT);
    await_gpio_ready(sys, crate::DIAG_PORT);
    port.dir = port.dir | crate::DIAG_PIN_MASK;
    port.den = port.den | crate::DIAG_PIN_MASK;
}

} // verus!

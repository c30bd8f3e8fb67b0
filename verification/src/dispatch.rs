//! Callback dispatch shim.
//!
//! The vendor driver calls three entry points from interrupt context:
//! control events, receive events and transmit events, each with an
//! opaque event code, an event-specific value and an opaque event-data
//! address. The shim's contract is fixed — constant-bounded work, no
//! blocking, and a defined "handled" status code returned for every
//! event class — while per-event business logic is deliberately absent:
//! the driver's own protocol machine owns the event semantics.

use vstd::prelude::*;

verus! {

/// Status code the driver reads as "event handled".
pub const USB_EVENT_HANDLED: u32 = 0;

/// Control, error and bus events of the CDC control channel. Every
/// event class is acknowledged as handled; descriptor requests are
/// served inside the driver itself.
pub fn control_handler(cb_data: u64, event: u32, msg_value: u32, msg_data: u64) -> (status:
    u32)
    ensures
        status == USB_EVENT_HANDLED,
{
    let _ = cb_data;
    let _ = event;
    let _ = msg_value;
    let _ = msg_data;
    USB_EVENT_HANDLED
}

/// Receive-channel events: acknowledged as handled.
pub fn rx_handler(cb_data: u64, event: u32, msg_value: u32, msg_data: u64) -> (status: u32)
    ensures
        status == USB_EVENT_HANDLED,
{
    let _ = cb_data;
    let _ = event;
    let _ = msg_value;
    let _ = msg_data;
    USB_EVENT_HANDLED
}

/// Transmit-channel events: acknowledged as handled.
pub fn tx_handler(cb_data: u64, event: u32, msg_value: u32, msg_data: u64) -> (status: u32)
    ensures
        status == USB_EVENT_HANDLED,
{
    let _ = cb_data;
    let _ = event;
    let _ = msg_value;
    let _ = msg_data;
    USB_EVENT_HANDLED
}

} // verus!

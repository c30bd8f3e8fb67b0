//! Verified model of a Cortex-M USB CDC bring-up core.
//!
//! The crate models the bring-up sequencer, the fault-diagnostic state
//! machine, the register-access layer (as a register-model double), the
//! USB string-descriptor table and the device-instance data model of a
//! TM4C123 CDC-serial firmware. The hardware shell that drives real
//! memory-mapped registers and the vendor USB driver lives outside the
//! library; the library holds the decisions, the orderings and the data
//! layouts, each with a proved contract.

use vstd::prelude::*;

pub mod descriptors;
pub mod device;
pub mod diagnostics;
pub mod dispatch;
pub mod registers;
pub mod sequencer;

verus! {

/// The diagnostic output (an LED) sits on GPIO port F, bit 1.
pub const DIAG_PORT: u32 = 5;

/// Pin mask of the diagnostic output within its port.
pub const DIAG_PIN_MASK: u32 = 0x02;

} // verus!

//! Device-instance data model and the wire structures shared with the
//! vendor USB driver.
//!
//! The composite device instance is self-referential: each callback's
//! user-data pointer conventionally aliases the instance's own storage
//! address, so callbacks can locate their owner from interrupt context.
//! The model makes the two-phase construction explicit — fix the final
//! storage address first, populate the self-referencing fields second —
//! and freezes the instance once it is handed to the driver.

#![allow(non_camel_case_types)]
#![allow(non_snake_case)]

use vstd::prelude::*;

verus! {

/// Vendor identifier the device reports.
pub const USB_VID_TI_1CBE: u16 = 0x1cbe;

/// Product identifier of the CDC serial function.
pub const USB_PID_SERIAL: u16 = 0x0002;

/// Power-attribute flags: self-powered.
pub const USB_CONF_ATTR_SELF_PWR: u8 = 0xC0;

/// Entries of the string-descriptor table the instance points at.
pub const NUM_STRING_DESCRIPTORS: u32 = 6;

/// Operating mode of the USB stack.
#[derive(Clone, Copy, PartialEq, Eq, Structural, Debug)]
pub enum tUSBMode {
    /// Mode not yet chosen.
    Unset,
    /// Device mode, negotiated.
    Device,
    /// Host mode.
    Host,
    /// On-the-go: either role, negotiated on the wire.
    OTG,
    /// Device mode, fixed: host code paths unreachable.
    ForceDevice,
    /// Host mode, fixed.
    ForceHost,
}

/// Numeric value of a mode on the driver boundary.
pub open spec fn spec_mode_value(m: tUSBMode) -> u32 {
    match m {
        tUSBMode::Unset => 0,
        tUSBMode::Device => 1,
        tUSBMode::Host => 2,
        tUSBMode::OTG => 3,
        tUSBMode::ForceDevice => 4,
        tUSBMode::ForceHost => 5,
    }
}

/// Numeric value of a mode on the driver boundary.
pub fn mode_value(m: tUSBMode) -> (v: u32)
    ensures
        v == spec_mode_value(m),
{
    match m {
        tUSBMode::Unset => 0,
        tUSBMode::Device => 1,
        tUSBMode::Host => 2,
        tUSBMode::OTG => 3,
        tUSBMode::ForceDevice => 4,
        tUSBMode::ForceHost => 5,
    }
}

/// A USB setup request as it arrives on endpoint zero.
#[derive(Clone, Copy, PartialEq, Eq, Structural, Debug)]
pub struct tUSBRequest {
    pub bmRequestType: u8,
    pub bRequest: u8,
    pub wValue: u16,
    pub wIndex: u16,
    pub wLength: u16,
}

/// The two leading bytes every descriptor starts with.
#[derive(Clone, Copy, PartialEq, Eq, Structural, Debug)]
pub struct tDescriptorHeader {
    pub bLength: u8,
    pub bDescriptorType: u8,
}

/// Header of a configuration descriptor set.
#[derive(Clone, Copy, PartialEq, Eq, Structural, Debug)]
pub struct tConfigHeader {
    pub ui16TotalSize: u16,
    pub ui16NumInterfaces: u8,
    pub ui8ConfigIndex: u8,
}

/// Transfer state of one CDC channel.
#[derive(Clone, Copy, PartialEq, Eq, Structural, Debug)]
pub enum tCDCState {
    /// Nothing in flight.
    Idle,
    /// A send was started and its completion is pending.
    WaitingOnSendData,
    /// A receive was started and its data is pending.
    WaitingOnReceiveData,
}

/// Numeric value of a CDC channel state on the driver boundary.
pub open spec fn spec_cdc_state_value(s: tCDCState) -> u32 {
    match s {
        tCDCState::Idle => 0,
        tCDCState::WaitingOnSendData => 1,
        tCDCState::WaitingOnReceiveData => 2,
    }
}

/// Numeric value of a CDC channel state on the driver boundary.
pub fn cdc_state_value(s: tCDCState) -> (v: u32)
    ensures
        v == spec_cdc_state_value(s),
{
    match s {
        tCDCState::Idle => 0,
        tCDCState::WaitingOnSendData => 1,
        tCDCState::WaitingOnReceiveData => 2,
    }
}

/// Serial line parameters of the virtual COM port.
#[derive(Clone, Copy, PartialEq, Eq, Structural, Debug)]
pub struct tLineCoding {
    pub ui32Rate: u32,
    pub ui8CharFormat: u8,
    pub ui8ParityType: u8,
    pub ui8DataBits: u8,
}

/// The composite device instance handed to the vendor driver, modelled
/// over plain values: pointers appear as the numeric storage addresses
/// they hold. The embedded private workspace is owned and mutated by
/// the driver alone after initialization, so the model carries none of
/// its internals.
#[derive(Clone, Copy, PartialEq, Eq, Structural, Debug)]
pub struct DeviceInstance {
    /// Vendor identifier.
    pub vid: u16,
    /// Product identifier.
    pub pid: u16,
    /// Maximum power draw in milliamperes.
    pub max_power_ma: u16,
    /// Power-attribute flags.
    pub pwr_attributes: u8,
    /// User-data address the control callback receives.
    pub control_cb_data: u64,
    /// User-data address the receive callback receives.
    pub rx_cb_data: u64,
    /// User-data address the transmit callback receives.
    pub tx_cb_data: u64,
    /// Entries in the string-descriptor table.
    pub num_string_descriptors: u32,
}

/// The instance a slot at `addr` holds after construction: identity
/// fields as given, every callback user-data address equal to the
/// slot's own address.
pub open spec fn spec_constructed_instance(
    addr: u64,
    vid: u16,
    pid: u16,
    max_power_ma: u16,
    pwr_attributes: u8,
    num_string_descriptors: u32,
) -> DeviceInstance {
    DeviceInstance {
        vid,
        pid,
        max_power_ma,
        pwr_attributes,
        control_cb_data: addr,
        rx_cb_data: addr,
        tx_cb_data: addr,
        num_string_descriptors,
    }
}

/// Re-invoking construction binds the self-references to the address in
/// force at that construction and to no other: no callback user-data
/// address of the newly constructed instance can still name an earlier
/// storage address.
pub proof fn lemma_reconstruction_refreshes_self_reference(
    first_addr: u64,
    second_addr: u64,
    vid: u16,
    pid: u16,
    max_power_ma: u16,
    pwr_attributes: u8,
    num_string_descriptors: u32,
)
    ensures
        ({
            let rebuilt = spec_constructed_instance(
                second_addr, vid, pid, max_power_ma, pwr_attributes, num_string_descriptors);
            &&& rebuilt.control_cb_data == second_addr
            &&& rebuilt.rx_cb_data == second_addr
            &&& rebuilt.tx_cb_data == second_addr
            &&& first_addr != second_addr ==> {
                &&& rebuilt.control_cb_data != first_addr
                &&& rebuilt.rx_cb_data != first_addr
                &&& rebuilt.tx_cb_data != first_addr
            }
        }),
{
}

/// Process-lifetime storage for the device instance. The address is
/// fixed when the slot is made and never moves; the contents may be
/// rebuilt any number of times until the slot is registered with the
/// driver, after which it is frozen to its foreign owner.
pub struct InstanceSlot {
    /// The slot's storage address, fixed for the process lifetime.
    pub addr: u64,
    /// The constructed instance, if construction has run.
    pub contents: Option<DeviceInstance>,
    /// The slot has been handed to the driver: no further mutation
    /// from this side.
    pub registered: bool,
}

impl InstanceSlot {
    /// An instance held by the slot self-references the slot's address
    /// and a slot is registered only once it holds an instance.
    pub open spec fn wf(self) -> bool {
        &&& match self.contents {
            Option::Some(inst) => {
                &&& inst.control_cb_data == self.addr
                &&& inst.rx_cb_data == self.addr
                &&& inst.tx_cb_data == self.addr
            },
            Option::None => !self.registered,
        }
    }

    /// Fix the final storage address; nothing is constructed yet.
    pub fn new(addr: u64) -> (slot: InstanceSlot)
        ensures
            slot.wf(),
            slot.addr == addr,
            slot.contents matches Option::None,
            !slot.registered,
    {
        InstanceSlot { addr, contents: Option::None, registered: false }
    }

    /// Construct the instance in place, in two phases: populate the
    /// identity fields with the callback addresses still null, then
    /// bind every callback user-data address to the slot's own, now
    /// fixed, address. Construction may run again — only before the
    /// slot escapes to the driver — and always lands on the current
    /// address, never a stale one.
    pub fn construct(
        &mut self,
        vid: u16,
        pid: u16,
        max_power_ma: u16,
        pwr_attributes: u8,
        num_string_descriptors: u32,
    )
        requires
            old(self).wf(),
            !old(self).registered,
        ensures
            final(self).wf(),
            final(self).addr == old(self).addr,
            !final(self).registered,
            final(self).contents == Option::Some(spec_constructed_instance(
                old(self).addr, vid, pid, max_power_ma, pwr_attributes,
                num_string_descriptors)),
    {
        let mut inst = DeviceInstance {
            vid,
            pid,
            max_power_ma,
            pwr_attributes,
            control_cb_data: 0,
            rx_cb_data: 0,
            tx_cb_data: 0,
            num_string_descriptors,
        };
        inst.control_cb_data = self.addr;
        inst.rx_cb_data = self.addr;
        inst.tx_cb_data = self.addr;
        self.contents = Option::Some(inst);
    }

    /// Hand the slot to the driver: from here on the instance is
    /// foreign-owned and this side exposes no further mutation.
    pub fn register(&mut self)
        requires
            old(self).wf(),
            old(self).contents matches Option::Some(_),
            !old(self).registered,
        ensures
            final(self).wf(),
            final(self).addr == old(self).addr,
            final(self).contents == old(self).contents,
            final(self).registered,
    {
        self.registered = true;
    }
}

/// The stack's mode latch: choosing forced-device mode is a one-way
/// commitment for the rest of the process.
#[derive(Clone, Copy, PartialEq, Eq, Structural, Debug)]
pub struct UsbStackModel {
    /// The operating mode in force.
    pub mode: tUSBMode,
    /// Device-only operation has been committed.
    pub committed: bool,
}

impl UsbStackModel {
    /// Once committed, the mode is forced-device and stays so.
    pub open spec fn wf(self) -> bool {
        self.committed ==> self.mode == tUSBMode::ForceDevice
    }

    /// A stack with no mode chosen yet.
    pub fn new() -> (s: UsbStackModel)
        ensures
            s.wf(),
            s.mode == tUSBMode::Unset,
            !s.committed,
    {
        UsbStackModel { mode: tUSBMode::Unset, committed: false }
    }
}

/// Force the stack into device-only mode: after this, host and
/// on-the-go code paths of the driver are unreachable for the rest of
/// the process.
pub fn usb_set_device_mode(stack: &mut UsbStackModel)
    requires
        old(stack).wf(),
    ensures
        final(stack).wf(),
        final(stack).mode == tUSBMode::ForceDevice,
        final(stack).committed,
{
    stack.mode = tUSBMode::ForceDevice;
    stack.committed = true;
}

} // verus!

use usb_cdc_bringup::device::{
    cdc_state_value, mode_value, tCDCState, tConfigHeader, tDescriptorHeader, tLineCoding,
    tUSBMode, tUSBRequest, usb_set_device_mode, InstanceSlot, UsbStackModel,
    NUM_STRING_DESCRIPTORS, USB_CONF_ATTR_SELF_PWR, USB_PID_SERIAL, USB_VID_TI_1CBE,
};
use usb_cdc_bringup::dispatch::{control_handler, rx_handler, tx_handler, USB_EVENT_HANDLED};

#[test]
fn mode_values_on_driver_boundary() {
    assert_eq!(mode_value(tUSBMode::Unset), 0);
    assert_eq!(mode_value(tUSBMode::Device), 1);
    assert_eq!(mode_value(tUSBMode::Host), 2);
    assert_eq!(mode_value(tUSBMode::OTG), 3);
    assert_eq!(mode_value(tUSBMode::ForceDevice), 4);
    assert_eq!(mode_value(tUSBMode::ForceHost), 5);
}

#[test]
fn cdc_state_values_on_driver_boundary() {
    assert_eq!(cdc_state_value(tCDCState::Idle), 0);
    assert_eq!(cdc_state_value(tCDCState::WaitingOnSendData), 1);
    assert_eq!(cdc_state_value(tCDCState::WaitingOnReceiveData), 2);
}

#[test]
fn wire_structs_carry_their_fields() {
    let req = tUSBRequest {
        bmRequestType: 0x80,
        bRequest: 0x06,
        wValue: 0x0301,
        wIndex: 0x0409,
        wLength: 64,
    };
    assert_eq!(req.bmRequestType, 0x80);
    let hdr = tDescriptorHeader { bLength: 4, bDescriptorType: 3 };
    assert_eq!(hdr.bLength, 4);
    let cfg = tConfigHeader { ui16TotalSize: 9, ui16NumInterfaces: 2, ui8ConfigIndex: 1 };
    assert_eq!(cfg.ui16NumInterfaces, 2);
    let coding = tLineCoding {
        ui32Rate: 115200,
        ui8CharFormat: 0,
        ui8ParityType: 0,
        ui8DataBits: 8,
    };
    assert_eq!(coding.ui32Rate, 115200);
}

#[test]
fn construction_binds_self_references_to_slot_address() {
    let mut slot = InstanceSlot::new(0x2000_0400);
    slot.construct(USB_VID_TI_1CBE, USB_PID_SERIAL, 0, USB_CONF_ATTR_SELF_PWR,
        NUM_STRING_DESCRIPTORS);
    let inst = slot.contents.expect("constructed");
    assert_eq!(inst.vid, 0x1cbe);
    assert_eq!(inst.pid, 0x0002);
    assert_eq!(inst.max_power_ma, 0);
    assert_eq!(inst.pwr_attributes, 0xC0);
    assert_eq!(inst.num_string_descriptors, 6);
    assert_eq!(inst.control_cb_data, 0x2000_0400);
    assert_eq!(inst.rx_cb_data, 0x2000_0400);
    assert_eq!(inst.tx_cb_data, 0x2000_0400);
}

#[test]
fn reconstruction_never_leaves_stale_self_references() {
    // construct once at a first storage address
    let mut first_slot = InstanceSlot::new(0x2000_0400);
    first_slot.construct(USB_VID_TI_1CBE, USB_PID_SERIAL, 0, USB_CONF_ATTR_SELF_PWR,
        NUM_STRING_DESCRIPTORS);
    let stale = first_slot.contents.expect("constructed").control_cb_data;
    // construct again, before registration, at the final storage address
    let mut final_slot = InstanceSlot::new(0x2000_0800);
    final_slot.construct(USB_VID_TI_1CBE, USB_PID_SERIAL, 0, USB_CONF_ATTR_SELF_PWR,
        NUM_STRING_DESCRIPTORS);
    let inst = final_slot.contents.expect("constructed");
    assert_eq!(inst.control_cb_data, 0x2000_0800);
    assert_eq!(inst.rx_cb_data, 0x2000_0800);
    assert_eq!(inst.tx_cb_data, 0x2000_0800);
    assert_ne!(inst.control_cb_data, stale);
    assert_ne!(inst.rx_cb_data, stale);
    assert_ne!(inst.tx_cb_data, stale);
}

#[test]
fn reconstructing_the_same_slot_lands_on_its_own_address() {
    let mut slot = InstanceSlot::new(0x2000_0400);
    slot.construct(USB_VID_TI_1CBE, USB_PID_SERIAL, 0, USB_CONF_ATTR_SELF_PWR,
        NUM_STRING_DESCRIPTORS);
    slot.construct(USB_VID_TI_1CBE, USB_PID_SERIAL, 0, USB_CONF_ATTR_SELF_PWR,
        NUM_STRING_DESCRIPTORS);
    let inst = slot.contents.expect("constructed");
    assert_eq!(inst.control_cb_data, 0x2000_0400);
    assert!(!slot.registered);
    slot.register();
    assert!(slot.registered);
}

#[test]
fn device_mode_commitment_is_one_way() {
    let mut stack = UsbStackModel::new();
    assert_eq!(stack.mode, tUSBMode::Unset);
    assert!(!stack.committed);
    usb_set_device_mode(&mut stack);
    assert_eq!(stack.mode, tUSBMode::ForceDevice);
    assert!(stack.committed);
    usb_set_device_mode(&mut stack);
    assert_eq!(stack.mode, tUSBMode::ForceDevice);
}

#[test]
fn dispatch_shim_acknowledges_every_event_class() {
    for event in 0..17u32 {
        assert_eq!(control_handler(0x2000_0400, event, 0, 0), USB_EVENT_HANDLED);
        assert_eq!(rx_handler(0x2000_0400, event, 7, 0), USB_EVENT_HANDLED);
        assert_eq!(tx_handler(0x2000_0400, event, 7, 0), USB_EVENT_HANDLED);
    }
}

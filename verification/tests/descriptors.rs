use usb_cdc_bringup::descriptors::{
    build_string_descriptor, config_descriptor, control_interface_descriptor,
    decode_string_descriptor, get_string_descriptors, language_descriptor,
    manufacturer_descriptor, product_descriptor, serial_descriptor, DescriptorStore,
};

fn utf16_units(text: &str) -> Vec<u16> {
    text.encode_utf16().collect()
}

fn assert_round_trip(buf: &Vec<u8>, expected_text: &str) {
    assert_eq!(buf[0] as usize, buf.len(), "length byte equals total size in bytes");
    assert_eq!(buf[1], 3, "string descriptor type tag");
    let units = decode_string_descriptor(buf).expect("well-formed descriptor");
    assert_eq!(units, utf16_units(expected_text));
}

#[test]
fn language_descriptor_bytes() {
    let buf = language_descriptor();
    assert_eq!(buf, vec![4u8, 3, 0x09, 0x04]);
}

#[test]
fn language_descriptor_round_trip() {
    let buf = language_descriptor();
    let units = decode_string_descriptor(&buf).expect("well-formed descriptor");
    assert_eq!(units, vec![0x0409u16]);
}

#[test]
fn manufacturer_descriptor_round_trip() {
    let buf = manufacturer_descriptor();
    assert_eq!(buf.len(), 36);
    assert_round_trip(&buf, "Texas Instruments");
}

#[test]
fn manufacturer_descriptor_exact_bytes() {
    let buf = manufacturer_descriptor();
    let expected: Vec<u8> = vec![
        36, 3, b'T', 0, b'e', 0, b'x', 0, b'a', 0, b's', 0, b' ', 0, b'I', 0, b'n', 0,
        b's', 0, b't', 0, b'r', 0, b'u', 0, b'm', 0, b'e', 0, b'n', 0, b't', 0, b's', 0,
    ];
    assert_eq!(buf, expected);
}

#[test]
fn product_descriptor_round_trip() {
    let buf = product_descriptor();
    assert_eq!(buf.len(), 34);
    assert_round_trip(&buf, "Virtual COM Port");
}

#[test]
fn serial_descriptor_round_trip() {
    let buf = serial_descriptor();
    assert_eq!(buf.len(), 18);
    assert_round_trip(&buf, "12345678");
}

#[test]
fn control_interface_descriptor_round_trip() {
    let buf = control_interface_descriptor();
    assert_eq!(buf.len(), 44);
    assert_round_trip(&buf, "ACM Control Interface");
}

#[test]
fn config_descriptor_round_trip() {
    let buf = config_descriptor();
    assert_eq!(buf.len(), 54);
    assert_round_trip(&buf, "Self Powered Configuration");
}

#[test]
fn empty_text_round_trips() {
    let units: Vec<u16> = Vec::new();
    let buf = build_string_descriptor(&units);
    assert_eq!(buf, vec![2u8, 3]);
    assert_eq!(decode_string_descriptor(&buf), Some(Vec::new()));
}

#[test]
fn largest_descriptor_round_trips() {
    // 126 units fill the length byte to 254, the largest even total
    let units: Vec<u16> = (0..126).map(|i| 0x100 + i as u16).collect();
    let buf = build_string_descriptor(&units);
    assert_eq!(buf.len(), 254);
    assert_eq!(buf[0], 254);
    assert_eq!(decode_string_descriptor(&buf), Some(units));
}

#[test]
fn non_ascii_units_round_trip() {
    let units = utf16_units("Tämä läite");
    let buf = build_string_descriptor(&units);
    assert_eq!(decode_string_descriptor(&buf), Some(units));
}

#[test]
fn decode_rejects_malformed_buffers() {
    assert_eq!(decode_string_descriptor(&vec![]), None);
    assert_eq!(decode_string_descriptor(&vec![1u8]), None);
    // length byte disagrees with the buffer size
    assert_eq!(decode_string_descriptor(&vec![6u8, 3, b'a', 0]), None);
    // wrong type tag
    assert_eq!(decode_string_descriptor(&vec![4u8, 2, b'a', 0]), None);
    // odd number of payload bytes
    assert_eq!(decode_string_descriptor(&vec![3u8, 3, b'a']), None);
}

#[test]
fn table_has_six_buffers_with_language_first() {
    let mut store = DescriptorStore::new();
    let table = get_string_descriptors(&mut store);
    assert_eq!(table.descriptor_count(), 6);
    assert_eq!(table.buffer(0), &vec![4u8, 3, 0x09, 0x04]);
    assert_eq!(table.buffer(1), &manufacturer_descriptor());
    assert_eq!(table.buffer(2), &product_descriptor());
    assert_eq!(table.buffer(3), &serial_descriptor());
    assert_eq!(table.buffer(4), &control_interface_descriptor());
    assert_eq!(table.buffer(5), &config_descriptor());
}

#[test]
fn every_table_entry_round_trips_by_its_own_length_byte() {
    let mut store = DescriptorStore::new();
    let table = get_string_descriptors(&mut store);
    let expected = [
        None,
        Some("Texas Instruments"),
        Some("Virtual COM Port"),
        Some("12345678"),
        Some("ACM Control Interface"),
        Some("Self Powered Configuration"),
    ];
    for i in 0..6 {
        let buf = table.buffer(i);
        assert_eq!(buf[0] as usize, buf.len());
        let units = decode_string_descriptor(buf).expect("well-formed descriptor");
        match expected[i] {
            Some(text) => assert_eq!(units, utf16_units(text)),
            None => assert_eq!(units, vec![0x0409u16]),
        }
    }
}

#[test]
fn store_constructs_once_then_freezes() {
    let mut store = DescriptorStore::new();
    assert!(store.table.is_none());
    let first: Vec<Vec<u8>> = get_string_descriptors(&mut store).bufs.clone();
    assert!(store.table.is_some());
    let second: Vec<Vec<u8>> = get_string_descriptors(&mut store).bufs.clone();
    assert_eq!(first, second);
}

use mochi_drivers::usb_descriptor::{
    config_total_length, config_transfer_length, decode_pointer_report, device_ids,
    hex_preview, parse_configuration, report_packet_len, PointerReport,
};
use mochi_drivers::xhci_setup::InterruptEndpoint;

fn hid_mouse_configuration() -> Vec<u8> {
    let mut page = vec![0u8; 4096];
    let set: [u8; 34] = [
        9, 2, 34, 0, 1, 1, 0, 0xa0, 50, // configuration
        9, 4, 0, 0, 1, 3, 1, 2, 0, // interface: HID, boot, mouse
        9, 0x21, 0x11, 1, 0, 1, 0x22, 52, 0, // HID: report descriptor of 52 bytes
        7, 5, 0x81, 3, 4, 0, 10, // endpoint 1 IN, interrupt, 4 bytes, 10 ms
    ];
    page[..34].copy_from_slice(&set);
    page
}

#[test]
fn configuration_walk_finds_the_hid_endpoint() {
    let page = hid_mouse_configuration();
    assert_eq!(config_total_length(&page), 34);
    assert_eq!(config_transfer_length(34, 4096), 34);
    assert_eq!(config_transfer_length(5000, 4096), 4096);
    let info = parse_configuration(&page, 34);
    assert_eq!(info.config_value, 1);
    assert_eq!(info.interface_number, 0);
    assert_eq!((info.interface_class, info.interface_subclass, info.interface_protocol), (3, 1, 2));
    assert_eq!(info.report_descriptor_len, 52);
    assert_eq!(
        info.interrupt_in,
        Some(InterruptEndpoint { address: 0x81, max_packet: 4, interval: 10 })
    );
}

#[test]
fn configuration_walk_stops_at_a_bad_length() {
    let mut page = hid_mouse_configuration();
    page[18] = 1;
    let info = parse_configuration(&page, 34);
    assert_eq!(info.interface_class, 3);
    assert_eq!(info.report_descriptor_len, 0);
    assert_eq!(info.interrupt_in, None);
    let page = hid_mouse_configuration();
    let info = parse_configuration(&page, 30);
    assert_eq!(info.report_descriptor_len, 52);
    assert_eq!(info.interrupt_in, None);
}

#[test]
fn out_endpoints_and_later_endpoints_are_ignored() {
    let mut page = vec![0u8; 64];
    let set: [u8; 23] = [
        9, 2, 23, 0, 1, 7, 0, 0xa0, 50,
        7, 5, 0x02, 3, 8, 0, 1, // OUT interrupt endpoint
        7, 5, 0x83, 3, 16, 0, 4, // IN interrupt endpoint
    ];
    page[..23].copy_from_slice(&set);
    let info = parse_configuration(&page, 23);
    assert_eq!(info.config_value, 7);
    assert_eq!(
        info.interrupt_in,
        Some(InterruptEndpoint { address: 0x83, max_packet: 16, interval: 4 })
    );
}

#[test]
fn device_descriptor_identifies_vendor_and_product() {
    assert_eq!(device_ids(0x0001_0627), (0x0627, 0x0001));
}

#[test]
fn previews_are_spaced_hex() {
    assert_eq!(hex_preview(&[0x00, 0xab, 0x7f], 3), b"00 ab 7f".to_vec());
    assert_eq!(hex_preview(&[0x05, 0xff], 1), b"05".to_vec());
}

#[test]
fn pointer_reports_are_decoded() {
    let r = [0x21, 0x34, 0x12, 0x78, 0x56, 0xff];
    assert_eq!(
        decode_pointer_report(&r, 6),
        Some(PointerReport { buttons: 1, x: 0x1234, y: 0x5678, wheel: -1 })
    );
    assert_eq!(decode_pointer_report(&r, 5).unwrap().wheel, 0);
    assert_eq!(decode_pointer_report(&r, 4), None);
    assert_eq!(report_packet_len(8, 4096), 8);
    assert_eq!(report_packet_len(8, 4), 4);
}

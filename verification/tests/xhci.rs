use mochi_drivers::xhci::{
    address_device_command, any_event_ready, build_setup_packet, command_succeeded,
    configure_endpoint_command, control_no_data, descriptor_read, doorbell_offset,
    doorbell_value, enable_slot_command, enabled_slot, endpoint_dci, hid_set_idle_request,
    hid_set_protocol_request, interrupt_in_transfer, link_trb, link_trb_offset,
    next_dequeue_offset, report_descriptor_read, scan_events, set_configuration_request,
    Completion, EventFilter, EventTrb, Trb, TrbRing,
};
use mochi_drivers::xhci_setup::{
    address_device_context, command_ring_control, context_size, decode_capabilities,
    decode_port_status, ep0_max_packet_size, event_segment, interrupt_endpoint_context,
    interval_field, is_halted, is_running, looks_like_xhci, port_reset_action,
    port_reset_complete, port_speed_name, portsc_offset, controller_ready, reset_done,
    select_port, subwindow, usbcmd_reset, usbcmd_running, usbcmd_stopped, window_layout,
    InterruptEndpoint, PortReset, RootPort,
};

#[test]
fn ring_fills_up_to_the_link_trb() {
    let mut ring = TrbRing::new(64);
    assert_eq!(ring.link_offset(), 48);
    let mut offsets = Vec::new();
    while ring.has_room() {
        let (offset, trb) = ring.enqueue(1, 2, 0x400);
        assert_eq!(trb, Trb { parameter: 1, status: 2, control: 0x401 });
        offsets.push(offset);
    }
    assert_eq!(offsets, vec![0, 16, 32]);
    assert_eq!(link_trb_offset(4096), 4080);
    assert_eq!(link_trb(0x1000), Trb { parameter: 0x1000, status: 0, control: 0x1803 });
}

fn event(code: u32, trb_type: u32, slot: u32, ready: bool) -> EventTrb {
    EventTrb { status: code << 24, control: (slot << 24) | (trb_type << 10) | ready as u32 }
}

#[test]
fn event_scan_takes_the_last_matching_completion() {
    let events = [
        event(1, 33, 1, true),
        event(4, 32, 1, true),
        event(13, 33, 2, true),
        event(1, 33, 3, false),
    ];
    assert!(any_event_ready(&events));
    let scan = scan_events(&events, EventFilter::OfType(33));
    assert_eq!(scan.completion, Some(Completion { code: 13, slot_id: 2 }));
    assert_eq!(scan.consumed, 3);
    let scan = scan_events(&events, EventFilter::TransferOf(1));
    assert_eq!(scan.completion, Some(Completion { code: 4, slot_id: 1 }));
    let scan = scan_events(&events, EventFilter::TransferOf(2));
    assert_eq!(scan.completion, None);
    let idle = [event(1, 33, 1, false); 4];
    assert!(!any_event_ready(&idle));
    assert_eq!(scan_events(&idle, EventFilter::OfType(33)).consumed, 0);
    assert_eq!(next_dequeue_offset(0, 256), None);
    assert_eq!(next_dequeue_offset(3, 256), Some(48));
    assert_eq!(next_dequeue_offset(256, 256), Some(0));
}

#[test]
fn command_completions_are_checked() {
    assert_eq!(enabled_slot(Completion { code: 1, slot_id: 2 }), Some(2));
    assert_eq!(enabled_slot(Completion { code: 1, slot_id: 0 }), None);
    assert_eq!(enabled_slot(Completion { code: 9, slot_id: 2 }), None);
    assert!(command_succeeded(Completion { code: 1, slot_id: 2 }, 2));
    assert!(!command_succeeded(Completion { code: 1, slot_id: 3 }, 2));
    assert_eq!(enable_slot_command().control, 9 << 10);
    assert_eq!(address_device_command(0x2000, 3).control, (11 << 10) | (3 << 24));
    assert_eq!(configure_endpoint_command(0x2000, 3).control, (12 << 10) | (3 << 24));
}

#[test]
fn setup_packets_pack_little_endian() {
    assert_eq!(build_setup_packet(0x80, 0x06, 0x0100, 0, 18), 0x0012_0000_0100_0680);
    let trbs = descriptor_read(0x3000, 1, 18);
    assert_eq!(trbs.len(), 3);
    assert_eq!(trbs[0].parameter, 0x0012_0000_0100_0680);
    assert_eq!(trbs[0].status, 8);
    assert_eq!(trbs[0].control, (2 << 10) | 0x40 | (3 << 16));
    assert_eq!(trbs[1], Trb { parameter: 0x3000, status: 18, control: (3 << 10) | 0x1_0000 });
    assert_eq!(trbs[2], Trb { parameter: 0, status: 0, control: (4 << 10) | 0x20 });
    let trbs = report_descriptor_read(0x3000, 1, 52);
    assert_eq!(trbs[0].parameter, build_setup_packet(0x81, 0x06, 0x2200, 1, 52));
    let trbs = control_no_data(0x21, 0x0a, 0, 1);
    assert_eq!(trbs.len(), 2);
    assert_eq!(trbs[1].control, (4 << 10) | 0x20 | 0x1_0000);
    assert_eq!(set_configuration_request(1)[0].parameter, build_setup_packet(0, 9, 1, 0, 0));
    assert_eq!(hid_set_idle_request(2)[0].parameter, build_setup_packet(0x21, 0x0a, 0, 2, 0));
    assert_eq!(hid_set_protocol_request(2, 1)[0].parameter, build_setup_packet(0x21, 0x0b, 1, 2, 0));
    assert_eq!(interrupt_in_transfer(0x4000, 8), Trb { parameter: 0x4000, status: 8, control: (1 << 10) | 0x24 });
}

#[test]
fn doorbells_and_endpoint_indices() {
    assert_eq!(endpoint_dci(0x81), 3);
    assert_eq!(endpoint_dci(0x02), 4);
    assert_eq!(endpoint_dci(0x00), 0);
    assert_eq!(doorbell_value(3, 0), 3);
    assert_eq!(doorbell_value(1, 2), 0x2_0001);
    assert_eq!(doorbell_offset(5), 20);
}

#[test]
fn controller_registers_are_decoded() {
    assert_eq!(usbcmd_stopped(0x5), 0x4);
    assert_eq!(usbcmd_reset(0x1), 0x3);
    assert_eq!(usbcmd_running(0x0), 0x1);
    assert!(is_running(0x1));
    assert!(is_halted(0x1));
    assert!(reset_done(0x1));
    assert!(!reset_done(0x2));
    assert!(controller_ready(0x1));
    assert!(!controller_ready(0x800));
    let caps = decode_capabilities(0x20, 0x0800_0840, 0x4, 0x2003, 0x3013);
    assert_eq!((caps.max_slots, caps.max_interrupters, caps.max_ports), (0x40, 8, 8));
    assert_eq!((caps.doorbell_offset, caps.runtime_offset), (0x2000, 0x3000));
    assert!(looks_like_xhci(0x20, 0x0800_0840));
    assert!(!looks_like_xhci(0x10, 0x0800_0840));
    assert!(!looks_like_xhci(0x20, 0x0800_0800));
    assert_eq!(port_speed_name(3), "high");
    assert_eq!(port_speed_name(9), "reserved");
}

#[test]
fn register_window_covers_whole_pages() {
    let w = window_layout(0xfebf_0010, 0x1_0000).unwrap();
    assert_eq!((w.page_base, w.page_offset, w.map_len), (0xfebf_0000, 0x10, 0x1_1000));
    assert!(subwindow(0x1_0000, 0x400, 0x10));
    assert!(!subwindow(0x1_0000, 0xfff8, 0x10));
    assert!(!subwindow(usize::MAX, usize::MAX, 2));
}

#[test]
fn ports_are_reset_and_selected() {
    assert_eq!(portsc_offset(0x20, 1), 0x430);
    assert_eq!(port_reset_action(0x0000_02a0), PortReset::Skip);
    assert_eq!(port_reset_action(0x0000_0209), PortReset::Skip);
    assert_eq!(port_reset_action(0x0000_0203), PortReset::Ready);
    assert_eq!(port_reset_action(0x0002_0201), PortReset::Reset(0x00fe_0211));
    assert!(port_reset_complete(0x0000_0203));
    assert!(!port_reset_complete(0x0000_0213));
    let st = decode_port_status(0x0000_0e03);
    assert!(st.connected && st.enabled && st.powered && !st.reset && !st.over_current);
    assert_eq!(st.speed_id, 3);
    let mut chosen = None;
    for (i, portsc) in [0x0000_0200u32, 0x0000_1203, 0x0000_0e03].iter().enumerate() {
        chosen = select_port(chosen, i as u8, *portsc);
    }
    assert_eq!(chosen, Some(RootPort { number: 2, speed_id: 4 }));
}

#[test]
fn input_contexts_follow_the_layout() {
    assert_eq!(context_size(0), 32);
    assert_eq!(context_size(4), 64);
    assert_eq!(ep0_max_packet_size(3), 64);
    assert_eq!(ep0_max_packet_size(5), 512);
    assert_eq!(ep0_max_packet_size(1), 8);
    let c = address_device_context(0, 3, 2, 0x5000);
    assert_eq!((c.add_flags, c.slot_offset, c.endpoint_offset), (3, 32, 64));
    assert_eq!(c.slot_dw0, (3 << 20) | (1 << 27));
    assert_eq!(c.slot_dw1, 2 << 16);
    assert_eq!(c.ep_dw1, (3 << 1) | (4 << 3) | (64 << 16));
    assert_eq!((c.ep_dequeue, c.ep_dw4), (0x5001, 8));
    assert_eq!(interval_field(0), 0);
    assert_eq!(interval_field(10), 9);
    assert_eq!(interval_field(200), 15);
    let ep = InterruptEndpoint { address: 0x81, max_packet: 8, interval: 10 };
    let c = interrupt_endpoint_context(4, 1, 1, ep, 0x6000);
    assert_eq!((c.add_flags, c.slot_offset, c.endpoint_offset), (9, 64, 192));
    assert_eq!(c.slot_dw0, (1 << 20) | (3 << 27));
    assert_eq!(c.ep_dw0, 9 << 16);
    assert_eq!(c.ep_dw1, (3 << 1) | (7 << 3) | (8 << 16));
    assert_eq!((c.ep_dequeue, c.ep_dw4), (0x6001, 8 | (8 << 16)));
    let seg = event_segment(0x7000, 4096);
    assert_eq!((seg.base, seg.trb_count), (0x7000, 256));
    assert_eq!(command_ring_control(0x8000), 0x8001);
}

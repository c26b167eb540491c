use mochi_drivers::net_device::{
    buffer_count, fill_tx_buffer, interface_device_id, link_state, link_up, queue_size,
    tx_descriptor_len, ErrnoClass, NetError, NetQueues, VirtioFault, BUFFER_LEN, MAX_FRAME_LEN,
    RX_QUEUE_LIMIT,
};
use mochi_drivers::net_service::{interface_summary, split_message, transmit_status};

fn buffer_with(written: usize) -> Vec<u8> {
    let mut b = vec![0u8; BUFFER_LEN];
    for (i, x) in b.iter_mut().enumerate().take(written) {
        *x = i as u8;
    }
    b
}

#[test]
fn received_frames_come_out_in_order() {
    let mut q = NetQueues::new(2, 2);
    q.rx_posted(0, 7);
    q.rx_posted(1, 9);
    assert_eq!(q.rx_returned(9), Ok(1));
    q.rx_deliver(40, &buffer_with(40));
    assert_eq!(q.rx_returned(7), Ok(0));
    q.rx_deliver(30, &buffer_with(30));
    let first = q.receive().unwrap();
    assert_eq!(first.len(), 28);
    assert_eq!(first[0], 12);
    let second = q.receive().unwrap();
    assert_eq!(second.len(), 18);
    assert_eq!(q.receive(), None);
    let s = q.stats();
    assert_eq!(s.rx_packets, 2);
    assert_eq!(s.rx_bytes, 46);
}

#[test]
fn unknown_heads_count_as_errors() {
    let mut q = NetQueues::new(1, 1);
    assert_eq!(q.rx_returned(3), Err(NetError::InvalidFrame));
    assert_eq!(q.tx_returned(3), Err(NetError::InvalidFrame));
    let s = q.stats();
    assert_eq!(s.rx_errors, 1);
    assert_eq!(s.tx_errors, 1);
}

#[test]
fn malformed_lengths_are_counted_not_queued() {
    let mut q = NetQueues::new(1, 1);
    q.rx_deliver(25, &buffer_with(25));
    q.rx_deliver(1527, &buffer_with(0));
    assert_eq!(q.receive(), None);
    assert_eq!(q.stats().rx_errors, 2);
}

#[test]
fn received_queue_is_bounded() {
    let mut q = NetQueues::new(1, 1);
    for _ in 0..RX_QUEUE_LIMIT + 3 {
        q.rx_deliver(60, &buffer_with(60));
    }
    assert_eq!(q.stats().rx_packets, RX_QUEUE_LIMIT as u64);
    assert_eq!(q.stats().rx_dropped, 3);
    let mut n = 0;
    while q.receive().is_some() {
        n += 1;
    }
    assert_eq!(n, RX_QUEUE_LIMIT);
}

#[test]
fn transmit_uses_free_buffers_until_exhausted() {
    let mut q = NetQueues::new(1, 2);
    assert_eq!(q.check_tx_frame(13), Err(NetError::InvalidFrame));
    assert_eq!(q.check_tx_frame(MAX_FRAME_LEN + 1), Err(NetError::InvalidFrame));
    assert_eq!(q.check_tx_frame(14), Ok(()));
    assert_eq!(q.reserve_tx_slot(), Ok(0));
    q.tx_posted(0, 4);
    q.tx_sent(60);
    assert_eq!(q.reserve_tx_slot(), Ok(1));
    q.tx_posted(1, 5);
    q.tx_sent(100);
    assert_eq!(q.reserve_tx_slot(), Err(NetError::QueueExhausted));
    assert_eq!(q.tx_returned(4), Ok(()));
    assert_eq!(q.reserve_tx_slot(), Ok(0));
    let s = q.stats();
    assert_eq!((s.tx_packets, s.tx_bytes, s.tx_errors, s.tx_dropped), (2, 160, 2, 1));
}

#[test]
fn rx_slots_are_checked() {
    let q = NetQueues::new(2, 0);
    assert_eq!(q.check_rx_slot(1), Ok(()));
    assert_eq!(q.check_rx_slot(2), Err(NetError::InvalidFrame));
    assert_eq!(q.rx_buffer_count(), 2);
    assert_eq!(q.tx_buffer_count(), 0);
}

#[test]
fn errors_map_to_errno_classes() {
    assert_eq!(NetError::Virtio(VirtioFault::Other).errno_class(), ErrnoClass::Io);
    assert_eq!(NetError::System(12).errno_class(), ErrnoClass::Raw(12));
    assert_eq!(NetError::InvalidConfig.errno_class(), ErrnoClass::InvalidArgument);
    assert_eq!(NetError::InvalidFrame.errno_class(), ErrnoClass::InvalidArgument);
    assert_eq!(NetError::QueueExhausted.errno_class(), ErrnoClass::TryAgain);
}

#[test]
fn queue_sizes_are_powers_of_two() {
    assert_eq!(queue_size(256), Ok(64));
    assert_eq!(queue_size(64), Ok(64));
    assert_eq!(queue_size(63), Ok(32));
    assert_eq!(queue_size(3), Ok(2));
    assert_eq!(queue_size(2), Ok(2));
    assert_eq!(queue_size(1), Err(NetError::Virtio(VirtioFault::InvalidQueueSize)));
    assert_eq!(queue_size(0), Err(NetError::Virtio(VirtioFault::InvalidQueueSize)));
    assert_eq!(buffer_count(64), 32);
    assert_eq!(buffer_count(16), 16);
}

#[test]
fn interface_identity_is_packed() {
    assert_eq!(interface_device_id(0, 3, 0), 0x0300);
    assert_eq!(interface_device_id(1, 2, 3), 0x01_0203);
    let info = interface_summary([1, 2, 3, 4, 5, 6], true, 0, 4, 0);
    assert_eq!(info.interface_id, 1);
    assert_eq!(info.mtu, 1500);
    assert_eq!(info.driver_id, 0x766e6574);
    assert_eq!(info.device_id, 0x400);
    assert_eq!(&info.driver_name, b"virtio-net\0\0");
}

#[test]
fn link_state_is_bit_zero_of_the_status() {
    assert!(link_up(1));
    assert!(!link_up(2));
    assert!(link_state(None));
    assert!(link_state(Some(3)));
    assert!(!link_state(Some(0)));
}

#[test]
fn transmit_buffer_holds_header_then_frame() {
    let mut b = vec![0xaau8; BUFFER_LEN];
    fill_tx_buffer(&mut b, &[1, 2, 3]);
    assert!(b[..12].iter().all(|x| *x == 0));
    assert_eq!(&b[12..15], &[1, 2, 3]);
    assert_eq!(b[15], 0xaa);
    assert_eq!(tx_descriptor_len(3), 15);
}

#[test]
fn ipc_word_splits_into_length_and_sender() {
    let m = split_message((7u64 << 32) | 42);
    assert_eq!((m.len, m.sender), (42, 7));
}

#[test]
fn transmit_status_reports_busy_and_failure() {
    assert_eq!(transmit_status(Ok(())), None);
    assert_eq!(transmit_status(Err(NetError::QueueExhausted)), Some(ErrnoClass::TryAgain));
    assert_eq!(transmit_status(Err(NetError::InvalidFrame)), Some(ErrnoClass::Io));
}

#[test]
fn every_returned_buffer_is_counted_once() {
    let mut q = NetQueues::new(1, 1);
    let mut expected = 0;
    for written in [10u32, 26, 60, 1526, 1527, 2000] {
        q.rx_deliver(written, &buffer_with(BUFFER_LEN));
        expected += 1;
        let s = q.stats();
        assert_eq!(s.rx_packets + s.rx_errors + s.rx_dropped, expected);
    }
    assert_eq!(q.stats().rx_packets, 3);
    assert_eq!(q.stats().rx_errors, 3);
}

use mochi_drivers::net_device::{BUFFER_LEN, RX_BUFFER_COUNT, RX_QUEUE_LIMIT};
use mochi_drivers::virtio_net::{
    received_frame_range, selected_features, FrameBoundsError, REQUESTED_FEATURES,
    VIRTIO_F_VERSION_1, VIRTIO_NET_F_MAC, VIRTIO_NET_HEADER_LEN,
};

#[test]
fn accepts_only_implemented_features() {
    let unsupported = 1 | (1 << 7) | (1 << 15) | (1 << 17) | (1 << 22);
    assert_eq!(
        selected_features(REQUESTED_FEATURES | unsupported),
        Some(REQUESTED_FEATURES)
    );
    assert_eq!(selected_features(VIRTIO_F_VERSION_1), None);
    assert_eq!(selected_features(VIRTIO_NET_F_MAC), None);
}

#[test]
fn modern_header_and_short_frames_are_fixed() {
    assert_eq!(VIRTIO_NET_HEADER_LEN, 12);
    assert_eq!(
        received_frame_range(25, 1_526),
        Err(FrameBoundsError::TooShort)
    );
    assert_eq!(received_frame_range(26, 1_526), Ok(12..26));
    assert_eq!(
        received_frame_range(1_527, 1_526),
        Err(FrameBoundsError::TooLong)
    );
}

#[test]
fn only_supported_features_are_selected() {
    let offered = REQUESTED_FEATURES | 1 | (1 << 15);
    assert_eq!(selected_features(offered), Some(REQUESTED_FEATURES))
}

#[test]
fn buffers_are_bounded() {
    assert!(RX_BUFFER_COUNT < RX_QUEUE_LIMIT);
    assert_eq!(BUFFER_LEN, 1526)
}

#[test]
fn negotiation_is_stable_and_monotonic() {
    let offered = REQUESTED_FEATURES | 0xff00;
    let negotiated = selected_features(offered).unwrap();
    assert_eq!(selected_features(negotiated), Some(negotiated));
    let more = selected_features(offered | 0x1_0000).unwrap();
    assert_eq!(more & negotiated, negotiated);
}

#[test]
fn accepted_frames_hold_an_ethernet_header() {
    for written in 0..1600 {
        if let Ok(r) = received_frame_range(written, 1526) {
            assert!(r.end - r.start >= 14);
            assert!(r.end <= 1526);
        }
    }
}

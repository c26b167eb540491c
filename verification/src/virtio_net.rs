//! Feature negotiation and received-frame bounds of the virtio network device.
use core::ops::Range;
use vstd::prelude::*;

verus! {

/// The device complies with the virtio 1.0 (modern) interface.
pub const VIRTIO_F_VERSION_1: u64 = 0x1_0000_0000;
/// The device reports a MAC address in its configuration space.
pub const VIRTIO_NET_F_MAC: u64 = 0x20;
/// The device reports the link status in its configuration space.
pub const VIRTIO_NET_F_STATUS: u64 = 0x1_0000;
/// Features without which the driver cannot operate.
pub const REQUIRED_FEATURES: u64 = 0x1_0000_0020;
/// Every feature the driver implements.
pub const REQUESTED_FEATURES: u64 = 0x1_0001_0020;
/// Length of the header that precedes each frame (modern devices).
pub const VIRTIO_NET_HEADER_LEN: usize = 12;
/// Length of an Ethernet header.
pub const ETHERNET_HEADER_LEN: usize = 14;

/// Why a buffer handed back by the device holds no usable frame.
#[derive(Clone, Copy, Debug, PartialEq, Eq, Structural)]
pub enum FrameBoundsError {
    /// Fewer bytes than a virtio header and an Ethernet header.
    TooShort,
    /// More bytes than the buffer holds.
    TooLong,
}

/// `bits` holds every bit of `mask`.
pub open spec fn has_all(bits: u64, mask: u64) -> bool {
    bits & mask == mask
}

/// The feature set that the driver acknowledges when `offered` is on offer:
/// none when a required feature is missing, else the offered features that
/// the driver implements.
pub open spec fn negotiated_features(offered: u64) -> Option<u64> {
    if has_all(offered, REQUIRED_FEATURES) {
        Some(offered & REQUESTED_FEATURES)
    } else {
        None
    }
}

/// Chooses the features to acknowledge from those the device offers.
pub fn selected_features(offered: u64) -> (r: Option<u64>)
    ensures
        r == negotiated_features(offered),
        r is None <==> !has_all(offered, REQUIRED_FEATURES),
        r matches Some(f) ==> has_all(f, REQUIRED_FEATURES) && f & !REQUESTED_FEATURES == 0
            && f & !offered == 0,
{
    if offered & REQUIRED_FEATURES != REQUIRED_FEATURES {
        return None;
    }
    let f = offered & REQUESTED_FEATURES;
    assert(has_all(f, REQUIRED_FEATURES) && f & !REQUESTED_FEATURES == 0 && f & !offered == 0)
        by (bit_vector)
        requires
            f == offered & 0x1_0001_0020u64,
            offered & 0x1_0000_0020u64 == 0x1_0000_0020u64,
    ;
    Some(f)
}

/// Smallest number of bytes a used receive buffer must hold.
pub open spec fn min_received_len() -> int {
    VIRTIO_NET_HEADER_LEN + ETHERNET_HEADER_LEN
}

/// The byte range of the Ethernet frame inside a receive buffer of
/// `buffer_len` bytes into which the device wrote `written` bytes: the
/// frame starts after the virtio header and ends where the device stopped.
pub fn received_frame_range(written: usize, buffer_len: usize) -> (r: Result<
    Range<usize>,
    FrameBoundsError,
>)
    ensures
        r matches Ok(range) <==> min_received_len() <= written <= buffer_len,
        r matches Ok(range) ==> range.start == VIRTIO_NET_HEADER_LEN && range.end == written
            && range.end - range.start >= ETHERNET_HEADER_LEN && range.end <= buffer_len,
        r == Err::<Range<usize>, FrameBoundsError>(FrameBoundsError::TooShort) <==> written
            < min_received_len(),
        r == Err::<Range<usize>, FrameBoundsError>(FrameBoundsError::TooLong) <==> (
        min_received_len() <= written && written > buffer_len),
{
    if written < VIRTIO_NET_HEADER_LEN + ETHERNET_HEADER_LEN {
        return Err(FrameBoundsError::TooShort);
    }
    if written > buffer_len {
        return Err(FrameBoundsError::TooLong);
    }
    Ok(VIRTIO_NET_HEADER_LEN..written)
}

/// Negotiation is stable: offering exactly the negotiated features again
/// negotiates the same features.
pub proof fn lemma_negotiation_is_idempotent(offered: u64)
    requires
        has_all(offered, REQUIRED_FEATURES),
    ensures
        negotiated_features(negotiated_features(offered).unwrap()) == negotiated_features(offered),
{
    let f = offered & REQUESTED_FEATURES;
    assert(has_all(f, REQUIRED_FEATURES) && f & REQUESTED_FEATURES == f) by (bit_vector)
        requires
            f == offered & 0x1_0001_0020u64,
            offered & 0x1_0000_0020u64 == 0x1_0000_0020u64,
    ;
}

/// More features on offer never lose a feature that was negotiated.
pub proof fn lemma_negotiation_is_monotonic(offered: u64, more: u64)
    requires
        has_all(offered, REQUIRED_FEATURES),
    ensures
        negotiated_features(offered | more) matches Some(g) && has_all(
            g,
            negotiated_features(offered).unwrap(),
        ),
{
    let f = offered & REQUESTED_FEATURES;
    let g = (offered | more) & REQUESTED_FEATURES;
    assert(has_all(offered | more, REQUIRED_FEATURES) && has_all(g, f)) by (bit_vector)
        requires
            f == offered & 0x1_0001_0020u64,
            g == (offered | more) & 0x1_0001_0020u64,
            offered & 0x1_0000_0020u64 == 0x1_0000_0020u64,
    ;
}

} // verus!

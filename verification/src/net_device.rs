//! Bookkeeping of the virtio network device: which receive and transmit
//! buffers the device holds, the queue of received frames, the traffic
//! statistics, and the sizing of the virtqueues.
use crate::virtio_net::{received_frame_range, ETHERNET_HEADER_LEN, VIRTIO_NET_HEADER_LEN};
use std::collections::VecDeque;
use vstd::prelude::*;

verus! {

/// Index of the receive virtqueue.
pub const RX_QUEUE: u16 = 0;
/// Index of the transmit virtqueue.
pub const TX_QUEUE: u16 = 1;
/// Largest virtqueue the driver sets up.
pub const MAX_QUEUE_SIZE: u16 = 64;
/// Largest number of buffers the driver posts to each virtqueue.
pub const RX_BUFFER_COUNT: usize = 32;
/// Largest number of received frames kept for the client.
pub const RX_QUEUE_LIMIT: usize = 64;
/// Largest Ethernet frame (without frame check sequence) the driver carries.
pub const MAX_FRAME_LEN: usize = 1514;
/// Length of each DMA buffer: a virtio header and the largest frame.
pub const BUFFER_LEN: usize = 1526;
/// Maximum transmission unit reported for the interface.
pub const INTERFACE_MTU: u32 = 1500;
/// Driver identifier reported for the interface ("vnet").
pub const DRIVER_ID: u32 = 0x766e_6574;

/// Errors of the virtio transport, as far as the driver tells them apart.
#[derive(Clone, Copy, Debug, PartialEq, Eq, Structural)]
pub enum VirtioFault {
    InvalidQueueSize,
    AccessFailed,
    InvalidBar,
    RegionOverflow,
    RegisterOutOfBounds,
    QueueUnavailable,
    /// Any other failure of the transport.
    Other,
}

/// Why an operation of the network device failed.
#[derive(Clone, Copy, Debug, PartialEq, Eq, Structural)]
pub enum NetError {
    /// The virtio transport failed.
    Virtio(VirtioFault),
    /// A system call failed with this error number.
    System(u64),
    /// The device lacks a configuration region.
    InvalidConfig,
    /// Every transmit buffer is in flight.
    QueueExhausted,
    /// A frame was malformed, or the device returned an unknown buffer.
    InvalidFrame,
}

/// The class of error number that a failure is reported with.
#[derive(Clone, Copy, Debug, PartialEq, Eq, Structural)]
pub enum ErrnoClass {
    /// Input/output error.
    Io,
    /// Invalid argument.
    InvalidArgument,
    /// Resource temporarily unavailable.
    TryAgain,
    /// This error number, as the system reported it.
    Raw(u64),
}

impl NetError {
    /// The error number class that reports this error to a client.
    pub open spec fn errno_spec(self) -> ErrnoClass {
        match self {
            NetError::Virtio(_) => ErrnoClass::Io,
            NetError::System(errno) => ErrnoClass::Raw(errno),
            NetError::InvalidConfig | NetError::InvalidFrame => ErrnoClass::InvalidArgument,
            NetError::QueueExhausted => ErrnoClass::TryAgain,
        }
    }

    pub fn errno_class(&self) -> (r: ErrnoClass)
        ensures
            r == self.errno_spec(),
    {
        match self {
            NetError::Virtio(_) => ErrnoClass::Io,
            NetError::System(errno) => ErrnoClass::Raw(*errno),
            NetError::InvalidConfig | NetError::InvalidFrame => ErrnoClass::InvalidArgument,
            NetError::QueueExhausted => ErrnoClass::TryAgain,
        }
    }
}

/// Traffic counters of the interface.
#[derive(Clone, Copy, Debug, PartialEq, Eq, Structural)]
pub struct NetStats {
    pub rx_packets: u64,
    pub rx_bytes: u64,
    pub rx_errors: u64,
    pub rx_dropped: u64,
    pub tx_packets: u64,
    pub tx_bytes: u64,
    pub tx_errors: u64,
    pub tx_dropped: u64,
}

/// Room left in each counter before it could overflow.
pub open spec fn counter_headroom() -> u64 {
    0xffff_ffff_ffff_0000
}

impl NetStats {
    pub fn zero() -> (r: Self)
        ensures
            r.all_below(counter_headroom()),
            r.rx_packets == 0 && r.rx_bytes == 0 && r.rx_errors == 0 && r.rx_dropped == 0,
            r.tx_packets == 0 && r.tx_bytes == 0 && r.tx_errors == 0 && r.tx_dropped == 0,
    {
        NetStats {
            rx_packets: 0,
            rx_bytes: 0,
            rx_errors: 0,
            rx_dropped: 0,
            tx_packets: 0,
            tx_bytes: 0,
            tx_errors: 0,
            tx_dropped: 0,
        }
    }

    /// Every counter is below `limit`.
    pub open spec fn all_below(self, limit: u64) -> bool {
        &&& self.rx_packets < limit
        &&& self.rx_bytes < limit
        &&& self.rx_errors < limit
        &&& self.rx_dropped < limit
        &&& self.tx_packets < limit
        &&& self.tx_bytes < limit
        &&& self.tx_errors < limit
        &&& self.tx_dropped < limit
    }

    /// Receive buffers returned by the device so far: frames queued, frames
    /// malformed and frames dropped.
    pub open spec fn rx_outcomes(self) -> int {
        self.rx_packets + self.rx_errors + self.rx_dropped
    }

    /// No counter of `self` is below that of `earlier`.
    pub open spec fn dominates(self, earlier: Self) -> bool {
        &&& self.rx_packets >= earlier.rx_packets
        &&& self.rx_bytes >= earlier.rx_bytes
        &&& self.rx_errors >= earlier.rx_errors
        &&& self.rx_dropped >= earlier.rx_dropped
        &&& self.tx_packets >= earlier.tx_packets
        &&& self.tx_bytes >= earlier.tx_bytes
        &&& self.tx_errors >= earlier.tx_errors
        &&& self.tx_dropped >= earlier.tx_dropped
    }

    /// Every counter leaves room for the next update, so that counting
    /// never overflows.
    pub fn has_headroom(&self) -> (r: bool)
        ensures
            r == self.all_below(counter_headroom()),
    {
        let limit: u64 = 0xffff_ffff_ffff_0000;
        self.rx_packets < limit && self.rx_bytes < limit && self.rx_errors < limit
            && self.rx_dropped < limit && self.tx_packets < limit && self.tx_bytes < limit
            && self.tx_errors < limit && self.tx_dropped < limit
    }
}

/// The first index of `heads` that holds `target`, if any.
pub open spec fn first_index_of(heads: Seq<Option<u16>>, target: Option<u16>) -> Option<int> {
    if exists|i: int| 0 <= i < heads.len() && heads[i] == target {
        Some(
            choose|i: int|
                0 <= i < heads.len() && heads[i] == target && forall|j: int|
                    0 <= j < i ==> heads[j] != target,
        )
    } else {
        None
    }
}

/// A buffer posted under a chain head that no buffer before it holds is the
/// buffer that the return of that head names.
pub proof fn lemma_posted_buffer_is_found(heads: Seq<Option<u16>>, slot: int, head: u16)
    requires
        0 <= slot < heads.len(),
        forall|j: int| 0 <= j < slot ==> heads[j] != Some(head),
    ensures
        first_index_of(heads.update(slot, Some(head)), Some(head)) == Some(slot),
{
    let h = heads.update(slot, Some(head));
    assert(0 <= slot < h.len() && h[slot] == Some(head) && forall|j: int|
        0 <= j < slot ==> h[j] != Some(head));
    let k = choose|k: int|
        0 <= k < h.len() && h[k] == Some(head) && forall|j: int| 0 <= j < k ==> h[j] != Some(head);
    if k < slot {
        assert(h[k] == heads[k]);
    } else if k > slot {
        assert(h[slot] != Some(head));
    }
}

fn find_head(heads: &Vec<Option<u16>>, target: Option<u16>) -> (r: Option<usize>)
    ensures
        match r {
            Some(i) => i < heads@.len() && heads@[i as int] == target && forall|j: int|
                0 <= j < i ==> heads@[j] != target,
            None => forall|j: int| 0 <= j < heads@.len() ==> heads@[j] != target,
        },
        r matches Some(i) ==> first_index_of(heads@, target) == Some(i as int),
        r is None ==> first_index_of(heads@, target) is None,
{
    let mut i: usize = 0;
    while i < heads.len()
        invariant
            i <= heads@.len(),
            forall|j: int| 0 <= j < i ==> heads@[j] != target,
        decreases heads@.len() - i,
    {
        if heads[i] == target {
            proof {
                let k = choose|k: int|
                    0 <= k < heads@.len() && heads@[k] == target && forall|j: int|
                        0 <= j < k ==> heads@[j] != target;
                assert(0 <= i < heads@.len() && heads@[i as int] == target && forall|j: int|
                    0 <= j < i ==> heads@[j] != target);
                if k < i {
                } else if k > i {
                    assert(heads@[i as int] != target);
                }
            }
            return Some(i);
        }
        i = i + 1;
    }
    None
}

/// The driver's record of the buffers it shares with the device, the
/// frames received for the client, and the traffic counters.
pub struct NetQueues {
    rx_heads: Vec<Option<u16>>,
    tx_heads: Vec<Option<u16>>,
    received: VecDeque<Vec<u8>>,
    stats: NetStats,
}

/// A frame as kept for the client: an Ethernet header at least, the
/// largest frame at most.
pub open spec fn frame_len_ok(len: nat) -> bool {
    ETHERNET_HEADER_LEN <= len <= MAX_FRAME_LEN
}

/// The frame queue after a receive buffer into which the device wrote
/// `written` bytes is taken: the frame joins the queue when its length is
/// valid and the queue has room.
pub open spec fn queue_after_delivery(queue: Seq<Seq<u8>>, written: u32, buffer: Seq<u8>) -> Seq<
    Seq<u8>,
> {
    if VIRTIO_NET_HEADER_LEN + ETHERNET_HEADER_LEN <= written <= BUFFER_LEN && queue.len()
        < RX_QUEUE_LIMIT {
        queue.push(buffer.subrange(VIRTIO_NET_HEADER_LEN as int, written as int))
    } else {
        queue
    }
}

/// The frame queue after the buffers `used` are taken in order, each given
/// as the number of bytes written and the buffer.
pub open spec fn queue_after_deliveries(queue: Seq<Seq<u8>>, used: Seq<(u32, Seq<u8>)>) -> Seq<
    Seq<u8>,
>
    decreases used.len(),
{
    if used.len() == 0 {
        queue
    } else {
        let (written, buffer) = used.last();
        queue_after_delivery(queue_after_deliveries(queue, used.drop_last()), written, buffer)
    }
}

/// Whatever buffers the device returns, the queue of received frames stays
/// within `RX_QUEUE_LIMIT`, the frames queued before stay first and
/// unchanged, and every frame added is the frame part of a returned buffer
/// with a valid length.
pub proof fn lemma_deliveries_keep_queue(queue: Seq<Seq<u8>>, used: Seq<(u32, Seq<u8>)>)
    requires
        queue.len() <= RX_QUEUE_LIMIT,
    ensures
        queue_after_deliveries(queue, used).len() <= RX_QUEUE_LIMIT,
        queue_after_deliveries(queue, used).len() >= queue.len(),
        queue_after_deliveries(queue, used).take(queue.len() as int) == queue,
        forall|k: int|
            #![trigger queue_after_deliveries(queue, used)[k]]
            queue.len() <= k < queue_after_deliveries(queue, used).len() ==> exists|i: int|
                0 <= i < used.len() && VIRTIO_NET_HEADER_LEN + ETHERNET_HEADER_LEN
                    <= (#[trigger] used[i]).0 <= BUFFER_LEN && queue_after_deliveries(
                    queue,
                    used,
                )[k] == used[i].1.subrange(VIRTIO_NET_HEADER_LEN as int, used[i].0 as int),
    decreases used.len(),
{
    if used.len() > 0 {
        let prefix = used.drop_last();
        lemma_deliveries_keep_queue(queue, prefix);
        let before = queue_after_deliveries(queue, prefix);
        let after = queue_after_deliveries(queue, used);
        let (written, buffer) = used.last();
        assert(after == queue_after_delivery(before, written, buffer));
        assert(after.take(queue.len() as int) =~= queue) by {
            assert forall|k: int| 0 <= k < queue.len() implies after[k] == queue[k] by {
                assert(before.take(queue.len() as int)[k] == queue[k]);
            }
        }
        assert forall|k: int| #![trigger after[k]] queue.len() <= k < after.len() implies exists|i: int|
            0 <= i < used.len() && VIRTIO_NET_HEADER_LEN + ETHERNET_HEADER_LEN
                <= (#[trigger] used[i]).0 <= BUFFER_LEN && after[k] == used[i].1.subrange(
                VIRTIO_NET_HEADER_LEN as int,
                used[i].0 as int,
            ) by {
            if k < before.len() {
                let i = choose|i: int|
                    0 <= i < prefix.len() && VIRTIO_NET_HEADER_LEN + ETHERNET_HEADER_LEN
                        <= (#[trigger] prefix[i]).0 <= BUFFER_LEN && before[k]
                        == prefix[i].1.subrange(VIRTIO_NET_HEADER_LEN as int, prefix[i].0 as int);
                assert(used[i] == prefix[i]);
                assert(after[k] == before[k]);
            } else {
                let i = used.len() - 1;
                assert(used[i] == (written, buffer));
            }
        }
    }
}

impl NetQueues {
    /// For each receive buffer, the descriptor chain head under which the
    /// device holds it (none when the driver holds it).
    pub closed spec fn rx_heads(&self) -> Seq<Option<u16>> {
        self.rx_heads@
    }

    /// For each transmit buffer, the chain head under which the device holds
    /// it (none when the buffer is free).
    pub closed spec fn tx_heads(&self) -> Seq<Option<u16>> {
        self.tx_heads@
    }

    /// The received frames waiting for the client, oldest first.
    pub closed spec fn received(&self) -> Seq<Seq<u8>> {
        self.received@.map_values(|f: Vec<u8>| f@)
    }

    pub closed spec fn stats_spec(&self) -> NetStats {
        self.stats
    }

    /// At most `RX_QUEUE_LIMIT` frames wait, each of a valid length.
    pub closed spec fn wf(&self) -> bool {
        &&& self.received@.len() <= RX_QUEUE_LIMIT
        &&& forall|i: int|
            0 <= i < self.received@.len() ==> frame_len_ok(#[trigger] self.received@[i]@.len())
    }

    /// Counting stays clear of overflow.
    pub open spec fn can_count(&self) -> bool {
        self.stats_spec().all_below(counter_headroom())
    }

    /// Records for `rx_count` receive and `tx_count` transmit buffers, all
    /// held by the driver, with nothing received and nothing counted.
    pub fn new(rx_count: usize, tx_count: usize) -> (r: Self)
        ensures
            r.wf(),
            r.can_count(),
            r.rx_heads() == Seq::new(rx_count as nat, |i: int| None::<u16>),
            r.tx_heads() == Seq::new(tx_count as nat, |i: int| None::<u16>),
            r.received().len() == 0,
            r.stats_spec() == NetStats::zero_spec(),
    {
        let mut rx_heads: Vec<Option<u16>> = Vec::new();
        let mut i: usize = 0;
        while i < rx_count
            invariant
                i <= rx_count,
                rx_heads@ == Seq::new(i as nat, |k: int| None::<u16>),
            decreases rx_count - i,
        {
            rx_heads.push(None);
            i = i + 1;
            assert(rx_heads@ =~= Seq::new(i as nat, |k: int| None::<u16>));
        }
        let mut tx_heads: Vec<Option<u16>> = Vec::new();
        let mut i: usize = 0;
        while i < tx_count
            invariant
                i <= tx_count,
                tx_heads@ == Seq::new(i as nat, |k: int| None::<u16>),
            decreases tx_count - i,
        {
            tx_heads.push(None);
            i = i + 1;
            assert(tx_heads@ =~= Seq::new(i as nat, |k: int| None::<u16>));
        }
        let r = NetQueues { rx_heads, tx_heads, received: VecDeque::new(), stats: NetStats::zero() };
        assert(r.received() =~= Seq::<Seq<u8>>::empty());
        r
    }

    pub fn stats(&self) -> (r: NetStats)
        ensures
            r == self.stats_spec(),
    {
        self.stats
    }

    pub fn rx_buffer_count(&self) -> (r: usize)
        ensures
            r == self.rx_heads().len(),
    {
        self.rx_heads.len()
    }

    pub fn tx_buffer_count(&self) -> (r: usize)
        ensures
            r == self.tx_heads().len(),
    {
        self.tx_heads.len()
    }

    /// Before a receive buffer is handed to the device: the buffer must
    /// exist.
    pub fn check_rx_slot(&self, slot: usize) -> (r: Result<(), NetError>)
        ensures
            r is Ok <==> slot < self.rx_heads().len(),
            r is Err ==> r == Err::<(), NetError>(NetError::InvalidFrame),
    {
        if slot < self.rx_heads.len() {
            Ok(())
        } else {
            Err(NetError::InvalidFrame)
        }
    }

    /// The device now holds receive buffer `slot` under chain head `head`.
    pub fn rx_posted(&mut self, slot: usize, head: u16)
        requires
            old(self).wf(),
            slot < old(self).rx_heads().len(),
        ensures
            final(self).wf(),
            final(self).stats_spec().dominates(old(self).stats_spec()),
            final(self).rx_heads() == old(self).rx_heads().update(slot as int, Some(head)),
            final(self).tx_heads() == old(self).tx_heads(),
            final(self).received() == old(self).received(),
            final(self).stats_spec() == old(self).stats_spec(),
    {
        self.rx_heads.set(slot, Some(head));
    }

    /// The device returned the receive chain `head`: the buffer it names is
    /// the driver's again.  A head that names no buffer is an error and is
    /// counted as one.
    pub fn rx_returned(&mut self, head: u16) -> (r: Result<usize, NetError>)
        requires
            old(self).wf(),
            old(self).can_count(),
        ensures
            final(self).wf(),
            final(self).stats_spec().dominates(old(self).stats_spec()),
            final(self).tx_heads() == old(self).tx_heads(),
            final(self).received() == old(self).received(),
            match first_index_of(old(self).rx_heads(), Some(head)) {
                Some(slot) => {
                    &&& r == Ok::<usize, NetError>(slot as usize)
                    &&& final(self).rx_heads() == old(self).rx_heads().update(slot, None)
                    &&& final(self).stats_spec() == old(self).stats_spec()
                },
                None => {
                    &&& r == Err::<usize, NetError>(NetError::InvalidFrame)
                    &&& final(self).rx_heads() == old(self).rx_heads()
                    &&& final(self).stats_spec() == (NetStats {
                        rx_errors: (old(self).stats_spec().rx_errors + 1) as u64,
                        ..old(self).stats_spec()
                    })
                },
            },
    {
        match find_head(&self.rx_heads, Some(head)) {
            Some(slot) => {
                self.rx_heads.set(slot, None);
                Ok(slot)
            },
            None => {
                self.stats.rx_errors = self.stats.rx_errors + 1;
                Err(NetError::InvalidFrame)
            },
        }
    }

    /// Takes the frame of a receive buffer into which the device wrote
    /// `written` bytes (`buffer` holds the buffer, which may extend past
    /// `BUFFER_LEN`).  A malformed
    /// length counts as a receive error, a full queue drops the frame and
    /// counts it, and otherwise the frame joins the queue and is counted.
    pub fn rx_deliver(&mut self, written: u32, buffer: &[u8])
        requires
            old(self).wf(),
            old(self).can_count(),
            buffer@.len() >= BUFFER_LEN,
        ensures
            final(self).stats_spec().rx_outcomes() == old(self).stats_spec().rx_outcomes() + 1,
            final(self).received() == queue_after_delivery(old(self).received(), written, buffer@),
            final(self).wf(),
            final(self).stats_spec().dominates(old(self).stats_spec()),
            final(self).rx_heads() == old(self).rx_heads(),
            final(self).tx_heads() == old(self).tx_heads(),
            !(VIRTIO_NET_HEADER_LEN + ETHERNET_HEADER_LEN <= written <= BUFFER_LEN) ==> {
                &&& final(self).received() == old(self).received()
                &&& final(self).stats_spec() == (NetStats {
                    rx_errors: (old(self).stats_spec().rx_errors + 1) as u64,
                    ..old(self).stats_spec()
                })
            },
            (VIRTIO_NET_HEADER_LEN + ETHERNET_HEADER_LEN <= written <= BUFFER_LEN
                && old(self).received().len() >= RX_QUEUE_LIMIT) ==> {
                &&& final(self).received() == old(self).received()
                &&& final(self).stats_spec() == (NetStats {
                    rx_dropped: (old(self).stats_spec().rx_dropped + 1) as u64,
                    ..old(self).stats_spec()
                })
            },
            (VIRTIO_NET_HEADER_LEN + ETHERNET_HEADER_LEN <= written <= BUFFER_LEN
                && old(self).received().len() < RX_QUEUE_LIMIT) ==> {
                &&& final(self).received() == old(self).received().push(
                    buffer@.subrange(VIRTIO_NET_HEADER_LEN as int, written as int),
                )
                &&& final(self).stats_spec() == (NetStats {
                    rx_packets: (old(self).stats_spec().rx_packets + 1) as u64,
                    rx_bytes: (old(self).stats_spec().rx_bytes + written
                        - VIRTIO_NET_HEADER_LEN) as u64,
                    ..old(self).stats_spec()
                })
            },
    {
        let frame_range = received_frame_range(written as usize, BUFFER_LEN);
        match frame_range {
            Err(_) => {
                self.stats.rx_errors = self.stats.rx_errors + 1;
            },
            Ok(range) => {
                if self.received.len() >= RX_QUEUE_LIMIT {
                    self.stats.rx_dropped = self.stats.rx_dropped + 1;
                } else {
                    let frame = vstd::slice::slice_to_vec(&buffer[range]);
                    let len = frame.len();
                    self.stats.rx_packets = self.stats.rx_packets + 1;
                    self.stats.rx_bytes = self.stats.rx_bytes + len as u64;
                    let ghost before = self.received@;
                    self.received.push_back(frame);
                    proof {
                        assert(self.received@ == before.push(frame));
                        assert forall|i: int| 0 <= i < self.received@.len() implies frame_len_ok(
                            #[trigger] self.received@[i]@.len(),
                        ) by {
                            if i < before.len() {
                                assert(self.received@[i] == before[i]);
                            }
                        }
                        assert(self.received@.map_values(|f: Vec<u8>| f@) =~= before.map_values(
                            |f: Vec<u8>| f@,
                        ).push(frame@));
                    }
                }
            },
        }
    }

    /// Hands the oldest received frame to the client.
    pub fn receive(&mut self) -> (r: Option<Vec<u8>>)
        requires
            old(self).wf(),
        ensures
            final(self).wf(),
            final(self).stats_spec().dominates(old(self).stats_spec()),
            final(self).rx_heads() == old(self).rx_heads(),
            final(self).tx_heads() == old(self).tx_heads(),
            final(self).stats_spec() == old(self).stats_spec(),
            old(self).received().len() == 0 ==> r is None && final(self).received() == old(
                self).received(),
            old(self).received().len() > 0 ==> (r matches Some(f) && f@ == old(self).received()[0]
                && final(self).received() == old(self).received().drop_first()),
    {
        let ghost before = self.received@;
        let r = self.received.pop_front();
        proof {
            if before.len() > 0 {
                assert(self.received@.map_values(|f: Vec<u8>| f@) =~= before.map_values(
                    |f: Vec<u8>| f@,
                ).drop_first());
                assert forall|i: int| 0 <= i < self.received@.len() implies frame_len_ok(
                    #[trigger] self.received@[i]@.len(),
                ) by {
                    assert(self.received@[i] == before[i + 1]);
                }
            }
        }
        r
    }

    /// The device returned the transmit chain `head`: its buffer is free.
    /// A head that names no buffer is an error and is counted as one.
    pub fn tx_returned(&mut self, head: u16) -> (r: Result<(), NetError>)
        requires
            old(self).wf(),
            old(self).can_count(),
        ensures
            final(self).wf(),
            final(self).stats_spec().dominates(old(self).stats_spec()),
            final(self).rx_heads() == old(self).rx_heads(),
            final(self).received() == old(self).received(),
            match first_index_of(old(self).tx_heads(), Some(head)) {
                Some(slot) => {
                    &&& r is Ok
                    &&& final(self).tx_heads() == old(self).tx_heads().update(slot, None)
                    &&& final(self).stats_spec() == old(self).stats_spec()
                },
                None => {
                    &&& r == Err::<(), NetError>(NetError::InvalidFrame)
                    &&& final(self).tx_heads() == old(self).tx_heads()
                    &&& final(self).stats_spec() == (NetStats {
                        tx_errors: (old(self).stats_spec().tx_errors + 1) as u64,
                        ..old(self).stats_spec()
                    })
                },
            },
    {
        match find_head(&self.tx_heads, Some(head)) {
            Some(slot) => {
                self.tx_heads.set(slot, None);
                Ok(())
            },
            None => {
                self.stats.tx_errors = self.stats.tx_errors + 1;
                Err(NetError::InvalidFrame)
            },
        }
    }

    /// Checks the length of a frame the client asks to send; a frame shorter
    /// than an Ethernet header or longer than the largest frame is refused
    /// and counted as a transmit error.
    pub fn check_tx_frame(&mut self, frame_len: usize) -> (r: Result<(), NetError>)
        requires
            old(self).wf(),
            old(self).can_count(),
        ensures
            final(self).wf(),
            final(self).stats_spec().dominates(old(self).stats_spec()),
            final(self).rx_heads() == old(self).rx_heads(),
            final(self).tx_heads() == old(self).tx_heads(),
            final(self).received() == old(self).received(),
            r is Ok <==> frame_len_ok(frame_len as nat),
            r is Ok ==> final(self).stats_spec() == old(self).stats_spec(),
            r is Err ==> r == Err::<(), NetError>(NetError::InvalidFrame) && final(
                self).stats_spec() == (NetStats {
                tx_errors: (old(self).stats_spec().tx_errors + 1) as u64,
                ..old(self).stats_spec()
            }),
    {
        if frame_len < ETHERNET_HEADER_LEN || frame_len > MAX_FRAME_LEN {
            self.stats.tx_errors = self.stats.tx_errors + 1;
            return Err(NetError::InvalidFrame);
        }
        Ok(())
    }

    /// Picks the first free transmit buffer; when every buffer is in flight
    /// the frame is dropped and counted.
    pub fn reserve_tx_slot(&mut self) -> (r: Result<usize, NetError>)
        requires
            old(self).wf(),
            old(self).can_count(),
        ensures
            final(self).wf(),
            final(self).stats_spec().dominates(old(self).stats_spec()),
            final(self).rx_heads() == old(self).rx_heads(),
            final(self).tx_heads() == old(self).tx_heads(),
            final(self).received() == old(self).received(),
            match first_index_of(old(self).tx_heads(), None) {
                Some(slot) => r == Ok::<usize, NetError>(slot as usize) && final(
                    self).stats_spec() == old(self).stats_spec(),
                None => r == Err::<usize, NetError>(NetError::QueueExhausted) && final(
                    self).stats_spec() == (NetStats {
                    tx_dropped: (old(self).stats_spec().tx_dropped + 1) as u64,
                    ..old(self).stats_spec()
                }),
            },
    {
        match find_head(&self.tx_heads, None) {
            Some(slot) => Ok(slot),
            None => {
                self.stats.tx_dropped = self.stats.tx_dropped + 1;
                Err(NetError::QueueExhausted)
            },
        }
    }

    /// The device now holds transmit buffer `slot` under chain head `head`.
    pub fn tx_posted(&mut self, slot: usize, head: u16)
        requires
            old(self).wf(),
            slot < old(self).tx_heads().len(),
        ensures
            final(self).wf(),
            final(self).stats_spec().dominates(old(self).stats_spec()),
            final(self).rx_heads() == old(self).rx_heads(),
            final(self).tx_heads() == old(self).tx_heads().update(slot as int, Some(head)),
            final(self).received() == old(self).received(),
            final(self).stats_spec() == old(self).stats_spec(),
    {
        self.tx_heads.set(slot, Some(head));
    }

    /// Counts a frame of `frame_len` bytes as sent.
    pub fn tx_sent(&mut self, frame_len: usize)
        requires
            old(self).wf(),
            old(self).can_count(),
            frame_len <= MAX_FRAME_LEN,
        ensures
            final(self).wf(),
            final(self).stats_spec().dominates(old(self).stats_spec()),
            final(self).rx_heads() == old(self).rx_heads(),
            final(self).tx_heads() == old(self).tx_heads(),
            final(self).received() == old(self).received(),
            final(self).stats_spec() == (NetStats {
                tx_packets: (old(self).stats_spec().tx_packets + 1) as u64,
                tx_bytes: (old(self).stats_spec().tx_bytes + frame_len) as u64,
                ..old(self).stats_spec()
            }),
    {
        self.stats.tx_packets = self.stats.tx_packets + 1;
        self.stats.tx_bytes = self.stats.tx_bytes + frame_len as u64;
    }
}

impl NetStats {
    pub open spec fn zero_spec() -> NetStats {
        NetStats {
            rx_packets: 0,
            rx_bytes: 0,
            rx_errors: 0,
            rx_dropped: 0,
            tx_packets: 0,
            tx_bytes: 0,
            tx_errors: 0,
            tx_dropped: 0,
        }
    }
}

/// `n` is a power of two.
pub open spec fn is_power_of_two(n: u16) -> bool {
    n > 0 && n & ((n - 1) as u16) == 0
}

/// The number of entries the device offers for a queue, capped at the
/// largest queue the driver sets up.
pub open spec fn capped_queue_size(maximum: u16) -> u16 {
    if maximum < MAX_QUEUE_SIZE { maximum } else { MAX_QUEUE_SIZE }
}

/// The size of a virtqueue whose device maximum is `maximum`: the largest
/// power of two within both the device maximum and `MAX_QUEUE_SIZE`.  A
/// queue of fewer than two entries cannot carry traffic.
pub fn queue_size(maximum: u16) -> (r: Result<u16, NetError>)
    ensures
        r is Err <==> capped_queue_size(maximum) < 2,
        r is Err ==> r == Err::<u16, NetError>(NetError::Virtio(VirtioFault::InvalidQueueSize)),
        r matches Ok(s) ==> is_power_of_two(s) && s <= capped_queue_size(maximum) < 2 * s,
{
    let size = if maximum < MAX_QUEUE_SIZE {
        maximum
    } else {
        MAX_QUEUE_SIZE
    };
    if size < 2 {
        return Err(NetError::Virtio(VirtioFault::InvalidQueueSize));
    }
    let zeros = size.leading_zeros();
    proof {
        vstd::std_specs::bits::axiom_u16_leading_zeros(size);
    }
    let shift: u16 = 15 - zeros as u16;
    let r = 1u16 << shift;
    let ghost next: u16 = (shift + 1) as u16;
    assert(size >> next == 0u16);
    assert(is_power_of_two(r) && r <= size && size < 2 * r) by (bit_vector)
        requires
            shift < 16,
            r == 1u16 << shift,
            (size >> shift) & 1u16 != 0u16,
            next == shift + 1,
            size >> next == 0u16,
    ;
    Ok(r)
}

/// Number of buffers posted to a queue of `queue_size` entries.
pub fn buffer_count(queue_size: u16) -> (r: usize)
    ensures
        r == if (queue_size as usize) < RX_BUFFER_COUNT { queue_size as usize } else { RX_BUFFER_COUNT },
{
    let size = queue_size as usize;
    if size < RX_BUFFER_COUNT {
        size
    } else {
        RX_BUFFER_COUNT
    }
}

/// The device identifier reported for the interface: the PCI bus, device
/// and function packed as `bus:device:function` bytes.
pub fn interface_device_id(bus: u8, device: u8, function: u8) -> (r: u32)
    ensures
        r == bus as int * 0x1_0000 + device as int * 0x100 + function as int,
{
    let r = ((bus as u32) << 16) | ((device as u32) << 8) | (function as u32);
    assert(r == bus as u32 * 0x1_0000 + device as u32 * 0x100 + function as u32) by (bit_vector)
        requires
            r == ((bus as u32) << 16) | ((device as u32) << 8) | (function as u32),
    ;
    r
}

/// The link is up when bit 0 of the status field is set.
pub fn link_up(status: u16) -> (r: bool)
    ensures
        r == (status & 1 != 0),
{
    status & 1 != 0
}

/// The link state of the interface, where `status` is the status field read
/// from the device when it reports one: up when bit 0 is set, and up when
/// the device reports no status.
pub fn link_state(status: Option<u16>) -> (r: bool)
    ensures
        r == match status {
            Some(s) => s & 1 != 0,
            None => true,
        },
{
    match status {
        Some(s) => link_up(s),
        None => true,
    }
}

/// Length of the descriptor that carries a frame of `frame_len` bytes:
/// the zeroed virtio header and the frame.
pub fn tx_descriptor_len(frame_len: usize) -> (r: u32)
    requires
        frame_len <= MAX_FRAME_LEN,
    ensures
        r == VIRTIO_NET_HEADER_LEN + frame_len,
{
    (VIRTIO_NET_HEADER_LEN + frame_len) as u32
}

/// Lays out a frame in a transmit buffer: a zeroed virtio header, then the
/// frame; the rest of the buffer is left as it was.
pub fn fill_tx_buffer(buffer: &mut Vec<u8>, frame: &[u8])
    requires
        old(buffer)@.len() >= BUFFER_LEN,
        frame@.len() <= MAX_FRAME_LEN,
    ensures
        final(buffer)@.len() == old(buffer)@.len(),
        final(buffer)@.subrange(0, VIRTIO_NET_HEADER_LEN as int) == Seq::new(
            VIRTIO_NET_HEADER_LEN as nat,
            |i: int| 0u8,
        ),
        final(buffer)@.subrange(
            VIRTIO_NET_HEADER_LEN as int,
            VIRTIO_NET_HEADER_LEN + frame@.len(),
        ) == frame@,
        final(buffer)@.subrange(VIRTIO_NET_HEADER_LEN + frame@.len(), old(buffer)@.len() as int)
            == old(buffer)@.subrange(
            VIRTIO_NET_HEADER_LEN + frame@.len(),
            old(buffer)@.len() as int,
        ),
{
    let ghost len = buffer@.len();
    let mut i: usize = 0;
    while i < VIRTIO_NET_HEADER_LEN
        invariant
            i <= VIRTIO_NET_HEADER_LEN,
            buffer@.len() == len,
            len >= BUFFER_LEN,
            forall|k: int| 0 <= k < i ==> buffer@[k] == 0u8,
            forall|k: int| VIRTIO_NET_HEADER_LEN <= k < len ==> buffer@[k] == old(buffer)@[k],
        decreases VIRTIO_NET_HEADER_LEN - i,
    {
        buffer.set(i, 0);
        i = i + 1;
    }
    let mut j: usize = 0;
    while j < frame.len()
        invariant
            j <= frame@.len(),
            frame@.len() <= MAX_FRAME_LEN,
            buffer@.len() == len,
            len >= BUFFER_LEN,
            forall|k: int| 0 <= k < VIRTIO_NET_HEADER_LEN ==> buffer@[k] == 0u8,
            forall|k: int| 0 <= k < j ==> buffer@[VIRTIO_NET_HEADER_LEN + k] == frame@[k],
            forall|k: int| VIRTIO_NET_HEADER_LEN + j <= k < len ==> buffer@[k] == old(buffer)@[k],
        decreases frame@.len() - j,
    {
        buffer.set(VIRTIO_NET_HEADER_LEN + j, frame[j]);
        j = j + 1;
    }
    assert(buffer@.subrange(0, VIRTIO_NET_HEADER_LEN as int) =~= Seq::new(
        VIRTIO_NET_HEADER_LEN as nat,
        |i: int| 0u8,
    ));
    assert(buffer@.subrange(VIRTIO_NET_HEADER_LEN as int, VIRTIO_NET_HEADER_LEN + frame@.len())
        =~= frame@);
    assert(buffer@.subrange(VIRTIO_NET_HEADER_LEN + frame@.len(), len as int) =~= old(
        buffer,
    )@.subrange(VIRTIO_NET_HEADER_LEN + frame@.len(), len as int));
}

/// A buffer holds the virtio header and the largest frame, and the queue
/// of received frames holds more frames than there are receive buffers.
pub proof fn lemma_buffers_are_bounded()
    ensures
        BUFFER_LEN == VIRTIO_NET_HEADER_LEN + MAX_FRAME_LEN,
        RX_BUFFER_COUNT < RX_QUEUE_LIMIT,
{
}

} // verus!

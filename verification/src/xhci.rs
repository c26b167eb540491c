//! The xHCI host controller: register fields, transfer request blocks
//! (TRBs), the producer side of the command and transfer rings, the
//! consumer side of the event ring, device and endpoint contexts, and root
//! hub ports.
use vstd::prelude::*;

verus! {

/// Size of a TRB in bytes.
pub const TRB_SIZE: usize = 16;

pub const TRB_TYPE_NORMAL: u32 = 1;
pub const TRB_TYPE_SETUP_STAGE: u32 = 2;
pub const TRB_TYPE_DATA_STAGE: u32 = 3;
pub const TRB_TYPE_STATUS_STAGE: u32 = 4;
pub const TRB_TYPE_LINK: u32 = 6;
pub const TRB_TYPE_ENABLE_SLOT: u32 = 9;
pub const TRB_TYPE_ADDRESS_DEVICE: u32 = 11;
pub const TRB_TYPE_CONFIGURE_ENDPOINT: u32 = 12;
pub const TRB_TYPE_TRANSFER_EVENT: u32 = 32;
pub const TRB_TYPE_COMMAND_COMPLETION: u32 = 33;

/// Cycle bit of a TRB.
pub const TRB_CYCLE: u32 = 0x1;
/// Toggle cycle (link TRB).
pub const TRB_TC: u32 = 0x2;
/// Interrupt on short packet.
pub const TRB_ISP: u32 = 0x4;
/// Interrupt on completion.
pub const TRB_IOC: u32 = 0x20;
/// Immediate data (setup stage).
pub const TRB_IDT: u32 = 0x40;
/// Data stage direction IN.
pub const TRB_DIR_IN: u32 = 0x1_0000;
/// Completion code of a successful command or transfer.
pub const CC_SUCCESS: u32 = 1;

/// A transfer request block as laid out in memory.
#[derive(Clone, Copy, Debug, PartialEq, Eq, Structural)]
pub struct Trb {
    pub parameter: u64,
    pub status: u32,
    pub control: u32,
}

/// The type field of a TRB control word.
pub open spec fn trb_type(control: u32) -> u32 {
    (control >> 10u32) & 0x3f
}

/// The type field of a control word, placed.
pub open spec fn type_bits(t: u32) -> u32 {
    t << 10u32
}

/// The slot field of a TRB control word.
pub open spec fn slot_bits(slot: u8) -> u32 {
    (slot as u32) << 24u32
}

/// The producer side of a command or transfer ring of `trb_count` TRBs
/// whose last TRB links back to the start.  TRBs are written from the
/// start; the link TRB is never overwritten.
pub struct TrbRing {
    next_index: usize,
    cycle: u32,
    trb_count: usize,
}

impl TrbRing {
    pub closed spec fn next_index(&self) -> usize {
        self.next_index
    }

    pub closed spec fn cycle(&self) -> u32 {
        self.cycle
    }

    pub closed spec fn trb_count(&self) -> usize {
        self.trb_count
    }

    pub closed spec fn wf(&self) -> bool {
        &&& 2 <= self.trb_count
        &&& self.trb_count * TRB_SIZE <= usize::MAX
        &&& self.next_index < self.trb_count
        &&& self.cycle == TRB_CYCLE
    }

    /// An empty ring over `ring_len` bytes, producing with cycle state 1.
    pub fn new(ring_len: usize) -> (r: Self)
        requires
            ring_len / TRB_SIZE >= 2,
        ensures
            r.wf(),
            r.next_index() == 0,
            r.cycle() == TRB_CYCLE,
            r.trb_count() == ring_len / TRB_SIZE,
    {
        TrbRing { next_index: 0, cycle: TRB_CYCLE, trb_count: ring_len / TRB_SIZE }
    }

    /// A TRB fits before the link TRB.
    pub open spec fn has_room_spec(&self) -> bool {
        self.next_index() < self.trb_count() - 1
    }

    pub fn has_room(&self) -> (r: bool)
        requires
            self.wf(),
        ensures
            r == self.has_room_spec(),
    {
        self.next_index < self.trb_count - 1
    }

    /// Byte offset of the link TRB.
    pub fn link_offset(&self) -> (r: usize)
        requires
            self.wf(),
        ensures
            r == (self.trb_count() - 1) * TRB_SIZE,
    {
        (self.trb_count - 1) * TRB_SIZE
    }

    /// Produces a TRB: returns its byte offset in the ring and the TRB to
    /// write there, which carries the producer's cycle bit.
    pub fn enqueue(&mut self, parameter: u64, status: u32, control: u32) -> (r: (usize, Trb))
        requires
            old(self).wf(),
            old(self).has_room_spec(),
        ensures
            final(self).wf(),
            r.0 == old(self).next_index() * TRB_SIZE,
            r.0 + TRB_SIZE <= (old(self).trb_count() - 1) * TRB_SIZE,
            r.1 == (Trb { parameter, status, control: control | old(self).cycle() }),
            final(self).next_index() == old(self).next_index() + 1,
            final(self).cycle() == old(self).cycle(),
            final(self).trb_count() == old(self).trb_count(),
    {
        let offset = self.next_index * TRB_SIZE;
        let trb = Trb { parameter, status, control: control | self.cycle };
        self.next_index = self.next_index + 1;
        (offset, trb)
    }
}

/// Byte offset of the link TRB of a ring of `ring_len` bytes.
pub fn link_trb_offset(ring_len: usize) -> (r: usize)
    requires
        ring_len / TRB_SIZE >= 1,
    ensures
        r == (ring_len / TRB_SIZE - 1) * TRB_SIZE,
        r + TRB_SIZE <= ring_len,
{
    (ring_len / TRB_SIZE - 1) * TRB_SIZE
}

/// The link TRB that closes a ring at `ring_phys`: it points back to the
/// start and toggles the cycle state.
pub fn link_trb(ring_phys: u64) -> (r: Trb)
    ensures
        r.parameter == ring_phys,
        r.status == 0,
        r.control == type_bits(TRB_TYPE_LINK) | TRB_TC | TRB_CYCLE,
        trb_type(r.control) == TRB_TYPE_LINK,
{
    let control = (TRB_TYPE_LINK << 10) | TRB_TC | TRB_CYCLE;
    assert(((((6u32 << 10u32) | 2u32 | 1u32) >> 10u32) & 0x3f) == 6u32) by (bit_vector);
    Trb { parameter: ring_phys, status: 0, control }
}

/// An event TRB as read from the event ring (the parameter is not used).
#[derive(Clone, Copy, Debug, PartialEq, Eq, Structural)]
pub struct EventTrb {
    pub status: u32,
    pub control: u32,
}

/// The completion an event reports: its code and slot.
#[derive(Clone, Copy, Debug, PartialEq, Eq, Structural)]
pub struct Completion {
    pub code: u32,
    pub slot_id: u8,
}

/// Which events the driver waits for.
#[derive(Clone, Copy, Debug, PartialEq, Eq, Structural)]
pub enum EventFilter {
    /// Events of this TRB type (command completions).
    OfType(u32),
    /// Transfer events of this slot.
    TransferOf(u8),
}

/// The controller wrote the event (its cycle bit is set).
pub open spec fn event_ready(e: EventTrb) -> bool {
    e.control & TRB_CYCLE != 0
}

pub open spec fn event_slot(e: EventTrb) -> u8 {
    ((e.control >> 24u32) & 0xff) as u8
}

pub open spec fn event_matches(e: EventTrb, filter: EventFilter) -> bool {
    match filter {
        EventFilter::OfType(t) => trb_type(e.control) == t,
        EventFilter::TransferOf(slot) => trb_type(e.control) == TRB_TYPE_TRANSFER_EVENT
            && event_slot(e) == slot,
    }
}

pub open spec fn completion_of(e: EventTrb) -> Completion {
    Completion { code: (e.status >> 24u32) & 0xff, slot_id: event_slot(e) }
}

/// Result of scanning the event ring.
#[derive(Clone, Copy, Debug, PartialEq, Eq, Structural)]
pub struct EventScan {
    /// The completion of the last ready event that matches the filter.
    pub completion: Option<Completion>,
    /// One past the last ready event (zero when none is ready).
    pub consumed: usize,
}

/// The scan of the first `n` events.
pub open spec fn scan_prefix(events: Seq<EventTrb>, filter: EventFilter, n: int) -> (Option<
    Completion,
>, int)
    decreases n,
{
    if n <= 0 {
        (None, 0)
    } else {
        let prev = scan_prefix(events, filter, n - 1);
        let e = events[n - 1];
        if !event_ready(e) {
            prev
        } else if event_matches(e, filter) {
            (Some(completion_of(e)), n)
        } else {
            (prev.0, n)
        }
    }
}

/// The scan reports a completion exactly when some ready event matches the
/// filter, and then it is that of the last such event.
pub proof fn lemma_scan_reports_last_match(events: Seq<EventTrb>, filter: EventFilter, n: int)
    requires
        0 <= n <= events.len(),
    ensures
        scan_prefix(events, filter, n).0 is None <==> forall|i: int|
            0 <= i < n ==> !(event_ready(#[trigger] events[i]) && event_matches(events[i], filter)),
        scan_prefix(events, filter, n).0 matches Some(c) ==> exists|i: int|
            0 <= i < n && event_ready(#[trigger] events[i]) && event_matches(events[i], filter)
                && completion_of(events[i]) == c && forall|j: int|
                i < j < n ==> !(event_ready(#[trigger] events[j]) && event_matches(
                    events[j],
                    filter,
                )),
    decreases n,
{
    if n > 0 {
        lemma_scan_reports_last_match(events, filter, n - 1);
        let e = events[n - 1];
        if event_ready(e) && event_matches(e, filter) {
            assert(events[n - 1] == e);
        } else if let Some(c) = scan_prefix(events, filter, n).0 {
            let i = choose|i: int|
                0 <= i < n - 1 && event_ready(#[trigger] events[i]) && event_matches(
                    events[i],
                    filter,
                ) && completion_of(events[i]) == c && forall|j: int|
                    i < j < n - 1 ==> !(event_ready(#[trigger] events[j]) && event_matches(
                        events[j],
                        filter,
                    ));
            assert forall|j: int| i < j < n implies !(event_ready(#[trigger] events[j])
                && event_matches(events[j], filter)) by {
                if j == n - 1 {
                    assert(events[j] == e);
                }
            }
        }
    }
}

/// The controller wrote this event, so it is consumed (and cleared).
pub fn event_is_ready(e: EventTrb) -> (r: bool)
    ensures
        r == event_ready(e),
{
    e.control & TRB_CYCLE != 0
}

/// Number of transfers tried for one interrupt report.
pub const REPORT_ATTEMPTS: usize = 16;

/// The next move after attempt `attempt` (from zero) to fetch a report.
#[derive(Clone, Copy, Debug, PartialEq, Eq, Structural)]
pub enum ReportStep {
    /// The transfer completed successfully: the report is there.
    Report,
    /// Try again; this is the next attempt.
    Retry(usize),
    /// Every attempt failed.
    GiveUp,
}

/// Decides after attempt `attempt` whose transfer event reported
/// `completion` (none when no event came): a successful completion yields
/// the report; otherwise the next attempt follows, up to `REPORT_ATTEMPTS`.
pub fn report_attempt(attempt: usize, completion: Option<u32>) -> (r: ReportStep)
    requires
        attempt < REPORT_ATTEMPTS,
    ensures
        completion == Some(CC_SUCCESS) ==> r == ReportStep::Report,
        completion != Some(CC_SUCCESS) && attempt + 1 < REPORT_ATTEMPTS ==> r == ReportStep::Retry(
            (attempt + 1) as usize,
        ),
        completion != Some(CC_SUCCESS) && attempt + 1 >= REPORT_ATTEMPTS ==> r == ReportStep::GiveUp,
{
    if completion == Some(CC_SUCCESS) {
        ReportStep::Report
    } else if attempt + 1 < REPORT_ATTEMPTS {
        ReportStep::Retry(attempt + 1)
    } else {
        ReportStep::GiveUp
    }
}

/// Some event of the ring is ready.
pub fn any_event_ready(events: &[EventTrb]) -> (r: bool)
    ensures
        r == exists|i: int| 0 <= i < events@.len() && event_ready(#[trigger] events@[i]),
{
    let mut i: usize = 0;
    while i < events.len()
        invariant
            i <= events@.len(),
            forall|j: int| 0 <= j < i ==> !event_ready(#[trigger] events@[j]),
        decreases events@.len() - i,
    {
        if events[i].control & TRB_CYCLE != 0 {
            return true;
        }
        i = i + 1;
    }
    false
}

/// Scans a snapshot of the event ring.  Every ready event is consumed (the
/// caller clears it); the completion is that of the last ready event that
/// matches `filter`.
pub fn scan_events(events: &[EventTrb], filter: EventFilter) -> (r: EventScan)
    ensures
        (r.completion, r.consumed as int) == scan_prefix(events@, filter, events@.len() as int),
        r.consumed <= events@.len(),
        r.consumed > 0 ==> event_ready(events@[r.consumed - 1]),
        forall|j: int| r.consumed <= j < events@.len() ==> !event_ready(#[trigger] events@[j]),
{
    let mut completion: Option<Completion> = None;
    let mut consumed: usize = 0;
    let mut i: usize = 0;
    while i < events.len()
        invariant
            i <= events@.len(),
            consumed <= i,
            (completion, consumed as int) == scan_prefix(events@, filter, i as int),
            consumed > 0 ==> event_ready(events@[consumed - 1]),
            forall|j: int| consumed <= j < i ==> !event_ready(#[trigger] events@[j]),
        decreases events@.len() - i,
    {
        let e = events[i];
        if e.control & TRB_CYCLE != 0 {
            consumed = i + 1;
            let t = (e.control >> 10) & 0x3f;
            let slot = ((e.control >> 24) & 0xff) as u8;
            let hit = match filter {
                EventFilter::OfType(expected) => t == expected,
                EventFilter::TransferOf(slot_id) => t == TRB_TYPE_TRANSFER_EVENT && slot == slot_id,
            };
            if hit {
                completion = Some(Completion { code: (e.status >> 24) & 0xff, slot_id: slot });
            }
        }
        i = i + 1;
    }
    EventScan { completion, consumed }
}

/// Where the event ring dequeue pointer goes after `consumed` of
/// `event_count` events were handled: nowhere when none was, back to the
/// start when all were, else past the last one handled.
pub fn next_dequeue_offset(consumed: usize, event_count: usize) -> (r: Option<usize>)
    requires
        consumed <= event_count,
        event_count * TRB_SIZE <= usize::MAX,
    ensures
        consumed == 0 ==> r is None,
        consumed > 0 ==> r == Some((if consumed >= event_count { 0 } else { consumed * TRB_SIZE }) as usize),
{
    if consumed == 0 {
        None
    } else if consumed >= event_count {
        Some(0)
    } else {
        Some(consumed * TRB_SIZE)
    }
}

/// The slot that an Enable Slot command obtained: only a successful
/// completion with a nonzero slot counts.
pub fn enabled_slot(completion: Completion) -> (r: Option<u8>)
    ensures
        r == if completion.code == CC_SUCCESS && completion.slot_id != 0 {
            Some(completion.slot_id)
        } else {
            None
        },
{
    if completion.code != CC_SUCCESS || completion.slot_id == 0 {
        None
    } else {
        Some(completion.slot_id)
    }
}

/// A command on `slot` completed successfully.
pub fn command_succeeded(completion: Completion, slot: u8) -> (r: bool)
    ensures
        r == (completion.code == CC_SUCCESS && completion.slot_id == slot),
{
    completion.code == CC_SUCCESS && completion.slot_id == slot
}

/// The Enable Slot command (without cycle bit).
pub fn enable_slot_command() -> (r: Trb)
    ensures
        r == (Trb { parameter: 0, status: 0, control: type_bits(TRB_TYPE_ENABLE_SLOT) }),
{
    Trb { parameter: 0, status: 0, control: TRB_TYPE_ENABLE_SLOT << 10 }
}

/// The Address Device command for `slot` with the input context at
/// `input_ctx_phys`.
pub fn address_device_command(input_ctx_phys: u64, slot: u8) -> (r: Trb)
    ensures
        r == (Trb {
            parameter: input_ctx_phys,
            status: 0,
            control: type_bits(TRB_TYPE_ADDRESS_DEVICE) | slot_bits(slot),
        }),
{
    Trb {
        parameter: input_ctx_phys,
        status: 0,
        control: (TRB_TYPE_ADDRESS_DEVICE << 10) | ((slot as u32) << 24),
    }
}

/// The Configure Endpoint command for `slot` with the input context at
/// `input_ctx_phys`.
pub fn configure_endpoint_command(input_ctx_phys: u64, slot: u8) -> (r: Trb)
    ensures
        r == (Trb {
            parameter: input_ctx_phys,
            status: 0,
            control: type_bits(TRB_TYPE_CONFIGURE_ENDPOINT) | slot_bits(slot),
        }),
{
    Trb {
        parameter: input_ctx_phys,
        status: 0,
        control: (TRB_TYPE_CONFIGURE_ENDPOINT << 10) | ((slot as u32) << 24),
    }
}

/// The eight bytes of a USB setup packet, as the parameter of a setup TRB.
pub open spec fn setup_packet(request_type: u8, request: u8, value: u16, index: u16, length: u16) -> u64 {
    (request_type as u64) | ((request as u64) << 8u64) | ((value as u64) << 16u64) | ((
    index as u64) << 32u64) | ((length as u64) << 48u64)
}

/// Packs a setup packet.
pub fn build_setup_packet(request_type: u8, request: u8, value: u16, index: u16, length: u16) -> (r: u64)
    ensures
        r == setup_packet(request_type, request, value, index, length),
        r & 0xff == request_type,
        (r >> 8u64) & 0xff == request,
        (r >> 16u64) & 0xffff == value,
        (r >> 32u64) & 0xffff == index,
        r >> 48u64 == length,
{
    let r = (request_type as u64) | ((request as u64) << 8) | ((value as u64) << 16) | ((
    index as u64) << 32) | ((length as u64) << 48);
    let a = request_type as u64;
    let b = request as u64;
    let c = value as u64;
    let d = index as u64;
    let e = length as u64;
    assert(a < 0x100 && b < 0x100 && c < 0x1_0000 && d < 0x1_0000 && e < 0x1_0000 ==> {
        let r = a | (b << 8u64) | (c << 16u64) | (d << 32u64) | (e << 48u64);
        &&& r & 0xff == a
        &&& (r >> 8u64) & 0xff == b
        &&& (r >> 16u64) & 0xffff == c
        &&& (r >> 32u64) & 0xffff == d
        &&& r >> 48u64 == e
    }) by (bit_vector);
    r
}

/// Transfer type field of a setup stage TRB: no data stage.
pub const TRT_NO_DATA: u32 = 0;
/// Transfer type field of a setup stage TRB: IN data stage.
pub const TRT_IN_DATA: u32 = 3;
/// GET_DESCRIPTOR request.
pub const REQ_GET_DESCRIPTOR: u8 = 0x06;
/// SET_CONFIGURATION request.
pub const REQ_SET_CONFIGURATION: u8 = 0x09;
/// HID SET_IDLE request.
pub const HID_REQ_SET_IDLE: u8 = 0x0a;
/// HID SET_PROTOCOL request.
pub const HID_REQ_SET_PROTOCOL: u8 = 0x0b;
/// Request type: device to host, standard, device.
pub const RT_DEVICE_IN: u8 = 0x80;
/// Request type: device to host, standard, interface.
pub const RT_INTERFACE_IN: u8 = 0x81;
/// Request type: host to device, standard, device.
pub const RT_DEVICE_OUT: u8 = 0x00;
/// Request type: host to device, class, interface.
pub const RT_CLASS_INTERFACE_OUT: u8 = 0x21;
pub const DESC_TYPE_DEVICE: u16 = 1;
pub const DESC_TYPE_CONFIGURATION: u16 = 2;
pub const DESC_TYPE_REPORT: u16 = 0x22;

/// The setup, data and status stages of a control read of `length` bytes
/// into `buffer_phys`.
pub open spec fn control_read_spec(
    request_type: u8,
    request: u8,
    value: u16,
    index: u16,
    length: u16,
    buffer_phys: u64,
) -> Seq<Trb> {
    seq![
        Trb {
            parameter: setup_packet(request_type, request, value, index, length),
            status: 8,
            control: type_bits(TRB_TYPE_SETUP_STAGE) | TRB_IDT | (TRT_IN_DATA << 16u32),
        },
        Trb {
            parameter: buffer_phys,
            status: length as u32,
            control: type_bits(TRB_TYPE_DATA_STAGE) | TRB_DIR_IN,
        },
        Trb {
            parameter: 0,
            status: 0,
            control: type_bits(TRB_TYPE_STATUS_STAGE) | TRB_IOC,
        },
    ]
}

/// The TRBs of a control read (before cycle bits).
pub fn control_read(
    request_type: u8,
    request: u8,
    value: u16,
    index: u16,
    length: u16,
    buffer_phys: u64,
) -> (r: Vec<Trb>)
    ensures
        r@ == control_read_spec(request_type, request, value, index, length, buffer_phys),
{
    let setup = Trb {
        parameter: build_setup_packet(request_type, request, value, index, length),
        status: 8,
        control: (TRB_TYPE_SETUP_STAGE << 10) | TRB_IDT | (TRT_IN_DATA << 16),
    };
    let data = Trb {
        parameter: buffer_phys,
        status: length as u32,
        control: (TRB_TYPE_DATA_STAGE << 10) | TRB_DIR_IN,
    };
    let status = Trb { parameter: 0, status: 0, control: (TRB_TYPE_STATUS_STAGE << 10) | TRB_IOC };
    let r = vec![setup, data, status];
    assert(r@ =~= control_read_spec(request_type, request, value, index, length, buffer_phys));
    r
}

/// GET_DESCRIPTOR of the device descriptor types (device, configuration):
/// `length` bytes of descriptor `descriptor_type` into `buffer_phys`.
pub fn descriptor_read(buffer_phys: u64, descriptor_type: u16, length: u16) -> (r: Vec<Trb>)
    requires
        descriptor_type < 0x100,
    ensures
        r@ == control_read_spec(
            RT_DEVICE_IN,
            REQ_GET_DESCRIPTOR,
            (descriptor_type * 0x100) as u16,
            0,
            length,
            buffer_phys,
        ),
{
    assert(descriptor_type < 0x100 ==> descriptor_type << 8u16 == descriptor_type * 0x100)
        by (bit_vector);
    control_read(RT_DEVICE_IN, REQ_GET_DESCRIPTOR, descriptor_type << 8, 0, length, buffer_phys)
}

/// GET_DESCRIPTOR of the HID report descriptor of `interface`.
pub fn report_descriptor_read(buffer_phys: u64, interface: u8, length: u16) -> (r: Vec<Trb>)
    ensures
        r@ == control_read_spec(
            RT_INTERFACE_IN,
            REQ_GET_DESCRIPTOR,
            0x2200,
            interface as u16,
            length,
            buffer_phys,
        ),
{
    assert(0x22u16 << 8u16 == 0x2200u16) by (bit_vector);
    control_read(
        RT_INTERFACE_IN,
        REQ_GET_DESCRIPTOR,
        DESC_TYPE_REPORT << 8,
        interface as u16,
        length,
        buffer_phys,
    )
}

/// The setup and status stages of a control request without data stage.
pub fn control_no_data(request_type: u8, request: u8, value: u16, index: u16) -> (r: Vec<Trb>)
    ensures
        r@ == control_no_data_spec(request_type, request, value, index),
{
    let setup = Trb {
        parameter: build_setup_packet(request_type, request, value, index, 0),
        status: 8,
        control: (TRB_TYPE_SETUP_STAGE << 10) | TRB_IDT | (2 << 16),
    };
    let status = Trb {
        parameter: 0,
        status: 0,
        control: (TRB_TYPE_STATUS_STAGE << 10) | TRB_IOC | TRB_DIR_IN,
    };
    let r = vec![setup, status];
    assert(r@ =~= seq![setup, status]);
    r
}

/// SET_CONFIGURATION with `config_value`.
pub fn set_configuration_request(config_value: u8) -> (r: Vec<Trb>)
    ensures
        r@ == control_no_data_spec(RT_DEVICE_OUT, REQ_SET_CONFIGURATION, config_value as u16, 0),
{
    control_no_data(RT_DEVICE_OUT, REQ_SET_CONFIGURATION, config_value as u16, 0)
}

/// HID SET_IDLE (indefinite) for `interface`.
pub fn hid_set_idle_request(interface: u8) -> (r: Vec<Trb>)
    ensures
        r@ == control_no_data_spec(RT_CLASS_INTERFACE_OUT, HID_REQ_SET_IDLE, 0, interface as u16),
{
    control_no_data(RT_CLASS_INTERFACE_OUT, HID_REQ_SET_IDLE, 0, interface as u16)
}

/// HID SET_PROTOCOL (`protocol`: 0 boot, 1 report) for `interface`.
pub fn hid_set_protocol_request(interface: u8, protocol: u16) -> (r: Vec<Trb>)
    ensures
        r@ == control_no_data_spec(
            RT_CLASS_INTERFACE_OUT,
            HID_REQ_SET_PROTOCOL,
            protocol,
            interface as u16,
        ),
{
    control_no_data(RT_CLASS_INTERFACE_OUT, HID_REQ_SET_PROTOCOL, protocol, interface as u16)
}

pub open spec fn control_no_data_spec(request_type: u8, request: u8, value: u16, index: u16) -> Seq<Trb> {
    seq![
        Trb {
            parameter: setup_packet(request_type, request, value, index, 0),
            status: 8,
            control: type_bits(TRB_TYPE_SETUP_STAGE) | TRB_IDT | (2u32 << 16u32),
        },
        Trb {
            parameter: 0,
            status: 0,
            control: type_bits(TRB_TYPE_STATUS_STAGE) | TRB_IOC | TRB_DIR_IN,
        },
    ]
}

/// The transfer type field (bits 16 and 17) of a setup stage TRB.
pub open spec fn transfer_type(control: u32) -> u32 {
    (control >> 16u32) & 3
}

/// Every control request starts with a Setup Stage TRB that carries the
/// eight-byte setup packet as immediate data (IDT set, length 8, the packet
/// fields in place), and ends with a Status Stage TRB that interrupts on
/// completion.  A request without data stage is two TRBs, its status stage
/// in the IN direction; a control read is three, with transfer type IN
/// data and a Data Stage TRB that receives `length` bytes at `buffer_phys`.
pub proof fn lemma_control_transfer_shape(
    request_type: u8,
    request: u8,
    value: u16,
    index: u16,
    length: u16,
    buffer_phys: u64,
)
    ensures
        ({
            let r = control_no_data_spec(request_type, request, value, index);
            &&& r.len() == 2
            &&& trb_type(r[0].control) == TRB_TYPE_SETUP_STAGE
            &&& r[0].control & TRB_IDT != 0
            &&& r[0].control & TRB_CYCLE == 0
            &&& r[0].status == 8
            &&& r[0].parameter & 0xff == request_type
            &&& (r[0].parameter >> 8u64) & 0xff == request
            &&& (r[0].parameter >> 16u64) & 0xffff == value
            &&& (r[0].parameter >> 32u64) & 0xffff == index
            &&& r[0].parameter >> 48u64 == 0
            &&& transfer_type(r[0].control) == 2
            &&& trb_type(r[1].control) == TRB_TYPE_STATUS_STAGE
            &&& r[1].control & TRB_IOC != 0
            &&& r[1].control & TRB_DIR_IN != 0
            &&& r[1].control & TRB_CYCLE == 0
        }),
        ({
            let r = control_read_spec(request_type, request, value, index, length, buffer_phys);
            &&& r.len() == 3
            &&& trb_type(r[0].control) == TRB_TYPE_SETUP_STAGE
            &&& r[0].control & TRB_IDT != 0
            &&& r[0].control & TRB_CYCLE == 0
            &&& r[0].status == 8
            &&& r[0].parameter & 0xff == request_type
            &&& (r[0].parameter >> 8u64) & 0xff == request
            &&& (r[0].parameter >> 16u64) & 0xffff == value
            &&& (r[0].parameter >> 32u64) & 0xffff == index
            &&& r[0].parameter >> 48u64 == length
            &&& transfer_type(r[0].control) == TRT_IN_DATA
            &&& trb_type(r[1].control) == TRB_TYPE_DATA_STAGE
            &&& r[1].control & TRB_DIR_IN != 0
            &&& r[1].parameter == buffer_phys
            &&& r[1].status == length
            &&& trb_type(r[2].control) == TRB_TYPE_STATUS_STAGE
            &&& r[2].control & TRB_IOC != 0
            &&& r[2].control & TRB_DIR_IN == 0
        }),
{
    let a = request_type as u64;
    let b = request as u64;
    let c = value as u64;
    let d = index as u64;
    let e = length as u64;
    assert(a < 0x100 && b < 0x100 && c < 0x1_0000 && d < 0x1_0000 && e < 0x1_0000 ==> {
        let r = a | (b << 8u64) | (c << 16u64) | (d << 32u64) | (e << 48u64);
        &&& r & 0xff == a
        &&& (r >> 8u64) & 0xff == b
        &&& (r >> 16u64) & 0xffff == c
        &&& (r >> 32u64) & 0xffff == d
        &&& r >> 48u64 == e
    }) by (bit_vector);
    assert(a < 0x100 && b < 0x100 && c < 0x1_0000 && d < 0x1_0000 ==> {
        let r = a | (b << 8u64) | (c << 16u64) | (d << 32u64) | (0u64 << 48u64);
        &&& r & 0xff == a
        &&& (r >> 8u64) & 0xff == b
        &&& (r >> 16u64) & 0xffff == c
        &&& (r >> 32u64) & 0xffff == d
        &&& r >> 48u64 == 0
    }) by (bit_vector);
    let setup_nd: u32 = (2u32 << 10u32) | 0x40u32 | (2u32 << 16u32);
    let setup_in: u32 = (2u32 << 10u32) | 0x40u32 | (3u32 << 16u32);
    let status_nd: u32 = (4u32 << 10u32) | 0x20u32 | 0x1_0000u32;
    let status_in: u32 = (4u32 << 10u32) | 0x20u32;
    let data_in: u32 = (3u32 << 10u32) | 0x1_0000u32;
    assert((setup_nd >> 10u32) & 0x3f == 2 && setup_nd & 0x40 != 0 && setup_nd & 1 == 0 && (
    setup_nd >> 16u32) & 3 == 2) by (bit_vector)
        requires
            setup_nd == (2u32 << 10u32) | 0x40u32 | (2u32 << 16u32),
    ;
    assert((setup_in >> 10u32) & 0x3f == 2 && setup_in & 0x40 != 0 && setup_in & 1 == 0 && (
    setup_in >> 16u32) & 3 == 3) by (bit_vector)
        requires
            setup_in == (2u32 << 10u32) | 0x40u32 | (3u32 << 16u32),
    ;
    assert((status_nd >> 10u32) & 0x3f == 4 && status_nd & 0x20 != 0 && status_nd & 0x1_0000
        != 0 && status_nd & 1 == 0) by (bit_vector)
        requires
            status_nd == (4u32 << 10u32) | 0x20u32 | 0x1_0000u32,
    ;
    assert((status_in >> 10u32) & 0x3f == 4 && status_in & 0x20 != 0 && status_in & 0x1_0000
        == 0) by (bit_vector)
        requires
            status_in == (4u32 << 10u32) | 0x20u32,
    ;
    assert((data_in >> 10u32) & 0x3f == 3 && data_in & 0x1_0000 != 0) by (bit_vector)
        requires
            data_in == (3u32 << 10u32) | 0x1_0000u32,
    ;
}

/// The Normal TRB that asks an interrupt IN endpoint for one report of up
/// to `max_packet` bytes into `buffer_phys`.
pub fn interrupt_in_transfer(buffer_phys: u64, max_packet: u16) -> (r: Trb)
    ensures
        r == (Trb {
            parameter: buffer_phys,
            status: max_packet as u32,
            control: type_bits(TRB_TYPE_NORMAL) | TRB_ISP | TRB_IOC,
        }),
{
    Trb {
        parameter: buffer_phys,
        status: max_packet as u32,
        control: (TRB_TYPE_NORMAL << 10) | TRB_ISP | TRB_IOC,
    }
}

/// The device context index of the endpoint with `address`: twice the
/// endpoint number, plus one for an IN endpoint.
pub fn endpoint_dci(address: u8) -> (r: u32)
    ensures
        r == 2 * (address & 0x0f) as int + if address & 0x80 != 0 { 1int } else { 0int },
        r < 32,
{
    let endpoint_number = (address & 0x0f) as u32;
    let direction_in = (address & 0x80) != 0;
    assert(address & 0x0f <= 15) by (bit_vector);
    endpoint_number * 2 + if direction_in {
        1
    } else {
        0
    }
}

/// The doorbell value that rings `target` of stream `stream_id`.
pub fn doorbell_value(target: u32, stream_id: u16) -> (r: u32)
    ensures
        r == target | ((stream_id as u32) << 16u32),
        target < 0x100 ==> r & 0xff == target && r >> 16u32 == stream_id,
{
    let s = stream_id as u32;
    assert(target < 0x100 && s < 0x1_0000 ==> (target | (s << 16u32)) & 0xff == target && (
    target | (s << 16u32)) >> 16u32 == s) by (bit_vector);
    target | ((stream_id as u32) << 16)
}

/// Byte offset of doorbell register `index` from the doorbell array.
pub fn doorbell_offset(index: u32) -> (r: usize)
    requires
        index <= 255,
    ensures
        r == 4 * index,
{
    (index as usize) * 4
}

} // verus!

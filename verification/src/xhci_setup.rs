//! Set-up of an xHCI controller: capability and operational register
//! fields, the register window, root hub ports, and the input contexts of
//! the Address Device and Configure Endpoint commands.
use vstd::prelude::*;

verus! {

pub const USBCMD_RUN: u32 = 0x1;
pub const USBCMD_HCRST: u32 = 0x2;
pub const USBSTS_HCHALTED: u32 = 0x1;
pub const USBSTS_CNR: u32 = 0x800;

pub const OP_USBCMD: usize = 0x00;
pub const OP_USBSTS: usize = 0x04;
pub const OP_PAGESIZE: usize = 0x08;
pub const OP_DNCTRL: usize = 0x14;
pub const OP_CRCR: usize = 0x18;
pub const OP_DCBAAP: usize = 0x30;
pub const OP_CONFIG: usize = 0x38;
pub const OP_PORTSC_BASE: usize = 0x400;
pub const OP_PORTSC_STRIDE: usize = 0x10;
pub const RT_IR0: usize = 0x20;
pub const IR_IMAN: usize = 0x00;
pub const IR_IMOD: usize = 0x04;
pub const IR_ERSTSZ: usize = 0x08;
pub const IR_ERSTBA: usize = 0x10;
pub const IR_ERDP: usize = 0x18;

/// USBCMD with the run bit cleared.
pub fn usbcmd_stopped(usbcmd: u32) -> (r: u32)
    ensures
        r == usbcmd & !USBCMD_RUN,
        r & USBCMD_RUN == 0,
{
    assert((usbcmd & !1u32) & 1u32 == 0) by (bit_vector);
    usbcmd & !USBCMD_RUN
}

/// USBCMD with the host controller reset bit set.
pub fn usbcmd_reset(usbcmd: u32) -> (r: u32)
    ensures
        r == usbcmd | USBCMD_HCRST,
{
    usbcmd | USBCMD_HCRST
}

/// USBCMD with the run bit set.
pub fn usbcmd_running(usbcmd: u32) -> (r: u32)
    ensures
        r == usbcmd | USBCMD_RUN,
{
    usbcmd | USBCMD_RUN
}

/// The controller runs (the stop must be requested).
pub fn is_running(usbcmd: u32) -> (r: bool)
    ensures
        r == (usbcmd & USBCMD_RUN != 0),
{
    usbcmd & USBCMD_RUN != 0
}

/// The controller has halted.
pub fn is_halted(usbsts: u32) -> (r: bool)
    ensures
        r == (usbsts & USBSTS_HCHALTED != 0),
{
    usbsts & USBSTS_HCHALTED != 0
}

/// The reset the driver requested has completed.
pub fn reset_done(usbcmd: u32) -> (r: bool)
    ensures
        r == (usbcmd & USBCMD_HCRST == 0),
{
    usbcmd & USBCMD_HCRST == 0
}

/// The controller accepts register writes (controller not ready is clear).
pub fn controller_ready(usbsts: u32) -> (r: bool)
    ensures
        r == (usbsts & USBSTS_CNR == 0),
{
    usbsts & USBSTS_CNR == 0
}

/// The capability registers the driver uses, decoded.
#[derive(Clone, Copy, Debug, PartialEq, Eq, Structural)]
pub struct Capabilities {
    pub cap_length: usize,
    pub max_slots: u32,
    pub max_interrupters: u32,
    pub max_ports: u32,
    pub hccparams1: u32,
    pub doorbell_offset: usize,
    pub runtime_offset: usize,
}

/// Decodes CAPLENGTH, HCSPARAMS1, HCCPARAMS1, DBOFF and RTSOFF.
pub fn decode_capabilities(
    cap_length: u8,
    hcsparams1: u32,
    hccparams1: u32,
    dboff: u32,
    rtsoff: u32,
) -> (r: Capabilities)
    ensures
        r.cap_length == cap_length,
        r.max_slots == hcsparams1 & 0xff,
        r.max_interrupters == (hcsparams1 >> 8u32) & 0x7ff,
        r.max_ports == (hcsparams1 >> 24u32) & 0xff,
        r.hccparams1 == hccparams1,
        r.doorbell_offset == dboff & !3u32,
        r.runtime_offset == rtsoff & !0x1fu32,
{
    Capabilities {
        cap_length: cap_length as usize,
        max_slots: hcsparams1 & 0xff,
        max_interrupters: (hcsparams1 >> 8) & 0x7ff,
        max_ports: (hcsparams1 >> 24) & 0xff,
        hccparams1,
        doorbell_offset: (dboff & !3u32) as usize,
        runtime_offset: (rtsoff & !0x1fu32) as usize,
    }
}

/// The window looks like xHCI registers: a capability block of at least 32
/// bytes and at least one device slot.
pub fn looks_like_xhci(cap_length: u8, hcsparams1: u32) -> (r: bool)
    ensures
        r == (cap_length >= 0x20 && hcsparams1 & 0xff > 0 && hcsparams1 != 0),
{
    let max_slots = hcsparams1 & 0xff;
    cap_length >= 0x20 && max_slots > 0 && hcsparams1 != 0
}

/// Name of a port speed identifier.
pub fn port_speed_name(speed_id: u32) -> (r: &'static str)
    ensures
        speed_id == 0 ==> r@ == "unknown"@,
        speed_id == 1 ==> r@ == "full"@,
        speed_id == 2 ==> r@ == "low"@,
        speed_id == 3 ==> r@ == "high"@,
        speed_id == 4 ==> r@ == "super"@,
        speed_id == 5 ==> r@ == "super+"@,
        speed_id > 5 ==> r@ == "reserved"@,
{
    match speed_id {
        0 => "unknown",
        1 => "full",
        2 => "low",
        3 => "high",
        4 => "super",
        5 => "super+",
        _ => "reserved",
    }
}

/// How a register window is mapped: whole pages from `page_base`, with the
/// registers at `page_offset` inside them.
#[derive(Clone, Copy, Debug, PartialEq, Eq, Structural)]
pub struct WindowLayout {
    pub page_base: u64,
    pub page_offset: usize,
    pub map_len: u64,
}

/// The pages that cover `len` bytes of registers at `phys_base`; none when
/// the registers end beyond the address width.  A span that fits but whose
/// page rounding does not is left out.
pub fn window_layout(phys_base: u64, len: u64) -> (r: Option<WindowLayout>)
    requires
        len <= usize::MAX,
        (phys_base & 0xfff) + len > usize::MAX || (phys_base & 0xfff) + len + 0xfff
            <= usize::MAX,
    ensures
        r is None <==> (phys_base & 0xfff) + len > usize::MAX,
        r matches Some(w) ==> {
            &&& w.page_base == phys_base & !0xfffu64
            &&& w.page_offset == phys_base & 0xfff
            &&& w.map_len % 0x1000 == 0
            &&& w.page_offset + len <= w.map_len < w.page_offset + len + 0x1000
        },
{
    let page_base = phys_base & !0xfffu64;
    assert(phys_base & 0xfff < 0x1000) by (bit_vector);
    let page_offset = (phys_base & 0xfff) as usize;
    let span = match page_offset.checked_add(len as usize) {
        Some(s) => s,
        None => return None,
    };
    let padded = span + 0xfff;
    let map_len = padded & !0xfffusize;
    assert(map_len == padded & !0xfffusize && padded == span + 0xfff ==> map_len % 0x1000 == 0
        && span <= map_len && map_len < span + 0x1000) by (bit_vector);
    Some(WindowLayout { page_base, page_offset, map_len: map_len as u64 })
}

/// A register window that lies inside the mapped one, or none when
/// `offset + len` leaves the `window_len` bytes of the window.
pub fn subwindow(window_len: usize, offset: usize, len: usize) -> (r: bool)
    ensures
        r == (offset + len <= window_len),
{
    match offset.checked_add(len) {
        Some(end) => end <= window_len,
        None => false,
    }
}

/// Offset of the PORTSC register of port `index` (from zero).
pub fn portsc_offset(cap_length: usize, index: usize) -> (r: usize)
    requires
        cap_length <= 0xff,
        index <= 0xff,
    ensures
        r == cap_length + OP_PORTSC_BASE + index * OP_PORTSC_STRIDE,
{
    cap_length + OP_PORTSC_BASE + index * OP_PORTSC_STRIDE
}

pub const PORTSC_CCS: u32 = 0x1;
pub const PORTSC_PED: u32 = 0x2;
pub const PORTSC_OCA: u32 = 0x8;
pub const PORTSC_PR: u32 = 0x10;
pub const PORTSC_PP: u32 = 0x200;
/// The write-one-to-clear change bits of PORTSC (bits 17 to 23).
pub const PORTSC_CHANGE_BITS: u32 = 0x00fe_0000;

/// A PORTSC value, decoded.
#[derive(Clone, Copy, Debug, PartialEq, Eq, Structural)]
pub struct PortStatus {
    pub connected: bool,
    pub enabled: bool,
    pub over_current: bool,
    pub reset: bool,
    pub powered: bool,
    pub speed_id: u32,
}

pub fn decode_port_status(portsc: u32) -> (r: PortStatus)
    ensures
        r.connected == (portsc & PORTSC_CCS != 0),
        r.enabled == (portsc & PORTSC_PED != 0),
        r.over_current == (portsc & PORTSC_OCA != 0),
        r.reset == (portsc & PORTSC_PR != 0),
        r.powered == (portsc & PORTSC_PP != 0),
        r.speed_id == (portsc >> 10u32) & 0xf,
{
    PortStatus {
        connected: portsc & PORTSC_CCS != 0,
        enabled: portsc & PORTSC_PED != 0,
        over_current: portsc & PORTSC_OCA != 0,
        reset: portsc & PORTSC_PR != 0,
        powered: portsc & PORTSC_PP != 0,
        speed_id: (portsc >> 10) & 0xf,
    }
}

/// What to do with a root hub port before enumeration.
#[derive(Clone, Copy, Debug, PartialEq, Eq, Structural)]
pub enum PortReset {
    /// Nothing is connected, or the port is over current: leave it.
    Skip,
    /// The port is enabled already.
    Ready,
    /// Write this value to start a port reset (it also clears the change
    /// bits) and wait until the reset completes.
    Reset(u32),
}

/// Decides how to bring up a port whose PORTSC reads `initial`.
pub fn port_reset_action(initial: u32) -> (r: PortReset)
    ensures
        (initial & PORTSC_CCS == 0 || initial & PORTSC_OCA != 0) ==> r == PortReset::Skip,
        (initial & PORTSC_CCS != 0 && initial & PORTSC_OCA == 0 && initial & PORTSC_PED != 0)
            ==> r == PortReset::Ready,
        (initial & PORTSC_CCS != 0 && initial & PORTSC_OCA == 0 && initial & PORTSC_PED == 0)
            ==> r == PortReset::Reset(initial | PORTSC_PR | PORTSC_CHANGE_BITS),
{
    if (initial & PORTSC_CCS) == 0 || (initial & PORTSC_OCA) != 0 {
        return PortReset::Skip;
    }
    if (initial & PORTSC_PED) == 0 {
        let value = (initial & !(PORTSC_PR | PORTSC_CHANGE_BITS)) | PORTSC_PR | PORTSC_CHANGE_BITS;
        assert((initial & !(0x10u32 | 0x00fe_0000u32)) | 0x10u32 | 0x00fe_0000u32 == initial
            | 0x10u32 | 0x00fe_0000u32) by (bit_vector);
        return PortReset::Reset(value);
    }
    PortReset::Ready
}

/// The port reset has completed and left the port enabled.
pub fn port_reset_complete(portsc: u32) -> (r: bool)
    ensures
        r == (portsc & PORTSC_PR == 0 && portsc & PORTSC_PED != 0),
{
    (portsc & PORTSC_PR) == 0 && (portsc & PORTSC_PED) != 0
}

/// A root hub port chosen for enumeration: its number (from one) and speed.
#[derive(Clone, Copy, Debug, PartialEq, Eq, Structural)]
pub struct RootPort {
    pub number: u8,
    pub speed_id: u32,
}

/// Keeps the first connected and enabled port: `current` is the choice
/// so far, `index` the port looked at, `portsc` its status.
pub fn select_port(current: Option<RootPort>, index: u8, portsc: u32) -> (r: Option<RootPort>)
    requires
        index < 255,
    ensures
        current is Some ==> r == current,
        current is None ==> r == if portsc & PORTSC_CCS != 0 && portsc & PORTSC_PED != 0 {
            Some(RootPort { number: (index + 1) as u8, speed_id: (portsc >> 10u32) & 0xf })
        } else {
            None
        },
{
    if current.is_some() {
        return current;
    }
    let status = decode_port_status(portsc);
    if status.connected && status.enabled {
        Some(RootPort { number: index + 1, speed_id: status.speed_id })
    } else {
        None
    }
}

/// Context size bit of HCCPARAMS1: contexts take 64 bytes.
pub const HCC_CSZ: u32 = 0x4;
pub const EP_TYPE_CONTROL_BIDIR: u32 = 4;
pub const EP_TYPE_INTERRUPT_IN: u32 = 7;
/// Error count field of an endpoint context (three retries).
pub const EP_ERROR_COUNT: u32 = 3;

/// Size of a device context entry.
pub fn context_size(hccparams1: u32) -> (r: usize)
    ensures
        r == if hccparams1 & HCC_CSZ != 0 { 64usize } else { 32usize },
{
    if (hccparams1 & HCC_CSZ) != 0 {
        64
    } else {
        32
    }
}

/// Default maximum packet size of endpoint 0 for a port speed: 64 bytes at
/// high speed, 512 at super speed, else 8.
pub fn ep0_max_packet_size(speed_id: u32) -> (r: u32)
    ensures
        r == match speed_id {
            3 => 64u32,
            4 | 5 => 512u32,
            _ => 8u32,
        },
{
    match speed_id {
        3 => 64,
        4 | 5 => 512,
        _ => 8,
    }
}

/// The input context of a command that adds a slot context and one
/// endpoint context.  Offsets are from the start of the input context.
#[derive(Clone, Copy, Debug, PartialEq, Eq, Structural)]
pub struct InputContext {
    /// Add context flags of the input control context (drop flags and the
    /// configuration value are zero).
    pub add_flags: u32,
    /// Offset of the slot context.
    pub slot_offset: usize,
    pub slot_dw0: u32,
    pub slot_dw1: u32,
    /// Offset of the endpoint context.
    pub endpoint_offset: usize,
    pub ep_dw0: u32,
    pub ep_dw1: u32,
    /// TR dequeue pointer, with the dequeue cycle state set.
    pub ep_dequeue: u64,
    pub ep_dw4: u32,
}

pub const INPUT_CONTROL_DROP_FLAGS: usize = 0x00;
pub const INPUT_CONTROL_ADD_FLAGS: usize = 0x04;
pub const INPUT_CONTROL_CONFIG_VALUE: usize = 0x1c;

/// Slot context dword 0: speed and the index of the last valid context.
pub open spec fn slot_dw0(speed_id: u32, context_entries: u32) -> u32 {
    ((speed_id & 0xf) << 20u32) | (context_entries << 27u32)
}

/// Endpoint context dword 1: error count, endpoint type, max packet size.
pub open spec fn endpoint_dw1(ep_type: u32, max_packet: u32) -> u32 {
    (EP_ERROR_COUNT << 1u32) | (ep_type << 3u32) | (max_packet << 16u32)
}

/// The input context of Address Device for a device on root port
/// `root_port` at `speed_id`, whose default control endpoint uses the
/// transfer ring at `ep0_ring_phys`.
pub fn address_device_context(
    hccparams1: u32,
    speed_id: u32,
    root_port: u8,
    ep0_ring_phys: u64,
) -> (r: InputContext)
    ensures
        r.add_flags == 0x3,
        r.slot_offset == context_size_spec(hccparams1),
        r.slot_dw0 == slot_dw0(speed_id, 1),
        r.slot_dw1 == (root_port as u32) << 16u32,
        r.endpoint_offset == 2 * context_size_spec(hccparams1),
        r.ep_dw0 == 0,
        r.ep_dw1 == endpoint_dw1(EP_TYPE_CONTROL_BIDIR, ep0_max_packet_spec(speed_id)),
        r.ep_dequeue == ep0_ring_phys | 1,
        r.ep_dw4 == 8,
{
    let cs = context_size(hccparams1);
    let mps = ep0_max_packet_size(speed_id);
    InputContext {
        add_flags: 0x3,
        slot_offset: cs,
        slot_dw0: ((speed_id & 0xf) << 20) | (1 << 27),
        slot_dw1: (root_port as u32) << 16,
        endpoint_offset: cs * 2,
        ep_dw0: 0,
        ep_dw1: (EP_ERROR_COUNT << 1) | (EP_TYPE_CONTROL_BIDIR << 3) | (mps << 16),
        ep_dequeue: ep0_ring_phys | 1,
        ep_dw4: 8,
    }
}

pub open spec fn context_size_spec(hccparams1: u32) -> usize {
    if hccparams1 & HCC_CSZ != 0 { 64usize } else { 32usize }
}

pub open spec fn ep0_max_packet_spec(speed_id: u32) -> u32 {
    match speed_id {
        3 => 64u32,
        4 | 5 => 512u32,
        _ => 8u32,
    }
}

/// The service interval field for a full-speed `bInterval`: one less,
/// at most 15.
pub fn interval_field(interval: u8) -> (r: u32)
    ensures
        r == if interval == 0 { 0 } else if interval - 1 > 15 { 15 } else { interval - 1 },
        r <= 15,
{
    let e = interval.saturating_sub(1);
    let e = if e < 15 {
        e
    } else {
        15
    };
    e as u32
}

/// An interrupt IN endpoint of a device.
#[derive(Clone, Copy, Debug, PartialEq, Eq, Structural)]
pub struct InterruptEndpoint {
    pub address: u8,
    pub max_packet: u16,
    pub interval: u8,
}

/// The input context of Configure Endpoint that adds the interrupt IN
/// endpoint `ep` (endpoint context 3, that of endpoint 1 IN) with the
/// transfer ring at `ring_phys`.
pub fn interrupt_endpoint_context(
    hccparams1: u32,
    speed_id: u32,
    root_port: u8,
    ep: InterruptEndpoint,
    ring_phys: u64,
) -> (r: InputContext)
    ensures
        r.add_flags == 0x9,
        r.slot_offset == context_size_spec(hccparams1),
        r.slot_dw0 == slot_dw0(speed_id, 3),
        r.slot_dw1 == (root_port as u32) << 16u32,
        r.endpoint_offset == 3 * context_size_spec(hccparams1),
        r.ep_dw0 == (if ep.interval == 0 { 0u32 } else if ep.interval - 1 > 15 { 15u32 } else { (ep.interval - 1) as u32 }) << 16u32,
        r.ep_dw1 == endpoint_dw1(EP_TYPE_INTERRUPT_IN, ep.max_packet as u32),
        r.ep_dequeue == ring_phys | 1,
        r.ep_dw4 == (ep.max_packet as u32) | ((ep.max_packet as u32) << 16u32),
{
    let cs = context_size(hccparams1);
    let interval = interval_field(ep.interval);
    let mps = ep.max_packet as u32;
    InputContext {
        add_flags: 0x9,
        slot_offset: cs,
        slot_dw0: ((speed_id & 0xf) << 20) | (3 << 27),
        slot_dw1: (root_port as u32) << 16,
        endpoint_offset: cs * 3,
        ep_dw0: interval << 16,
        ep_dw1: (EP_ERROR_COUNT << 1) | (EP_TYPE_INTERRUPT_IN << 3) | (mps << 16),
        ep_dequeue: ring_phys | 1,
        ep_dw4: mps | (mps << 16),
    }
}

/// Fields of an interrupt IN endpoint context can be read back: type,
/// error count and max packet size of dword 1.
pub proof fn lemma_endpoint_dw1_fields(ep_type: u32, max_packet: u16)
    requires
        ep_type < 8,
    ensures
        (endpoint_dw1(ep_type, max_packet as u32) >> 1u32) & 3 == EP_ERROR_COUNT,
        (endpoint_dw1(ep_type, max_packet as u32) >> 3u32) & 7 == ep_type,
        endpoint_dw1(ep_type, max_packet as u32) >> 16u32 == max_packet,
{
    let m = max_packet as u32;
    assert(ep_type < 8 && m < 0x1_0000 ==> {
        let d = (3u32 << 1u32) | (ep_type << 3u32) | (m << 16u32);
        &&& (d >> 1u32) & 3 == 3
        &&& (d >> 3u32) & 7 == ep_type
        &&& d >> 16u32 == m
    }) by (bit_vector);
}

/// The event ring segment table entry of a one-segment event ring.
#[derive(Clone, Copy, Debug, PartialEq, Eq, Structural)]
pub struct SegmentEntry {
    pub base: u64,
    pub trb_count: u32,
}

pub fn event_segment(event_ring_phys: u64, event_ring_len: usize) -> (r: SegmentEntry)
    requires
        event_ring_len <= 0xffff_ffff,
    ensures
        r.base == event_ring_phys,
        r.trb_count == event_ring_len / 16,
{
    SegmentEntry { base: event_ring_phys, trb_count: (event_ring_len / 16) as u32 }
}

/// The command ring control value: the ring at `ring_phys` with the ring
/// cycle state set.
pub fn command_ring_control(ring_phys: u64) -> (r: u64)
    ensures
        r == ring_phys | 1,
{
    ring_phys | 1
}

} // verus!

//! USB descriptors and HID reports: the configuration descriptor walk that
//! finds the HID interface and its interrupt IN endpoint, the identifiers of
//! the device descriptor, and the decoding of pointer reports.
use crate::xhci_setup::InterruptEndpoint;
use vstd::prelude::*;

verus! {

pub const DESC_TYPE_INTERFACE: u8 = 4;
pub const DESC_TYPE_ENDPOINT: u8 = 5;
pub const DESC_TYPE_HID: u8 = 0x21;
/// Length of a configuration descriptor header.
pub const CONFIG_HEADER_LEN: u16 = 9;
/// Length of a device descriptor.
pub const DEVICE_DESCRIPTOR_LEN: u16 = 18;

/// The little-endian 16-bit value at `offset`.
pub open spec fn le16(bytes: Seq<u8>, offset: int) -> u16 {
    (bytes[offset] + 256 * bytes[offset + 1]) as u16
}

fn read_le16(bytes: &[u8], offset: usize) -> (r: u16)
    requires
        offset + 1 < bytes@.len(),
    ensures
        r == le16(bytes@, offset as int),
{
    let lo = bytes[offset] as u16;
    let hi = bytes[offset + 1] as u16;
    assert(lo < 256 && hi < 256 ==> lo | (hi << 8u16) == lo + 256 * hi) by (bit_vector);
    lo | (hi << 8)
}

/// What the configuration descriptor tells the driver.
#[derive(Clone, Copy, Debug, PartialEq, Eq, Structural)]
pub struct UsbConfigurationInfo {
    pub config_value: u8,
    pub interface_number: u8,
    pub interface_class: u8,
    pub interface_subclass: u8,
    pub interface_protocol: u8,
    pub report_descriptor_len: u16,
    pub interrupt_in: Option<InterruptEndpoint>,
}

/// The total length of a configuration (wTotalLength of its header).
pub fn config_total_length(header: &[u8]) -> (r: u16)
    requires
        header@.len() >= 4,
    ensures
        r == le16(header@, 2),
{
    read_le16(header, 2)
}

/// The number of bytes to fetch of a configuration of `total_length`
/// bytes into a buffer of `buffer_len` bytes.
pub fn config_transfer_length(total_length: u16, buffer_len: u16) -> (r: u16)
    ensures
        r == if total_length < buffer_len { total_length } else { buffer_len },
{
    if total_length < buffer_len {
        total_length
    } else {
        buffer_len
    }
}

/// An endpoint descriptor attribute word and address name an interrupt
/// endpoint in the IN direction.
pub open spec fn is_interrupt_in(address: u8, attributes: u8) -> bool {
    address & 0x80 != 0 && attributes & 0x3 == 0x3
}

/// `info` updated by the descriptor of `len` bytes at `offset`: an
/// interface descriptor sets the interface fields, the first interrupt IN
/// endpoint is kept, a HID descriptor sets the report descriptor length.
pub open spec fn apply_descriptor(info: UsbConfigurationInfo, bytes: Seq<u8>, offset: int, len: int) -> UsbConfigurationInfo {
    let dtype = bytes[offset + 1];
    if dtype == DESC_TYPE_INTERFACE && len >= 9 {
        UsbConfigurationInfo {
            interface_number: bytes[offset + 2],
            interface_class: bytes[offset + 5],
            interface_subclass: bytes[offset + 6],
            interface_protocol: bytes[offset + 7],
            ..info
        }
    } else if dtype == DESC_TYPE_ENDPOINT && len >= 7 {
        if is_interrupt_in(bytes[offset + 2], bytes[offset + 3]) && info.interrupt_in is None {
            UsbConfigurationInfo {
                interrupt_in: Some(
                    InterruptEndpoint {
                        address: bytes[offset + 2],
                        max_packet: le16(bytes, offset + 4),
                        interval: bytes[offset + 6],
                    },
                ),
                ..info
            }
        } else {
            info
        }
    } else if dtype == DESC_TYPE_HID && len >= 9 {
        UsbConfigurationInfo { report_descriptor_len: le16(bytes, offset + 7), ..info }
    } else {
        info
    }
}

/// The walk over the descriptors of the first `limit` bytes from `offset`:
/// each descriptor starts with its length; the walk ends at a length below
/// two or one that runs past `limit`.
pub open spec fn walk(bytes: Seq<u8>, limit: int, offset: int, info: UsbConfigurationInfo) -> UsbConfigurationInfo
    decreases limit - offset,
{
    if offset < 0 || offset + 2 > limit {
        info
    } else {
        let len = bytes[offset] as int;
        if len < 2 || offset + len > limit {
            info
        } else {
            walk(bytes, limit, offset + len, apply_descriptor(info, bytes, offset, len))
        }
    }
}

/// A HID descriptor of the walk sets the report descriptor length to its
/// little-endian 16-bit wDescriptorLength field (bytes 7 and 8), and an
/// interrupt IN endpoint taken by the walk gets the little-endian 16-bit
/// wMaxPacketSize field (bytes 4 and 5) and bInterval (byte 6).
pub proof fn lemma_descriptor_fields_are_little_endian(
    info: UsbConfigurationInfo,
    bytes: Seq<u8>,
    offset: int,
    len: int,
)
    requires
        0 <= offset,
        offset + len <= bytes.len(),
        len >= 9 || (bytes[offset + 1] == DESC_TYPE_ENDPOINT && len >= 7),
    ensures
        bytes[offset + 1] == DESC_TYPE_HID ==> apply_descriptor(
            info,
            bytes,
            offset,
            len,
        ).report_descriptor_len == bytes[offset + 7] + 256 * bytes[offset + 8],
        bytes[offset + 1] == DESC_TYPE_ENDPOINT && info.interrupt_in is None && bytes[offset + 2]
            & 0x80 != 0 && bytes[offset + 3] & 3 == 3 ==> apply_descriptor(
            info,
            bytes,
            offset,
            len,
        ).interrupt_in == Some(
            InterruptEndpoint {
                address: bytes[offset + 2],
                max_packet: (bytes[offset + 4] + 256 * bytes[offset + 5]) as u16,
                interval: bytes[offset + 6],
            },
        ),
        bytes[offset + 1] == DESC_TYPE_INTERFACE ==> {
            let r = apply_descriptor(info, bytes, offset, len);
            &&& r.interface_number == bytes[offset + 2]
            &&& r.interface_class == bytes[offset + 5]
            &&& r.interface_subclass == bytes[offset + 6]
            &&& r.interface_protocol == bytes[offset + 7]
            &&& r.interrupt_in == info.interrupt_in
            &&& r.report_descriptor_len == info.report_descriptor_len
            &&& r.config_value == info.config_value
        },
        bytes[offset + 1] == DESC_TYPE_ENDPOINT && info.interrupt_in is Some ==> apply_descriptor(
            info,
            bytes,
            offset,
            len,
        ).interrupt_in == info.interrupt_in,
{
}

/// The configuration as read: the configuration value of the header, all
/// other fields zero or absent before the walk.
pub open spec fn initial_info(bytes: Seq<u8>) -> UsbConfigurationInfo {
    UsbConfigurationInfo {
        config_value: bytes[5],
        interface_number: 0,
        interface_class: 0,
        interface_subclass: 0,
        interface_protocol: 0,
        report_descriptor_len: 0,
        interrupt_in: None,
    }
}

/// Parses the first `transfer_length` bytes of a configuration
/// descriptor set held in `bytes`.
pub fn parse_configuration(bytes: &[u8], transfer_length: u16) -> (r: UsbConfigurationInfo)
    requires
        bytes@.len() >= 8,
        transfer_length <= bytes@.len(),
    ensures
        r == walk(bytes@, transfer_length as int, 0, initial_info(bytes@)),
        r.interrupt_in matches Some(ep) ==> ep.address & 0x80 != 0,
{
    let limit = transfer_length as usize;
    let mut info = UsbConfigurationInfo {
        config_value: bytes[5],
        interface_number: 0,
        interface_class: 0,
        interface_subclass: 0,
        interface_protocol: 0,
        report_descriptor_len: 0,
        interrupt_in: None,
    };
    let mut offset: usize = 0;
    while offset + 2 <= limit
        invariant
            limit == transfer_length,
            limit <= bytes@.len(),
            offset <= limit,
            walk(bytes@, limit as int, offset as int, info) == walk(
                bytes@,
                limit as int,
                0,
                initial_info(bytes@),
            ),
            info.interrupt_in matches Some(ep) ==> ep.address & 0x80 != 0,
        ensures
            walk(bytes@, limit as int, offset as int, info) == info,
            walk(bytes@, limit as int, offset as int, info) == walk(
                bytes@,
                limit as int,
                0,
                initial_info(bytes@),
            ),
            info.interrupt_in matches Some(ep) ==> ep.address & 0x80 != 0,
        decreases limit - offset,
    {
        let len = bytes[offset] as usize;
        if len < 2 || offset + len > limit {
            break;
        }
        let dtype = bytes[offset + 1];
        if dtype == DESC_TYPE_INTERFACE && len >= 9 {
            info = UsbConfigurationInfo {
                interface_number: bytes[offset + 2],
                interface_class: bytes[offset + 5],
                interface_subclass: bytes[offset + 6],
                interface_protocol: bytes[offset + 7],
                ..info
            };
        } else if dtype == DESC_TYPE_ENDPOINT && len >= 7 {
            let address = bytes[offset + 2];
            let attributes = bytes[offset + 3];
            let max_packet = read_le16(bytes, offset + 4);
            let interval = bytes[offset + 6];
            if (address & 0x80) != 0 && (attributes & 0x3) == 0x3 && info.interrupt_in.is_none() {
                info = UsbConfigurationInfo {
                    interrupt_in: Some(InterruptEndpoint { address, max_packet, interval }),
                    ..info
                };
            }
        } else if dtype == DESC_TYPE_HID && len >= 9 {
            let report_len = read_le16(bytes, offset + 7);
            info = UsbConfigurationInfo { report_descriptor_len: report_len, ..info };
        }
        offset = offset + len;
    }
    info
}

/// Vendor and product identifiers of a device descriptor, from the dword at
/// its offset 8.
pub fn device_ids(dword8: u32) -> (r: (u16, u16))
    ensures
        r.0 == dword8 & 0xffff,
        r.1 == dword8 >> 16u32,
{
    assert(dword8 & 0xffff <= 0xffff && dword8 >> 16u32 <= 0xffff) by (bit_vector);
    ((dword8 & 0xffff) as u16, (dword8 >> 16) as u16)
}

/// Lower-case hexadecimal digit of `nibble`.
pub open spec fn hex_digit(nibble: u8) -> u8 {
    if nibble < 10 { (0x30 + nibble) as u8 } else { (0x61 + nibble - 10) as u8 }
}

/// The first `count` bytes as two hex digits each, separated by spaces.
pub open spec fn hex_line(bytes: Seq<u8>, count: int) -> Seq<u8> {
    Seq::new(
        (3 * count - 1) as nat,
        |k: int|
            if k % 3 == 0 {
                hex_digit(bytes[k / 3] >> 4u8)
            } else if k % 3 == 1 {
                hex_digit(bytes[k / 3] & 0x0f)
            } else {
                0x20u8
            },
    )
}

fn hex_digit_exec(nibble: u8) -> (r: u8)
    requires
        nibble < 16,
    ensures
        r == hex_digit(nibble),
{
    if nibble < 10 {
        0x30 + nibble
    } else {
        0x61 + (nibble - 10)
    }
}

/// A preview of at most sixteen bytes of a buffer, for the log: `count`
/// bytes in hex, separated by spaces.
pub fn hex_preview(bytes: &[u8], count: usize) -> (r: Vec<u8>)
    requires
        1 <= count <= 16,
        count <= bytes@.len(),
    ensures
        r@ == hex_line(bytes@, count as int),
{
    let mut line: Vec<u8> = Vec::new();
    let mut i: usize = 0;
    while i < count
        invariant
            i <= count <= 16,
            count <= bytes@.len(),
            line@.len() == if i == 0 { 0 } else { 3 * i - 1 },
            forall|k: int| 0 <= k < line@.len() ==> line@[k] == hex_line(bytes@, count as int)[k],
        decreases count - i,
    {
        let byte = bytes[i];
        let hi = byte >> 4;
        let lo = byte & 0x0f;
        assert(byte >> 4u8 < 16 && byte & 0x0f < 16) by (bit_vector);
        if i > 0 {
            line.push(0x20);
        }
        line.push(hex_digit_exec(hi));
        line.push(hex_digit_exec(lo));
        i = i + 1;
    }
    assert(line@ =~= hex_line(bytes@, count as int));
    line
}

/// A boot-style pointer report: buttons, absolute position and wheel.
#[derive(Clone, Copy, Debug, PartialEq, Eq, Structural)]
pub struct PointerReport {
    pub buttons: u8,
    pub x: u16,
    pub y: u16,
    pub wheel: i8,
}

/// Decodes a pointer report of `packet_len` bytes: five bytes at least
/// (buttons, then X and Y as little-endian words), a sixth for the wheel.
pub fn decode_pointer_report(bytes: &[u8], packet_len: usize) -> (r: Option<PointerReport>)
    requires
        packet_len <= bytes@.len(),
    ensures
        packet_len < 5 ==> r is None,
        packet_len >= 5 ==> r == Some(
            PointerReport {
                buttons: bytes@[0] & 0x1f,
                x: le16(bytes@, 1),
                y: le16(bytes@, 3),
                wheel: if packet_len >= 6 { bytes@[5] as i8 } else { 0i8 },
            },
        ),
{
    if packet_len < 5 {
        return None;
    }
    let buttons = bytes[0] & 0x1f;
    let x = read_le16(bytes, 1);
    let y = read_le16(bytes, 3);
    let wheel = if packet_len >= 6 {
        bytes[5] as i8
    } else {
        0
    };
    Some(PointerReport { buttons, x, y, wheel })
}

/// The number of report bytes worth logging: the endpoint's packet size,
/// bounded by the buffer.
pub fn report_packet_len(max_packet: u16, buffer_len: usize) -> (r: usize)
    ensures
        r == if (max_packet as usize) < buffer_len { max_packet as usize } else { buffer_len },
{
    let m = max_packet as usize;
    if m < buffer_len {
        m
    } else {
        buffer_len
    }
}

} // verus!

//! PCI configuration space access through the legacy I/O ports: address
//! encoding, sub-word reads and writes, and memory BAR decoding.
use crate::net_device::VirtioFault;
use vstd::prelude::*;

verus! {

/// I/O port that selects a configuration register.
pub const PCI_CONFIG_ADDRESS: u16 = 0x0cf8;
/// I/O port through which the selected register is read or written.
pub const PCI_CONFIG_DATA: u16 = 0x0cfc;
/// Enable bit of a configuration address.
pub const CONFIG_ENABLE: u32 = 0x8000_0000;
/// Vendor identifier read from an empty slot.
pub const NO_VENDOR: u16 = 0xffff;
/// Memory space and bus master enable bits of the command register.
pub const COMMAND_MEMORY_AND_BUS_MASTER: u16 = 0x0006;

/// A PCI function by its bus, device and function numbers.
#[derive(Clone, Copy, Debug, PartialEq, Eq, Structural)]
pub struct PciLocation {
    pub bus: u8,
    pub device: u8,
    pub function: u8,
}

/// The location bits of a configuration address, `offset` not included.
pub open spec fn location_bits(loc: PciLocation) -> u32 {
    CONFIG_ENABLE | ((loc.bus as u32) << 16u32) | ((loc.device as u32) << 11u32) | ((
    loc.function as u32) << 8u32)
}

/// The configuration address of the dword that holds `offset` (the two low
/// bits of `offset` are dropped).
pub fn config_address(loc: PciLocation, offset: u8) -> (r: u32)
    ensures
        r == location_bits(loc) | ((offset as u32) & 0xfc),
        loc.device < 32 && loc.function < 8 ==> {
            &&& r & CONFIG_ENABLE != 0
            &&& (r >> 16u32) & 0xff == loc.bus
            &&& (r >> 11u32) & 0x1f == loc.device
            &&& (r >> 8u32) & 0x7 == loc.function
            &&& r & 0xff == offset & 0xfc
        },
{
    let r = CONFIG_ENABLE | ((loc.bus as u32) << 16) | ((loc.device as u32) << 11) | ((
    loc.function as u32) << 8) | ((offset as u32) & 0xfc);
    let bus = loc.bus as u32;
    let device = loc.device as u32;
    let function = loc.function as u32;
    let off = offset as u32;
    assert(device < 32 && function < 8 && bus < 256 && off < 256 ==> {
        let r = 0x8000_0000u32 | (bus << 16u32) | (device << 11u32) | (function << 8u32) | (off
            & 0xfc);
        &&& r & 0x8000_0000 != 0
        &&& (r >> 16u32) & 0xff == bus
        &&& (r >> 11u32) & 0x1f == device
        &&& (r >> 8u32) & 0x7 == function
        &&& r & 0xff == off & 0xfc
    }) by (bit_vector);
    r
}

/// The configuration address of the dword register at `offset` of the
/// function at `loc`, as the virtio transport forms it: the offset must
/// name a dword inside the 256-byte configuration header.
pub fn dword_config_address(loc: PciLocation, offset: u16) -> (r: Result<u32, VirtioFault>)
    ensures
        r is Ok <==> offset < 256 && offset % 4 == 0,
        r is Err ==> r == Err::<u32, VirtioFault>(VirtioFault::AccessFailed),
        r matches Ok(a) ==> a == location_bits(loc) | (offset as u32),
{
    if offset >= 256 || offset & 3 != 0 {
        assert(offset & 3 != 0 <==> offset % 4 != 0) by (bit_vector);
        return Err(VirtioFault::AccessFailed);
    }
    assert(offset & 3 == 0 <==> offset % 4 == 0) by (bit_vector);
    Ok(CONFIG_ENABLE | ((loc.bus as u32) << 16) | ((loc.device as u32) << 11) | ((
    loc.function as u32) << 8) | (offset as u32))
}

/// Bit position of the byte at `offset` inside its dword.
pub open spec fn byte_shift(offset: u8) -> u32 {
    (((offset & 3) as u32) * 8) as u32
}

/// Bit position of the 16-bit word at `offset` inside its dword.
pub open spec fn word_shift(offset: u8) -> u32 {
    (((offset & 2) as u32) * 8) as u32
}

/// The offset of the dword that holds `offset`.
pub fn dword_offset(offset: u8) -> (r: u8)
    ensures
        r == offset & !3u8,
        r % 4 == 0,
        r <= offset < r + 4,
{
    assert((offset & !3u8) % 4 == 0 && (offset & !3u8) <= offset && offset < (offset & !3u8) + 4)
        by (bit_vector);
    offset & !3u8
}

/// The 16-bit word at `offset` of a dword read from its aligned offset.
pub fn config_word(dword: u32, offset: u8) -> (r: u16)
    ensures
        r == (dword >> word_shift(offset)) & 0xffff,
{
    let shift = ((offset & 2) as u32) * 8;
    assert(shift == word_shift(offset));
    assert(((offset & 2) as u32) * 8 <= 16) by (bit_vector);
    assert((dword >> shift) & 0xffff <= 0xffff) by (bit_vector);
    ((dword >> shift) & 0xffff) as u16
}

/// The byte at `offset` of a dword read from its aligned offset.
pub fn config_byte(dword: u32, offset: u8) -> (r: u8)
    ensures
        r == (dword >> byte_shift(offset)) & 0xff,
{
    let shift = ((offset & 3) as u32) * 8;
    assert(shift == byte_shift(offset));
    assert(((offset & 3) as u32) * 8 <= 24) by (bit_vector);
    assert((dword >> shift) & 0xff <= 0xff) by (bit_vector);
    ((dword >> shift) & 0xff) as u8
}

/// The dword to write back so that the 16-bit word at `offset` becomes
/// `value` and the other word of `current` stays as it was.
pub fn merge_config_word(current: u32, offset: u8, value: u16) -> (r: u32)
    ensures
        r == (current & !(0xffffu32 << word_shift(offset))) | ((value as u32) << word_shift(
            offset,
        )),
{
    let shift = ((offset & 2) as u32) * 8;
    assert(shift == word_shift(offset));
    assert(((offset & 2) as u32) * 8 <= 16) by (bit_vector);
    (current & !(0xffffu32 << shift)) | ((value as u32) << shift)
}

/// Writing a word and reading it back gives the word written, and the
/// other word of the dword keeps its value.
pub proof fn lemma_word_write_read_back(current: u32, offset: u8, value: u16)
    ensures
        (((current & !(0xffffu32 << word_shift(offset))) | ((value as u32) << word_shift(offset)))
            >> word_shift(offset)) & 0xffff == value,
        (((current & !(0xffffu32 << word_shift(offset))) | ((value as u32) << word_shift(offset)))
            >> word_shift(offset ^ 2)) & 0xffff == (current >> word_shift(offset ^ 2)) & 0xffff,
{
    let s = word_shift(offset);
    let t = word_shift(offset ^ 2);
    assert(s == 0 || s == 16) by (bit_vector)
        requires
            s == ((offset & 2) as u32) * 8,
    ;
    assert(t == 16 - s) by (bit_vector)
        requires
            s == ((offset & 2) as u32) * 8,
            t == (((offset ^ 2) & 2) as u32) * 8,
    ;
    let v = value as u32;
    assert(v < 0x1_0000 && (s == 0 || s == 16) && t == 16 - s ==> {
        let r = (current & !(0xffffu32 << s)) | (v << s);
        &&& (r >> s) & 0xffff == v
        &&& (r >> t) & 0xffff == (current >> t) & 0xffff
    }) by (bit_vector);
}

/// The command register with memory decoding and bus mastering enabled and
/// every other bit kept.
pub fn enable_memory_and_bus_master(command: u16) -> (r: u16)
    ensures
        r == command | COMMAND_MEMORY_AND_BUS_MASTER,
        r & COMMAND_MEMORY_AND_BUS_MASTER == COMMAND_MEMORY_AND_BUS_MASTER,
        r & !COMMAND_MEMORY_AND_BUS_MASTER == command & !COMMAND_MEMORY_AND_BUS_MASTER,
{
    let r = command | COMMAND_MEMORY_AND_BUS_MASTER;
    assert((command | 6u16) & 6u16 == 6u16 && (command | 6u16) & !6u16 == command & !6u16)
        by (bit_vector);
    r
}

/// Vendor and device identifiers from the first dword of the header.
pub fn vendor_and_device(dword: u32) -> (r: (u16, u16))
    ensures
        r.0 == dword & 0xffff,
        r.1 == dword >> 16u32,
        dword == r.1 as int * 0x1_0000 + r.0 as int,
{
    assert(dword >> 16u32 <= 0xffff && dword & 0xffff <= 0xffff && dword == (dword >> 16u32)
        * 0x1_0000 + (dword & 0xffff)) by (bit_vector);
    let vendor = (dword & 0xffff) as u16;
    let device = (dword >> 16) as u16;
    (vendor, device)
}

/// Class, subclass and programming interface from the dword at offset 8.
#[derive(Clone, Copy, Debug, PartialEq, Eq, Structural)]
pub struct ClassCode {
    pub class: u8,
    pub subclass: u8,
    pub prog_if: u8,
}

pub fn class_code(dword: u32) -> (r: ClassCode)
    ensures
        r.class == dword >> 24u32,
        r.subclass == (dword >> 16u32) & 0xff,
        r.prog_if == (dword >> 8u32) & 0xff,
{
    assert(dword >> 24u32 <= 0xff && (dword >> 16u32) & 0xff <= 0xff && (dword >> 8u32) & 0xff
        <= 0xff) by (bit_vector);
    ClassCode {
        class: (dword >> 24) as u8,
        subclass: ((dword >> 16) & 0xff) as u8,
        prog_if: ((dword >> 8) & 0xff) as u8,
    }
}

/// The function is a USB host controller (serial bus class, USB subclass).
pub fn is_usb_controller(code: ClassCode) -> (r: bool)
    ensures
        r == (code.class == 0x0c && code.subclass == 0x03),
{
    code.class == 0x0c && code.subclass == 0x03
}

/// Number of base address registers of a type 0 header.
pub const BAR_COUNT: u8 = 6;

/// Configuration offset of base address register `index`.
pub fn bar_offset(index: u8) -> (r: u8)
    requires
        index < BAR_COUNT,
    ensures
        r == 0x10 + 4 * index,
{
    0x10 + index * 4
}

/// The register decodes I/O space.
pub open spec fn bar_is_io(low: u32) -> bool {
    low & 1 != 0
}

/// The register is the low half of a 64-bit memory BAR.
pub open spec fn bar_is_64(low: u32) -> bool {
    (low >> 1u32) & 3 == 2
}

/// How the probe of a memory BAR goes on after its low register was read.
#[derive(Clone, Copy, Debug, PartialEq, Eq, Structural)]
pub enum BarProbe {
    /// The BAR is no usable memory BAR.
    Reject,
    /// A 32-bit memory BAR: the low register is all there is.
    Bar32,
    /// A 64-bit memory BAR: the next register holds the high half.
    Bar64,
}

/// Classifies BAR `index` by its low register `low`.
pub fn probe_bar(index: u8, low: u32) -> (r: BarProbe)
    requires
        index < BAR_COUNT,
    ensures
        bar_is_io(low) ==> r == BarProbe::Reject,
        !bar_is_io(low) && !bar_is_64(low) ==> r == BarProbe::Bar32,
        !bar_is_io(low) && bar_is_64(low) ==> r == (if index + 1 >= BAR_COUNT {
            BarProbe::Reject
        } else {
            BarProbe::Bar64
        }),
{
    if low & 1 != 0 {
        return BarProbe::Reject;
    }
    let bar_type = (low >> 1) & 0x3;
    if bar_type == 2 {
        if index + 1 >= BAR_COUNT {
            BarProbe::Reject
        } else {
            BarProbe::Bar64
        }
    } else {
        BarProbe::Bar32
    }
}

/// A memory window of the xHCI controller.
#[derive(Clone, Copy, Debug, PartialEq, Eq, Structural)]
pub struct XhciBar {
    pub phys_base: u64,
    pub size: u64,
}

/// Size of the register window mapped for a controller.
pub const XHCI_WINDOW: u64 = 0x1_0000;

/// The physical base that a memory BAR decodes: the address bits of the low
/// register and, for a 64-bit BAR, the high register above them.
pub open spec fn bar_base(low: u32, high: u32) -> u64 {
    ((high as u64) << 32u64) | ((low & 0xffff_fff0) as u64)
}

/// The controller window of a memory BAR; none when the BAR is unassigned
/// (its base is zero).  `high` is zero for a 32-bit BAR.
pub fn memory_bar(low: u32, high: u32) -> (r: Option<XhciBar>)
    ensures
        bar_base(low, high) == 0 ==> r is None,
        bar_base(low, high) != 0 ==> r == Some(
            XhciBar { phys_base: bar_base(low, high), size: XHCI_WINDOW },
        ),
        bar_base(low, high) & 0xf == 0,
{
    let base = ((high as u64) << 32) | ((low & 0xffff_fff0) as u64);
    assert(((((high as u64) << 32u64) | ((low & 0xffff_fff0u32) as u64)) & 0xf) == 0) by (bit_vector);
    if base == 0 {
        None
    } else {
        Some(XhciBar { phys_base: base, size: XHCI_WINDOW })
    }
}

/// The BAR index to look at after BAR `index` whose low register reads
/// `low`: a 64-bit BAR takes two registers.
pub fn next_bar_index(index: u8, low: u32) -> (r: u8)
    requires
        index < BAR_COUNT,
    ensures
        r == if bar_is_64(low) { index + 2 } else { index + 1 },
        r > index,
{
    let bar_type = (low >> 1) & 0x3;
    if bar_type == 2 {
        index + 2
    } else {
        index + 1
    }
}

} // verus!

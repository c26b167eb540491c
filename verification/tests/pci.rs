use mochi_drivers::net_device::VirtioFault;
use mochi_drivers::pci::{
    bar_offset, class_code, config_address, config_byte, config_word, dword_config_address,
    dword_offset, enable_memory_and_bus_master, is_usb_controller, memory_bar,
    merge_config_word, next_bar_index, probe_bar, vendor_and_device, BarProbe, PciLocation,
    XhciBar,
};
use mochi_drivers::virtio_pci::{align, BarMappings, PciBar};

#[test]
fn config_addresses_pack_the_location() {
    let loc = PciLocation { bus: 1, device: 2, function: 3 };
    assert_eq!(config_address(loc, 0x13), 0x8001_1310);
    assert_eq!(dword_config_address(loc, 0x10), Ok(0x8001_1310));
    assert_eq!(dword_config_address(loc, 0x11), Err(VirtioFault::AccessFailed));
    assert_eq!(dword_config_address(loc, 0x100), Err(VirtioFault::AccessFailed));
}

#[test]
fn sub_dword_reads_and_writes() {
    assert_eq!(dword_offset(0x0e), 0x0c);
    assert_eq!(config_word(0x1234_5678, 0x04), 0x5678);
    assert_eq!(config_word(0x1234_5678, 0x06), 0x1234);
    assert_eq!(config_byte(0x1234_5678, 0x0e), 0x34);
    assert_eq!(config_byte(0x1234_5678, 0x0d), 0x56);
    let merged = merge_config_word(0x1234_5678, 0x04, 0xabcd);
    assert_eq!(merged, 0x1234_abcd);
    assert_eq!(config_word(merged, 0x04), 0xabcd);
    assert_eq!(config_word(merge_config_word(0x1234_5678, 0x06, 0xabcd), 0x06), 0xabcd);
    assert_eq!(config_word(merge_config_word(0x1234_5678, 0x06, 0xabcd), 0x04), 0x5678);
    assert_eq!(enable_memory_and_bus_master(0x0401), 0x0407);
}

#[test]
fn identifiers_and_class_are_decoded() {
    assert_eq!(vendor_and_device(0x1041_1af4), (0x1af4, 0x1041));
    let c = class_code(0x0c03_3000);
    assert_eq!((c.class, c.subclass, c.prog_if), (0x0c, 0x03, 0x30));
    assert!(is_usb_controller(c));
    assert!(!is_usb_controller(class_code(0x0200_0000)));
}

#[test]
fn memory_bars_are_probed() {
    assert_eq!(bar_offset(0), 0x10);
    assert_eq!(bar_offset(5), 0x24);
    assert_eq!(probe_bar(0, 0xfebf_0001), BarProbe::Reject);
    assert_eq!(probe_bar(0, 0xfebf_0000), BarProbe::Bar32);
    assert_eq!(probe_bar(0, 0xfebf_0004), BarProbe::Bar64);
    assert_eq!(probe_bar(5, 0xfebf_0004), BarProbe::Reject);
    assert_eq!(memory_bar(0xfebf_000c, 0x1), Some(XhciBar { phys_base: 0x1_febf_0000, size: 0x1_0000 }));
    assert_eq!(memory_bar(0x0000_0004, 0), None);
    assert_eq!(next_bar_index(0, 0xfebf_0004), 2);
    assert_eq!(next_bar_index(0, 0xfebf_0000), 1);
}

#[test]
fn bar_windows_are_page_aligned() {
    assert_eq!(align(0), Ok(0));
    assert_eq!(align(1), Ok(0x1000));
    assert_eq!(align(0x1000), Ok(0x1000));
    assert_eq!(align(u64::MAX), Err(VirtioFault::RegionOverflow));
}

#[test]
fn bars_are_mapped_once_and_registers_bounded() {
    let bars = [
        PciBar { index: 1, address: 0xfe00_0000, size: 0x1000, is_io: false },
        PciBar { index: 4, address: 0xfe40_0800, size: 0x4000, is_io: false },
        PciBar { index: 0, address: 0xc000, size: 0x40, is_io: true },
    ];
    let mut m = BarMappings::new();
    assert_eq!(m.plan(&bars, 6), Err(VirtioFault::InvalidBar));
    assert_eq!(m.plan(&bars, 0), Err(VirtioFault::InvalidBar));
    assert_eq!(m.plan(&bars, 2), Err(VirtioFault::InvalidBar));
    let p = m.plan(&bars, 4).unwrap().unwrap();
    assert_eq!(p.physical, 0xfe40_0000);
    assert_eq!(p.mapping.virtual_start, 0x0000_6200_0800_0000);
    assert_eq!(p.mapping.register_base, p.mapping.virtual_start + 0x800);
    assert_eq!(p.mapping.mapped_size, 0x5000);
    assert_eq!(p.mapping.register_size, 0x4000);
    assert_eq!(m.register_address(4, 0, 4), Err(VirtioFault::InvalidBar));
    m.record(4, p.mapping);
    assert_eq!(m.plan(&bars, 4), Ok(None));
    assert_eq!(m.register_address(4, 0x10, 4), Ok(p.mapping.register_base + 0x10));
    assert_eq!(m.register_address(4, 0x3ffc, 4), Ok(p.mapping.register_base + 0x3ffc));
    assert_eq!(m.register_address(4, 0x3ffd, 4), Err(VirtioFault::RegisterOutOfBounds));
    assert_eq!(m.register_address(4, 1, u64::MAX), Err(VirtioFault::RegionOverflow));
    assert_eq!(m.register_address(4, 0, u64::MAX), Err(VirtioFault::RegisterOutOfBounds));
}

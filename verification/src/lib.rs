//! Verified decision logic of a small set of user-space device drivers:
//! a PS/2 (i8042) keyboard and mouse driver, an xHCI USB host driver and a
//! virtio network driver.  Everything here computes on plain values; the
//! port, MMIO and IPC traffic that surrounds it is performed by the caller.
pub mod i8042;
pub mod keymap;
pub mod mouse;
pub mod net_device;
pub mod net_service;
pub mod pci;
pub mod usb_descriptor;
pub mod virtio_net;
pub mod virtio_pci;
pub mod xhci;
pub mod xhci_enumeration;
pub mod xhci_setup;

# mochi_drivers

Verified decision logic of three user-space device drivers: a PS/2 (i8042)
keyboard and mouse driver, an xHCI USB host driver that enumerates a HID
pointer, and a virtio network driver.

- `src/` is the library, written in Verus. Every function states its result
  in `ensures` over spec functions, and the laws of the drivers stand there
  as proof functions (`lemma_*`).
  - `i8042`, `keymap`, `mouse`: controller status bits, bounded waits, the
    controller set-up script, routing of keyboard bytes and mouse packets,
    serial-console key strokes, PS/2 mouse packet decoding.
  - `pci`: configuration space addresses, sub-dword access, BAR decoding.
  - `xhci`, `xhci_setup`, `xhci_enumeration`, `usb_descriptor`: TRBs and
    rings, event ring scanning, control transfers, contexts, ports, the
    enumeration state machine, configuration descriptor walk, HID reports.
  - `virtio_net`, `virtio_pci`, `net_device`, `net_service`: feature
    negotiation, frame bounds, BAR mapping, buffer and statistics
    bookkeeping, queue sizing, request replies.
- `app/` holds the drivers themselves: port I/O, MMIO, DMA, IPC and the
  calls into the driver framework and the device protocol. It runs the
  library's state machines (controller set-up, xHCI enumeration) and takes
  the values it writes from the library; the I/O sequencing inside each
  step, and the decisions that go through the framework's own types, stay
  here.
- `tests/` runs the library on concrete values.

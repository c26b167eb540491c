//! The enumeration of an xHCI controller and of the device on its first
//! enabled root port, as a state machine: each step takes what came of the
//! previous action and returns the next action for the caller to perform.
use crate::usb_descriptor::UsbConfigurationInfo;
use crate::xhci_setup::{portsc_offset, select_port, InterruptEndpoint, RootPort};
use vstd::prelude::*;

verus! {

/// Why the enumeration stopped early.
#[derive(Clone, Copy, Debug, PartialEq, Eq, Structural)]
pub enum EnumFailure {
    ControllerReset,
    RingAllocation,
    ControllerStart,
    NoEnabledPort,
    EnableSlot,
    ContextAllocation,
    AddressDevice,
    DeviceDescriptor,
    ConfigurationDescriptor,
    SetConfiguration,
}

/// The next thing to do.
#[derive(Clone, Copy, Debug, PartialEq, Eq)]
pub enum EnumAction {
    /// Stop and reset the controller (succeeded or not).
    ResetController,
    /// Allocate the DCBAA, command ring, event ring and segment table.
    AllocateRings,
    /// Write the rings and interrupter registers.
    ProgramController,
    /// Set the run bit and wait until the controller runs.
    StartController,
    /// Bring up the port with this index (from zero), whose PORTSC is at this
    /// offset, and report its status.
    ProbePort(usize, usize),
    /// Issue Enable Slot and report the slot obtained.
    EnableSlot,
    /// Allocate the output and input contexts and the endpoint 0 ring.
    AllocateContexts,
    /// Address the device in this slot on this root port.
    AddressDevice(u8, RootPort),
    /// Read the device descriptor.
    ReadDeviceDescriptor,
    /// Read and parse the configuration descriptor.
    ReadConfiguration,
    /// Select this configuration.
    SetConfiguration(u8),
    /// HID SET_IDLE on this interface.
    HidSetIdle(u8),
    /// HID SET_PROTOCOL on this interface with this protocol.
    HidSetProtocol(u8, u16),
    /// Configure this interrupt IN endpoint.
    ConfigureEndpoint(InterruptEndpoint),
    /// Poll this endpoint for reports, from now on.
    PollReports(InterruptEndpoint),
    /// Read this many bytes of the report descriptor of this interface.
    ReadReportDescriptor(u8, u16),
    /// Stop: this step failed.
    Fail(EnumFailure),
    /// Enumeration is over.
    Done,
}

/// What came of the last action.
#[derive(Clone, Copy, Debug, PartialEq, Eq)]
pub enum EnumOutcome {
    /// Nothing yet (the first step).
    Begin,
    /// The action succeeded or failed.
    Succeeded(bool),
    /// The status of the probed port after its bring-up.
    PortStatus(u32),
    /// The slot that Enable Slot obtained, if any.
    Slot(Option<u8>),
    /// The parsed configuration, if the descriptor could be read.
    Configuration(Option<UsbConfigurationInfo>),
}

/// Which action is outstanding.
#[derive(Clone, Copy, Debug, PartialEq, Eq, Structural)]
pub enum EnumPhase {
    NotStarted,
    Resetting,
    Allocating,
    Programming,
    Starting,
    Probing,
    EnablingSlot,
    AllocatingContexts,
    Addressing,
    ReadingIds,
    ReadingConfiguration,
    Configuring,
    SettingIdle,
    SettingProtocol,
    ConfiguringEndpoint,
    Polling,
    ReadingReport,
    Finished,
}

/// The state of an enumeration.
#[derive(Clone, Copy, Debug, PartialEq, Eq)]
pub struct XhciEnumeration {
    pub phase: EnumPhase,
    /// Length of the capability registers.
    pub cap_length: usize,
    /// Number of root hub ports.
    pub max_ports: usize,
    /// Length of the mapped register window.
    pub window_len: usize,
    /// The next port to probe.
    pub port_index: usize,
    /// The first connected and enabled port, once found.
    pub selected: Option<RootPort>,
    /// The slot obtained for the device.
    pub slot: u8,
    /// The configuration of the device, once read.
    pub config: Option<UsbConfigurationInfo>,
}

/// The protocol selected on a HID interface: report protocol.
pub const HID_REPORT_PROTOCOL: u16 = 1;

impl XhciEnumeration {
    /// The controller parameters fit their registers and the port probe
    /// stays within the ports.
    pub open spec fn bounds(self) -> bool {
        &&& self.cap_length <= 0xff
        &&& self.max_ports <= 0xff
        &&& self.port_index <= self.max_ports
    }

    pub open spec fn wf(self) -> bool {
        &&& self.bounds()
        &&& self.phase == EnumPhase::Probing ==> self.port_index < self.max_ports
    }

    /// The enumeration before its first step, for a controller whose
    /// capability registers take `cap_length` bytes, with `max_ports` root
    /// ports and a register window of `window_len` bytes.
    pub fn new(cap_length: u8, max_ports: u8, window_len: usize) -> (r: Self)
        ensures
            r.wf(),
            r == (XhciEnumeration {
                phase: EnumPhase::NotStarted,
                cap_length: cap_length as usize,
                max_ports: max_ports as usize,
                window_len,
                port_index: 0,
                selected: None,
                slot: 0,
                config: None,
            }),
    {
        XhciEnumeration {
            phase: EnumPhase::NotStarted,
            cap_length: cap_length as usize,
            max_ports: max_ports as usize,
            window_len,
            port_index: 0,
            selected: None,
            slot: 0,
            config: None,
        }
    }

    /// Goes on with the port probe: the next port while one remains whose
    /// PORTSC lies inside the register window, else the slot of the port
    /// chosen, or a failure when none was.
    pub open spec fn probe_next(self) -> (Self, EnumAction) {
        let offset = self.cap_length + 0x400 + self.port_index * 0x10;
        if self.port_index < self.max_ports && offset + 4 <= self.window_len {
            (
                XhciEnumeration { phase: EnumPhase::Probing, ..self },
                EnumAction::ProbePort(self.port_index, offset as usize),
            )
        } else if self.selected is Some {
            (XhciEnumeration { phase: EnumPhase::EnablingSlot, ..self }, EnumAction::EnableSlot)
        } else {
            Self::fail(self, EnumFailure::NoEnabledPort)
        }
    }

    pub open spec fn fail(self, why: EnumFailure) -> (Self, EnumAction) {
        (XhciEnumeration { phase: EnumPhase::Finished, ..self }, EnumAction::Fail(why))
    }

    /// After the interrupt endpoint (or without one): the report descriptor
    /// when the device has one, else the end.
    pub open spec fn report_or_done(self, c: UsbConfigurationInfo) -> (Self, EnumAction) {
        if c.report_descriptor_len != 0 {
            (
                XhciEnumeration { phase: EnumPhase::ReadingReport, ..self },
                EnumAction::ReadReportDescriptor(c.interface_number, c.report_descriptor_len),
            )
        } else {
            (XhciEnumeration { phase: EnumPhase::Finished, ..self }, EnumAction::Done)
        }
    }

    /// The step from state `s` given `outcome`: the new state and the next
    /// action.  A failed step ends the enumeration; an outcome of another
    /// kind than the action reports counts as a failure (for a port, as a
    /// port with nothing connected).
    pub open spec fn transition(s: Self, outcome: EnumOutcome) -> (Self, EnumAction) {
        let ok = outcome == EnumOutcome::Succeeded(true);
        match s.phase {
            EnumPhase::NotStarted => (
                XhciEnumeration { phase: EnumPhase::Resetting, ..s },
                EnumAction::ResetController,
            ),
            EnumPhase::Resetting => if ok {
                (XhciEnumeration { phase: EnumPhase::Allocating, ..s }, EnumAction::AllocateRings)
            } else {
                Self::fail(s, EnumFailure::ControllerReset)
            },
            EnumPhase::Allocating => if ok {
                (
                    XhciEnumeration { phase: EnumPhase::Programming, ..s },
                    EnumAction::ProgramController,
                )
            } else {
                Self::fail(s, EnumFailure::RingAllocation)
            },
            EnumPhase::Programming => (
                XhciEnumeration { phase: EnumPhase::Starting, ..s },
                EnumAction::StartController,
            ),
            EnumPhase::Starting => if ok {
                Self::probe_next(XhciEnumeration { port_index: 0, ..s })
            } else {
                Self::fail(s, EnumFailure::ControllerStart)
            },
            EnumPhase::Probing => {
                let portsc = match outcome {
                    EnumOutcome::PortStatus(v) => v,
                    _ => 0u32,
                };
                Self::probe_next(
                    XhciEnumeration {
                        selected: select_port_spec(s.selected, s.port_index as u8, portsc),
                        port_index: (s.port_index + 1) as usize,
                        ..s
                    },
                )
            },
            EnumPhase::EnablingSlot => match outcome {
                EnumOutcome::Slot(Some(slot)) => (
                    XhciEnumeration { phase: EnumPhase::AllocatingContexts, slot, ..s },
                    EnumAction::AllocateContexts,
                ),
                _ => Self::fail(s, EnumFailure::EnableSlot),
            },
            EnumPhase::AllocatingContexts => if ok && s.selected is Some {
                (
                    XhciEnumeration { phase: EnumPhase::Addressing, ..s },
                    EnumAction::AddressDevice(s.slot, s.selected.unwrap()),
                )
            } else {
                Self::fail(s, EnumFailure::ContextAllocation)
            },
            EnumPhase::Addressing => if ok {
                (
                    XhciEnumeration { phase: EnumPhase::ReadingIds, ..s },
                    EnumAction::ReadDeviceDescriptor,
                )
            } else {
                Self::fail(s, EnumFailure::AddressDevice)
            },
            EnumPhase::ReadingIds => if ok {
                (
                    XhciEnumeration { phase: EnumPhase::ReadingConfiguration, ..s },
                    EnumAction::ReadConfiguration,
                )
            } else {
                Self::fail(s, EnumFailure::DeviceDescriptor)
            },
            EnumPhase::ReadingConfiguration => match outcome {
                EnumOutcome::Configuration(Some(c)) => (
                    XhciEnumeration { phase: EnumPhase::Configuring, config: Some(c), ..s },
                    EnumAction::SetConfiguration(c.config_value),
                ),
                _ => Self::fail(s, EnumFailure::ConfigurationDescriptor),
            },
            EnumPhase::Configuring => match s.config {
                Some(c) => if !ok {
                    Self::fail(s, EnumFailure::SetConfiguration)
                } else if c.interrupt_in is Some {
                    (
                        XhciEnumeration { phase: EnumPhase::SettingIdle, ..s },
                        EnumAction::HidSetIdle(c.interface_number),
                    )
                } else {
                    Self::report_or_done(s, c)
                },
                None => Self::fail(s, EnumFailure::SetConfiguration),
            },
            EnumPhase::SettingIdle => match s.config {
                Some(c) => (
                    XhciEnumeration { phase: EnumPhase::SettingProtocol, ..s },
                    EnumAction::HidSetProtocol(c.interface_number, HID_REPORT_PROTOCOL),
                ),
                None => (XhciEnumeration { phase: EnumPhase::Finished, ..s }, EnumAction::Done),
            },
            EnumPhase::SettingProtocol => match s.config {
                Some(c) => match c.interrupt_in {
                    Some(ep) => (
                        XhciEnumeration { phase: EnumPhase::ConfiguringEndpoint, ..s },
                        EnumAction::ConfigureEndpoint(ep),
                    ),
                    None => Self::report_or_done(s, c),
                },
                None => (XhciEnumeration { phase: EnumPhase::Finished, ..s }, EnumAction::Done),
            },
            EnumPhase::ConfiguringEndpoint => match s.config {
                Some(c) => match c.interrupt_in {
                    Some(ep) => if ok {
                        (
                            XhciEnumeration { phase: EnumPhase::Polling, ..s },
                            EnumAction::PollReports(ep),
                        )
                    } else {
                        Self::report_or_done(s, c)
                    },
                    None => Self::report_or_done(s, c),
                },
                None => (XhciEnumeration { phase: EnumPhase::Finished, ..s }, EnumAction::Done),
            },
            EnumPhase::Polling => match s.config {
                Some(c) => match c.interrupt_in {
                    Some(ep) => (s, EnumAction::PollReports(ep)),
                    None => (XhciEnumeration { phase: EnumPhase::Finished, ..s }, EnumAction::Done),
                },
                None => (XhciEnumeration { phase: EnumPhase::Finished, ..s }, EnumAction::Done),
            },
            EnumPhase::ReadingReport | EnumPhase::Finished => (
                XhciEnumeration { phase: EnumPhase::Finished, ..s },
                EnumAction::Done,
            ),
        }
    }

    fn probe_next_exec(self) -> (r: (Self, EnumAction))
        requires
            self.bounds(),
        ensures
            r == self.probe_next(),
            r.0.wf(),
    {
        let offset = portsc_offset(self.cap_length, self.port_index);
        if self.port_index < self.max_ports && offset + 4 <= self.window_len {
            (XhciEnumeration { phase: EnumPhase::Probing, ..self }, EnumAction::ProbePort(self.port_index, offset))
        } else if self.selected.is_some() {
            (XhciEnumeration { phase: EnumPhase::EnablingSlot, ..self }, EnumAction::EnableSlot)
        } else {
            (XhciEnumeration { phase: EnumPhase::Finished, ..self }, EnumAction::Fail(EnumFailure::NoEnabledPort))
        }
    }

    fn report_or_done_exec(self, c: UsbConfigurationInfo) -> (r: (Self, EnumAction))
        ensures
            r == self.report_or_done(c),
    {
        if c.report_descriptor_len != 0 {
            (
                XhciEnumeration { phase: EnumPhase::ReadingReport, ..self },
                EnumAction::ReadReportDescriptor(c.interface_number, c.report_descriptor_len),
            )
        } else {
            (XhciEnumeration { phase: EnumPhase::Finished, ..self }, EnumAction::Done)
        }
    }

    /// Takes what came of the last action and returns the next one.
    pub fn step(&mut self, outcome: EnumOutcome) -> (r: EnumAction)
        requires
            old(self).wf(),
        ensures
            final(self).wf(),
            (*final(self), r) == Self::transition(*old(self), outcome),
    {
        let s = *self;
        let ok = match outcome {
            EnumOutcome::Succeeded(b) => b,
            _ => false,
        };
        let fail = |why: EnumFailure| -> (r: (XhciEnumeration, EnumAction))
            ensures
                r == Self::fail(s, why),
            { (XhciEnumeration { phase: EnumPhase::Finished, ..s }, EnumAction::Fail(why)) };
        let finished = (XhciEnumeration { phase: EnumPhase::Finished, ..s }, EnumAction::Done);
        let (next, action) = match s.phase {
            EnumPhase::NotStarted => (
                XhciEnumeration { phase: EnumPhase::Resetting, ..s },
                EnumAction::ResetController,
            ),
            EnumPhase::Resetting => if ok {
                (XhciEnumeration { phase: EnumPhase::Allocating, ..s }, EnumAction::AllocateRings)
            } else {
                fail(EnumFailure::ControllerReset)
            },
            EnumPhase::Allocating => if ok {
                (
                    XhciEnumeration { phase: EnumPhase::Programming, ..s },
                    EnumAction::ProgramController,
                )
            } else {
                fail(EnumFailure::RingAllocation)
            },
            EnumPhase::Programming => (
                XhciEnumeration { phase: EnumPhase::Starting, ..s },
                EnumAction::StartController,
            ),
            EnumPhase::Starting => if ok {
                XhciEnumeration { port_index: 0, ..s }.probe_next_exec()
            } else {
                fail(EnumFailure::ControllerStart)
            },
            EnumPhase::Probing => {
                let portsc = match outcome {
                    EnumOutcome::PortStatus(v) => v,
                    _ => 0u32,
                };
                let selected = select_port(s.selected, s.port_index as u8, portsc);
                XhciEnumeration { selected, port_index: s.port_index + 1, ..s }.probe_next_exec()
            },
            EnumPhase::EnablingSlot => match outcome {
                EnumOutcome::Slot(Some(slot)) => (
                    XhciEnumeration { phase: EnumPhase::AllocatingContexts, slot, ..s },
                    EnumAction::AllocateContexts,
                ),
                _ => fail(EnumFailure::EnableSlot),
            },
            EnumPhase::AllocatingContexts => match s.selected {
                Some(port) => if ok {
                    (
                        XhciEnumeration { phase: EnumPhase::Addressing, ..s },
                        EnumAction::AddressDevice(s.slot, port),
                    )
                } else {
                    fail(EnumFailure::ContextAllocation)
                },
                None => fail(EnumFailure::ContextAllocation),
            },
            EnumPhase::Addressing => if ok {
                (
                    XhciEnumeration { phase: EnumPhase::ReadingIds, ..s },
                    EnumAction::ReadDeviceDescriptor,
                )
            } else {
                fail(EnumFailure::AddressDevice)
            },
            EnumPhase::ReadingIds => if ok {
                (
                    XhciEnumeration { phase: EnumPhase::ReadingConfiguration, ..s },
                    EnumAction::ReadConfiguration,
                )
            } else {
                fail(EnumFailure::DeviceDescriptor)
            },
            EnumPhase::ReadingConfiguration => match outcome {
                EnumOutcome::Configuration(Some(c)) => (
                    XhciEnumeration { phase: EnumPhase::Configuring, config: Some(c), ..s },
                    EnumAction::SetConfiguration(c.config_value),
                ),
                _ => fail(EnumFailure::ConfigurationDescriptor),
            },
            EnumPhase::Configuring => match s.config {
                Some(c) => if !ok {
                    fail(EnumFailure::SetConfiguration)
                } else if c.interrupt_in.is_some() {
                    (
                        XhciEnumeration { phase: EnumPhase::SettingIdle, ..s },
                        EnumAction::HidSetIdle(c.interface_number),
                    )
                } else {
                    s.report_or_done_exec(c)
                },
                None => fail(EnumFailure::SetConfiguration),
            },
            EnumPhase::SettingIdle => match s.config {
                Some(c) => (
                    XhciEnumeration { phase: EnumPhase::SettingProtocol, ..s },
                    EnumAction::HidSetProtocol(c.interface_number, HID_REPORT_PROTOCOL),
                ),
                None => finished,
            },
            EnumPhase::SettingProtocol => match s.config {
                Some(c) => match c.interrupt_in {
                    Some(ep) => (
                        XhciEnumeration { phase: EnumPhase::ConfiguringEndpoint, ..s },
                        EnumAction::ConfigureEndpoint(ep),
                    ),
                    None => s.report_or_done_exec(c),
                },
                None => finished,
            },
            EnumPhase::ConfiguringEndpoint => match s.config {
                Some(c) => match c.interrupt_in {
                    Some(ep) => if ok {
                        (XhciEnumeration { phase: EnumPhase::Polling, ..s }, EnumAction::PollReports(ep))
                    } else {
                        s.report_or_done_exec(c)
                    },
                    None => s.report_or_done_exec(c),
                },
                None => finished,
            },
            EnumPhase::Polling => match s.config {
                Some(c) => match c.interrupt_in {
                    Some(ep) => (s, EnumAction::PollReports(ep)),
                    None => finished,
                },
                None => finished,
            },
            EnumPhase::ReadingReport | EnumPhase::Finished => finished,
        };
        *self = next;
        action
    }
}

/// The port choice that `select_port` makes.
pub open spec fn select_port_spec(current: Option<RootPort>, index: u8, portsc: u32) -> Option<RootPort> {
    if current is Some {
        current
    } else if portsc & 0x1 != 0 && portsc & 0x2 != 0 {
        Some(RootPort { number: (index + 1) as u8, speed_id: (portsc >> 10u32) & 0xf })
    } else {
        None
    }
}

/// The device is configured only after its configuration descriptor was
/// read and SET_CONFIGURATION succeeded: the HID requests start from the
/// configuring phase, on success, for a configuration with an interrupt IN
/// endpoint.
pub proof fn lemma_hid_setup_follows_configuration(s: XhciEnumeration, outcome: EnumOutcome)
    requires
        s.wf(),
        XhciEnumeration::transition(s, outcome).1 is HidSetIdle,
    ensures
        s.phase == EnumPhase::Configuring,
        outcome == EnumOutcome::Succeeded(true),
        s.config matches Some(c) && c.interrupt_in is Some,
{
}

/// The port probe visits the ports in order and stops at the last port or
/// at the end of the register window; the slot is asked for only once a
/// port was chosen.
pub proof fn lemma_probe_order(s: XhciEnumeration, outcome: EnumOutcome)
    requires
        s.wf(),
    ensures
        XhciEnumeration::transition(s, outcome).1 matches EnumAction::ProbePort(i, _) ==> (
        s.phase == EnumPhase::Starting && i == 0) || (s.phase == EnumPhase::Probing && i
            == s.port_index + 1),
        XhciEnumeration::transition(s, outcome).1 == EnumAction::EnableSlot ==> XhciEnumeration::transition(
            s,
            outcome,
        ).0.selected is Some,
{
}

/// While the ports are probed, a port once chosen stays chosen: a later
/// connected and enabled port never replaces it, so the device addressed is
/// on the first such port.
pub proof fn lemma_chosen_port_is_kept(s: XhciEnumeration, outcome: EnumOutcome)
    requires
        s.wf(),
        s.phase == EnumPhase::Probing,
        s.selected is Some,
    ensures
        XhciEnumeration::transition(s, outcome).0.selected == s.selected,
{
}

/// While no port is chosen, the probed port is chosen exactly when its
/// status reports a device connected (bit 0) on an enabled port (bit 1);
/// it is then numbered from one and carries the speed of bits 10 to 13.
pub proof fn lemma_first_enabled_port_is_chosen(s: XhciEnumeration, portsc: u32)
    requires
        s.wf(),
        s.phase == EnumPhase::Probing,
        s.selected is None,
    ensures
        XhciEnumeration::transition(s, EnumOutcome::PortStatus(portsc)).0.selected is Some
            <==> (portsc & 1 != 0 && portsc & 2 != 0),
        XhciEnumeration::transition(s, EnumOutcome::PortStatus(portsc)).0.selected matches Some(
            p,
        ) ==> p.number == s.port_index + 1 && p.speed_id == (portsc >> 10u32) & 0xf,
{
}

/// The device is addressed on the port chosen during the probe, in the slot
/// that Enable Slot obtained.
pub proof fn lemma_device_addressed_on_chosen_port(s: XhciEnumeration, outcome: EnumOutcome)
    requires
        s.wf(),
        XhciEnumeration::transition(s, outcome).1 matches EnumAction::AddressDevice(slot, port),
    ensures
        s.phase == EnumPhase::AllocatingContexts,
        s.selected matches Some(p) && XhciEnumeration::transition(s, outcome).1
            == EnumAction::AddressDevice(s.slot, p),
{
}

/// A failure ends the enumeration: after it, every step answers `Done` and
/// leaves the state as it is, whatever comes.
pub proof fn lemma_failure_is_final(s: XhciEnumeration, outcome: EnumOutcome, later: EnumOutcome)
    requires
        s.wf(),
        XhciEnumeration::transition(s, outcome).1 is Fail,
    ensures
        XhciEnumeration::transition(s, outcome).0.phase == EnumPhase::Finished,
        XhciEnumeration::transition(XhciEnumeration::transition(s, outcome).0, later).1
            == EnumAction::Done,
        XhciEnumeration::transition(XhciEnumeration::transition(s, outcome).0, later).0
            == XhciEnumeration::transition(s, outcome).0,
{
}

/// Each step of the device set-up starts only on the success of the one
/// before: the rings after the reset, the controller start after the
/// programming, the address after the contexts, the descriptors after the
/// address, the configuration after the configuration descriptor.
pub proof fn lemma_steps_follow_success(s: XhciEnumeration, outcome: EnumOutcome)
    requires
        s.wf(),
    ensures
        XhciEnumeration::transition(s, outcome).1 == EnumAction::AllocateRings ==> s.phase
            == EnumPhase::Resetting && outcome == EnumOutcome::Succeeded(true),
        XhciEnumeration::transition(s, outcome).1 == EnumAction::ProgramController ==> s.phase
            == EnumPhase::Allocating && outcome == EnumOutcome::Succeeded(true),
        XhciEnumeration::transition(s, outcome).1 == EnumAction::AllocateContexts ==> s.phase
            == EnumPhase::EnablingSlot && outcome matches EnumOutcome::Slot(Some(_)),
        XhciEnumeration::transition(s, outcome).1 == EnumAction::ReadDeviceDescriptor ==> s.phase
            == EnumPhase::Addressing && outcome == EnumOutcome::Succeeded(true),
        XhciEnumeration::transition(s, outcome).1 == EnumAction::ReadConfiguration ==> s.phase
            == EnumPhase::ReadingIds && outcome == EnumOutcome::Succeeded(true),
        XhciEnumeration::transition(s, outcome).1 matches EnumAction::SetConfiguration(v) ==> (
        outcome matches EnumOutcome::Configuration(Some(c)) && v == c.config_value),
        XhciEnumeration::transition(s, outcome).1 matches EnumAction::PollReports(ep) ==> (
        s.config matches Some(c) && c.interrupt_in == Some(ep)),
{
}

} // verus!

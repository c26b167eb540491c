use mochi_drivers::usb_descriptor::UsbConfigurationInfo;
use mochi_drivers::xhci::{event_is_ready, report_attempt, EventTrb, ReportStep, REPORT_ATTEMPTS};
use mochi_drivers::xhci_enumeration::{EnumAction, EnumFailure, EnumOutcome, XhciEnumeration};
use mochi_drivers::xhci_setup::{InterruptEndpoint, RootPort};

fn hid_config(report_len: u16, interrupt: bool) -> UsbConfigurationInfo {
    UsbConfigurationInfo {
        config_value: 1,
        interface_number: 0,
        interface_class: 3,
        interface_subclass: 1,
        interface_protocol: 2,
        report_descriptor_len: report_len,
        interrupt_in: if interrupt {
            Some(InterruptEndpoint { address: 0x81, max_packet: 4, interval: 10 })
        } else {
            None
        },
    }
}

#[test]
fn enumeration_runs_to_report_polling() {
    let ep = InterruptEndpoint { address: 0x81, max_packet: 4, interval: 10 };
    let mut m = XhciEnumeration::new(0x20, 2, 0x1_0000);
    let port = RootPort { number: 2, speed_id: 3 };
    let steps = [
        (EnumOutcome::Begin, EnumAction::ResetController),
        (EnumOutcome::Succeeded(true), EnumAction::AllocateRings),
        (EnumOutcome::Succeeded(true), EnumAction::ProgramController),
        (EnumOutcome::Succeeded(true), EnumAction::StartController),
        (EnumOutcome::Succeeded(true), EnumAction::ProbePort(0, 0x420)),
        (EnumOutcome::PortStatus(0x200), EnumAction::ProbePort(1, 0x430)),
        (EnumOutcome::PortStatus(0xe03), EnumAction::EnableSlot),
        (EnumOutcome::Slot(Some(5)), EnumAction::AllocateContexts),
        (EnumOutcome::Succeeded(true), EnumAction::AddressDevice(5, port)),
        (EnumOutcome::Succeeded(true), EnumAction::ReadDeviceDescriptor),
        (EnumOutcome::Succeeded(true), EnumAction::ReadConfiguration),
        (EnumOutcome::Configuration(Some(hid_config(52, true))), EnumAction::SetConfiguration(1)),
        (EnumOutcome::Succeeded(true), EnumAction::HidSetIdle(0)),
        (EnumOutcome::Succeeded(false), EnumAction::HidSetProtocol(0, 1)),
        (EnumOutcome::Succeeded(false), EnumAction::ConfigureEndpoint(ep)),
        (EnumOutcome::Succeeded(true), EnumAction::PollReports(ep)),
    ];
    for (outcome, expected) in steps {
        assert_eq!(m.step(outcome), expected);
    }
}

#[test]
fn enumeration_reads_the_report_descriptor_without_endpoint() {
    let mut m = XhciEnumeration::new(0x20, 1, 0x1_0000);
    m.step(EnumOutcome::Begin);
    m.step(EnumOutcome::Succeeded(true));
    m.step(EnumOutcome::Succeeded(true));
    m.step(EnumOutcome::Succeeded(true));
    assert_eq!(m.step(EnumOutcome::Succeeded(true)), EnumAction::ProbePort(0, 0x420));
    assert_eq!(m.step(EnumOutcome::PortStatus(0x603)), EnumAction::EnableSlot);
    m.step(EnumOutcome::Slot(Some(1)));
    m.step(EnumOutcome::Succeeded(true));
    m.step(EnumOutcome::Succeeded(true));
    m.step(EnumOutcome::Succeeded(true));
    m.step(EnumOutcome::Configuration(Some(hid_config(52, false))));
    assert_eq!(m.step(EnumOutcome::Succeeded(true)), EnumAction::ReadReportDescriptor(0, 52));
    assert_eq!(m.step(EnumOutcome::Succeeded(true)), EnumAction::Done);
    assert_eq!(m.step(EnumOutcome::Succeeded(true)), EnumAction::Done);
}

#[test]
fn enumeration_stops_at_the_first_failure() {
    let mut m = XhciEnumeration::new(0x20, 1, 0x1_0000);
    m.step(EnumOutcome::Begin);
    assert_eq!(
        m.step(EnumOutcome::Succeeded(false)),
        EnumAction::Fail(EnumFailure::ControllerReset)
    );
    assert_eq!(m.step(EnumOutcome::Succeeded(true)), EnumAction::Done);

    let mut m = XhciEnumeration::new(0x20, 4, 0x430);
    for _ in 0..4 {
        m.step(EnumOutcome::Succeeded(true));
    }
    assert_eq!(m.step(EnumOutcome::Succeeded(true)), EnumAction::ProbePort(0, 0x420));
    assert_eq!(
        m.step(EnumOutcome::PortStatus(0x1)),
        EnumAction::Fail(EnumFailure::NoEnabledPort)
    );

    let mut m = XhciEnumeration::new(0x20, 1, 0x1_0000);
    for _ in 0..5 {
        m.step(EnumOutcome::Succeeded(true));
    }
    m.step(EnumOutcome::PortStatus(0x3));
    assert_eq!(m.step(EnumOutcome::Slot(None)), EnumAction::Fail(EnumFailure::EnableSlot));
}

#[test]
fn interrupt_reports_are_tried_a_bounded_number_of_times() {
    assert_eq!(report_attempt(0, Some(1)), ReportStep::Report);
    assert_eq!(report_attempt(0, None), ReportStep::Retry(1));
    assert_eq!(report_attempt(3, Some(6)), ReportStep::Retry(4));
    assert_eq!(report_attempt(REPORT_ATTEMPTS - 1, None), ReportStep::GiveUp);
    let mut attempt = 0;
    let mut tries = 0;
    loop {
        tries += 1;
        match report_attempt(attempt, None) {
            ReportStep::Retry(n) => attempt = n,
            _ => break,
        }
    }
    assert_eq!(tries, 16);
}

#[test]
fn ready_events_have_their_cycle_bit() {
    assert!(event_is_ready(EventTrb { status: 0, control: 0x8401 }));
    assert!(!event_is_ready(EventTrb { status: 0, control: 0x8400 }));
}

use mochi_drivers::i8042::{
    controller_config, from_aux_port, input_clear, is_command_ack, keyboard_byte_pending,
    keyboard_message, mouse_byte_pending, mouse_message, output_full, serial_data_ready,
    wait_step, I8042Init, InitAction, InitOutcome, InputLink, InputRouter, Route, WaitCondition, WaitStep,
};
use mochi_drivers::mouse::{
    decode_packet, sign_extend, ButtonChange, Motion, MouseReport, MouseTracker,
    PacketAssembler,
};

#[test]
fn status_bits_are_decoded() {
    assert!(output_full(0x01));
    assert!(!output_full(0x02));
    assert!(input_clear(0x01));
    assert!(!input_clear(0x02));
    assert!(from_aux_port(0x21));
    assert!(keyboard_byte_pending(0x01));
    assert!(!keyboard_byte_pending(0x21));
    assert!(mouse_byte_pending(0x21));
    assert!(!mouse_byte_pending(0x20));
    assert!(serial_data_ready(0x61));
    assert!(!serial_data_ready(0x60));
}

#[test]
fn waits_poll_exactly_their_budget() {
    let mut budget = 3;
    let mut polls = 0;
    loop {
        polls += 1;
        match wait_step(budget, Some(0x02), WaitCondition::InputClear) {
            WaitStep::Retry(left) => budget = left,
            WaitStep::TimedOut => break,
            WaitStep::Ready => panic!("input never clears"),
        }
    }
    assert_eq!(polls, 3);
    assert_eq!(wait_step(5, Some(0x01), WaitCondition::OutputFull), WaitStep::Ready);
    assert_eq!(wait_step(5, None, WaitCondition::OutputFull), WaitStep::Retry(4));
    assert_eq!(wait_step(1, Some(0x00), WaitCondition::OutputFull), WaitStep::TimedOut);
}

#[test]
fn only_ack_confirms_a_command() {
    assert!(is_command_ack(Some(0xfa)));
    assert!(!is_command_ack(Some(0xfe)));
    assert!(!is_command_ack(None));
}

#[test]
fn configuration_disables_interrupts_and_keeps_translation() {
    assert_eq!(controller_config(0x00), 0x40);
    assert_eq!(controller_config(0xff), 0xcc);
    assert_eq!(controller_config(0x47), 0x44);
}

fn run_init(outcomes: &mut dyn FnMut(InitAction) -> InitOutcome) -> Vec<InitAction> {
    let mut init = I8042Init::new();
    let mut actions = Vec::new();
    let mut outcome = InitOutcome::Written(true);
    loop {
        let action = init.step(outcome);
        if action == InitAction::Done {
            break;
        }
        actions.push(action);
        outcome = outcomes(action);
        assert!(actions.len() <= 13);
    }
    actions
}

#[test]
fn init_writes_back_the_adjusted_configuration() {
    let actions = run_init(&mut |a| match a {
        InitAction::ReadData => InitOutcome::Read(Some(0x47)),
        _ => InitOutcome::Written(true),
    });
    assert_eq!(
        actions,
        vec![
            InitAction::FlushOutput,
            InitAction::WriteCommand(0xad),
            InitAction::WriteCommand(0xa7),
            InitAction::FlushOutput,
            InitAction::WriteCommand(0xae),
            InitAction::WriteCommand(0xa8),
            InitAction::WriteCommand(0x20),
            InitAction::ReadData,
            InitAction::WriteCommand(0x60),
            InitAction::WriteData(0x44),
            InitAction::KeyboardCommand(0xf4),
            InitAction::MouseCommand(0xf6),
            InitAction::MouseCommand(0xf4),
        ]
    );
}

#[test]
fn init_skips_the_configuration_when_it_cannot_be_read() {
    let actions = run_init(&mut |a| match a {
        InitAction::ReadData => InitOutcome::Read(None),
        _ => InitOutcome::Written(true),
    });
    assert_eq!(actions.len(), 11);
    assert_eq!(actions[7], InitAction::ReadData);
    assert_eq!(actions[8], InitAction::KeyboardCommand(0xf4));
    let actions = run_init(&mut |a| match a {
        InitAction::WriteCommand(0x20) => InitOutcome::Written(false),
        _ => InitOutcome::Written(true),
    });
    assert_eq!(actions.len(), 10);
    assert_eq!(actions[7], InitAction::KeyboardCommand(0xf4));
}

#[test]
fn assembler_drops_bytes_out_of_sync() {
    let mut a = PacketAssembler::new();
    assert_eq!(a.push(0x00), None);
    assert_eq!(a.push(0x09), None);
    assert_eq!(a.push(0x05), None);
    assert_eq!(a.push(0xfb), Some([0x09, 0x05, 0xfb]));
    assert_eq!(a.push(0x10), None);
}

#[test]
fn router_separates_keyboard_and_mouse() {
    let mut r = InputRouter::new();
    assert_eq!(r.route(0x01, 0x1e), Route::Keyboard(0x1e));
    assert_eq!(r.route(0x21, 0x08), Route::Pending);
    assert_eq!(r.route(0x01, 0x9e), Route::Keyboard(0x9e));
    assert_eq!(r.route(0x21, 0x01), Route::Pending);
    assert_eq!(r.route(0x21, 0x02), Route::Mouse([0x08, 0x01, 0x02]));
}

#[test]
fn input_messages_carry_their_payload() {
    assert_eq!(keyboard_message(1, 0x1e), [1, 0, 0, 0, 0x1e, 0, 0, 0]);
    assert_eq!(mouse_message(2, [8, 1, 2]), [2, 0, 0, 0, 8, 1, 2, 0]);
}

#[test]
fn motion_is_nine_bit_twos_complement() {
    assert_eq!(sign_extend(0x05, false), 5);
    assert_eq!(sign_extend(0xff, true), -1);
    assert_eq!(sign_extend(0x00, true), -256);
    assert_eq!(sign_extend(0xff, false), 255);
}

#[test]
fn packets_decode_with_screen_orientation() {
    assert_eq!(
        decode_packet([0x09, 0x05, 0x03]),
        Some(MouseReport { buttons: 1, dx: 5, dy: -3 })
    );
    assert_eq!(
        decode_packet([0x38, 0xff, 0xfe]),
        Some(MouseReport { buttons: 0, dx: -1, dy: 2 })
    );
    assert_eq!(decode_packet([0x48, 0x00, 0x00]), None);
    assert_eq!(decode_packet([0x88, 0x00, 0x00]), None);
}

#[test]
fn tracker_reports_motion_and_button_changes() {
    let mut t = MouseTracker::new();
    assert_eq!(t.feed(0x09).moved, None);
    assert_eq!(t.feed(0x02).moved, None);
    let u = t.feed(0x00);
    assert_eq!(u.moved, Some(Motion { dx: 2, dy: 0 }));
    assert_eq!(u.buttons, Some(ButtonChange { from: 0, to: 1 }));
    t.feed(0x09);
    t.feed(0x00);
    let u = t.feed(0x00);
    assert_eq!(u.moved, None);
    assert_eq!(u.buttons, None);
    t.feed(0x08);
    t.feed(0x00);
    let u = t.feed(0x00);
    assert_eq!(u.buttons, Some(ButtonChange { from: 1, to: 0 }));
}

#[test]
fn a_failed_call_drops_the_input_link() {
    let mut link = InputLink::new(7);
    assert_eq!(link.target(), Some(7));
    link.record_call(true);
    assert_eq!(link.target(), Some(7));
    link.record_call(false);
    assert_eq!(link.target(), None);
    assert_eq!(InputLink::new(0).target(), None);
}

#[test]
fn a_dropped_byte_does_not_reset_the_pending_packet() {
    let mut t = MouseTracker::new();
    t.feed(0x08);
    t.feed(0x03);
    let u = t.feed(0x00);
    assert_eq!(u.moved, Some(Motion { dx: 3, dy: 0 }));
}

//! Tests for report decoding, edge detection, and the transport protocol
//! helpers.

use steamy::input::{Button, Event};
use steamy::protocol::{
    control_frame, is_remote, is_wired, off_payload, read_state, reset_payload, wake_commands,
    ControlCommand,
};
use steamy::state::{decode, diff, State};
use steamy::{ConfigError, Error, ProtocolError};

fn base_report() -> Vec<u8> {
    let mut v = vec![0u8; 64];
    v[2] = 1;
    v
}

fn zero_state() -> State {
    State {
        sequence: 0,
        buttons: 0,
        trigger_left: 0,
        trigger_right: 0,
        pad_left_x: 0,
        pad_left_y: 0,
        pad_right_x: 0,
        pad_right_y: 0,
        power: false,
        battery: false,
    }
}

#[test]
fn decode_is_deterministic() {
    let mut v = base_report();
    v[8] = 0x2a;
    v[12] = 7;
    v[16] = 0x01;
    let first = decode(&v).unwrap();
    let second = decode(&v).unwrap();
    assert_eq!(first, second);
}

#[test]
fn decode_button_bit_zero() {
    // Scenario: only bit 0 of the button mask is set.
    let mut v = base_report();
    v[8] = 0x01;
    let state = decode(&v).unwrap();
    let mut expected = zero_state();
    expected.buttons = 0x01;
    assert_eq!(state, expected);
}

#[test]
fn diff_after_bit_zero_press_is_one_a_press() {
    let mut v = base_report();
    v[8] = 0x01;
    let state = decode(&v).unwrap();
    let events = diff(&zero_state(), &state);
    assert_eq!(events, vec![Event::Button(Button::A, true)]);
}

#[test]
fn decode_signed_pad_fields() {
    let mut v = base_report();
    v[16] = 0x00;
    v[17] = 0x80; // pad_left_x = -32768
    v[18] = 0xff;
    v[19] = 0x7f; // pad_left_y = 32767
    v[20] = 0xfe;
    v[21] = 0xff; // pad_right_x = -2
    let state = decode(&v).unwrap();
    assert_eq!(state.pad_left_x, -32768);
    assert_eq!(state.pad_left_y, 32767);
    assert_eq!(state.pad_right_x, -2);
    assert_eq!(state.pad_right_y, 0);
}

#[test]
fn decode_sequence_little_endian() {
    let mut v = base_report();
    v[4] = 0x78;
    v[5] = 0x56;
    v[6] = 0x34;
    v[7] = 0x12;
    let state = decode(&v).unwrap();
    assert_eq!(state.sequence, 0x1234_5678);
}

#[test]
fn decode_triggers_and_flags() {
    let mut v = base_report();
    v[12] = 200;
    v[13] = 17;
    v[24] = 1;
    v[25] = 1;
    let state = decode(&v).unwrap();
    assert_eq!(state.trigger_left, 200);
    assert_eq!(state.trigger_right, 17);
    assert!(state.power);
    assert!(state.battery);
}

#[test]
fn decode_rejects_short_report() {
    let v = vec![0u8; 63];
    assert_eq!(decode(&v), Err(Error::Protocol(ProtocolError::BadLength)));
}

#[test]
fn decode_rejects_long_report() {
    let v = vec![0u8; 65];
    assert_eq!(decode(&v), Err(Error::Protocol(ProtocolError::BadLength)));
}

#[test]
fn decode_rejects_bad_discriminant() {
    let mut v = base_report();
    v[2] = 9;
    assert_eq!(decode(&v), Err(Error::Protocol(ProtocolError::BadDiscriminant)));
}

#[test]
fn decode_rejects_bad_flag() {
    let mut v = base_report();
    v[24] = 2;
    assert_eq!(decode(&v), Err(Error::Protocol(ProtocolError::BadFlag)));
    let mut w = base_report();
    w[25] = 3;
    assert_eq!(decode(&w), Err(Error::Protocol(ProtocolError::BadFlag)));
}

#[test]
fn diff_identical_states_is_empty() {
    let mut v = base_report();
    v[8] = 0xff;
    v[13] = 4;
    let state = decode(&v).unwrap();
    assert_eq!(diff(&state, &state), Vec::<Event>::new());
}

#[test]
fn diff_emits_exactly_one_event_per_single_change() {
    // A chain of states, each changing exactly one field: every transition
    // yields exactly one event.
    let s0 = zero_state();
    let mut s1 = s0;
    s1.buttons = 0x08; // Y pressed
    assert_eq!(diff(&s0, &s1), vec![Event::Button(Button::Y, true)]);

    let mut s2 = s1;
    s2.trigger_left = 5;
    assert_eq!(diff(&s1, &s2), vec![Event::TriggerLeft(5)]);

    let mut s3 = s2;
    s3.pad_right_x = -100;
    assert_eq!(diff(&s2, &s3), vec![Event::PadRight(-100, 0)]);

    let mut s4 = s3;
    s4.power = true;
    assert_eq!(diff(&s3, &s4), vec![Event::Power(true)]);

    let mut s5 = s4;
    s5.buttons = 0; // Y released
    assert_eq!(diff(&s4, &s5), vec![Event::Button(Button::Y, false)]);
}

#[test]
fn diff_rapid_flicker_is_never_coalesced() {
    let s0 = zero_state();
    let mut pressed = s0;
    pressed.buttons = 0x200; // Track
    assert_eq!(diff(&s0, &pressed), vec![Event::Button(Button::Track, true)]);
    assert_eq!(diff(&pressed, &s0), vec![Event::Button(Button::Track, false)]);
    assert_eq!(diff(&s0, &pressed), vec![Event::Button(Button::Track, true)]);
}

#[test]
fn diff_orders_buttons_by_mask_then_fields() {
    let s0 = zero_state();
    let mut s1 = s0;
    s1.buttons = 0x03; // A and B together
    s1.trigger_right = 1;
    assert_eq!(
        diff(&s0, &s1),
        vec![
            Event::Button(Button::A, true),
            Event::Button(Button::B, true),
            Event::TriggerRight(1),
        ]
    );
}

#[test]
fn power_on_report_owes_reset_sequence() {
    // Scenario: a report with power=true makes the engine owe the sensor-off
    // command and the reset command before the caller sees the state.
    let mut v = base_report();
    v[24] = 1;
    let (state, events, commands) = read_state(&zero_state(), &v).unwrap();
    assert!(state.power);
    assert_eq!(events, vec![Event::Power(true)]);
    assert_eq!(commands, vec![ControlCommand::SensorsOff, ControlCommand::Reset]);
}

#[test]
fn plain_report_owes_no_command() {
    let v = base_report();
    let (state, events, commands) = read_state(&zero_state(), &v).unwrap();
    assert!(!state.power);
    assert_eq!(events, Vec::<Event>::new());
    assert_eq!(commands, Vec::<ControlCommand>::new());
}

#[test]
fn read_state_surfaces_decode_errors() {
    let v = vec![0u8; 10];
    assert_eq!(
        read_state(&zero_state(), &v).unwrap_err(),
        Error::Protocol(ProtocolError::BadLength)
    );
}

#[test]
fn wake_commands_only_on_power() {
    let mut s = zero_state();
    assert_eq!(wake_commands(&s), Vec::<ControlCommand>::new());
    s.power = true;
    assert_eq!(wake_commands(&s), vec![ControlCommand::SensorsOff, ControlCommand::Reset]);
}

#[test]
fn reset_frame_bytes() {
    let frame = control_frame(&reset_payload(), false);
    assert_eq!(frame.len(), 64);
    assert_eq!(frame[0], 0x81);
    assert!(frame[1..].iter().all(|&b| b == 0));
}

#[test]
fn framed_control_frame_has_report_id_byte() {
    let frame = control_frame(&reset_payload(), true);
    assert_eq!(frame.len(), 65);
    assert_eq!(frame[0], 0x00);
    assert_eq!(frame[1], 0x81);
    assert!(frame[2..].iter().all(|&b| b == 0));
}

#[test]
fn off_frame_bytes() {
    let payload = off_payload();
    assert_eq!(payload, vec![0x9f, 0x04, 0x6f, 0x66, 0x66, 0x21]);
    let frame = control_frame(&payload, false);
    assert_eq!(&frame[..6], &[0x9f, 0x04, 0x6f, 0x66, 0x66, 0x21]);
    assert!(frame[6..].iter().all(|&b| b == 0));
}

#[test]
fn product_identity() {
    assert!(is_remote(0x1142));
    assert!(!is_remote(0x1102));
    assert!(is_wired(0x1102));
    assert!(!is_wired(0x1142));
}

#[test]
fn config_error_is_distinct_from_protocol_error() {
    let e = Error::Config(ConfigError::BindingModeMismatch);
    assert_ne!(e, Error::Protocol(ProtocolError::BadLength));
    assert_ne!(e, Error::NotSupported);
}

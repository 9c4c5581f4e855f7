use gamepad_core::{
    parse, parse_message, AnalogStick, Buttons, GamepadFieldUpdate, GamepadState, ParsedMessage,
    SerializeError,
};

#[test]
fn test_serialize_neutral_state() {
    let state = GamepadState::neutral();
    let mut buf = [0u8; 64];
    let len = state.serialize(&mut buf).unwrap();

    assert_eq!(buf[0], b'G');
    assert_eq!(buf[len - 1], b'\n');

    let parsed = parse(&buf[..len]).unwrap();
    assert_eq!(parsed, state);
}

#[test]
fn test_serialize_with_buttons() {
    let state = GamepadState {
        buttons: Buttons(Buttons::A | Buttons::B | Buttons::X),
        ..GamepadState::neutral()
    };
    let mut buf = [0u8; 64];
    let len = state.serialize(&mut buf).unwrap();

    let parsed = parse(&buf[..len]).unwrap();
    assert_eq!(parsed, state);
    assert!(parsed.buttons.is_pressed(Buttons(Buttons::A)));
    assert!(parsed.buttons.is_pressed(Buttons(Buttons::B)));
    assert!(parsed.buttons.is_pressed(Buttons(Buttons::X)));
}

#[test]
fn test_serialize_with_sticks() {
    let state = GamepadState {
        left_stick: AnalogStick::new(1000, -2000),
        right_stick: AnalogStick::new(-3000, 4000),
        ..GamepadState::neutral()
    };
    let mut buf = [0u8; 64];
    let len = state.serialize(&mut buf).unwrap();

    let parsed = parse(&buf[..len]).unwrap();
    assert_eq!(parsed, state);
}

#[test]
fn test_serialize_with_triggers() {
    let state = GamepadState {
        left_trigger: 128,
        right_trigger: 255,
        ..GamepadState::neutral()
    };
    let mut buf = [0u8; 64];
    let len = state.serialize(&mut buf).unwrap();

    let parsed = parse(&buf[..len]).unwrap();
    assert_eq!(parsed, state);
}

#[test]
fn test_serialize_extreme_values() {
    let state = GamepadState {
        buttons: Buttons(0xFFFF),
        left_stick: AnalogStick::new(i16::MAX, i16::MIN),
        right_stick: AnalogStick::new(i16::MIN, i16::MAX),
        left_trigger: 255,
        right_trigger: 255,
    };
    let mut buf = [0u8; 64];
    let len = state.serialize(&mut buf).unwrap();

    let parsed = parse(&buf[..len]).unwrap();
    assert_eq!(parsed, state);
}

#[test]
fn test_serialize_buffer_too_small() {
    let state = GamepadState::neutral();
    let mut buf = [0u8; 10];
    let result = state.serialize(&mut buf);
    assert_eq!(result, Err(SerializeError::BufferTooSmall));
}

#[test]
fn test_serialize_update_buttons() {
    let update = GamepadFieldUpdate::Buttons(Buttons(Buttons::A | Buttons::B));
    let mut buf = [0u8; 32];
    let len = update.serialize(&mut buf).unwrap();

    assert_eq!(buf[0], b'U');
    assert_eq!(buf[len - 1], b'\n');

    let parsed = parse_message(&buf[..len]).unwrap();
    assert_eq!(parsed, ParsedMessage::Update(update));
}

#[test]
fn test_serialize_update_left_stick_x() {
    let update = GamepadFieldUpdate::LeftStickX(-500);
    let mut buf = [0u8; 32];
    let len = update.serialize(&mut buf).unwrap();

    let parsed = parse_message(&buf[..len]).unwrap();
    assert_eq!(parsed, ParsedMessage::Update(update));
}

#[test]
fn test_serialize_update_left_stick_y() {
    let update = GamepadFieldUpdate::LeftStickY(1000);
    let mut buf = [0u8; 32];
    let len = update.serialize(&mut buf).unwrap();

    let parsed = parse_message(&buf[..len]).unwrap();
    assert_eq!(parsed, ParsedMessage::Update(update));
}

#[test]
fn test_serialize_update_right_stick_x() {
    let update = GamepadFieldUpdate::RightStickX(-32768);
    let mut buf = [0u8; 32];
    let len = update.serialize(&mut buf).unwrap();

    let parsed = parse_message(&buf[..len]).unwrap();
    assert_eq!(parsed, ParsedMessage::Update(update));
}

#[test]
fn test_serialize_update_right_stick_y() {
    let update = GamepadFieldUpdate::RightStickY(32767);
    let mut buf = [0u8; 32];
    let len = update.serialize(&mut buf).unwrap();

    let parsed = parse_message(&buf[..len]).unwrap();
    assert_eq!(parsed, ParsedMessage::Update(update));
}

#[test]
fn test_serialize_update_left_trigger() {
    let update = GamepadFieldUpdate::LeftTrigger(128);
    let mut buf = [0u8; 32];
    let len = update.serialize(&mut buf).unwrap();

    let parsed = parse_message(&buf[..len]).unwrap();
    assert_eq!(parsed, ParsedMessage::Update(update));
}

#[test]
fn test_serialize_update_right_trigger() {
    let update = GamepadFieldUpdate::RightTrigger(255);
    let mut buf = [0u8; 32];
    let len = update.serialize(&mut buf).unwrap();

    let parsed = parse_message(&buf[..len]).unwrap();
    assert_eq!(parsed, ParsedMessage::Update(update));
}

#[test]
fn test_serialize_update_buffer_too_small() {
    let update = GamepadFieldUpdate::LeftStickX(0);
    let mut buf = [0u8; 5];
    let result = update.serialize(&mut buf);
    assert_eq!(result, Err(SerializeError::BufferTooSmall));
}

#[test]
fn test_serialize_fmt_state() {
    let state = GamepadState::neutral();
    let mut s = String::new();
    state.serialize_fmt(&mut s).unwrap();

    assert!(s.starts_with("G0000:0:0:0:0:0:0*"));
    assert!(s.ends_with('\n'));
}

#[test]
fn test_serialize_fmt_update() {
    let update = GamepadFieldUpdate::LeftTrigger(64);
    let mut s = String::new();
    update.serialize_fmt(&mut s).unwrap();

    assert!(s.starts_with("ULT:64*"));
    assert!(s.ends_with('\n'));
}

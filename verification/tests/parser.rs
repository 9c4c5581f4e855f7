use gamepad_core::{
    calculate_checksum, parse, parse_message, Buttons, GamepadFieldUpdate, GamepadState,
    InputError, ParsedMessage,
};

#[test]
fn test_parse_neutral() {
    let payload = b"0000:0:0:0:0:0:0";
    let checksum = calculate_checksum(payload);
    let line = format!("G0000:0:0:0:0:0:0*{:02X}\n", checksum);
    let state = parse(line.as_bytes()).unwrap();
    assert_eq!(state, GamepadState::neutral());
}

#[test]
fn test_parse_button_a() {
    let payload = b"0001:0:0:0:0:0:0";
    let checksum = calculate_checksum(payload);
    let line = format!("G0001:0:0:0:0:0:0*{:02X}\n", checksum);
    let state = parse(line.as_bytes()).unwrap();
    assert!(state.buttons.is_pressed(Buttons(Buttons::A)));
}

#[test]
fn test_parse_sticks() {
    let payload = b"0000:1000:-2000:3000:-4000:128:64";
    let checksum = calculate_checksum(payload);
    let line = format!("G0000:1000:-2000:3000:-4000:128:64*{:02X}\n", checksum);
    let state = parse(line.as_bytes()).unwrap();
    assert_eq!(state.left_stick.x, 1000);
    assert_eq!(state.left_stick.y, -2000);
    assert_eq!(state.right_stick.x, 3000);
    assert_eq!(state.right_stick.y, -4000);
    assert_eq!(state.left_trigger, 128);
    assert_eq!(state.right_trigger, 64);
}

#[test]
fn test_checksum_mismatch() {
    let line = b"G0000:0:0:0:0:0:0*FF\n";
    assert_eq!(parse(line), Err(InputError::Checksum));
}

#[test]
fn test_invalid_prefix() {
    let line = b"X0000:0:0:0:0:0:0*30\n";
    assert_eq!(parse(line), Err(InputError::Parse));
}

#[test]
fn test_parse_update_buttons() {
    let payload = b"B:0003";
    let checksum = calculate_checksum(payload);
    let line = format!("UB:0003*{:02X}\n", checksum);
    let result = parse_message(line.as_bytes()).unwrap();
    assert_eq!(
        result,
        ParsedMessage::Update(GamepadFieldUpdate::Buttons(Buttons(Buttons::A | Buttons::B)))
    );
}

#[test]
fn test_parse_update_left_stick_x() {
    let payload = b"LX:-500";
    let checksum = calculate_checksum(payload);
    let line = format!("ULX:-500*{:02X}\n", checksum);
    let result = parse_message(line.as_bytes()).unwrap();
    assert_eq!(
        result,
        ParsedMessage::Update(GamepadFieldUpdate::LeftStickX(-500))
    );
}

#[test]
fn test_parse_update_left_stick_y() {
    let payload = b"LY:1000";
    let checksum = calculate_checksum(payload);
    let line = format!("ULY:1000*{:02X}\n", checksum);
    let result = parse_message(line.as_bytes()).unwrap();
    assert_eq!(
        result,
        ParsedMessage::Update(GamepadFieldUpdate::LeftStickY(1000))
    );
}

#[test]
fn test_parse_update_right_stick_x() {
    let payload = b"RX:2000";
    let checksum = calculate_checksum(payload);
    let line = format!("URX:2000*{:02X}\n", checksum);
    let result = parse_message(line.as_bytes()).unwrap();
    assert_eq!(
        result,
        ParsedMessage::Update(GamepadFieldUpdate::RightStickX(2000))
    );
}

#[test]
fn test_parse_update_right_stick_y() {
    let payload = b"RY:-100";
    let checksum = calculate_checksum(payload);
    let line = format!("URY:-100*{:02X}\n", checksum);
    let result = parse_message(line.as_bytes()).unwrap();
    assert_eq!(
        result,
        ParsedMessage::Update(GamepadFieldUpdate::RightStickY(-100))
    );
}

#[test]
fn test_parse_update_left_trigger() {
    let payload = b"LT:128";
    let checksum = calculate_checksum(payload);
    let line = format!("ULT:128*{:02X}\n", checksum);
    let result = parse_message(line.as_bytes()).unwrap();
    assert_eq!(
        result,
        ParsedMessage::Update(GamepadFieldUpdate::LeftTrigger(128))
    );
}

#[test]
fn test_parse_update_right_trigger() {
    let payload = b"RT:255";
    let checksum = calculate_checksum(payload);
    let line = format!("URT:255*{:02X}\n", checksum);
    let result = parse_message(line.as_bytes()).unwrap();
    assert_eq!(
        result,
        ParsedMessage::Update(GamepadFieldUpdate::RightTrigger(255))
    );
}

#[test]
fn test_parse_update_checksum_mismatch() {
    let line = b"UB:0001*00\n";
    assert_eq!(parse_message(line), Err(InputError::Checksum));
}

#[test]
fn test_parse_update_invalid_field() {
    let payload = b"XX:100";
    let checksum = calculate_checksum(payload);
    let line = format!("UXX:100*{:02X}\n", checksum);
    assert_eq!(parse_message(line.as_bytes()), Err(InputError::Parse));
}

#[test]
fn test_parse_message_dispatches_g() {
    let payload = b"0000:0:0:0:0:0:0";
    let checksum = calculate_checksum(payload);
    let line = format!("G0000:0:0:0:0:0:0*{:02X}\n", checksum);
    let result = parse_message(line.as_bytes()).unwrap();
    assert_eq!(result, ParsedMessage::FullState(GamepadState::neutral()));
}

#[test]
fn test_apply_update() {
    let mut state = GamepadState::neutral();

    state.apply_update(GamepadFieldUpdate::Buttons(Buttons(Buttons::A | Buttons::B)));
    assert!(state.buttons.is_pressed(Buttons(Buttons::A)));
    assert!(state.buttons.is_pressed(Buttons(Buttons::B)));

    state.apply_update(GamepadFieldUpdate::LeftStickX(-1000));
    state.apply_update(GamepadFieldUpdate::RightStickY(2000));
    assert_eq!(state.left_stick.x, -1000);
    assert_eq!(state.right_stick.y, 2000);

    state.apply_update(GamepadFieldUpdate::LeftTrigger(128));
    assert_eq!(state.left_trigger, 128);
}

#[test]
fn test_parse_message_empty() {
    assert_eq!(parse_message(b""), Err(InputError::Parse));
    assert_eq!(parse_message(b"\n"), Err(InputError::Parse));
    assert_eq!(parse_message(b"\r\n"), Err(InputError::Parse));
}

#[test]
fn test_parse_i16_max() {
    let payload = b"LX:32767";
    let checksum = calculate_checksum(payload);
    let line = format!("ULX:32767*{:02X}\n", checksum);
    let result = parse_message(line.as_bytes()).unwrap();
    assert_eq!(
        result,
        ParsedMessage::Update(GamepadFieldUpdate::LeftStickX(i16::MAX))
    );
}

#[test]
fn test_parse_i16_min() {
    let payload = b"LX:-32768";
    let checksum = calculate_checksum(payload);
    let line = format!("ULX:-32768*{:02X}\n", checksum);
    let result = parse_message(line.as_bytes()).unwrap();
    assert_eq!(
        result,
        ParsedMessage::Update(GamepadFieldUpdate::LeftStickX(i16::MIN))
    );
}

#[test]
fn test_parse_i16_overflow() {
    let payload = b"LX:32768";
    let checksum = calculate_checksum(payload);
    let line = format!("ULX:32768*{:02X}\n", checksum);
    assert_eq!(parse_message(line.as_bytes()), Err(InputError::Parse));
}

#[test]
fn test_parse_i16_underflow() {
    let payload = b"LX:-32769";
    let checksum = calculate_checksum(payload);
    let line = format!("ULX:-32769*{:02X}\n", checksum);
    assert_eq!(parse_message(line.as_bytes()), Err(InputError::Parse));
}

#[test]
fn test_parse_cr_only_line_ending() {
    let payload = b"0000:0:0:0:0:0:0";
    let checksum = calculate_checksum(payload);
    let line = format!("G0000:0:0:0:0:0:0*{:02X}\r", checksum);
    let state = parse(line.as_bytes()).unwrap();
    assert_eq!(state, GamepadState::neutral());
}

#[test]
fn test_parse_extra_parts_rejected() {
    let payload = b"0000:0:0:0:0:0:0:99";
    let checksum = calculate_checksum(payload);
    let line = format!("G0000:0:0:0:0:0:0:99*{:02X}\n", checksum);
    assert_eq!(parse(line.as_bytes()), Err(InputError::Parse));
}

#[test]
fn test_parse_missing_parts_rejected() {
    let payload = b"0000:0:0:0:0:0";
    let checksum = calculate_checksum(payload);
    let line = format!("G0000:0:0:0:0:0*{:02X}\n", checksum);
    assert_eq!(parse(line.as_bytes()), Err(InputError::Parse));
}

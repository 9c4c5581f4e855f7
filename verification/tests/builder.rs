use gamepad_core::{
    parse, parse_message, serialize_full_state, Buttons, GamepadFieldUpdate, GamepadState,
    MessageBuilder, ParsedMessage,
};

#[test]
fn test_full_state_builder_default() {
    let state = MessageBuilder::full_state().build();
    assert_eq!(state, GamepadState::neutral());
}

#[test]
fn test_full_state_builder_buttons() {
    let state = MessageBuilder::full_state()
        .buttons(Buttons(Buttons::A | Buttons::B))
        .build();
    assert!(state.buttons.is_pressed(Buttons(Buttons::A)));
    assert!(state.buttons.is_pressed(Buttons(Buttons::B)));
}

#[test]
fn test_full_state_builder_sticks() {
    let state = MessageBuilder::full_state()
        .left_stick(100, -200)
        .right_stick(-300, 400)
        .build();
    assert_eq!(state.left_stick.x, 100);
    assert_eq!(state.left_stick.y, -200);
    assert_eq!(state.right_stick.x, -300);
    assert_eq!(state.right_stick.y, 400);
}

#[test]
fn test_full_state_builder_triggers() {
    let state = MessageBuilder::full_state()
        .left_trigger(128)
        .right_trigger(255)
        .build();
    assert_eq!(state.left_trigger, 128);
    assert_eq!(state.right_trigger, 255);
}

#[test]
fn test_full_state_builder_triggers_combined() {
    let state = MessageBuilder::full_state().triggers(64, 192).build();
    assert_eq!(state.left_trigger, 64);
    assert_eq!(state.right_trigger, 192);
}

#[test]
fn test_full_state_builder_serialize() {
    let mut buf = [0u8; 64];
    let len = MessageBuilder::full_state()
        .buttons(Buttons(Buttons::X | Buttons::Y))
        .left_stick(1000, -1000)
        .serialize(&mut buf)
        .unwrap();

    let parsed = parse(&buf[..len]).unwrap();
    assert!(parsed.buttons.is_pressed(Buttons(Buttons::X)));
    assert!(parsed.buttons.is_pressed(Buttons(Buttons::Y)));
    assert_eq!(parsed.left_stick.x, 1000);
    assert_eq!(parsed.left_stick.y, -1000);
}

#[test]
fn test_update_builder_buttons() {
    let update = MessageBuilder::update()
        .buttons(Buttons(Buttons::START))
        .build()
        .unwrap();
    assert_eq!(update, GamepadFieldUpdate::Buttons(Buttons(Buttons::START)));
}

#[test]
fn test_update_builder_left_stick_x() {
    let update = MessageBuilder::update().left_stick_x(-500).build().unwrap();
    assert_eq!(update, GamepadFieldUpdate::LeftStickX(-500));
}

#[test]
fn test_update_builder_left_stick_y() {
    let update = MessageBuilder::update().left_stick_y(1000).build().unwrap();
    assert_eq!(update, GamepadFieldUpdate::LeftStickY(1000));
}

#[test]
fn test_update_builder_right_stick_x() {
    let update = MessageBuilder::update()
        .right_stick_x(2000)
        .build()
        .unwrap();
    assert_eq!(update, GamepadFieldUpdate::RightStickX(2000));
}

#[test]
fn test_update_builder_right_stick_y() {
    let update = MessageBuilder::update()
        .right_stick_y(-3000)
        .build()
        .unwrap();
    assert_eq!(update, GamepadFieldUpdate::RightStickY(-3000));
}

#[test]
fn test_update_builder_left_trigger() {
    let update = MessageBuilder::update().left_trigger(128).build().unwrap();
    assert_eq!(update, GamepadFieldUpdate::LeftTrigger(128));
}

#[test]
fn test_update_builder_right_trigger() {
    let update = MessageBuilder::update().right_trigger(255).build().unwrap();
    assert_eq!(update, GamepadFieldUpdate::RightTrigger(255));
}

#[test]
fn test_update_builder_no_field_set() {
    let update = MessageBuilder::update().build();
    assert!(update.is_none());
}

#[test]
fn test_update_builder_serialize() {
    let mut buf = [0u8; 32];
    let len = MessageBuilder::update()
        .left_trigger(64)
        .serialize(&mut buf)
        .unwrap();

    let parsed = parse_message(&buf[..len]).unwrap();
    assert_eq!(
        parsed,
        ParsedMessage::Update(GamepadFieldUpdate::LeftTrigger(64))
    );
}

#[test]
fn test_update_builder_serialize_no_field() {
    let mut buf = [0u8; 32];
    let result = MessageBuilder::update().serialize(&mut buf);
    assert!(result.is_err());
}

#[test]
fn test_serialize_full_state_function() {
    let mut buf = [0u8; 64];
    let len = serialize_full_state(
        &mut buf,
        Buttons(Buttons::A | Buttons::B),
        100,
        -200,
        300,
        -400,
        50,
        100,
    )
    .unwrap();

    let parsed = parse(&buf[..len]).unwrap();
    assert!(parsed.buttons.is_pressed(Buttons(Buttons::A)));
    assert!(parsed.buttons.is_pressed(Buttons(Buttons::B)));
    assert_eq!(parsed.left_stick.x, 100);
    assert_eq!(parsed.left_stick.y, -200);
    assert_eq!(parsed.right_stick.x, 300);
    assert_eq!(parsed.right_stick.y, -400);
    assert_eq!(parsed.left_trigger, 50);
    assert_eq!(parsed.right_trigger, 100);
}

#[test]
fn test_update_builder_overwrites_previous() {
    let update = MessageBuilder::update()
        .left_stick_x(100)
        .right_stick_y(200)
        .build()
        .unwrap();

    assert_eq!(update, GamepadFieldUpdate::RightStickY(200));
}

#[test]
fn test_full_state_builder_serialize_fmt() {
    let mut s = String::new();
    MessageBuilder::full_state()
        .left_trigger(100)
        .serialize_fmt(&mut s)
        .unwrap();

    assert!(s.starts_with("G"));
    assert!(s.ends_with('\n'));
}

#[test]
fn test_update_builder_serialize_fmt() {
    let mut s = String::new();
    MessageBuilder::update()
        .right_trigger(200)
        .serialize_fmt(&mut s)
        .unwrap();

    assert!(s.starts_with("URT:200*"));
    assert!(s.ends_with('\n'));
}

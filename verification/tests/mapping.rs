use gamepad_core::{
    crsf_to_button, crsf_to_stick, crsf_to_trigger, mavlink_to_buttons, mavlink_to_stick,
    mavlink_z_to_trigger, Buttons, BUTTON_THRESHOLD, CRSF_CENTER, CRSF_MAX, CRSF_MIN,
};

#[test]
fn test_crsf_to_stick_center() {
    assert_eq!(crsf_to_stick(CRSF_CENTER, false), 0);
}

#[test]
fn test_crsf_to_stick_min() {
    assert_eq!(crsf_to_stick(CRSF_MIN, false), -32767);
}

#[test]
fn test_crsf_to_stick_max() {
    assert_eq!(crsf_to_stick(CRSF_MAX, false), 32767);
}

#[test]
fn test_crsf_to_stick_invert() {
    assert_eq!(crsf_to_stick(CRSF_MAX, true), -32767);
    assert_eq!(crsf_to_stick(CRSF_MIN, true), 32767);
}

#[test]
fn test_crsf_to_trigger() {
    assert_eq!(crsf_to_trigger(CRSF_MIN), 0);
    assert_eq!(crsf_to_trigger(CRSF_MAX), 255);
    assert_eq!(crsf_to_trigger(CRSF_CENTER), 127);
}

#[test]
fn test_crsf_to_button() {
    assert!(!crsf_to_button(CRSF_MIN));
    assert!(!crsf_to_button(CRSF_CENTER));
    assert!(crsf_to_button(CRSF_CENTER + 1));
    assert!(crsf_to_button(CRSF_MAX));
}

#[test]
fn test_mavlink_to_stick_center() {
    assert_eq!(mavlink_to_stick(0, false), 0);
}

#[test]
fn test_mavlink_to_stick_extremes() {
    assert_eq!(mavlink_to_stick(1000, false), 32767);
    assert_eq!(mavlink_to_stick(-1000, false), -32767);
}

#[test]
fn test_mavlink_to_stick_invert() {
    assert_eq!(mavlink_to_stick(1000, true), -32767);
    assert_eq!(mavlink_to_stick(-1000, true), 32767);
}

#[test]
fn test_mavlink_z_to_trigger() {
    assert_eq!(mavlink_z_to_trigger(0), 0);
    assert_eq!(mavlink_z_to_trigger(1000), 255);
    assert_eq!(mavlink_z_to_trigger(500), 127);
}

#[test]
fn test_mavlink_to_buttons() {
    let buttons = mavlink_to_buttons(0b0000_0001, 0);
    assert!(buttons.contains(Buttons(Buttons::A)));

    let buttons = mavlink_to_buttons(0b0000_1111, 0);
    assert!(buttons.contains(Buttons(Buttons::A)));
    assert!(buttons.contains(Buttons(Buttons::B)));
    assert!(buttons.contains(Buttons(Buttons::X)));
    assert!(buttons.contains(Buttons(Buttons::Y)));
}

#[test]
fn test_button_threshold_is_center() {
    assert_eq!(BUTTON_THRESHOLD, CRSF_CENTER);
}

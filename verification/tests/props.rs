use gamepad_core::{
    calculate_checksum, channels_to_gamepad, default_axis_mapping, default_mapping,
    encode_telemetry, manual_control_to_gamepad, parse, parse_message, AnalogStick, Buttons,
    GamepadFieldUpdate, GamepadReport, GamepadState, InputError, MockTelemetrySource,
    NullTelemetrySink, ParsedMessage, TelemetryData, TelemetryError, TelemetrySink,
    TelemetrySource,
};

/// CRC-8/DVB-S2 (polynomial 0xD5), computed independently of any crate,
/// for checking RC-link telemetry frames.
fn crc8_dvb_s2(data: &[u8]) -> u8 {
    let mut crc: u8 = 0;
    for &b in data {
        crc ^= b;
        for _ in 0..8 {
            crc = if crc & 0x80 != 0 {
                (crc << 1) ^ 0xD5
            } else {
                crc << 1
            };
        }
    }
    crc
}

// --- Boundary scenarios for the ASCII codec ---

#[test]
fn boundary_neutral_literal() {
    let state = parse(b"G0000:0:0:0:0:0:0*00\n").unwrap();
    assert_eq!(state, GamepadState::neutral());
}

#[test]
fn boundary_button_a_literal() {
    let payload = b"0001:0:0:0:0:0:0";
    let line = format!("G0001:0:0:0:0:0:0*{:02X}\n", calculate_checksum(payload));
    let state = parse(line.as_bytes()).unwrap();
    assert_eq!(state.buttons, Buttons(Buttons::A));
    assert_eq!(state.left_stick, AnalogStick::neutral());
}

#[test]
fn boundary_update_i16_max_and_overflow() {
    let line = format!("ULX:32767*{:02X}\n", calculate_checksum(b"LX:32767"));
    assert_eq!(
        parse_message(line.as_bytes()).unwrap(),
        ParsedMessage::Update(GamepadFieldUpdate::LeftStickX(32767))
    );

    let line = format!("ULX:32768*{:02X}\n", calculate_checksum(b"LX:32768"));
    assert_eq!(parse_message(line.as_bytes()), Err(InputError::Parse));
}

#[test]
fn parse_accepts_signs_spaces_and_hex_case() {
    let payload = b"00ff: 12:+34:-0:0:  7:0";
    let line = format!("G00ff: 12:+34:-0:0:  7:0*{:02X}\n", calculate_checksum(payload));
    let state = parse(line.as_bytes()).unwrap();
    assert_eq!(state.buttons, Buttons(0x00FF));
    assert_eq!(state.left_stick.x, 12);
    assert_eq!(state.left_stick.y, 34);
    assert_eq!(state.right_stick.x, 0);
    assert_eq!(state.left_trigger, 7);
}

// --- Round trip for every update variant and extreme states ---

#[test]
fn roundtrip_every_update_variant() {
    let updates = [
        GamepadFieldUpdate::Buttons(Buttons(0xFFFF)),
        GamepadFieldUpdate::LeftStickX(i16::MIN),
        GamepadFieldUpdate::LeftStickY(i16::MAX),
        GamepadFieldUpdate::RightStickX(-1),
        GamepadFieldUpdate::RightStickY(1),
        GamepadFieldUpdate::LeftTrigger(0),
        GamepadFieldUpdate::RightTrigger(255),
    ];
    for update in updates {
        let mut buf = [0u8; 16];
        let len = update.serialize(&mut buf).unwrap();
        assert_eq!(
            parse_message(&buf[..len]).unwrap(),
            ParsedMessage::Update(update)
        );
    }
}

#[test]
fn roundtrip_assorted_states() {
    let states = [
        GamepadState::neutral(),
        GamepadState {
            buttons: Buttons(0xFFFF),
            left_stick: AnalogStick::new(i16::MIN, i16::MAX),
            right_stick: AnalogStick::new(i16::MAX, i16::MIN),
            left_trigger: 255,
            right_trigger: 255,
        },
        GamepadState {
            buttons: Buttons(0x8001),
            left_stick: AnalogStick::new(-1, 1),
            right_stick: AnalogStick::new(10000, -10000),
            left_trigger: 1,
            right_trigger: 254,
        },
    ];
    for state in states {
        let mut buf = [0u8; 48];
        let len = state.serialize(&mut buf).unwrap();
        assert_eq!(parse(&buf[..len]).unwrap(), state);
    }
}

// --- Checksum sensitivity ---

#[test]
fn flipping_any_payload_byte_is_a_checksum_error() {
    let state = GamepadState {
        buttons: Buttons(0x1234),
        left_stick: AnalogStick::new(-321, 654),
        right_stick: AnalogStick::new(32767, -32768),
        left_trigger: 200,
        right_trigger: 9,
    };
    let mut buf = [0u8; 48];
    let len = state.serialize(&mut buf).unwrap();
    // Payload bytes sit between the prefix and the `*` separator.
    for i in 1..len - 4 {
        for flip in [0x01u8, 0x80u8, 0xFFu8] {
            let mut corrupted = buf;
            corrupted[i] ^= flip;
            assert_eq!(
                parse(&corrupted[..len]),
                Err(InputError::Checksum),
                "flip at {} by {:#x} must be a checksum error",
                i,
                flip
            );
        }
    }
}

#[test]
fn corrupting_the_checksum_field_is_a_checksum_error() {
    let payload = b"0000:1:2:3:4:5:6";
    let good = calculate_checksum(payload);
    for wrong in 0u8..=255 {
        if wrong == good {
            continue;
        }
        let line = format!("G0000:1:2:3:4:5:6*{:02X}\n", wrong);
        assert_eq!(parse(line.as_bytes()), Err(InputError::Checksum));
    }
}

#[test]
fn ascii_parser_never_panics_on_arbitrary_lines() {
    let mut v: u32 = 0x2468ACE0;
    let mut line = Vec::new();
    for _ in 0..2000 {
        v = v.wrapping_mul(1664525).wrapping_add(1013904223);
        line.push((v >> 24) as u8);
        if line.len() > 70 {
            line.clear();
        }
        let _ = parse_message(&line);
        let _ = parse(&line);
    }
}

// --- Mapper totality at the domain extremes ---

#[test]
fn mappers_stay_in_range_at_extremes() {
    for val in [0u16, 1, 991, 992, 993, 1984, 4095, u16::MAX] {
        for invert in [false, true] {
            let s = gamepad_core::crsf_to_stick(val, invert);
            assert!((-32767..=32767).contains(&(s as i32)));
        }
        let _t: u8 = gamepad_core::crsf_to_trigger(val);
    }
    for val in [-1000i16, -999, -1, 0, 1, 999, 1000] {
        for invert in [false, true] {
            let s = gamepad_core::mavlink_to_stick(val, invert);
            assert!((-32767..=32767).contains(&(s as i32)));
        }
        let _t: u8 = gamepad_core::mavlink_z_to_trigger(val);
    }
    let _ = gamepad_core::mavlink_z_to_trigger(i16::MIN);
    let _ = gamepad_core::mavlink_z_to_trigger(i16::MAX);
}

#[test]
fn channels_to_gamepad_default_mapping() {
    let mapping = default_mapping();
    let mut channels = [992u16; 16];
    channels[0] = 1984; // roll -> right stick X max
    channels[1] = 0; // pitch -> right stick Y min
    channels[2] = 1984; // throttle -> left trigger max
    channels[5] = 1984; // first button channel pressed
    let state = channels_to_gamepad(&channels, &mapping);
    assert_eq!(state.right_stick.x, 32767);
    assert_eq!(state.right_stick.y, -32767);
    assert_eq!(state.left_trigger, 255);
    assert!(state.buttons.is_pressed(Buttons(Buttons::A)));
    assert!(!state.buttons.is_pressed(Buttons(Buttons::B)));
    assert_eq!(state.left_stick.x, 0);
}

#[test]
fn manual_control_defaults_route_thrust_to_trigger() {
    let mapping = default_axis_mapping();
    let state = manual_control_to_gamepad(-1000, 1000, 1000, 0, 0b11, 0, &mapping);
    // Pitch is negated: forward (x = -1000) maps to stick up.
    assert_eq!(state.right_stick.y, 32767);
    assert_eq!(state.right_stick.x, 32767);
    assert_eq!(state.left_trigger, 255);
    assert_eq!(state.left_stick.y, 0);
    assert_eq!(state.right_trigger, 0);
    assert!(state.buttons.is_pressed(Buttons(Buttons::A)));
    assert!(state.buttons.is_pressed(Buttons(Buttons::B)));
}

// --- Telemetry encoding through the RC-link framer ---

#[test]
fn battery_telemetry_frame_bytes() {
    let data = TelemetryData::Battery {
        voltage_mv: 12340,
        current_ma: 1000,
        remaining_pct: 75,
    };
    let mut buf = [0u8; 64];
    let len = encode_telemetry(&data, &mut buf).unwrap();
    assert_eq!(len, 12);
    // Destination, length byte, battery packet type.
    assert_eq!(buf[0], 0xC8);
    assert_eq!(buf[1], 10);
    assert_eq!(buf[2], 0x08);
    // Voltage 1234 (10 mV units) and current 100 (10 mA units), big endian.
    assert_eq!(&buf[3..5], &1234i16.to_be_bytes());
    assert_eq!(&buf[5..7], &100i16.to_be_bytes());
    // Capacity used is zero, remaining percent follows.
    assert_eq!(&buf[7..10], &[0, 0, 0]);
    assert_eq!(buf[10], 75);
    // Frame CRC over type and payload.
    assert_eq!(buf[11], crc8_dvb_s2(&buf[2..11]));
}

#[test]
fn attitude_telemetry_frame_bytes() {
    let data = TelemetryData::Attitude {
        roll: 1000,
        pitch: -2000,
        yaw: 0,
    };
    let mut buf = [0u8; 64];
    let len = encode_telemetry(&data, &mut buf).unwrap();
    assert_eq!(len, 10);
    assert_eq!(buf[0], 0xC8);
    assert_eq!(buf[1], 8);
    assert_eq!(buf[2], 0x1E);
    // Pitch, roll, yaw in 100 urad units (centidegrees * 1745 / 1000).
    assert_eq!(&buf[3..5], &(-3490i16).to_be_bytes());
    assert_eq!(&buf[5..7], &1745i16.to_be_bytes());
    assert_eq!(&buf[7..9], &0i16.to_be_bytes());
    assert_eq!(buf[9], crc8_dvb_s2(&buf[2..9]));
}

#[test]
fn gps_telemetry_frame_bytes() {
    let data = TelemetryData::Gps {
        lat: 471234567,
        lon: -122334455,
        alt_m: 120,
        speed_mps: 10,
        sats: 9,
    };
    let mut buf = [0u8; 64];
    let len = encode_telemetry(&data, &mut buf).unwrap();
    assert_eq!(len, 19);
    assert_eq!(buf[0], 0xC8);
    assert_eq!(buf[1], 17);
    assert_eq!(buf[2], 0x02);
    assert_eq!(&buf[3..7], &471234567i32.to_be_bytes());
    assert_eq!(&buf[7..11], &(-122334455i32).to_be_bytes());
    // Ground speed 10 m/s = 3600 in 0.01 km/h units; heading 0;
    // altitude 120 m with the +1000 m offset.
    assert_eq!(&buf[11..13], &3600u16.to_be_bytes());
    assert_eq!(&buf[13..15], &0u16.to_be_bytes());
    assert_eq!(&buf[15..17], &1120u16.to_be_bytes());
    assert_eq!(buf[17], 9);
    assert_eq!(buf[18], crc8_dvb_s2(&buf[2..18]));
}

#[test]
fn link_quality_telemetry_not_supported() {
    let data = TelemetryData::LinkQuality {
        rssi: -70,
        snr: 8,
        lq: 99,
    };
    let mut buf = [0u8; 64];
    assert_eq!(
        encode_telemetry(&data, &mut buf),
        Err(TelemetryError::NotSupported)
    );
}

#[test]
fn telemetry_buffer_too_small() {
    let data = TelemetryData::Battery {
        voltage_mv: 100,
        current_ma: 100,
        remaining_pct: 50,
    };
    let mut buf = [0u8; 4];
    assert_eq!(
        encode_telemetry(&data, &mut buf),
        Err(TelemetryError::BufferFull)
    );
}

#[test]
fn null_sink_and_mock_source() {
    let mut source = MockTelemetrySource;
    assert!(source.receive().is_none());

    let mut sink = NullTelemetrySink;
    assert!(!sink.supports_telemetry());
    let data = TelemetryData::Attitude {
        roll: 0,
        pitch: 0,
        yaw: 0,
    };
    assert_eq!(
        sink.send_telemetry(&data),
        Err(TelemetryError::NotSupported)
    );
}

// --- HID report scaling ---

#[test]
fn report_scales_sticks_and_packs_bytes() {
    let state = GamepadState {
        buttons: Buttons(0xA55A),
        left_stick: AnalogStick::new(i16::MAX, i16::MIN),
        right_stick: AnalogStick::new(256, -256),
        left_trigger: 17,
        right_trigger: 255,
    };
    let report = GamepadReport::from_state(&state);
    assert_eq!(report.buttons, 0xA55A);
    assert_eq!(report.left_stick_x, 127);
    assert_eq!(report.left_stick_y, -128);
    assert_eq!(report.right_stick_x, 1);
    assert_eq!(report.right_stick_y, -1);

    let bytes = report.as_bytes();
    assert_eq!(bytes, [0x5A, 0xA5, 127, 0x80, 1, 0xFF, 17, 255]);

    let neutral = GamepadReport::neutral();
    assert_eq!(neutral.as_bytes(), [0; 8]);
    assert_eq!(GamepadReport::SIZE, 8);
}

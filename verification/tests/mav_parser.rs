use gamepad_core::{MavMessage, MavlinkParser, ParseError, MAVLINK_STX_V1, MSG_ID_MANUAL_CONTROL};

/// CRC-16/MCRF4XX with a trailing CRC-extra byte, computed independently
/// of the library, for building test frames.
fn crc16(data: &[u8], extra: u8) -> u16 {
    let mut crc: u16 = 0xFFFF;
    for &byte in data.iter().chain(std::iter::once(&extra)) {
        let tmp = (byte ^ (crc as u8)) as u16;
        let tmp = tmp ^ (tmp << 4);
        crc = (crc >> 8) ^ (tmp << 8) ^ (tmp << 3) ^ (tmp >> 4);
    }
    crc
}

/// A complete MAVLink 1 MANUAL_CONTROL frame with the given axes and
/// buttons and a correct CRC.
fn manual_control_frame(x: i16, y: i16, z: i16, r: i16, buttons: u16) -> Vec<u8> {
    let mut payload = vec![1u8];
    payload.extend_from_slice(&x.to_le_bytes());
    payload.extend_from_slice(&y.to_le_bytes());
    payload.extend_from_slice(&z.to_le_bytes());
    payload.extend_from_slice(&r.to_le_bytes());
    payload.extend_from_slice(&buttons.to_le_bytes());

    let mut frame = vec![
        MAVLINK_STX_V1,
        payload.len() as u8,
        0,
        1,
        1,
        MSG_ID_MANUAL_CONTROL as u8,
    ];
    frame.extend_from_slice(&payload);
    let crc = crc16(&frame[1..], 243);
    frame.extend_from_slice(&crc.to_le_bytes());
    frame
}

#[test]
fn test_crc_accumulate() {
    let mut parser = MavlinkParser::new();
    let frame = manual_control_frame(0, 0, 0, 0, 0);
    let mut outcome = None;
    for &b in &frame {
        if let Some(msg) = parser.push_byte(b).unwrap() {
            outcome = Some(msg);
        }
    }
    assert!(matches!(outcome, Some(MavMessage::ManualControl(_))));
}

#[test]
fn test_parser_rejects_invalid_start() {
    let mut parser = MavlinkParser::new();
    assert!(parser.push_byte(0x00).unwrap().is_none());
    assert!(parser.push_byte(0x42).unwrap().is_none());
}

#[test]
fn test_parser_decodes_manual_control_fields() {
    let mut parser = MavlinkParser::new();
    let frame = manual_control_frame(100, -200, 300, -400, 0b101);
    let mut outcome = None;
    for &b in &frame {
        if let Some(msg) = parser.push_byte(b).unwrap() {
            outcome = Some(msg);
        }
    }
    match outcome {
        Some(MavMessage::ManualControl(mc)) => {
            assert_eq!(mc.target, 1);
            assert_eq!(mc.x, 100);
            assert_eq!(mc.y, -200);
            assert_eq!(mc.z, 300);
            assert_eq!(mc.r, -400);
            assert_eq!(mc.buttons, 0b101);
            assert_eq!(mc.buttons2, 0);
        }
        other => panic!("expected a manual-control message, got {:?}", other),
    }
}

#[test]
fn test_parser_crc_error_then_recovers() {
    let mut parser = MavlinkParser::new();
    let mut frame = manual_control_frame(1, 2, 3, 4, 5);
    let last = frame.len() - 1;
    frame[last] ^= 0xFF;

    let mut got_crc_error = false;
    for &b in &frame {
        match parser.push_byte(b) {
            Ok(_) => {}
            Err(e) => {
                assert_eq!(e, ParseError::CrcError);
                got_crc_error = true;
            }
        }
    }
    assert!(got_crc_error);

    // The parser accepts a fresh frame immediately afterwards.
    let good = manual_control_frame(7, 8, 9, 10, 11);
    let mut outcome = None;
    for &b in &good {
        if let Some(msg) = parser.push_byte(b).unwrap() {
            outcome = Some(msg);
        }
    }
    assert!(matches!(outcome, Some(MavMessage::ManualControl(_))));
}

#[test]
fn test_parser_unknown_message_id() {
    let mut parser = MavlinkParser::new();
    // A frame with message id 17 and an arbitrary (unchecked) CRC.
    let frame = [MAVLINK_STX_V1, 0, 0, 1, 1, 17, 0xAA, 0xBB];
    let mut outcome = None;
    for &b in &frame {
        if let Some(msg) = parser.push_byte(b).unwrap() {
            outcome = Some(msg);
        }
    }
    assert_eq!(outcome, Some(MavMessage::Unknown(17)));
}

#[test]
fn test_parser_arbitrary_bytes_never_panic() {
    let mut parser = MavlinkParser::new();
    let mut v: u32 = 0x12345678;
    for _ in 0..5000 {
        v = v.wrapping_mul(1664525).wrapping_add(1013904223);
        let _ = parser.push_byte((v >> 24) as u8);
    }
}

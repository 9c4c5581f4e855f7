use gamepad_core::{
    calculate_checksum, calculate_crc8, Crc8Digest,
    textfmt::{write_hex_u16, write_hex_u8, write_i16, write_u8},
};

#[test]
fn test_crc8_empty() {
    assert_eq!(calculate_crc8(&[]), 0x00);
}

#[test]
fn test_crc8_single_byte() {
    assert_eq!(calculate_crc8(&[0x00]), 0x00);
}

#[test]
fn test_crc8_digest_matches_batch() {
    let data = b"0000:0:0:0:0:0:0";
    let batch_crc = calculate_crc8(data);

    let mut digest = Crc8Digest::new();
    for &b in data {
        digest.update(b);
    }
    let incremental_crc = digest.finalize();

    assert_eq!(batch_crc, incremental_crc);
}

#[test]
fn test_crc8_digest_slice() {
    let data = b"test data";
    let batch_crc = calculate_crc8(data);

    let mut digest = Crc8Digest::new();
    digest.update_slice(data);
    let slice_crc = digest.finalize();

    assert_eq!(batch_crc, slice_crc);
}

#[test]
fn test_write_hex_u16() {
    let mut buf = [0u8; 4];

    write_hex_u16(&mut buf, 0x0000);
    assert_eq!(&buf, b"0000");

    write_hex_u16(&mut buf, 0xFFFF);
    assert_eq!(&buf, b"FFFF");

    write_hex_u16(&mut buf, 0x1234);
    assert_eq!(&buf, b"1234");

    write_hex_u16(&mut buf, 0xABCD);
    assert_eq!(&buf, b"ABCD");

    write_hex_u16(&mut buf, 0x0001);
    assert_eq!(&buf, b"0001");
}

#[test]
fn test_write_hex_u8() {
    let mut buf = [0u8; 2];

    write_hex_u8(&mut buf, 0x00);
    assert_eq!(&buf, b"00");

    write_hex_u8(&mut buf, 0xFF);
    assert_eq!(&buf, b"FF");

    write_hex_u8(&mut buf, 0x1A);
    assert_eq!(&buf, b"1A");
}

#[test]
fn test_write_i16() {
    let mut buf = [0u8; 6];

    let len = write_i16(&mut buf, 0);
    assert_eq!(&buf[..len], b"0");

    let len = write_i16(&mut buf, 1);
    assert_eq!(&buf[..len], b"1");

    let len = write_i16(&mut buf, -1);
    assert_eq!(&buf[..len], b"-1");

    let len = write_i16(&mut buf, 32767);
    assert_eq!(&buf[..len], b"32767");

    let len = write_i16(&mut buf, -32768);
    assert_eq!(&buf[..len], b"-32768");

    let len = write_i16(&mut buf, 1000);
    assert_eq!(&buf[..len], b"1000");

    let len = write_i16(&mut buf, -1000);
    assert_eq!(&buf[..len], b"-1000");
}

#[test]
fn test_write_u8() {
    let mut buf = [0u8; 3];

    let len = write_u8(&mut buf, 0);
    assert_eq!(&buf[..len], b"0");

    let len = write_u8(&mut buf, 1);
    assert_eq!(&buf[..len], b"1");

    let len = write_u8(&mut buf, 255);
    assert_eq!(&buf[..len], b"255");

    let len = write_u8(&mut buf, 128);
    assert_eq!(&buf[..len], b"128");

    let len = write_u8(&mut buf, 64);
    assert_eq!(&buf[..len], b"64");
}

#[test]
fn test_calculate_checksum() {
    assert_eq!(calculate_checksum(b""), 0);

    assert_eq!(calculate_checksum(b"A"), b'A');

    assert_eq!(calculate_checksum(b"AB"), b'A' ^ b'B');

    let payload = b"0000:0:0:0:0:0:0";
    let checksum = calculate_checksum(payload);
    let expected = payload.iter().fold(0u8, |acc, &b| acc ^ b);
    assert_eq!(checksum, expected);
}

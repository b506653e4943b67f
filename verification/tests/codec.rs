use walkingpad::DecodeError;
use walkingpad::Telemetry;
use walkingpad::decode_telemetry;
use walkingpad::encode_poll_command;
use walkingpad::extract_value;

#[test]
fn non_magic_buffers_yield_no_telemetry() {
    // Buffers not starting with F8 A2 are silently ignored, never an error.
    let cases: Vec<Vec<u8>> = vec![
        vec![],
        vec![0xf8],
        vec![0x00, 0x00],
        vec![0xf8, 0xa3],
        vec![0xf7, 0xa2, 0x00, 0x00, 0xa2, 0xfd],
        vec![0x00; 20],
    ];
    for case in &cases {
        assert_eq!(decode_telemetry(case), Ok(None));
    }
}

#[test]
fn short_magic_buffers_are_malformed() {
    // Magic prefix present but fewer than 14 bytes: MalformedFrame.
    for len in 2..14usize {
        let mut buf = vec![0u8; len];
        buf[0] = 0xf8;
        buf[1] = 0xa2;
        assert_eq!(decode_telemetry(&buf), Err(DecodeError::MalformedFrame));
    }
}

#[test]
fn extract_value_is_24_bit_big_endian() {
    let bytes = [0x01u8, 0x02, 0x03];
    assert_eq!(extract_value(&bytes, 0), Ok(0x010203));
    assert_eq!(extract_value(&bytes, 0), Ok(66051));
}

#[test]
fn extract_value_rejects_short_window() {
    let bytes = [0x01u8, 0x02, 0x03];
    assert_eq!(extract_value(&bytes, 1), Err(DecodeError::MalformedFrame));
    assert_eq!(extract_value(&bytes, 3), Err(DecodeError::MalformedFrame));
    assert_eq!(extract_value(&[], 0), Err(DecodeError::MalformedFrame));
}

#[test]
fn extract_value_at_offset() {
    let bytes = [0xff, 0xee, 0x10, 0x20, 0x30, 0x40];
    assert_eq!(extract_value(&bytes, 2), Ok(0x102030));
    assert_eq!(extract_value(&bytes, 3), Ok(0x203040));
}

#[test]
fn poll_command_is_constant() {
    let first = encode_poll_command();
    let second = encode_poll_command();
    assert_eq!(first, vec![0xf7, 0xa2, 0x00, 0x00, 0xa2, 0xfd]);
    assert_eq!(first, second);
}

#[test]
fn decode_example_frame() {
    // Fields read off the offset table: magic at 0-1, speed at 3,
    // 24-bit big-endian values at 5, 8 and 11.
    let frame = [
        0xf8, 0xa2, 0x00, 0x64, 0x00, 0x00, 0x00, 0x0e, 0x10, 0x00, 0x03, 0x20, 0x00, 0x05,
    ];
    let telemetry = decode_telemetry(&frame).unwrap().unwrap();
    assert_eq!(
        telemetry,
        Telemetry { speed: 0x64, time: 0x00000e, distance: 0x100003, steps: 0x200005 }
    );
    assert_eq!(telemetry.speed, 100);
    assert_eq!(telemetry.time, 14);
    assert_eq!(telemetry.distance, 1048579);
    assert_eq!(telemetry.steps, 2097157);
}

#[test]
fn decode_ignores_reserved_bytes() {
    // Bytes at offsets 2 and 4 are reserved and not validated.
    let mut frame = [0u8; 14];
    frame[0] = 0xf8;
    frame[1] = 0xa2;
    frame[2] = 0xde;
    frame[4] = 0xad;
    frame[3] = 55;
    let telemetry = decode_telemetry(&frame).unwrap().unwrap();
    assert_eq!(telemetry.speed, 55);
    assert_eq!(telemetry.time, 0);
}

#[test]
fn decode_accepts_longer_frames() {
    let mut frame = vec![0u8; 20];
    frame[0] = 0xf8;
    frame[1] = 0xa2;
    frame[11] = 0x00;
    frame[12] = 0x01;
    frame[13] = 0x00;
    let telemetry = decode_telemetry(&frame).unwrap().unwrap();
    assert_eq!(telemetry.steps, 0x000100);
}

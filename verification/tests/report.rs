use asdbctl::constants::{REPORT_ID, REPORT_SIZE};
use asdbctl::error::DisplayError;
use asdbctl::report::{decode_get_response, encode_get_request, encode_set_report};

#[test]
fn encode_set_report_30000() {
    assert_eq!(encode_set_report(30000), [0x01, 0x30, 0x75, 0x00, 0x00, 0x00, 0x00]);
}

#[test]
fn encode_set_report_bounds() {
    assert_eq!(encode_set_report(400), [1, 0x90, 0x01, 0, 0, 0, 0]);
    assert_eq!(encode_set_report(60000), [1, 0x60, 0xea, 0, 0, 0, 0]);
}

#[test]
fn encode_set_report_uses_all_four_level_bytes() {
    assert_eq!(encode_set_report(0), [1, 0, 0, 0, 0, 0, 0]);
    assert_eq!(encode_set_report(0x1234_5678), [1, 0x78, 0x56, 0x34, 0x12, 0, 0]);
    assert_eq!(encode_set_report(u32::MAX), [1, 0xff, 0xff, 0xff, 0xff, 0, 0]);
}

#[test]
fn encode_set_report_matches_std_byte_order() {
    for level in [0u32, 1, 255, 256, 400, 30000, 60000, 65535, 65536, 16_777_215, 16_777_216] {
        let report = encode_set_report(level);
        assert_eq!(report.len(), REPORT_SIZE);
        assert_eq!(report[0], REPORT_ID);
        assert_eq!(report[1..5], level.to_le_bytes());
        assert_eq!(report[5..7], [0, 0]);
    }
}

#[test]
fn encode_get_request_layout() {
    assert_eq!(encode_get_request(), [1, 0, 0, 0, 0, 0, 0]);
}

#[test]
fn decode_get_response_six_bytes_is_protocol_error() {
    assert_eq!(
        decode_get_response(&[1, 0x30, 0x75, 0, 0, 0]),
        Err(DisplayError::Protocol { expected: 7, actual: 6 })
    );
}

#[test]
fn decode_get_response_eight_bytes_is_protocol_error() {
    assert_eq!(
        decode_get_response(&[1, 0x30, 0x75, 0, 0, 0, 0, 0]),
        Err(DisplayError::Protocol { expected: 7, actual: 8 })
    );
}

#[test]
fn decode_get_response_empty_is_protocol_error() {
    assert_eq!(
        decode_get_response(&[]),
        Err(DisplayError::Protocol { expected: 7, actual: 0 })
    );
}

#[test]
fn decode_get_response_zero_level() {
    assert_eq!(decode_get_response(&[1, 0, 0, 0, 0, 0, 0]), Ok(0));
}

#[test]
fn decode_get_response_reads_little_endian() {
    assert_eq!(decode_get_response(&[1, 0x30, 0x75, 0, 0, 0, 0]), Ok(30000));
    assert_eq!(decode_get_response(&[1, 0x78, 0x56, 0x34, 0x12, 0, 0]), Ok(0x1234_5678));
    assert_eq!(decode_get_response(&[1, 0xff, 0xff, 0xff, 0xff, 0, 0]), Ok(u32::MAX));
}

#[test]
fn decode_get_response_ignores_identifier_and_reserved_bytes() {
    assert_eq!(decode_get_response(&[0, 0x30, 0x75, 0, 0, 0, 0]), Ok(30000));
    assert_eq!(decode_get_response(&[9, 0x30, 0x75, 0, 0, 0xaa, 0xbb]), Ok(30000));
}

#[test]
fn decode_inverts_encode() {
    for level in [0u32, 1, 399, 400, 30000, 60000, 60001, 0x0102_0304, u32::MAX] {
        assert_eq!(decode_get_response(&encode_set_report(level)), Ok(level));
    }
}

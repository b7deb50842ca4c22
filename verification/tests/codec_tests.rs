use kbus_mqtt_bridge::codec::{
    bool_text, bytes_eq, decode_topic, decode_value, device_prefix, full_topic,
    heartbeat_rel, input_rel, output_filter_rel, parse_u16, parse_u64, starts_with,
    status_rel, u16_dec,
};

#[test]
fn test_decode_value_vocabulary() {
    // Every accepted literal, with its expected boolean.
    assert_eq!(decode_value(b"true"), Some(true));
    assert_eq!(decode_value(b"on"), Some(true));
    assert_eq!(decode_value(b"ON"), Some(true));
    assert_eq!(decode_value(b"\x01"), Some(true));
    assert_eq!(decode_value(b"false"), Some(false));
    assert_eq!(decode_value(b"off"), Some(false));
    assert_eq!(decode_value(b"OFF"), Some(false));
    assert_eq!(decode_value(b"\x00"), Some(false));
}

#[test]
fn test_decode_value_rejects() {
    assert_eq!(decode_value(b""), None);
    assert_eq!(decode_value(b"TRUE"), None);
    assert_eq!(decode_value(b"True"), None);
    assert_eq!(decode_value(b"On"), None);
    assert_eq!(decode_value(b"1"), None);
    assert_eq!(decode_value(b"0"), None);
    assert_eq!(decode_value(b"yes"), None);
    assert_eq!(decode_value(b"true "), None);
    assert_eq!(decode_value(b"\x02"), None);
}

#[test]
fn test_parse_u16_values() {
    assert_eq!(parse_u16(b"0"), Some(0));
    assert_eq!(parse_u16(b"5"), Some(5));
    assert_eq!(parse_u16(b"90"), Some(90));
    assert_eq!(parse_u16(b"007"), Some(7));
    assert_eq!(parse_u16(b"+10"), Some(10));
    assert_eq!(parse_u16(b"65535"), Some(65535));
    assert_eq!(parse_u16(b"65536"), None);
    assert_eq!(parse_u16(b"99999"), None);
    assert_eq!(parse_u16(b""), None);
    assert_eq!(parse_u16(b"+"), None);
    assert_eq!(parse_u16(b"-1"), None);
    assert_eq!(parse_u16(b"1a"), None);
    assert_eq!(parse_u16(b" 1"), None);
}

#[test]
fn test_parse_u64_values() {
    assert_eq!(parse_u64(b"0"), Some(0));
    assert_eq!(parse_u64(b"86400"), Some(86400));
    assert_eq!(parse_u64(b"18446744073709551615"), Some(u64::MAX));
    assert_eq!(parse_u64(b"18446744073709551616"), None);
    assert_eq!(parse_u64(b"invalid"), None);
    assert_eq!(parse_u64(b""), None);
}

#[test]
fn test_u16_dec_rendering() {
    assert_eq!(u16_dec(0), b"0");
    assert_eq!(u16_dec(5), b"5");
    assert_eq!(u16_dec(10), b"10");
    assert_eq!(u16_dec(90), b"90");
    assert_eq!(u16_dec(65535), b"65535");
}

#[test]
fn test_u16_dec_parse_round_trip() {
    for n in [0u16, 1, 9, 10, 89, 90, 255, 256, 9999, 65535] {
        assert_eq!(parse_u16(&u16_dec(n)), Some(n));
    }
}

#[test]
fn test_bool_text_canonical() {
    assert_eq!(bool_text(true), b"true");
    assert_eq!(bool_text(false), b"false");
}

#[test]
fn test_topic_builders() {
    assert_eq!(full_topic(b"dev/aa:bb", b"status"), b"dev/aa:bb/status");
    // An empty prefix leaves the relative topic bare.
    assert_eq!(full_topic(b"", b"status"), b"status");
    assert_eq!(input_rel(5), b"input/5");
    assert_eq!(status_rel(), b"status");
    assert_eq!(heartbeat_rel(), b"heartbeat");
    assert_eq!(output_filter_rel(), b"output/+");
    assert_eq!(device_prefix(b"dev", b"aa:bb:cc"), b"dev/aa:bb:cc");
    assert_eq!(
        full_topic(b"dev/aa:bb", &input_rel(42)),
        b"dev/aa:bb/input/42"
    );
}

#[test]
fn test_decode_topic_matches() {
    assert_eq!(decode_topic(b"dev/aa", b"dev/aa/output/10"), Some(10));
    assert_eq!(decode_topic(b"dev/aa", b"dev/aa/output/0"), Some(0));
    assert_eq!(decode_topic(b"dev/aa", b"dev/aa/output/65535"), Some(65535));
    // An empty prefix accepts the bare shape.
    assert_eq!(decode_topic(b"", b"/output/3"), Some(3));
}

#[test]
fn test_decode_topic_rejects() {
    // Wrong prefix.
    assert_eq!(decode_topic(b"dev/aa", b"dev/bb/output/10"), None);
    // Not an output topic.
    assert_eq!(decode_topic(b"dev/aa", b"dev/aa/input/10"), None);
    assert_eq!(decode_topic(b"dev/aa", b"dev/aa/status"), None);
    // Channel number malformed or out of range.
    assert_eq!(decode_topic(b"dev/aa", b"dev/aa/output/"), None);
    assert_eq!(decode_topic(b"dev/aa", b"dev/aa/output/x"), None);
    assert_eq!(decode_topic(b"dev/aa", b"dev/aa/output/10/extra"), None);
    assert_eq!(decode_topic(b"dev/aa", b"dev/aa/output/65536"), None);
    // Too short altogether.
    assert_eq!(decode_topic(b"dev/aa", b"dev/aa"), None);
}

#[test]
fn test_byte_string_helpers() {
    assert!(bytes_eq(b"abc", b"abc"));
    assert!(!bytes_eq(b"abc", b"abd"));
    assert!(!bytes_eq(b"abc", b"ab"));
    assert!(starts_with(b"abc", b"ab"));
    assert!(starts_with(b"abc", b""));
    assert!(!starts_with(b"abc", b"bc"));
    assert!(!starts_with(b"a", b"ab"));
}

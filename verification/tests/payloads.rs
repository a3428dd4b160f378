use pop3_client::command::parse_stat_payload;
use pop3_client::error::PopError;
use pop3_client::numbers::parse_u32;
use pop3_client::numbers::u32_to_dec;

#[test]
fn renders_decimals_exactly() {
    assert_eq!(u32_to_dec(0), "0");
    assert_eq!(u32_to_dec(7), "7");
    assert_eq!(u32_to_dec(340), "340");
    assert_eq!(u32_to_dec(4294967295), "4294967295");
}

#[test]
fn parses_decimals_exactly() {
    assert_eq!(parse_u32("0"), Some(0));
    assert_eq!(parse_u32("340"), Some(340));
    assert_eq!(parse_u32("4294967295"), Some(4294967295));
}

#[test]
fn rejects_non_numbers() {
    assert_eq!(parse_u32(""), None);
    assert_eq!(parse_u32("12a"), None);
    assert_eq!(parse_u32("-1"), None);
    assert_eq!(parse_u32(" 1"), None);
}

#[test]
fn rejects_numbers_too_large() {
    assert_eq!(parse_u32("4294967296"), None);
    assert_eq!(parse_u32("99999999999"), None);
}

#[test]
fn render_then_parse_round_trips() {
    for n in [0u32, 1, 9, 10, 99, 100, 340, 65536, 4294967295] {
        assert_eq!(parse_u32(u32_to_dec(n).as_str()), Some(n));
    }
}

#[test]
fn stat_payload_round_trip() {
    assert!(matches!(parse_stat_payload("2 340"), Ok((2, 340))));
}

#[test]
fn stat_payload_non_numeric_is_invalid_reply() {
    match parse_stat_payload("2 abc") {
        Err(PopError::InvalidReply { line }) => assert_eq!(line, "2 abc"),
        _ => panic!("expected a malformed payload"),
    }
}

#[test]
fn stat_payload_missing_field_is_invalid_reply() {
    assert!(matches!(
        parse_stat_payload("2"),
        Err(PopError::InvalidReply { .. })
    ));
    assert!(matches!(
        parse_stat_payload(""),
        Err(PopError::InvalidReply { .. })
    ));
    assert!(matches!(
        parse_stat_payload("2 "),
        Err(PopError::InvalidReply { .. })
    ));
}

#[test]
fn stat_payload_ignores_trailing_fields() {
    assert!(matches!(parse_stat_payload("2 340 extra"), Ok((2, 340))));
}

#[test]
fn stat_payload_rejects_empty_first_field() {
    assert!(matches!(
        parse_stat_payload(" 2 340"),
        Err(PopError::InvalidReply { .. })
    ));
}

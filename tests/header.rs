use ripht_php_sapi::ResponseHeader;

#[test]
fn test_new() {
    let h = ResponseHeader::new("Content-Type".to_string(), "text/html".to_string());
    assert_eq!(h.name(), "Content-Type");
    assert_eq!(h.value(), "text/html");
}

#[test]
fn test_parse_basic() {
    let h = ResponseHeader::parse(b"Content-Type: application/json").unwrap();
    assert_eq!(h.name(), "Content-Type");
    assert_eq!(h.value(), "application/json");
}

#[test]
fn test_parse_with_whitespace() {
    let h = ResponseHeader::parse(b"Content-Type:   application/json  ").unwrap();
    assert_eq!(h.name(), "Content-Type");
    assert_eq!(h.value(), "application/json  ");
}

#[test]
fn test_parse_empty_value() {
    let h = ResponseHeader::parse(b"X-Empty:").unwrap();
    assert_eq!(h.name(), "X-Empty");
    assert_eq!(h.value(), "");
}

#[test]
fn test_parse_no_colon() {
    assert!(ResponseHeader::parse(b"InvalidHeader").is_none());
}

#[test]
fn test_parse_colon_at_start() {
    assert!(ResponseHeader::parse(b": value").is_none());
}

#[test]
fn test_parse_whitespace_only_name() {
    assert!(ResponseHeader::parse(b"   : value").is_none());
}

#[test]
fn test_parse_colon_in_value() {
    let h = ResponseHeader::parse(b"X-Timestamp: 12:34:56").unwrap();
    assert_eq!(h.name(), "X-Timestamp");
    assert_eq!(h.value(), "12:34:56");
}

#[test]
fn test_parse_non_utf8_value() {
    let h = ResponseHeader::parse(b"X-Binary: \xff\xfe").unwrap();
    assert_eq!(h.name(), "X-Binary");
    assert!(h.value().contains('\u{FFFD}'));
}

#[test]
fn test_parse_non_utf8_name() {
    assert!(ResponseHeader::parse(b"X-\xff-Header: value").is_none());
}

#[test]
fn parse_trims_name_and_skips_tabs_after_colon() {
    let h = ResponseHeader::parse(b"  X-Padded \t:\t\r\n value\r\n").unwrap();
    assert_eq!(h.name(), "X-Padded");
    assert_eq!(h.value(), "value\r\n");
}

#[test]
fn parse_name_with_trailing_white_space_and_empty_value() {
    let h = ResponseHeader::parse(b"X-Name:   \r\n").unwrap();
    assert_eq!(h.name(), "X-Name");
    assert_eq!(h.value(), "");
}

#[test]
fn parse_unicode_white_space_is_trimmed_from_name() {
    let h = ResponseHeader::parse("\u{a0}X-Nbsp\u{3000}: v".as_bytes()).unwrap();
    assert_eq!(h.name(), "X-Nbsp");
    assert_eq!(h.value(), "v");
}

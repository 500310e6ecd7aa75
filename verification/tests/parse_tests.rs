use url_scheme_handler::uri::{parse_uri, UriError};

#[test]
fn parse_simple_uri() {
    let p = parse_uri("ush://alpha?QUJD").unwrap();
    assert_eq!(p.app_name, "alpha");
    assert_eq!(p.encoded_payload, "QUJD");
}

#[test]
fn parse_strips_trailing_slashes() {
    let p = parse_uri("ush://alpha/?QUJD/").unwrap();
    assert_eq!(p.app_name, "alpha");
    assert_eq!(p.encoded_payload, "QUJD");
}

#[test]
fn parse_strips_many_trailing_slashes() {
    let p = parse_uri("ush://alpha///?QUJD//").unwrap();
    assert_eq!(p.app_name, "alpha");
    assert_eq!(p.encoded_payload, "QUJD");
}

#[test]
fn parse_without_separator_fails() {
    assert_eq!(parse_uri("ush://no-question-mark"), Err(UriError::BadSeparator));
}

#[test]
fn parse_with_two_separators_fails() {
    assert_eq!(parse_uri("ush://a?b?c"), Err(UriError::BadSeparator));
}

#[test]
fn parse_wrong_scheme_fails() {
    assert_eq!(parse_uri("not-ush://x?y"), Err(UriError::MissingScheme));
}

#[test]
fn parse_empty_input_fails() {
    assert_eq!(parse_uri(""), Err(UriError::MissingScheme));
}

#[test]
fn parse_empty_segments() {
    let p = parse_uri("ush://?").unwrap();
    assert_eq!(p.app_name, "");
    assert_eq!(p.encoded_payload, "");
}

#[test]
fn parse_keeps_inner_slashes() {
    let p = parse_uri("ush://my/app?pay/load").unwrap();
    assert_eq!(p.app_name, "my/app");
    assert_eq!(p.encoded_payload, "pay/load");
}

#[test]
fn parse_unicode_name() {
    let p = parse_uri("ush://sch\u{f6}n?QQ==").unwrap();
    assert_eq!(p.app_name, "sch\u{f6}n");
    assert_eq!(p.encoded_payload, "QQ==");
}

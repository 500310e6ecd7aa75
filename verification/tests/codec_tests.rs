use url_scheme_handler::codec::{decode_payload, encode_payload, CodecError};

#[test]
fn round_trip_simple() {
    let encoded = encode_payload("hello world");
    assert_eq!(decode_payload(&encoded), Ok(String::from("hello world")));
}

#[test]
fn round_trip_empty() {
    let encoded = encode_payload("");
    assert_eq!(decode_payload(&encoded), Ok(String::new()));
}

#[test]
fn round_trip_unicode() {
    let text = "arg \u{3b1}\u{3b2}\u{3b3} \u{1f600} --flag=\"sp ace\"";
    let encoded = encode_payload(text);
    assert_eq!(decode_payload(&encoded), Ok(String::from(text)));
}

#[test]
fn round_trip_long_text() {
    let text = "x".repeat(10_000) + " tail";
    let encoded = encode_payload(&text);
    assert_eq!(decode_payload(&encoded), Ok(text));
}

#[test]
fn decode_rejects_bad_base64() {
    assert_eq!(decode_payload("not-valid-base64!!"), Err(CodecError::InvalidBase64));
}

#[test]
fn decode_rejects_uncompressed_bytes() {
    // Valid base64 of plain text that is no gzip stream.
    let encoded = base64::Engine::encode(&base64::engine::general_purpose::STANDARD, b"garbage");
    assert_eq!(decode_payload(&encoded), Err(CodecError::InvalidStream));
}

#[test]
fn decode_rejects_truncated_stream() {
    let full = encode_payload("some arguments that compress fine");
    let raw = base64::Engine::decode(&base64::engine::general_purpose::STANDARD, &full).unwrap();
    let cut = &raw[..raw.len() / 2];
    let encoded = base64::Engine::encode(&base64::engine::general_purpose::STANDARD, cut);
    assert_eq!(decode_payload(&encoded), Err(CodecError::InvalidStream));
}

#[test]
fn decode_rejects_invalid_text() {
    // A well-formed gzip stream of bytes that are not UTF-8.
    let mut enc =
        flate2::write::GzEncoder::new(Vec::new(), flate2::Compression::default());
    std::io::Write::write_all(&mut enc, &[0xff, 0xfe, 0x00, 0x80]).unwrap();
    let raw = enc.finish().unwrap();
    let encoded = base64::Engine::encode(&base64::engine::general_purpose::STANDARD, &raw);
    assert_eq!(decode_payload(&encoded), Err(CodecError::InvalidText));
}

#[test]
fn decode_matches_external_encoding() {
    // A payload built directly with the two outside crates decodes to the
    // exact original text.
    let text = "built outside the library";
    let mut enc =
        flate2::write::GzEncoder::new(Vec::new(), flate2::Compression::default());
    std::io::Write::write_all(&mut enc, text.as_bytes()).unwrap();
    let raw = enc.finish().unwrap();
    let encoded = base64::Engine::encode(&base64::engine::general_purpose::STANDARD, &raw);
    assert_eq!(decode_payload(&encoded), Ok(String::from(text)));
}

#[test]
fn encode_compresses_and_wraps() {
    // The encoded form is base64 of a gzip stream, not the input text.
    let text = "plain text payload";
    let encoded = encode_payload(text);
    assert_ne!(encoded, text);
    let raw = base64::Engine::decode(&base64::engine::general_purpose::STANDARD, &encoded)
        .unwrap();
    // Every gzip stream starts with the two magic bytes.
    assert_eq!(&raw[..2], &[0x1f, 0x8b]);
}

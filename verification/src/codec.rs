//! Payload codec: the argument payload travels inside the URI as
//! base64-encoded, gzip-compressed UTF-8 text. Decoding runs the three
//! stages in reverse; encoding is the inverse used by senders.

use vstd::prelude::*;
use vstd::string::StringSliceAdditionalSpecFns;
use vstd::string::StrSliceExecFns;
use vstd::utf8::decode_utf8;
use vstd::utf8::valid_utf8;

verus! {

broadcast use vstd::utf8::encode_utf8_valid_utf8, vstd::utf8::encode_utf8_decode_utf8;

/// Why decoding a payload failed: one variant per codec stage.
#[derive(Debug, Clone, Copy, PartialEq, Eq)]
pub enum CodecError {
    /// The payload is not well-formed base64 text.
    InvalidBase64,
    /// The base64-decoded bytes are not a well-formed compressed stream.
    InvalidStream,
    /// The decompressed bytes are not valid UTF-8 text.
    InvalidText,
}

/// What the standard base64 engine decodes the given text to, or `None`
/// where it rejects the text.
pub uninterp spec fn b64_decoded_of(text: Seq<char>) -> Option<Seq<u8>>;

/// What gzip decompression yields on the given bytes, or `None` where the
/// bytes are not a well-formed gzip stream.
pub uninterp spec fn gunzip_of(bytes: Seq<u8>) -> Option<Seq<u8>>;

/// Relies on base64's standard engine `encode`: decoding its output with the
/// same engine yields the input bytes again.
#[verifier::external_body]
fn b64_encode(bytes: &[u8]) -> (r: String)
    ensures
        b64_decoded_of(r@) == Some(bytes@),
{
    base64::Engine::encode(&base64::engine::general_purpose::STANDARD, bytes)
}

/// Relies on base64's standard engine `decode`: it succeeds or fails, and on
/// success returns bytes, as a function of the input text alone.
#[verifier::external_body]
fn b64_decode(text: &str) -> (r: Option<Vec<u8>>)
    ensures
        r is Some <==> b64_decoded_of(text@) is Some,
        r matches Some(v) ==> b64_decoded_of(text@) == Some(v@),
{
    base64::Engine::decode(&base64::engine::general_purpose::STANDARD, text).ok()
}

/// Relies on flate2's gzip encoder: writing bytes to an in-memory sink cannot
/// fail, and gzip decompression of the compressed stream yields the input
/// bytes again.
#[verifier::external_body]
fn gzip_compress(bytes: &[u8]) -> (r: Vec<u8>)
    ensures
        gunzip_of(r@) == Some(bytes@),
{
    let mut enc = flate2::write::GzEncoder::new(Vec::new(), flate2::Compression::default());
    std::io::Write::write_all(&mut enc, bytes).expect("writing to a Vec cannot fail");
    enc.finish().expect("finishing an in-memory gzip stream cannot fail")
}

/// Relies on flate2's gzip decoder: it succeeds exactly on a well-formed
/// gzip stream, and success or failure, and the decompressed bytes, are a
/// function of the input bytes alone.
#[verifier::external_body]
fn gzip_decompress(bytes: &[u8]) -> (r: Option<Vec<u8>>)
    ensures
        r is Some <==> gunzip_of(bytes@) is Some,
        r matches Some(v) ==> gunzip_of(bytes@) == Some(v@),
{
    let mut dec = flate2::read::GzDecoder::new(bytes);
    let mut out = Vec::new();
    match std::io::Read::read_to_end(&mut dec, &mut out) {
        Ok(_) => Some(out),
        Err(_) => None,
    }
}

/// Relies on `String::from_utf8` of std: it succeeds exactly on valid UTF-8
/// bytes, decoding them to the characters they encode.
#[verifier::external_body]
fn utf8_to_string(bytes: Vec<u8>) -> (r: Option<String>)
    ensures
        r is Some <==> valid_utf8(bytes@),
        r matches Some(s) ==> s@ == decode_utf8(bytes@),
{
    String::from_utf8(bytes).ok()
}

/// What decoding an encoded payload yields: base64, then gzip, then UTF-8;
/// the first stage to reject the input names the error.
pub open spec fn decode_spec(encoded: Seq<char>) -> Result<Seq<char>, CodecError> {
    match b64_decoded_of(encoded) {
        Option::None => Err(CodecError::InvalidBase64),
        Option::Some(raw) => match gunzip_of(raw) {
            Option::None => Err(CodecError::InvalidStream),
            Option::Some(data) => if valid_utf8(data) {
                Ok(decode_utf8(data))
            } else {
                Err(CodecError::InvalidText)
            },
        },
    }
}

/// The characters of a decoded payload, with the error passed through.
pub open spec fn decoded_view(r: Result<String, CodecError>) -> Result<Seq<char>, CodecError> {
    match r {
        Ok(s) => Ok(s@),
        Err(e) => Err(e),
    }
}

/// Decodes an encoded payload into the plain argument string.
pub fn decode_payload(encoded: &str) -> (r: Result<String, CodecError>)
    ensures
        decoded_view(r) == decode_spec(encoded@),
{
    let raw = match b64_decode(encoded) {
        Some(v) => v,
        None => {
            return Err(CodecError::InvalidBase64);
        },
    };
    let data = match gzip_decompress(raw.as_slice()) {
        Some(v) => v,
        None => {
            return Err(CodecError::InvalidStream);
        },
    };
    match utf8_to_string(data) {
        Some(s) => Ok(s),
        None => Err(CodecError::InvalidText),
    }
}

/// Encodes an argument string for transport: gzip-compress its UTF-8 bytes,
/// then base64-encode the stream. Decoding the result yields the input again.
pub fn encode_payload(args: &str) -> (r: String)
    ensures
        decode_spec(r@) == Ok::<Seq<char>, CodecError>(args@),
{
    let bytes = args.as_bytes_vec();
    let packed = gzip_compress(bytes.as_slice());
    let encoded = b64_encode(packed.as_slice());
    proof {
        assert(decode_utf8(bytes@) == args@);
    }
    encoded
}

} // verus!

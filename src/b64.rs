//! Base64 encoding and decoding of whole inputs.

use vstd::prelude::*;

use crate::cli::Base64Format;
use crate::strings::{trim, trimmed};

verus! {

/// The URL-safe base64 encoding of `bytes`, without padding.
pub uninterp spec fn base64_url_encoded(bytes: Seq<u8>) -> Seq<char>;

/// The standard base64 encoding of `bytes`, with padding.
pub uninterp spec fn base64_standard_encoded(bytes: Seq<u8>) -> Seq<char>;

/// The bytes that `text` encodes in URL-safe base64 without padding, if it
/// is such an encoding.
pub uninterp spec fn base64_url_decoded(text: Seq<char>) -> Option<Seq<u8>>;

/// The bytes that `text` encodes in standard padded base64, if it is such an
/// encoding.
pub uninterp spec fn base64_standard_decoded(text: Seq<char>) -> Option<Seq<u8>>;

#[verifier::external_type_specification]
#[verifier::external_body]
pub struct ExDecodeError(base64::DecodeError);

/// Relies on `base64::Engine::encode` with `BASE64_URL_SAFE_NO_PAD`; as
/// with every RFC 4648 encoding, decoding the text gives the bytes back.
#[verifier::external_body]
pub(crate) fn encode_url_safe(bytes: &[u8]) -> (r: String)
    ensures
        r@ == base64_url_encoded(bytes@),
        base64_url_decoded(r@) == Some(bytes@),
{
    base64::Engine::encode(&base64::prelude::BASE64_URL_SAFE_NO_PAD, bytes)
}

/// Relies on `base64::Engine::encode` with `STANDARD`.
#[verifier::external_body]
fn encode_standard(bytes: &[u8]) -> (r: String)
    ensures
        r@ == base64_standard_encoded(bytes@),
{
    base64::Engine::encode(&base64::engine::general_purpose::STANDARD, bytes)
}

/// Relies on `base64::Engine::decode` with `BASE64_URL_SAFE_NO_PAD`: it
/// fails exactly on text that is no such encoding.
#[verifier::external_body]
pub(crate) fn decode_url_safe(text: &str) -> (r: Result<Vec<u8>, base64::DecodeError>)
    ensures
        match r {
            Ok(v) => base64_url_decoded(text@) == Some(v@),
            Err(_) => base64_url_decoded(text@) is None,
        },
{
    base64::Engine::decode(&base64::prelude::BASE64_URL_SAFE_NO_PAD, text.as_bytes())
}

/// Relies on `base64::Engine::decode` with `STANDARD`: it fails exactly on
/// text that is no such encoding.
#[verifier::external_body]
fn decode_standard(text: &str) -> (r: Result<Vec<u8>, base64::DecodeError>)
    ensures
        match r {
            Ok(v) => base64_standard_decoded(text@) == Some(v@),
            Err(_) => base64_standard_decoded(text@) is None,
        },
{
    base64::Engine::decode(&base64::engine::general_purpose::STANDARD, text.as_bytes())
}

/// Why base64 text could not be decoded.
#[derive(Debug, Clone, Copy, PartialEq, Eq, Structural)]
pub enum Base64Error {
    /// The text is not an encoding in the chosen alphabet.
    InvalidEncoding,
}

/// The encoding of `bytes` in the chosen alphabet.
pub open spec fn encoded(format: Base64Format, bytes: Seq<u8>) -> Seq<char> {
    match format {
        Base64Format::Standard => base64_standard_encoded(bytes),
        Base64Format::UrlSafe => base64_url_encoded(bytes),
    }
}

/// The bytes that `text` encodes in the chosen alphabet, if any.
pub open spec fn decoded(format: Base64Format, text: Seq<char>) -> Option<Seq<u8>> {
    match format {
        Base64Format::Standard => base64_standard_decoded(text),
        Base64Format::UrlSafe => base64_url_decoded(text),
    }
}

/// Encodes the whole input.
pub fn process_encode(input: &[u8], format: Base64Format) -> (r: String)
    ensures
        r@ == encoded(format, input@),
{
    match format {
        Base64Format::UrlSafe => encode_url_safe(input),
        Base64Format::Standard => encode_standard(input),
    }
}

/// Decodes the whole input, ignoring white space around it.
pub fn process_decode(input: &str, format: Base64Format) -> (r: Result<Vec<u8>, Base64Error>)
    ensures
        match decoded(format, trimmed(input@)) {
            Some(bytes) => r matches Ok(v) && v@ == bytes,
            None => r == Err::<Vec<u8>, Base64Error>(Base64Error::InvalidEncoding),
        },
{
    let text = trim(input);
    let result = match format {
        Base64Format::UrlSafe => decode_url_safe(text),
        Base64Format::Standard => decode_standard(text),
    };
    match result {
        Ok(v) => Ok(v),
        Err(_) => Err(Base64Error::InvalidEncoding),
    }
}

} // verus!

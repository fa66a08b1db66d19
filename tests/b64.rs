use rcli::b64::{process_decode, process_encode, Base64Error};
use rcli::cli::Base64Format;

#[test]
fn test_encode() {
    let input = "Cargo.toml";
    let format = Base64Format::Standard;
    process_encode(input.as_bytes(), format);
}

#[test]
fn test_decode() {
    let input = "Q2FyZ28udG9tbA";
    let format = Base64Format::UrlSafe;
    process_decode(input, format).unwrap();
}

#[test]
fn encode_exact_values() {
    assert_eq!(process_encode(b"hello", Base64Format::Standard), "aGVsbG8=");
    assert_eq!(process_encode(b"hello", Base64Format::UrlSafe), "aGVsbG8");
    assert_eq!(process_encode(&[0xfb, 0xff], Base64Format::Standard), "+/8=");
    assert_eq!(process_encode(&[0xfb, 0xff], Base64Format::UrlSafe), "-_8");
    assert_eq!(process_encode(b"", Base64Format::Standard), "");
}

#[test]
fn decode_trims_and_decodes() {
    assert_eq!(
        process_decode("  aGVsbG8=\n", Base64Format::Standard),
        Ok(b"hello".to_vec())
    );
    assert_eq!(
        process_decode("-_8\n", Base64Format::UrlSafe),
        Ok(vec![0xfb, 0xff])
    );
}

#[test]
fn decode_rejects_bad_text() {
    assert_eq!(
        process_decode("not base64!", Base64Format::Standard),
        Err(Base64Error::InvalidEncoding)
    );
    assert_eq!(
        process_decode("aGVsbG8=", Base64Format::UrlSafe),
        Err(Base64Error::InvalidEncoding)
    );
}

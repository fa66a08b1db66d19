use rcli::cli::{check_input, Base64Format, OutputFormat, TextSignFormat};
use rcli::text::TextError;

#[test]
fn test_check_input() {
    assert_eq!(check_input("-", false), Ok("-".to_string()));
    assert_eq!(check_input("*", false), Err("Input file not exists"));
    assert_eq!(
        check_input("Cargo.toml", true),
        Ok("Cargo.toml".to_string())
    );
    assert_eq!(
        check_input("nonexistent_file.txt", false),
        Err("Input file not exists")
    );
}

#[test]
fn text_sign_format_names() {
    assert_eq!(TextSignFormat::from_str("blake3"), Ok(TextSignFormat::Blake3));
    assert_eq!(TextSignFormat::from_str("ed25519"), Ok(TextSignFormat::Ed25519));
    assert_eq!(TextSignFormat::Blake3.as_str(), "blake3");
    assert_eq!(TextSignFormat::Ed25519.as_str(), "ed25519");
}

#[test]
fn text_sign_format_is_case_sensitive() {
    assert_eq!(
        TextSignFormat::from_str("BLAKE3"),
        Err(TextError::UnsupportedAlgorithm)
    );
    assert_eq!(TextSignFormat::from_str("rsa"), Err(TextError::UnsupportedAlgorithm));
    assert_eq!(TextSignFormat::from_str(""), Err(TextError::UnsupportedAlgorithm));
}

#[test]
fn base64_and_output_format_names() {
    assert_eq!(Base64Format::from_str("standard"), Ok(Base64Format::Standard));
    assert_eq!(Base64Format::from_str("urlsafe"), Ok(Base64Format::UrlSafe));
    assert_eq!(Base64Format::from_str("url"), Err("Not supported format"));
    assert_eq!(Base64Format::UrlSafe.as_str(), "urlsafe");
    assert_eq!(OutputFormat::from_str("json"), Ok(OutputFormat::Json));
    assert_eq!(OutputFormat::from_str("yaml"), Ok(OutputFormat::Yaml));
    assert_eq!(OutputFormat::from_str("toml"), Err("Not supported format"));
    assert_eq!(OutputFormat::Yaml.as_str(), "yaml");
}

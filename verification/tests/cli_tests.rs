use rcli::{Base64Format, TextSignFormat, parse_base64_format, parse_text_sign_format,
    verify_input_file};
use rcli::opts::{OutputFormat, parse_format};

#[test]
fn test_verify_input_file() {
    assert_eq!(verify_input_file("-"), Ok("-".into()));
    assert_eq!(verify_input_file("*"), Err("File does not exist"));
    // A path that exists wherever the tests run, as Cargo.toml does in a
    // checkout: the crate's own root source file.
    assert_eq!(verify_input_file("src/lib.rs"), Ok("src/lib.rs".into()));
    assert_eq!(verify_input_file("not-exist"), Err("File does not exist"));
}

#[test]
fn test_opts_verify_input_file() {
    assert_eq!(rcli::opts::verify_input_file("src/lib.rs"), Ok("src/lib.rs".into()));
    assert_eq!(rcli::opts::verify_input_file("-"), Err("Input file does not exist"));
    assert_eq!(rcli::opts::verify_input_file("not-exist"), Err("Input file does not exist"));
}

#[test]
fn test_parse_base64_format() {
    assert_eq!(parse_base64_format("standard"), Ok(Base64Format::Standard));
    assert_eq!(parse_base64_format("urlsafe"), Ok(Base64Format::UrlSafe));
    assert!(parse_base64_format("base32").is_err());
    assert!(parse_base64_format("").is_err());
}

#[test]
fn test_parse_text_sign_format() {
    assert_eq!(parse_text_sign_format("black3"), Ok(TextSignFormat::Black3));
    assert_eq!(parse_text_sign_format("ed25519"), Ok(TextSignFormat::Ed25519));
    assert!(parse_text_sign_format("rsa").is_err());
}

#[test]
fn test_parse_output_format() {
    assert_eq!(parse_format("json"), Ok(OutputFormat::Json));
    assert_eq!(parse_format("yaml"), Ok(OutputFormat::Yaml));
    assert!(parse_format("toml").is_err());
}

#[test]
fn test_format_tokens_round_trip() {
    assert_eq!(Base64Format::Standard.as_str(), "standard");
    assert_eq!(Base64Format::UrlSafe.as_str(), "urlsafe");
    assert_eq!(TextSignFormat::Black3.as_str(), "black3");
    assert_eq!(TextSignFormat::Ed25519.as_str(), "ed25519");
    assert_eq!(OutputFormat::Json.as_str(), "json");
    assert_eq!(OutputFormat::Yaml.as_str(), "yaml");
    assert_eq!("standard".parse::<Base64Format>(), Ok(Base64Format::Standard));
    assert_eq!("ed25519".parse::<TextSignFormat>(), Ok(TextSignFormat::Ed25519));
    assert_eq!("yaml".parse::<OutputFormat>(), Ok(OutputFormat::Yaml));
    assert!("".parse::<Base64Format>().is_err());
}

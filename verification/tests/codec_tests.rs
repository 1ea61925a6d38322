use base64::Engine;
use base64::engine::general_purpose::{STANDARD, URL_SAFE_NO_PAD};

use rcli::{Base64Format, ProcessError, decode, encode, process_decode, process_encode};

fn sample_inputs() -> Vec<Vec<u8>> {
    let mut inputs: Vec<Vec<u8>> = vec![
        vec![],
        vec![0],
        vec![255],
        vec![0, 0],
        vec![1, 2],
        vec![1, 2, 3],
        vec![251, 239, 190],
        vec![1, 2, 3, 4],
        vec![1, 2, 3, 4, 5],
        b"hello world".to_vec(),
        b"Many hands make light work.".to_vec(),
    ];
    let mut all: Vec<u8> = Vec::new();
    for b in 0..=255u8 {
        all.push(b);
    }
    inputs.push(all);
    inputs
}

/// Round-trip on concrete values, for each variant independently.
#[test]
fn test_round_trip_both_variants() {
    for input in sample_inputs() {
        for format in [Base64Format::Standard, Base64Format::UrlSafe] {
            let encoded = encode(&input, format);
            assert_eq!(decode(&encoded, format), Ok(input.clone()));
        }
    }
}

/// The encoder agrees with the independently written engine of the base64 crate.
#[test]
fn test_encode_matches_independent_engine() {
    for input in sample_inputs() {
        let standard = process_encode(&input, Base64Format::Standard);
        assert_eq!(standard, STANDARD.encode(&input));
        let urlsafe = process_encode(&input, Base64Format::UrlSafe);
        assert_eq!(urlsafe, URL_SAFE_NO_PAD.encode(&input));
    }
}

#[test]
fn test_decode_matches_independent_engine() {
    for input in sample_inputs() {
        let standard = STANDARD.encode(&input);
        assert_eq!(decode(standard.as_bytes(), Base64Format::Standard), Ok(input.clone()));
        let urlsafe = URL_SAFE_NO_PAD.encode(&input);
        assert_eq!(decode(urlsafe.as_bytes(), Base64Format::UrlSafe), Ok(input.clone()));
    }
}

#[test]
fn test_known_vector() {
    assert_eq!(process_encode(b"hello world", Base64Format::Standard), "aGVsbG8gd29ybGQ=");
    assert_eq!(
        decode(b"aGVsbG8gd29ybGQ=", Base64Format::Standard),
        Ok(b"hello world".to_vec())
    );
}

/// An invalid character is an `EncodingError`, not a crash.
#[test]
fn test_decode_invalid_character() {
    assert_eq!(
        decode(b"ab!d", Base64Format::Standard),
        Err(ProcessError::EncodingError)
    );
    assert_eq!(
        decode(b"a b d=", Base64Format::Standard),
        Err(ProcessError::EncodingError)
    );
    assert_eq!(
        process_decode(b"####", Base64Format::UrlSafe),
        Err(ProcessError::EncodingError)
    );
}

/// The variant used for decoding must match the one used for encoding.
#[test]
fn test_variant_mismatch_is_rejected() {
    // Standard output with padding is not URL-safe input.
    let padded = encode(b"ab", Base64Format::Standard);
    assert_eq!(decode(&padded, Base64Format::UrlSafe), Err(ProcessError::EncodingError));
    // Unpadded URL-safe output has a length the standard variant refuses.
    let unpadded = encode(b"ab", Base64Format::UrlSafe);
    assert_eq!(decode(&unpadded, Base64Format::Standard), Err(ProcessError::EncodingError));
    // The alphabets differ at the two last digits.
    let high = encode(&[251, 239], Base64Format::UrlSafe);
    assert_eq!(decode(&high, Base64Format::Standard), Err(ProcessError::EncodingError));
}

#[test]
fn test_decode_bad_padding_and_length() {
    assert_eq!(decode(b"abc", Base64Format::Standard), Err(ProcessError::EncodingError));
    assert_eq!(decode(b"a===", Base64Format::Standard), Err(ProcessError::EncodingError));
    assert_eq!(decode(b"====", Base64Format::Standard), Err(ProcessError::EncodingError));
    assert_eq!(decode(b"ab=c", Base64Format::Standard), Err(ProcessError::EncodingError));
    assert_eq!(decode(b"a", Base64Format::UrlSafe), Err(ProcessError::EncodingError));
    // Non-canonical trailing bits are refused.
    assert_eq!(decode(b"ab==", Base64Format::Standard), Err(ProcessError::EncodingError));
    assert_eq!(decode(b"ab", Base64Format::UrlSafe), Err(ProcessError::EncodingError));
}

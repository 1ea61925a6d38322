use rcli::{
    Base64Format, Black3, Ed25519Signer, Ed25519Verifier, KeyLoader, KeyMaterial, KeyRole,
    ProcessError, TextSign, TextSignFormat, TextVerify, load_key, process_encode,
    process_text_generate_key, process_text_sign, process_text_verify, sign_message,
    verify_message,
};

#[test]
fn test_black3_text_sign_verify() {
    let key = Black3::try_new(b"0123456789abcdef0123456789abcdef").unwrap();
    let data = b"hello world";
    let signature = key.sign(data.as_slice()).unwrap();
    let verify = key.verify(data.as_slice(), &signature).unwrap();
    assert!(verify);
}

/// Determinism: signing twice with identical inputs yields identical output,
/// for both scheme families.
#[test]
fn test_sign_deterministic() {
    let secret = vec![9u8; 32];
    for format in [TextSignFormat::Black3, TextSignFormat::Ed25519] {
        let km = load_key(&secret, format, KeyRole::Sign).unwrap();
        let s1 = sign_message(&km, b"determinism").unwrap();
        let s2 = sign_message(&km, b"determinism").unwrap();
        assert_eq!(s1, s2);
        let t1 = process_text_sign(b"determinism", &secret, format).unwrap();
        let t2 = process_text_sign(b"determinism", &secret, format).unwrap();
        assert_eq!(t1, t2);
    }
}

/// Soundness: a fresh signature verifies, for every scheme.
#[test]
fn test_sign_then_verify_true() {
    let msg = b"a message of no particular length";
    // Keyed hash: same secret on both sides.
    let secret = vec![42u8; 40];  // longer than 32: the prefix is used
    let km = load_key(&secret, TextSignFormat::Black3, KeyRole::Sign).unwrap();
    let sig = sign_message(&km, msg).unwrap();
    assert_eq!(sig.len(), 32);
    assert_eq!(verify_message(&km, msg, &sig), Ok(true));
    // Asymmetric: private signs, public verifies.
    let keys = process_text_generate_key(TextSignFormat::Ed25519);
    let sk = load_key(&keys[0], TextSignFormat::Ed25519, KeyRole::Sign).unwrap();
    let pk = load_key(&keys[1], TextSignFormat::Ed25519, KeyRole::Verify).unwrap();
    let sig = sign_message(&sk, msg).unwrap();
    assert_eq!(sig.len(), 64);
    assert_eq!(verify_message(&pk, msg, &sig), Ok(true));
}

/// Completeness: flipping any single byte of the signature or of the signed
/// input makes verification answer `false`, not an error.
#[test]
fn test_flipped_byte_fails_verification() {
    let msg = b"tamper with me".to_vec();
    let secret = vec![3u8; 32];
    let km = load_key(&secret, TextSignFormat::Black3, KeyRole::Sign).unwrap();
    let keys = process_text_generate_key(TextSignFormat::Ed25519);
    let sk = load_key(&keys[0], TextSignFormat::Ed25519, KeyRole::Sign).unwrap();
    let pk = load_key(&keys[1], TextSignFormat::Ed25519, KeyRole::Verify).unwrap();
    for (signer, verifier) in [(&km, &km), (&sk, &pk)] {
        let sig = sign_message(signer, &msg).unwrap();
        for i in 0..sig.len() {
            let mut bad = sig.clone();
            bad[i] ^= 0x01;
            assert_eq!(verify_message(verifier, &msg, &bad), Ok(false));
        }
        for i in 0..msg.len() {
            let mut bad_msg = msg.clone();
            bad_msg[i] ^= 0x80;
            assert_eq!(verify_message(verifier, &bad_msg, &sig), Ok(false));
        }
    }
}

/// Role enforcement: key material loaded in the verifier role must not sign.
#[test]
fn test_key_role_enforcement() {
    let keys = process_text_generate_key(TextSignFormat::Ed25519);
    let pk = load_key(&keys[1], TextSignFormat::Ed25519, KeyRole::Verify).unwrap();
    assert_eq!(sign_message(&pk, b"never"), Err(ProcessError::KeyRoleError));
    assert!(matches!(pk, KeyMaterial::Ed25519Public(_)));
}

/// Scenario A: generate a keyed-hash secret, sign, verify with the same secret.
#[test]
fn test_keyed_hash_generate_sign_verify() {
    let keys = process_text_generate_key(TextSignFormat::Black3);
    assert_eq!(keys.len(), 1);
    assert_eq!(keys[0].len(), 32);
    let sig = process_text_sign(b"hello world", &keys[0], TextSignFormat::Black3).unwrap();
    let ok = process_text_verify(
        b"hello world",
        &keys[0],
        TextSignFormat::Black3,
        sig.as_bytes(),
    );
    assert_eq!(ok, Ok(true));
}

/// Scenario B: verify under a different secret answers `false`.
#[test]
fn test_keyed_hash_wrong_secret() {
    let s1 = vec![1u8; 32];
    let s2 = vec![2u8; 32];
    let sig = process_text_sign(b"hello world", &s1, TextSignFormat::Black3).unwrap();
    let ok = process_text_verify(b"hello world", &s2, TextSignFormat::Black3, sig.as_bytes());
    assert_eq!(ok, Ok(false));
}

/// Scenario C: asymmetric generate, sign a 0-byte input, verify with the
/// matching public key.
#[test]
fn test_ed25519_empty_input() {
    let keys = process_text_generate_key(TextSignFormat::Ed25519);
    assert_eq!(keys.len(), 2);
    assert_eq!(keys[0].len(), 32);
    assert_eq!(keys[1].len(), 32);
    let sig = process_text_sign(b"", &keys[0], TextSignFormat::Ed25519).unwrap();
    let ok = process_text_verify(b"", &keys[1], TextSignFormat::Ed25519, sig.as_bytes());
    assert_eq!(ok, Ok(true));
}

/// Scenario D: a signature text with an invalid character is an
/// `EncodingError`, not a crash and not `false`.
#[test]
fn test_verify_with_invalid_signature_text() {
    let secret = vec![5u8; 32];
    let ok = process_text_verify(b"input", &secret, TextSignFormat::Black3, b"not*base64");
    assert_eq!(ok, Err(ProcessError::EncodingError));
}

/// Scenario E: a keyed-hash key blob of 10 bytes is a `KeyFormatError`.
#[test]
fn test_short_keyed_hash_key() {
    let short = vec![0u8; 10];
    assert!(matches!(
        Black3::try_new(&short),
        Err(ProcessError::KeyFormatError)
    ));
    assert!(matches!(
        load_key(&short, TextSignFormat::Black3, KeyRole::Sign),
        Err(ProcessError::KeyFormatError)
    ));
    assert_eq!(
        process_text_sign(b"x", &short, TextSignFormat::Black3),
        Err(ProcessError::KeyFormatError)
    );
}

/// The asymmetric loader requires an exact 32-byte key, in both roles.
#[test]
fn test_ed25519_key_length_is_exact() {
    let long = vec![0u8; 33];
    assert!(matches!(
        Ed25519Signer::try_new(&long),
        Err(ProcessError::KeyFormatError)
    ));
    assert!(matches!(
        Ed25519Verifier::try_new(&long),
        Err(ProcessError::KeyFormatError)
    ));
}

/// Public-key bytes that do not decode to a point are a `KeyStructureError`.
#[test]
fn test_ed25519_invalid_point() {
    let mut bad: Option<[u8; 32]> = None;
    for b in 0..=255u8 {
        let candidate = [b; 32];
        if ed25519_dalek::VerifyingKey::from_bytes(&candidate).is_err() {
            bad = Some(candidate);
            break;
        }
    }
    let bad = bad.expect("some uniform byte pattern is not a curve point");
    assert!(matches!(
        Ed25519Verifier::try_new(&bad),
        Err(ProcessError::KeyStructureError)
    ));
    assert!(matches!(
        load_key(&bad, TextSignFormat::Ed25519, KeyRole::Verify),
        Err(ProcessError::KeyStructureError)
    ));
}

/// A signature blob of the wrong length for the asymmetric scheme is a
/// `SignatureFormatError`.
#[test]
fn test_ed25519_signature_length() {
    let keys = process_text_generate_key(TextSignFormat::Ed25519);
    let pk = load_key(&keys[1], TextSignFormat::Ed25519, KeyRole::Verify).unwrap();
    let short = vec![0u8; 63];
    assert_eq!(
        verify_message(&pk, b"m", &short),
        Err(ProcessError::SignatureFormatError)
    );
    let short_text = process_encode(&short, Base64Format::UrlSafe);
    assert_eq!(
        process_text_verify(b"m", &keys[1], TextSignFormat::Ed25519, short_text.as_bytes()),
        Err(ProcessError::SignatureFormatError)
    );
}

/// The generated public key is the one the underlying scheme derives from
/// the secret key.
#[test]
fn test_generated_keypair_matches_derivation() {
    let keys = process_text_generate_key(TextSignFormat::Ed25519);
    let sk: [u8; 32] = keys[0].as_slice().try_into().unwrap();
    let derived = ed25519_dalek::SigningKey::from_bytes(&sk).verifying_key();
    assert_eq!(keys[1], derived.to_bytes().to_vec());
}

/// The keyed hash actually depends on both key and message: the tag equals
/// neither, and the trait signers agree with the engine.
#[test]
fn test_tag_depends_on_key_and_message() {
    let secret = b"0123456789abcdef0123456789abcdef";
    let black3 = Black3::load(secret.as_slice()).unwrap();
    let tag = black3.sign(secret.as_slice()).unwrap();
    assert_ne!(tag.as_slice(), secret.as_slice());
    let km = load_key(secret.as_slice(), TextSignFormat::Black3, KeyRole::Sign).unwrap();
    assert_eq!(sign_message(&km, secret.as_slice()).unwrap(), tag);
    let other = Black3::new([1u8; 32]);
    assert_ne!(other.sign(secret.as_slice()).unwrap(), tag);
}

/// The two Ed25519 holders agree: the signer can also verify its own work.
#[test]
fn test_ed25519_signer_verifies() {
    let keys = process_text_generate_key(TextSignFormat::Ed25519);
    let signer = Ed25519Signer::load(&keys[0]).unwrap();
    let sig = signer.sign(b"round and round").unwrap();
    assert_eq!(signer.verify(b"round and round", &sig), Ok(true));
    let verifier = Ed25519Verifier::load(&keys[1]).unwrap();
    assert_eq!(verifier.verify(b"round and round", &sig), Ok(true));
    assert_eq!(verifier.verify(b"round and wrong", &sig), Ok(false));
}

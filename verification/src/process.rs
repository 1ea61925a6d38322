mod b64;
mod text;

use vstd::prelude::*;

pub use b64::{
    ascii_of, b64_decode_seq, b64_encode_seq, decode, encode, lemma_b64_encode_injective,
    lemma_b64_round_trip, process_decode, process_encode,
};
pub use text::{
    Black3, Ed25519Signer, Ed25519Verifier, KeyLoader, KeyMaterial, KeyRole, TextSign, TextVerify,
    blake3_keyed_tag, ct_bytes_eq, ed25519_accepts, ed25519_pk_valid, ed25519_public_key,
    ed25519_signature, lemma_keyed_hash_rejects_altered, lemma_sign_deterministic,
    lemma_verify_sound, load_key, matching_pair, process_text_generate_key, process_text_sign,
    process_text_verify, sign_message, signed_ok, text_sign_spec, text_verify_spec,
    verify_message,
};

verus! {

/// The error taxonomy of the library. A failed verification is not an error:
/// it is the result `false`, and is kept apart from every variant below.
#[derive(Debug, Clone, Copy, PartialEq, Eq, Structural)]
pub enum ProcessError {
    /// The input or the key file could not be read.
    IoError,
    /// Key material of the wrong length for the scheme.
    KeyFormatError,
    /// Key bytes of the right length that do not form a key of the scheme.
    KeyStructureError,
    /// Key material loaded for verification was asked to sign.
    KeyRoleError,
    /// Text that is not valid base64 under the selected variant.
    EncodingError,
    /// A signature blob whose length is wrong for the scheme.
    SignatureFormatError,
}

} // verus!

use vstd::prelude::*;

use ed25519_dalek::{Signer, Verifier};

use crate::cli::{Base64Format, TextSignFormat};
use crate::process::ProcessError;
use crate::process::b64::{ascii_of, b64_decode_seq, b64_encode_seq, decode, process_encode};

verus! {

// ---------------------------------------------------------------------------
// Names for what the cryptographic primitives return. Each is a function of
// its arguments alone; no contract of this library says what the values are.
// ---------------------------------------------------------------------------
/// The 32-byte tag of blake3's keyed hash.
pub uninterp spec fn blake3_keyed_tag(key: Seq<u8>, msg: Seq<u8>) -> Seq<u8>;

/// The 64-byte Ed25519 signature of a message under a secret key.
pub uninterp spec fn ed25519_signature(sk: Seq<u8>, msg: Seq<u8>) -> Seq<u8>;

/// The public key derived from an Ed25519 secret key.
pub uninterp spec fn ed25519_public_key(sk: Seq<u8>) -> Seq<u8>;

/// Whether 32 bytes decode to a point of the Ed25519 key space.
pub uninterp spec fn ed25519_pk_valid(pk: Seq<u8>) -> bool;

/// Whether Ed25519 verification accepts a signature over a message.
pub uninterp spec fn ed25519_accepts(pk: Seq<u8>, msg: Seq<u8>, sig: Seq<u8>) -> bool;

// ---------------------------------------------------------------------------
// The trusted boundary: one wrapper per outside function.
// ---------------------------------------------------------------------------
/// Relies on blake3::keyed_hash: a 32-byte tag that is a function of the key
/// and the message alone.
#[verifier::external_body]
fn keyed_hash(key: &[u8; 32], msg: &[u8]) -> (r: Vec<u8>)
    ensures
        r@ == blake3_keyed_tag(key@, msg@),
        r@.len() == 32,
{
    blake3::keyed_hash(key, msg).as_bytes().to_vec()
}

/// Relies on ed25519_dalek::SigningKey::sign (RFC 8032): the signature is 64
/// bytes, deterministic in the secret key and the message, and verifies under
/// the public key derived from the secret key.
#[verifier::external_body]
fn ed25519_sign(sk: &[u8; 32], msg: &[u8]) -> (r: Vec<u8>)
    ensures
        r@ == ed25519_signature(sk@, msg@),
        r@.len() == 64,
        ed25519_accepts(ed25519_public_key(sk@), msg@, r@),
{
    let key = ed25519_dalek::SigningKey::from_bytes(sk);
    key.sign(msg).to_bytes().to_vec()
}

/// Relies on ed25519_dalek::SigningKey::verifying_key: the public key is a
/// function of the secret key, and its bytes decode back to a valid key.
#[verifier::external_body]
fn derive_public_key(sk: &[u8; 32]) -> (r: [u8; 32])
    ensures
        r@ == ed25519_public_key(sk@),
        ed25519_pk_valid(r@),
{
    ed25519_dalek::SigningKey::from_bytes(sk).verifying_key().to_bytes()
}

/// Relies on ed25519_dalek::VerifyingKey::from_bytes: whether the bytes
/// decompress to a curve point depends on the bytes alone.
#[verifier::external_body]
fn public_key_decodes(pk: &[u8; 32]) -> (r: bool)
    ensures
        r == ed25519_pk_valid(pk@),
{
    ed25519_dalek::VerifyingKey::from_bytes(pk).is_ok()
}

/// Relies on ed25519_dalek::VerifyingKey::verify: acceptance is a function of
/// the public key, the message and the signature alone.
#[verifier::external_body]
fn ed25519_verify(pk: &[u8; 32], msg: &[u8], sig: &[u8]) -> (r: bool)
    requires
        ed25519_pk_valid(pk@),
        sig@.len() == 64,
    ensures
        r == ed25519_accepts(pk@, msg@, sig@),
{
    match ed25519_dalek::VerifyingKey::from_bytes(pk) {
        Ok(key) => match sig.try_into() {
            Ok(bytes) => {
                let signature = ed25519_dalek::Signature::from_bytes(bytes);
                key.verify(msg, &signature).is_ok()
            },
            Err(_) => false,
        },
        Err(_) => false,
    }
}

/// Relies on rand::random to fill 32 bytes from the thread-local generator.
/// Nothing is promised of the value: it is a random draw.
#[verifier::external_body]
fn random_key_bytes() -> [u8; 32] {
    rand::random()
}

/// Relies on <[u8]>::copy_from_slice of std to copy a 32-byte slice into an
/// array of the same length.
#[verifier::external_body]
fn to_key32(b: &[u8]) -> (r: [u8; 32])
    requires
        b@.len() == 32,
    ensures
        r@ == b@,
{
    let mut out = [0u8; 32];
    out.copy_from_slice(b);
    out
}

// ---------------------------------------------------------------------------
// Helpers.
// ---------------------------------------------------------------------------
/// Equality of two byte slices without an early exit on the first difference,
/// so that the comparison time does not depend on where they differ.
pub fn ct_bytes_eq(a: &[u8], b: &[u8]) -> (r: bool)
    ensures
        r == (a@ == b@),
{
    if a.len() != b.len() {
        return false;
    }
    let n = a.len();
    let mut diff: u8 = 0;
    let mut i: usize = 0;
    while i < n
        invariant
            i <= n,
            n == a@.len(),
            n == b@.len(),
            (diff == 0) <==> (forall|k: int| 0 <= k < i ==> a@[k] == b@[k]),
        decreases n - i,
    {
        let ai = a[i];
        let bi = b[i];
        let ghost od = diff;
        diff = diff | (ai ^ bi);
        proof {
            assert(((ai ^ bi) == 0) == (ai == bi)) by (bit_vector);
            assert(((od | (ai ^ bi)) == 0) == (od == 0 && (ai ^ bi) == 0)) by (bit_vector);
        }
        i += 1;
    }
    if diff == 0 {
        proof {
            assert(a@ =~= b@);
        }
        true
    } else {
        false
    }
}

/// A 32-byte array as an owned byte vector.
fn key32_to_vec(key: &[u8; 32]) -> (r: Vec<u8>)
    ensures
        r@ == key@,
{
    let mut out: Vec<u8> = Vec::new();
    let mut i: usize = 0;
    while i < 32
        invariant
            i <= 32,
            out@.len() == i,
            forall|k: int| 0 <= k < i ==> out@[k] == key@[k],
        decreases 32 - i,
    {
        out.push(key[i]);
        i += 1;
    }
    proof {
        assert(out@ =~= key@);
    }
    out
}

// ---------------------------------------------------------------------------
// The capabilities.
// ---------------------------------------------------------------------------
/// Loads scheme-specific key material from a raw byte blob.
pub trait KeyLoader: Sized {
    /// Whether the blob is acceptable key material for this type.
    spec fn blob_ok(blob: Seq<u8>) -> bool;

    /// Relates an accepted blob to the key value it loads to.
    spec fn loads_to(blob: Seq<u8>, key: Self) -> bool;

    /// The error reported for a rejected blob.
    spec fn load_error(blob: Seq<u8>) -> ProcessError;

    fn load(blob: &[u8]) -> (r: Result<Self, ProcessError>)
        ensures
            Self::blob_ok(blob@) ==> (r matches Ok(k) && Self::loads_to(blob@, k)),
            !Self::blob_ok(blob@) ==> (r matches Err(e) && e == Self::load_error(blob@)),
    ;
}

/// Produces a signature over a byte buffer.
pub trait TextSign {
    /// Validity of the signer's own state.
    spec fn sign_wf(&self) -> bool;

    /// The signature of a message under this signer.
    spec fn signed(&self, msg: Seq<u8>) -> Seq<u8>;

    fn sign(&self, msg: &[u8]) -> (r: Result<Vec<u8>, ProcessError>)
        requires
            self.sign_wf(),
        ensures
            r matches Ok(v) && v@ == self.signed(msg@),
    ;
}

/// Validates a signature against a byte buffer.
pub trait TextVerify {
    /// Validity of the verifier's own state.
    spec fn verify_wf(&self) -> bool;

    /// Whether the signature blob has an acceptable length for the scheme.
    spec fn sig_len_ok(&self, sig: Seq<u8>) -> bool;

    /// Whether the verifier accepts the signature over the message.
    spec fn accepts(&self, msg: Seq<u8>, sig: Seq<u8>) -> bool;

    fn verify(&self, msg: &[u8], signature: &[u8]) -> (r: Result<bool, ProcessError>)
        requires
            self.verify_wf(),
        ensures
            self.sig_len_ok(signature@) ==> r == Ok::<bool, ProcessError>(
                self.accepts(msg@, signature@),
            ),
            !self.sig_len_ok(signature@) ==> r == Err::<bool, ProcessError>(
                ProcessError::SignatureFormatError,
            ),
    ;
}

// ---------------------------------------------------------------------------
// The keyed-hash scheme.
// ---------------------------------------------------------------------------
/// The keyed-hash signer and verifier: a 32-byte shared secret.
#[derive(Debug, Clone, Copy)]
pub struct Black3 {
    pub key: [u8; 32],
}

impl Black3 {
    pub fn new(key: [u8; 32]) -> (s: Self)
        ensures
            s.key == key,
    {
        Self { key }
    }

    /// Accepts any blob of at least 32 bytes and keeps its first 32.
    pub fn try_new(key: &[u8]) -> (r: Result<Self, ProcessError>)
        ensures
            key@.len() >= 32 ==> (r matches Ok(s) && s.key@ == key@.take(32)),
            key@.len() < 32 ==> r == Err::<Black3, ProcessError>(ProcessError::KeyFormatError),
    {
        if key.len() < 32 {
            return Err(ProcessError::KeyFormatError);
        }
        let mut prefix: Vec<u8> = Vec::new();
        let mut i: usize = 0;
        while i < 32
            invariant
                i <= 32,
                key@.len() >= 32,
                prefix@.len() == i,
                forall|k: int| 0 <= k < i ==> prefix@[k] == key@[k],
            decreases 32 - i,
        {
            prefix.push(key[i]);
            i += 1;
        }
        proof {
            assert(prefix@ =~= key@.take(32));
        }
        Ok(Black3::new(to_key32(prefix.as_slice())))
    }
}

impl KeyLoader for Black3 {
    open spec fn blob_ok(blob: Seq<u8>) -> bool {
        blob.len() >= 32
    }

    open spec fn loads_to(blob: Seq<u8>, key: Self) -> bool {
        key.key@ == blob.take(32)
    }

    open spec fn load_error(blob: Seq<u8>) -> ProcessError {
        ProcessError::KeyFormatError
    }

    fn load(blob: &[u8]) -> (r: Result<Self, ProcessError>) {
        Black3::try_new(blob)
    }
}

impl TextSign for Black3 {
    open spec fn sign_wf(&self) -> bool {
        true
    }

    open spec fn signed(&self, msg: Seq<u8>) -> Seq<u8> {
        blake3_keyed_tag(self.key@, msg)
    }

    fn sign(&self, msg: &[u8]) -> (r: Result<Vec<u8>, ProcessError>) {
        Ok(keyed_hash(&self.key, msg))
    }
}

impl TextVerify for Black3 {
    open spec fn verify_wf(&self) -> bool {
        true
    }

    open spec fn sig_len_ok(&self, sig: Seq<u8>) -> bool {
        true
    }

    open spec fn accepts(&self, msg: Seq<u8>, sig: Seq<u8>) -> bool {
        sig == blake3_keyed_tag(self.key@, msg)
    }

    fn verify(&self, msg: &[u8], signature: &[u8]) -> (r: Result<bool, ProcessError>) {
        let tag = keyed_hash(&self.key, msg);
        Ok(ct_bytes_eq(signature, tag.as_slice()))
    }
}

// ---------------------------------------------------------------------------
// The asymmetric scheme.
// ---------------------------------------------------------------------------
/// The Ed25519 signer: a 32-byte secret key.
#[derive(Debug, Clone, Copy)]
pub struct Ed25519Signer {
    pub key: [u8; 32],
}

impl Ed25519Signer {
    pub fn new(key: [u8; 32]) -> (s: Self)
        ensures
            s.key == key,
    {
        Self { key }
    }

    /// Accepts exactly 32 bytes; every 32-byte value is a valid secret key.
    pub fn try_new(key: &[u8]) -> (r: Result<Self, ProcessError>)
        ensures
            key@.len() == 32 ==> (r matches Ok(s) && s.key@ == key@),
            key@.len() != 32 ==> r == Err::<Ed25519Signer, ProcessError>(
                ProcessError::KeyFormatError,
            ),
    {
        if key.len() != 32 {
            return Err(ProcessError::KeyFormatError);
        }
        Ok(Ed25519Signer::new(to_key32(key)))
    }
}

impl KeyLoader for Ed25519Signer {
    open spec fn blob_ok(blob: Seq<u8>) -> bool {
        blob.len() == 32
    }

    open spec fn loads_to(blob: Seq<u8>, key: Self) -> bool {
        key.key@ == blob
    }

    open spec fn load_error(blob: Seq<u8>) -> ProcessError {
        ProcessError::KeyFormatError
    }

    fn load(blob: &[u8]) -> (r: Result<Self, ProcessError>) {
        Ed25519Signer::try_new(blob)
    }
}

impl TextSign for Ed25519Signer {
    open spec fn sign_wf(&self) -> bool {
        true
    }

    open spec fn signed(&self, msg: Seq<u8>) -> Seq<u8> {
        ed25519_signature(self.key@, msg)
    }

    fn sign(&self, msg: &[u8]) -> (r: Result<Vec<u8>, ProcessError>) {
        Ok(ed25519_sign(&self.key, msg))
    }
}

impl TextVerify for Ed25519Signer {
    open spec fn verify_wf(&self) -> bool {
        true
    }

    open spec fn sig_len_ok(&self, sig: Seq<u8>) -> bool {
        sig.len() == 64
    }

    open spec fn accepts(&self, msg: Seq<u8>, sig: Seq<u8>) -> bool {
        ed25519_accepts(ed25519_public_key(self.key@), msg, sig)
    }

    fn verify(&self, msg: &[u8], signature: &[u8]) -> (r: Result<bool, ProcessError>) {
        if signature.len() != 64 {
            return Err(ProcessError::SignatureFormatError);
        }
        let pk = derive_public_key(&self.key);
        Ok(ed25519_verify(&pk, msg, signature))
    }
}

/// The Ed25519 verifier: a 32-byte public key that decodes to a valid point.
#[derive(Debug, Clone, Copy)]
pub struct Ed25519Verifier {
    pub key: [u8; 32],
}

impl Ed25519Verifier {
    /// Validity of the held bytes as a public key.
    pub open spec fn wf(&self) -> bool {
        ed25519_pk_valid(self.key@)
    }

    pub fn new(key: [u8; 32]) -> (v: Self)
        ensures
            v.key == key,
    {
        Self { key }
    }

    /// Accepts exactly 32 bytes that decode to a point of the key space.
    pub fn try_new(key: &[u8]) -> (r: Result<Self, ProcessError>)
        ensures
            key@.len() == 32 && ed25519_pk_valid(key@) ==> (r matches Ok(v) && v.key@ == key@),
            key@.len() != 32 ==> r == Err::<Ed25519Verifier, ProcessError>(
                ProcessError::KeyFormatError,
            ),
            key@.len() == 32 && !ed25519_pk_valid(key@) ==> r == Err::<
                Ed25519Verifier,
                ProcessError,
            >(ProcessError::KeyStructureError),
    {
        if key.len() != 32 {
            return Err(ProcessError::KeyFormatError);
        }
        let k = to_key32(key);
        if !public_key_decodes(&k) {
            return Err(ProcessError::KeyStructureError);
        }
        Ok(Ed25519Verifier::new(k))
    }
}

impl KeyLoader for Ed25519Verifier {
    open spec fn blob_ok(blob: Seq<u8>) -> bool {
        blob.len() == 32 && ed25519_pk_valid(blob)
    }

    open spec fn loads_to(blob: Seq<u8>, key: Self) -> bool {
        key.key@ == blob
    }

    open spec fn load_error(blob: Seq<u8>) -> ProcessError {
        if blob.len() != 32 {
            ProcessError::KeyFormatError
        } else {
            ProcessError::KeyStructureError
        }
    }

    fn load(blob: &[u8]) -> (r: Result<Self, ProcessError>) {
        Ed25519Verifier::try_new(blob)
    }
}

impl TextVerify for Ed25519Verifier {
    open spec fn verify_wf(&self) -> bool {
        self.wf()
    }

    open spec fn sig_len_ok(&self, sig: Seq<u8>) -> bool {
        sig.len() == 64
    }

    open spec fn accepts(&self, msg: Seq<u8>, sig: Seq<u8>) -> bool {
        ed25519_accepts(self.key@, msg, sig)
    }

    fn verify(&self, msg: &[u8], signature: &[u8]) -> (r: Result<bool, ProcessError>) {
        if signature.len() != 64 {
            return Err(ProcessError::SignatureFormatError);
        }
        Ok(ed25519_verify(&self.key, msg, signature))
    }
}

// ---------------------------------------------------------------------------
// Scheme-tagged key material and the engine.
// ---------------------------------------------------------------------------
/// Whether key material is loaded for signing or for verification.
#[derive(Debug, Clone, Copy, PartialEq, Eq, Structural)]
pub enum KeyRole {
    Sign,
    Verify,
}

/// Scheme-tagged key material: the key bytes with their scheme and role.
#[derive(Debug, Clone, Copy)]
pub enum KeyMaterial {
    Black3Secret(Black3),
    Ed25519Private(Ed25519Signer),
    Ed25519Public(Ed25519Verifier),
}

impl KeyMaterial {
    /// Validity of the held key bytes.
    pub open spec fn wf(&self) -> bool {
        match self {
            KeyMaterial::Ed25519Public(v) => v.wf(),
            _ => true,
        }
    }

    /// Whether this material may sign: public keys may not.
    pub open spec fn can_sign(&self) -> bool {
        !(self is Ed25519Public)
    }

    /// The outcome of verifying `sig` over `msg` under this material.
    pub open spec fn verify_result(&self, msg: Seq<u8>, sig: Seq<u8>) -> Result<
        bool,
        ProcessError,
    > {
        match self {
            KeyMaterial::Black3Secret(s) => Ok(sig == blake3_keyed_tag(s.key@, msg)),
            KeyMaterial::Ed25519Private(s) => if sig.len() != 64 {
                Err(ProcessError::SignatureFormatError)
            } else {
                Ok(ed25519_accepts(ed25519_public_key(s.key@), msg, sig))
            },
            KeyMaterial::Ed25519Public(v) => if sig.len() != 64 {
                Err(ProcessError::SignatureFormatError)
            } else {
                Ok(ed25519_accepts(v.key@, msg, sig))
            },
        }
    }
}

/// All that is known of a signature fresh from `sign_message`: its value
/// under the scheme's name, and for the asymmetric scheme that it is 64 bytes
/// and verifies under the derived public key.
pub open spec fn signed_ok(key: KeyMaterial, msg: Seq<u8>, sig: Seq<u8>) -> bool {
    match key {
        KeyMaterial::Black3Secret(s) => sig == blake3_keyed_tag(s.key@, msg),
        KeyMaterial::Ed25519Private(s) => sig == ed25519_signature(s.key@, msg) && sig.len() == 64
            && ed25519_accepts(ed25519_public_key(s.key@), msg, sig),
        KeyMaterial::Ed25519Public(_) => false,
    }
}

/// The verification key that matches signing material: the same secret for
/// the keyed hash, the derived public key for the asymmetric scheme.
pub open spec fn matching_pair(sk: KeyMaterial, vk: KeyMaterial) -> bool {
    match (sk, vk) {
        (KeyMaterial::Black3Secret(a), KeyMaterial::Black3Secret(b)) => a.key@ == b.key@,
        (KeyMaterial::Ed25519Private(a), KeyMaterial::Ed25519Public(b)) => b.key@
            == ed25519_public_key(a.key@),
        _ => false,
    }
}

/// Loads key material for one scheme and role from a raw blob.
pub fn load_key(blob: &[u8], format: TextSignFormat, role: KeyRole) -> (r: Result<
    KeyMaterial,
    ProcessError,
>)
    ensures
        format is Black3 && blob@.len() >= 32 ==> (r matches Ok(k) && k matches
            KeyMaterial::Black3Secret(s) && s.key@ == blob@.take(32)),
        format is Black3 && blob@.len() < 32 ==> r == Err::<KeyMaterial, ProcessError>(
            ProcessError::KeyFormatError,
        ),
        format is Ed25519 && blob@.len() != 32 ==> r == Err::<KeyMaterial, ProcessError>(
            ProcessError::KeyFormatError,
        ),
        format is Ed25519 && role is Sign && blob@.len() == 32 ==> (r matches Ok(k) && k matches
            KeyMaterial::Ed25519Private(s) && s.key@ == blob@),
        format is Ed25519 && role is Verify && blob@.len() == 32 && ed25519_pk_valid(blob@) ==> (
        r matches Ok(k) && k matches KeyMaterial::Ed25519Public(v) && v.key@ == blob@),
        format is Ed25519 && role is Verify && blob@.len() == 32 && !ed25519_pk_valid(blob@)
            ==> r == Err::<KeyMaterial, ProcessError>(ProcessError::KeyStructureError),
        r matches Ok(k) ==> k.wf(),
        role is Sign ==> (r matches Ok(k) ==> k.can_sign()),
{
    match format {
        TextSignFormat::Black3 => match Black3::load(blob) {
            Ok(s) => Ok(KeyMaterial::Black3Secret(s)),
            Err(e) => Err(e),
        },
        TextSignFormat::Ed25519 => match role {
            KeyRole::Sign => match Ed25519Signer::load(blob) {
                Ok(s) => Ok(KeyMaterial::Ed25519Private(s)),
                Err(e) => Err(e),
            },
            KeyRole::Verify => match Ed25519Verifier::load(blob) {
                Ok(v) => Ok(KeyMaterial::Ed25519Public(v)),
                Err(e) => Err(e),
            },
        },
    }
}

/// Signs a message under loaded key material. Material loaded for
/// verification never signs: it is refused with `KeyRoleError`.
pub fn sign_message(key: &KeyMaterial, msg: &[u8]) -> (r: Result<Vec<u8>, ProcessError>)
    ensures
        key.can_sign() ==> (r matches Ok(v) && signed_ok(*key, msg@, v@)),
        !key.can_sign() ==> r == Err::<Vec<u8>, ProcessError>(ProcessError::KeyRoleError),
{
    match key {
        KeyMaterial::Black3Secret(s) => Ok(keyed_hash(&s.key, msg)),
        KeyMaterial::Ed25519Private(s) => Ok(ed25519_sign(&s.key, msg)),
        KeyMaterial::Ed25519Public(_) => Err(ProcessError::KeyRoleError),
    }
}

/// Verifies a signature over a message under loaded key material.
pub fn verify_message(key: &KeyMaterial, msg: &[u8], signature: &[u8]) -> (r: Result<
    bool,
    ProcessError,
>)
    requires
        key.wf(),
    ensures
        r == key.verify_result(msg@, signature@),
{
    match key {
        KeyMaterial::Black3Secret(s) => s.verify(msg, signature),
        KeyMaterial::Ed25519Private(s) => s.verify(msg, signature),
        KeyMaterial::Ed25519Public(v) => v.verify(msg, signature),
    }
}

// ---------------------------------------------------------------------------
// Laws.
// ---------------------------------------------------------------------------
/// Determinism: any two signatures that the contract of `sign_message` admits
/// for the same key material and message are equal.
pub proof fn lemma_sign_deterministic(key: KeyMaterial, msg: Seq<u8>, s1: Seq<u8>, s2: Seq<u8>)
    requires
        key.can_sign(),
        signed_ok(key, msg, s1),
        signed_ok(key, msg, s2),
    ensures
        s1 == s2,
{
}

/// Soundness: a signature that the contract of `sign_message` admits is
/// accepted by `verify_message` under the matching verification key.
pub proof fn lemma_verify_sound(sk: KeyMaterial, vk: KeyMaterial, msg: Seq<u8>, sig: Seq<u8>)
    requires
        matching_pair(sk, vk),
        signed_ok(sk, msg, sig),
    ensures
        vk.verify_result(msg, sig) == Ok::<bool, ProcessError>(true),
{
}

/// The keyed-hash verifier answers `false`, not an error, for any blob that
/// differs from the true tag at even one position.
pub proof fn lemma_keyed_hash_rejects_altered(
    key: Black3,
    msg: Seq<u8>,
    sig: Seq<u8>,
    other: Seq<u8>,
    i: int,
)
    requires
        sig == blake3_keyed_tag(key.key@, msg),
        other.len() == sig.len(),
        0 <= i < sig.len(),
        other[i] != sig[i],
    ensures
        KeyMaterial::Black3Secret(key).verify_result(msg, other) == Ok::<bool, ProcessError>(
            false,
        ),
{
    assert(other != sig);
}

// ---------------------------------------------------------------------------
// The orchestrating entry points.
// ---------------------------------------------------------------------------
/// The outcome of `process_text_sign`, as text.
pub open spec fn text_sign_spec(msg: Seq<u8>, key: Seq<u8>, format: TextSignFormat) -> Result<
    Seq<char>,
    ProcessError,
> {
    match format {
        TextSignFormat::Black3 => if key.len() < 32 {
            Err(ProcessError::KeyFormatError)
        } else {
            Ok(
                ascii_of(
                    b64_encode_seq(blake3_keyed_tag(key.take(32), msg), Base64Format::UrlSafe),
                ),
            )
        },
        TextSignFormat::Ed25519 => if key.len() != 32 {
            Err(ProcessError::KeyFormatError)
        } else {
            Ok(ascii_of(b64_encode_seq(ed25519_signature(key, msg), Base64Format::UrlSafe)))
        },
    }
}

/// Signs a message read in full, under a key blob, and encodes the signature
/// as URL-safe base64 without padding.
pub fn process_text_sign(input: &[u8], key: &[u8], format: TextSignFormat) -> (r: Result<
    String,
    ProcessError,
>)
    ensures
        text_sign_spec(input@, key@, format) matches Ok(s) ==> (r matches Ok(t) && t@ == s),
        text_sign_spec(input@, key@, format) matches Err(e) ==> r == Err::<String, ProcessError>(
            e,
        ),
{
    let km = match load_key(key, format, KeyRole::Sign) {
        Ok(km) => km,
        Err(e) => {
            return Err(e);
        },
    };
    let sig = match sign_message(&km, input) {
        Ok(v) => v,
        Err(e) => {
            return Err(e);
        },
    };
    Ok(process_encode(sig.as_slice(), Base64Format::UrlSafe))
}

/// The outcome of `process_text_verify`.
pub open spec fn text_verify_spec(
    msg: Seq<u8>,
    key: Seq<u8>,
    format: TextSignFormat,
    sig_text: Seq<u8>,
) -> Result<bool, ProcessError> {
    match b64_decode_seq(sig_text, Base64Format::UrlSafe) {
        None => Err(ProcessError::EncodingError),
        Some(sig) => match format {
            TextSignFormat::Black3 => if key.len() < 32 {
                Err(ProcessError::KeyFormatError)
            } else {
                Ok(sig == blake3_keyed_tag(key.take(32), msg))
            },
            TextSignFormat::Ed25519 => if key.len() != 32 {
                Err(ProcessError::KeyFormatError)
            } else if !ed25519_pk_valid(key) {
                Err(ProcessError::KeyStructureError)
            } else if sig.len() != 64 {
                Err(ProcessError::SignatureFormatError)
            } else {
                Ok(ed25519_accepts(key, msg, sig))
            },
        },
    }
}

/// Decodes the signature text, loads the key blob in the verifier role, and
/// verifies. A wrong signature is the answer `false`, not an error.
pub fn process_text_verify(
    input: &[u8],
    key: &[u8],
    format: TextSignFormat,
    signature: &[u8],
) -> (r: Result<bool, ProcessError>)
    ensures
        r == text_verify_spec(input@, key@, format, signature@),
{
    let sig = match decode(signature, Base64Format::UrlSafe) {
        Ok(v) => v,
        Err(_) => {
            return Err(ProcessError::EncodingError);
        },
    };
    let km = match load_key(key, format, KeyRole::Verify) {
        Ok(k) => k,
        Err(e) => {
            return Err(e);
        },
    };
    verify_message(&km, input, sig.as_slice())
}

/// Generates fresh key material: one 32-byte secret for the keyed hash, or a
/// secret key followed by its public key for the asymmetric scheme. The
/// caller persists the blobs; nothing is written here.
pub fn process_text_generate_key(format: TextSignFormat) -> (r: Vec<Vec<u8>>)
    ensures
        format is Black3 ==> r@.len() == 1 && r@[0]@.len() == 32,
        format is Ed25519 ==> r@.len() == 2 && r@[0]@.len() == 32 && r@[1]@ == ed25519_public_key(
            r@[0]@,
        ) && ed25519_pk_valid(r@[1]@),
{
    match format {
        TextSignFormat::Black3 => {
            let key = random_key_bytes();
            let mut out: Vec<Vec<u8>> = Vec::new();
            out.push(key32_to_vec(&key));
            out
        },
        TextSignFormat::Ed25519 => {
            let sk = random_key_bytes();
            let pk = derive_public_key(&sk);
            let mut out: Vec<Vec<u8>> = Vec::new();
            out.push(key32_to_vec(&sk));
            out.push(key32_to_vec(&pk));
            out
        },
    }
}

} // verus!

//! Signing and verifying byte messages.

use vstd::prelude::*;
use vstd::slice::slice_to_vec;

use crate::b64::{base64_url_decoded, base64_url_encoded, decode_url_safe, encode_url_safe};
use crate::cli::TextSignFormat;
use crate::crypto::{
    blake3_keyed_hash, ed25519_accepts, ed25519_check_public, ed25519_derive_public,
    ed25519_public_key, ed25519_random_secret, ed25519_sign, ed25519_signature,
    ed25519_valid_public_key, ed25519_verify, hasher_finalize, hasher_input, hasher_key,
    hasher_update, keyed_hasher,
};
use crate::gen_pass::{generate_password_bytes, PasswordClasses};

verus! {

/// Length in bytes of every key this library accepts.
pub const KEY_LEN: usize = 32;

/// Length in bytes of an Ed25519 signature.
pub const SIGNATURE_LEN: usize = 64;

/// Why a signing or verifying operation could not be carried out.
#[derive(Debug, Clone, Copy, PartialEq, Eq, Structural)]
pub enum TextError {
    /// The key material does not have the length the algorithm requires.
    InvalidKeyLength,
    /// The key material has the right length but is not a valid key.
    InvalidKeyEncoding,
    /// The signature does not have the length the algorithm produces.
    InvalidSignatureLength,
    /// The signature text is not valid URL-safe unpadded base64.
    InvalidSignatureEncoding,
    /// The algorithm name is not one this library knows.
    UnsupportedAlgorithm,
}

/// Copies a slice of exactly `N` bytes into an array.
fn to_array<const N: usize>(bytes: &[u8]) -> (r: [u8; N])
    requires
        bytes@.len() == N,
    ensures
        r@ == bytes@,
{
    let mut r: [u8; N] = [0u8; N];
    let mut i: usize = 0;
    while i < N
        invariant
            bytes@.len() == N,
            r@.len() == N,
            i <= N,
            forall|j: int| 0 <= j < i ==> r@[j] == bytes@[j],
        decreases N - i,
    {
        r[i] = bytes[i];
        i = i + 1;
    }
    assert(r@ =~= bytes@);
    r
}

/// A keyed-hash digest in progress: the message is taken in chunks and
/// never held in memory as a whole.
pub struct KeyedDigest {
    hasher: blake3::Hasher,
}

impl KeyedDigest {
    /// The key the digest is computed under.
    pub closed spec fn key(&self) -> Seq<u8> {
        hasher_key(self.hasher)
    }

    /// The bytes taken so far, in order.
    pub closed spec fn consumed(&self) -> Seq<u8> {
        hasher_input(self.hasher)
    }

    /// Appends a chunk of the message.
    pub fn update(&mut self, chunk: &[u8])
        ensures
            final(self).key() == old(self).key(),
            final(self).consumed() == old(self).consumed() + chunk@,
    {
        hasher_update(&mut self.hasher, chunk);
    }

    /// The keyed hash of everything taken so far.
    pub fn finalize(&self) -> (r: Vec<u8>)
        ensures
            r@ == blake3_keyed_hash(self.key(), self.consumed())@,
    {
        let digest = hasher_finalize(&self.hasher);
        slice_to_vec(digest.as_slice())
    }
}

/// Signs and verifies with the BLAKE3 keyed hash; the signature is the
/// 32-byte digest.
pub struct Blake3 {
    key: [u8; 32],
}

impl View for Blake3 {
    type V = Seq<u8>;

    closed spec fn view(&self) -> Seq<u8> {
        self.key@
    }
}

impl Blake3 {
    /// Uses the 32-byte key as it is.
    pub fn new(key: [u8; 32]) -> (r: Self)
        ensures
            r@ == key@,
    {
        Blake3 { key }
    }

    /// Takes the key from a buffer, which must hold exactly 32 bytes.
    pub fn try_new(key: &[u8]) -> (r: Result<Self, TextError>)
        ensures
            key@.len() == KEY_LEN ==> (r matches Ok(b) && b@ == key@),
            key@.len() != KEY_LEN ==> r == Err::<Self, TextError>(TextError::InvalidKeyLength),
    {
        if key.len() != KEY_LEN {
            return Err(TextError::InvalidKeyLength);
        }
        Ok(Blake3 { key: to_array(key) })
    }

    /// Starts a digest under this key, for a message taken in chunks.
    pub fn digest(&self) -> (r: KeyedDigest)
        ensures
            r.key() == self@,
            r.consumed() == Seq::<u8>::empty(),
    {
        KeyedDigest { hasher: keyed_hasher(&self.key) }
    }
}

/// Something that signs whole messages.
pub trait TextSigner {
    /// The signature of `message`.
    spec fn signature_of(&self, message: Seq<u8>) -> Seq<u8>;

    fn sign(&self, message: &[u8]) -> (r: Vec<u8>)
        ensures
            r@ == self.signature_of(message@),
    ;
}

/// Something that checks signatures of whole messages.
pub trait TextVerifier {
    /// The outcome of checking `signature` against `message`: whether it is
    /// valid, or why the signature could not be checked at all.
    spec fn verdict(&self, message: Seq<u8>, signature: Seq<u8>) -> Result<bool, TextError>;

    fn verify(&self, message: &[u8], signature: &[u8]) -> (r: Result<bool, TextError>)
        ensures
            r == self.verdict(message@, signature@),
    ;
}

impl TextSigner for Blake3 {
    open spec fn signature_of(&self, message: Seq<u8>) -> Seq<u8> {
        blake3_keyed_hash(self@, message)@
    }

    fn sign(&self, message: &[u8]) -> (r: Vec<u8>) {
        let mut digest = self.digest();
        digest.update(message);
        digest.finalize()
    }
}

impl TextVerifier for Blake3 {
    /// A signature of another length is simply not equal to the digest.
    open spec fn verdict(&self, message: Seq<u8>, signature: Seq<u8>) -> Result<bool, TextError> {
        Ok(blake3_keyed_hash(self@, message)@ == signature)
    }

    fn verify(&self, message: &[u8], signature: &[u8]) -> (r: Result<bool, TextError>) {
        let digest = self.sign(message);
        Ok(bytes_equal(&digest, signature))
    }
}

/// Whether two byte strings are equal, compared in full.
pub fn bytes_equal(a: &[u8], b: &[u8]) -> (r: bool)
    ensures
        r == (a@ == b@),
{
    if a.len() != b.len() {
        return false;
    }
    let mut i: usize = 0;
    while i < a.len()
        invariant
            a@.len() == b@.len(),
            i <= a@.len(),
            a@.subrange(0, i as int) == b@.subrange(0, i as int),
        decreases a@.len() - i,
    {
        if a[i] != b[i] {
            assert(a@[i as int] != b@[i as int]);
            return false;
        }
        assert(a@.subrange(0, i + 1) =~= a@.subrange(0, i as int).push(a@[i as int]));
        assert(b@.subrange(0, i + 1) =~= b@.subrange(0, i as int).push(b@[i as int]));
        i = i + 1;
    }
    assert(a@ =~= a@.subrange(0, a@.len() as int));
    assert(b@ =~= b@.subrange(0, b@.len() as int));
    true
}

/// Signs with an Ed25519 secret key.
pub struct Ed25519Signer {
    key: [u8; 32],
}

impl View for Ed25519Signer {
    type V = Seq<u8>;

    /// The secret key.
    closed spec fn view(&self) -> Seq<u8> {
        self.key@
    }
}

impl Ed25519Signer {
    /// Uses the 32-byte secret key as it is; every such key is valid.
    pub fn new(key: [u8; 32]) -> (r: Self)
        ensures
            r@ == key@,
    {
        Ed25519Signer { key }
    }

    /// Takes the secret key from a buffer, which must hold exactly 32 bytes.
    pub fn try_new(key: &[u8]) -> (r: Result<Self, TextError>)
        ensures
            key@.len() == KEY_LEN ==> (r matches Ok(s) && s@ == key@),
            key@.len() != KEY_LEN ==> r == Err::<Self, TextError>(TextError::InvalidKeyLength),
    {
        if key.len() != KEY_LEN {
            return Err(TextError::InvalidKeyLength);
        }
        Ok(Ed25519Signer { key: to_array(key) })
    }

    /// The public key that belongs to this secret key.
    pub fn public_key(&self) -> (r: Vec<u8>)
        ensures
            r@ == ed25519_public_key(self@)@,
            ed25519_valid_public_key(r@),
    {
        let public = ed25519_derive_public(&self.key);
        slice_to_vec(public.as_slice())
    }

    /// The secret key's bytes.
    pub fn secret_key(&self) -> (r: Vec<u8>)
        ensures
            r@ == self@,
            r@.len() == KEY_LEN,
    {
        slice_to_vec(self.key.as_slice())
    }
}

impl TextSigner for Ed25519Signer {
    open spec fn signature_of(&self, message: Seq<u8>) -> Seq<u8> {
        ed25519_signature(self@, message)@
    }

    fn sign(&self, message: &[u8]) -> (r: Vec<u8>)
        ensures
            ed25519_accepts(ed25519_public_key(self@)@, message@, r@),
    {
        let signature = ed25519_sign(&self.key, message);
        slice_to_vec(signature.as_slice())
    }
}

/// Checks signatures with an Ed25519 public key.
pub struct Ed25519Verifier {
    key: [u8; 32],
}

impl View for Ed25519Verifier {
    type V = Seq<u8>;

    /// The public key.
    closed spec fn view(&self) -> Seq<u8> {
        self.key@
    }
}

impl Ed25519Verifier {
    #[verifier::type_invariant]
    spec fn decodes(&self) -> bool {
        ed25519_valid_public_key(self.key@)
    }

    /// Takes the public key from a buffer, which must hold exactly 32 bytes
    /// that decode as a public key.
    pub fn try_new(key: &[u8]) -> (r: Result<Self, TextError>)
        ensures
            key@.len() != KEY_LEN ==> r == Err::<Self, TextError>(TextError::InvalidKeyLength),
            key@.len() == KEY_LEN && !ed25519_valid_public_key(key@) ==> r == Err::<
                Self,
                TextError,
            >(TextError::InvalidKeyEncoding),
            key@.len() == KEY_LEN && ed25519_valid_public_key(key@) ==> (r matches Ok(v) && v@
                == key@),
    {
        if key.len() != KEY_LEN {
            return Err(TextError::InvalidKeyLength);
        }
        let bytes: [u8; 32] = to_array(key);
        if !ed25519_check_public(&bytes) {
            return Err(TextError::InvalidKeyEncoding);
        }
        Ok(Ed25519Verifier { key: bytes })
    }
}

impl TextVerifier for Ed25519Verifier {
    /// A signature that is not 64 bytes long cannot be checked.
    open spec fn verdict(&self, message: Seq<u8>, signature: Seq<u8>) -> Result<bool, TextError> {
        if signature.len() != SIGNATURE_LEN {
            Err(TextError::InvalidSignatureLength)
        } else {
            Ok(ed25519_accepts(self@, message, signature))
        }
    }

    fn verify(&self, message: &[u8], signature: &[u8]) -> (r: Result<bool, TextError>) {
        if signature.len() != SIGNATURE_LEN {
            return Err(TextError::InvalidSignatureLength);
        }
        let sig: [u8; 64] = to_array(signature);
        proof {
            use_type_invariant(self);
        }
        Ok(ed25519_verify(&self.key, message, &sig))
    }
}

/// The raw signature of `message` under `key` with the given algorithm.
pub open spec fn signature_spec(format: TextSignFormat, key: Seq<u8>, message: Seq<u8>) -> Seq<u8> {
    match format {
        TextSignFormat::Blake3 => blake3_keyed_hash(key, message)@,
        TextSignFormat::Ed25519 => ed25519_signature(key, message)@,
    }
}

/// The key that checks signatures made with the signing key `key`: the same
/// key for the keyed hash, the derived public key for Ed25519.
pub open spec fn matching_verifying_key(format: TextSignFormat, key: Seq<u8>) -> Seq<u8> {
    match format {
        TextSignFormat::Blake3 => key,
        TextSignFormat::Ed25519 => ed25519_public_key(key)@,
    }
}

/// Why `key` cannot be used to sign, if it cannot.
pub open spec fn signing_key_error(key: Seq<u8>) -> Option<TextError> {
    if key.len() != KEY_LEN {
        Some(TextError::InvalidKeyLength)
    } else {
        None
    }
}

/// Why `key` cannot be used to verify with the algorithm, if it cannot.
pub open spec fn verifying_key_error(format: TextSignFormat, key: Seq<u8>) -> Option<TextError> {
    if key.len() != KEY_LEN {
        Some(TextError::InvalidKeyLength)
    } else if format == TextSignFormat::Ed25519 && !ed25519_valid_public_key(key) {
        Some(TextError::InvalidKeyEncoding)
    } else {
        None
    }
}

/// The outcome of checking the raw `signature` of `message` under a usable
/// verifying key: a keyed-hash signature of another length is simply not
/// equal, an Ed25519 signature of another length cannot be checked.
pub open spec fn verdict_spec(
    format: TextSignFormat,
    key: Seq<u8>,
    message: Seq<u8>,
    signature: Seq<u8>,
) -> Result<bool, TextError> {
    match format {
        TextSignFormat::Blake3 => Ok(blake3_keyed_hash(key, message)@ == signature),
        TextSignFormat::Ed25519 => if signature.len() != SIGNATURE_LEN {
            Err(TextError::InvalidSignatureLength)
        } else {
            Ok(ed25519_accepts(key, message, signature))
        },
    }
}

/// The outcome of `process_verify`: the signature text is decoded first,
/// then the key is checked, then the signature.
pub open spec fn verify_outcome(
    format: TextSignFormat,
    message: Seq<u8>,
    key: Seq<u8>,
    signature_text: Seq<char>,
) -> Result<bool, TextError> {
    match base64_url_decoded(signature_text) {
        None => Err(TextError::InvalidSignatureEncoding),
        Some(signature) => match verifying_key_error(format, key) {
            Some(e) => Err(e),
            None => verdict_spec(format, key, message, signature),
        },
    }
}

/// A signing operation whose message arrives in chunks: the keyed hash takes
/// each chunk as it comes, Ed25519 keeps the whole message until the end.
pub enum SignSession {
    Keyed(KeyedDigest),
    Buffered(Ed25519Signer, Vec<u8>),
}

impl SignSession {
    pub closed spec fn format(&self) -> TextSignFormat {
        match self {
            SignSession::Keyed(_) => TextSignFormat::Blake3,
            SignSession::Buffered(_, _) => TextSignFormat::Ed25519,
        }
    }

    pub closed spec fn key(&self) -> Seq<u8> {
        match self {
            SignSession::Keyed(d) => d.key(),
            SignSession::Buffered(s, _) => s@,
        }
    }

    /// The message taken so far.
    pub closed spec fn consumed(&self) -> Seq<u8> {
        match self {
            SignSession::Keyed(d) => d.consumed(),
            SignSession::Buffered(_, m) => m@,
        }
    }

    /// Starts signing with `key`, which must hold exactly 32 bytes.
    pub fn start(key: &[u8], format: TextSignFormat) -> (r: Result<Self, TextError>)
        ensures
            signing_key_error(key@) is None ==> (r matches Ok(s) && s.format() == format && s.key()
                == key@ && s.consumed() == Seq::<u8>::empty()),
            signing_key_error(key@) matches Some(e) ==> r == Err::<Self, TextError>(e),
    {
        match format {
            TextSignFormat::Blake3 => {
                let signer = Blake3::try_new(key)?;
                Ok(SignSession::Keyed(signer.digest()))
            },
            TextSignFormat::Ed25519 => {
                let signer = Ed25519Signer::try_new(key)?;
                Ok(SignSession::Buffered(signer, Vec::new()))
            },
        }
    }

    /// Takes the next chunk of the message.
    pub fn feed(&mut self, chunk: &[u8])
        ensures
            final(self).format() == old(self).format(),
            final(self).key() == old(self).key(),
            final(self).consumed() == old(self).consumed() + chunk@,
    {
        match self {
            SignSession::Keyed(digest) => digest.update(chunk),
            SignSession::Buffered(_, message) => message.extend_from_slice(chunk),
        }
    }

    /// The raw signature of the message taken; the matching verifying key
    /// accepts it.
    pub fn signature(&self) -> (r: Vec<u8>)
        ensures
            r@ == signature_spec(self.format(), self.key(), self.consumed()),
            verdict_spec(
                self.format(),
                matching_verifying_key(self.format(), self.key()),
                self.consumed(),
                r@,
            ) == Ok::<bool, TextError>(true),
    {
        match self {
            SignSession::Keyed(digest) => digest.finalize(),
            SignSession::Buffered(signer, message) => signer.sign(message.as_slice()),
        }
    }

    /// The signature of the message taken, as URL-safe unpadded base64.
    pub fn finish(&self) -> (r: String)
        ensures
            r@ == base64_url_encoded(signature_spec(self.format(), self.key(), self.consumed())),
            base64_url_decoded(r@) == Some(signature_spec(self.format(), self.key(), self.consumed())),
            verdict_spec(
                self.format(),
                matching_verifying_key(self.format(), self.key()),
                self.consumed(),
                signature_spec(self.format(), self.key(), self.consumed()),
            ) == Ok::<bool, TextError>(true),
    {
        let signature = self.signature();
        encode_url_safe(signature.as_slice())
    }
}

/// A verifying operation whose message arrives in chunks, as for
/// [`SignSession`].
pub enum VerifySession {
    Keyed(KeyedDigest),
    Buffered(Ed25519Verifier, Vec<u8>),
}

impl VerifySession {
    pub closed spec fn format(&self) -> TextSignFormat {
        match self {
            VerifySession::Keyed(_) => TextSignFormat::Blake3,
            VerifySession::Buffered(_, _) => TextSignFormat::Ed25519,
        }
    }

    pub closed spec fn key(&self) -> Seq<u8> {
        match self {
            VerifySession::Keyed(d) => d.key(),
            VerifySession::Buffered(v, _) => v@,
        }
    }

    /// The message taken so far.
    pub closed spec fn consumed(&self) -> Seq<u8> {
        match self {
            VerifySession::Keyed(d) => d.consumed(),
            VerifySession::Buffered(_, m) => m@,
        }
    }

    /// Starts verifying with `key`: 32 bytes, which for Ed25519 must decode
    /// as a public key.
    pub fn start(key: &[u8], format: TextSignFormat) -> (r: Result<Self, TextError>)
        ensures
            verifying_key_error(format, key@) is None ==> (r matches Ok(s) && s.format() == format
                && s.key() == key@ && s.consumed() == Seq::<u8>::empty()),
            verifying_key_error(format, key@) matches Some(e) ==> r == Err::<Self, TextError>(e),
    {
        match format {
            TextSignFormat::Blake3 => {
                let verifier = Blake3::try_new(key)?;
                Ok(VerifySession::Keyed(verifier.digest()))
            },
            TextSignFormat::Ed25519 => {
                let verifier = Ed25519Verifier::try_new(key)?;
                Ok(VerifySession::Buffered(verifier, Vec::new()))
            },
        }
    }

    /// Takes the next chunk of the message.
    pub fn feed(&mut self, chunk: &[u8])
        ensures
            final(self).format() == old(self).format(),
            final(self).key() == old(self).key(),
            final(self).consumed() == old(self).consumed() + chunk@,
    {
        match self {
            VerifySession::Keyed(digest) => digest.update(chunk),
            VerifySession::Buffered(_, message) => message.extend_from_slice(chunk),
        }
    }

    /// Checks the raw signature against the message taken.
    pub fn finish(&self, signature: &[u8]) -> (r: Result<bool, TextError>)
        ensures
            r == verdict_spec(self.format(), self.key(), self.consumed(), signature@),
    {
        match self {
            VerifySession::Keyed(digest) => {
                let expected = digest.finalize();
                Ok(bytes_equal(expected.as_slice(), signature))
            },
            VerifySession::Buffered(verifier, message) => verifier.verify(message.as_slice(), signature),
        }
    }
}

/// Decodes a signature given as URL-safe unpadded base64.
pub fn decode_signature(text: &str) -> (r: Result<Vec<u8>, TextError>)
    ensures
        match base64_url_decoded(text@) {
            Some(bytes) => r matches Ok(v) && v@ == bytes,
            None => r == Err::<Vec<u8>, TextError>(TextError::InvalidSignatureEncoding),
        },
{
    match decode_url_safe(text) {
        Ok(v) => Ok(v),
        Err(_) => Err(TextError::InvalidSignatureEncoding),
    }
}

/// Signs `input` with `key` and returns the signature as URL-safe unpadded
/// base64. Checking that text against the same input with the matching
/// verifying key succeeds (an Ed25519 public key derived by this library
/// always decodes, see [`Ed25519Signer::public_key`]).
pub fn process_sign(input: &[u8], key: &[u8], format: TextSignFormat) -> (r: Result<String, TextError>)
    ensures
        signing_key_error(key@) is None ==> (r matches Ok(s) && s@ == base64_url_encoded(
            signature_spec(format, key@, input@),
        )),
        signing_key_error(key@) matches Some(e) ==> r == Err::<String, TextError>(e),
        verifying_key_error(format, matching_verifying_key(format, key@)) is None ==> (r matches Ok(
            s,
        ) ==> verify_outcome(format, input@, matching_verifying_key(format, key@), s@) == Ok::<
            bool,
            TextError,
        >(true)),
{
    let mut session = SignSession::start(key, format)?;
    session.feed(input);
    assert(session.consumed() =~= input@);
    Ok(session.finish())
}

/// Checks the base64 `signature` of `input` under `key`.
pub fn process_verify(input: &[u8], key: &[u8], signature: &str, format: TextSignFormat) -> (r: Result<
    bool,
    TextError,
>)
    ensures
        r == verify_outcome(format, input@, key@, signature@),
{
    let signature = decode_signature(signature)?;
    let mut session = VerifySession::start(key, format)?;
    session.feed(input);
    assert(session.consumed() =~= input@);
    session.finish(signature.as_slice())
}

/// Newly generated key material.
pub enum Key {
    /// One key for the keyed hash, used both to sign and to verify.
    Symmetric { key: Vec<u8> },
    /// An Ed25519 key pair; the public key is derived from the secret one.
    Asymmetric { public: Vec<u8>, secret: Vec<u8> },
}

/// Something that produces new key material.
pub trait KeyGenerator {
    /// Whether `r` is one of the outcomes the generator may produce.
    spec fn may_generate(&self, r: Result<Key, TextError>) -> bool;

    fn generate_key(&self) -> (r: Result<Key, TextError>)
        ensures
            self.may_generate(r),
    ;
}

/// The characters of a generated keyed-hash key: every kind in use.
pub open spec fn key_classes() -> PasswordClasses {
    PasswordClasses { lowercase: true, uppercase: true, numbers: true, special: true }
}

/// A usable Ed25519 pair: a 32-byte secret key and the public key derived
/// from it, which decodes.
pub open spec fn is_key_pair(public: Seq<u8>, secret: Seq<u8>) -> bool {
    &&& secret.len() == KEY_LEN
    &&& public == ed25519_public_key(secret)@
    &&& ed25519_valid_public_key(public)
}

/// Generates keys of a given length for one algorithm. The keyed-hash key
/// is a random password over letters, digits and symbols; the Ed25519 pair
/// comes from the operating system's random source and ignores the length.
pub struct CommonKeyGenerator {
    key_length: usize,
    key_format: TextSignFormat,
}

impl CommonKeyGenerator {
    pub closed spec fn length(&self) -> usize {
        self.key_length
    }

    pub closed spec fn format(&self) -> TextSignFormat {
        self.key_format
    }

    pub fn new(key_length: usize, key_format: TextSignFormat) -> (r: Self)
        ensures
            r.length() == key_length,
            r.format() == key_format,
    {
        CommonKeyGenerator { key_length, key_format }
    }
}

impl KeyGenerator for CommonKeyGenerator {
    /// A keyed-hash key can hold from 4 (one character of each kind) to 255
    /// bytes; other lengths are refused.
    open spec fn may_generate(&self, r: Result<Key, TextError>) -> bool {
        match self.format() {
            TextSignFormat::Blake3 => if key_classes().count() <= self.length() <= 255 {
                r matches Ok(Key::Symmetric { key }) && key_classes().accepts(
                    key@,
                    self.length() as nat,
                )
            } else {
                r == Err::<Key, TextError>(TextError::InvalidKeyLength)
            },
            TextSignFormat::Ed25519 => r matches Ok(Key::Asymmetric { public, secret })
                && is_key_pair(public@, secret@),
        }
    }

    fn generate_key(&self) -> (r: Result<Key, TextError>) {
        match self.key_format {
            TextSignFormat::Blake3 => {
                if self.key_length > 255 {
                    return Err(TextError::InvalidKeyLength);
                }
                let classes = PasswordClasses {
                    lowercase: true,
                    uppercase: true,
                    numbers: true,
                    special: true,
                };
                match generate_password_bytes(self.key_length as u8, classes) {
                    Ok(key) => Ok(Key::Symmetric { key }),
                    Err(_) => Err(TextError::InvalidKeyLength),
                }
            },
            TextSignFormat::Ed25519 => {
                let signer = Ed25519Signer::new(ed25519_random_secret());
                let public = signer.public_key();
                let secret = signer.secret_key();
                Ok(Key::Asymmetric { public, secret })
            },
        }
    }
}

/// Generates a key for the algorithm: 32 bytes for the keyed hash, a pair of
/// 32-byte keys for Ed25519.
pub fn generate_key(format: TextSignFormat) -> (r: Result<Key, TextError>)
    ensures
        format == TextSignFormat::Blake3 ==> (r matches Ok(Key::Symmetric { key }) && key@.len()
            == KEY_LEN && key_classes().accepts(key@, KEY_LEN as nat)),
        format == TextSignFormat::Ed25519 ==> (r matches Ok(Key::Asymmetric { public, secret })
            && is_key_pair(public@, secret@)),
{
    let generator = CommonKeyGenerator::new(KEY_LEN, format);
    generator.generate_key()
}

/// A generated Ed25519 pair can be used at once: its public key is the one
/// that matches the secret key, and it decodes. With the ensures of
/// `process_sign`, checking what is signed with the secret key under the
/// public key gives `Ok(true)`.
pub proof fn lemma_generated_pair_is_usable(public: Seq<u8>, secret: Seq<u8>)
    requires
        is_key_pair(public, secret),
    ensures
        matching_verifying_key(TextSignFormat::Ed25519, secret) == public,
        verifying_key_error(TextSignFormat::Ed25519, public) is None,
{
}

/// Round trip for the keyed hash: a 32-byte key both signs and verifies,
/// and the signature of a message checks out against that message.
pub proof fn lemma_keyed_round_trip(key: Seq<u8>, message: Seq<u8>)
    requires
        key.len() == KEY_LEN,
    ensures
        signing_key_error(key) is None,
        matching_verifying_key(TextSignFormat::Blake3, key) == key,
        verifying_key_error(TextSignFormat::Blake3, key) is None,
        verdict_spec(
            TextSignFormat::Blake3,
            key,
            message,
            signature_spec(TextSignFormat::Blake3, key, message),
        ) == Ok::<bool, TextError>(true),
{
}

/// A keyed-hash signature is never accepted by the Ed25519 verifier: it is
/// 32 bytes long, so it fails the signature-length check.
pub proof fn lemma_keyed_signature_rejected_by_ed25519(
    key: Seq<u8>,
    message: Seq<u8>,
    public: Seq<u8>,
    checked: Seq<u8>,
)
    ensures
        verdict_spec(
            TextSignFormat::Ed25519,
            public,
            checked,
            signature_spec(TextSignFormat::Blake3, key, message),
        ) == Err::<bool, TextError>(TextError::InvalidSignatureLength),
{
}

/// An Ed25519 signature is never accepted by the keyed-hash verifier: it is
/// 64 bytes long and cannot equal a 32-byte digest.
pub proof fn lemma_ed25519_signature_rejected_by_keyed(
    secret: Seq<u8>,
    message: Seq<u8>,
    key: Seq<u8>,
    checked: Seq<u8>,
)
    ensures
        verdict_spec(
            TextSignFormat::Blake3,
            key,
            checked,
            signature_spec(TextSignFormat::Ed25519, secret, message),
        ) == Ok::<bool, TextError>(false),
{
    assert(blake3_keyed_hash(key, checked)@.len() != ed25519_signature(secret, message)@.len());
}

/// Signing the same message twice with the same secret key gives the same
/// signature.
pub proof fn lemma_ed25519_signing_is_deterministic(
    first: Ed25519Signer,
    second: Ed25519Signer,
    message: Seq<u8>,
)
    requires
        first@ == second@,
    ensures
        first.signature_of(message) == second.signature_of(message),
{
}

} // verus!

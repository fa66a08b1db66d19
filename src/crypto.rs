//! The cryptographic primitives this library calls, and what it relies on
//! each of them for.
//!
//! Every result that depends on the inputs alone but would take pages to
//! state (a BLAKE3 digest, an Ed25519 signature) is given a name here; the
//! rest of the library states its contracts over those names.

use vstd::prelude::*;

verus! {

/// The keyed BLAKE3 hash of `input` under `key` (32 bytes of output).
pub uninterp spec fn blake3_keyed_hash(key: Seq<u8>, input: Seq<u8>) -> [u8; 32];

/// The key a `blake3::Hasher` was created with.
pub uninterp spec fn hasher_key(h: blake3::Hasher) -> Seq<u8>;

/// All the bytes a `blake3::Hasher` has taken so far, in order.
pub uninterp spec fn hasher_input(h: blake3::Hasher) -> Seq<u8>;

#[verifier::external_type_specification]
#[verifier::external_body]
pub struct ExHasher(blake3::Hasher);

/// Relies on `blake3::Hasher::new_keyed`: a hasher for the keyed hash under
/// `key` that has taken no input yet.
#[verifier::external_body]
pub(crate) fn keyed_hasher(key: &[u8; 32]) -> (r: blake3::Hasher)
    ensures
        hasher_key(r) == key@,
        hasher_input(r) == Seq::<u8>::empty(),
{
    blake3::Hasher::new_keyed(key)
}

/// Relies on `blake3::Hasher::update`: the bytes are appended to the input
/// the hasher has taken; the key is unchanged.
#[verifier::external_body]
pub(crate) fn hasher_update(h: &mut blake3::Hasher, input: &[u8])
    ensures
        hasher_key(*final(h)) == hasher_key(*old(h)),
        hasher_input(*final(h)) == hasher_input(*old(h)) + input@,
{
    h.update(input);
}

/// Relies on `blake3::Hasher::finalize`: the keyed hash of everything the
/// hasher has taken, however it was split across calls to `update`.
#[verifier::external_body]
pub(crate) fn hasher_finalize(h: &blake3::Hasher) -> (r: [u8; 32])
    ensures
        r == blake3_keyed_hash(hasher_key(*h), hasher_input(*h)),
{
    *h.finalize().as_bytes()
}

/// The Ed25519 public key derived from a 32-byte secret key.
pub uninterp spec fn ed25519_public_key(secret: Seq<u8>) -> [u8; 32];

/// The Ed25519 signature of `message` under a 32-byte secret key.
pub uninterp spec fn ed25519_signature(secret: Seq<u8>, message: Seq<u8>) -> [u8; 64];

/// Whether 32 bytes are the encoding of an Ed25519 public key.
pub uninterp spec fn ed25519_valid_public_key(public: Seq<u8>) -> bool;

/// Whether `signature` is a valid Ed25519 signature of `message` under `public`.
pub uninterp spec fn ed25519_accepts(public: Seq<u8>, message: Seq<u8>, signature: Seq<u8>) -> bool;

/// Relies on `ed25519_dalek::SigningKey::verifying_key`: the public key that
/// belongs to a secret key. It is the compression of a curve point, so it
/// always decodes again as a public key.
#[verifier::external_body]
pub(crate) fn ed25519_derive_public(secret: &[u8; 32]) -> (r: [u8; 32])
    ensures
        r == ed25519_public_key(secret@),
        ed25519_valid_public_key(r@),
{
    ed25519_dalek::SigningKey::from_bytes(secret).verifying_key().to_bytes()
}

/// Relies on `<ed25519_dalek::SigningKey as Signer>::sign`: the signature
/// depends on the secret key and the message alone, and the public key of
/// the same secret key accepts it.
#[verifier::external_body]
pub(crate) fn ed25519_sign(secret: &[u8; 32], message: &[u8]) -> (r: [u8; 64])
    ensures
        r == ed25519_signature(secret@, message@),
        ed25519_accepts(ed25519_public_key(secret@)@, message@, r@),
{
    let key = ed25519_dalek::SigningKey::from_bytes(secret);
    <ed25519_dalek::SigningKey as ed25519_dalek::Signer<ed25519_dalek::Signature>>::sign(
        &key,
        message,
    ).to_bytes()
}

/// Relies on `ed25519_dalek::VerifyingKey::from_bytes`: whether the bytes
/// decode as a public key.
#[verifier::external_body]
pub(crate) fn ed25519_check_public(public: &[u8; 32]) -> (r: bool)
    ensures
        r == ed25519_valid_public_key(public@),
{
    ed25519_dalek::VerifyingKey::from_bytes(public).is_ok()
}

/// Relies on `<ed25519_dalek::VerifyingKey as Verifier>::verify`, with the
/// signature read by `ed25519_dalek::Signature::from_bytes`: whether the
/// signature is valid for the message under the public key.
#[verifier::external_body]
pub(crate) fn ed25519_verify(public: &[u8; 32], message: &[u8], signature: &[u8; 64]) -> (r: bool)
    requires
        ed25519_valid_public_key(public@),
    ensures
        r == ed25519_accepts(public@, message@, signature@),
{
    let sig = ed25519_dalek::Signature::from_bytes(signature);
    match ed25519_dalek::VerifyingKey::from_bytes(public) {
        Ok(key) => ed25519_dalek::Verifier::verify(&key, message, &sig).is_ok(),
        Err(_) => false,
    }
}

/// Relies on `ed25519_dalek::SigningKey::generate` with the operating
/// system's random source: a fresh secret key. Nothing is known of its value.
#[verifier::external_body]
pub(crate) fn ed25519_random_secret() -> (r: [u8; 32]) {
    ed25519_dalek::SigningKey::generate(&mut rand::rngs::OsRng).to_bytes()
}

} // verus!

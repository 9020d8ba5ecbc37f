//! SHA-256 and Ed25519, as provided by the `sha2` and `ed25519-dalek` crates.
//!
//! Each function here makes one call into those crates. Their results are a
//! function of the inputs alone and are named by the specification functions
//! below; what the crates compute is not restated.
use ed25519_dalek::Signer;
use sha2::Digest;
use vstd::prelude::*;

verus! {

/// The SHA-256 digest of `data`.
pub uninterp spec fn spec_sha256(data: Seq<u8>) -> Seq<u8>;

/// The Ed25519 public key (compressed point) of a 32-byte secret key.
pub uninterp spec fn spec_ed25519_public_key(secret: Seq<u8>) -> Seq<u8>;

/// The Ed25519 signature of `message` under a 32-byte secret key.
pub uninterp spec fn spec_ed25519_sign(secret: Seq<u8>, message: Seq<u8>) -> Seq<u8>;

/// Whether 32 bytes decompress to an Ed25519 public key.
pub uninterp spec fn spec_ed25519_key_valid(public_key: Seq<u8>) -> bool;

/// Whether `signature` is a valid Ed25519 signature of `message` under
/// `public_key` by the strict rules (no weak keys, no malleable signatures).
pub uninterp spec fn spec_ed25519_verify_strict(
    public_key: Seq<u8>,
    message: Seq<u8>,
    signature: Seq<u8>,
) -> bool;

/// `Sha256::digest` from `sha2`: the digest is a function of the data and
/// is 32 bytes long.
#[verifier::external_body]
pub(crate) fn sha256(data: &[u8]) -> (digest: [u8; 32])
    ensures
        digest@ == spec_sha256(data@),
{
    sha2::Sha256::digest(data).into()
}

/// `SigningKey::verifying_key` from `ed25519-dalek`: the compressed public
/// key of a secret key, which always decompresses to a valid key.
#[verifier::external_body]
pub(crate) fn ed25519_public_key(secret: &[u8; 32]) -> (public_key: [u8; 32])
    ensures
        public_key@ == spec_ed25519_public_key(secret@),
        spec_ed25519_key_valid(public_key@),
{
    ed25519_dalek::SigningKey::from_bytes(secret).verifying_key().to_bytes()
}

/// `Signer::sign` for `ed25519_dalek::SigningKey`. Ed25519 signing is
/// deterministic, so the signature is a function of the key and the
/// message. That it passes `verify_strict` under the key's own public key
/// is not stated: a nonce that reduces to zero would make it fail.
#[verifier::external_body]
pub(crate) fn ed25519_sign(secret: &[u8; 32], message: &[u8]) -> (signature: [u8; 64])
    ensures
        signature@ == spec_ed25519_sign(secret@, message@),
{
    ed25519_dalek::SigningKey::from_bytes(secret).sign(message).to_bytes()
}

/// `VerifyingKey::from_bytes` from `ed25519-dalek`: whether the 32 bytes
/// decompress to a public key.
#[verifier::external_body]
pub(crate) fn ed25519_key_is_valid(public_key: &[u8]) -> (valid: bool)
    requires
        public_key@.len() == 32,
    ensures
        valid == spec_ed25519_key_valid(public_key@),
{
    let bytes: [u8; 32] = public_key.try_into().unwrap();
    ed25519_dalek::VerifyingKey::from_bytes(&bytes).is_ok()
}

/// `VerifyingKey::verify_strict` from `ed25519-dalek`, on a key that
/// decompresses (`VerifyingKey::from_bytes` succeeds on it).
#[verifier::external_body]
pub(crate) fn ed25519_verify_strict(public_key: &[u8], message: &[u8], signature: &[u8]) -> (valid: bool)
    requires
        public_key@.len() == 32,
        signature@.len() == 64,
        spec_ed25519_key_valid(public_key@),
    ensures
        valid == spec_ed25519_verify_strict(public_key@, message@, signature@),
{
    let key_bytes: [u8; 32] = public_key.try_into().unwrap();
    let signature_bytes: [u8; 64] = signature.try_into().unwrap();
    let key = ed25519_dalek::VerifyingKey::from_bytes(&key_bytes).unwrap();
    key.verify_strict(message, &ed25519_dalek::Signature::from_bytes(&signature_bytes)).is_ok()
}

/// `SigningKey::generate` with the operating system's random generator
/// (`rand_core::OsRng`). The key is random, so nothing is stated of it.
#[verifier::external_body]
pub(crate) fn new_signing_key() -> (secret: [u8; 32]) {
    ed25519_dalek::SigningKey::generate(&mut rand_core::OsRng).to_bytes()
}

} // verus!

//! Argon2id hashes for a future unattended-access password, computed by the
//! `argon2` crate: 19 MiB of memory, three passes, one lane, a 32-byte hash
//! and a random salt.
use argon2::password_hash::{PasswordHash, PasswordHasher, PasswordVerifier, SaltString};
use argon2::{Algorithm, Argon2, Params, Version};
use vstd::prelude::*;
use vstd::string::StringSliceAdditionalSpecFns;

use crate::text::decimal;

verus! {

/// Memory cost in KiB.
pub const MEMORY_KIB: u32 = 19_456;

/// Number of passes.
pub const ITERATIONS: u32 = 3;

/// Number of lanes.
pub const PARALLELISM: u32 = 1;

/// Longest password that Argon2 accepts, in bytes.
pub const MAX_PASSWORD_BYTES: usize = 0xffff_ffff;

/// Why hashing or checking a password failed.
#[derive(Clone, Copy, Debug, PartialEq, Eq)]
pub enum PasswordError {
    /// The stored hash is not a valid PHC string.
    InvalidHash,
    /// The password is longer than Argon2 accepts.
    Hashing,
}

/// `PasswordHash::new` accepts `encoded` as a PHC string.
pub uninterp spec fn spec_hash_string_valid(encoded: Seq<char>) -> bool;

/// Argon2 without a secret key, run with the algorithm, version, costs and
/// salt written in the PHC string `encoded`, gives the hash written there
/// for `password`.
pub uninterp spec fn spec_password_matches(password: Seq<char>, encoded: Seq<char>) -> bool;

/// Costs that `Params::new` accepts: at least 8 KiB and 8 KiB per lane, at
/// least one pass, between 1 and 2^24 - 1 lanes.
pub open spec fn argon2_costs_valid(memory_kib: u32, iterations: u32, lanes: u32) -> bool {
    &&& memory_kib >= 8
    &&& 1 <= lanes <= 0xff_ffff
    &&& memory_kib >= 8 * lanes
    &&& iterations >= 1
}

/// The start of the PHC string of an Argon2id (version 0x13) hash with these
/// costs, up to the salt.
pub open spec fn argon2id_phc_prefix(memory_kib: u32, iterations: u32, lanes: u32) -> Seq<char> {
    "$argon2id$v=19$m="@ + decimal(memory_kib as nat) + ",t="@ + decimal(iterations as nat) + ",p="@
        + decimal(lanes as nat) + "$"@
}

/// `SaltString::generate` (16 random bytes, 22 B64 characters) and
/// `PasswordHasher::hash_password` of an Argon2id, version 0x13 hasher
/// without a secret key, built by `Params::new(memory_kib, iterations,
/// lanes, Some(32))` and `Argon2::new`, written as a PHC string. With costs
/// that `Params::new` accepts and a password of at most 2^32 - 1 bytes, no
/// step can fail. The string is the prefix with the costs, the salt, `$`
/// and the 32-byte hash in 43 B64 characters; it parses, and verifies
/// against the password. The salt is random, so it is not stated.
#[verifier::external_body]
fn argon2id_hash_with_new_salt(password: &str, memory_kib: u32, iterations: u32, lanes: u32) -> (encoded:
    String)
    requires
        argon2_costs_valid(memory_kib, iterations, lanes),
        password.spec_bytes().len() <= MAX_PASSWORD_BYTES,
    ensures
        encoded@.len() == argon2id_phc_prefix(memory_kib, iterations, lanes).len() + 22 + 1 + 43,
        encoded@.subrange(0, argon2id_phc_prefix(memory_kib, iterations, lanes).len() as int)
            == argon2id_phc_prefix(memory_kib, iterations, lanes),
        encoded@[argon2id_phc_prefix(memory_kib, iterations, lanes).len() + 22int] == '$',
        spec_hash_string_valid(encoded@),
        spec_password_matches(password@, encoded@),
{
    let salt = SaltString::generate(&mut argon2::password_hash::rand_core::OsRng);
    let params = Params::new(memory_kib, iterations, lanes, Some(32)).unwrap();
    let hasher = Argon2::new(Algorithm::Argon2id, Version::V0x13, params);
    hasher.hash_password(password.as_bytes(), &salt).unwrap().to_string()
}

/// `PasswordHash::new` from `password-hash`: whether `encoded` parses.
#[verifier::external_body]
fn hash_string_is_valid(encoded: &str) -> (valid: bool)
    ensures
        valid == spec_hash_string_valid(encoded@),
{
    PasswordHash::new(encoded).is_ok()
}

/// `PasswordVerifier::verify_password` of an `Argon2::default()` hasher,
/// which has no secret key, on a parsed PHC string. It recomputes the hash
/// with the algorithm, version, costs and salt written in the string, so
/// the outcome depends on the password and the string alone.
#[verifier::external_body]
fn password_matches(password: &str, encoded: &str) -> (matches: bool)
    requires
        spec_hash_string_valid(encoded@),
    ensures
        matches == spec_password_matches(password@, encoded@),
{
    let hash = PasswordHash::new(encoded).unwrap();
    Argon2::default().verify_password(password.as_bytes(), &hash).is_ok()
}

/// Hashes an unattended-access password with Argon2id (19 MiB, three
/// passes, one lane, a 32-byte hash) and a fresh random salt. It fails only
/// for a password longer than Argon2 accepts; the PHC string verifies
/// against the password.
pub fn hash_unattended_password(password: &str) -> (r: Result<String, PasswordError>)
    ensures
        password.spec_bytes().len() <= MAX_PASSWORD_BYTES ==> (r matches Ok(h) && {
            let prefix = argon2id_phc_prefix(MEMORY_KIB, ITERATIONS, PARALLELISM);
            &&& h@.len() == prefix.len() + 22 + 1 + 43
            &&& h@.subrange(0, prefix.len() as int) == prefix
            &&& h@[prefix.len() + 22int] == '$'
            &&& spec_hash_string_valid(h@)
            &&& spec_password_matches(password@, h@)
        }),
        password.spec_bytes().len() > MAX_PASSWORD_BYTES ==> r == Err::<String, PasswordError>(
            PasswordError::Hashing,
        ),
{
    if password.as_bytes().len() > MAX_PASSWORD_BYTES {
        return Err(PasswordError::Hashing);
    }
    Ok(argon2id_hash_with_new_salt(password, MEMORY_KIB, ITERATIONS, PARALLELISM))
}

/// Checks a password against a stored Argon2 PHC string.
pub fn verify_unattended_password(password: &str, encoded: &str) -> (r: Result<bool, PasswordError>)
    ensures
        !spec_hash_string_valid(encoded@) ==> r == Err::<bool, PasswordError>(
            PasswordError::InvalidHash,
        ),
        spec_hash_string_valid(encoded@) ==> r == Ok::<bool, PasswordError>(
            spec_password_matches(password@, encoded@),
        ),
{
    if !hash_string_is_valid(encoded) {
        return Err(PasswordError::InvalidHash);
    }
    Ok(password_matches(password, encoded))
}

/// The costs of this module are ones that Argon2 accepts, and the stored
/// string names them: `$argon2id$v=19$m=19456,t=3,p=1$`.
pub proof fn law_password_costs()
    ensures
        argon2_costs_valid(MEMORY_KIB, ITERATIONS, PARALLELISM),
        argon2id_phc_prefix(MEMORY_KIB, ITERATIONS, PARALLELISM) == "$argon2id$v=19$m=19456,t=3,p=1$"@,
{
    reveal_strlit("$argon2id$v=19$m=");
    reveal_strlit(",t=");
    reveal_strlit(",p=");
    reveal_strlit("$");
    reveal_strlit("$argon2id$v=19$m=19456,t=3,p=1$");
    reveal_with_fuel(decimal, 6);
    assert(argon2id_phc_prefix(MEMORY_KIB, ITERATIONS, PARALLELISM) =~= "$argon2id$v=19$m=19456,t=3,p=1$"@);
}

} // verus!

//! Password digests, computed and checked by argon2.

use vstd::prelude::*;

verus! {

#[verifier::external_type_specification]
#[verifier::external_body]
pub struct ExPasswordHashError(argon2::password_hash::Error);

/// The longest password, in UTF-8 bytes, that argon2 hashes.
pub const MAX_PASSWORD_BYTES: u64 = 0xFFFF_FFFF;

/// The length of `password` in UTF-8 bytes.
pub open spec fn utf8_len(password: Seq<char>) -> nat {
    vstd::utf8::encode_utf8(password).len()
}

/// Whether argon2 accepts `password` against the PHC-format `digest`.
pub uninterp spec fn argon2_accepts(password: Seq<char>, digest: Seq<char>) -> bool;

/// Relies on argon2's PasswordHasher::hash_password under the default
/// Argon2id parameters with a fresh salt from OsRng: it fails only for a
/// password longer than `MAX_PWD_LEN` (0xFFFFFFFF) bytes, and the PHC
/// string it returns is one that PasswordVerifier::verify_password accepts
/// for the same password.
#[verifier::external_body]
fn argon2_hash(password: &str) -> (r: Result<String, argon2::password_hash::Error>)
    ensures
        utf8_len(password@) <= MAX_PASSWORD_BYTES ==> r is Ok,
        r matches Ok(d) ==> argon2_accepts(password@, d@),
{
    let salt = argon2::password_hash::SaltString::generate(
        &mut argon2::password_hash::rand_core::OsRng,
    );
    let hasher = argon2::Argon2::default();
    argon2::PasswordHasher::hash_password(&hasher, password.as_bytes(), &salt).map(|h| h.to_string())
}

/// Relies on argon2's PasswordHash::new and PasswordVerifier::verify_password:
/// `Ok` exactly when the digest parses and recomputing it from `password`
/// with the digest's own salt and parameters matches.
#[verifier::external_body]
fn argon2_verify(password: &str, digest: &str) -> (r: Result<(), argon2::password_hash::Error>)
    ensures
        r is Ok <==> argon2_accepts(password@, digest@),
{
    let parsed = argon2::PasswordHash::new(digest)?;
    argon2::PasswordVerifier::verify_password(&argon2::Argon2::default(), password.as_bytes(), &parsed)
}

/// A salted argon2 digest of `password`, in PHC format; the salt is fresh
/// on each call, so two digests of one password differ. Only a password
/// over `MAX_PASSWORD_BYTES` bytes is refused.
pub fn hash_password(password: &str) -> (r: Result<String, argon2::password_hash::Error>)
    ensures
        utf8_len(password@) <= MAX_PASSWORD_BYTES ==> r is Ok,
        r matches Ok(d) ==> argon2_accepts(password@, d@),
{
    argon2_hash(password)
}

/// `Ok` exactly when `password` matches the PHC-format digest `hash`.
pub fn verify_password(password: &str, hash: &str) -> (r: Result<(), argon2::password_hash::Error>)
    ensures
        r is Ok <==> argon2_accepts(password@, hash@),
{
    argon2_verify(password, hash)
}

} // verus!

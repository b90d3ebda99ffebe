//! The credential hasher: a one-way, salted password hash with a matching
//! verifier. Both operations are provided by the bcrypt crate; what they
//! compute is named by `digest_matches` and `digest_well_formed` and stated
//! on the wrappers below.

use vstd::prelude::*;

verus! {

/// The hashing step failed in the underlying library.
pub struct HashError;

/// The digest handed to the verifier was not a well-formed hash.
pub struct VerifyError;

/// Whether the verifier accepts `password` against `digest`. This is a
/// function of the two strings alone: verification re-derives the hash from
/// the password and the salt embedded in the digest, with no other input.
pub uninterp spec fn digest_matches(password: Seq<char>, digest: Seq<char>) -> bool;

/// Whether the verifier can parse `digest` at all: 60 characters in the
/// modular-crypt format with an in-range cost. A function of the digest
/// alone; the verifier answers (rather than failing) exactly on such
/// digests, and the hasher only ever produces such digests.
pub uninterp spec fn digest_well_formed(digest: Seq<char>) -> bool;

/// Relies on bcrypt::hash: on success the digest is a 60-character string
/// beginning with '$' (the "$2b$..." modular-crypt format with the default
/// in-range cost), so bcrypt::verify parses it, and accepts the hashed
/// password against it, because verify re-hashes with the cost and salt
/// carried inside the digest.
#[verifier::external_body]
pub(crate) fn hash_password(password: &str) -> (r: Result<String, HashError>)
    ensures
        r matches Ok(d) ==> digest_matches(password@, d@) && digest_well_formed(d@) && d@.len()
            == 60 && d@[0] == '$',
{
    bcrypt::hash(password, bcrypt::DEFAULT_COST).map_err(|_| HashError)
}

/// Relies on bcrypt::verify: it answers exactly when the digest parses (a
/// function of the digest alone), and the answer depends on the password
/// and the digest alone, so an accepted check is exactly `digest_matches`.
#[verifier::external_body]
pub(crate) fn verify_password(password: &str, digest: &str) -> (r: Result<bool, VerifyError>)
    ensures
        r is Ok <==> digest_well_formed(digest@),
        r matches Ok(b) ==> b == digest_matches(password@, digest@),
{
    bcrypt::verify(password, digest).map_err(|_| VerifyError)
}

} // verus!

//! Password hashing and digests, as bcrypt and sha2 compute them.

use vstd::prelude::*;

verus! {

/// `bcrypt::BcryptError`, carried from the call to the place that maps it;
/// nothing is read from it.
#[verifier::external_type_specification]
#[verifier::external_body]
pub struct ExBcryptError(bcrypt::BcryptError);

/// What `bcrypt::verify` answers for a password and a stored hash: whether
/// they match, or `None` where it fails on the hash.
pub uninterp spec fn bcrypt_accepts(password: Seq<char>, hash: Seq<char>) -> Option<bool>;

/// The SHA-256 digest of the UTF-8 bytes of `text`, in lower-case hex.
pub uninterp spec fn sha256_hex(text: Seq<char>) -> Seq<char>;

/// Calls `bcrypt::hash` with `bcrypt::DEFAULT_COST`. The salt is drawn at
/// random, so the hash itself has no name; the call fails where the
/// system's source of randomness does. Trusted: a hash that comes back is
/// one that `bcrypt::verify` accepts for the same password, since `verify`
/// hashes the password again with the salt and cost that it reads out of
/// the hash and compares.
#[verifier::external_body]
pub(crate) fn hash_password(password: &str) -> (hashed: Result<String, bcrypt::BcryptError>)
    ensures
        hashed matches Ok(h) ==> bcrypt_accepts(password@, h@) == Some(true),
{
    bcrypt::hash(password, bcrypt::DEFAULT_COST)
}

/// Calls `bcrypt::verify`. Trusted: the answer is a function of the password
/// and the hash alone, named `bcrypt_accepts`; an error stands for `None`.
#[verifier::external_body]
pub(crate) fn check_password(password: &str, hash: &str) -> (answer: Result<
    bool,
    bcrypt::BcryptError,
>)
    ensures
        match answer {
            Ok(matches) => bcrypt_accepts(password@, hash@) == Some(matches),
            Err(_) => bcrypt_accepts(password@, hash@).is_none(),
        },
{
    bcrypt::verify(password, hash)
}

/// Whether `c` is a digit of lower-case hexadecimal.
pub open spec fn lower_hex(c: char) -> bool {
    ('0' <= c && c <= '9') || ('a' <= c && c <= 'f')
}

/// Feeds the bytes of `text` to `sha2::Sha256` and formats the digest with
/// `{:x}`. Trusted: the result is a function of `text` alone, named
/// `sha256_hex`, and has 64 characters, two lower-case hex digits for each
/// of the digest's 32 bytes.
#[verifier::external_body]
pub(crate) fn sha256_hex_of(text: &str) -> (digest: String)
    ensures
        digest@ == sha256_hex(text@),
        digest@.len() == 64,
        forall|i: int| 0 <= i < 64 ==> lower_hex(#[trigger] digest@[i]),
{
    let mut hasher = <sha2::Sha256 as sha2::Digest>::new();
    sha2::Digest::update(&mut hasher, text.as_bytes());
    format!("{:x}", sha2::Digest::finalize(hasher))
}

} // verus!

//! The calls into the cryptographic crates.
//!
//! Nothing in this module is proved. Each function makes one call into an
//! outside crate, with what turns plain values into the crate's types and
//! back, and carries a contract that is taken on trust; the rest of the
//! library is verified against these contracts.

use crate::complexity::estimated_len;
use crate::phc::parallelism_in_range;
use argon2::password_hash::{PasswordHash, PasswordHasher, PasswordVerifier, SaltString};
use argon2::Argon2;
use pbkdf2::Pbkdf2;
use rand::{Rng, SeedableRng};
use rand_chacha::ChaChaRng;
use std::sync::Arc;
use vstd::prelude::*;
use zeroize::Zeroize;

verus! {

/// The ChaCha generator of `rand_chacha`, carried through as it is.
#[verifier::external_type_specification]
#[verifier::external_body]
pub struct ExChaChaRng(rand_chacha::ChaCha20Rng);

/// The error of `rand`, carried through as it is.
#[verifier::external_type_specification]
#[verifier::external_body]
pub struct ExRandError(rand::Error);

/// The error of `bcrypt`, carried through as it is.
#[verifier::external_type_specification]
#[verifier::external_body]
pub struct ExBcryptError(bcrypt::BcryptError);

/// The error of `password_hash`, which Argon2 and PBKDF2 share, carried
/// through as it is.
#[verifier::external_type_specification]
#[verifier::external_body]
pub struct ExPasswordHashError(argon2::password_hash::Error);

/// How a `$2b$` string begins: the version, the cost in two decimal digits,
/// and the separators around them.
pub open spec fn bcrypt_header(cost: u32) -> Seq<char> {
    let digits = seq!['0', '1', '2', '3', '4', '5', '6', '7', '8', '9'];
    seq!['$', '2', 'b', '$', digits[cost as int / 10], digits[cost as int % 10], '$']
}

/// The length of a bcrypt hash string: the header, 22 characters of salt
/// and 31 of digest.
pub const BCRYPT_HASH_LEN: usize = 60;

/// How the PHC string of an Argon2id hash begins: the algorithm, its
/// version, 19, and the default parameters.
pub open spec fn argon2id_header() -> Seq<char> {
    "$argon2id$v=19$m=19456,t=2,p=1$"@
}

/// The length of the PHC string of an Argon2id hash: the header of 31
/// characters, 22 of salt, a separator and 43 of output.
pub const ARGON2ID_HASH_LEN: usize = 97;

/// How the PHC string of a PBKDF2 hash begins: the algorithm, with SHA-256
/// as its hash function, and the default parameters.
pub open spec fn pbkdf2_header() -> Seq<char> {
    "$pbkdf2-sha256$i=600000,l=32$"@
}

/// The length of the PHC string of a PBKDF2 hash: the header of 29
/// characters, 22 of salt, a separator and 43 of output.
pub const PBKDF2_HASH_LEN: usize = 95;

/// The longest password, and the longest secret, that Argon2 takes: 2^32 - 1
/// bytes.
pub const MAX_ARGON2_INPUT_LEN: usize = 0xFFFF_FFFF;

/// The `$2b$` string that `bcrypt::hash_with_salt` gives for this key, cost
/// and salt of 16 bytes, where it gives one.
pub uninterp spec fn bcrypt_encoding(key: Seq<u8>, cost: u32, salt: Seq<u8>) -> Seq<char>;

/// Whether `bcrypt::verify` returns `Ok(true)` for this key and hash string.
pub uninterp spec fn bcrypt_accepts(key: Seq<u8>, hash: Seq<char>) -> bool;

/// The PHC string that `hash_password` of Argon2id with default parameters,
/// keyed with `secret` if there is one, gives for this password and salt of
/// 16 bytes, where it gives one.
pub uninterp spec fn argon2id_encoding(
    secret: Option<Seq<u8>>,
    password: Seq<u8>,
    salt: Seq<u8>,
) -> Seq<char>;

/// Whether `verify_password` of Argon2id with default parameters, keyed with
/// `secret` if there is one, returns `Ok` for this password and the hash
/// parsed from this string. It is asked only about strings that name a
/// parallelism in range.
pub uninterp spec fn argon2id_accepts(secret: Option<Seq<u8>>, password: Seq<u8>, hash: Seq<char>) -> bool;

/// The PHC string that `hash_password` of `Pbkdf2` with default parameters
/// gives for this key and salt of 16 bytes.
pub uninterp spec fn pbkdf2_encoding(key: Seq<u8>, salt: Seq<u8>) -> Seq<char>;

/// Whether `verify_password` of `Pbkdf2` returns `Ok` for this key and the
/// hash parsed from this string.
pub uninterp spec fn pbkdf2_accepts(key: Seq<u8>, hash: Seq<char>) -> bool;

/// `SeedableRng::from_rng` for `ChaCha20Rng`, drawing the seed from another
/// `ChaCha20Rng`. Filling bytes from a ChaCha generator never fails, so the
/// result is always `Ok`. Nothing is claimed about the generator returned.
#[verifier::external_body]
pub(crate) fn fork_rng(rng: &mut ChaChaRng) -> (forked: Result<ChaChaRng, rand::Error>)
    ensures
        forked is Ok,
{
    ChaChaRng::from_rng(rng)
}

/// `Rng::gen` for a 16-byte array: the salt for one bcrypt hash.
/// Nothing is claimed about the bytes.
#[verifier::external_body]
pub(crate) fn draw_bcrypt_salt(rng: &mut ChaChaRng) -> [u8; 16] {
    rng.gen()
}

/// `SaltString::generate`: a fresh salt for Argon2 or PBKDF2, handed out as
/// the 16 bytes that it encodes.
///
/// The salt is the encoding of 16 bytes from the generator, so decoding it
/// into 16 bytes never fails. Nothing is claimed about the bytes.
#[verifier::external_body]
pub(crate) fn draw_phc_salt(rng: &mut ChaChaRng) -> (drawn: Result<
    [u8; 16],
    argon2::password_hash::Error,
>)
    ensures
        drawn is Ok,
{
    let mut bytes = [0u8; 16];
    SaltString::generate(rng).decode_b64(&mut bytes)?;
    Ok(bytes)
}

/// `bcrypt::hash_with_salt`, formatted as a `$2b$` string.
///
/// The call fails exactly when the cost is outside `4..=31`. The string
/// that it returns is `$2b$`, the cost in two digits, `$`, then the salt and
/// the digest in 53 characters. `bcrypt::verify` reads cost and salt back
/// from it and recomputes the same digest for the same key, so it accepts
/// the string for that key.
#[verifier::external_body]
pub(crate) fn bcrypt_hash(key: &[u8], cost: u32, salt: [u8; 16]) -> (hashed: Result<
    String,
    bcrypt::BcryptError,
>)
    ensures
        hashed is Ok <==> 4 <= cost <= 31,
        hashed matches Ok(encoded) ==> encoded@ == bcrypt_encoding(key@, cost, salt@),
        hashed matches Ok(encoded) ==> bcrypt_accepts(key@, encoded@),
        hashed matches Ok(encoded) ==> encoded@.len() == BCRYPT_HASH_LEN && bcrypt_header(
            cost,
        ).is_prefix_of(encoded@),
{
    match bcrypt::hash_with_salt(key, cost, salt) {
        Ok(parts) => Ok(parts.format_for_version(bcrypt::Version::TwoB)),
        Err(e) => Err(e),
    }
}

/// `bcrypt::verify`: `Ok(true)` on a match, `Ok(false)` on a mismatch, an
/// error when the string is not a bcrypt hash.
#[verifier::external_body]
pub(crate) fn bcrypt_verify(key: &[u8], hash: &str) -> (verdict: Result<bool, bcrypt::BcryptError>)
    ensures
        (verdict matches Ok(matched) && matched) <==> bcrypt_accepts(key@, hash@),
{
    bcrypt::verify(key, hash)
}

/// `PasswordHasher::hash_password` of Argon2id with default version and
/// parameters and no secret, on the salt that `SaltString::encode_b64` makes
/// of 16 bytes, as a PHC string.
///
/// The call fails exactly for a password of more than 2^32 - 1 bytes. The
/// string is `$argon2id$v=19$m=19456,t=2,p=1$`, the salt in 22 characters,
/// `$` and the output of 32 bytes in 43 characters; it names no other
/// parallelism.
/// `verify_password` recomputes the same output from them for the same
/// password, so it accepts the string for that password.
#[verifier::external_body]
pub(crate) fn argon2id_hash(password: &[u8], salt: [u8; 16]) -> (hashed: Result<
    String,
    argon2::password_hash::Error,
>)
    ensures
        hashed is Ok <==> password@.len() <= MAX_ARGON2_INPUT_LEN,
        hashed matches Ok(encoded) ==> encoded@ == argon2id_encoding(None, password@, salt@),
        hashed matches Ok(encoded) ==> argon2id_accepts(None, password@, encoded@),
        hashed matches Ok(encoded) ==> encoded@.len() == ARGON2ID_HASH_LEN
            && argon2id_header().is_prefix_of(encoded@) && parallelism_in_range(encoded@),
{
    let context = Argon2::new(
        argon2::Algorithm::default(),
        argon2::Version::default(),
        argon2::Params::default(),
    );
    let salt = SaltString::encode_b64(&salt)?;
    match context.hash_password(password, &salt) {
        Ok(hash) => Ok(hash.to_string()),
        Err(e) => Err(e),
    }
}

/// As `argon2id_hash`, with the context built by `Argon2::new_with_secret`.
/// The secret enters the digest as the key of the hash function. The call
/// fails exactly for a password or a secret of more than 2^32 - 1 bytes.
#[verifier::external_body]
pub(crate) fn argon2id_hash_keyed(secret: &[u8], password: &[u8], salt: [u8; 16]) -> (hashed:
    Result<String, argon2::password_hash::Error>)
    ensures
        hashed is Ok <==> (password@.len() <= MAX_ARGON2_INPUT_LEN && secret@.len()
            <= MAX_ARGON2_INPUT_LEN),
        hashed matches Ok(encoded) ==> encoded@ == argon2id_encoding(
            Some(secret@),
            password@,
            salt@,
        ),
        hashed matches Ok(encoded) ==> argon2id_accepts(Some(secret@), password@, encoded@),
        hashed matches Ok(encoded) ==> encoded@.len() == ARGON2ID_HASH_LEN
            && argon2id_header().is_prefix_of(encoded@) && parallelism_in_range(encoded@),
{
    let context = Argon2::new_with_secret(
        secret,
        argon2::Algorithm::default(),
        argon2::Version::default(),
        argon2::Params::default(),
    )?;
    let salt = SaltString::encode_b64(&salt)?;
    match context.hash_password(password, &salt) {
        Ok(hash) => Ok(hash.to_string()),
        Err(e) => Err(e),
    }
}

/// `PasswordVerifier::verify_password` of Argon2id with default version and
/// parameters and no secret, on the hash parsed by `PasswordHash::new`.
///
/// The call reads the parameters out of the string and multiplies the
/// parallelism by 8 before it checks its range; the string must name none
/// above 2^24 - 1.
#[verifier::external_body]
pub(crate) fn argon2id_verify(password: &[u8], hash: &str) -> (verdict: Result<
    (),
    argon2::password_hash::Error,
>)
    requires
        parallelism_in_range(hash@),
    ensures
        verdict is Ok <==> argon2id_accepts(None, password@, hash@),
{
    let context = Argon2::new(
        argon2::Algorithm::default(),
        argon2::Version::default(),
        argon2::Params::default(),
    );
    context.verify_password(password, &PasswordHash::new(hash)?)
}

/// As `argon2id_verify`, with the context built by `Argon2::new_with_secret`.
#[verifier::external_body]
pub(crate) fn argon2id_verify_keyed(secret: &[u8], password: &[u8], hash: &str) -> (verdict: Result<
    (),
    argon2::password_hash::Error,
>)
    requires
        parallelism_in_range(hash@),
    ensures
        verdict is Ok <==> argon2id_accepts(Some(secret@), password@, hash@),
{
    let context = Argon2::new_with_secret(
        secret,
        argon2::Algorithm::default(),
        argon2::Version::default(),
        argon2::Params::default(),
    )?;
    context.verify_password(password, &PasswordHash::new(hash)?)
}

/// `PasswordHasher::hash_password` of `Pbkdf2` with its default parameters,
/// on the salt that `SaltString::encode_b64` makes of 16 bytes, as a PHC
/// string.
///
/// The call never fails. The string is `$pbkdf2-sha256$i=600000,l=32$`, the
/// salt in 22 characters, `$` and the output of 32 bytes in 43 characters.
/// `verify_password` recomputes the same output from them for the same key,
/// so it accepts the string for this key.
#[verifier::external_body]
pub(crate) fn pbkdf2_hash(key: &[u8], salt: [u8; 16]) -> (hashed: Result<
    String,
    argon2::password_hash::Error,
>)
    ensures
        hashed is Ok,
        hashed matches Ok(encoded) ==> encoded@ == pbkdf2_encoding(key@, salt@),
        hashed matches Ok(encoded) ==> pbkdf2_accepts(key@, encoded@),
        hashed matches Ok(encoded) ==> encoded@.len() == PBKDF2_HASH_LEN
            && pbkdf2_header().is_prefix_of(encoded@),
{
    let salt = SaltString::encode_b64(&salt)?;
    match Pbkdf2.hash_password(key, &salt) {
        Ok(hash) => Ok(hash.to_string()),
        Err(e) => Err(e),
    }
}

/// `PasswordVerifier::verify_password` of `Pbkdf2` on the hash parsed by
/// `PasswordHash::new`.
#[verifier::external_body]
pub(crate) fn pbkdf2_verify(key: &[u8], hash: &str) -> (verdict: Result<
    (),
    argon2::password_hash::Error,
>)
    ensures
        verdict is Ok <==> pbkdf2_accepts(key@, hash@),
{
    Pbkdf2.verify_password(key, &PasswordHash::new(hash)?)
}

/// `Arc::clone`: another pointer to the same allocation, and so to the same
/// value.
#[verifier::external_body]
pub(crate) fn share<T>(value: &Arc<T>) -> (shared: Arc<T>)
    ensures
        shared == *value,
{
    Arc::clone(value)
}

/// `zxcvbn::zxcvbn` without user inputs, on the string that the characters
/// spell, reduced to its score.
///
/// The score is one of 0 to 4, and 0 for the empty string. The estimate
/// looks at the current year and walks hash maps, so nothing more is
/// claimed. The estimator counts with unchecked arithmetic, which stays in
/// range on strings of at most `estimated_len()` characters; it must be
/// shown no longer one.
#[verifier::external_body]
pub(crate) fn estimate_score(characters: &[char]) -> (score: u8)
    requires
        characters@.len() <= estimated_len(),
    ensures
        score <= 4,
        characters@.len() == 0 ==> score == 0,
{
    let text: String = characters.iter().collect();
    u8::from(zxcvbn::zxcvbn(&text, &[]).score())
}

/// `Zeroize::zeroize` for `Vec<u8>`: overwrites the bytes and the spare
/// capacity with zeros and leaves the vector empty.
#[verifier::external_body]
pub(crate) fn wipe(buffer: &mut Vec<u8>)
    ensures
        final(buffer)@.len() == 0,
{
    buffer.zeroize()
}

} // verus!

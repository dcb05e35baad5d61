//! The three hashing algorithms and how each of them mixes in the pepper.

use crate::backend::{
    argon2id_accepts, argon2id_encoding, argon2id_hash, argon2id_hash_keyed, argon2id_header,
    argon2id_verify, argon2id_verify_keyed, bcrypt_accepts, bcrypt_encoding, bcrypt_hash,
    bcrypt_header, bcrypt_verify, draw_bcrypt_salt, draw_phc_salt, pbkdf2_accepts,
    pbkdf2_encoding, pbkdf2_hash, pbkdf2_header, pbkdf2_verify, wipe, ARGON2ID_HASH_LEN,
    BCRYPT_HASH_LEN, MAX_ARGON2_INPUT_LEN, PBKDF2_HASH_LEN,
};
use crate::error::{CryptographicFailure, PasswordError};
use crate::phc::{has_parallelism_in_range, parallelism_in_range};
use rand_chacha::ChaChaRng;
use vstd::prelude::*;

verus! {

/// The bcrypt cost used when a scheme does not name one.
pub const DEFAULT_BCRYPT_COST: u32 = 12;

/// The lowest cost that bcrypt accepts.
pub const MIN_BCRYPT_COST: u32 = 4;

/// The highest cost that bcrypt accepts.
pub const MAX_BCRYPT_COST: u32 = 31;

/// The length of a salt, for each of the algorithms.
pub const SALT_LEN: usize = 16;

/// A password hashing algorithm with its parameters.
#[derive(Debug, Clone, Copy)]
pub enum Algorithm {
    /// bcrypt; the pepper is appended to the password.
    Bcrypt { cost: Option<u32> },
    /// Argon2id with default parameters; the pepper is the secret key.
    Argon2id,
    /// PBKDF2 with default parameters; the pepper is appended to the password.
    Pbkdf2,
}

/// An optional borrowed pepper as an optional sequence of bytes.
pub open spec fn pepper_bytes(pepper: Option<&[u8]>) -> Option<Seq<u8>> {
    match pepper {
        Some(bytes) => Some(bytes@),
        None => None,
    }
}

/// The password followed by the pepper, if there is one.
pub open spec fn peppered(password: Seq<u8>, pepper: Option<Seq<u8>>) -> Seq<u8> {
    match pepper {
        Some(bytes) => password + bytes,
        None => password,
    }
}

/// Copies the password and appends the pepper, if there is one.
fn peppered_key(password: &[u8], pepper: Option<&[u8]>) -> (key: Vec<u8>)
    ensures
        key@ == peppered(password@, pepper_bytes(pepper)),
{
    let mut key: Vec<u8> = Vec::new();
    key.extend_from_slice(password);
    if let Some(bytes) = pepper {
        key.extend_from_slice(bytes);
    }
    assert(key@ =~= peppered(password@, pepper_bytes(pepper)));
    key
}

impl Algorithm {
    /// The cost that bcrypt runs with: the configured one, or the default.
    pub open spec fn bcrypt_cost(cost: Option<u32>) -> u32 {
        match cost {
            Some(c) => c,
            None => DEFAULT_BCRYPT_COST,
        }
    }

    /// Whether this algorithm, with this pepper, can hash `password`.
    ///
    /// bcrypt hashes under a cost in `4..=31`. Argon2id takes a password
    /// and a pepper of up to 2^32 - 1 bytes each. PBKDF2 hashes everything.
    pub open spec fn can_hash(self, pepper: Option<Seq<u8>>, password: Seq<u8>) -> bool {
        match self {
            Algorithm::Bcrypt { cost } => MIN_BCRYPT_COST <= Self::bcrypt_cost(cost)
                <= MAX_BCRYPT_COST,
            Algorithm::Argon2id => {
                &&& password.len() <= MAX_ARGON2_INPUT_LEN
                &&& pepper matches Some(secret) ==> secret.len() <= MAX_ARGON2_INPUT_LEN
            },
            Algorithm::Pbkdf2 => true,
        }
    }

    /// The hash that this algorithm, with this pepper, gives `password`
    /// under `salt`, where it can hash it.
    ///
    /// bcrypt and PBKDF2 hash the peppered password; Argon2id hashes the
    /// password itself, with the pepper as its secret key.
    pub open spec fn encoding(self, pepper: Option<Seq<u8>>, password: Seq<u8>, salt: Seq<u8>) -> Seq<
        char,
    > {
        match self {
            Algorithm::Bcrypt { cost } => bcrypt_encoding(
                peppered(password, pepper),
                Self::bcrypt_cost(cost),
                salt,
            ),
            Algorithm::Argon2id => argon2id_encoding(pepper, password, salt),
            Algorithm::Pbkdf2 => pbkdf2_encoding(peppered(password, pepper), salt),
        }
    }

    /// What hashing `password` under `salt` returns: the hash where the
    /// algorithm can hash, a failure of the backend where it cannot.
    pub open spec fn hashed_with(
        self,
        pepper: Option<Seq<u8>>,
        password: Seq<u8>,
        salt: Seq<u8>,
        hashed: Result<String, PasswordError>,
    ) -> bool {
        match hashed {
            Ok(encoded) => self.can_hash(pepper, password) && encoded@ == self.encoding(
                pepper,
                password,
                salt,
            ),
            Err(e) => !self.can_hash(pepper, password) && e is CryptographicFailure,
        }
    }

    /// Whether this algorithm, with this pepper, accepts `hashed` as a hash
    /// of `password`.
    ///
    /// bcrypt and PBKDF2 are asked about the peppered password; Argon2id is
    /// asked about the password itself, with the pepper as its secret key,
    /// and only about a string that names a parallelism in range.
    pub open spec fn accepts(self, pepper: Option<Seq<u8>>, hashed: Seq<char>, password: Seq<u8>) -> bool {
        match self {
            Algorithm::Bcrypt { .. } => bcrypt_accepts(peppered(password, pepper), hashed),
            Algorithm::Argon2id => parallelism_in_range(hashed) && argon2id_accepts(
                pepper,
                password,
                hashed,
            ),
            Algorithm::Pbkdf2 => pbkdf2_accepts(peppered(password, pepper), hashed),
        }
    }

    /// Whether `encoded` has the shape that this algorithm gives its hashes:
    /// a bcrypt hash is a `$2b$` string of 60 characters that names the
    /// cost; Argon2id and PBKDF2 write PHC strings of 97 and 95 characters
    /// that begin with the algorithm and the default parameters of their
    /// crates.
    pub open spec fn well_encoded(self, encoded: Seq<char>) -> bool {
        match self {
            Algorithm::Bcrypt { cost } => {
                &&& encoded.len() == BCRYPT_HASH_LEN
                &&& bcrypt_header(Self::bcrypt_cost(cost)).is_prefix_of(encoded)
            },
            Algorithm::Argon2id => {
                &&& encoded.len() == ARGON2ID_HASH_LEN
                &&& argon2id_header().is_prefix_of(encoded)
            },
            Algorithm::Pbkdf2 => {
                &&& encoded.len() == PBKDF2_HASH_LEN
                &&& pbkdf2_header().is_prefix_of(encoded)
            },
        }
    }

    /// Hashes `password` under the salt given.
    ///
    /// The result is fixed by the arguments: the hash under this salt where
    /// the algorithm can hash the password, a failure of the backend where
    /// it cannot. A hash that comes back is one that `verify_blocking`
    /// accepts for the same password and pepper.
    pub fn hash_with_salt(self, salt: [u8; 16], password: &[u8], pepper: Option<&[u8]>) -> (hashed:
        Result<String, PasswordError>)
        ensures
            self.hashed_with(pepper_bytes(pepper), password@, salt@, hashed),
            hashed matches Ok(encoded) ==> self.accepts(pepper_bytes(pepper), encoded@, password@),
            hashed matches Ok(encoded) ==> self.well_encoded(encoded@),
    {
        match self {
            Algorithm::Bcrypt { cost } => {
                let mut key = peppered_key(password, pepper);
                let cost: u32 = match cost {
                    Some(c) => c,
                    None => DEFAULT_BCRYPT_COST,
                };
                let outcome = bcrypt_hash(key.as_slice(), cost, salt);
                wipe(&mut key);
                match outcome {
                    Ok(encoded) => Ok(encoded),
                    Err(e) => Err(PasswordError::CryptographicFailure(CryptographicFailure::Bcrypt(e))),
                }
            },
            Algorithm::Argon2id => {
                let outcome = match pepper {
                    Some(secret) => argon2id_hash_keyed(secret, password, salt),
                    None => argon2id_hash(password, salt),
                };
                match outcome {
                    Ok(encoded) => Ok(encoded),
                    Err(e) => Err(
                        PasswordError::CryptographicFailure(CryptographicFailure::PasswordHash(e)),
                    ),
                }
            },
            Algorithm::Pbkdf2 => {
                let mut key = peppered_key(password, pepper);
                let outcome = pbkdf2_hash(key.as_slice(), salt);
                wipe(&mut key);
                match outcome {
                    Ok(encoded) => Ok(encoded),
                    Err(e) => Err(
                        PasswordError::CryptographicFailure(CryptographicFailure::PasswordHash(e)),
                    ),
                }
            },
        }
    }

    /// Draws a salt from `rng` as this algorithm's backend draws it.
    fn draw_salt(self, rng: &mut ChaChaRng) -> (drawn: Result<[u8; 16], PasswordError>)
        ensures
            drawn is Ok,
    {
        match self {
            Algorithm::Bcrypt { .. } => Ok(draw_bcrypt_salt(rng)),
            _ => match draw_phc_salt(rng) {
                Ok(salt) => Ok(salt),
                Err(e) => Err(
                    PasswordError::CryptographicFailure(CryptographicFailure::PasswordHash(e)),
                ),
            },
        }
    }

    /// Hashes `password` with a salt drawn from `rng`.
    ///
    /// The result is what `hash_with_salt` returns under some salt of 16
    /// bytes: a hash that `verify_blocking` accepts for the same password
    /// and pepper where the algorithm can hash the password, a failure of
    /// the backend where it cannot.
    pub fn hash_blocking(self, rng: &mut ChaChaRng, password: &[u8], pepper: Option<&[u8]>) -> (hashed:
        Result<String, PasswordError>)
        ensures
            exists|salt: Seq<u8>|
                salt.len() == SALT_LEN && #[trigger] self.hashed_with(
                    pepper_bytes(pepper),
                    password@,
                    salt,
                    hashed,
                ),
            hashed is Ok <==> self.can_hash(pepper_bytes(pepper), password@),
            hashed matches Ok(encoded) ==> self.accepts(pepper_bytes(pepper), encoded@, password@),
            hashed matches Ok(encoded) ==> self.well_encoded(encoded@),
            hashed matches Err(e) ==> e is CryptographicFailure,
    {
        let salt = match self.draw_salt(rng) {
            Ok(salt) => salt,
            Err(e) => {
                return Err(e);
            },
        };
        let hashed = self.hash_with_salt(salt, password, pepper);
        assert(salt@.len() == SALT_LEN);
        hashed
    }

    /// Checks `password` against `hashed_password`.
    ///
    /// Succeeds exactly when the algorithm accepts the hash for this password
    /// and pepper. A wrong password and a malformed hash give the same error,
    /// and so does an Argon2 string that names a parallelism above 2^24 - 1,
    /// which the backend is not shown.
    pub fn verify_blocking(self, hashed_password: &str, password: &[u8], pepper: Option<&[u8]>) -> (verdict:
        Result<(), PasswordError>)
        ensures
            verdict == Self::verdict_of(
                self.accepts(pepper_bytes(pepper), hashed_password@, password@),
            ),
    {
        let accepted = match self {
            Algorithm::Bcrypt { .. } => {
                let mut key = peppered_key(password, pepper);
                let outcome = bcrypt_verify(key.as_slice(), hashed_password);
                wipe(&mut key);
                match outcome {
                    Ok(matched) => matched,
                    Err(_) => false,
                }
            },
            Algorithm::Argon2id => {
                // The backend must not see a parallelism out of range
                if has_parallelism_in_range(hashed_password) {
                    let outcome = match pepper {
                        Some(secret) => argon2id_verify_keyed(secret, password, hashed_password),
                        None => argon2id_verify(password, hashed_password),
                    };
                    outcome.is_ok()
                } else {
                    false
                }
            },
            Algorithm::Pbkdf2 => {
                let mut key = peppered_key(password, pepper);
                let outcome = pbkdf2_verify(key.as_slice(), hashed_password);
                wipe(&mut key);
                outcome.is_ok()
            },
        };
        if accepted {
            Ok(())
        } else {
            Err(PasswordError::VerificationFailed)
        }
    }

    /// bcrypt and PBKDF2 see the password and the pepper as one sequence of
    /// bytes: two passwords with two peppers that join to the same bytes are
    /// accepted or refused together.
    pub proof fn lemma_appended_pepper_joins_the_password(
        self,
        hashed: Seq<char>,
        password: Seq<u8>,
        pepper: Option<Seq<u8>>,
        other_password: Seq<u8>,
        other_pepper: Option<Seq<u8>>,
    )
        requires
            self is Bcrypt || self is Pbkdf2,
            peppered(password, pepper) == peppered(other_password, other_pepper),
        ensures
            self.accepts(pepper, hashed, password) == self.accepts(
                other_pepper,
                hashed,
                other_password,
            ),
    {
    }

    /// Verification fails wherever the backend refuses: with another
    /// password, with another pepper or with none, the result is
    /// `VerificationFailed` unless the backend accepts the hash for them.
    pub proof fn lemma_refused_by_the_backend_fails(
        self,
        hashed: Seq<char>,
        password: Seq<u8>,
        pepper: Option<Seq<u8>>,
    )
        requires
            !self.accepts(pepper, hashed, password),
        ensures
            Self::verdict_of(self.accepts(pepper, hashed, password)) == Err::<(), PasswordError>(
                PasswordError::VerificationFailed,
            ),
    {
    }

    /// The result of a verification, given whether the hash was accepted.
    pub open spec fn verdict_of(accepted: bool) -> Result<(), PasswordError> {
        if accepted {
            Ok(())
        } else {
            Err(PasswordError::VerificationFailed)
        }
    }
}

} // verus!

//! A hashing scheme: one algorithm bound to an optional pepper.

use crate::algorithm::{Algorithm, SALT_LEN};
use crate::error::PasswordError;
use rand_chacha::ChaChaRng;
use vstd::prelude::*;

verus! {

/// A hashing scheme, with an optional pepper.
///
/// The pepper is a server-side secret that is mixed into every hash and is
/// never stored with it.
pub struct Hasher {
    algorithm: Algorithm,
    pepper: Option<Vec<u8>>,
}

/// What a `Hasher` is: its algorithm and the bytes of its pepper.
pub struct HasherModel {
    pub algorithm: Algorithm,
    pub pepper: Option<Seq<u8>>,
}

/// An optional owned pepper as an optional sequence of bytes.
pub open spec fn owned_pepper_bytes(pepper: Option<Vec<u8>>) -> Option<Seq<u8>> {
    match pepper {
        Some(bytes) => Some(bytes@),
        None => None,
    }
}

impl HasherModel {
    /// Whether this scheme accepts `hashed` as a hash of `password`.
    pub open spec fn accepts(self, hashed: Seq<char>, password: Seq<u8>) -> bool {
        self.algorithm.accepts(self.pepper, hashed, password)
    }

    /// Whether this scheme can hash `password`.
    pub open spec fn can_hash(self, password: Seq<u8>) -> bool {
        self.algorithm.can_hash(self.pepper, password)
    }

    /// What hashing `password` under `salt` returns.
    pub open spec fn hashed_with(
        self,
        password: Seq<u8>,
        salt: Seq<u8>,
        hashed: Result<String, PasswordError>,
    ) -> bool {
        self.algorithm.hashed_with(self.pepper, password, salt, hashed)
    }
}

impl View for Hasher {
    type V = HasherModel;

    closed spec fn view(&self) -> HasherModel {
        HasherModel { algorithm: self.algorithm, pepper: owned_pepper_bytes(self.pepper) }
    }
}

impl Hasher {
    /// Creates a new hashing scheme based on the bcrypt algorithm.
    /// Without a cost, bcrypt runs with cost 12.
    #[must_use]
    pub fn bcrypt(cost: Option<u32>, pepper: Option<Vec<u8>>) -> (hasher: Self)
        ensures
            hasher@ == (HasherModel {
                algorithm: Algorithm::Bcrypt { cost },
                pepper: owned_pepper_bytes(pepper),
            }),
    {
        let algorithm = Algorithm::Bcrypt { cost };
        Self { algorithm, pepper }
    }

    /// Creates a new hashing scheme based on the argon2id algorithm.
    #[must_use]
    pub fn argon2id(pepper: Option<Vec<u8>>) -> (hasher: Self)
        ensures
            hasher@ == (HasherModel {
                algorithm: Algorithm::Argon2id,
                pepper: owned_pepper_bytes(pepper),
            }),
    {
        let algorithm = Algorithm::Argon2id;
        Self { algorithm, pepper }
    }

    /// Creates a new hashing scheme based on the pbkdf2 algorithm.
    #[must_use]
    pub fn pbkdf2(pepper: Option<Vec<u8>>) -> (hasher: Self)
        ensures
            hasher@ == (HasherModel {
                algorithm: Algorithm::Pbkdf2,
                pepper: owned_pepper_bytes(pepper),
            }),
    {
        let algorithm = Algorithm::Pbkdf2;
        Self { algorithm, pepper }
    }

    /// The pepper as a borrowed slice.
    fn pepper(&self) -> (pepper: Option<&[u8]>)
        ensures
            crate::algorithm::pepper_bytes(pepper) == self@.pepper,
    {
        match &self.pepper {
            Some(bytes) => Some(bytes.as_slice()),
            None => None,
        }
    }

    /// Hashes `password` with this scheme's algorithm and pepper under the
    /// salt given.
    ///
    /// The result is fixed by the arguments: the hash under this salt where
    /// the scheme can hash the password, a failure of the backend where it
    /// cannot. A hash that comes back is one that `verify_blocking` accepts
    /// for the same password.
    pub fn hash_with_salt(&self, salt: [u8; 16], password: &[u8]) -> (hashed: Result<
        String,
        PasswordError,
    >)
        ensures
            self@.hashed_with(password@, salt@, hashed),
            hashed matches Ok(encoded) ==> self@.accepts(encoded@, password@),
            hashed matches Ok(encoded) ==> self@.algorithm.well_encoded(encoded@),
    {
        self.algorithm.hash_with_salt(salt, password, self.pepper())
    }

    /// Hashes `password` with this scheme's algorithm and pepper and a salt
    /// drawn from `rng`.
    ///
    /// The result is what `hash_with_salt` returns under some salt of 16
    /// bytes: a hash that `verify_blocking` accepts for the same password
    /// where the scheme can hash the password, a failure of the backend
    /// where it cannot.
    pub fn hash_blocking(&self, rng: &mut ChaChaRng, password: &[u8]) -> (hashed: Result<
        String,
        PasswordError,
    >)
        ensures
            exists|salt: Seq<u8>|
                salt.len() == SALT_LEN && #[trigger] self@.hashed_with(password@, salt, hashed),
            hashed is Ok <==> self@.can_hash(password@),
            hashed matches Ok(encoded) ==> self@.accepts(encoded@, password@),
            hashed matches Ok(encoded) ==> self@.algorithm.well_encoded(encoded@),
            hashed matches Err(e) ==> e is CryptographicFailure,
    {
        let ghost pepper = self@.pepper;
        let hashed = self.algorithm.hash_blocking(rng, password, self.pepper());
        proof {
            let salt = choose|salt: Seq<u8>|
                salt.len() == SALT_LEN && #[trigger] self@.algorithm.hashed_with(
                    pepper,
                    password@,
                    salt,
                    hashed,
                );
            assert(self@.hashed_with(password@, salt, hashed));
        }
        hashed
    }

    /// Checks `password` against `hashed_password` with this scheme's
    /// algorithm and pepper.
    ///
    /// Succeeds exactly when the scheme accepts the hash for this password.
    /// A wrong password and a malformed hash give the same error.
    pub fn verify_blocking(&self, hashed_password: &str, password: &[u8]) -> (verdict: Result<
        (),
        PasswordError,
    >)
        ensures
            verdict == Algorithm::verdict_of(self@.accepts(hashed_password@, password@)),
    {
        self.algorithm.verify_blocking(hashed_password, password, self.pepper())
    }
}

} // verus!

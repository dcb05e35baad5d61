//! The failures that the password manager reports.

use vstd::prelude::*;

verus! {

/// Identifies one configuration of algorithm, parameters and pepper.
///
/// Versions are labels: they are compared for equality and never ordered.
pub type SchemeVersion = u16;

/// The manager is disabled, as `PasswordManager::disabled` makes it, and
/// refuses every operation.
#[derive(Debug)]
pub struct PasswordManagerDisabledError;

impl PasswordManagerDisabledError {
    /// The text shown for this error.
    pub fn message(&self) -> (text: String)
        ensures
            text@ == "Password manager is disabled"@,
    {
        "Password manager is disabled".to_string()
    }
}

/// What the hashing backend reported when it could not produce a hash.
#[derive(Debug)]
pub enum CryptographicFailure {
    /// The random generator for the salt could not be seeded.
    Seeding(rand::Error),
    /// The bcrypt backend refused the input.
    Bcrypt(bcrypt::BcryptError),
    /// The Argon2 or PBKDF2 backend refused the input.
    PasswordHash(argon2::password_hash::Error),
}

/// Every way in which an operation of the password manager can fail.
#[derive(Debug)]
pub enum PasswordError {
    /// The manager is disabled; no work was done.
    ManagerDisabled,
    /// No scheme is registered under this version.
    SchemeNotFound(SchemeVersion),
    /// The password does not match the hash, or the hash is malformed.
    /// The two are deliberately not told apart.
    VerificationFailed,
    /// The hashing backend failed; this is not a fault of the input password.
    CryptographicFailure(CryptographicFailure),
    /// A manager cannot be built from an empty list of schemes.
    ConstructionError,
}

impl PasswordError {
    /// The text shown for this error.
    pub fn message(&self) -> (text: String)
        ensures
            text@ == Self::message_of(*self),
    {
        match self {
            PasswordError::ManagerDisabled => PasswordManagerDisabledError.message(),
            PasswordError::SchemeNotFound(_) => "Hashing scheme not found".to_string(),
            PasswordError::VerificationFailed => "wrong password".to_string(),
            PasswordError::CryptographicFailure(_) => "Password hashing failed".to_string(),
            PasswordError::ConstructionError => "Iterator must have at least one item".to_string(),
        }
    }

    /// The text of each error, as a sequence of characters.
    pub open spec fn message_of(error: PasswordError) -> Seq<char> {
        match error {
            PasswordError::ManagerDisabled => "Password manager is disabled"@,
            PasswordError::SchemeNotFound(_) => "Hashing scheme not found"@,
            PasswordError::VerificationFailed => "wrong password"@,
            PasswordError::CryptographicFailure(_) => "Password hashing failed"@,
            PasswordError::ConstructionError => "Iterator must have at least one item"@,
        }
    }
}

} // verus!

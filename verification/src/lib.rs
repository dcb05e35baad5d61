//! Password hashing schemes for an identity provider: hashing a password
//! under the current scheme, verifying it against a stored `(version, hash)`
//! pair, and re-hashing on login when the stored pair uses an older scheme.
//!
//! The stored pair is the whole credential: the hash string names its
//! algorithm, parameters and salt, the version names the scheme, and the
//! pepper of that scheme stays with the server.

pub mod algorithm;
pub mod backend;
pub mod complexity;
pub mod error;
pub mod hasher;
pub mod manager;
pub mod phc;
pub mod registry;
pub mod text;
pub mod upgrade;

pub use algorithm::Algorithm;
pub use error::{CryptographicFailure, PasswordError, PasswordManagerDisabledError, SchemeVersion};
pub use hasher::{Hasher, HasherModel};
pub use manager::PasswordManager;
pub use registry::{Registry, RestAuthProviderConfig};
pub use upgrade::UpgradePlan;

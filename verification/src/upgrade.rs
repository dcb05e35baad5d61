//! The decisions of a login: whether the stored hash is due for an upgrade,
//! and what the login returns once the verification and the new hash are in.
//!
//! The two halves are independent of each other, so a caller may run them
//! one after the other or side by side; what comes out is decided here.

use crate::error::{PasswordError, SchemeVersion};
use crate::registry::{hash_admits, verify_outcome, Registry};
use vstd::prelude::*;

verus! {

/// What a login has to run: under the current scheme a verification, under
/// an older one a verification and a new hash under the current scheme.
#[derive(Debug, Clone, Copy, PartialEq, Eq, Structural)]
pub enum UpgradePlan {
    /// The stored hash is under the current scheme: verify, nothing more.
    VerifyOnly,
    /// The stored hash is under an older scheme: verify, and hash the
    /// password again under the current scheme.
    VerifyAndRehash,
}

/// The plan for a login with a hash stored under `version`.
pub open spec fn plan_of(manager: Option<Registry>, version: SchemeVersion) -> Result<
    UpgradePlan,
    PasswordError,
> {
    match manager {
        None => Err(PasswordError::ManagerDisabled),
        Some(registry) => if version == registry.current_version {
            Ok(UpgradePlan::VerifyOnly)
        } else {
            Ok(UpgradePlan::VerifyAndRehash)
        },
    }
}

/// What a login returns, given how the verification ended and, where a new
/// hash was made, how that ended. A failed verification decides alone: the
/// new hash is then dropped, whatever it is.
pub open spec fn conclusion_of(
    verdict: Result<(), PasswordError>,
    rehashed: Option<Result<(SchemeVersion, String), PasswordError>>,
) -> Result<Option<(SchemeVersion, String)>, PasswordError> {
    match verdict {
        Err(e) => Err(e),
        Ok(_) => match rehashed {
            None => Ok(None),
            Some(Ok(pair)) => Ok(Some(pair)),
            Some(Err(e)) => Err(e),
        },
    }
}

/// A login under the current version makes no new hash, and returns `None`
/// when the password verifies.
pub proof fn lemma_current_version_is_not_upgraded(registry: Registry)
    ensures
        plan_of(Some(registry), registry.current_version) == Ok::<UpgradePlan, PasswordError>(
            UpgradePlan::VerifyOnly,
        ),
        conclusion_of(Ok(()), None) == Ok::<Option<(SchemeVersion, String)>, PasswordError>(None),
{
}

/// A login whose verification fails returns that failure and no hash,
/// whatever the new hash was.
pub proof fn lemma_failed_verification_gives_no_hash(
    failure: PasswordError,
    rehashed: Option<Result<(SchemeVersion, String), PasswordError>>,
)
    ensures
        conclusion_of(Err(failure), rehashed) == Err::<
            Option<(SchemeVersion, String)>,
            PasswordError,
        >(failure),
{
}

/// A login under an older version whose password verifies returns the pair
/// that hashing gave. That pair is under the current version and verifies
/// for the same password, and a login with it is due no further upgrade.
pub proof fn lemma_upgrade_verifies_under_current(
    registry: Registry,
    password: Seq<u8>,
    version: SchemeVersion,
    encoded: String,
)
    requires
        hash_admits(Some(registry), password, Ok((version, encoded))),
    ensures
        conclusion_of(Ok(()), Some(Ok((version, encoded)))) == Ok::<
            Option<(SchemeVersion, String)>,
            PasswordError,
        >(Some((version, encoded))),
        version == registry.current_version,
        verify_outcome(Some(registry), version, password, encoded@) == Ok::<(), PasswordError>(()),
        plan_of(Some(registry), version) == Ok::<UpgradePlan, PasswordError>(
            UpgradePlan::VerifyOnly,
        ),
{
}

} // verus!

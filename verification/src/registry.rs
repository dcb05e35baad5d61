//! The mathematical model of a password manager: which scheme is current,
//! which older schemes are kept for verification, and what each operation
//! returns.

use crate::algorithm::{Algorithm, SALT_LEN};
use crate::error::{PasswordError, SchemeVersion};
use crate::hasher::{Hasher, HasherModel};
use vstd::prelude::*;

verus! {

/// Settings of a delegated REST authentication provider. The password
/// manager carries them for its callers and never reads them.
#[derive(Debug)]
pub struct RestAuthProviderConfig {
    pub url: String,
}

impl Clone for RestAuthProviderConfig {
    fn clone(&self) -> (copy: Self)
        ensures
            copy == *self,
    {
        RestAuthProviderConfig { url: self.url.clone() }
    }
}

/// The table of older schemes that a list of `(version, scheme)` pairs
/// gives: pairs are entered in order, so a later pair with the same version
/// replaces an earlier one. Pairs under the current version are left out,
/// since that version always means the current scheme.
pub open spec fn legacy_table<H>(rest: Seq<(SchemeVersion, H)>, current: SchemeVersion) -> Map<
    SchemeVersion,
    H,
>
    decreases rest.len(),
{
    if rest.len() == 0 {
        Map::empty()
    } else {
        let earlier = legacy_table(rest.drop_last(), current);
        if rest.last().0 == current {
            earlier
        } else {
            earlier.insert(rest.last().0, rest.last().1)
        }
    }
}

/// The pairs of a list of schemes, each scheme replaced by its model.
pub open spec fn scheme_models(schemes: Seq<(SchemeVersion, Hasher)>) -> Seq<
    (SchemeVersion, HasherModel),
> {
    schemes.map_values(|pair: (SchemeVersion, Hasher)| (pair.0, pair.1@))
}

/// The state of an enabled password manager.
pub struct Registry {
    /// The score that a new password must reach.
    pub minimum_complexity: u8,
    /// The version under which new hashes are made.
    pub current_version: SchemeVersion,
    /// The scheme with which new hashes are made.
    pub current_hasher: HasherModel,
    /// The older schemes, kept for verification only.
    pub legacy: Map<SchemeVersion, HasherModel>,
    /// Settings carried for the callers.
    pub rest_auth_provider: Option<RestAuthProviderConfig>,
}

impl Registry {
    /// Exactly one version is current, and no older scheme is registered
    /// under it.
    pub open spec fn wf(self) -> bool {
        !self.legacy.dom().contains(self.current_version)
    }

    /// The registry that a non-empty list of schemes gives: the first pair
    /// is current, the others are the older schemes.
    pub open spec fn from_schemes(
        minimum_complexity: u8,
        rest_auth_provider: Option<RestAuthProviderConfig>,
        schemes: Seq<(SchemeVersion, HasherModel)>,
    ) -> Registry
        recommends
            schemes.len() > 0,
    {
        Registry {
            minimum_complexity,
            current_version: schemes[0].0,
            current_hasher: schemes[0].1,
            legacy: legacy_table(schemes.skip(1), schemes[0].0),
            rest_auth_provider,
        }
    }

    /// The scheme registered under `version`, if there is one. The current
    /// version is answered directly and never looked up in the table.
    pub open spec fn hasher_for(self, version: SchemeVersion) -> Option<HasherModel> {
        if version == self.current_version {
            Some(self.current_hasher)
        } else if self.legacy.dom().contains(version) {
            Some(self.legacy[version])
        } else {
            None
        }
    }
}

/// What verifying `password` against `(version, hashed)` returns. `None`
/// stands for a disabled manager.
pub open spec fn verify_outcome(
    manager: Option<Registry>,
    version: SchemeVersion,
    password: Seq<u8>,
    hashed: Seq<char>,
) -> Result<(), PasswordError> {
    match manager {
        None => Err(PasswordError::ManagerDisabled),
        Some(registry) => match registry.hasher_for(version) {
            None => Err(PasswordError::SchemeNotFound(version)),
            Some(hasher) => Algorithm::verdict_of(hasher.accepts(hashed, password)),
        },
    }
}

/// Whether `hashed` is a result that hashing `password` may give.
///
/// A disabled manager fails. An enabled one whose current scheme can hash
/// the password returns the current version with what that scheme gives
/// under some salt of 16 bytes, a hash that verifies under the current
/// version; one whose current scheme cannot hash it returns a failure of
/// the backend.
pub open spec fn hash_admits(
    manager: Option<Registry>,
    password: Seq<u8>,
    hashed: Result<(SchemeVersion, String), PasswordError>,
) -> bool {
    match manager {
        None => hashed matches Err(e) && e == PasswordError::ManagerDisabled,
        Some(registry) => match hashed {
            Ok((version, encoded)) => {
                &&& version == registry.current_version
                &&& registry.current_hasher.can_hash(password)
                &&& exists|salt: Seq<u8>|
                    salt.len() == SALT_LEN && encoded@
                        == #[trigger] registry.current_hasher.algorithm.encoding(
                        registry.current_hasher.pepper,
                        password,
                        salt,
                    )
                &&& registry.current_hasher.accepts(encoded@, password)
                &&& registry.current_hasher.algorithm.well_encoded(encoded@)
            },
            Err(e) => {
                &&& e is CryptographicFailure
                &&& !registry.current_hasher.can_hash(password)
            },
        },
    }
}

/// Verifying under a version that no scheme is registered under fails with
/// `SchemeNotFound`, whatever the password and the hash are: no scheme is
/// asked.
pub proof fn lemma_unknown_version_is_not_found(
    registry: Registry,
    version: SchemeVersion,
    password: Seq<u8>,
    hashed: Seq<char>,
)
    requires
        registry.hasher_for(version) is None,
    ensures
        verify_outcome(Some(registry), version, password, hashed) == Err::<(), PasswordError>(
            PasswordError::SchemeNotFound(version),
        ),
{
}

/// A disabled manager verifies nothing and hashes nothing.
pub proof fn lemma_disabled_refuses(
    version: SchemeVersion,
    password: Seq<u8>,
    hashed: Seq<char>,
    outcome: Result<(SchemeVersion, String), PasswordError>,
)
    ensures
        verify_outcome(None, version, password, hashed) == Err::<(), PasswordError>(
            PasswordError::ManagerDisabled,
        ),
        hash_admits(None, password, outcome) <==> outcome == Err::<
            (SchemeVersion, String),
            PasswordError,
        >(PasswordError::ManagerDisabled),
{
}

/// A pair that hashing may return verifies for the same password.
pub proof fn lemma_hash_then_verify(
    manager: Option<Registry>,
    password: Seq<u8>,
    version: SchemeVersion,
    encoded: String,
)
    requires
        hash_admits(manager, password, Ok((version, encoded))),
    ensures
        verify_outcome(manager, version, password, encoded@) == Ok::<(), PasswordError>(()),
{
}

/// The versions in the table are those of the list, but for the current one.
pub proof fn lemma_legacy_table_domain<H>(
    rest: Seq<(SchemeVersion, H)>,
    current: SchemeVersion,
    version: SchemeVersion,
)
    ensures
        legacy_table(rest, current).dom().contains(version) <==> version != current && exists|
            i: int,
        |
            0 <= i < rest.len() && (#[trigger] rest[i]).0 == version,
    decreases rest.len(),
{
    if rest.len() > 0 {
        let front = rest.drop_last();
        lemma_legacy_table_domain(front, current, version);
        if version != current {
            if exists|i: int| 0 <= i < rest.len() && (#[trigger] rest[i]).0 == version {
                let i = choose|i: int| 0 <= i < rest.len() && (#[trigger] rest[i]).0 == version;
                if i < rest.len() - 1 {
                    assert(front[i].0 == version);
                }
            }
            if exists|i: int| 0 <= i < front.len() && (#[trigger] front[i]).0 == version {
                let i = choose|i: int| 0 <= i < front.len() && (#[trigger] front[i]).0 == version;
                assert(rest[i].0 == version);
            }
            if rest.last().0 == version {
                assert(rest[rest.len() - 1].0 == version);
            }
        }
    }
}

/// Of several pairs with one version, the last is the one in the table.
pub proof fn lemma_legacy_table_last_wins<H>(
    rest: Seq<(SchemeVersion, H)>,
    current: SchemeVersion,
    i: int,
)
    requires
        0 <= i < rest.len(),
        rest[i].0 != current,
        forall|j: int| i < j < rest.len() ==> (#[trigger] rest[j]).0 != rest[i].0,
    ensures
        legacy_table(rest, current).dom().contains(rest[i].0),
        legacy_table(rest, current)[rest[i].0] == rest[i].1,
    decreases rest.len(),
{
    if i < rest.len() - 1 {
        let front = rest.drop_last();
        assert(rest[rest.len() - 1].0 != rest[i].0);
        assert forall|j: int| i < j < front.len() implies (#[trigger] front[j]).0 != front[i].0 by {
            assert(rest[j].0 != rest[i].0);
        }
        lemma_legacy_table_last_wins(front, current, i);
    }
}

/// A registry built from a list of schemes is well formed.
pub proof fn lemma_from_schemes_wf(
    minimum_complexity: u8,
    rest_auth_provider: Option<RestAuthProviderConfig>,
    schemes: Seq<(SchemeVersion, HasherModel)>,
)
    requires
        schemes.len() > 0,
    ensures
        Registry::from_schemes(minimum_complexity, rest_auth_provider, schemes).wf(),
{
    lemma_legacy_table_domain(schemes.skip(1), schemes[0].0, schemes[0].0);
}

/// Replacing every scheme by its model commutes with building the table.
pub proof fn lemma_legacy_table_models(rest: Seq<(SchemeVersion, Hasher)>, current: SchemeVersion)
    ensures
        legacy_table(rest, current).map_values(|hasher: Hasher| hasher@) == legacy_table(
            scheme_models(rest),
            current,
        ),
    decreases rest.len(),
{
    let view = |hasher: Hasher| hasher@;
    if rest.len() == 0 {
        assert(legacy_table(rest, current).map_values(view) =~= legacy_table(
            scheme_models(rest),
            current,
        ));
    } else {
        let front = rest.drop_last();
        lemma_legacy_table_models(front, current);
        assert(scheme_models(rest).drop_last() =~= scheme_models(front));
        assert(legacy_table(rest, current).map_values(view) =~= legacy_table(
            scheme_models(rest),
            current,
        ));
    }
}

} // verus!

//! The password manager: the registry of schemes behind an on/off switch,
//! with the operations that request handlers call.

use crate::backend::{fork_rng, share, wipe};
use crate::complexity::{complexity_admits, estimated_part, password_meets_minimum};
use crate::error::{CryptographicFailure, PasswordError, PasswordManagerDisabledError, SchemeVersion};
use crate::algorithm::SALT_LEN;
use crate::hasher::Hasher;
use crate::registry::{
    hash_admits, legacy_table, lemma_from_schemes_wf, lemma_legacy_table_models, scheme_models,
    verify_outcome, Registry, RestAuthProviderConfig,
};
use crate::upgrade::{conclusion_of, plan_of, UpgradePlan};
use rand_chacha::ChaChaRng;
use std::collections::HashMap;
use std::sync::Arc;
use vstd::prelude::*;

verus! {

broadcast use vstd::std_specs::hash::group_hash_axioms;

struct InnerPasswordManager {
    /// Minimum complexity score of new passwords (between 0 and 4).
    minimum_complexity: u8,
    current_hasher: Hasher,
    current_version: SchemeVersion,
    /// The older schemes, used only for verification.
    other_hashers: HashMap<SchemeVersion, Hasher>,
    /// The settings of the REST authentication provider, if any.
    rest_auth_provider: Option<RestAuthProviderConfig>,
}

impl InnerPasswordManager {
    /// No older scheme is kept under the current version.
    #[verifier::type_invariant]
    spec fn current_is_not_legacy(&self) -> bool {
        !self.other_hashers@.dom().contains(self.current_version)
    }

    spec fn registry(&self) -> Registry {
        Registry {
            minimum_complexity: self.minimum_complexity,
            current_version: self.current_version,
            current_hasher: self.current_hasher@,
            legacy: self.other_hashers@.map_values(|hasher: Hasher| hasher@),
            rest_auth_provider: self.rest_auth_provider,
        }
    }
}

/// Hashes and verifies passwords under a set of versioned schemes.
///
/// A manager is either disabled, and then refuses every operation, or holds
/// one current scheme and any number of older ones. It never changes after
/// it was built, and clones share one registry.
pub struct PasswordManager {
    inner: Option<Arc<InnerPasswordManager>>,
}

impl Clone for PasswordManager {
    /// A second handle on the same registry.
    fn clone(&self) -> (copy: Self)
        ensures
            copy@ == self@,
    {
        match &self.inner {
            Some(state) => Self { inner: Some(share(state)) },
            None => Self { inner: None },
        }
    }
}

impl View for PasswordManager {
    type V = Option<Registry>;

    closed spec fn view(&self) -> Option<Registry> {
        match self.inner {
            Some(inner) => Some(inner.registry()),
            None => None,
        }
    }
}

impl PasswordManager {
    /// Creates a new [`PasswordManager`] from a list of schemes and a
    /// minimum allowed complexity score between 0 and 4. The first scheme
    /// of the list is the one used for new hashes; the others are kept to
    /// verify older hashes, a later one replacing an earlier one of the
    /// same version.
    ///
    /// Fails exactly when the list is empty.
    pub fn new(
        minimum_complexity: u8,
        rest_auth_provider: Option<RestAuthProviderConfig>,
        schemes: Vec<(SchemeVersion, Hasher)>,
    ) -> (built: Result<Self, PasswordError>)
        ensures
            match built {
                Ok(manager) => {
                    &&& schemes@.len() > 0
                    &&& manager@ == Some(
                        Registry::from_schemes(
                            minimum_complexity,
                            rest_auth_provider,
                            scheme_models(schemes@),
                        ),
                    )
                    &&& manager@.unwrap().wf()
                },
                Err(e) => schemes@.len() == 0 && e == PasswordError::ConstructionError,
            },
    {
        let ghost given = schemes@;
        let mut schemes = schemes;
        if schemes.len() == 0 {
            return Err(PasswordError::ConstructionError);
        }
        // Take the first scheme as the current one
        let (current_version, current_hasher) = schemes.remove(0);
        let ghost rest = schemes@;

        // Collect the other schemes in a map used only in verification
        let mut other_hashers: HashMap<SchemeVersion, Hasher> = HashMap::new();
        for pair in it: schemes
            invariant
                it.seq() == rest,
                other_hashers@ == legacy_table(rest.take(it.index() as int), current_version),
        {
            assert(rest.take(it.index() + 1).drop_last() =~= rest.take(it.index() as int));
            let (version, hasher) = pair;
            if version != current_version {
                other_hashers.insert(version, hasher);
            }
        }
        assert(rest.take(rest.len() as int) =~= rest);
        proof {
            lemma_legacy_table_models(rest, current_version);
            assert(scheme_models(given).skip(1) =~= scheme_models(rest));
            lemma_from_schemes_wf(minimum_complexity, rest_auth_provider, scheme_models(given));
        }
        Ok(
            Self {
                inner: Some(
                    Arc::new(
                        InnerPasswordManager {
                            minimum_complexity,
                            current_hasher,
                            current_version,
                            other_hashers,
                            rest_auth_provider,
                        },
                    ),
                ),
            },
        )
    }

    /// Creates a new disabled password manager.
    #[must_use]
    pub fn disabled() -> (manager: Self)
        ensures
            manager@ is None,
    {
        Self { inner: None }
    }

    /// Checks if the password manager is enabled or not.
    #[must_use]
    pub fn is_enabled(&self) -> (enabled: bool)
        ensures
            enabled == self@ is Some,
            self@ matches Some(registry) ==> registry.wf(),
    {
        self.get_inner().is_ok()
    }

    /// Get the inner password manager; fails if the manager is disabled.
    fn get_inner(&self) -> (inner: Result<&InnerPasswordManager, PasswordManagerDisabledError>)
        ensures
            match inner {
                Ok(state) => self@ == Some(state.registry()) && state.registry().wf(),
                Err(_) => self@ is None,
            },
    {
        match &self.inner {
            Some(state) => {
                let state: &InnerPasswordManager = &**state;
                proof {
                    use_type_invariant(state);
                }
                Ok(state)
            },
            None => Err(PasswordManagerDisabledError),
        }
    }

    /// Returns true if and only if the given password satisfies the minimum
    /// complexity requirements.
    ///
    /// Fails exactly when the password manager is disabled. A password of
    /// more than `estimated_len()` characters is judged by its first
    /// `estimated_len()` characters alone. The score comes from an estimator
    /// whose answer is not fixed by the characters alone, so the result is
    /// described by what every score allows.
    pub fn is_password_complex_enough(&self, password: &str) -> (enough: Result<bool, PasswordError>)
        ensures
            match enough {
                Ok(passed) => self@ matches Some(registry) && complexity_admits(
                    estimated_part(password@),
                    registry.minimum_complexity,
                    passed,
                ),
                Err(e) => self@ is None && e == PasswordError::ManagerDisabled,
            },
    {
        match self.get_inner() {
            Ok(inner) => Ok(password_meets_minimum(password, inner.minimum_complexity)),
            Err(_) => Err(PasswordError::ManagerDisabled),
        }
    }

    /// Returns the settings of the REST authentication provider, if any.
    ///
    /// Fails exactly when the password manager is disabled.
    pub fn get_rest_auth_provider(&self) -> (provider: Result<
        Option<RestAuthProviderConfig>,
        PasswordError,
    >)
        ensures
            match provider {
                Ok(settings) => self@ matches Some(registry) && settings
                    == registry.rest_auth_provider,
                Err(e) => self@ is None && e == PasswordError::ManagerDisabled,
            },
    {
        match self.get_inner() {
            Ok(inner) => match &inner.rest_auth_provider {
                Some(settings) => Ok(Some(settings.clone())),
                None => Ok(None),
            },
            Err(_) => Err(PasswordError::ManagerDisabled),
        }
    }

    /// Hash a password with the current hashing scheme.
    /// Returns the version of the hashing scheme used and the hashed password.
    ///
    /// The salt comes from a generator of its own, seeded from `rng`. The
    /// pair that comes back verifies: `verify` accepts it for the same
    /// password. A disabled manager fails without drawing from `rng`; the
    /// only other failure is one of the backend.
    pub fn hash(&self, rng: &mut ChaChaRng, password: Vec<u8>) -> (hashed: Result<
        (SchemeVersion, String),
        PasswordError,
    >)
        ensures
            hash_admits(self@, password@, hashed),
            hashed matches Ok((version, encoded)) ==> verify_outcome(
                self@,
                version,
                password@,
                encoded@,
            ) is Ok,
            self@ is None ==> *final(rng) == *old(rng),
    {
        let mut password = password;
        self.hash_and_wipe(rng, &mut password)
    }

    /// As `hash`, for a caller that keeps the password in a buffer of its
    /// own: the buffer is overwritten with zeros and left empty, however the
    /// call ends.
    pub fn hash_and_wipe(&self, rng: &mut ChaChaRng, password: &mut Vec<u8>) -> (hashed: Result<
        (SchemeVersion, String),
        PasswordError,
    >)
        ensures
            final(password)@.len() == 0,
            hash_admits(self@, old(password)@, hashed),
            hashed matches Ok((version, encoded)) ==> verify_outcome(
                self@,
                version,
                old(password)@,
                encoded@,
            ) is Ok,
            self@ is None ==> *final(rng) == *old(rng),
    {
        if !self.is_enabled() {
            wipe(password);
            return Err(PasswordError::ManagerDisabled);
        }
        // Seed a generator of our own, so that the work does not hold on to
        // the caller's
        let mut seeded = match fork_rng(rng) {
            Ok(seeded) => seeded,
            Err(e) => {
                wipe(password);
                return Err(PasswordError::CryptographicFailure(CryptographicFailure::Seeding(e)));
            },
        };
        self.hash_with_generator(&mut seeded, password)
    }

    /// As `hash_and_wipe`, with the salt drawn from `generator` itself: for
    /// a caller that has seeded a generator for this one hash already.
    pub fn hash_with_generator(&self, generator: &mut ChaChaRng, password: &mut Vec<u8>) -> (hashed:
        Result<(SchemeVersion, String), PasswordError>)
        ensures
            final(password)@.len() == 0,
            hash_admits(self@, old(password)@, hashed),
            hashed matches Ok((version, encoded)) ==> verify_outcome(
                self@,
                version,
                old(password)@,
                encoded@,
            ) is Ok,
            self@ is None ==> *final(generator) == *old(generator),
    {
        let inner = match self.get_inner() {
            Ok(inner) => inner,
            Err(_) => {
                wipe(password);
                return Err(PasswordError::ManagerDisabled);
            },
        };
        let version = inner.current_version;
        let outcome = inner.current_hasher.hash_blocking(generator, password.as_slice());
        proof {
            if outcome is Ok {
                let salt = choose|salt: Seq<u8>|
                    salt.len() == SALT_LEN && #[trigger] inner.current_hasher@.hashed_with(
                        password@,
                        salt,
                        outcome,
                    );
                assert(outcome.unwrap()@ == inner.current_hasher@.algorithm.encoding(
                    inner.current_hasher@.pepper,
                    password@,
                    salt,
                ));
            }
        }
        wipe(password);
        match outcome {
            Ok(encoded) => Ok((version, encoded)),
            Err(e) => Err(e),
        }
    }

    /// The scheme registered under `scheme`: the current one for the current
    /// version, else the one in the table of older schemes.
    fn hasher_for(inner: &InnerPasswordManager, scheme: SchemeVersion) -> (found: Option<&Hasher>)
        ensures
            match found {
                Some(hasher) => inner.registry().hasher_for(scheme) == Some(hasher@),
                None => inner.registry().hasher_for(scheme) is None,
            },
    {
        if scheme == inner.current_version {
            Some(&inner.current_hasher)
        } else {
            inner.other_hashers.get(&scheme)
        }
    }

    /// Verify a password hash for the given hashing scheme.
    ///
    /// Fails with `ManagerDisabled` if the manager is disabled, with
    /// `SchemeNotFound` if no scheme is registered under `scheme`, and with
    /// `VerificationFailed` if the scheme does not accept the hash for this
    /// password; succeeds otherwise.
    pub fn verify(&self, scheme: SchemeVersion, password: Vec<u8>, hashed_password: String) -> (verdict:
        Result<(), PasswordError>)
        ensures
            verdict == verify_outcome(self@, scheme, password@, hashed_password@),
    {
        let mut password = password;
        self.verify_and_wipe(scheme, &mut password, hashed_password.as_str())
    }

    /// As `verify`, for a caller that keeps the password in a buffer of its
    /// own: the buffer is overwritten with zeros and left empty, however the
    /// call ends.
    pub fn verify_and_wipe(&self, scheme: SchemeVersion, password: &mut Vec<u8>, hashed_password: &str) -> (verdict:
        Result<(), PasswordError>)
        ensures
            final(password)@.len() == 0,
            verdict == verify_outcome(self@, scheme, old(password)@, hashed_password@),
    {
        let inner = match self.get_inner() {
            Ok(inner) => inner,
            Err(_) => {
                wipe(password);
                return Err(PasswordError::ManagerDisabled);
            },
        };
        let verdict = match Self::hasher_for(inner, scheme) {
            Some(hasher) => hasher.verify_blocking(hashed_password, password.as_slice()),
            None => Err(PasswordError::SchemeNotFound(scheme)),
        };
        wipe(password);
        verdict
    }

    /// Says what a login with a hash stored under `scheme` has to run.
    ///
    /// Fails exactly when the password manager is disabled.
    pub fn upgrade_plan(&self, scheme: SchemeVersion) -> (plan: Result<UpgradePlan, PasswordError>)
        ensures
            plan == plan_of(self@, scheme),
    {
        match self.get_inner() {
            Ok(inner) => if scheme == inner.current_version {
                Ok(UpgradePlan::VerifyOnly)
            } else {
                Ok(UpgradePlan::VerifyAndRehash)
            },
            Err(_) => Err(PasswordError::ManagerDisabled),
        }
    }

    /// Puts the two halves of a login together: the verification under the
    /// stored scheme and, where one was made, the new hash under the current
    /// scheme.
    ///
    /// A failed verification is returned as it is and the new hash is
    /// dropped. After a successful one the new hash is returned, or its
    /// failure, or `None` where none was made.
    pub fn conclude_upgrade(
        verdict: Result<(), PasswordError>,
        rehashed: Option<Result<(SchemeVersion, String), PasswordError>>,
    ) -> (upgrade: Result<Option<(SchemeVersion, String)>, PasswordError>)
        ensures
            upgrade == conclusion_of(verdict, rehashed),
    {
        match verdict {
            Err(e) => Err(e),
            Ok(_) => match rehashed {
                None => Ok(None),
                Some(Ok(pair)) => Ok(Some(pair)),
                Some(Err(e)) => Err(e),
            },
        }
    }

    /// Verify a password hash for the given hashing scheme, and upgrade it on
    /// the fly, if it was not hashed with the current scheme.
    ///
    /// If the verification fails, so does this, with the same error, and no
    /// hash is returned. If it succeeds under the current scheme, the result
    /// is `None` and nothing was drawn from `rng`. If it succeeds under an
    /// older scheme, the result is the current version with a new hash that
    /// verifies under it, or a failure of the backend.
    pub fn verify_and_upgrade(
        &self,
        rng: &mut ChaChaRng,
        scheme: SchemeVersion,
        password: Vec<u8>,
        hashed_password: String,
    ) -> (upgrade: Result<Option<(SchemeVersion, String)>, PasswordError>)
        ensures
            verify_outcome(self@, scheme, password@, hashed_password@) matches Err(e)
                ==> upgrade matches Err(u) && u == e,
            verify_outcome(self@, scheme, password@, hashed_password@) is Ok ==> match upgrade {
                Ok(None) => scheme == self@.unwrap().current_version,
                Ok(Some((version, encoded))) => {
                    &&& scheme != self@.unwrap().current_version
                    &&& hash_admits(self@, password@, Ok((version, encoded)))
                    &&& verify_outcome(self@, version, password@, encoded@) is Ok
                },
                Err(e) => {
                    &&& scheme != self@.unwrap().current_version
                    &&& hash_admits(self@, password@, Err(e))
                },
            },
            self@ is None || scheme == self@.unwrap().current_version ==> *final(rng) == *old(
                rng,
            ),
    {
        let mut password = password;
        let plan = match self.upgrade_plan(scheme) {
            Ok(plan) => plan,
            Err(e) => {
                wipe(&mut password);
                return Err(e);
            },
        };
        // Under an older scheme, also hash with the current one
        let rehashed = match plan {
            UpgradePlan::VerifyAndRehash => {
                let copy = password.clone();
                Some(self.hash(rng, copy))
            },
            UpgradePlan::VerifyOnly => None,
        };
        let verdict = self.verify(scheme, password, hashed_password);
        Self::conclude_upgrade(verdict, rehashed)
    }
}

} // verus!

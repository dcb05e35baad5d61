use password_schemes::{
    Hasher, PasswordError, PasswordManager, RestAuthProviderConfig, UpgradePlan,
};
use rand::SeedableRng;
use rand_chacha::ChaChaRng;

fn bcrypt_manager(pepper: &[u8]) -> PasswordManager {
    PasswordManager::new(0, None, vec![(1, Hasher::bcrypt(Some(4), Some(pepper.to_vec())))])
        .unwrap()
}

#[test]
fn empty_scheme_list_is_refused() {
    let built = PasswordManager::new(3, None, Vec::new());
    assert!(matches!(built, Err(PasswordError::ConstructionError)));
}

#[test]
fn a_manager_with_one_scheme_is_enabled() {
    assert!(bcrypt_manager(b"pepper").is_enabled());
    assert!(!PasswordManager::disabled().is_enabled());
}

#[test]
fn disabled_manager_refuses_everything() {
    let manager = PasswordManager::disabled();
    let mut rng = ChaChaRng::seed_from_u64(7);
    let untouched = rng.clone();

    assert!(matches!(
        manager.is_password_complex_enough("hunter2"),
        Err(PasswordError::ManagerDisabled)
    ));
    assert!(matches!(
        manager.hash(&mut rng, b"hunter2".to_vec()),
        Err(PasswordError::ManagerDisabled)
    ));
    assert!(matches!(
        manager.verify(1, b"hunter2".to_vec(), "$2b$04$abc".to_string()),
        Err(PasswordError::ManagerDisabled)
    ));
    assert!(matches!(
        manager.verify_and_upgrade(&mut rng, 1, b"hunter2".to_vec(), "$2b$04$abc".to_string()),
        Err(PasswordError::ManagerDisabled)
    ));
    assert!(matches!(
        manager.get_rest_auth_provider(),
        Err(PasswordError::ManagerDisabled)
    ));
    assert!(matches!(manager.upgrade_plan(1), Err(PasswordError::ManagerDisabled)));
    // Nothing was drawn from the generator
    assert_eq!(rng, untouched);
}

#[test]
fn unknown_version_is_not_found() {
    let manager = bcrypt_manager(b"pepper");
    let mut rng = ChaChaRng::seed_from_u64(7);
    let (version, hash) = manager.hash(&mut rng, b"hunter2".to_vec()).unwrap();
    assert_eq!(version, 1);

    let verdict = manager.verify(9, b"hunter2".to_vec(), hash.clone());
    assert!(matches!(verdict, Err(PasswordError::SchemeNotFound(9))));

    let untouched = rng.clone();
    let upgrade = manager.verify_and_upgrade(&mut rng, 0, b"hunter2".to_vec(), hash);
    assert!(matches!(upgrade, Err(PasswordError::SchemeNotFound(0))));
    // The new hash was made all the same, and dropped
    assert_ne!(rng, untouched);
}

#[test]
fn wrong_password_and_malformed_hash_fail_alike() {
    let manager = bcrypt_manager(b"pepper");
    let mut rng = ChaChaRng::seed_from_u64(7);
    let (version, hash) = manager.hash(&mut rng, b"hunter2".to_vec()).unwrap();

    let wrong = manager.verify(version, b"hunter3".to_vec(), hash);
    assert!(matches!(wrong, Err(PasswordError::VerificationFailed)));

    let malformed = manager.verify(version, b"hunter2".to_vec(), "not a hash".to_string());
    assert!(matches!(malformed, Err(PasswordError::VerificationFailed)));

    let empty = manager.verify(version, b"hunter2".to_vec(), String::new());
    assert!(matches!(empty, Err(PasswordError::VerificationFailed)));
}

#[test]
fn hash_under_current_scheme_verifies() {
    let manager = PasswordManager::new(
        0,
        None,
        vec![
            (7, Hasher::argon2id(Some(b"pepper".to_vec()))),
            (3, Hasher::bcrypt(Some(4), None)),
        ],
    )
    .unwrap();
    let mut rng = ChaChaRng::seed_from_u64(1);
    let (version, hash) = manager.hash(&mut rng, b"hunter2".to_vec()).unwrap();
    assert_eq!(version, 7);
    assert!(hash.starts_with("$argon2id$v=19$m=19456,t=2,p=1$"));
    assert!(manager.verify(version, b"hunter2".to_vec(), hash.clone()).is_ok());
    // The same hash under the other version is judged by the other scheme
    assert!(matches!(
        manager.verify(3, b"hunter2".to_vec(), hash),
        Err(PasswordError::VerificationFailed)
    ));
}

#[test]
fn fresh_salts_give_different_hashes_that_both_verify() {
    let manager = bcrypt_manager(b"pepper");
    let mut rng = ChaChaRng::seed_from_u64(99);
    let (_, first) = manager.hash(&mut rng, b"hunter2".to_vec()).unwrap();
    let (_, second) = manager.hash(&mut rng, b"hunter2".to_vec()).unwrap();
    assert_ne!(first, second);
    assert!(manager.verify(1, b"hunter2".to_vec(), first).is_ok());
    assert!(manager.verify(1, b"hunter2".to_vec(), second).is_ok());
}

#[test]
fn current_version_is_not_upgraded() {
    let manager = bcrypt_manager(b"pepper");
    let mut rng = ChaChaRng::seed_from_u64(5);
    let (version, hash) = manager.hash(&mut rng, b"hunter2".to_vec()).unwrap();

    let untouched = rng.clone();
    let upgrade = manager
        .verify_and_upgrade(&mut rng, version, b"hunter2".to_vec(), hash.clone())
        .unwrap();
    assert!(upgrade.is_none());
    assert_eq!(rng, untouched);

    let refused = manager.verify_and_upgrade(&mut rng, version, b"nope".to_vec(), hash);
    assert!(matches!(refused, Err(PasswordError::VerificationFailed)));
    assert_eq!(rng, untouched);
}

#[test]
fn older_version_is_upgraded_to_current() {
    let old = bcrypt_manager(b"pepper");
    let mut rng = ChaChaRng::seed_from_u64(5);
    let (old_version, old_hash) = old.hash(&mut rng, b"hunter2".to_vec()).unwrap();

    let manager = PasswordManager::new(
        0,
        None,
        vec![
            (2, Hasher::bcrypt(Some(5), None)),
            (1, Hasher::bcrypt(Some(4), Some(b"pepper".to_vec()))),
        ],
    )
    .unwrap();

    let upgrade = manager
        .verify_and_upgrade(&mut rng, old_version, b"hunter2".to_vec(), old_hash.clone())
        .unwrap();
    let (version, hash) = upgrade.expect("an upgrade is due");
    assert_eq!(version, 2);
    assert!(hash.starts_with("$2b$05$"));
    assert!(manager.verify(version, b"hunter2".to_vec(), hash.clone()).is_ok());

    // The new pair is current: nothing more to upgrade
    let again = manager
        .verify_and_upgrade(&mut rng, version, b"hunter2".to_vec(), hash)
        .unwrap();
    assert!(again.is_none());

    // A wrong password gets no hash
    let refused = manager.verify_and_upgrade(&mut rng, old_version, b"nope".to_vec(), old_hash);
    assert!(matches!(refused, Err(PasswordError::VerificationFailed)));
}

#[test]
fn later_scheme_of_the_same_version_wins() {
    let mut rng = ChaChaRng::seed_from_u64(11);
    let with_a = bcrypt_manager(b"pepper-a");
    let with_b = bcrypt_manager(b"pepper-b");
    let (_, hash_a) = with_a.hash(&mut rng, b"hunter2".to_vec()).unwrap();
    let (_, hash_b) = with_b.hash(&mut rng, b"hunter2".to_vec()).unwrap();

    let manager = PasswordManager::new(
        0,
        None,
        vec![
            (2, Hasher::argon2id(None)),
            (1, Hasher::bcrypt(Some(4), Some(b"pepper-a".to_vec()))),
            (1, Hasher::bcrypt(Some(4), Some(b"pepper-b".to_vec()))),
        ],
    )
    .unwrap();
    assert!(manager.verify(1, b"hunter2".to_vec(), hash_b).is_ok());
    assert!(matches!(
        manager.verify(1, b"hunter2".to_vec(), hash_a),
        Err(PasswordError::VerificationFailed)
    ));
}

#[test]
fn current_version_is_never_looked_up_in_the_table() {
    let mut rng = ChaChaRng::seed_from_u64(11);
    let with_a = bcrypt_manager(b"pepper-a");
    let with_b = bcrypt_manager(b"pepper-b");
    let (_, hash_a) = with_a.hash(&mut rng, b"hunter2".to_vec()).unwrap();
    let (_, hash_b) = with_b.hash(&mut rng, b"hunter2".to_vec()).unwrap();

    let manager = PasswordManager::new(
        0,
        None,
        vec![
            (1, Hasher::bcrypt(Some(4), Some(b"pepper-a".to_vec()))),
            (1, Hasher::bcrypt(Some(4), Some(b"pepper-b".to_vec()))),
        ],
    )
    .unwrap();
    assert!(manager.verify(1, b"hunter2".to_vec(), hash_a).is_ok());
    assert!(matches!(
        manager.verify(1, b"hunter2".to_vec(), hash_b),
        Err(PasswordError::VerificationFailed)
    ));
}

#[test]
fn plan_depends_on_the_version_only() {
    let manager = PasswordManager::new(
        0,
        None,
        vec![(2, Hasher::argon2id(None)), (1, Hasher::bcrypt(Some(4), None))],
    )
    .unwrap();
    assert_eq!(manager.upgrade_plan(2).unwrap(), UpgradePlan::VerifyOnly);
    assert_eq!(manager.upgrade_plan(1).unwrap(), UpgradePlan::VerifyAndRehash);
    assert_eq!(manager.upgrade_plan(40).unwrap(), UpgradePlan::VerifyAndRehash);
}

#[test]
fn conclusion_follows_the_verification_first() {
    let pair = (2u16, "new-hash".to_string());

    let kept = PasswordManager::conclude_upgrade(Ok(()), Some(Ok(pair.clone()))).unwrap();
    assert_eq!(kept, Some(pair.clone()));

    let none = PasswordManager::conclude_upgrade(Ok(()), None).unwrap();
    assert_eq!(none, None);

    let dropped =
        PasswordManager::conclude_upgrade(Err(PasswordError::VerificationFailed), Some(Ok(pair)));
    assert!(matches!(dropped, Err(PasswordError::VerificationFailed)));

    let both_failed = PasswordManager::conclude_upgrade(
        Err(PasswordError::SchemeNotFound(4)),
        Some(Err(PasswordError::ManagerDisabled)),
    );
    assert!(matches!(both_failed, Err(PasswordError::SchemeNotFound(4))));

    let hash_failed =
        PasswordManager::conclude_upgrade(Ok(()), Some(Err(PasswordError::ConstructionError)));
    assert!(matches!(hash_failed, Err(PasswordError::ConstructionError)));
}

#[test]
fn bcrypt_cost_outside_its_range_fails_to_hash() {
    let mut rng = ChaChaRng::seed_from_u64(3);
    for cost in [0u32, 3, 32, 1000] {
        let manager =
            PasswordManager::new(0, None, vec![(1, Hasher::bcrypt(Some(cost), None))]).unwrap();
        let hashed = manager.hash(&mut rng, b"hunter2".to_vec());
        assert!(matches!(hashed, Err(PasswordError::CryptographicFailure(_))));
    }
    let lowest = PasswordManager::new(0, None, vec![(1, Hasher::bcrypt(Some(4), None))]).unwrap();
    let (_, hash) = lowest.hash(&mut rng, b"hunter2".to_vec()).unwrap();
    assert!(hash.starts_with("$2b$04$"));
    assert_eq!(hash.len(), 60);
}

#[test]
fn bcrypt_without_a_cost_runs_with_twelve() {
    let mut rng = ChaChaRng::seed_from_u64(3);
    let hasher = Hasher::bcrypt(None, None);
    let hash = hasher.hash_blocking(&mut rng, b"hunter2").unwrap();
    assert!(hash.starts_with("$2b$12$"));
    assert!(hasher.verify_blocking(&hash, b"hunter2").is_ok());
}

#[test]
fn buffers_are_left_empty() {
    let manager = bcrypt_manager(b"pepper");
    let mut rng = ChaChaRng::seed_from_u64(21);

    let mut password = b"hunter2".to_vec();
    let (version, hash) = manager.hash_and_wipe(&mut rng, &mut password).unwrap();
    assert!(password.is_empty());

    let mut password = b"hunter2".to_vec();
    assert!(manager.verify_and_wipe(version, &mut password, &hash).is_ok());
    assert!(password.is_empty());

    let mut password = b"hunter3".to_vec();
    assert!(manager.verify_and_wipe(version, &mut password, &hash).is_err());
    assert!(password.is_empty());

    let mut password = b"hunter2".to_vec();
    assert!(manager.verify_and_wipe(8, &mut password, &hash).is_err());
    assert!(password.is_empty());

    let disabled = PasswordManager::disabled();
    let mut password = b"hunter2".to_vec();
    assert!(disabled.verify_and_wipe(version, &mut password, &hash).is_err());
    assert!(password.is_empty());
    let mut password = b"hunter2".to_vec();
    assert!(disabled.hash_and_wipe(&mut rng, &mut password).is_err());
    assert!(password.is_empty());
}

#[test]
fn provider_settings_are_handed_back() {
    let settings = RestAuthProviderConfig { url: "https://auth.example.org/".to_string() };
    let manager =
        PasswordManager::new(0, Some(settings), vec![(1, Hasher::bcrypt(Some(4), None))]).unwrap();
    let returned = manager.get_rest_auth_provider().unwrap().unwrap();
    assert_eq!(returned.url, "https://auth.example.org/");
    assert_eq!(returned.clone().url, "https://auth.example.org/");

    let without = bcrypt_manager(b"pepper");
    assert!(without.get_rest_auth_provider().unwrap().is_none());
}

#[test]
fn clones_share_the_registry() {
    let manager = bcrypt_manager(b"pepper");
    let copy = manager.clone();
    let mut rng = ChaChaRng::seed_from_u64(17);
    let (version, hash) = manager.hash(&mut rng, b"hunter2".to_vec()).unwrap();
    assert!(copy.verify(version, b"hunter2".to_vec(), hash).is_ok());
}

#[test]
fn a_seeded_generator_is_used_as_it_is() {
    let manager = PasswordManager::new(
        0,
        None,
        vec![(1, Hasher::bcrypt(Some(10), Some(b"a-secret-pepper".to_vec())))],
    )
    .unwrap();
    // The salt is the first that the generator gives
    let mut generator = ChaChaRng::seed_from_u64(42);
    let mut password = b"hunter2".to_vec();
    let (version, hash) = manager.hash_with_generator(&mut generator, &mut password).unwrap();
    assert_eq!(version, 1);
    assert_eq!(hash, "$2b$10$c/EX8bTbEMfTn4oCvcQyBOR1zPyLmGzZ2pMXoElLASqv2qpq5X15i");
    assert!(password.is_empty());

    // `hash` seeds a generator of its own from the caller's first
    let mut rng = ChaChaRng::seed_from_u64(42);
    let (_, forked) = manager.hash(&mut rng, b"hunter2".to_vec()).unwrap();
    assert_eq!(forked, "$2b$10$1Mgv9BLlKUPw2H3LIWlseeWUiTWF2yZC/.TyzuC3bGuB9XacoEUu6");

    let disabled = PasswordManager::disabled();
    let untouched = generator.clone();
    let mut password = b"hunter2".to_vec();
    assert!(matches!(
        disabled.hash_with_generator(&mut generator, &mut password),
        Err(PasswordError::ManagerDisabled)
    ));
    assert!(password.is_empty());
    assert_eq!(generator, untouched);
}

#[test]
fn upgrade_gives_a_hash_of_the_current_algorithm() {
    let old = bcrypt_manager(b"pepper");
    let mut rng = ChaChaRng::seed_from_u64(5);
    let (old_version, old_hash) = old.hash(&mut rng, b"hunter2".to_vec()).unwrap();
    assert!(old_hash.starts_with("$2b$04$"));

    let manager = PasswordManager::new(
        0,
        None,
        vec![
            (2, Hasher::argon2id(None)),
            (1, Hasher::bcrypt(Some(4), Some(b"pepper".to_vec()))),
        ],
    )
    .unwrap();
    let (version, hash) = manager
        .verify_and_upgrade(&mut rng, old_version, b"hunter2".to_vec(), old_hash)
        .unwrap()
        .expect("an upgrade is due");
    assert_eq!(version, 2);
    assert!(hash.starts_with("$argon2id$v=19$"));
}

#[test]
fn a_stored_hash_with_a_parallelism_out_of_range_fails_to_verify() {
    let manager = PasswordManager::new(0, None, vec![(1, Hasher::argon2id(None))]).unwrap();
    let stored = "$argon2id$v=19$m=19456,t=2,p=536870912$c29tZXNhbHQ$AAAAAAAAAAAAAAAAAAAAAA";
    let verdict = manager.verify(1, b"hunter2".to_vec(), stored.to_string());
    assert!(matches!(verdict, Err(PasswordError::VerificationFailed)));
}

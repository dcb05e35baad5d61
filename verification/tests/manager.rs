use password_schemes::{Hasher, PasswordManager};
use rand::SeedableRng;

#[test]
fn hash_verify_and_upgrade() {
    // Tests the whole password manager, by hashing a password and upgrading it
    // after changing the hashing schemes. The salt generation is done with a seeded
    // RNG, so that the hashed passwords are stable
    let mut rng = rand_chacha::ChaChaRng::seed_from_u64(42);
    let password = b"hunter2".to_vec();
    let wrong_password = b"wrong-password".to_vec();

    let manager = PasswordManager::new(
        0,
        None,
        vec![
            // Start with one hashing scheme: bcrypt + pepper
            (
                1,
                Hasher::bcrypt(Some(10), Some(b"a-secret-pepper".to_vec())),
            ),
        ],
    )
    .unwrap();

    let (version, hash) = manager
        .hash(&mut rng, password.clone())
        .expect("Failed to hash");

    assert_eq!(version, 1);
    assert_eq!(
        hash,
        "$2b$10$1Mgv9BLlKUPw2H3LIWlseeWUiTWF2yZC/.TyzuC3bGuB9XacoEUu6"
    );

    // Just verifying works
    manager
        .verify(version, password.clone(), hash.clone())
        .expect("Failed to verify");

    // And doesn't work with the wrong password
    manager
        .verify(version, wrong_password.clone(), hash.clone())
        .expect_err("Verification should have failed");

    // Verifying with the wrong version doesn't work
    manager
        .verify(2, password.clone(), hash.clone())
        .expect_err("Verification should have failed");

    // Upgrading does nothing
    let res = manager
        .verify_and_upgrade(&mut rng, version, password.clone(), hash.clone())
        .expect("Failed to verify");

    assert!(res.is_none());

    // Upgrading still verify that the password matches
    manager
        .verify_and_upgrade(&mut rng, version, wrong_password.clone(), hash.clone())
        .expect_err("Verification should have failed");

    let manager = PasswordManager::new(
        0,
        None,
        vec![
            (2, Hasher::argon2id(None)),
            (
                1,
                Hasher::bcrypt(Some(10), Some(b"a-secret-pepper".to_vec())),
            ),
        ],
    )
    .unwrap();

    // Verifying still works
    manager
        .verify(version, password.clone(), hash.clone())
        .expect("Failed to verify");

    // And doesn't work with the wrong password
    manager
        .verify(version, wrong_password.clone(), hash.clone())
        .expect_err("Verification should have failed");

    // Upgrading does re-hash
    let res = manager
        .verify_and_upgrade(&mut rng, version, password.clone(), hash.clone())
        .expect("Failed to verify");

    assert!(res.is_some());
    let (version, hash) = res.unwrap();

    assert_eq!(version, 2);
    assert_eq!(
        hash,
        "$argon2id$v=19$m=19456,t=2,p=1$4aRFZH7bgRs24delZVap/Q$Y2SNOQuEfwWuBXflRnbJhqpksexRziQ9Wf9BatCuIVY"
    );

    // Upgrading works with the new hash, but does not upgrade
    let res = manager
        .verify_and_upgrade(&mut rng, version, password.clone(), hash.clone())
        .expect("Failed to verify");

    assert!(res.is_none());

    // Upgrading still verify that the password matches
    manager
        .verify_and_upgrade(&mut rng, version, wrong_password.clone(), hash.clone())
        .expect_err("Verification should have failed");

    // Upgrading still verify that the password matches
    manager
        .verify_and_upgrade(&mut rng, version, wrong_password.clone(), hash.clone())
        .expect_err("Verification should have failed");

    let manager = PasswordManager::new(
        0,
        None,
        vec![
            (3, Hasher::argon2id(Some(b"a-secret-pepper".to_vec()))),
            (2, Hasher::argon2id(None)),
            (
                1,
                Hasher::bcrypt(Some(10), Some(b"a-secret-pepper".to_vec())),
            ),
        ],
    )
    .unwrap();

    // Verifying still works
    manager
        .verify(version, password.clone(), hash.clone())
        .expect("Failed to verify");

    // And doesn't work with the wrong password
    manager
        .verify(version, wrong_password.clone(), hash.clone())
        .expect_err("Verification should have failed");

    // Upgrading does re-hash
    let res = manager
        .verify_and_upgrade(&mut rng, version, password.clone(), hash.clone())
        .expect("Failed to verify");

    assert!(res.is_some());
    let (version, hash) = res.unwrap();

    assert_eq!(version, 3);
    assert_eq!(
        hash,
        "$argon2id$v=19$m=19456,t=2,p=1$1Ke64U6Mrdl5imSjjFRU+g$yirg39x3QVVTxsV5OI4usyIaCw6IRxPl5Li3mQyNmN8"
    );

    // Upgrading works with the new hash, but does not upgrade
    let res = manager
        .verify_and_upgrade(&mut rng, version, password.clone(), hash.clone())
        .expect("Failed to verify");

    assert!(res.is_none());

    // Upgrading still verify that the password matches
    manager
        .verify_and_upgrade(&mut rng, version, wrong_password.clone(), hash.clone())
        .expect_err("Verification should have failed");
}

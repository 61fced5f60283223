use tontine_auth::auth_service::AuthService;
use tontine_auth::errors::AppError;

#[test]
fn hashed_password_round_trip() {
    let hash = AuthService::hash_password("hunter2").expect("hashing failed");
    let ok = AuthService::verify_password("hunter2", &hash).expect("verification errored");
    assert!(ok);
}

#[test]
fn hashed_password_verifies_helper() {
    let r = AuthService::hashed_password_verifies("correct horse battery staple")
        .expect("hashing failed");
    assert!(r);
}

#[test]
fn empty_password_round_trip() {
    let hash = AuthService::hash_password("").expect("hashing failed");
    assert!(AuthService::verify_password("", &hash).expect("verification errored"));
}

#[test]
fn wrong_password_is_rejected() {
    let hash = AuthService::hash_password("hunter2").expect("hashing failed");
    let ok = AuthService::verify_password("hunter3", &hash).expect("verification errored");
    assert!(!ok);
}

#[test]
fn distinct_passwords_do_not_cross_verify() {
    let h1 = AuthService::hash_password("first password").expect("hashing failed");
    let h2 = AuthService::hash_password("second password").expect("hashing failed");
    assert!(!AuthService::verify_password("first password", &h2).expect("verification errored"));
    assert!(!AuthService::verify_password("second password", &h1).expect("verification errored"));
}

#[test]
fn malformed_hash_is_an_authentication_error() {
    let r = AuthService::verify_password("hunter2", "not a bcrypt hash");
    match r {
        Err(AppError::AuthenticationError(_)) => {}
        other => panic!("expected an authentication error, got {:?}", other.is_ok()),
    }
}

#[test]
fn two_hashes_of_one_password_differ() {
    // The salt is fresh each time, so the stored strings differ even though
    // both verify.
    let h1 = AuthService::hash_password("hunter2").expect("hashing failed");
    let h2 = AuthService::hash_password("hunter2").expect("hashing failed");
    assert_ne!(h1, h2);
    assert!(AuthService::verify_password("hunter2", &h1).expect("verification errored"));
    assert!(AuthService::verify_password("hunter2", &h2).expect("verification errored"));
}

#[test]
fn fresh_hash_is_well_formed_for_any_password() {
    // Checking any password against a hash the service produced answers a
    // boolean; the error path is reserved for hashes bcrypt cannot parse.
    let hash = AuthService::hash_password("hunter2").expect("hashing failed");
    for candidate in ["", "hunter2", "something else entirely", "pässwörd", "x"] {
        assert!(AuthService::verify_password(candidate, &hash).is_ok());
    }
}

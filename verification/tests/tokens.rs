use tontine_auth::auth_service::{bearer_token, AuthService};
use tontine_auth::errors::AppError;
use tontine_auth::users::User;

fn sample_user() -> User {
    User {
        id: "U1".to_string(),
        email: "a@x.com".to_string(),
        phone: "555-0100".to_string(),
        full_name: "Ada Lovelace".to_string(),
        password_hash: String::new(),
        is_active: true,
        created_at: 1_700_000_000,
        updated_at: 1_700_000_000,
    }
}

fn service(lifetime: i64) -> AuthService {
    AuthService::new("test-signing-secret".to_string(), lifetime)
}

#[test]
fn issue_then_verify_returns_the_claims() {
    let svc = service(86400);
    let issued_at: i64 = 1_700_000_000;
    let token = svc.generate_token(&sample_user(), issued_at).expect("issuing failed");
    let claims = svc.verify_token(&token, issued_at).expect("verification failed");
    assert_eq!(claims.sub, "U1");
    assert_eq!(claims.email, "a@x.com");
    assert_eq!(claims.iat, issued_at);
    assert_eq!(claims.exp, issued_at + 86400);
}

#[test]
fn fresh_token_verifies_helper() {
    let svc = service(60);
    let claims = svc
        .fresh_token_verifies(&sample_user(), 1_700_000_000, 1_700_000_030)
        .expect("round trip failed");
    assert_eq!(claims.sub, "U1");
    assert_eq!(claims.email, "a@x.com");
}

#[test]
fn expired_token_is_an_authentication_error() {
    let svc = service(1);
    let issued_at: i64 = 1_700_000_000;
    let token = svc.generate_token(&sample_user(), issued_at).expect("issuing failed");
    // One second past the expiry instant.
    let r = svc.verify_token(&token, issued_at + 2);
    match r {
        Err(AppError::AuthenticationError(_)) => {}
        other => panic!("expected an authentication error, got ok={}", other.is_ok()),
    }
}

#[test]
fn token_is_valid_up_to_its_expiry_instant() {
    let svc = service(1);
    let issued_at: i64 = 1_700_000_000;
    let token = svc.generate_token(&sample_user(), issued_at).expect("issuing failed");
    assert!(svc.verify_token(&token, issued_at + 1).is_ok());
    assert!(svc.verify_token(&token, issued_at + 2).is_err());
}

#[test]
fn flipped_signature_byte_fails_verification() {
    let svc = service(86400);
    let issued_at: i64 = 1_700_000_000;
    let token = svc.generate_token(&sample_user(), issued_at).expect("issuing failed");
    let dot = token.rfind('.').expect("a compact token has a signature segment");
    let mut bytes = token.into_bytes();
    let i: usize = dot + 1;
    bytes[i] = if bytes[i] == b'A' { b'B' } else { b'A' };
    let tampered = String::from_utf8(bytes).expect("still valid text");
    let r = svc.verify_token(&tampered, issued_at);
    match r {
        Err(AppError::AuthenticationError(_)) => {}
        other => panic!("expected an authentication error, got ok={}", other.is_ok()),
    }
}

#[test]
fn distinct_issue_instants_give_distinct_tokens() {
    let svc = service(86400);
    let user = sample_user();
    let t1 = svc.generate_token(&user, 1_700_000_000).expect("issuing failed");
    let t2 = svc.generate_token(&user, 1_700_000_001).expect("issuing failed");
    assert_ne!(t1, t2);
}

#[test]
fn short_lived_token_scenario() {
    // Issue with a one-second lifetime, verify at once, then again two
    // seconds later on the simulated clock.
    let svc = service(1);
    let issued_at: i64 = 1_700_000_000;
    let token = svc.generate_token(&sample_user(), issued_at).expect("issuing failed");
    let claims = svc.verify_token(&token, issued_at).expect("fresh token must verify");
    assert_eq!(claims.sub, "U1");
    assert_eq!(claims.email, "a@x.com");
    let late = svc.verify_token(&token, issued_at + 2);
    match late {
        Err(e @ AppError::AuthenticationError(_)) => {
            assert_eq!(e.error_code(), "AUTHENTICATION_ERROR");
            assert_eq!(e.status_code(), 401);
        }
        other => panic!("expected an authentication error, got ok={}", other.is_ok()),
    }
}

#[test]
fn wrong_secret_fails_verification() {
    let svc = service(86400);
    let other = AuthService::new("a different secret".to_string(), 86400);
    let token = svc.generate_token(&sample_user(), 1_700_000_000).expect("issuing failed");
    assert!(other.verify_token(&token, 1_700_000_000).is_err());
    assert!(svc.verify_token(&token, 1_700_000_000).is_ok());
}

#[test]
fn garbage_token_fails_verification() {
    let svc = service(86400);
    assert!(svc.verify_token("", 0).is_err());
    assert!(svc.verify_token("not.a.token", 0).is_err());
    assert!(svc.verify_token("a.b", 0).is_err());
}

#[test]
fn tampered_and_expired_tokens_are_indistinguishable() {
    // The error deliberately does not say which check refused the token.
    let svc = service(1);
    let issued_at: i64 = 1_700_000_000;
    let token = svc.generate_token(&sample_user(), issued_at).expect("issuing failed");
    let expired = svc.verify_token(&token, issued_at + 2).expect_err("expired");
    let tampered = svc.verify_token("not.a.token", issued_at).expect_err("tampered");
    assert_eq!(expired.error_code(), tampered.error_code());
    assert_eq!(expired.status_code(), tampered.status_code());
    assert_eq!(expired.message(), tampered.message());
}

#[test]
fn auth_response_reports_the_configured_lifetime() {
    let svc = service(3600);
    let user = sample_user();
    let token = svc.generate_token(&user, 1_700_000_000).expect("issuing failed");
    let resp = svc.create_auth_response(&user, token.clone());
    assert_eq!(resp.access_token, token);
    assert_eq!(resp.token_type, "Bearer");
    assert_eq!(resp.expires_in, 3600);
    assert_eq!(resp.user.id, "U1");
    assert_eq!(resp.user.email, "a@x.com");
    assert_eq!(resp.user.phone, "555-0100");
    assert_eq!(resp.user.full_name, "Ada Lovelace");
    assert!(resp.user.is_active);
}

#[test]
fn lifetime_seconds_getter() {
    assert_eq!(service(123).lifetime_seconds(), 123);
}

#[test]
fn refresh_issues_a_new_working_token() {
    let svc = service(86400);
    let user = sample_user();
    let first: i64 = 1_700_000_000;
    let later: i64 = 1_700_000_500;
    let first_token = svc.generate_token(&user, first).expect("issuing failed");
    let resp = svc.refresh_token(&user, later).expect("refresh failed");
    assert_ne!(resp.access_token, first_token);
    assert_eq!(resp.token_type, "Bearer");
    assert_eq!(resp.expires_in, 86400);
    let claims = svc.verify_token(&resp.access_token, later).expect("token must verify");
    assert_eq!(claims.sub, "U1");
    assert_eq!(claims.iat, later);
    assert_eq!(claims.exp, later + 86400);
}

#[test]
fn bearer_header_yields_the_token() {
    assert_eq!(bearer_token("Bearer abc.def.ghi"), Some("abc.def.ghi".to_string()));
    assert_eq!(bearer_token("Bearer "), Some(String::new()));
    assert_eq!(bearer_token("Token abc"), None);
    assert_eq!(bearer_token("Bearer"), None);
    assert_eq!(bearer_token(""), None);
    assert_eq!(bearer_token("bearer abc"), None);
}

#[test]
fn bearer_extraction_round_trips_a_real_token() {
    let svc = service(86400);
    let issued_at: i64 = 1_700_000_000;
    let token = svc.generate_token(&sample_user(), issued_at).expect("issuing failed");
    let header = format!("Bearer {}", token);
    let extracted = bearer_token(&header).expect("the header carries the scheme");
    assert_eq!(extracted, token);
    assert!(svc.verify_token(&extracted, issued_at).is_ok());
}

use auth_service::error::{contains_text, ServiceError};
use auth_service::model::{ApiError, AuthRequest, BaseResponse, CreateUserDTO, GoogleUser, User};
use auth_service::oauth::{check_callback, identity_email, reconcile, session_cookies, Reconciliation};
use auth_service::service::UserService;

fn user(secret: Option<&str>, provider: Option<(&str, &str)>, password: &str) -> User {
    User {
        id: 7,
        created_at: 1_700_000_000_000_000_000,
        modified_at: None,
        deleted_at: None,
        name: "Ann".to_string(),
        email: "ann@example.com".to_string(),
        auth_provider: provider.map(|p| p.0.to_string()),
        auth_provider_user_id: provider.map(|p| p.1.to_string()),
        secret: secret.map(|s| s.to_string()),
        password: password.to_string(),
    }
}

fn profile(email: Option<&str>) -> GoogleUser {
    GoogleUser {
        sub: "g-123".to_string(),
        name: "Ann G".to_string(),
        email: email.map(|e| e.to_string()),
        email_verified: Some(true),
        picture: "https://example.com/a.png".to_string(),
    }
}

fn request(state: &str) -> AuthRequest {
    AuthRequest { code: "the-code".to_string(), state: state.to_string() }
}

fn is_state_mismatch(e: &ServiceError) -> bool {
    matches!(e, ServiceError::BadRequest(m) if m == "400 Bad Request")
}

#[test]
fn callback_with_matching_state_goes_to_exchange() {
    let r = check_callback(Some("s1".to_string()), Some("v1".to_string()), request("s1"));
    let x = r.ok().unwrap();
    assert_eq!(x.code, "the-code");
    assert_eq!(x.code_verifier, "v1");
}

#[test]
fn callback_with_wrong_state_is_rejected() {
    let r = check_callback(Some("s1".to_string()), Some("v1".to_string()), request("s2"));
    assert!(is_state_mismatch(&r.err().unwrap()));
    let r = check_callback(Some("abc".to_string()), Some("v1".to_string()), request("ABC"));
    assert!(is_state_mismatch(&r.err().unwrap()));
}

#[test]
fn callback_without_verifier_is_rejected() {
    let r = check_callback(Some("s1".to_string()), None, request("s1"));
    assert!(is_state_mismatch(&r.err().unwrap()));
}

#[test]
fn callback_without_state_cookie_is_rejected() {
    let r = check_callback(None, Some("v1".to_string()), request("s1"));
    assert!(is_state_mismatch(&r.err().unwrap()));
    let r = check_callback(None, None, request(""));
    assert!(is_state_mismatch(&r.err().unwrap()));
}

#[test]
fn session_cookie_attributes() {
    let (csrf, verifier) = session_cookies("st".to_string(), "ver".to_string());
    assert_eq!(csrf.name, "auth-csrf-state");
    assert_eq!(csrf.value, "st");
    assert_eq!(verifier.name, "auth-code-verifier");
    assert_eq!(verifier.value, "ver");
    for c in [&csrf, &verifier] {
        assert!(c.http_only);
        assert!(c.same_site_lax);
        assert_eq!(c.path, "/");
        assert_eq!(c.max_age, 300);
    }
}

#[test]
fn missing_email_is_internal_error() {
    assert!(matches!(identity_email(&profile(None)), Err(ServiceError::InternalServerError)));
    assert_eq!(identity_email(&profile(Some("ann@example.com"))).ok().unwrap(), "ann@example.com");
    assert!(matches!(identity_email(&profile(Some(""))), Err(ServiceError::InternalServerError)));
}

#[test]
fn reconcile_links_unlinked_user() {
    match reconcile(Some(user(None, None, "h")), profile(Some("ann@example.com")), "ann@example.com".to_string()) {
        Reconciliation::Link(u) => {
            assert_eq!(u.id, 7);
            assert_eq!(u.name, "Ann");
            assert_eq!(u.email, "ann@example.com");
            assert_eq!(u.password, "h");
            assert_eq!(u.auth_provider.as_deref(), Some("google"));
            assert_eq!(u.auth_provider_user_id.as_deref(), Some("g-123"));
        },
        _ => panic!("expected a link"),
    }
}

#[test]
fn reconcile_keeps_linked_user() {
    match reconcile(
        Some(user(None, Some(("github", "gh-1")), "h")),
        profile(Some("ann@example.com")),
        "ann@example.com".to_string(),
    ) {
        Reconciliation::Keep(u) => {
            assert_eq!(u.auth_provider.as_deref(), Some("github"));
            assert_eq!(u.auth_provider_user_id.as_deref(), Some("gh-1"));
        },
        _ => panic!("expected no change"),
    }
}

#[test]
fn reconcile_creates_new_user() {
    match reconcile(None, profile(Some("new@example.com")), "new@example.com".to_string()) {
        Reconciliation::Create(c) => {
            assert_eq!(c.name, "Ann G");
            assert_eq!(c.email, "new@example.com");
            assert_eq!(c.password, "");
            assert_eq!(c.auth_provider.as_deref(), Some("google"));
            assert_eq!(c.auth_provider_user_id.as_deref(), Some("g-123"));
            assert!(c.secret.is_none());
        },
        _ => panic!("expected a new user"),
    }
}

#[test]
fn login_with_otp_secret_asks_second_factor() {
    for password in ["right", "wrong", ""] {
        let d = UserService::login(Some(user(Some("SECRET"), None, "not a hash")), password)
            .ok()
            .unwrap();
        assert_eq!(d.mfa_type.as_deref(), Some("TOTP"));
        assert!(d.token.is_none());
        assert!(d.refresh_token.is_none());
        assert_eq!(d.id, 7);
    }
}

#[test]
fn login_unknown_user_is_not_found() {
    match UserService::login(None, "pw") {
        Err(ServiceError::NotFound(m)) => assert_eq!(m, "couldn't find corresponding user"),
        _ => panic!("expected not found"),
    }
}

#[test]
fn login_checks_password() {
    let hash = bcrypt::hash("right", 4).unwrap();
    assert!(matches!(
        UserService::login(Some(user(None, None, &hash)), "wrong"),
        Err(ServiceError::Unauthorized)
    ));
    let d = UserService::login(Some(user(None, None, &hash)), "right").ok().unwrap();
    assert_eq!(d.token.as_ref().unwrap().len(), 36);
    assert_eq!(d.refresh_token.as_ref().unwrap().len(), 36);
    assert!(d.mfa_type.is_none());
    assert!(matches!(
        UserService::login(Some(user(None, None, "not a hash")), "right"),
        Err(ServiceError::PasswordHash)
    ));
}

#[test]
fn decide_login_outcomes() {
    let d = UserService::decide_login(user(None, None, "h"), Some(true), "tok".to_string(), "ref".to_string()).ok().unwrap();
    assert_eq!(d.token.as_deref(), Some("tok"));
    assert_eq!(d.refresh_token.as_deref(), Some("ref"));
    assert!(matches!(
        UserService::decide_login(user(None, None, "h"), Some(false), "tok".to_string(), "ref".to_string()),
        Err(ServiceError::Unauthorized)
    ));
    assert!(matches!(
        UserService::decide_login(user(None, None, "h"), None, "tok".to_string(), "ref".to_string()),
        Err(ServiceError::PasswordHash)
    ));
    let d = UserService::decide_login(user(Some("S"), None, "h"), Some(true), "tok".to_string(), "ref".to_string()).ok().unwrap();
    assert!(d.token.is_none());
}

#[test]
fn signup_hashes_password() {
    let req = CreateUserDTO {
        name: "Bob".to_string(),
        email: "bob@example.com".to_string(),
        password: "pw".to_string(),
        auth_provider: Some("x".to_string()),
        auth_provider_user_id: Some("y".to_string()),
        secret: Some("z".to_string()),
    };
    let c = UserService::create_user(&req).ok().unwrap();
    assert_eq!(c.name, "Bob");
    assert_eq!(c.email, "bob@example.com");
    assert_ne!(c.password, "pw");
    assert!(bcrypt::verify("pw", &c.password).unwrap());
    assert!(c.auth_provider.is_none() && c.auth_provider_user_id.is_none() && c.secret.is_none());
}

#[test]
fn issue_tokens_fills_tokens() {
    let d = UserService::issue_tokens(user(None, None, "h"));
    assert_eq!(d.token.as_ref().unwrap().len(), 36);
    assert_eq!(d.refresh_token.as_ref().unwrap().len(), 36);
    assert_eq!(d.email, "ann@example.com");
    let e = UserService::issue_tokens(user(None, None, "h"));
    assert_ne!(d.token, e.token);
    assert_ne!(d.refresh_token, e.refresh_token);
    assert_ne!(d.token, d.refresh_token);
}

#[test]
fn enabling_mfa_sets_secret_and_url() {
    let (u, resp) = UserService::mfa_with_secret(user(None, None, "h"), "Hello World!".to_string());
    assert_eq!(u.secret.as_deref(), Some("Hello World!"));
    assert_eq!(u.id, 7);
    assert_eq!(resp.response_code, 200);
    assert_eq!(
        resp.data.url,
        "otpauth://totp/authservice:ann@example.com?secret=JBSWY3DPEBLW64TMMQQQ&issuer=authservice&algorithm=SHA256&digits=6&period=30"
    );
}

#[test]
fn error_statuses() {
    let cases: Vec<(ServiceError, u16, &str)> = vec![
        (ServiceError::BadRequest("400 Bad Request".to_string()), 400, "400 Bad Request"),
        (ServiceError::NotFound("nf".to_string()), 404, "nf"),
        (ServiceError::Unauthorized, 401, "authentication is required to access this resource"),
        (ServiceError::InvalidLoginAttmpt, 400, "username or password is incorrect"),
        (ServiceError::ObjectConflict("dup".to_string()), 409, "dup"),
        (ServiceError::ForbiddenWithMessage("m".to_string()), 403, "user does not have privilege to access this resource: m"),
        (ServiceError::InternalServerErrorWithContext("ctx".to_string()), 500, "ctx"),
        (ServiceError::InternalServerError, 500, "unexpected error: unexpected error has occurred"),
        (ServiceError::Upstream("duplicate key value violates unique constraint \"users_email_key\"".to_string()), 400, "duplicate key value violates unique constraint \"users_email_key\""),
        (ServiceError::Upstream("connection refused".to_string()), 500, "connection refused"),
        (ServiceError::PasswordHash, 500, "unexpected error: password hashing failed"),
    ];
    for (e, status, message) in cases {
        let (s, m) = e.status_and_message();
        assert_eq!(s, status);
        assert_eq!(m, message);
    }
}

#[test]
fn substring_search() {
    assert!(contains_text("abc unique constraint x", "unique constraint"));
    assert!(contains_text("abc", ""));
    assert!(contains_text("abc", "abc"));
    assert!(!contains_text("ab", "abc"));
    assert!(!contains_text("unique constrain", "unique constraint"));
}

#[test]
fn api_error_and_base_response() {
    let e = ApiError::new("boom".to_string());
    assert_eq!(e.errors().len(), 1);
    assert_eq!(e.errors()[0].0, "message");
    assert_eq!(e.errors()[0].1, vec!["boom".to_string()]);
    let entries = e.into_errors();
    assert_eq!(entries.len(), 1);
    let r = BaseResponse::new(201, 5u8);
    assert_eq!(r.response_code, 201);
    assert_eq!(r.data, 5);
}

#[test]
fn storage_duplicate_key_is_conflict() {
    let text = "duplicate key value violates unique constraint \"users_email_key\"";
    match ServiceError::from_storage(text.to_string()) {
        ServiceError::ObjectConflict(m) => assert_eq!(m, text),
        other => panic!("expected a conflict, got {:?}", other),
    }
    let (status, _) = ServiceError::from_storage(text.to_string()).status_and_message();
    assert_eq!(status, 409);
    match ServiceError::from_storage("pool timed out".to_string()) {
        ServiceError::Upstream(m) => assert_eq!(m, "pool timed out"),
        other => panic!("expected an upstream failure, got {:?}", other),
    }
}

#[test]
fn signup_record_takes_hash() {
    let req = CreateUserDTO {
        name: "Bob".to_string(),
        email: "bob@example.com".to_string(),
        password: "pw".to_string(),
        auth_provider: None,
        auth_provider_user_id: None,
        secret: None,
    };
    let c = UserService::signup_record(&req, Some("$2b$04$hash".to_string())).ok().unwrap();
    assert_eq!(c.password, "$2b$04$hash");
    assert_eq!(c.name, "Bob");
    assert!(matches!(UserService::signup_record(&req, None), Err(ServiceError::PasswordHash)));
}

#[test]
fn callback_discards_session_cookies() {
    let (csrf, verifier) = auth_service::oauth::discard_session_cookies();
    assert_eq!(csrf.name, "auth-csrf-state");
    assert_eq!(verifier.name, "auth-code-verifier");
    for c in [&csrf, &verifier] {
        assert_eq!(c.value, "");
        assert_eq!(c.max_age, 0);
        assert_eq!(c.path, "/");
        assert!(c.http_only && c.same_site_lax);
    }
}

#[test]
fn enabling_mfa_draws_fresh_secret() {
    let (u, resp) = UserService::set_mfa(user(None, None, "h"));
    let secret = u.secret.clone().unwrap();
    assert_eq!(secret.chars().count(), 20);
    assert_eq!(resp.response_code, 200);
    let expected = auth_service::otp::Hotp::new(
        Some(auth_service::otp::HMAC::HMACSHA256),
        "authservice",
        "ann@example.com",
        &secret,
        6,
    )
    .get_url();
    assert_eq!(resp.data.url, expected);
    let (v, _) = UserService::set_mfa(user(None, None, "h"));
    assert_ne!(u.secret, v.secret);
}

#[test]
fn random_strings_have_requested_length() {
    for len in [0usize, 1, 20, 32, 33, 70] {
        let s = auth_service::service::generate_random_string(len);
        assert_eq!(s.chars().count(), len);
        assert!(s.chars().all(|c| c.is_ascii_hexdigit()));
    }
}

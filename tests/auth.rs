use kenya_auth::auth::{AuthService, LoginOutcome};
use kenya_auth::config::SecurityConfig;
use kenya_auth::error::AuthError;
use kenya_auth::password::PasswordService;
use kenya_auth::token::{Claims, TokenService, TokenValidation};
use kenya_auth::user::{
    ChangePasswordRequest, LoginRequest, TwoFADisableRequest, TwoFASetupRequest, User, UserRole,
};

const PASSWORD: &str = "Str0ng!Secur1ty";
const T0: i64 = 1_700_000_000;

fn service() -> AuthService {
    AuthService::new(PasswordService::new(), TokenService::new(SecurityConfig::default()))
}

fn alice(service: &AuthService) -> User {
    User {
        id: "7f1d8f8e-8c1b-4d3a-9a55-0b4f3c2e1d00".to_string(),
        username: "alice".to_string(),
        password_hash: service.password_service.hash_password(PASSWORD).unwrap(),
        role: UserRole::KenyaGovernment,
        is_temporary_password: false,
        created_at: T0,
        updated_at: T0,
        last_login: None,
        login_attempts: 0,
        is_locked: false,
        lockout_expiry: None,
        password_changed_at: None,
        session_token: None,
        session_expires_at: None,
        two_fa_enabled: false,
        two_fa_secret: None,
        two_fa_backup_codes: None,
        two_fa_enabled_at: None,
    }
}

fn login(password: &str, code: Option<&str>) -> LoginRequest {
    LoginRequest {
        username: "alice".to_string(),
        password: password.to_string(),
        user_agent: None,
        ip_address: Some("10.0.0.1".to_string()),
        two_fa_code: code.map(|c| c.to_string()),
    }
}

#[test]
fn five_failures_lock_until_window_ends() {
    let service = service();
    let mut user = alice(&service);
    for i in 1..=5 {
        let r = service.authenticate(&mut user, &login("wrong", None), T0);
        assert!(matches!(r, Err(AuthError::InvalidCredentials)));
        assert_eq!(user.login_attempts, i);
    }
    assert!(user.is_locked);
    assert_eq!(user.lockout_expiry, Some(T0 + 300));

    let r = service.authenticate(&mut user, &login(PASSWORD, None), T0 + 1);
    assert!(matches!(r, Err(AuthError::AccountLocked)));
    let r = service.authenticate(&mut user, &login(PASSWORD, None), T0 + 299);
    assert!(matches!(r, Err(AuthError::AccountLocked)));

    let r = service.authenticate(&mut user, &login(PASSWORD, None), T0 + 300).unwrap();
    let session_id = match &r {
        LoginOutcome::Complete { session_id } => session_id.clone(),
        _ => panic!("expected a complete login"),
    };
    assert_eq!(user.login_attempts, 0);
    assert!(!user.is_locked);
    assert_eq!(user.lockout_expiry, None);
    assert_eq!(user.session_token, Some(session_id));
    assert_eq!(user.session_expires_at, Some(T0 + 300 + 1800));
    assert_eq!(user.last_login, Some(T0 + 300));

    let response = service.login_response(&user, r, "signed.token.text".to_string());
    assert!(!response.requires_two_fa);
    assert_eq!(response.token, "signed.token.text");
    assert_eq!(response.expires_in, 28800);
    assert_eq!(response.two_fa_temp_token, None);
    assert_eq!(response.user.username, "alice");
    assert_eq!(response.user.login_attempts, 0);
}

#[test]
fn second_factor_is_requested_then_checked() {
    let service = service();
    let mut user = alice(&service);
    let secret = service.two_fa_service.generate_secret();
    user.two_fa_enabled = true;
    user.two_fa_secret = Some(secret.clone());
    user.two_fa_backup_codes = Some("[\"AAAA1111\",\"BBBB2222\"]".to_string());

    let r = service.authenticate(&mut user, &login(PASSWORD, None), T0).unwrap();
    match &r {
        LoginOutcome::SecondFactorRequired { temp_token, .. } => {
            assert!(service.two_fa_service.validate_temp_token(temp_token));
        }
        _ => panic!("expected a pending second factor"),
    }
    let response = service.login_response(&user, r, String::new());
    assert!(response.requires_two_fa);
    assert!(response.token.is_empty());
    assert_eq!(response.expires_in, 0);

    let code = service.two_fa_service.generate_totp_at(&secret, T0 as u64).unwrap();
    let r = service.authenticate(&mut user, &login(PASSWORD, Some(&code)), T0);
    assert!(matches!(r, Ok(LoginOutcome::Complete { .. })));

    let r = service.authenticate(&mut user, &login(PASSWORD, Some("BBBB2222")), T0);
    assert!(matches!(r, Ok(LoginOutcome::Complete { .. })));
    assert_eq!(user.two_fa_backup_codes, Some("[\"AAAA1111\"]".to_string()));

    let r = service.authenticate(&mut user, &login(PASSWORD, Some("BBBB2222")), T0);
    assert!(matches!(r, Err(AuthError::InvalidCredentials)));
    assert_eq!(user.login_attempts, 1);

    let r = service.authenticate(&mut user, &login(PASSWORD, Some("12-45")), T0);
    assert!(matches!(r, Err(AuthError::InvalidCredentials)));
}

#[test]
fn change_password_checks_in_order() {
    let service = service();
    let mut user = alice(&service);
    user.is_temporary_password = true;
    let req = |current: &str, new: &str, confirm: &str| ChangePasswordRequest {
        current_password: current.to_string(),
        new_password: new.to_string(),
        confirm_password: confirm.to_string(),
    };
    let r = service.change_password(&mut user, &req("wrong", "short", "different"), T0);
    assert!(matches!(r, Err(AuthError::PasswordMismatch)));
    let r = service.change_password(&mut user, &req("wrong", "short", "short"), T0);
    assert!(matches!(r, Err(AuthError::InvalidCredentials)));
    let r = service.change_password(&mut user, &req(PASSWORD, "short", "short"), T0);
    assert!(matches!(r, Err(AuthError::PasswordTooWeak)));
    let r = service.change_password(&mut user, &req(PASSWORD, PASSWORD, PASSWORD), T0);
    assert!(matches!(r, Err(AuthError::InternalError(_))));
    assert!(user.is_temporary_password);

    let r = service.change_password(&mut user, &req(PASSWORD, "N3w!Horizon#x", "N3w!Horizon#x"), T0 + 5);
    assert!(r.is_ok());
    assert!(!user.is_temporary_password);
    assert_eq!(user.password_changed_at, Some(T0 + 5));
    assert!(service.password_service.verify_password("N3w!Horizon#x", &user.password_hash).unwrap());
}

#[test]
fn session_ends_with_logout() {
    let service = service();
    let mut user = alice(&service);
    let outcome = service.authenticate(&mut user, &login(PASSWORD, None), T0).unwrap();
    let session_id = match outcome {
        LoginOutcome::Complete { session_id } => session_id,
        _ => panic!("expected a complete login"),
    };
    let validation = TokenValidation {
        user_id: user.id.clone(),
        username: "alice".to_string(),
        role: "kenya_government".to_string(),
        session_id,
        is_temp_password: false,
        expires_at: T0 + 28800,
    };
    let summary = service.validate_session(&validation, &user, T0 + 10).unwrap();
    assert_eq!(summary.id, user.id);
    assert!(matches!(
        service.validate_session(&validation, &user, T0 + 1800),
        Err(AuthError::SessionExpired)
    ));
    service.logout(&mut user);
    assert_eq!(user.session_token, None);
    assert!(matches!(
        service.validate_session(&validation, &user, T0 + 10),
        Err(AuthError::SessionExpired)
    ));
}

#[test]
fn token_claims_expire_after_window_and_leeway() {
    let tokens = TokenService::new(SecurityConfig::default());
    let service = service();
    let user = alice(&service);
    let claims: Claims = tokens.generate_claims(&user, "test_session", T0 as usize);
    assert_eq!(claims.exp, T0 as usize + 28800);
    assert_eq!(claims.jti.len(), 36);
    let v = tokens.validate_claims(&claims, T0 + 28800 + 60).unwrap();
    assert_eq!(v.user_id, user.id);
    assert_eq!(v.username, "alice");
    assert_eq!(v.session_id, "test_session");
    assert!(matches!(
        tokens.validate_claims(&claims, T0 + 28800 + 61),
        Err(AuthError::TokenExpired)
    ));
    let mut other = claims.clone();
    other.aud = "someone-else".to_string();
    assert!(matches!(tokens.validate_claims(&other, T0), Err(AuthError::InvalidToken)));
    let mut other = claims.clone();
    other.role = "admin".to_string();
    assert!(matches!(tokens.validate_claims(&other, T0), Err(AuthError::Unauthorized)));
    let mut other = claims.clone();
    other.sub = "not-a-uuid".to_string();
    assert!(matches!(tokens.validate_claims(&other, T0), Err(AuthError::InvalidToken)));
}

#[test]
fn second_factor_disable_needs_password_and_code() {
    let service = service();
    let mut user = alice(&service);
    user.two_fa_enabled = true;
    user.two_fa_backup_codes = Some("[\"AAAA1111\"]".to_string());
    let req = |password: &str, backup: Option<&str>| TwoFADisableRequest {
        password: password.to_string(),
        totp_code: None,
        backup_code: backup.map(|b| b.to_string()),
    };
    assert!(matches!(
        service.disable_two_fa(&mut user, &req("wrong", Some("AAAA1111")), T0),
        Err(AuthError::InvalidCredentials)
    ));
    assert!(matches!(
        service.disable_two_fa(&mut user, &req(PASSWORD, None), T0),
        Err(AuthError::InternalError(_))
    ));
    assert!(matches!(
        service.disable_two_fa(&mut user, &req(PASSWORD, Some("ZZZZ9999")), T0),
        Err(AuthError::InvalidCredentials)
    ));
    assert!(user.two_fa_enabled);
    assert!(service.disable_two_fa(&mut user, &req(PASSWORD, Some("AAAA1111")), T0 + 7).is_ok());
    assert!(!user.two_fa_enabled);
    assert_eq!(user.two_fa_backup_codes, None);
    assert_eq!(user.updated_at, T0 + 7);
}

#[test]
fn second_factor_setup_rejects_a_wrong_code() {
    let service = service();
    let mut user = alice(&service);
    let prepared = service.prepare_two_fa_setup(&user).unwrap();
    assert!(!prepared.enabled);
    assert_eq!(prepared.backup_codes.len(), 10);
    assert!(prepared.qr_code.starts_with("data:image/png;base64,"));

    let wrong = TwoFASetupRequest { totp_code: "abcdef".to_string() };
    let r = service.setup_two_fa(&mut user, &wrong, &prepared.secret, T0);
    assert!(matches!(r, Err(AuthError::InvalidCredentials)));
    assert!(!user.two_fa_enabled);
}

#[test]
fn second_factor_setup_enrols_the_shown_secret() {
    let service = service();
    let mut user = alice(&service);
    let prepared = service.prepare_two_fa_setup(&user).unwrap();
    let code = service.two_fa_service.generate_totp_at(&prepared.secret, T0 as u64).unwrap();
    let request = TwoFASetupRequest { totp_code: code };
    let r = service.setup_two_fa(&mut user, &request, &prepared.secret, T0 + 20).unwrap();
    assert!(r.enabled);
    assert_eq!(r.secret, prepared.secret);
    assert_eq!(r.backup_codes.len(), 10);
    assert!(user.two_fa_enabled);
    assert_eq!(user.two_fa_secret, Some(prepared.secret.clone()));
    assert_eq!(user.two_fa_enabled_at, Some(T0 + 20));
    let stored = user.two_fa_backup_codes.clone().unwrap();
    let (ok, _) = service.two_fa_service.verify_backup_code(&stored, &r.backup_codes[3]).unwrap();
    assert!(ok);
}

#[test]
fn pending_second_factor_completion() {
    let service = service();
    assert!(matches!(service.verify_two_fa("invalid_token"), Err(AuthError::InvalidToken)));
    let token = service.two_fa_service.generate_temp_token();
    assert!(matches!(service.verify_two_fa(&token), Err(AuthError::InternalError(_))));
}

#[test]
fn default_user_has_a_temporary_password() {
    let service = service();
    for _ in 0..20 {
        let temp = service.password_service.generate_temporary_password();
        assert!(service.password_service.validate_password_strength(&temp).is_ok());
        assert_eq!(temp.len(), 12);
    }
    let (user, temp) = service.create_default_user("id-1".to_string(), T0).unwrap();
    assert_eq!(user.username, "kenya_government");
    assert!(user.is_temporary_password);
    assert!(service.password_service.verify_password(&temp, &user.password_hash).unwrap());
    assert!(temp.len() >= 12);
}

#[test]
fn error_messages() {
    assert_eq!(AuthError::AccountLocked.message(), "Account is temporarily locked");
    assert_eq!(
        AuthError::InternalError("disk".to_string()).message(),
        "Internal error: disk"
    );
}

#[test]
fn uuid_forms_match_the_uuid_crate() {
    let samples = [
        "67e55044-10b1-426f-9247-bb680e5fe0c8",
        "67E55044-10B1-426F-9247-BB680E5FE0C8",
        "67e5504410b1426f9247bb680e5fe0c8",
        "{67e55044-10b1-426f-9247-bb680e5fe0c8}",
        "urn:uuid:67e55044-10b1-426f-9247-bb680e5fe0c8",
        "URN:UUID:67e55044-10b1-426f-9247-bb680e5fe0c8",
        "67e55044-10b1-426f-9247-bb680e5fe0cg",
        "67e55044x10b1-426f-9247-bb680e5fe0c8",
        "urn:uuix:67e55044-10b1-426f-9247-bb680e5fe0c8",
        "(67e55044-10b1-426f-9247-bb680e5fe0c8)",
        "not-a-uuid",
        "",
    ];
    for s in samples {
        assert_eq!(
            kenya_auth::token::parses_as_uuid(s),
            uuid::Uuid::parse_str(s).is_ok(),
            "{}",
            s
        );
    }
}

use base64::Engine;
use kenya_auth::twofa::{consume_backup_code, TwoFAService};

#[test]
fn test_generate_secret() {
    let service = TwoFAService::new("TestApp".to_string());
    let secret = service.generate_secret();

    assert!(!secret.is_empty());
    assert!(base64::engine::general_purpose::STANDARD.decode(&secret).is_ok());
}

#[test]
fn test_totp_generation_and_verification() {
    let service = TwoFAService::new("TestApp".to_string());
    let secret = service.generate_secret();

    let code = service.generate_totp(&secret, None).unwrap();
    assert_eq!(code.len(), 6);

    let is_valid = service.verify_totp(&secret, &code).unwrap();
    assert!(is_valid);
}

#[test]
fn test_backup_codes() {
    let service = TwoFAService::new("TestApp".to_string());
    let codes = service.generate_backup_codes(10);

    assert_eq!(codes.len(), 10);
    assert!(codes.iter().all(|code| code.len() == 8));

    let codes_json = service.hash_backup_codes(&codes).unwrap();
    let (is_valid, _) = service.verify_backup_code(&codes_json, &codes[0]).unwrap();
    assert!(is_valid);
}

#[test]
fn test_temp_token() {
    let service = TwoFAService::new("TestApp".to_string());
    let token = service.generate_temp_token();

    assert!(service.validate_temp_token(&token));
    assert!(!service.validate_temp_token("invalid_token"));
}

#[test]
fn totp_window_tolerates_one_step() {
    let service = TwoFAService::new("TestApp".to_string());
    // "12345678901234567890" in base64, the RFC 6238 test key.
    let secret = "MTIzNDU2Nzg5MDEyMzQ1Njc4OTA=";
    let t: u64 = 1_111_111_109;
    let code = service.generate_totp_at(secret, t).unwrap();
    assert_eq!(code, "081804");
    assert!(service.verify_totp_at(secret, &code, t).unwrap());
    assert!(service.verify_totp_at(secret, &code, t + 30).unwrap());
    assert!(service.verify_totp_at(secret, &code, t - 30).unwrap());
    assert!(!service.verify_totp_at(secret, &code, t + 90).unwrap());
    assert!(!service.verify_totp_at(secret, &code, t - 90).unwrap());
}

#[test]
fn totp_with_undecodable_secret_is_invalid_token() {
    let service = TwoFAService::new("TestApp".to_string());
    assert!(matches!(
        service.verify_totp_at("not base64!!", "123456", 0),
        Err(kenya_auth::error::AuthError::InvalidToken)
    ));
    assert!(service.generate_totp("not base64!!", Some(10)).is_err());
}

#[test]
fn backup_code_verifies_exactly_once() {
    let service = TwoFAService::new("TestApp".to_string());
    let codes = vec!["AAAA1111".to_string(), "BBBB2222".to_string()];
    let stored = service.hash_backup_codes(&codes).unwrap();
    assert_eq!(stored, "[\"AAAA1111\",\"BBBB2222\"]");
    let (first, updated) = service.verify_backup_code(&stored, "BBBB2222").unwrap();
    assert!(first);
    assert_eq!(updated, "[\"AAAA1111\"]");
    let (second, unchanged) = service.verify_backup_code(&updated, "BBBB2222").unwrap();
    assert!(!second);
    assert_eq!(unchanged, updated);
}

#[test]
fn backup_codes_in_bad_json_are_an_internal_error() {
    let service = TwoFAService::new("TestApp".to_string());
    assert!(matches!(
        service.verify_backup_code("not json", "AAAA1111"),
        Err(kenya_auth::error::AuthError::InternalError(_))
    ));
}

#[test]
fn consume_removes_first_occurrence_only() {
    let mut codes = vec!["X".to_string(), "Y".to_string(), "X".to_string()];
    assert!(consume_backup_code(&mut codes, "X"));
    assert_eq!(codes, vec!["Y".to_string(), "X".to_string()]);
    assert!(!consume_backup_code(&mut codes, "Z"));
    assert_eq!(codes.len(), 2);
}

#[test]
fn generated_backup_codes_are_capitals_and_digits() {
    let service = TwoFAService::new("TestApp".to_string());
    for code in service.generate_backup_codes(5) {
        assert!(code.chars().all(|c| c.is_ascii_uppercase() || c.is_ascii_digit()));
    }
}

#[test]
fn qr_code_is_a_png_data_url() {
    let service = TwoFAService::new("Kenya FSFVI Platform".to_string());
    let url = service.provisioning_url("alice", "SECRET");
    assert_eq!(
        url,
        "otpauth://totp/Kenya FSFVI Platform:alice?secret=SECRET&issuer=Kenya FSFVI Platform"
    );
    let qr = service.generate_qr_code("alice", "SECRET").unwrap();
    assert!(qr.starts_with("data:image/png;base64,"));
    let png = base64::engine::general_purpose::STANDARD
        .decode(&qr["data:image/png;base64,".len()..])
        .unwrap();
    assert_eq!(&png[1..4], b"PNG");
}

#[test]
fn issuer_is_kept() {
    let service = TwoFAService::new("TestApp".to_string());
    assert_eq!(service.get_issuer(), "TestApp");
}

#[test]
fn backup_codes_are_distinct() {
    let service = TwoFAService::new("TestApp".to_string());
    let codes = service.generate_backup_codes(200);
    let mut sorted = codes.clone();
    sorted.sort();
    sorted.dedup();
    assert_eq!(sorted.len(), 200);
}

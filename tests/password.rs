use kenya_auth::config::PasswordPolicy;
use kenya_auth::error::AuthError;
use kenya_auth::password::{PasswordService, PasswordStrength, PolicyViolation};

#[test]
fn test_password_hashing() {
    let service = PasswordService::new();
    // "TestPassword123!" holds the forbidden patterns "password" and "123", so the
    // strength check refuses it before any hashing.
    let password = "TestPassword123!";
    assert!(matches!(service.hash_password(password), Err(AuthError::PasswordTooWeak)));

    let strong = "Str0ng!Secur1ty";
    let hash = service.hash_password(strong).unwrap();
    assert!(hash.starts_with("$argon2id$"));
    assert!(service.verify_password(strong, &hash).unwrap());
    assert!(!service.verify_password("wrong", &hash).unwrap());
}

#[test]
fn test_password_strength_validation() {
    let service = PasswordService::new();

    // Holds the forbidden pattern "123".
    assert!(service.validate_password_strength("ComplexP@ssw0rd123").is_err());
    assert!(service.validate_password_strength("ComplexP@ssw0rd987").is_ok());

    // Too short.
    assert!(service.validate_password_strength("Short1!").is_err());

    // No special characters.
    assert!(service.validate_password_strength("NoSpecialChars123").is_err());
}

#[test]
fn test_temporary_password_generation() {
    let service = PasswordService::new();
    let temp_password = service.generate_temporary_password();

    assert!(service.validate_password_strength(&temp_password).is_ok());
    assert!(temp_password.len() >= 12);
}

#[test]
fn violations_are_listed_in_check_order() {
    let service = PasswordService::new();
    let v = service.password_violations("aaaa");
    assert_eq!(
        v,
        vec![
            PolicyViolation::TooShort,
            PolicyViolation::MissingUppercase,
            PolicyViolation::MissingNumber,
            PolicyViolation::MissingSpecial,
            PolicyViolation::RepeatingChars,
        ]
    );
    let v = service.password_violations("Kenya!Password9x");
    assert_eq!(v, vec![PolicyViolation::ForbiddenPattern(2), PolicyViolation::ForbiddenPattern(4)]);
    assert!(service.password_violations("Str0ng!Secur1ty").is_empty());
}

#[test]
fn repeating_characters_limit() {
    let service = PasswordService::new();
    assert!(!service.has_excessive_repeating_chars("aaab"));
    assert!(service.has_excessive_repeating_chars("baaaa"));
    assert!(!service.has_excessive_repeating_chars(""));
    let mut policy = PasswordPolicy::default();
    policy.max_repeating_chars = 0;
    let strict = PasswordService::with_policy(policy);
    assert!(strict.has_excessive_repeating_chars("ab"));
}

#[test]
fn custom_policy_without_classes() {
    let policy = PasswordPolicy {
        min_length: 4,
        require_uppercase: false,
        require_lowercase: true,
        require_numbers: false,
        require_special_chars: false,
        max_repeating_chars: 2,
        forbidden_patterns: vec!["XyZ".to_string()],
    };
    let service = PasswordService::with_policy(policy);
    assert!(service.validate_password_strength("lower").is_ok());
    assert!(matches!(
        service.validate_password_strength("abxyzq"),
        Err(AuthError::PasswordTooWeak)
    ));
    assert!(service.validate_password_strength("lowwwer").is_err());
}

#[test]
fn common_passwords_are_found_case_insensitively() {
    let service = PasswordService::new();
    assert!(service.is_common_password("MyDRAGONpass"));
    assert!(service.is_common_password("nairobi2024"));
    assert!(!service.is_common_password("Zebra!Quilt7"));
}

#[test]
fn strength_ratings() {
    let service = PasswordService::new();
    // 4 lower-case letters: 5 for the class, 4 * log2(26) < 25 bits.
    assert_eq!(service.rate_password_strength("abcd"), PasswordStrength::VeryWeak);
    // 12 chars, all four classes: 20 + 25 + entropy 12*log2(94) = 78.7 bits -> 20.
    assert_eq!(service.rate_password_strength("Zebra!Quilt7"), PasswordStrength::Moderate);
    // 20 chars, all four classes: 40 + 25 + 20 = 85.
    assert_eq!(service.rate_password_strength("Zebra!Quilt7Mango#Sx"), PasswordStrength::Strong);
    // 16 chars with four classes: 30 + 25 + 20 = 75.
    assert_eq!(service.rate_password_strength("Zebra!Quilt7Mang"), PasswordStrength::Strong);
    // common word and a long run: 20 + 5 + 15 - 30 - 20 is below zero.
    assert_eq!(service.rate_password_strength("dragonnnnnnn"), PasswordStrength::VeryWeak);
    // 12 lower-case letters: 20 + 5 + 12*log2(26) = 56.4 bits -> 15 = 40.
    assert_eq!(service.rate_password_strength("zebraquiltmx"), PasswordStrength::Weak);
    assert_eq!(PasswordStrength::Moderate.to_string(), "Moderate");
    assert_eq!(PasswordStrength::VeryStrong.to_string(), "Very Strong");
}

#[test]
fn charset_size_counts_classes() {
    let service = PasswordService::new();
    assert_eq!(service.charset_size(""), 0);
    assert_eq!(service.charset_size("abc"), 26);
    assert_eq!(service.charset_size("aB3!"), 94);
    assert_eq!(service.charset_size("12"), 10);
}

#[test]
fn passwords_are_same_uses_verification() {
    let service = PasswordService::new();
    let hash = service.hash_password("Str0ng!Secur1ty").unwrap();
    assert!(service.passwords_are_same("Str0ng!Secur1ty", &hash));
    assert!(!service.passwords_are_same("Str0ng!Secur1tz", &hash));
    assert!(!service.passwords_are_same("Str0ng!Secur1ty", "not-a-digest"));
}

#[test]
fn bcrypt_digests_still_verify() {
    let service = PasswordService::new();
    let digest = bcrypt::hash("Legacy!Pass9", 4).unwrap();
    assert!(service.verify_password("Legacy!Pass9", &digest).unwrap());
    assert!(!service.verify_password("Legacy!Pass8", &digest).unwrap());
}

#[test]
fn garbled_digests_verify_as_false() {
    let service = PasswordService::new();
    assert!(!service.verify_password("Str0ng!Secur1ty", "not-a-hash").unwrap());
    assert!(!service.verify_password("Str0ng!Secur1ty", "").unwrap());
    assert!(!service.verify_password("Str0ng!Secur1ty", "$argon2id$garbled").unwrap());
}

#[test]
fn length_counts_utf8_bytes() {
    let policy = PasswordPolicy {
        min_length: 6,
        require_uppercase: false,
        require_lowercase: false,
        require_numbers: false,
        require_special_chars: false,
        max_repeating_chars: 3,
        forbidden_patterns: vec![],
    };
    let service = PasswordService::with_policy(policy);
    // Three characters, six bytes.
    assert!(service.validate_password_strength("éèê").is_ok());
    assert!(service.validate_password_strength("abc").is_err());
}

//! Policy and deployment settings.
use vstd::prelude::*;
use vstd::string::StringExecFns;

verus! {

/// Failed-attempt threshold and lockout window.
#[derive(Debug, Clone)]
pub struct RateLimitConfig {
    pub max_attempts: u32,
    pub window_seconds: u64,
    pub lockout_duration_seconds: u64,
}

impl Default for RateLimitConfig {
    fn default() -> (r: Self)
        ensures
            r.max_attempts == 5,
            r.window_seconds == 300,
            r.lockout_duration_seconds == 300,
    {
        RateLimitConfig { max_attempts: 5, window_seconds: 300, lockout_duration_seconds: 300 }
    }
}

/// Token and session settings.
#[derive(Debug, Clone)]
pub struct SecurityConfig {
    pub jwt_secret: String,
    pub jwt_expiration_hours: i64,
    pub password_salt_rounds: u32,
    pub rate_limit: RateLimitConfig,
    pub session_timeout_minutes: i64,
    pub require_password_change: bool,
}

impl Default for SecurityConfig {
    fn default() -> (r: Self)
        ensures
            r.jwt_expiration_hours == 8,
            r.password_salt_rounds == 12,
            r.rate_limit.max_attempts == 5,
            r.rate_limit.lockout_duration_seconds == 300,
            r.session_timeout_minutes == 30,
            r.require_password_change,
    {
        SecurityConfig {
            jwt_secret: String::from_str("your-super-secret-jwt-key-change-this-in-production"),
            jwt_expiration_hours: 8,
            password_salt_rounds: 12,
            rate_limit: RateLimitConfig::default(),
            session_timeout_minutes: 30,
            require_password_change: true,
        }
    }
}

/// Rules a new password must satisfy.
#[derive(Debug, Clone)]
pub struct PasswordPolicy {
    pub min_length: usize,
    pub require_uppercase: bool,
    pub require_lowercase: bool,
    pub require_numbers: bool,
    pub require_special_chars: bool,
    pub max_repeating_chars: usize,
    pub forbidden_patterns: Vec<String>,
}

impl Default for PasswordPolicy {
    fn default() -> (r: Self)
        ensures
            r.min_length == 12,
            r.require_uppercase && r.require_lowercase,
            r.require_numbers && r.require_special_chars,
            r.max_repeating_chars == 3,
            r.forbidden_patterns@.len() == 6,
            r.forbidden_patterns@[0]@ == "123"@,
            r.forbidden_patterns@[1]@ == "abc"@,
            r.forbidden_patterns@[2]@ == "password"@,
            r.forbidden_patterns@[3]@ == "qwerty"@,
            r.forbidden_patterns@[4]@ == "kenya"@,
            r.forbidden_patterns@[5]@ == "government"@,
    {
        let mut forbidden_patterns: Vec<String> = Vec::new();
        forbidden_patterns.push(String::from_str("123"));
        forbidden_patterns.push(String::from_str("abc"));
        forbidden_patterns.push(String::from_str("password"));
        forbidden_patterns.push(String::from_str("qwerty"));
        forbidden_patterns.push(String::from_str("kenya"));
        forbidden_patterns.push(String::from_str("government"));
        PasswordPolicy {
            min_length: 12,
            require_uppercase: true,
            require_lowercase: true,
            require_numbers: true,
            require_special_chars: true,
            max_repeating_chars: 3,
            forbidden_patterns,
        }
    }
}

/// Server settings read from the environment by the executable.
#[derive(Debug, Clone)]
pub struct AppConfig {
    pub database_url: String,
    pub jwt_secret: String,
    pub host: String,
    pub port: u16,
    pub cors_origins: Vec<String>,
}

} // verus!

//! The user record and the request and response shapes around it.
use vstd::prelude::*;
use crate::clock::{rfc3339, rfc3339_of};
use crate::password::{any_lower, any_numeric, any_special, any_upper, has_lower, has_numeric, has_special, has_upper};
use crate::text::{byte_len, byte_length, chars_of, contains_chars, contains_seq, lowercase_of, to_lowercase};

verus! {

/// User role: a closed set, kept as an enum so new roles are checked where
/// they are matched.
#[derive(Debug, Clone, Copy, PartialEq, Eq, Structural)]
pub enum UserRole {
    KenyaGovernment,
}

impl Default for UserRole {
    fn default() -> (r: Self)
        ensures
            r == UserRole::KenyaGovernment,
    {
        UserRole::KenyaGovernment
    }
}

/// The user record as stored; instants are seconds since the Unix epoch.
#[derive(Debug, Clone)]
pub struct User {
    pub id: String,
    pub username: String,
    pub password_hash: String,
    pub role: UserRole,
    pub is_temporary_password: bool,
    pub created_at: i64,
    pub updated_at: i64,
    pub last_login: Option<i64>,
    pub login_attempts: i32,
    pub is_locked: bool,
    pub lockout_expiry: Option<i64>,
    pub password_changed_at: Option<i64>,
    pub session_token: Option<String>,
    pub session_expires_at: Option<i64>,
    pub two_fa_enabled: bool,
    pub two_fa_secret: Option<String>,
    /// JSON array of the unused backup codes.
    pub two_fa_backup_codes: Option<String>,
    pub two_fa_enabled_at: Option<i64>,
}

impl User {
    /// The record's invariant: a lock has an expiry, a session token has an
    /// expiry and the other way round, a second-factor secret exists only while
    /// the second factor is enabled, and the attempt counter is not negative.
    pub open spec fn wf(&self) -> bool {
        &&& self.is_locked ==> self.lockout_expiry is Some
        &&& (self.session_token is Some <==> self.session_expires_at is Some)
        &&& self.two_fa_secret is Some ==> self.two_fa_enabled
        &&& self.login_attempts >= 0
    }
}

impl User {
    /// Whether the record satisfies its invariant (`wf`).
    pub fn is_well_formed(&self) -> (r: bool)
        ensures
            r == self.wf(),
    {
        (!self.is_locked || self.lockout_expiry.is_some()) && (self.session_token.is_some()
            == self.session_expires_at.is_some()) && (self.two_fa_secret.is_none()
            || self.two_fa_enabled) && self.login_attempts >= 0
    }
}

pub open spec fn rfc3339_opt(t: Option<i64>) -> Option<Seq<char>> {
    match t {
        Some(s) => rfc3339_of(s),
        None => None,
    }
}

pub open spec fn opt_view(s: Option<String>) -> Option<Seq<char>> {
    match s {
        Some(x) => Some(x@),
        None => None,
    }
}

fn rfc3339_opt_exec(t: Option<i64>) -> (r: Option<String>)
    ensures
        opt_view(r) == rfc3339_opt(t),
{
    match t {
        Some(s) => rfc3339(s),
        None => None,
    }
}

/// User summary for callers: never holds the password hash or the second-factor
/// secret.
#[derive(Debug)]
pub struct UserResponse {
    pub id: String,
    pub username: String,
    pub role: UserRole,
    pub is_temporary_password: bool,
    pub last_login: Option<String>,
    pub login_attempts: i32,
    pub is_locked: bool,
    pub lockout_expiry: Option<String>,
    pub two_fa_enabled: bool,
    pub two_fa_enabled_at: Option<String>,
}

impl UserResponse {
    /// Whether `self` summarises `user`.
    pub open spec fn summarises(&self, user: User) -> bool {
        &&& self.id@ == user.id@
        &&& self.username@ == user.username@
        &&& self.role == user.role
        &&& self.is_temporary_password == user.is_temporary_password
        &&& opt_view(self.last_login) == rfc3339_opt(user.last_login)
        &&& self.login_attempts == user.login_attempts
        &&& self.is_locked == user.is_locked
        &&& opt_view(self.lockout_expiry) == rfc3339_opt(user.lockout_expiry)
        &&& self.two_fa_enabled == user.two_fa_enabled
        &&& opt_view(self.two_fa_enabled_at) == rfc3339_opt(user.two_fa_enabled_at)
    }

    /// The summary of `user`, instants written in RFC 3339.
    pub fn from_user(user: &User) -> (r: UserResponse)
        ensures
            r.summarises(*user),
    {
        UserResponse {
            id: user.id.clone(),
            username: user.username.clone(),
            role: user.role,
            is_temporary_password: user.is_temporary_password,
            last_login: rfc3339_opt_exec(user.last_login),
            login_attempts: user.login_attempts,
            is_locked: user.is_locked,
            lockout_expiry: rfc3339_opt_exec(user.lockout_expiry),
            two_fa_enabled: user.two_fa_enabled,
            two_fa_enabled_at: rfc3339_opt_exec(user.two_fa_enabled_at),
        }
    }
}

/// Login request.
#[derive(Debug, Clone)]
pub struct LoginRequest {
    pub username: String,
    pub password: String,
    pub user_agent: Option<String>,
    pub ip_address: Option<String>,
    /// Second-factor code: six digits (TOTP) or eight letters and digits (backup).
    pub two_fa_code: Option<String>,
}

/// Login response.
#[derive(Debug)]
pub struct LoginResponse {
    pub token: String,
    pub user: UserResponse,
    pub expires_in: i64,
    pub requires_two_fa: bool,
    pub two_fa_temp_token: Option<String>,
}

/// Second-factor setup request.
#[derive(Debug, Clone)]
pub struct TwoFASetupRequest {
    pub totp_code: String,
}

/// Second-factor setup response.
#[derive(Debug, Clone)]
pub struct TwoFASetupResponse {
    pub secret: String,
    /// PNG image of the provisioning QR code, as a `data:` URL.
    pub qr_code: String,
    pub backup_codes: Vec<String>,
    pub enabled: bool,
}

/// Second-factor completion request.
#[derive(Debug, Clone)]
pub struct TwoFAVerifyRequest {
    pub temp_token: String,
    pub totp_code: String,
}

/// Second-factor disable request.
#[derive(Debug, Clone)]
pub struct TwoFADisableRequest {
    pub password: String,
    pub totp_code: Option<String>,
    pub backup_code: Option<String>,
}

/// Change-password request.
#[derive(Debug, Clone)]
pub struct ChangePasswordRequest {
    pub current_password: String,
    pub new_password: String,
    pub confirm_password: String,
}

/// Number of characters of `s[..n]` that differ from the one before them (the
/// length left after removing consecutive duplicates).
pub open spec fn distinct_runs(s: Seq<char>, n: int) -> int
    decreases n,
{
    if n <= 0 {
        0
    } else if n == 1 || s[n - 1] != s[n - 2] {
        distinct_runs(s, n - 1) + 1
    } else {
        distinct_runs(s, n - 1)
    }
}

/// The patterns a new password in a change request may not contain.
pub open spec fn request_patterns() -> Seq<Seq<char>> {
    seq!["123"@, "abc"@, "password"@, "qwerty"@]
}

/// The rules a new password in a change request is held to before the request
/// reaches the engine: at least 12 bytes, all four character classes, at
/// most a quarter of the characters repeating the one before, and none of the
/// common patterns.
pub open spec fn request_password_ok(p: Seq<char>) -> bool {
    &&& byte_len(p) >= 12
    &&& has_upper(p)
    &&& has_lower(p)
    &&& has_numeric(p)
    &&& has_special(p)
    &&& distinct_runs(p, p.len() as int) >= (byte_len(p) * 3) / 4
    &&& forall|k: int|
        0 <= k < request_patterns().len() ==> !contains_seq(lowercase_of(p), #[trigger] request_patterns()[k])
}

proof fn lemma_distinct_runs_bound(s: Seq<char>, n: int)
    requires
        0 <= n,
    ensures
        0 <= distinct_runs(s, n) <= n,
    decreases n,
{
    if n > 0 {
        lemma_distinct_runs_bound(s, n - 1);
    }
}

fn count_runs(s: &Vec<char>) -> (r: usize)
    ensures
        r == distinct_runs(s@, s@.len() as int),
{
    let mut count: usize = 0;
    let mut i: usize = 0;
    while i < s.len()
        invariant
            i <= s@.len(),
            count == distinct_runs(s@, i as int),
        decreases s@.len() - i,
    {
        proof {
            lemma_distinct_runs_bound(s@, i as int);
        }
        if i == 0 || s[i] != s[i - 1] {
            count = count + 1;
        }
        i = i + 1;
    }
    count
}

/// Check a new password of a change request against `request_password_ok`.
pub fn validate_password_strength(password: &str) -> (r: bool)
    ensures
        r == request_password_ok(password@),
{
    let chars = chars_of(password);
    let bytes = byte_length(password);
    if bytes < 12 {
        return false;
    }
    if !any_upper(&chars) || !any_lower(&chars) || !any_numeric(&chars) || !any_special(&chars) {
        return false;
    }
    let runs = count_runs(&chars);
    if (runs as u128) < (bytes as u128 * 3) / 4 {
        return false;
    }
    let lowered = to_lowercase(password);
    let hay = chars_of(lowered.as_str());
    let pat_digits = chars_of("123");
    let pat_letters = chars_of("abc");
    let pat_word = chars_of("password");
    let pat_keys = chars_of("qwerty");
    let hit = contains_chars(&hay, &pat_digits) || contains_chars(&hay, &pat_letters) || contains_chars(&hay, &pat_word)
        || contains_chars(&hay, &pat_keys);
    proof {
        assert(request_patterns()[0] == pat_digits@);
        assert(request_patterns()[1] == pat_letters@);
        assert(request_patterns()[2] == pat_word@);
        assert(request_patterns()[3] == pat_keys@);
        if hit {
            assert(!request_password_ok(password@));
        } else {
            assert forall|k: int| 0 <= k < request_patterns().len() implies !contains_seq(
                lowercase_of(password@),
                #[trigger] request_patterns()[k],
            ) by {
                assert(k == 0 || k == 1 || k == 2 || k == 3);
            }
        }
    }
    !hit
}

/// A login attempt as recorded.
#[derive(Debug, Clone)]
pub struct LoginAttempt {
    pub user_id: Option<String>,
    pub username: String,
    pub ip_address: String,
    pub user_agent: Option<String>,
    pub success: bool,
    pub timestamp: i64,
    pub failure_reason: Option<String>,
}

/// A security event; `metadata` is JSON text.
#[derive(Debug, Clone)]
pub struct SecurityEvent {
    pub id: String,
    pub user_id: Option<String>,
    pub event_type: String,
    pub description: String,
    pub ip_address: Option<String>,
    pub user_agent: Option<String>,
    pub success: bool,
    pub timestamp: i64,
    pub metadata: Option<String>,
}

/// The live session of a user.
#[derive(Debug, Clone)]
pub struct SessionInfo {
    pub user_id: String,
    pub username: String,
    pub role: UserRole,
    pub is_temporary_password: bool,
    pub expires_at: i64,
    pub ip_address: Option<String>,
    pub user_agent: Option<String>,
}

} // verus!

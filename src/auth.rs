//! The authentication protocols: the two-step login with account lockout,
//! password change, session validation and logout. Each operation takes the
//! user record as read from storage and leaves in it what is to be written back.
use vstd::prelude::*;
use vstd::string::StringExecFns;
use crate::clock::{add_seconds, later_by};
use crate::error::{AuthError, AuthResult};
use crate::password::{
    meets_policy, password_matches, temp_alphabet_char, temp_length, temp_policy_fit, temporary_shape,
    PasswordService,
};
use vstd::utf8::{is_ascii_chars, is_ascii_chars_encode_utf8};
use crate::text::{ascii_alphanumeric, ascii_digit, byte_len, chars_of};
use crate::token::{TokenService, TokenValidation};
use crate::twofa::{
    base64_of, codes_of_json, first_index_of, is_temp_token, json_of_codes, qr_data_url, texts,
    qr_renders, totp_url, totp_verdict, TwoFAService,
};
use crate::user::{
    ChangePasswordRequest, LoginRequest, LoginResponse, TwoFADisableRequest, TwoFASetupRequest,
    TwoFASetupResponse, User, UserResponse, UserRole,
};

verus! {

/// How a login that passed the credential step goes on.
#[derive(Debug)]
pub enum LoginOutcome {
    /// Signed in: a full session token is to be issued for `session_id`.
    Complete { session_id: String },
    /// Password accepted; a second factor is required to finish.
    SecondFactorRequired { session_id: String, temp_token: String },
}

/// The stage at which a password change stops.
#[derive(Debug, Clone, Copy, PartialEq, Eq, Structural)]
pub enum ChangeCheck {
    /// New password and confirmation differ.
    Mismatch,
    /// The current password is wrong.
    WrongCurrent,
    /// The new password breaks the policy.
    Weak,
    /// The new password is the current one.
    Unchanged,
    /// Every check passed.
    Accepted,
}

/// The checks of a password change, in the order they run.
pub open spec fn change_check(
    policy: crate::config::PasswordPolicy,
    current_hash: Seq<char>,
    current: Seq<char>,
    new: Seq<char>,
    confirm: Seq<char>,
) -> ChangeCheck {
    if new != confirm {
        ChangeCheck::Mismatch
    } else if !password_matches(current, current_hash) {
        ChangeCheck::WrongCurrent
    } else if !meets_policy(policy, new) {
        ChangeCheck::Weak
    } else if password_matches(new, current_hash) {
        ChangeCheck::Unchanged
    } else {
        ChangeCheck::Accepted
    }
}

/// A lock is in force: the account is locked and its expiry lies after `now`.
pub open spec fn lockout_active(u: User, now: i64) -> bool {
    u.is_locked && (u.lockout_expiry matches Some(e) && e > now)
}

/// Everything but the security fields is the same in `a` and `b`.
pub open spec fn same_identity(a: User, b: User) -> bool {
    &&& a.id == b.id
    &&& a.username == b.username
    &&& a.password_hash == b.password_hash
    &&& a.role == b.role
    &&& a.is_temporary_password == b.is_temporary_password
    &&& a.created_at == b.created_at
    &&& a.updated_at == b.updated_at
    &&& a.password_changed_at == b.password_changed_at
    &&& a.two_fa_enabled == b.two_fa_enabled
    &&& a.two_fa_secret == b.two_fa_secret
    &&& a.two_fa_enabled_at == b.two_fa_enabled_at
}

/// `b` is `a` after one more failed attempt at `now`: the counter grows, and on
/// reaching `threshold` the account locks until `now + lock_secs`.
pub open spec fn failed_attempt(a: User, b: User, threshold: int, lock_secs: int, now: i64) -> bool {
    &&& same_identity(a, b)
    &&& b.login_attempts == if a.login_attempts < i32::MAX {
        a.login_attempts + 1
    } else {
        a.login_attempts as int
    }
    &&& b.login_attempts >= threshold ==> b.is_locked && b.lockout_expiry == Some(
        later_by(now, lock_secs as i64),
    )
    &&& b.login_attempts < threshold ==> b.is_locked == a.is_locked && b.lockout_expiry
        == a.lockout_expiry
    &&& b.last_login == a.last_login
    &&& b.session_token == a.session_token
    &&& b.session_expires_at == a.session_expires_at
    &&& b.two_fa_backup_codes == a.two_fa_backup_codes
}

/// `b` is `a` signed in at `now`: counter reset, lock cleared, a fresh session
/// that ends `session_secs` later.
pub open spec fn signed_in(a: User, b: User, session_secs: int, now: i64) -> bool {
    &&& same_identity(a, b)
    &&& b.login_attempts == 0
    &&& !b.is_locked
    &&& b.lockout_expiry is None
    &&& b.last_login == Some(now)
    &&& b.session_token matches Some(t) && t@.len() == 36
    &&& b.session_expires_at == Some(later_by(now, session_secs as i64))
}

/// The session named `session_id` is the user's live session at `now`.
pub open spec fn session_live(u: User, session_id: Seq<char>, now: i64) -> bool {
    &&& u.session_token matches Some(t) && t@ == session_id
    &&& u.session_expires_at matches Some(e) && e > now
}

/// The user with its session cleared.
pub open spec fn without_session(u: User) -> User {
    User { session_token: None, session_expires_at: None, ..u }
}

/// `b` is `a` with the second factor switched off at `now`.
pub open spec fn second_factor_off(a: User, b: User, now: i64) -> bool {
    b == User {
        two_fa_enabled: false,
        two_fa_secret: None,
        two_fa_backup_codes: None,
        two_fa_enabled_at: None,
        updated_at: now,
        ..a
    }
}

/// `resp` is a freshly prepared second-factor setup for `username` under `issuer`:
/// a random 160-bit secret, ten backup codes and the QR code of the provisioning URI.
pub open spec fn fresh_setup(resp: TwoFASetupResponse, issuer: Seq<char>, username: Seq<char>) -> bool {
    &&& exists|key: Seq<u8>| key.len() == 20 && resp.secret@ == base64_of(key)
    &&& setup_shape(resp, issuer, username)
}

/// `resp` carries ten eight-character backup codes and the QR code of the
/// provisioning URI of its secret.
pub open spec fn setup_shape(resp: TwoFASetupResponse, issuer: Seq<char>, username: Seq<char>) -> bool {
    &&& resp.backup_codes@.len() == 10
    &&& forall|i: int| 0 <= i < 10 ==> (#[trigger] resp.backup_codes@[i])@.len() == 8
    &&& qr_data_url(totp_url(issuer, username, resp.secret@), resp.qr_code@)
}

/// The account created on first start.
pub open spec fn bootstrap_account(u: User, id: Seq<char>, now: i64) -> bool {
    &&& u.wf()
    &&& u.id@ == id
    &&& u.username@ == "kenya_government"@
    &&& u.role == UserRole::KenyaGovernment
    &&& u.is_temporary_password
    &&& u.created_at == now && u.updated_at == now
    &&& u.last_login is None
    &&& u.login_attempts == 0
    &&& !u.is_locked && u.lockout_expiry is None
    &&& u.password_changed_at is None
    &&& u.session_token is None && u.session_expires_at is None
    &&& !u.two_fa_enabled && u.two_fa_secret is None
    &&& u.two_fa_backup_codes is None && u.two_fa_enabled_at is None
}

/// How a login with a second-factor `code` ends, once the password is accepted:
/// a six-digit code is checked against the TOTP secret, an eight-character code
/// against the backup codes, and anything else fails as bad credentials.
pub open spec fn second_factor_verdict(
    u: User,
    code: Seq<char>,
    now: i64,
    r: AuthResult<LoginOutcome>,
) -> bool {
    if totp_shaped(code) {
        match u.two_fa_secret {
            Some(s) => match totp_verdict(s@, code, totp_time(now)) {
                Ok(true) => r matches Ok(LoginOutcome::Complete { .. }),
                Ok(false) => r == Err::<LoginOutcome, AuthError>(AuthError::InvalidCredentials),
                Err(e) => r == Err::<LoginOutcome, AuthError>(e),
            },
            None => r == Err::<LoginOutcome, AuthError>(AuthError::InvalidCredentials),
        }
    } else if backup_shaped(code) {
        match u.two_fa_backup_codes {
            Some(stored) => match codes_of_json(stored@) {
                Some(codes) => if codes.contains(code) {
                    r matches Ok(LoginOutcome::Complete { .. })
                } else {
                    r == Err::<LoginOutcome, AuthError>(AuthError::InvalidCredentials)
                },
                None => r matches Err(AuthError::InternalError(_)),
            },
            None => r == Err::<LoginOutcome, AuthError>(AuthError::InvalidCredentials),
        }
    } else {
        r == Err::<LoginOutcome, AuthError>(AuthError::InvalidCredentials)
    }
}

/// `b` is `a` with the backup code `code` consumed: the stored list is the old
/// one without the first occurrence of `code`, and nothing else changed.
pub open spec fn consumed_code(a: User, b: User, code: Seq<char>) -> bool {
    &&& a.two_fa_backup_codes matches Some(stored)
    &&& codes_of_json(stored@) matches Some(codes)
    &&& b.two_fa_backup_codes matches Some(updated)
    &&& exists|i: int|
        first_index_of(codes, code, i) && updated@ == json_of_codes(codes.remove(i)) && codes_of_json(
            updated@,
        ) == Some(codes.remove(i))
    &&& User { two_fa_backup_codes: a.two_fa_backup_codes, ..b } == a
}

/// What a login with a second-factor `code` leaves in the record, once the
/// password is accepted: a refused code counts as a failed attempt on the
/// signed-in record with the backup codes untouched; an accepted backup code is
/// consumed; otherwise the record is signed in with its backup codes unchanged.
pub open spec fn second_factor_record(
    a: User,
    b: User,
    code: Seq<char>,
    r: AuthResult<LoginOutcome>,
    threshold: int,
    lock_secs: int,
    session_secs: int,
    now: i64,
) -> bool {
    if r == Err::<LoginOutcome, AuthError>(AuthError::InvalidCredentials) {
        exists|mid: User|
            #[trigger] signed_in(a, mid, session_secs, now) && mid.two_fa_backup_codes
                == a.two_fa_backup_codes && failed_attempt(mid, b, threshold, lock_secs, now)
    } else if r is Ok && backup_shaped(code) {
        signed_in(a, b, session_secs, now) && exists|mid: User|
            #[trigger] signed_in(a, mid, session_secs, now) && mid.two_fa_backup_codes
                == a.two_fa_backup_codes && consumed_code(mid, b, code)
    } else {
        signed_in(a, b, session_secs, now) && b.two_fa_backup_codes == a.two_fa_backup_codes
    }
}

/// A six-digit TOTP code.
pub open spec fn totp_shaped(c: Seq<char>) -> bool {
    c.len() == 6 && forall|i: int| 0 <= i < 6 ==> ascii_digit(#[trigger] c[i])
}

/// An eight-character backup code.
pub open spec fn backup_shaped(c: Seq<char>) -> bool {
    c.len() == 8 && forall|i: int| 0 <= i < 8 ==> ascii_alphanumeric(#[trigger] c[i])
}

/// An instant as the unsigned seconds TOTP counts (before the epoch counts as it).
pub open spec fn totp_time(now: i64) -> u64 {
    if now < 0 {
        0
    } else {
        now as u64
    }
}

fn all_digits(c: &Vec<char>) -> (r: bool)
    ensures
        r == (forall|i: int| 0 <= i < c@.len() ==> ascii_digit(#[trigger] c@[i])),
{
    let mut i: usize = 0;
    while i < c.len()
        invariant
            forall|j: int| 0 <= j < i ==> ascii_digit(#[trigger] c@[j]),
        decreases c@.len() - i,
    {
        if !('0' <= c[i] && c[i] <= '9') {
            return false;
        }
        i = i + 1;
    }
    true
}

fn all_alphanumeric(c: &Vec<char>) -> (r: bool)
    ensures
        r == (forall|i: int| 0 <= i < c@.len() ==> ascii_alphanumeric(#[trigger] c@[i])),
{
    let mut i: usize = 0;
    while i < c.len()
        invariant
            forall|j: int| 0 <= j < i ==> ascii_alphanumeric(#[trigger] c@[j]),
        decreases c@.len() - i,
    {
        let ch = c[i];
        if !(('0' <= ch && ch <= '9') || ('a' <= ch && ch <= 'z') || ('A' <= ch && ch <= 'Z')) {
            return false;
        }
        i = i + 1;
    }
    true
}

/// Main authentication service.
pub struct AuthService {
    pub password_service: PasswordService,
    pub token_service: TokenService,
    pub two_fa_service: TwoFAService,
}

impl AuthService {
    pub open spec fn wf(&self) -> bool {
        self.token_service.wf()
    }

    /// Failed attempts at which an account locks.
    pub open spec fn threshold(&self) -> int {
        self.token_service.config.rate_limit.max_attempts as int
    }

    /// Seconds a lock lasts.
    pub open spec fn lock_secs(&self) -> int {
        if self.token_service.config.rate_limit.lockout_duration_seconds > i64::MAX as u64 {
            i64::MAX as int
        } else {
            self.token_service.config.rate_limit.lockout_duration_seconds as int
        }
    }

    /// Seconds a session lasts (a negative setting counts as none).
    pub open spec fn session_secs(&self) -> int {
        let m = self.token_service.config.session_timeout_minutes;
        if m > i64::MAX / 60 {
            i64::MAX as int
        } else if m < 0 {
            0
        } else {
            m * 60
        }
    }

    pub fn new(password_service: PasswordService, token_service: TokenService) -> (r: Self)
        requires
            token_service.wf(),
        ensures
            r.wf(),
            r.password_service == password_service,
            r.token_service == token_service,
            r.two_fa_service.issuer@ == "Kenya FSFVI Platform"@,
    {
        AuthService {
            password_service,
            token_service,
            two_fa_service: TwoFAService::new(String::from_str("Kenya FSFVI Platform")),
        }
    }

    fn lock_seconds(&self) -> (r: i64)
        ensures
            r == self.lock_secs(),
    {
        let d = self.token_service.config.rate_limit.lockout_duration_seconds;
        if d > i64::MAX as u64 {
            i64::MAX
        } else {
            d as i64
        }
    }

    fn session_seconds(&self) -> (r: i64)
        ensures
            r == self.session_secs(),
    {
        let m = self.token_service.config.session_timeout_minutes;
        if m > i64::MAX / 60 {
            i64::MAX
        } else if m < 0 {
            0
        } else {
            m * 60
        }
    }

    /// Record one failed attempt on `user` at `now`.
    fn record_failure(&self, user: &mut User, now: i64)
        requires
            old(user).wf(),
        ensures
            final(user).wf(),
            failed_attempt(*old(user), *final(user), self.threshold(), self.lock_secs(), now),
    {
        if user.login_attempts < i32::MAX {
            user.login_attempts = user.login_attempts + 1;
        }
        if user.login_attempts as i64 >= self.token_service.config.rate_limit.max_attempts as i64 {
            user.is_locked = true;
            user.lockout_expiry = Some(add_seconds(now, self.lock_seconds()));
        }
    }

    /// Check a second-factor code for `user` at `now`: a six-digit code against
    /// the TOTP secret, an eight-character code against the backup codes (a
    /// matched backup code is removed from the record). Any other code fails.
    pub fn check_second_factor(&self, user: &mut User, code: &str, now: i64) -> (r: AuthResult<bool>)
        requires
            old(user).wf(),
        ensures
            final(user).wf(),
            totp_shaped(code@) ==> *final(user) == *old(user) && match old(user).two_fa_secret {
                Some(s) => r == totp_verdict(s@, code@, totp_time(now)),
                None => r == Ok::<bool, AuthError>(false),
            },
            backup_shaped(code@) ==> match old(user).two_fa_backup_codes {
                None => *final(user) == *old(user) && r == Ok::<bool, AuthError>(false),
                Some(stored) => match codes_of_json(stored@) {
                    None => *final(user) == *old(user) && r matches Err(AuthError::InternalError(_)),
                    Some(codes) => if codes.contains(code@) {
                        r == Ok::<bool, AuthError>(true) && consumed_code(
                            *old(user),
                            *final(user),
                            code@,
                        )
                    } else {
                        *final(user) == *old(user) && r == Ok::<bool, AuthError>(false)
                    },
                },
            },
            !totp_shaped(code@) && !backup_shaped(code@) ==> *final(user) == *old(user) && r
                == Ok::<bool, AuthError>(false),
    {
        let chars = chars_of(code);
        let time: u64 = if now < 0 { 0 } else { now as u64 };
        if chars.len() == 6 && all_digits(&chars) {
            assert(totp_shaped(code@));
            assert(!backup_shaped(code@));
            match &user.two_fa_secret {
                Some(secret) => self.two_fa_service.verify_totp_at(secret.as_str(), code, time),
                None => Ok(false),
            }
        } else if chars.len() == 8 && all_alphanumeric(&chars) {
            assert(backup_shaped(code@));
            let stored = match &user.two_fa_backup_codes {
                Some(s) => s.clone(),
                None => {
                    return Ok(false);
                },
            };
            let (is_valid, updated) = self.two_fa_service.verify_backup_code(stored.as_str(), code)?;
            if is_valid {
                user.two_fa_backup_codes = Some(updated);
            }
            Ok(is_valid)
        } else {
            Ok(false)
        }
    }

    /// Authenticate `user` (found by the request's username) at `now`.
    pub fn authenticate(&self, user: &mut User, request: &LoginRequest, now: i64) -> (r: AuthResult<
        LoginOutcome,
    >)
        requires
            self.wf(),
            old(user).wf(),
        ensures
            final(user).wf(),
            lockout_active(*old(user), now) ==> r == Err::<LoginOutcome, AuthError>(
                AuthError::AccountLocked,
            ) && *final(user) == *old(user),
            !lockout_active(*old(user), now) && !password_matches(
                request.password@,
                old(user).password_hash@,
            ) ==> r == Err::<LoginOutcome, AuthError>(AuthError::InvalidCredentials)
                && failed_attempt(*old(user), *final(user), self.threshold(), self.lock_secs(), now),
            !lockout_active(*old(user), now) && password_matches(
                request.password@,
                old(user).password_hash@,
            ) && !old(user).two_fa_enabled ==> signed_in(
                *old(user),
                *final(user),
                self.session_secs(),
                now,
            ) && final(user).two_fa_backup_codes == old(user).two_fa_backup_codes
                && (r matches Ok(LoginOutcome::Complete { session_id })
                && final(user).session_token == Some(session_id)),
            !lockout_active(*old(user), now) && password_matches(
                request.password@,
                old(user).password_hash@,
            ) && old(user).two_fa_enabled && request.two_fa_code is None ==> signed_in(
                *old(user),
                *final(user),
                self.session_secs(),
                now,
            ) && final(user).two_fa_backup_codes == old(user).two_fa_backup_codes
                && (r matches Ok(LoginOutcome::SecondFactorRequired { session_id, temp_token })
                && final(user).session_token == Some(session_id) && is_temp_token(temp_token@)),
            !lockout_active(*old(user), now) && password_matches(
                request.password@,
                old(user).password_hash@,
            ) && old(user).two_fa_enabled && request.two_fa_code is Some ==> second_factor_verdict(
                *old(user),
                request.two_fa_code->Some_0@,
                now,
                r,
            ),
            !lockout_active(*old(user), now) && password_matches(
                request.password@,
                old(user).password_hash@,
            ) && old(user).two_fa_enabled && request.two_fa_code is Some ==> second_factor_record(
                *old(user),
                *final(user),
                request.two_fa_code->Some_0@,
                r,
                self.threshold(),
                self.lock_secs(),
                self.session_secs(),
                now,
            ),
            r matches Ok(LoginOutcome::Complete { session_id }) ==> !lockout_active(*old(user), now)
                && password_matches(request.password@, old(user).password_hash@)
                && final(user).session_token == Some(session_id)
                && final(user).login_attempts == 0,
    {
        if user.is_locked {
            if let Some(expiry) = user.lockout_expiry {
                if expiry > now {
                    return Err(AuthError::AccountLocked);
                }
            }
        }
        let password_valid = self.password_service.verify_password(
            request.password.as_str(),
            user.password_hash.as_str(),
        )?;
        if !password_valid {
            self.record_failure(user, now);
            return Err(AuthError::InvalidCredentials);
        }
        user.login_attempts = 0;
        user.is_locked = false;
        user.lockout_expiry = None;
        user.last_login = Some(now);
        let session_id = TokenService::generate_session_id();
        user.session_token = Some(session_id.clone());
        user.session_expires_at = Some(add_seconds(now, self.session_seconds()));
        if user.two_fa_enabled {
            match &request.two_fa_code {
                Some(code) => {
                    let ghost signed = *user;
                    assert(signed_in(*old(user), signed, self.session_secs(), now));
                    let is_valid = match self.check_second_factor(user, code.as_str(), now) {
                        Ok(v) => v,
                        Err(e) => {
                            return Err(e);
                        },
                    };
                    if !is_valid {
                        self.record_failure(user, now);
                        return Err(AuthError::InvalidCredentials);
                    }
                    proof {
                        if backup_shaped(code@) {
                            assert(consumed_code(signed, *user, code@));
                        }
                    }
                    Ok(LoginOutcome::Complete { session_id })
                },
                None => {
                    let temp_token = self.two_fa_service.generate_temp_token();
                    Ok(LoginOutcome::SecondFactorRequired { session_id, temp_token })
                },
            }
        } else {
            Ok(LoginOutcome::Complete { session_id })
        }
    }

    /// The response to a login: with the signed `token` when complete, or
    /// without a token and with the pending second-factor token.
    pub fn login_response(&self, user: &User, outcome: LoginOutcome, token: String) -> (r:
        LoginResponse)
        requires
            self.wf(),
        ensures
            r.user.summarises(*user),
            match outcome {
                LoginOutcome::Complete { .. } => r.token == token && r.expires_in
                    == self.token_service.window() && !r.requires_two_fa && r.two_fa_temp_token is None,
                LoginOutcome::SecondFactorRequired { temp_token, .. } => r.token@.len() == 0
                    && r.expires_in == 0 && r.requires_two_fa && r.two_fa_temp_token == Some(temp_token),
            },
    {
        match outcome {
            LoginOutcome::Complete { .. } => LoginResponse {
                token,
                user: UserResponse::from_user(user),
                expires_in: self.token_service.validity_seconds(),
                requires_two_fa: false,
                two_fa_temp_token: None,
            },
            LoginOutcome::SecondFactorRequired { temp_token, .. } => LoginResponse {
                token: String::new(),
                user: UserResponse::from_user(user),
                expires_in: 0,
                requires_two_fa: true,
                two_fa_temp_token: Some(temp_token),
            },
        }
    }

    /// Change the password of `user` at `now`.
    pub fn change_password(&self, user: &mut User, request: &ChangePasswordRequest, now: i64) -> (r:
        AuthResult<()>)
        requires
            old(user).wf(),
        ensures
            final(user).wf(),
            match change_check(
                self.password_service.policy,
                old(user).password_hash@,
                request.current_password@,
                request.new_password@,
                request.confirm_password@,
            ) {
                ChangeCheck::Mismatch => r == Err::<(), AuthError>(AuthError::PasswordMismatch)
                    && *final(user) == *old(user),
                ChangeCheck::WrongCurrent => r == Err::<(), AuthError>(
                    AuthError::InvalidCredentials,
                ) && *final(user) == *old(user),
                ChangeCheck::Weak => r == Err::<(), AuthError>(AuthError::PasswordTooWeak)
                    && *final(user) == *old(user),
                ChangeCheck::Unchanged => r matches Err(AuthError::InternalError(_))
                    && *final(user) == *old(user),
                ChangeCheck::Accepted => (byte_len(request.new_password@) <= u32::MAX ==> r is Ok)
                    && match r {
                    Ok(_) => password_matches(request.new_password@, final(user).password_hash@)
                        && !final(user).is_temporary_password && final(user).password_changed_at
                        == Some(now) && final(user).updated_at == now && User {
                        password_hash: old(user).password_hash,
                        is_temporary_password: old(user).is_temporary_password,
                        password_changed_at: old(user).password_changed_at,
                        updated_at: old(user).updated_at,
                        ..*final(user)
                    } == *old(user),
                    Err(e) => e is InternalError && *final(user) == *old(user),
                },
            },
    {
        if request.new_password != request.confirm_password {
            return Err(AuthError::PasswordMismatch);
        }
        let current_valid = self.password_service.verify_password(
            request.current_password.as_str(),
            user.password_hash.as_str(),
        )?;
        if !current_valid {
            return Err(AuthError::InvalidCredentials);
        }
        self.password_service.validate_password_strength(request.new_password.as_str())?;
        if self.password_service.passwords_are_same(
            request.new_password.as_str(),
            user.password_hash.as_str(),
        ) {
            return Err(
                AuthError::InternalError(
                    String::from_str("New password must be different from current password"),
                ),
            );
        }
        let new_hash = self.password_service.hash_password(request.new_password.as_str())?;
        user.password_hash = new_hash;
        user.is_temporary_password = false;
        user.password_changed_at = Some(now);
        user.updated_at = now;
        Ok(())
    }

    /// Check that the session a verified token names is the user's live session.
    pub fn validate_session(&self, validation: &TokenValidation, user: &User, now: i64) -> (r:
        AuthResult<UserResponse>)
        ensures
            session_live(*user, validation.session_id@, now) ==> (r matches Ok(resp)
                && resp.summarises(*user)),
            !session_live(*user, validation.session_id@, now) ==> r matches Err(
                AuthError::SessionExpired,
            ),
    {
        match (&user.session_token, user.session_expires_at) {
            (Some(token), Some(expires_at)) => {
                if *token == validation.session_id && expires_at > now {
                    Ok(UserResponse::from_user(user))
                } else {
                    Err(AuthError::SessionExpired)
                }
            },
            _ => Err(AuthError::SessionExpired),
        }
    }

    /// End the user's session, whatever state it is in.
    pub fn logout(&self, user: &mut User)
        requires
            old(user).wf(),
        ensures
            final(user).wf(),
            *final(user) == without_session(*old(user)),
    {
        user.session_token = None;
        user.session_expires_at = None;
    }

    /// Prepare a second-factor setup for `user`: nothing is stored.
    pub fn prepare_two_fa_setup(&self, user: &User) -> (r: AuthResult<TwoFASetupResponse>)
        ensures
            match r {
                Ok(resp) => !resp.enabled && fresh_setup(resp, self.two_fa_service.issuer@, user.username@),
                Err(e) => e is InternalError && exists|key: Seq<u8>|
                    key.len() == 20 && !qr_renders(
                        totp_url(self.two_fa_service.issuer@, user.username@, base64_of(key)),
                    ),
            },
    {
        let secret = self.two_fa_service.generate_secret();
        let backup_codes = self.two_fa_service.generate_backup_codes(10);
        let qr_code = match self.two_fa_service.generate_qr_code(user.username.as_str(), secret.as_str()) {
            Ok(q) => q,
            Err(e) => {
                proof {
                    let key = choose|key: Seq<u8>| key.len() == 20 && secret@ == base64_of(key);
                    assert(!qr_renders(
                        totp_url(self.two_fa_service.issuer@, user.username@, base64_of(key)),
                    ));
                }
                return Err(e);
            },
        };
        Ok(TwoFASetupResponse { secret, qr_code, backup_codes, enabled: false })
    }

    /// Set up the second factor for `user` at `now` with `secret`, the secret shown
    /// when the setup was prepared: the submitted code must verify against it
    /// before the factor is switched on, with fresh backup codes.
    pub fn setup_two_fa(
        &self,
        user: &mut User,
        request: &TwoFASetupRequest,
        secret: &str,
        now: i64,
    ) -> (r: AuthResult<TwoFASetupResponse>)
        requires
            old(user).wf(),
        ensures
            final(user).wf(),
            match totp_verdict(secret@, request.totp_code@, totp_time(now)) {
                Ok(true) => qr_renders(
                    totp_url(self.two_fa_service.issuer@, old(user).username@, secret@),
                ) ==> r is Ok,
                Ok(false) => r == Err::<TwoFASetupResponse, AuthError>(AuthError::InvalidCredentials),
                Err(e) => r == Err::<TwoFASetupResponse, AuthError>(e),
            },
            match r {
                Ok(resp) => resp.enabled && resp.secret@ == secret@ && setup_shape(
                    resp,
                    self.two_fa_service.issuer@,
                    old(user).username@,
                ) && totp_verdict(secret@, request.totp_code@, totp_time(now)) == Ok::<
                    bool,
                    AuthError,
                >(true) && final(user).two_fa_enabled && (final(user).two_fa_secret matches Some(
                    s,
                ) && s@ == secret@) && (final(user).two_fa_backup_codes matches Some(j) && j@
                    == json_of_codes(texts(resp.backup_codes@)) && codes_of_json(j@) == Some(
                    texts(resp.backup_codes@),
                )) && final(user).two_fa_enabled_at == Some(now) && final(user).updated_at == now
                    && User {
                    two_fa_enabled: old(user).two_fa_enabled,
                    two_fa_secret: old(user).two_fa_secret,
                    two_fa_backup_codes: old(user).two_fa_backup_codes,
                    two_fa_enabled_at: old(user).two_fa_enabled_at,
                    updated_at: old(user).updated_at,
                    ..*final(user)
                } == *old(user),
                Err(e) => *final(user) == *old(user) && (e is InvalidCredentials || e is InvalidToken
                    || e is InternalError),
            },
    {
        let time: u64 = if now < 0 { 0 } else { now as u64 };
        let is_valid = self.two_fa_service.verify_totp_at(secret, request.totp_code.as_str(), time)?;
        if !is_valid {
            return Err(AuthError::InvalidCredentials);
        }
        let backup_codes = self.two_fa_service.generate_backup_codes(10);
        let qr_code = self.two_fa_service.generate_qr_code(user.username.as_str(), secret)?;
        let codes_json = self.two_fa_service.hash_backup_codes(backup_codes.as_slice())?;
        let secret = secret.to_owned();
        user.two_fa_enabled = true;
        user.two_fa_secret = Some(secret.clone());
        user.two_fa_backup_codes = Some(codes_json);
        user.two_fa_enabled_at = Some(now);
        user.updated_at = now;
        Ok(TwoFASetupResponse { secret, qr_code, backup_codes, enabled: true })
    }

    /// Switch the second factor off for `user` at `now`: the password must verify,
    /// and a TOTP code (checked first) or a backup code must be given and match.
    pub fn disable_two_fa(&self, user: &mut User, request: &TwoFADisableRequest, now: i64) -> (r:
        AuthResult<()>)
        requires
            old(user).wf(),
        ensures
            final(user).wf(),
            r is Ok ==> second_factor_off(*old(user), *final(user), now),
            r is Err ==> *final(user) == *old(user),
            !password_matches(request.password@, old(user).password_hash@) ==> r == Err::<
                (),
                AuthError,
            >(AuthError::InvalidCredentials),
            password_matches(request.password@, old(user).password_hash@) ==> match request.totp_code {
                Some(code) => match old(user).two_fa_secret {
                    Some(s) => match totp_verdict(s@, code@, totp_time(now)) {
                        Ok(true) => r is Ok,
                        Ok(false) => r == Err::<(), AuthError>(AuthError::InvalidCredentials),
                        Err(e) => r == Err::<(), AuthError>(e),
                    },
                    None => r is Ok,
                },
                None => match request.backup_code {
                    Some(code) => match old(user).two_fa_backup_codes {
                        Some(stored) => match codes_of_json(stored@) {
                            Some(codes) => if codes.contains(code@) {
                                r is Ok
                            } else {
                                r == Err::<(), AuthError>(AuthError::InvalidCredentials)
                            },
                            None => r matches Err(AuthError::InternalError(_)),
                        },
                        None => r is Ok,
                    },
                    None => r matches Err(AuthError::InternalError(_)),
                },
            },
    {
        let password_valid = self.password_service.verify_password(
            request.password.as_str(),
            user.password_hash.as_str(),
        )?;
        if !password_valid {
            return Err(AuthError::InvalidCredentials);
        }
        let time: u64 = if now < 0 { 0 } else { now as u64 };
        match &request.totp_code {
            Some(code) => {
                if let Some(secret) = &user.two_fa_secret {
                    let is_valid = self.two_fa_service.verify_totp_at(secret.as_str(), code.as_str(), time)?;
                    if !is_valid {
                        return Err(AuthError::InvalidCredentials);
                    }
                }
            },
            None => match &request.backup_code {
                Some(code) => {
                    if let Some(stored) = &user.two_fa_backup_codes {
                        let (is_valid, _) = self.two_fa_service.verify_backup_code(
                            stored.as_str(),
                            code.as_str(),
                        )?;
                        if !is_valid {
                            return Err(AuthError::InvalidCredentials);
                        }
                    }
                },
                None => {
                    return Err(
                        AuthError::InternalError(
                            String::from_str("Either TOTP code or backup code required"),
                        ),
                    );
                },
            },
        }
        user.two_fa_enabled = false;
        user.two_fa_secret = None;
        user.two_fa_backup_codes = None;
        user.two_fa_enabled_at = None;
        user.updated_at = now;
        Ok(())
    }

    /// The account created on first start, with a fresh temporary password (handed
    /// back once, to be shown to the operator) that must be changed.
    pub fn create_default_user(&self, user_id: String, now: i64) -> (r: AuthResult<(User, String)>)
        ensures
            temp_policy_fit(self.password_service.policy) ==> r is Ok,
            match r {
                Ok((u, temp)) => bootstrap_account(u, user_id@, now) && password_matches(
                    temp@,
                    u.password_hash@,
                ) && meets_policy(self.password_service.policy, temp@) && temporary_shape(
                    self.password_service.policy,
                    temp@,
                ),
                Err(e) => !temp_policy_fit(self.password_service.policy) && (e is PasswordTooWeak
                    || e is InternalError),
            },
    {
        let temp_password = self.password_service.generate_temporary_password();
        proof {
            if temp_policy_fit(self.password_service.policy) {
                assert(temp_password@.len() == temp_length(self.password_service.policy));
                assert(byte_len(temp_password@) == temp_password@.len()) by {
                    assert(is_ascii_chars(temp_password@)) by {
                        assert forall|i: int| 0 <= i < temp_password@.len() implies '\0'
                            <= #[trigger] temp_password@[i] <= '\u{7f}' by {
                            assert(temp_alphabet_char(temp_password@[i]));
                        }
                    }
                    is_ascii_chars_encode_utf8(temp_password@);
                }
            }
        }
        let password_hash = self.password_service.hash_password(temp_password.as_str())?;
        let u = User {
            id: user_id,
            username: String::from_str("kenya_government"),
            password_hash,
            role: UserRole::KenyaGovernment,
            is_temporary_password: true,
            created_at: now,
            updated_at: now,
            last_login: None,
            login_attempts: 0,
            is_locked: false,
            lockout_expiry: None,
            password_changed_at: None,
            session_token: None,
            session_expires_at: None,
            two_fa_enabled: false,
            two_fa_secret: None,
            two_fa_backup_codes: None,
            two_fa_enabled_at: None,
        };
        Ok((u, temp_password))
    }

    /// Complete a pending second factor by its temporary token. Pending logins
    /// are not kept anywhere yet, so a well-formed token is answered with an
    /// internal error.
    pub fn verify_two_fa(&self, temp_token: &str) -> (r: AuthResult<LoginResponse>)
        ensures
            !is_temp_token(temp_token@) ==> r matches Err(AuthError::InvalidToken),
            is_temp_token(temp_token@) ==> r matches Err(AuthError::InternalError(_)),
    {
        if !self.two_fa_service.validate_temp_token(temp_token) {
            return Err(AuthError::InvalidToken);
        }
        Err(
            AuthError::InternalError(
                String::from_str("2FA verification not fully implemented for temp tokens"),
            ),
        )
    }
}

/// After logout no session is live, whatever session id a token names and
/// whatever its own expiry.
pub proof fn logout_ends_every_session(u: User, session_id: Seq<char>, now: i64)
    ensures
        !session_live(without_session(u), session_id, now),
{
}

/// The failure that reaches the threshold locks the account until the attempt
/// time plus the lock duration; a correct login before then is refused as
/// locked, and one at or after it is let through the lock check.
pub proof fn lockout_lifecycle(
    service: AuthService,
    before: User,
    after: User,
    now: i64,
    retry: i64,
)
    requires
        service.threshold() >= 1,
        before.login_attempts == service.threshold() - 1,
        before.login_attempts < i32::MAX,
        failed_attempt(before, after, service.threshold(), service.lock_secs(), now),
    ensures
        after.is_locked,
        after.lockout_expiry == Some(later_by(now, service.lock_secs() as i64)),
        retry < later_by(now, service.lock_secs() as i64) ==> lockout_active(after, retry),
        retry >= later_by(now, service.lock_secs() as i64) ==> !lockout_active(after, retry),
{
}

/// Consecutive failed attempts from a clean record count up one by one, and the
/// record is locked, until the last attempt's time plus the lock duration, once
/// their number reaches the threshold.
pub proof fn consecutive_failures_lock(
    service: AuthService,
    states: Seq<User>,
    times: Seq<i64>,
)
    requires
        1 <= service.threshold() <= i32::MAX,
        states.len() == service.threshold() + 1,
        times.len() == service.threshold(),
        states[0].login_attempts == 0,
        forall|i: int|
            0 <= i < service.threshold() ==> #[trigger] failed_attempt(
                states[i],
                states[i + 1],
                service.threshold(),
                service.lock_secs(),
                times[i],
            ),
    ensures
        forall|i: int| 0 <= i <= service.threshold() ==> #[trigger] states[i].login_attempts == i,
        states[service.threshold()].is_locked,
        states[service.threshold()].lockout_expiry == Some(
            later_by(times[service.threshold() - 1], service.lock_secs() as i64),
        ),
{
    let n = service.threshold();
    assert forall|i: int| 0 <= i <= n implies #[trigger] states[i].login_attempts == i by {
        attempts_count_up(service, states, times, i);
    }
    let last = n - 1;
    assert(failed_attempt(states[last], states[last + 1], n, service.lock_secs(), times[last]));
}

proof fn attempts_count_up(service: AuthService, states: Seq<User>, times: Seq<i64>, k: int)
    requires
        1 <= service.threshold() <= i32::MAX,
        states.len() == service.threshold() + 1,
        times.len() == service.threshold(),
        states[0].login_attempts == 0,
        forall|i: int|
            0 <= i < service.threshold() ==> #[trigger] failed_attempt(
                states[i],
                states[i + 1],
                service.threshold(),
                service.lock_secs(),
                times[i],
            ),
        0 <= k <= service.threshold(),
    ensures
        states[k].login_attempts == k,
    decreases k,
{
    if k > 0 {
        attempts_count_up(service, states, times, k - 1);
        let j = k - 1;
        assert(failed_attempt(
            states[j],
            states[j + 1],
            service.threshold(),
            service.lock_secs(),
            times[j],
        ));
    }
}

/// A successful sign-in resets the attempt counter and lifts any lock.
pub proof fn sign_in_resets_lockout(
    service: AuthService,
    before: User,
    after: User,
    now: i64,
    later: i64,
)
    requires
        signed_in(before, after, service.session_secs(), now),
    ensures
        after.login_attempts == 0,
        !lockout_active(after, later),
{
}

} // verus!

//! Session claims: what a token says, when it is issued and when it is accepted.
//! Signing and reading the compact token text happen around this module.
use vstd::prelude::*;
use vstd::string::StringExecFns;
use crate::config::SecurityConfig;
use crate::error::{AuthError, AuthResult};
use crate::random::new_uuid_string;
use crate::text::ascii_lower;
use crate::twofa::texts;
use crate::user::{User, UserRole};

verus! {

/// A hexadecimal digit, either case.
pub open spec fn hex_char(c: char) -> bool {
    '0' <= c <= '9' || 'a' <= c <= 'f' || 'A' <= c <= 'F'
}

/// 8-4-4-4-12 hexadecimal digits separated by hyphens.
pub open spec fn hyphenated_uuid(s: Seq<char>) -> bool {
    &&& s.len() == 36
    &&& forall|i: int|
        0 <= i < 36 ==> if i == 8 || i == 13 || i == 18 || i == 23 {
            s[i] == '-'
        } else {
            hex_char(#[trigger] s[i])
        }
}

/// The text forms `uuid::Uuid::parse_str` reads: 32 hexadecimal digits, the
/// hyphenated form, the hyphenated form in braces, or the hyphenated form after
/// `urn:uuid:` (in any case).
pub open spec fn uuid_text(s: Seq<char>) -> bool {
    ||| s.len() == 32 && forall|i: int| 0 <= i < 32 ==> hex_char(#[trigger] s[i])
    ||| hyphenated_uuid(s)
    ||| s.len() == 38 && s[0] == '{' && s[37] == '}' && hyphenated_uuid(s.subrange(1, 37))
    ||| s.len() == 45 && (forall|i: int|
        0 <= i < 9 ==> ascii_lower(#[trigger] s[i]) == "urn:uuid:"@[i]) && hyphenated_uuid(
        s.subrange(9, 45),
    )
}

/// Relies on `uuid::Uuid::parse_str`: whether the text reads as a UUID, in one of
/// the forms `uuid_text` lists (uuid-1.x `parser.rs`, `try_parse`).
#[verifier::external_body]
pub fn parses_as_uuid(s: &str) -> (r: bool)
    ensures
        r == uuid_text(s@),
{
    uuid::Uuid::parse_str(s).is_ok()
}

/// Claims carried by a session token.
#[derive(Debug, Clone)]
pub struct Claims {
    /// Subject: the user id.
    pub sub: String,
    pub username: String,
    pub role: String,
    /// Expiry, seconds since the epoch.
    pub exp: usize,
    /// Issue time, seconds since the epoch.
    pub iat: usize,
    pub iss: String,
    pub aud: String,
    /// Token id.
    pub jti: String,
    pub session_id: String,
    pub is_temp_password: bool,
}

/// What a verified token tells about its holder.
#[derive(Debug, Clone)]
pub struct TokenValidation {
    pub user_id: String,
    pub username: String,
    pub role: String,
    pub session_id: String,
    pub is_temp_password: bool,
    pub expires_at: i64,
}

pub open spec fn issuer_text() -> Seq<char> {
    "fsfvi-kenya-backend"@
}

pub open spec fn audience_text() -> Seq<char> {
    "kenya-government"@
}

pub open spec fn role_text(role: UserRole) -> Seq<char> {
    match role {
        UserRole::KenyaGovernment => "kenya_government"@,
    }
}

/// Seconds of clock skew tolerated past a token's expiry.
pub const TOKEN_LEEWAY_SECONDS: usize = 60;

/// Largest validity window, in hours, whose seconds fit the clock's range.
pub const MAX_TOKEN_HOURS: i64 = 2562047788015;

/// The token's expiry, with the leeway, lies before `now`.
pub open spec fn claims_expired(claims: Claims, now: int) -> bool {
    now > claims.exp + TOKEN_LEEWAY_SECONDS
}

/// Issuer or audience is not this service's.
pub open spec fn foreign_claims(claims: Claims) -> bool {
    claims.iss@ != issuer_text() || claims.aud@ != audience_text()
}

pub open spec fn known_role(claims: Claims) -> bool {
    claims.role@ == role_text(UserRole::KenyaGovernment)
}

/// The error token verification gives for `claims` at `now`, if any, in the
/// order the checks run.
pub open spec fn claims_error(claims: Claims, now: int) -> Option<AuthError> {
    if claims_expired(claims, now) {
        Some(AuthError::TokenExpired)
    } else if foreign_claims(claims) {
        Some(AuthError::InvalidToken)
    } else if !known_role(claims) {
        Some(AuthError::Unauthorized)
    } else if !uuid_text(claims.sub@) || claims.exp > i64::MAX {
        Some(AuthError::InvalidToken)
    } else {
        None
    }
}

/// Token service: the rules for issuing and accepting session claims.
pub struct TokenService {
    pub config: SecurityConfig,
}

impl TokenService {
    pub open spec fn wf(&self) -> bool {
        0 <= self.config.jwt_expiration_hours <= MAX_TOKEN_HOURS
    }

    /// Seconds a token stays valid.
    pub open spec fn window(&self) -> int {
        self.config.jwt_expiration_hours * 3600
    }

    pub fn new(config: SecurityConfig) -> (r: Self)
        requires
            0 <= config.jwt_expiration_hours <= MAX_TOKEN_HOURS,
        ensures
            r.wf(),
            r.config == config,
    {
        TokenService { config }
    }

    /// Seconds a token stays valid.
    pub fn validity_seconds(&self) -> (r: i64)
        requires
            self.wf(),
        ensures
            r == self.window(),
    {
        self.config.jwt_expiration_hours * 3600
    }

    /// A fresh session id.
    pub fn generate_session_id() -> (r: String)
        ensures
            r@.len() == 36,
    {
        new_uuid_string()
    }

    /// The claims of a token issued to `user` for `session_id` at `now`: valid for
    /// the configured window, with a fresh token id.
    pub fn generate_claims(&self, user: &User, session_id: &str, now: usize) -> (r: Claims)
        requires
            self.wf(),
            now + self.window() <= usize::MAX,
        ensures
            r.sub@ == user.id@,
            r.username@ == user.username@,
            r.role@ == role_text(user.role),
            r.iat == now,
            r.exp == now + self.window(),
            r.iss@ == issuer_text(),
            r.aud@ == audience_text(),
            r.jti@.len() == 36,
            r.session_id@ == session_id@,
            r.is_temp_password == user.is_temporary_password,
            !foreign_claims(r),
            known_role(r),
    {
        let window = self.validity_seconds() as usize;
        let role = match user.role {
            UserRole::KenyaGovernment => String::from_str("kenya_government"),
        };
        Claims {
            sub: user.id.clone(),
            username: user.username.clone(),
            role,
            exp: now + window,
            iat: now,
            iss: String::from_str("fsfvi-kenya-backend"),
            aud: String::from_str("kenya-government"),
            jti: new_uuid_string(),
            session_id: session_id.to_owned(),
            is_temp_password: user.is_temporary_password,
        }
    }

    /// Check the claims of a token whose signature has been verified: expiry (with
    /// leeway), issuer, audience, role, and the subject's form.
    pub fn validate_claims(&self, claims: &Claims, now: i64) -> (r: AuthResult<TokenValidation>)
        ensures
            match claims_error(*claims, now as int) {
                Some(e) => r == Err::<TokenValidation, AuthError>(e),
                None => match r {
                    Ok(v) => v.user_id@ == claims.sub@ && v.username@ == claims.username@
                        && v.role@ == claims.role@ && v.session_id@ == claims.session_id@
                        && v.is_temp_password == claims.is_temp_password && v.expires_at
                        == claims.exp,
                    Err(_) => false,
                },
            },
    {
        if (now as i128) > (claims.exp as i128) + (TOKEN_LEEWAY_SECONDS as i128) {
            return Err(AuthError::TokenExpired);
        }
        let issuer = String::from_str("fsfvi-kenya-backend");
        let audience = String::from_str("kenya-government");
        if claims.iss != issuer || claims.aud != audience {
            return Err(AuthError::InvalidToken);
        }
        let role = String::from_str("kenya_government");
        if claims.role != role {
            return Err(AuthError::Unauthorized);
        }
        if !parses_as_uuid(claims.sub.as_str()) || (claims.exp as u128) > (i64::MAX as u128) {
            return Err(AuthError::InvalidToken);
        }
        Ok(
            TokenValidation {
                user_id: claims.sub.clone(),
                username: claims.username.clone(),
                role: claims.role.clone(),
                session_id: claims.session_id.clone(),
                is_temp_password: claims.is_temp_password,
                expires_at: claims.exp as i64,
            },
        )
    }
}

/// Claims issued at some instant are refused as expired by any check more than
/// the validity window plus the leeway later.
pub proof fn token_expires_after_window(service: TokenService, claims: Claims, now: int)
    requires
        service.wf(),
        claims.exp == claims.iat + service.window(),
        now > claims.iat + service.window() + TOKEN_LEEWAY_SECONDS,
    ensures
        claims_error(claims, now) == Some(AuthError::TokenExpired),
{
}

/// Revoked tokens (kept in memory).
pub struct TokenBlacklist {
    blacklisted_tokens: Vec<String>,
}

impl TokenBlacklist {
    /// The revoked tokens, in the order they were revoked.
    pub closed spec fn entries(&self) -> Seq<Seq<char>> {
        texts(self.blacklisted_tokens@)
    }

    /// The revoked tokens.
    pub open spec fn contents(&self) -> Set<Seq<char>> {
        self.entries().to_set()
    }

    pub fn new() -> (r: Self)
        ensures
            r.contents() == Set::<Seq<char>>::empty(),
    {
        let r = TokenBlacklist { blacklisted_tokens: Vec::new() };
        assert(texts(r.blacklisted_tokens@).to_set() =~= Set::<Seq<char>>::empty());
        r
    }

    /// Revoke `token`.
    pub fn blacklist_token(&mut self, token: String)
        ensures
            final(self).contents() == old(self).contents().insert(token@),
    {
        let ghost before = texts(self.blacklisted_tokens@);
        self.blacklisted_tokens.push(token);
        assert(texts(self.blacklisted_tokens@) =~= before.push(token@));
        assert(texts(self.blacklisted_tokens@).to_set() =~= before.to_set().insert(token@)) by {
            assert forall|x: Seq<char>| #[trigger] before.push(token@).contains(x) <==> (
            before.contains(x) || x == token@) by {
                if before.push(token@).contains(x) {
                    let i = choose|i: int|
                        0 <= i < before.push(token@).len() && before.push(token@)[i] == x;
                    if i < before.len() {
                        assert(before[i] == x);
                    }
                }
                if before.contains(x) {
                    let i = choose|i: int| 0 <= i < before.len() && before[i] == x;
                    assert(before.push(token@)[i] == x);
                }
                if x == token@ {
                    assert(before.push(token@)[before.len() as int] == x);
                }
            }
        }
    }

    /// Whether `token` has been revoked.
    pub fn is_blacklisted(&self, token: &str) -> (r: bool)
        ensures
            r == self.contents().contains(token@),
    {
        let target = token.to_owned();
        let mut i: usize = 0;
        while i < self.blacklisted_tokens.len()
            invariant
                target@ == token@,
                i <= self.blacklisted_tokens@.len(),
                forall|j: int| 0 <= j < i ==> texts(self.blacklisted_tokens@)[j] != token@,
            decreases self.blacklisted_tokens@.len() - i,
        {
            if self.blacklisted_tokens[i] == target {
                assert(texts(self.blacklisted_tokens@)[i as int] == token@);
                assert(texts(self.blacklisted_tokens@).contains(token@));
                return true;
            }
            i = i + 1;
        }
        assert(!texts(self.blacklisted_tokens@).contains(token@)) by {
            if texts(self.blacklisted_tokens@).contains(token@) {
                let j = choose|j: int|
                    0 <= j < texts(self.blacklisted_tokens@).len() && texts(
                        self.blacklisted_tokens@,
                    )[j] == token@;
                assert(texts(self.blacklisted_tokens@)[j] == token@);
            }
        }
        false
    }

    /// The revoked tokens, in the order they were revoked.
    pub fn tokens(&self) -> (r: Vec<String>)
        ensures
            texts(r@) == self.entries(),
    {
        let mut r: Vec<String> = Vec::new();
        let mut i: usize = 0;
        while i < self.blacklisted_tokens.len()
            invariant
                i <= self.blacklisted_tokens@.len(),
                texts(r@) == texts(self.blacklisted_tokens@).subrange(0, i as int),
            decreases self.blacklisted_tokens@.len() - i,
        {
            let t = self.blacklisted_tokens[i].clone();
            let ghost before = r@;
            r.push(t);
            assert(r@ == before.push(t));
            assert(texts(r@) =~= texts(before).push(t@));
            assert(texts(r@) =~= texts(self.blacklisted_tokens@).subrange(0, i + 1));
            i = i + 1;
        }
        assert(texts(r@) =~= texts(self.blacklisted_tokens@));
        r
    }

    /// Keep only the revoked tokens for which `keep` holds, position by position.
    pub fn retain_flags(&mut self, keep: &Vec<bool>)
        requires
            keep@.len() == old(self).entries().len(),
        ensures
            final(self).contents().subset_of(old(self).contents()),
            forall|i: int|
                0 <= i < keep@.len() && #[trigger] keep@[i] ==> final(self).contents().contains(
                    old(self).entries()[i],
                ),
    {
        let ghost old_texts = texts(self.blacklisted_tokens@);
        let mut kept: Vec<String> = Vec::new();
        let mut i: usize = 0;
        while i < keep.len()
            invariant
                keep@.len() == old_texts.len(),
                old_texts == texts(self.blacklisted_tokens@),
                i <= keep@.len(),
                forall|k: int| 0 <= k < kept@.len() ==> old_texts.contains(#[trigger] texts(kept@)[k]),
                forall|j: int| 0 <= j < i && #[trigger] keep@[j] ==> texts(kept@).contains(old_texts[j]),
            decreases keep@.len() - i,
        {
            if keep[i] {
                let ghost before = texts(kept@);
                let t = self.blacklisted_tokens[i].clone();
                kept.push(t);
                assert(texts(kept@) =~= before.push(old_texts[i as int]));
                assert(old_texts.contains(old_texts[i as int]));
                assert forall|j: int| 0 <= j < i + 1 && #[trigger] keep@[j] implies texts(
                    kept@,
                ).contains(old_texts[j]) by {
                    if j < i {
                        let k = choose|k: int| 0 <= k < before.len() && before[k] == old_texts[j];
                        assert(texts(kept@)[k] == old_texts[j]);
                    } else {
                        assert(texts(kept@)[before.len() as int] == old_texts[j]);
                    }
                }
            }
            i = i + 1;
        }
        self.blacklisted_tokens = kept;
        assert forall|x: Seq<char>| texts(self.blacklisted_tokens@).to_set().contains(x) implies old_texts.to_set().contains(x) by {
            let k = choose|k: int| 0 <= k < texts(self.blacklisted_tokens@).len() && texts(self.blacklisted_tokens@)[k] == x;
            assert(old_texts.contains(texts(self.blacklisted_tokens@)[k]));
        }
    }
}

} // verus!

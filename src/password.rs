//! Password hashing, verification, strength policy and strength rating.
use vstd::prelude::*;
use crate::config::PasswordPolicy;
use crate::error::{AuthError, AuthResult};
use crate::crypto::{
    argon2_accepts, argon2_hash, argon2_verify, argon2id_tagged, bcrypt_accepts, bcrypt_hash,
    bcrypt_tagged, bcrypt_verify, generate_salt,
};
use crate::random::random_below;
use vstd::string::StringExecFns;
use vstd::utf8::{is_ascii_chars, is_ascii_chars_encode_utf8};
use crate::text::{
    ascii_lower, ascii_lowered, byte_len, byte_length, occurs_at,
    char_is_lowercase, char_is_numeric, char_is_uppercase,
    chars_of, contains_chars, contains_seq, is_special, lower_char, lowercase_of, numeric_char,
    special_char, string_from_chars, to_lowercase, upper_char,
};

verus! {


/// Some `k` consecutive characters of `s` are all equal.
pub open spec fn has_run(s: Seq<char>, k: int) -> bool {
    exists|i: int|
        0 <= i && i + k <= s.len() && #[trigger] run_from(s, i, k)
}

pub open spec fn run_from(s: Seq<char>, i: int, k: int) -> bool {
    forall|j: int| i <= j < i + k ==> #[trigger] s[j] == s[i]
}

/// More than `limit` equal characters stand in a row (a limit of zero admits
/// no password at all).
pub open spec fn excessive_repeats(s: Seq<char>, limit: nat) -> bool {
    limit == 0 || has_run(s, limit + 1 as int)
}

/// The lower-cased password contains the lower-cased `pattern`.
pub open spec fn matches_pattern(p: Seq<char>, pattern: Seq<char>) -> bool {
    contains_seq(lowercase_of(p), lowercase_of(pattern))
}

pub open spec fn hits_forbidden(p: Seq<char>, patterns: Seq<String>) -> bool {
    exists|k: int| 0 <= k < patterns.len() && #[trigger] matches_pattern(p, patterns[k]@)
}

pub open spec fn has_upper(s: Seq<char>) -> bool {
    exists|i: int| 0 <= i < s.len() && #[trigger] is_upper(s[i])
}

pub open spec fn has_lower(s: Seq<char>) -> bool {
    exists|i: int| 0 <= i < s.len() && #[trigger] is_lower(s[i])
}

pub open spec fn has_numeric(s: Seq<char>) -> bool {
    exists|i: int| 0 <= i < s.len() && #[trigger] is_numeric(s[i])
}

pub open spec fn has_special(s: Seq<char>) -> bool {
    exists|i: int| 0 <= i < s.len() && #[trigger] is_special_char(s[i])
}

pub open spec fn is_upper(c: char) -> bool {
    upper_char(c)
}

pub open spec fn is_lower(c: char) -> bool {
    lower_char(c)
}

pub open spec fn is_numeric(c: char) -> bool {
    numeric_char(c)
}

pub open spec fn is_special_char(c: char) -> bool {
    special_char(c)
}

/// One rule of the password policy.
#[derive(Debug, Clone, Copy, PartialEq, Eq, Structural)]
pub enum PolicyViolation {
    TooShort,
    MissingUppercase,
    MissingLowercase,
    MissingNumber,
    MissingSpecial,
    RepeatingChars,
    /// The forbidden pattern at this index of the policy's list occurs.
    ForbiddenPattern(usize),
}

/// Whether `p` breaks the rule `v` of `policy`.
pub open spec fn violates(policy: PasswordPolicy, p: Seq<char>, v: PolicyViolation) -> bool {
    match v {
        PolicyViolation::TooShort => byte_len(p) < policy.min_length,
        PolicyViolation::MissingUppercase => policy.require_uppercase && !has_upper(p),
        PolicyViolation::MissingLowercase => policy.require_lowercase && !has_lower(p),
        PolicyViolation::MissingNumber => policy.require_numbers && !has_numeric(p),
        PolicyViolation::MissingSpecial => policy.require_special_chars && !has_special(p),
        PolicyViolation::RepeatingChars => excessive_repeats(p, policy.max_repeating_chars as nat),
        PolicyViolation::ForbiddenPattern(k) => k < policy.forbidden_patterns@.len()
            && matches_pattern(p, policy.forbidden_patterns@[k as int]@),
    }
}

/// `p` satisfies every rule of `policy`.
pub open spec fn meets_policy(policy: PasswordPolicy, p: Seq<char>) -> bool {
    &&& byte_len(p) >= policy.min_length
    &&& policy.require_uppercase ==> has_upper(p)
    &&& policy.require_lowercase ==> has_lower(p)
    &&& policy.require_numbers ==> has_numeric(p)
    &&& policy.require_special_chars ==> has_special(p)
    &&& !excessive_repeats(p, policy.max_repeating_chars as nat)
    &&& !hits_forbidden(p, policy.forbidden_patterns@)
}

pub(crate) fn any_upper(v: &Vec<char>) -> (r: bool)
    ensures
        r == has_upper(v@),
{
    let mut i: usize = 0;
    while i < v.len()
        invariant
            forall|j: int| 0 <= j < i ==> !is_upper(#[trigger] v@[j]),
        decreases v@.len() - i,
    {
        if char_is_uppercase(v[i]) {
            assert(is_upper(v@[i as int]));
            return true;
        }
        i = i + 1;
    }
    false
}

pub(crate) fn any_lower(v: &Vec<char>) -> (r: bool)
    ensures
        r == has_lower(v@),
{
    let mut i: usize = 0;
    while i < v.len()
        invariant
            forall|j: int| 0 <= j < i ==> !is_lower(#[trigger] v@[j]),
        decreases v@.len() - i,
    {
        if char_is_lowercase(v[i]) {
            assert(is_lower(v@[i as int]));
            return true;
        }
        i = i + 1;
    }
    false
}

pub(crate) fn any_numeric(v: &Vec<char>) -> (r: bool)
    ensures
        r == has_numeric(v@),
{
    let mut i: usize = 0;
    while i < v.len()
        invariant
            forall|j: int| 0 <= j < i ==> !is_numeric(#[trigger] v@[j]),
        decreases v@.len() - i,
    {
        if char_is_numeric(v[i]) {
            assert(is_numeric(v@[i as int]));
            return true;
        }
        i = i + 1;
    }
    false
}

pub(crate) fn any_special(v: &Vec<char>) -> (r: bool)
    ensures
        r == has_special(v@),
{
    let mut i: usize = 0;
    while i < v.len()
        invariant
            forall|j: int| 0 <= j < i ==> !is_special_char(#[trigger] v@[j]),
        decreases v@.len() - i,
    {
        if is_special(v[i]) {
            assert(is_special_char(v@[i as int]));
            return true;
        }
        i = i + 1;
    }
    false
}

/// Whether `s` holds a run of more than `limit` equal characters.
fn repeats_exceed(s: &Vec<char>, limit: usize) -> (r: bool)
    ensures
        r == excessive_repeats(s@, limit as nat),
{
    if limit == 0 {
        return true;
    }
    if s.len() == 0 {
        assert(!has_run(s@, limit + 1));
        return false;
    }
    // `count` is the length of the run of equal characters ending at `i - 1`.
    let mut count: usize = 1;
    let mut i: usize = 1;
    while i < s.len()
        invariant
            1 <= i <= s@.len(),
            1 <= count <= i,
            count <= limit,
            run_from(s@, i - count, count as int),
            i - count == 0 || s@[i - count - 1] != s@[i - 1],
            forall|j: int|
                0 <= j && j + limit + 1 <= i ==> !#[trigger] run_from(s@, j, limit + 1),
        decreases s@.len() - i,
    {
        if s[i] == s[i - 1] {
            count = count + 1;
            assert(run_from(s@, i + 1 - count, count as int));
            if count > limit {
                assert(run_from(s@, i + 1 - count, limit + 1));
                return true;
            }
        } else {
            count = 1;
        }
        assert forall|j: int| 0 <= j && j + limit + 1 <= i + 1 implies !#[trigger] run_from(
            s@,
            j,
            limit + 1,
        ) by {
            if j + limit + 1 == i + 1 {
                // a run of `limit + 1` ending at `i` would extend past the current run
                if run_from(s@, j, limit + 1) {
                    let start = i + 1 - count;
                    assert(j < start);
                    assert(s@[start - 1] == s@[j]);
                    assert(s@[i as int] == s@[j]);
                    assert(s@[start as int] == s@[i as int]);
                    if start - 1 >= 0 && start < i + 1 {
                        assert(s@[start - 1] == s@[start as int]);
                    }
                    if count == 1 {
                        assert(s@[i as int] != s@[i - 1]);
                        assert(s@[i - 1] == s@[j]);
                    }
                }
            }
        }
        i = i + 1;
    }
    assert forall|j: int| 0 <= j && j + limit + 1 <= s@.len() implies !#[trigger] run_from(
        s@,
        j,
        limit + 1,
    ) by {}
    false
}

/// Whether the lower-cased `password` contains the lower-cased `pattern`.
fn contains_pattern(password: &str, pattern: &str) -> (r: bool)
    ensures
        r == matches_pattern(password@, pattern@),
{
    let lp = to_lowercase(password);
    let lq = to_lowercase(pattern);
    let hay = chars_of(lp.as_str());
    let needle = chars_of(lq.as_str());
    contains_chars(&hay, &needle)
}

fn push_violation(errors: &mut Vec<PolicyViolation>, v: PolicyViolation)
    ensures
        final(errors)@ == old(errors)@.push(v),
        forall|w: PolicyViolation| #[trigger]
            final(errors)@.contains(w) <==> (old(errors)@.contains(w) || w == v),
{
    let ghost before = errors@;
    errors.push(v);
    assert forall|w: PolicyViolation| #[trigger]
        errors@.contains(w) <==> (before.contains(w) || w == v) by {
        if errors@.contains(w) {
            let i = choose|i: int| 0 <= i < errors@.len() && errors@[i] == w;
            if i < before.len() {
                assert(before[i] == w);
            }
        }
        if before.contains(w) {
            let i = choose|i: int| 0 <= i < before.len() && before[i] == w;
            assert(errors@[i] == w);
        }
        if w == v {
            assert(errors@[before.len() as int] == w);
        }
    }
}

/// Password service: hashing, verification and the strength policy.
pub struct PasswordService {
    pub policy: PasswordPolicy,
}

impl PasswordService {
    /// The rules of `policy`, in the order they are checked, that `password` breaks.
    pub fn password_violations(&self, password: &str) -> (r: Vec<PolicyViolation>)
        ensures
            forall|v: PolicyViolation| r@.contains(v) <==> violates(self.policy, password@, v),
            r@.len() == 0 <==> meets_policy(self.policy, password@),
    {
        let chars = chars_of(password);
        let mut errors: Vec<PolicyViolation> = Vec::new();
        let ghost p = password@;
        let ghost pol = self.policy;
        if byte_length(password) < self.policy.min_length {
            push_violation(&mut errors, PolicyViolation::TooShort);
        }
        if self.policy.require_uppercase && !any_upper(&chars) {
            push_violation(&mut errors, PolicyViolation::MissingUppercase);
        }
        if self.policy.require_lowercase && !any_lower(&chars) {
            push_violation(&mut errors, PolicyViolation::MissingLowercase);
        }
        if self.policy.require_numbers && !any_numeric(&chars) {
            push_violation(&mut errors, PolicyViolation::MissingNumber);
        }
        if self.policy.require_special_chars && !any_special(&chars) {
            push_violation(&mut errors, PolicyViolation::MissingSpecial);
        }
        if repeats_exceed(&chars, self.policy.max_repeating_chars) {
            push_violation(&mut errors, PolicyViolation::RepeatingChars);
        }
        assert(errors@.contains(PolicyViolation::TooShort) == violates(pol, p, PolicyViolation::TooShort));
        assert(errors@.contains(PolicyViolation::MissingUppercase) == violates(pol, p, PolicyViolation::MissingUppercase));
        assert(errors@.contains(PolicyViolation::MissingLowercase) == violates(pol, p, PolicyViolation::MissingLowercase));
        assert(errors@.contains(PolicyViolation::MissingNumber) == violates(pol, p, PolicyViolation::MissingNumber));
        assert(errors@.contains(PolicyViolation::MissingSpecial) == violates(pol, p, PolicyViolation::MissingSpecial));
        assert(errors@.contains(PolicyViolation::RepeatingChars) == violates(pol, p, PolicyViolation::RepeatingChars));
        let ghost base = errors@;
        assert forall|v: PolicyViolation| !(v is ForbiddenPattern) implies (#[trigger] base.contains(v)
            <==> violates(pol, p, v)) by {
            match v {
                PolicyViolation::TooShort => {},
                PolicyViolation::MissingUppercase => {},
                PolicyViolation::MissingLowercase => {},
                PolicyViolation::MissingNumber => {},
                PolicyViolation::MissingSpecial => {},
                PolicyViolation::RepeatingChars => {},
                PolicyViolation::ForbiddenPattern(_) => {},
            }
        }
        assert(forall|v: PolicyViolation| base.contains(v) ==> !(v is ForbiddenPattern));
        let mut k: usize = 0;
        while k < self.policy.forbidden_patterns.len()
            invariant
                p == password@,
                pol == self.policy,
                k <= pol.forbidden_patterns@.len(),
                errors@.len() >= base.len(),
                errors@.subrange(0, base.len() as int) == base,
                forall|v: PolicyViolation| base.contains(v) ==> !(v is ForbiddenPattern),
                forall|v: PolicyViolation|
                    !(v is ForbiddenPattern) ==> (#[trigger] base.contains(v) <==> violates(pol, p, v)),
                forall|i: int|
                    base.len() <= i < errors@.len() ==> (#[trigger] errors@[i] is ForbiddenPattern),
                forall|j: usize|
                    errors@.contains(PolicyViolation::ForbiddenPattern(j)) <==> (j < k
                        && matches_pattern(p, pol.forbidden_patterns@[j as int]@)),
                forall|v: PolicyViolation|
                    !(v is ForbiddenPattern) ==> (errors@.contains(v) <==> base.contains(v)),
            decreases pol.forbidden_patterns@.len() - k,
        {
            let hit = contains_pattern(password, self.policy.forbidden_patterns[k].as_str());
            if hit {
                let ghost before = errors@;
                push_violation(&mut errors, PolicyViolation::ForbiddenPattern(k));
                assert(errors@.subrange(0, base.len() as int) =~= before.subrange(
                    0,
                    base.len() as int,
                ));
            }
            k = k + 1;
        }
        proof {
            assert forall|v: PolicyViolation| errors@.contains(v) <==> violates(pol, p, v) by {
                match v {
                    PolicyViolation::ForbiddenPattern(j) => {
                        assert(errors@.contains(PolicyViolation::ForbiddenPattern(j)) <==> (j < k
                            && matches_pattern(p, pol.forbidden_patterns@[j as int]@)));
                    },
                    _ => {
                        assert(errors@.contains(v) <==> base.contains(v));
                        assert(base.contains(v) <==> violates(pol, p, v));
                    },
                }
            }
            if errors@.len() == 0 {
                assert(!hits_forbidden(p, pol.forbidden_patterns@)) by {
                    if hits_forbidden(p, pol.forbidden_patterns@) {
                        let k = choose|k: int|
                            0 <= k < pol.forbidden_patterns@.len() && #[trigger] matches_pattern(
                                p,
                                pol.forbidden_patterns@[k]@,
                            );
                        assert(violates(pol, p, PolicyViolation::ForbiddenPattern(k as usize)));
                        assert(errors@.contains(PolicyViolation::ForbiddenPattern(k as usize)));
                    }
                }
                assert(!violates(pol, p, PolicyViolation::TooShort));
                assert(!violates(pol, p, PolicyViolation::MissingUppercase));
                assert(!violates(pol, p, PolicyViolation::MissingLowercase));
                assert(!violates(pol, p, PolicyViolation::MissingNumber));
                assert(!violates(pol, p, PolicyViolation::MissingSpecial));
                assert(!violates(pol, p, PolicyViolation::RepeatingChars));
            } else {
                let v = errors@[0];
                assert(errors@.contains(v));
                assert(violates(pol, p, v));
                match v {
                    PolicyViolation::ForbiddenPattern(j) => {
                        assert(matches_pattern(p, pol.forbidden_patterns@[j as int]@));
                    },
                    _ => {},
                }
            }
        }
        errors
    }

    /// Validate password strength according to the policy.
    pub fn validate_password_strength(&self, password: &str) -> (r: AuthResult<()>)
        ensures
            meets_policy(self.policy, password@) ==> r == Ok::<(), AuthError>(()),
            !meets_policy(self.policy, password@) ==> r == Err::<(), AuthError>(
                AuthError::PasswordTooWeak,
            ),
    {
        let errors = self.password_violations(password);
        if errors.len() == 0 {
            Ok(())
        } else {
            Err(AuthError::PasswordTooWeak)
        }
    }

    /// Check if the password holds more equal characters in a row than the policy allows.
    pub fn has_excessive_repeating_chars(&self, password: &str) -> (r: bool)
        ensures
            r == excessive_repeats(password@, self.policy.max_repeating_chars as nat),
    {
        let chars = chars_of(password);
        repeats_exceed(&chars, self.policy.max_repeating_chars)
    }
}


/// `digest` verifies `password` under one of the two supported algorithms.
pub open spec fn password_matches(password: Seq<char>, digest: Seq<char>) -> bool {
    argon2_accepts(password, digest) || bcrypt_accepts(password, digest)
}

/// The bcrypt cost used when Argon2 cannot produce a digest.
pub const BCRYPT_FALLBACK_COST: u32 = 12;

/// Characters left out of temporary passwords (small forms; their capitals are
/// left out too): each pattern of the default deny-list holds one of them.
pub open spec fn temp_excluded(c: char) -> bool {
    c == '1' || c == 'a' || c == 'g' || c == 'k' || c == 'p' || c == 'q'
}

pub open spec fn temp_upper(c: char) -> bool {
    'A' <= c <= 'Z' && c != 'A' && c != 'G' && c != 'K' && c != 'P' && c != 'Q'
}

pub open spec fn temp_lower(c: char) -> bool {
    'a' <= c <= 'z' && !temp_excluded(c)
}

pub open spec fn temp_digit(c: char) -> bool {
    '0' <= c <= '9' && c != '1'
}

/// A character a temporary password may hold.
pub open spec fn temp_alphabet_char(c: char) -> bool {
    temp_upper(c) || temp_lower(c) || temp_digit(c) || temp_special_char(c)
}

/// `s` holds a character left out of temporary passwords.
pub open spec fn holds_excluded(s: Seq<char>) -> bool {
    exists|j: int| 0 <= j < s.len() && temp_excluded(#[trigger] s[j])
}

/// A policy that temporary passwords meet by construction: a repetition limit of
/// at least one, a minimum length Argon2 can hash, and every forbidden pattern,
/// lower-cased, holding a character temporary passwords leave out.
pub open spec fn temp_policy_fit(policy: PasswordPolicy) -> bool {
    &&& policy.max_repeating_chars >= 1
    &&& policy.min_length <= u32::MAX
    &&& forall|k: int|
        0 <= k < policy.forbidden_patterns@.len() ==> #[trigger] holds_excluded(
            lowercase_of(policy.forbidden_patterns@[k]@),
        )
}

/// Length of a temporary password: the policy's minimum, and at least four.
pub open spec fn temp_length(policy: PasswordPolicy) -> int {
    if policy.min_length < 4 {
        4
    } else {
        policy.min_length as int
    }
}

/// The shape of every temporary password: its length, characters of the
/// temporary alphabet only, no character repeating the one before, and at least
/// one capital, small letter, digit and punctuation mark.
pub open spec fn temporary_shape(policy: PasswordPolicy, r: Seq<char>) -> bool {
    &&& r.len() == temp_length(policy)
    &&& forall|i: int| 0 <= i < r.len() ==> temp_alphabet_char(#[trigger] r[i])
    &&& forall|i: int| 1 <= i < r.len() ==> #[trigger] r[i] != r[i - 1]
    &&& exists|i: int| 0 <= i < r.len() && temp_upper(#[trigger] r[i])
    &&& exists|i: int| 0 <= i < r.len() && temp_lower(#[trigger] r[i])
    &&& exists|i: int| 0 <= i < r.len() && temp_digit(#[trigger] r[i])
    &&& exists|i: int| 0 <= i < r.len() && temp_special_char(#[trigger] r[i])
}

pub open spec fn temp_special_char(c: char) -> bool {
    c == '!' || c == '@' || c == '#' || c == '$' || c == '%' || c == '^' || c == '&' || c == '*'
}

/// The words that mark a password as commonly used.
pub open spec fn common_words() -> Seq<Seq<char>> {
    seq![
        "password"@, "123456"@, "password123"@, "admin"@, "qwerty"@, "letmein"@, "welcome"@,
        "monkey"@, "dragon"@, "master"@, "kenya"@, "government"@, "nairobi"@, "fsfvi"@,
    ]
}

pub open spec fn is_common(p: Seq<char>) -> bool {
    exists|k: int| 0 <= k < common_words().len() && #[trigger] contains_seq(
        lowercase_of(p),
        common_words()[k],
    )
}

/// `b` raised to `e`.
pub open spec fn power(b: nat, e: nat) -> nat
    decreases e,
{
    if e == 0 {
        1
    } else {
        b * power(b, (e - 1) as nat)
    }
}

/// Size of the alphabet the password draws on: 26 for lower case, 26 for upper
/// case, 10 for digits and 32 for punctuation, each counted when present.
pub open spec fn charset_size(p: Seq<char>) -> nat {
    (if has_lower(p) { 26nat } else { 0nat }) + (if has_upper(p) { 26nat } else { 0nat }) + (
    if has_numeric(p) { 10nat } else { 0nat }) + (if has_special(p) { 32nat } else { 0nat })
}

/// The estimated entropy `len * log2(charset_size)` reaches `log2(target)` bits,
/// that is `charset_size ^ len >= target`.
pub open spec fn entropy_reaches(p: Seq<char>, target: nat) -> bool {
    charset_size(p) > 0 && power(charset_size(p), byte_len(p)) >= target
}

/// 2^60, 2^40 and 2^25: the entropy thresholds of 60, 40 and 25 bits.
pub const ENTROPY_60_BITS: u128 = 1152921504606846976;
pub const ENTROPY_40_BITS: u128 = 1099511627776;
pub const ENTROPY_25_BITS: u128 = 33554432;

/// The strength score of a password under `policy`'s repetition limit.
pub open spec fn strength_score(policy: PasswordPolicy, p: Seq<char>) -> int {
    (if byte_len(p) >= 12 { 20int } else { 0 }) + (if byte_len(p) >= 16 { 10int } else { 0 }) + (if byte_len(p)
        >= 20 { 10int } else { 0 }) + (if has_lower(p) { 5int } else { 0 }) + (if has_upper(p) {
        5int
    } else { 0 }) + (if has_numeric(p) { 5int } else { 0 }) + (if has_special(p) { 10int } else {
        0
    }) + (if entropy_reaches(p, ENTROPY_60_BITS as nat) { 20int } else if entropy_reaches(
        p,
        ENTROPY_40_BITS as nat,
    ) { 15int } else if entropy_reaches(p, ENTROPY_25_BITS as nat) { 10int } else { 0 }) - (
    if is_common(p) { 30int } else { 0 }) - (if excessive_repeats(
        p,
        policy.max_repeating_chars as nat,
    ) { 20int } else { 0 })
}

/// The strength level a score falls in.
pub open spec fn strength_of_score(score: int) -> PasswordStrength {
    if score <= 30 {
        PasswordStrength::VeryWeak
    } else if score <= 50 {
        PasswordStrength::Weak
    } else if score <= 70 {
        PasswordStrength::Moderate
    } else if score <= 85 {
        PasswordStrength::Strong
    } else {
        PasswordStrength::VeryStrong
    }
}

/// Password strength levels.
#[derive(Debug, Clone, Copy, PartialEq, Eq, Structural)]
pub enum PasswordStrength {
    VeryWeak,
    Weak,
    Moderate,
    Strong,
    VeryStrong,
}

impl PasswordStrength {
    /// The display text of the level.
    pub fn to_string(&self) -> (r: String) {
        match self {
            PasswordStrength::VeryWeak => String::from_str("Very Weak"),
            PasswordStrength::Weak => String::from_str("Weak"),
            PasswordStrength::Moderate => String::from_str("Moderate"),
            PasswordStrength::Strong => String::from_str("Strong"),
            PasswordStrength::VeryStrong => String::from_str("Very Strong"),
        }
    }
}

proof fn lemma_power_grows(b: nat, e1: nat, e2: nat)
    requires
        b >= 1,
        e1 <= e2,
    ensures
        power(b, e1) <= power(b, e2),
    decreases e2,
{
    if e1 < e2 {
        lemma_power_grows(b, e1, (e2 - 1) as nat);
        assert(power(b, (e2 - 1) as nat) <= b * power(b, (e2 - 1) as nat)) by (nonlinear_arith)
            requires
                b >= 1,
        ;
    }
}

/// Whether `cs ^ len >= target`, for a charset of at most 94 characters and a target
/// of at most 2^60.
fn power_reaches(cs: u128, len: usize, target: u128) -> (r: bool)
    requires
        1 <= cs <= 94,
        target <= ENTROPY_60_BITS,
    ensures
        r == (power(cs as nat, len as nat) >= target),
{
    let mut acc: u128 = 1;
    let mut i: usize = 0;
    while i < len
        invariant
            1 <= cs <= 94,
            target <= ENTROPY_60_BITS,
            i <= len,
            acc == power(cs as nat, i as nat),
            acc <= ENTROPY_60_BITS * 94,
        decreases len - i,
    {
        if acc >= target {
            proof {
                lemma_power_grows(cs as nat, i as nat, len as nat);
            }
            return true;
        }
        assert(acc * cs <= ENTROPY_60_BITS * 94) by (nonlinear_arith)
            requires
                acc < target,
                target <= ENTROPY_60_BITS,
                cs <= 94,
        ;
        acc = acc * cs;
        assert(power(cs as nat, (i + 1) as nat) == cs * power(cs as nat, i as nat));
        i = i + 1;
    }
    acc >= target
}

impl PasswordService {
    pub fn new() -> (r: Self)
        ensures
            r.policy.min_length == 12,
            r.policy.max_repeating_chars == 3,
            r.policy.require_uppercase && r.policy.require_lowercase,
            r.policy.require_numbers && r.policy.require_special_chars,
            r.policy.forbidden_patterns@.len() == 6,
            r.policy.forbidden_patterns@[0]@ == "123"@,
            r.policy.forbidden_patterns@[1]@ == "abc"@,
            r.policy.forbidden_patterns@[2]@ == "password"@,
            r.policy.forbidden_patterns@[3]@ == "qwerty"@,
            r.policy.forbidden_patterns@[4]@ == "kenya"@,
            r.policy.forbidden_patterns@[5]@ == "government"@,
            temp_policy_fit(r.policy),
    {
        let policy = PasswordPolicy::default();
        // Lower-casing the default patterns shows that each holds a character that
        // temporary passwords leave out.
        let _lowered = [
            to_lowercase("123"),
            to_lowercase("abc"),
            to_lowercase("password"),
            to_lowercase("qwerty"),
            to_lowercase("kenya"),
            to_lowercase("government"),
        ];
        proof {
            reveal_strlit("123");
            reveal_strlit("abc");
            reveal_strlit("password");
            reveal_strlit("qwerty");
            reveal_strlit("kenya");
            reveal_strlit("government");
            assert(lowercase_of("123"@)[0] == '1');
            assert(lowercase_of("abc"@)[0] == 'a');
            assert(lowercase_of("password"@)[0] == 'p');
            assert(lowercase_of("qwerty"@)[0] == 'q');
            assert(lowercase_of("kenya"@)[0] == 'k');
            assert(lowercase_of("government"@)[0] == 'g');
            assert forall|k: int| 0 <= k < policy.forbidden_patterns@.len() implies #[trigger] holds_excluded(
                lowercase_of(policy.forbidden_patterns@[k]@),
            ) by {
                let low = lowercase_of(policy.forbidden_patterns@[k]@);
                assert(temp_excluded(low[0]));
            }
        }
        PasswordService { policy }
    }

    pub fn with_policy(policy: PasswordPolicy) -> (r: Self)
        ensures
            r.policy == policy,
    {
        PasswordService { policy }
    }

    /// Hash a password using Argon2, falling back to bcrypt if Argon2 fails.
    pub fn hash_password(&self, password: &str) -> (r: AuthResult<String>)
        ensures
            !meets_policy(self.policy, password@) ==> r == Err::<String, AuthError>(
                AuthError::PasswordTooWeak,
            ),
            meets_policy(self.policy, password@) && byte_len(password@) <= u32::MAX ==> r is Ok,
            meets_policy(self.policy, password@) ==> match r {
                Ok(h) => password_matches(password@, h@) && (argon2id_tagged(h@) || bcrypt_tagged(
                    h@,
                )),
                Err(e) => e is InternalError,
            },
    {
        self.validate_password_strength(password)?;
        let salt = generate_salt();
        match argon2_hash(password, salt.as_str()) {
            Ok(h) => Ok(h),
            Err(_) => match bcrypt_hash(password, BCRYPT_FALLBACK_COST) {
                Ok(h) => Ok(h),
                Err(_) => Err(AuthError::InternalError(String::from_str("Failed to hash password"))),
            },
        }
    }

    /// Verify a password against a digest of either supported algorithm; a digest
    /// that neither reads is a failed verification.
    pub fn verify_password(&self, password: &str, hash: &str) -> (r: AuthResult<bool>)
        ensures
            r == Ok::<bool, AuthError>(password_matches(password@, hash@)),
            !hash@.contains('$') ==> r == Ok::<bool, AuthError>(false),
    {
        self.verify_password_with_context(password, hash, "Authentication")
    }

    /// Verify a password against a digest; `context` names the caller for diagnostics.
    pub fn verify_password_with_context(&self, password: &str, hash: &str, context: &str) -> (r:
        AuthResult<bool>)
        ensures
            r == Ok::<bool, AuthError>(password_matches(password@, hash@)),
            !hash@.contains('$') ==> r == Ok::<bool, AuthError>(false),
    {
        if argon2_verify(password, hash) {
            return Ok(true);
        }
        match bcrypt_verify(password, hash) {
            Ok(result) => Ok(result),
            Err(_) => Ok(false),
        }
    }

    /// Whether `new_password` is the password `current_hash` was made from.
    pub fn passwords_are_same(&self, new_password: &str, current_hash: &str) -> (r: bool)
        ensures
            r == password_matches(new_password@, current_hash@),
    {
        match self.verify_password_with_context(new_password, current_hash, "Password similarity check") {
            Ok(is_same) => is_same,
            Err(_) => false,
        }
    }

    /// Check if the password contains a commonly used word.
    pub fn is_common_password(&self, password: &str) -> (r: bool)
        ensures
            r == is_common(password@),
    {
        let lowered = to_lowercase(password);
        let hay = chars_of(lowered.as_str());
        let words = common_password_list();
        let mut k: usize = 0;
        while k < words.len()
            invariant
                hay@ == lowercase_of(password@),
                words@.len() == common_words().len(),
                forall|i: int| 0 <= i < words@.len() ==> #[trigger] words@[i]@ == common_words()[i],
                k <= words@.len(),
                forall|i: int| 0 <= i < k ==> !#[trigger] contains_seq(hay@, common_words()[i]),
            decreases words@.len() - k,
        {
            let needle = chars_of(words[k].as_str());
            if contains_chars(&hay, &needle) {
                assert(contains_seq(lowercase_of(password@), common_words()[k as int]));
                return true;
            }
            k = k + 1;
        }
        false
    }

    /// Size of the alphabet the password draws on (see `charset_size`).
    pub fn charset_size(&self, password: &str) -> (r: u32)
        ensures
            r as nat == charset_size(password@),
    {
        let chars = chars_of(password);
        let mut size: u32 = 0;
        if any_lower(&chars) {
            size = size + 26;
        }
        if any_upper(&chars) {
            size = size + 26;
        }
        if any_numeric(&chars) {
            size = size + 10;
        }
        if any_special(&chars) {
            size = size + 32;
        }
        size
    }

    /// Rate password strength.
    pub fn rate_password_strength(&self, password: &str) -> (r: PasswordStrength)
        ensures
            r == strength_of_score(strength_score(self.policy, password@)),
    {
        let chars = chars_of(password);
        let length = byte_length(password);
        let cs = self.charset_size(password);
        let has_common_patterns = self.is_common_password(password);
        let has_repeating = repeats_exceed(&chars, self.policy.max_repeating_chars);
        let mut score: i64 = 0;
        if length >= 12 {
            score = score + 20;
        }
        if length >= 16 {
            score = score + 10;
        }
        if length >= 20 {
            score = score + 10;
        }
        if any_lower(&chars) {
            score = score + 5;
        }
        if any_upper(&chars) {
            score = score + 5;
        }
        if any_numeric(&chars) {
            score = score + 5;
        }
        if any_special(&chars) {
            score = score + 10;
        }
        if cs > 0 {
            if power_reaches(cs as u128, length, ENTROPY_60_BITS) {
                score = score + 20;
            } else if power_reaches(cs as u128, length, ENTROPY_40_BITS) {
                score = score + 15;
            } else if power_reaches(cs as u128, length, ENTROPY_25_BITS) {
                score = score + 10;
            }
        }
        if has_common_patterns {
            score = score - 30;
        }
        if has_repeating {
            score = score - 20;
        }
        assert(score == strength_score(self.policy, password@));
        if score <= 30 {
            PasswordStrength::VeryWeak
        } else if score <= 50 {
            PasswordStrength::Weak
        } else if score <= 70 {
            PasswordStrength::Moderate
        } else if score <= 85 {
            PasswordStrength::Strong
        } else {
            PasswordStrength::VeryStrong
        }
    }

    /// Generate a temporary password: one capital, one small letter, one digit and
    /// one punctuation mark side by side at a random place, the rest drawn from the
    /// whole temporary alphabet, each character differing from the one before. It
    /// meets every policy that `temp_policy_fit` admits, the default one included.
    pub fn generate_temporary_password(&self) -> (r: String)
        ensures
            temporary_shape(self.policy, r@),
            temp_policy_fit(self.policy) ==> meets_policy(self.policy, r@),
    {
        let total: usize = if self.policy.min_length < 4 { 4 } else { self.policy.min_length };
        let start = random_below(total - 3);
        let mut chars: Vec<char> = Vec::new();
        let mut i: usize = 0;
        while i < total
            invariant
                total == temp_length(self.policy),
                4 <= total,
                start + 4 <= total,
                chars@.len() == i,
                i <= total,
                forall|j: int| 0 <= j < i ==> temp_alphabet_char(#[trigger] chars@[j]),
                forall|j: int| 1 <= j < i ==> #[trigger] chars@[j] != chars@[j - 1],
                i > start ==> temp_upper(chars@[start as int]) && upper_char(chars@[start as int]),
                i > start + 1 ==> temp_lower(chars@[start + 1]) && lower_char(chars@[start + 1]),
                i > start + 2 ==> temp_digit(chars@[start + 2]) && numeric_char(chars@[start + 2]),
                i > start + 3 ==> temp_special_char(chars@[start + 3]),
            decreases total - i,
        {
            let kind: u8 = if i == start {
                0
            } else if i == start + 1 {
                1
            } else if i == start + 2 {
                2
            } else if i == start + 3 {
                3
            } else {
                4
            };
            let drawn = class_char(kind, random_below(class_size(kind)));
            let c = if i > 0 && drawn == chars[i - 1] {
                let first = class_char(kind, 0);
                if first == drawn {
                    class_char(kind, 1)
                } else {
                    first
                }
            } else {
                drawn
            };
            if kind == 0 {
                char_is_uppercase(c);
            } else if kind == 1 {
                char_is_lowercase(c);
            } else if kind == 2 {
                char_is_numeric(c);
            }
            chars.push(c);
            i = i + 1;
        }
        let r = string_from_chars(&chars);
        let lowered = to_lowercase(r.as_str());
        proof {
            assert(r@ == chars@);
            assert(temp_upper(r@[start as int]));
            assert(temp_lower(r@[start + 1]));
            assert(temp_digit(r@[start + 2]));
            assert(temp_special_char(r@[start + 3]));
            if temp_policy_fit(self.policy) {
                lemma_temporary_meets_policy(self.policy, r@, start as int);
            }
        }
        r
    }
}

/// How many characters the class `kind` offers: 0 capitals, 1 small letters,
/// 2 digits, 3 punctuation, 4 the whole temporary alphabet.
fn class_size(kind: u8) -> (n: usize)
    requires
        kind <= 4,
    ensures
        n >= 2,
        kind == 0 ==> n == 21,
        kind == 1 ==> n == 21,
        kind == 2 ==> n == 9,
        kind == 3 ==> n == 8,
        kind == 4 ==> n == 59,
{
    if kind == 0 || kind == 1 {
        21
    } else if kind == 2 {
        9
    } else if kind == 3 {
        8
    } else {
        59
    }
}

/// The `k`-th character of the class `kind` (see `class_size`).
fn class_char(kind: u8, k: usize) -> (c: char)
    requires
        kind <= 4,
        k < if kind == 0 || kind == 1 { 21usize } else if kind == 2 { 9usize } else if kind == 3 {
            8usize
        } else {
            59usize
        },
    ensures
        temp_alphabet_char(c),
        kind == 0 ==> temp_upper(c),
        kind == 1 ==> temp_lower(c),
        kind == 2 ==> temp_digit(c),
        kind == 3 ==> temp_special_char(c),
        k == 0 ==> c == class_first(kind),
        k == 1 ==> c == class_second(kind),
{
    if kind == 0 {
        upper_char_at(k)
    } else if kind == 1 {
        lower_char_at(k)
    } else if kind == 2 {
        if k == 0 {
            '0'
        } else {
            (49 + k as u8) as char
        }
    } else if kind == 3 {
        special_char_at(k)
    } else if k < 21 {
        upper_char_at(k)
    } else if k < 42 {
        lower_char_at(k - 21)
    } else if k < 51 {
        if k == 42 {
            '0'
        } else {
            (49 + (k - 42) as u8) as char
        }
    } else {
        special_char_at(k - 51)
    }
}

pub open spec fn class_first(kind: u8) -> char {
    if kind == 1 {
        'b'
    } else if kind == 2 {
        '0'
    } else if kind == 3 {
        '!'
    } else {
        'B'
    }
}

pub open spec fn class_second(kind: u8) -> char {
    if kind == 1 {
        'c'
    } else if kind == 2 {
        '2'
    } else if kind == 3 {
        '@'
    } else {
        'C'
    }
}

/// Capitals B-F, H-J, L-O, R-Z.
fn upper_char_at(k: usize) -> (c: char)
    requires
        k < 21,
    ensures
        temp_upper(c),
        k == 0 ==> c == 'B',
        k == 1 ==> c == 'C',
{
    if k < 5 {
        (66 + k as u8) as char
    } else if k < 8 {
        (72 + (k - 5) as u8) as char
    } else if k < 12 {
        (76 + (k - 8) as u8) as char
    } else {
        (82 + (k - 12) as u8) as char
    }
}

/// Small letters b-f, h-j, l-o, r-z.
fn lower_char_at(k: usize) -> (c: char)
    requires
        k < 21,
    ensures
        temp_lower(c),
        k == 0 ==> c == 'b',
        k == 1 ==> c == 'c',
{
    if k < 5 {
        (98 + k as u8) as char
    } else if k < 8 {
        (104 + (k - 5) as u8) as char
    } else if k < 12 {
        (108 + (k - 8) as u8) as char
    } else {
        (114 + (k - 12) as u8) as char
    }
}

/// The punctuation `!@#$%^&*`.
fn special_char_at(k: usize) -> (c: char)
    requires
        k < 8,
    ensures
        temp_special_char(c),
        k == 0 ==> c == '!',
        k == 1 ==> c == '@',
{
    if k == 0 {
        '!'
    } else if k == 1 {
        '@'
    } else if k == 2 {
        '#'
    } else if k == 3 {
        '$'
    } else if k == 4 {
        '%'
    } else if k == 5 {
        '^'
    } else if k == 6 {
        '&'
    } else {
        '*'
    }
}

proof fn lemma_no_excluded_after_lowering(c: char)
    requires
        temp_alphabet_char(c),
    ensures
        !temp_excluded(ascii_lower(c)),
        '\0' <= c <= '\u{7f}',
{
    if 'A' <= c <= 'Z' {
        assert(ascii_lower(c) as u32 == c as u32 + 32);
    }
}

proof fn lemma_temporary_meets_policy(policy: PasswordPolicy, r: Seq<char>, start: int)
    requires
        temp_policy_fit(policy),
        r.len() == temp_length(policy),
        forall|i: int| 0 <= i < r.len() ==> temp_alphabet_char(#[trigger] r[i]),
        forall|i: int| 1 <= i < r.len() ==> #[trigger] r[i] != r[i - 1],
        0 <= start && start + 4 <= r.len(),
        upper_char(r[start]),
        lower_char(r[start + 1]),
        numeric_char(r[start + 2]),
        temp_special_char(r[start + 3]),
        is_ascii_chars(r) ==> lowercase_of(r) == ascii_lowered(r),
    ensures
        meets_policy(policy, r),
{
    assert(is_ascii_chars(r)) by {
        assert forall|i: int| 0 <= i < r.len() implies '\0' <= #[trigger] r[i] <= '\u{7f}' by {
            lemma_no_excluded_after_lowering(r[i]);
        }
    }
    is_ascii_chars_encode_utf8(r);
    assert(is_upper(r[start]));
    assert(is_lower(r[start + 1]));
    assert(is_numeric(r[start + 2]));
    assert(is_special_char(r[start + 3]));
    assert(!has_run(r, policy.max_repeating_chars + 1 as int)) by {
        if has_run(r, policy.max_repeating_chars + 1 as int) {
            let i = choose|i: int|
                0 <= i && i + (policy.max_repeating_chars + 1) <= r.len() && #[trigger] run_from(
                    r,
                    i,
                    policy.max_repeating_chars + 1 as int,
                );
            assert(r[i + 1] == r[i]);
            assert(r[i + 1] != r[(i + 1) - 1]);
        }
    }
    let low = lowercase_of(r);
    assert forall|k: int| 0 <= k < policy.forbidden_patterns@.len() implies !#[trigger] matches_pattern(
        r,
        policy.forbidden_patterns@[k]@,
    ) by {
        let needle = lowercase_of(policy.forbidden_patterns@[k]@);
        assert(holds_excluded(needle));
        let j = choose|j: int| 0 <= j < needle.len() && temp_excluded(#[trigger] needle[j]);
        if contains_seq(low, needle) {
            let i = choose|i: int| #[trigger] occurs_at(low, needle, i);
            assert(low.subrange(i, i + needle.len())[j] == needle[j]);
            assert(low[i + j] == ascii_lower(r[i + j]));
            lemma_no_excluded_after_lowering(r[i + j]);
        }
    }
}

fn common_password_list() -> (r: Vec<String>)
    ensures
        r@.len() == common_words().len(),
        forall|i: int| 0 <= i < r@.len() ==> #[trigger] r@[i]@ == common_words()[i],
{
    let mut r: Vec<String> = Vec::new();
    r.push(String::from_str("password"));
    r.push(String::from_str("123456"));
    r.push(String::from_str("password123"));
    r.push(String::from_str("admin"));
    r.push(String::from_str("qwerty"));
    r.push(String::from_str("letmein"));
    r.push(String::from_str("welcome"));
    r.push(String::from_str("monkey"));
    r.push(String::from_str("dragon"));
    r.push(String::from_str("master"));
    r.push(String::from_str("kenya"));
    r.push(String::from_str("government"));
    r.push(String::from_str("nairobi"));
    r.push(String::from_str("fsfvi"));
    r
}

} // verus!

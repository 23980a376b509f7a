//! Second factor: TOTP secrets and codes, one-time backup codes, and the
//! temporary token handed out while a second factor is pending.
use vstd::prelude::*;
use base64::Engine;
use vstd::string::StringExecFns;
use crate::error::{AuthError, AuthResult};
use crate::random::{new_uuid_string, random_alphanumeric, random_byte};
use crate::text::{ascii_alphanumeric, string_from_chars};
use vstd::utf8::{encode_utf8, is_ascii_chars, is_ascii_chars_encode_utf8};

verus! {

#[verifier::external_type_specification]
#[verifier::external_body]
pub struct ExDecodeError(base64::DecodeError);

#[verifier::external_type_specification]
#[verifier::external_body]
pub struct ExJsonError(serde_json::Error);

/// Standard base64 text (with padding) of `bytes`.
pub uninterp spec fn base64_of(bytes: Seq<u8>) -> Seq<char>;

/// The bytes standard base64 decoding reads from `text`, if it reads.
pub uninterp spec fn base64_decoded(text: Seq<char>) -> Option<Seq<u8>>;

/// The six-digit HMAC-SHA1 TOTP code of `key` for the 30-second step `counter`.
pub uninterp spec fn totp_code(key: Seq<u8>, counter: u64) -> Seq<char>;

/// The JSON array text serde_json writes for a list of strings.
pub uninterp spec fn json_of_codes(codes: Seq<Seq<char>>) -> Seq<char>;

/// The list of strings serde_json reads from `text`, if it reads as one.
pub uninterp spec fn codes_of_json(text: Seq<char>) -> Option<Seq<Seq<char>>>;

/// Relies on base64's `STANDARD` engine `encode`.
#[verifier::external_body]
fn encode_base64(bytes: &Vec<u8>) -> (r: String)
    ensures
        r@ == base64_of(bytes@),
{
    base64::engine::general_purpose::STANDARD.encode(bytes)
}

/// Relies on base64's `STANDARD` engine `decode`.
#[verifier::external_body]
fn decode_base64(text: &str) -> (r: Result<Vec<u8>, base64::DecodeError>)
    ensures
        match r {
            Ok(v) => base64_decoded(text@) == Some(v@),
            Err(_) => base64_decoded(text@) is None,
        },
{
    base64::engine::general_purpose::STANDARD.decode(text)
}

/// Relies on `totp_lite::totp_custom::<Sha1>` with a 30-second step and six
/// digits: the code depends on the key and on `time / 30` alone, and is six
/// characters long.
#[verifier::external_body]
fn totp_at(key: &Vec<u8>, time: u64) -> (r: String)
    ensures
        r@ == totp_code(key@, time / 30),
        r@.len() == 6,
{
    totp_lite::totp_custom::<totp_lite::Sha1>(30, 6, key, time)
}

/// The texts of a list of strings.
pub open spec fn texts(v: Seq<String>) -> Seq<Seq<char>> {
    v.map_values(|s: String| s@)
}

/// Relies on `serde_json::to_string` for a list of strings: it fails only for a
/// value whose `Serialize` impl fails or for a map with non-string keys, so a
/// list of strings always serialises, and `serde_json::from_str` reads the text
/// back as the same list.
#[verifier::external_body]
fn codes_to_json(codes: &[String]) -> (r: Result<String, serde_json::Error>)
    ensures
        r is Ok,
        r matches Ok(s) ==> s@ == json_of_codes(texts(codes@)),
        r matches Ok(s) ==> codes_of_json(s@) == Some(texts(codes@)),
{
    serde_json::to_string(codes)
}

/// Relies on `serde_json::from_str` for a list of strings.
#[verifier::external_body]
fn codes_from_json(text: &str) -> (r: Result<Vec<String>, serde_json::Error>)
    ensures
        match r {
            Ok(v) => codes_of_json(text@) == Some(texts(v@)),
            Err(_) => codes_of_json(text@) is None,
        },
{
    serde_json::from_str(text)
}

/// Seconds in one TOTP step.
pub const TOTP_STEP: u64 = 30;

/// Counter of the step one before the step of `t` (held at zero).
pub open spec fn earlier_step(t: u64) -> u64 {
    (if t < 30 { 0 } else { (t - 30) as u64 }) / 30
}

/// Counter of the step one after the step of `t` (held at the last step).
pub open spec fn later_step(t: u64) -> u64 {
    (if t > u64::MAX - 30 { u64::MAX } else { (t + 30) as u64 }) / 30
}

/// `code` is the TOTP code of `key` for the step of `now`, the step before or
/// the step after.
pub open spec fn totp_accepts(key: Seq<u8>, code: Seq<char>, now: u64) -> bool {
    code == totp_code(key, earlier_step(now)) || code == totp_code(key, now / 30) || code
        == totp_code(key, later_step(now))
}

/// What TOTP verification of `code` against the base64 `secret` gives at `now`.
pub open spec fn totp_verdict(secret: Seq<char>, code: Seq<char>, now: u64) -> AuthResult<bool> {
    match base64_decoded(secret) {
        Some(key) => Ok(totp_accepts(key, code, now)),
        None => Err(AuthError::InvalidToken),
    }
}

/// The UTF-8 bytes of `2fa_temp_`, the prefix of every pending second-factor token.
pub open spec fn temp_token_prefix() -> Seq<u8> {
    seq![50u8, 102u8, 97u8, 95u8, 116u8, 101u8, 109u8, 112u8, 95u8]
}

/// A well-formed pending second-factor token: 45 bytes (the prefix and a UUID)
/// that start with the prefix.
pub open spec fn is_temp_token(t: Seq<char>) -> bool {
    encode_utf8(t).len() == 45 && encode_utf8(t).subrange(0, 9) == temp_token_prefix()
}

/// `i` is the index of the first occurrence of `code` in `codes`.
pub open spec fn first_index_of(codes: Seq<Seq<char>>, code: Seq<char>, i: int) -> bool {
    0 <= i < codes.len() && codes[i] == code && forall|j: int| 0 <= j < i ==> codes[j] != code
}

/// Seq without repeated elements.
pub open spec fn distinct(codes: Seq<Seq<char>>) -> bool {
    forall|i: int, j: int| 0 <= i < j < codes.len() ==> codes[i] != codes[j]
}

/// A backup code: eight capitals or digits.
pub open spec fn backup_code_char(c: char) -> bool {
    'A' <= c <= 'Z' || '0' <= c <= '9'
}

/// Remove the first occurrence of `code` from `codes`; answers whether there was one.
pub fn consume_backup_code(codes: &mut Vec<String>, code: &str) -> (r: bool)
    ensures
        r == texts(old(codes)@).contains(code@),
        r ==> exists|i: int|
            first_index_of(texts(old(codes)@), code@, i) && texts(final(codes)@) == texts(
                old(codes)@,
            ).remove(i),
        !r ==> final(codes)@ == old(codes)@,
{
    let ghost before = codes@;
    let target = code.to_owned();
    let mut i: usize = 0;
    while i < codes.len()
        invariant
            codes@ == before,
            before == old(codes)@,
            target@ == code@,
            i <= codes@.len(),
            forall|j: int| 0 <= j < i ==> texts(before)[j] != code@,
        decreases codes@.len() - i,
    {
        if codes[i] == target {
            assert(texts(before)[i as int] == code@);
            codes.remove(i);
            assert(texts(codes@) =~= texts(before).remove(i as int));
            assert(first_index_of(texts(before), code@, i as int));
            assert(texts(before).contains(code@));
            return true;
        }
        i = i + 1;
    }
    assert(!texts(before).contains(code@)) by {
        if texts(before).contains(code@) {
            let j = choose|j: int| 0 <= j < texts(before).len() && texts(before)[j] == code@;
            assert(texts(before)[j] == code@);
        }
    }
    false
}

/// A backup code, once consumed, is gone from a list without repeats: a second
/// use of the same code finds nothing.
pub proof fn backup_code_single_use(codes: Seq<Seq<char>>, code: Seq<char>, i: int)
    requires
        distinct(codes),
        first_index_of(codes, code, i),
    ensures
        !codes.remove(i).contains(code),
{
    if codes.remove(i).contains(code) {
        let k = choose|k: int| 0 <= k < codes.remove(i).len() && codes.remove(i)[k] == code;
        if k < i {
            assert(codes[k] == code);
        } else {
            assert(codes[k + 1] == code);
        }
    }
}

/// A code generated at time `t` verifies at `t` and thirty seconds either side,
/// and it does not verify ninety seconds either side unless it coincides with a
/// code of the steps around those instants.
pub proof fn totp_skew_window(key: Seq<u8>, t: u64)
    requires
        90 <= t <= u64::MAX - 120,
    ensures
        totp_accepts(key, totp_code(key, t / 30), t),
        totp_accepts(key, totp_code(key, t / 30), (t + 30) as u64),
        totp_accepts(key, totp_code(key, t / 30), (t - 30) as u64),
        ({
            let c = totp_code(key, t / 30);
            (c != totp_code(key, earlier_step((t + 90) as u64)) && c != totp_code(
                key,
                ((t + 90) as u64) / 30,
            ) && c != totp_code(key, later_step((t + 90) as u64))) ==> !totp_accepts(
                key,
                c,
                (t + 90) as u64,
            )
        }),
        ({
            let c = totp_code(key, t / 30);
            (c != totp_code(key, earlier_step((t - 90) as u64)) && c != totp_code(
                key,
                ((t - 90) as u64) / 30,
            ) && c != totp_code(key, later_step((t - 90) as u64))) ==> !totp_accepts(
                key,
                c,
                (t - 90) as u64,
            )
        }),
{
    assert(earlier_step((t + 30) as u64) == t / 30);
    assert(later_step((t - 30) as u64) == t / 30);
}

/// Two-factor authentication service.
pub struct TwoFAService {
    pub issuer: String,
}

impl TwoFAService {
    pub fn new(issuer: String) -> (r: Self)
        ensures
            r.issuer@ == issuer@,
    {
        TwoFAService { issuer }
    }

    /// The issuer name shown in authenticator apps.
    pub fn get_issuer(&self) -> (r: &str)
        ensures
            r@ == self.issuer@,
    {
        self.issuer.as_str()
    }

    /// A fresh random 160-bit secret, base64-encoded.
    pub fn generate_secret(&self) -> (r: String)
        ensures
            exists|key: Seq<u8>| key.len() == 20 && r@ == base64_of(key),
    {
        let mut key: Vec<u8> = Vec::new();
        while key.len() < 20
            invariant
                key@.len() <= 20,
            decreases 20 - key@.len(),
        {
            key.push(random_byte());
        }
        encode_base64(&key)
    }

    /// The TOTP code of the base64 `secret` for the instant `time`.
    pub fn generate_totp_at(&self, secret: &str, time: u64) -> (r: AuthResult<String>)
        ensures
            match base64_decoded(secret@) {
                Some(key) => r matches Ok(code) && code@ == totp_code(key, time / 30),
                None => r matches Err(AuthError::InvalidToken),
            },
    {
        let key = match decode_base64(secret) {
            Ok(k) => k,
            Err(_) => return Err(AuthError::InvalidToken),
        };
        Ok(totp_at(&key, time))
    }

    /// The TOTP code of the base64 `secret` for now, moved by `time_offset` seconds;
    /// an instant before the epoch counts as the epoch.
    pub fn generate_totp(&self, secret: &str, time_offset: Option<i64>) -> (r: AuthResult<String>)
        ensures
            base64_decoded(secret@) is None ==> r matches Err(AuthError::InvalidToken),
            base64_decoded(secret@) is Some ==> r is Ok,
    {
        let now = crate::clock::now_timestamp();
        let t = match time_offset {
            Some(offset) => crate::clock::add_seconds(now, offset),
            None => now,
        };
        let time: u64 = if t < 0 { 0 } else { t as u64 };
        self.generate_totp_at(secret, time)
    }

    /// Verify `code` against the base64 `secret` at the instant `now`, allowing
    /// one step of clock drift either way.
    pub fn verify_totp_at(&self, secret: &str, code: &str, now: u64) -> (r: AuthResult<bool>)
        ensures
            r == totp_verdict(secret@, code@, now),
    {
        let key = match decode_base64(secret) {
            Ok(k) => k,
            Err(_) => return Err(AuthError::InvalidToken),
        };
        let wanted = code.to_owned();
        let before: u64 = if now < TOTP_STEP { 0 } else { now - TOTP_STEP };
        let after: u64 = if now > u64::MAX - TOTP_STEP { u64::MAX } else { now + TOTP_STEP };
        let c1 = totp_at(&key, before);
        if c1 == wanted {
            return Ok(true);
        }
        let c2 = totp_at(&key, now);
        if c2 == wanted {
            return Ok(true);
        }
        let c3 = totp_at(&key, after);
        if c3 == wanted {
            return Ok(true);
        }
        Ok(false)
    }

    /// Verify `code` against the base64 `secret` at the current time.
    pub fn verify_totp(&self, secret: &str, code: &str) -> (r: AuthResult<bool>)
        ensures
            base64_decoded(secret@) is None ==> r == Err::<bool, AuthError>(AuthError::InvalidToken),
            base64_decoded(secret@) is Some ==> r is Ok,
    {
        let now = crate::clock::now_timestamp();
        let time: u64 = if now < 0 { 0 } else { now as u64 };
        self.verify_totp_at(secret, code, time)
    }

    /// `count` random backup codes of eight capitals or digits.
    pub fn generate_backup_codes(&self, count: usize) -> (r: Vec<String>)
        requires
            count <= MAX_BACKUP_CODES,
        ensures
            r@.len() == count,
            forall|i: int|
                0 <= i < count ==> (#[trigger] r@[i])@.len() == 8 && forall|k: int|
                    0 <= k < 8 ==> backup_code_char(#[trigger] r@[i]@[k]),
            distinct(texts(r@)),
    {
        let mut codes: Vec<String> = Vec::new();
        while codes.len() < count
            invariant
                count <= MAX_BACKUP_CODES,
                codes@.len() <= count,
                forall|i: int|
                    0 <= i < codes@.len() ==> (#[trigger] codes@[i])@.len() == 8 && forall|k: int|
                        0 <= k < 8 ==> backup_code_char(#[trigger] codes@[i]@[k]),
                distinct(texts(codes@)),
            decreases count - codes@.len(),
        {
            let mut chars: Vec<char> = Vec::new();
            while chars.len() < 8
                invariant
                    chars@.len() <= 8,
                    forall|k: int| 0 <= k < chars@.len() ==> backup_code_char(#[trigger] chars@[k]),
                decreases 8 - chars@.len(),
            {
                chars.push(ascii_uppercase(random_alphanumeric()));
            }
            let code = fresh_code(&codes, &chars);
            let ghost before = texts(codes@);
            codes.push(code);
            proof {
                assert(texts(codes@) =~= before.push(code@));
                assert forall|i: int, j: int| 0 <= i < j < texts(codes@).len() implies texts(codes@)[i]
                    != texts(codes@)[j] by {
                    if j == before.len() {
                        assert(before.contains(before[i]));
                    }
                }
            }
        }
        codes
    }

    /// Verify a backup code against the stored JSON list; on a match the code is
    /// removed and the shortened list returned for storing.
    pub fn verify_backup_code(&self, backup_codes_json: &str, provided_code: &str) -> (r: AuthResult<
        (bool, String),
    >)
        ensures
            match codes_of_json(backup_codes_json@) {
                None => r matches Err(AuthError::InternalError(_)),
                Some(codes) => if codes.contains(provided_code@) {
                    r matches Ok((matched, updated)) && matched && exists|i: int|
                        first_index_of(codes, provided_code@, i) && updated@ == json_of_codes(
                            codes.remove(i),
                        ) && codes_of_json(updated@) == Some(codes.remove(i))
                } else {
                    r matches Ok((matched, unchanged)) && !matched && unchanged@
                        == backup_codes_json@
                },
            },
    {
        let mut codes = match codes_from_json(backup_codes_json) {
            Ok(v) => v,
            Err(_) => {
                return Err(AuthError::InternalError(String::from_str("Invalid backup codes format")));
            },
        };
        let ghost before = texts(codes@);
        if consume_backup_code(&mut codes, provided_code) {
            match codes_to_json(codes.as_slice()) {
                Ok(updated) => {
                    let ghost i = choose|i: int|
                        first_index_of(before, provided_code@, i) && texts(codes@) == before.remove(i);
                    assert(first_index_of(before, provided_code@, i) && updated@ == json_of_codes(
                        before.remove(i),
                    ) && codes_of_json(updated@) == Some(before.remove(i)));
                    Ok((true, updated))
                },
                Err(_) => Err(
                    AuthError::InternalError(String::from_str("Failed to serialize backup codes")),
                ),
            }
        } else {
            Ok((false, backup_codes_json.to_owned()))
        }
    }

    /// A fresh pending second-factor token.
    pub fn generate_temp_token(&self) -> (r: String)
        ensures
            is_temp_token(r@),
    {
        let id = new_uuid_string();
        let prefix = String::from_str("2fa_temp_");
        proof {
            reveal_strlit("2fa_temp_");
        }
        let r = prefix.concat(id.as_str());
        proof {
            assert(is_ascii_chars(r@)) by {
                assert forall|i: int| 0 <= i < r@.len() implies '\0' <= #[trigger] r@[i] <= '\u{7f}' by {
                    if i >= 9 {
                        assert(r@[i] == id@[i - 9]);
                    }
                }
            }
            is_ascii_chars_encode_utf8(r@);
            assert(encode_utf8(r@).subrange(0, 9) =~= temp_token_prefix());
        }
        r
    }

    /// Whether `token` has the shape of a pending second-factor token.
    pub fn validate_temp_token(&self, token: &str) -> (r: bool)
        ensures
            r == is_temp_token(token@),
    {
        let bytes = token.as_bytes();
        if bytes.len() != 45 {
            return false;
        }
        let prefix: [u8; 9] = [50u8, 102u8, 97u8, 95u8, 116u8, 101u8, 109u8, 112u8, 95u8];
        assert(prefix@ =~= temp_token_prefix());
        let mut i: usize = 0;
        while i < 9
            invariant
                bytes@ == encode_utf8(token@),
                bytes@.len() == 45,
                prefix@ == temp_token_prefix(),
                i <= 9,
                forall|j: int| 0 <= j < i ==> bytes@[j] == prefix@[j],
            decreases 9 - i,
        {
            if bytes[i] != prefix[i] {
                assert(encode_utf8(token@).subrange(0, 9)[i as int] != temp_token_prefix()[i as int]);
                return false;
            }
            i = i + 1;
        }
        assert(encode_utf8(token@).subrange(0, 9) =~= temp_token_prefix());
        true
    }

    /// The backup codes as the JSON list they are stored as.
    pub fn hash_backup_codes(&self, codes: &[String]) -> (r: AuthResult<String>)
        ensures
            r matches Ok(s) && s@ == json_of_codes(texts(codes@)) && codes_of_json(s@) == Some(
                texts(codes@),
            ),
    {
        match codes_to_json(codes) {
            Ok(s) => Ok(s),
            Err(_) => Err(AuthError::InternalError(String::from_str("Failed to serialize backup codes"))),
        }
    }
}

/// Most backup codes one call hands out: the two leading characters of a drawn
/// code can take this many values.
pub const MAX_BACKUP_CODES: usize = 1296;

/// The `k`-th of the 36 backup-code characters: capitals, then digits.
pub open spec fn code_char_at(k: int) -> char {
    if k < 26 {
        ((65 + k) as u32) as char
    } else {
        ((48 + k - 26) as u32) as char
    }
}

fn code_char(k: usize) -> (c: char)
    requires
        k < 36,
    ensures
        c == code_char_at(k as int),
        backup_code_char(c),
{
    if k < 26 {
        (65 + k as u8) as char
    } else {
        (48 + (k - 26) as u8) as char
    }
}

/// The drawn code `base` with its two leading characters replaced by the `k`-th
/// pair of backup-code characters.
pub open spec fn code_variant(base: Seq<char>, k: int) -> Seq<char> {
    base.update(0, code_char_at(k / 36)).update(1, code_char_at(k % 36))
}

proof fn lemma_variants_differ(base: Seq<char>, k1: int, k2: int)
    requires
        base.len() == 8,
        0 <= k1 < k2 < 1296,
    ensures
        code_variant(base, k1) != code_variant(base, k2),
{
    if k1 / 36 == k2 / 36 {
        assert(k1 % 36 != k2 % 36) by (nonlinear_arith)
            requires
                k1 / 36 == k2 / 36,
                k1 < k2,
                0 <= k1,
        ;
        assert(code_variant(base, k1)[1] != code_variant(base, k2)[1]);
    } else {
        assert(code_variant(base, k1)[0] != code_variant(base, k2)[0]);
    }
}

/// Whether `code` is one of `codes`.
fn holds_code(codes: &Vec<String>, code: &String) -> (r: bool)
    ensures
        r == texts(codes@).contains(code@),
{
    let mut i: usize = 0;
    while i < codes.len()
        invariant
            i <= codes@.len(),
            forall|j: int| 0 <= j < i ==> texts(codes@)[j] != code@,
        decreases codes@.len() - i,
    {
        if codes[i] == *code {
            assert(texts(codes@)[i as int] == code@);
            return true;
        }
        i = i + 1;
    }
    assert(!texts(codes@).contains(code@)) by {
        if texts(codes@).contains(code@) {
            let j = choose|j: int| 0 <= j < texts(codes@).len() && texts(codes@)[j] == code@;
            assert(texts(codes@)[j] == code@);
        }
    }
    false
}

/// The drawn code `chars` if it is new, else the first of its variants (see
/// `code_variant`) that is not among `codes`; fewer codes than variants exist,
/// so one is always free.
fn fresh_code(codes: &Vec<String>, chars: &Vec<char>) -> (r: String)
    requires
        codes@.len() < MAX_BACKUP_CODES,
        chars@.len() == 8,
        forall|k: int| 0 <= k < 8 ==> backup_code_char(#[trigger] chars@[k]),
    ensures
        !texts(codes@).contains(r@),
        r@.len() == 8,
        forall|k: int| 0 <= k < 8 ==> backup_code_char(#[trigger] r@[k]),
{
    let first = string_from_chars(chars);
    if !holds_code(codes, &first) {
        return first;
    }
    let ghost mut tried: Seq<Seq<char>> = Seq::empty();
    let mut k: usize = 0;
    loop
        invariant
            codes@.len() < MAX_BACKUP_CODES,
            chars@.len() == 8,
            forall|j: int| 0 <= j < 8 ==> backup_code_char(#[trigger] chars@[j]),
            k <= codes@.len(),
            tried.len() == k,
            forall|j: int| 0 <= j < k ==> #[trigger] tried[j] == code_variant(chars@, j),
            forall|j: int| 0 <= j < k ==> texts(codes@).contains(#[trigger] tried[j]),
        decreases codes@.len() - k,
    {
        let mut v = chars.clone();
        v.set(0, code_char(k / 36));
        v.set(1, code_char(k % 36));
        assert(v@ == code_variant(chars@, k as int));
        let candidate = string_from_chars(&v);
        if !holds_code(codes, &candidate) {
            assert forall|j: int| 0 <= j < 8 implies backup_code_char(#[trigger] candidate@[j]) by {
                if j >= 2 {
                    assert(candidate@[j] == chars@[j]);
                }
            }
            return candidate;
        }
        proof {
            tried = tried.push(candidate@);
            assert(tried.no_duplicates()) by {
                assert forall|a: int, b: int| 0 <= a < tried.len() && 0 <= b < tried.len() && a != b
                    implies tried[a] != tried[b] by {
                    if a < b {
                        lemma_variants_differ(chars@, a, b);
                    } else {
                        lemma_variants_differ(chars@, b, a);
                    }
                }
            }
            assert(tried.to_set().subset_of(texts(codes@).to_set())) by {
                assert forall|x: Seq<char>| tried.to_set().contains(x) implies texts(
                    codes@,
                ).to_set().contains(x) by {
                    let j = choose|j: int| 0 <= j < tried.len() && tried[j] == x;
                    assert(texts(codes@).contains(tried[j]));
                }
            }
            tried.unique_seq_to_set();
            texts(codes@).lemma_cardinality_of_set();
            vstd::set_lib::lemma_len_subset(tried.to_set(), texts(codes@).to_set());
            assert(tried.len() <= codes@.len());
        }
        k = k + 1;
    }
}

/// ASCII small letters become capitals; every other character stays.
fn ascii_uppercase(c: char) -> (r: char)
    requires
        ascii_alphanumeric(c),
    ensures
        backup_code_char(r),
{
    if 'a' <= c && c <= 'z' {
        ((c as u8) - 32) as char
    } else {
        c
    }
}


#[verifier::external_type_specification]
#[verifier::external_body]
pub struct ExQrError(qrcode::types::QrError);

#[verifier::external_type_specification]
#[verifier::external_body]
pub struct ExImageError(image::ImageError);

/// Width, height and grey pixels (row by row) of the QR code qrcode renders for
/// `text`, or `None` where the text does not fit in a QR code.
pub uninterp spec fn qr_image_of(text: Seq<char>) -> Option<(u32, u32, Seq<u8>)>;

/// The PNG file the image crate writes for a grey image.
pub uninterp spec fn png_of(width: u32, height: u32, pixels: Seq<u8>) -> Seq<u8>;

/// Relies on `QrCode::new` and rendering the code as a `Luma<u8>` image: a grey
/// image with one byte per pixel; the error comes from `QrCode::new` alone.
#[verifier::external_body]
fn render_qr(text: &str) -> (r: Result<(u32, u32, Vec<u8>), qrcode::types::QrError>)
    ensures
        r is Ok <==> qr_image_of(text@) is Some,
        r matches Ok((w, h, px)) ==> px@.len() == w * h && qr_image_of(text@) == Some(
            (w, h, px@),
        ),
{
    let code = qrcode::QrCode::new(text.as_bytes())?;
    let image = code.render::<image::Luma<u8>>().build();
    Ok((image.width(), image.height(), image.into_raw()))
}

/// Relies on the image crate's `PngEncoder::write_image` for a grey image, which
/// needs exactly one byte per pixel; writing to a `Vec` fails only for a zero
/// width or height.
#[verifier::external_body]
fn encode_png(width: u32, height: u32, pixels: &Vec<u8>) -> (r: Result<Vec<u8>, image::ImageError>)
    requires
        pixels@.len() == width * height,
    ensures
        width > 0 && height > 0 ==> r is Ok,
        r matches Ok(b) ==> b@ == png_of(width, height, pixels@),
{
    let mut out: Vec<u8> = Vec::new();
    image::ImageEncoder::write_image(
        image::codecs::png::PngEncoder::new(&mut out),
        pixels,
        width,
        height,
        image::ColorType::L8,
    )?;
    Ok(out)
}

/// How many output pixels each QR pixel becomes along each side.
pub const QR_SCALE: u32 = 10;

/// `out` is the grey image `px` of width `w` enlarged `f` times in each direction.
pub open spec fn scaled_by(out: Seq<u8>, px: Seq<u8>, w: int, h: int, f: int) -> bool {
    &&& out.len() == (w * f) * (h * f)
    &&& forall|y: int, x: int|
        0 <= y < h * f && 0 <= x < w * f ==> #[trigger] out[y * (w * f) + x] == px[(y / f) * w + x
            / f]
}

proof fn lemma_scaled_index(w: int, h: int, f: int, y: int, x: int)
    requires
        w >= 0,
        h >= 0,
        f >= 1,
        0 <= y < h * f,
        0 <= x < w * f,
    ensures
        0 <= (y / f) * w + x / f < w * h,
        0 <= y * (w * f) + x < (w * f) * (h * f),
{
    assert(0 <= y / f < h) by (nonlinear_arith)
        requires
            f >= 1,
            0 <= y < h * f,
    ;
    assert(0 <= x / f < w) by (nonlinear_arith)
        requires
            f >= 1,
            0 <= x < w * f,
    ;
    assert((y / f) * w + x / f < w * h) by (nonlinear_arith)
        requires
            0 <= y / f < h,
            0 <= x / f < w,
    ;
    assert(0 <= (y / f) * w) by (nonlinear_arith)
        requires
            0 <= y / f,
            w >= 0,
    ;
    assert(y * (w * f) + x < (w * f) * (h * f)) by (nonlinear_arith)
        requires
            0 <= y < h * f,
            0 <= x < w * f,
    ;
    assert(0 <= y * (w * f)) by (nonlinear_arith)
        requires
            0 <= y,
            w >= 0,
            f >= 1,
    ;
}

/// Enlarge the grey image `px` (`w` by `h`) `f` times in each direction.
fn scale_image(w: u32, h: u32, px: &Vec<u8>, f: u32) -> (r: Vec<u8>)
    requires
        px@.len() == w * h,
        f >= 1,
        w * f <= u32::MAX,
        h * f <= u32::MAX,
        (w * f) * (h * f) <= u32::MAX,
    ensures
        scaled_by(r@, px@, w as int, h as int, f as int),
{
    let big_w: u32 = w * f;
    let big_h: u32 = h * f;
    let n = px.len();
    let mut out: Vec<u8> = Vec::new();
    let mut y: u32 = 0;
    while y < big_h
        invariant
            px@.len() == w * h,
            n == px@.len(),
            f >= 1,
            big_w == w * f,
            big_h == h * f,
            (w * f) * (h * f) <= u32::MAX,
            y <= big_h,
            out@.len() == y * big_w,
            forall|yy: int, xx: int|
                0 <= yy < y && 0 <= xx < big_w ==> #[trigger] out@[yy * big_w + xx] == px@[(yy / f
                    as int) * w + xx / f as int],
        decreases big_h - y,
    {
        let mut x: u32 = 0;
        while x < big_w
            invariant
                px@.len() == w * h,
                n == px@.len(),
                f >= 1,
                big_w == w * f,
                big_h == h * f,
                (w * f) * (h * f) <= u32::MAX,
                y < big_h,
                x <= big_w,
                out@.len() == y * big_w + x,
                forall|yy: int, xx: int|
                    0 <= yy < y && 0 <= xx < big_w ==> #[trigger] out@[yy * big_w + xx] == px@[(yy
                        / f as int) * w + xx / f as int],
                forall|xx: int|
                    0 <= xx < x ==> #[trigger] out@[y * big_w + xx] == px@[(y as int / f as int) * w + xx
                        / f as int],
            decreases big_w - x,
        {
            proof {
                lemma_scaled_index(w as int, h as int, f as int, y as int, x as int);
            }
            let row: usize = (y / f) as usize;
            assert(row * w + x / f < n);
            let src: usize = row * (w as usize) + (x / f) as usize;
            let ghost before = out@;
            out.push(px[src]);
            proof {
                assert forall|yy: int, xx: int|
                    0 <= yy < y && 0 <= xx < big_w implies #[trigger] out@[yy * big_w + xx]
                    == px@[(yy / f as int) * w + xx / f as int] by {
                    assert(yy * big_w + xx < y * big_w) by (nonlinear_arith)
                        requires
                            0 <= yy < y,
                            0 <= xx < big_w,
                    ;
                    assert(0 <= yy * big_w) by (nonlinear_arith)
                        requires
                            0 <= yy,
                            big_w >= 0,
                    ;
                    assert(out@[yy * big_w + xx] == before[yy * big_w + xx]);
                }
                assert forall|xx: int| 0 <= xx < x + 1 implies #[trigger] out@[y * big_w + xx]
                    == px@[(y as int / f as int) * w + xx / f as int] by {
                    if xx < x {
                        assert(out@[y * big_w + xx] == before[y * big_w + xx]);
                    }
                }
            }
            x = x + 1;
        }
        proof {
            assert forall|yy: int, xx: int|
                0 <= yy < y + 1 && 0 <= xx < big_w implies #[trigger] out@[yy * big_w + xx]
                == px@[(yy / f as int) * w + xx / f as int] by {
                if yy == y {
                }
            }
            assert(out@.len() == (y + 1) * big_w) by (nonlinear_arith)
                requires
                    out@.len() == y * big_w + big_w,
            ;
        }
        y = y + 1;
    }
    proof {
        assert(out@.len() == (w * f) * (h * f)) by (nonlinear_arith)
            requires
                out@.len() == y * big_w,
                y == big_h,
                big_w == w * f,
                big_h == h * f,
        ;
        assert forall|yy: int, xx: int|
            0 <= yy < h * f && 0 <= xx < w * f implies #[trigger] out@[yy * (w * f) + xx] == px@[(yy
                / f as int) * w + xx / f as int] by {
            assert(out@[yy * big_w + xx] == px@[(yy / f as int) * w + xx / f as int]);
        }
    }
    out
}

/// The provisioning URI authenticator apps read.
pub open spec fn totp_url(issuer: Seq<char>, username: Seq<char>, secret: Seq<char>) -> Seq<char> {
    "otpauth://totp/"@ + issuer + ":"@ + username + "?secret="@ + secret + "&issuer="@ + issuer
}

/// `url` is the `data:` URL of the PNG of the QR code of `text`, enlarged
/// `QR_SCALE` times.
pub open spec fn qr_data_url(text: Seq<char>, url: Seq<char>) -> bool {
    match qr_image_of(text) {
        Some(img) => exists|scaled: Seq<u8>|
            #[trigger] scaled_by(scaled, img.2, img.0 as int, img.1 as int, QR_SCALE as int) && url
                == png_data_url(png_of((img.0 * QR_SCALE) as u32, (img.1 * QR_SCALE) as u32, scaled)),
        None => false,
    }
}

/// The QR code of `text` exists, is not empty, and enlarged `QR_SCALE` times
/// still has a pixel count that fits in a `u32`.
pub open spec fn qr_renders(text: Seq<char>) -> bool {
    match qr_image_of(text) {
        Some(img) => img.0 > 0 && img.1 > 0 && img.0 * QR_SCALE <= u32::MAX && img.1 * QR_SCALE
            <= u32::MAX && (img.0 * QR_SCALE) * (img.1 * QR_SCALE) <= u32::MAX,
        None => false,
    }
}

/// The `data:` URL of a PNG image.
pub open spec fn png_data_url(png: Seq<u8>) -> Seq<char> {
    "data:image/png;base64,"@ + base64_of(png)
}

impl TwoFAService {
    /// The provisioning URI for `username` and `secret` under this issuer.
    pub fn provisioning_url(&self, username: &str, secret: &str) -> (r: String)
        ensures
            r@ == totp_url(self.issuer@, username@, secret@),
    {
        let r = String::from_str("otpauth://totp/").concat(self.issuer.as_str()).concat(":").concat(
            username,
        ).concat("?secret=").concat(secret).concat("&issuer=").concat(self.issuer.as_str());
        r
    }

    /// A QR code of the provisioning URI, enlarged ten times, as a PNG `data:` URL.
    pub fn generate_qr_code(&self, username: &str, secret: &str) -> (r: AuthResult<String>)
        ensures
            qr_renders(totp_url(self.issuer@, username@, secret@)) ==> r is Ok,
            match r {
                Ok(s) => qr_data_url(totp_url(self.issuer@, username@, secret@), s@),
                Err(e) => e is InternalError,
            },
    {
        let url = self.provisioning_url(username, secret);
        let (w, h, px) = match render_qr(url.as_str()) {
            Ok(img) => img,
            Err(_) => {
                return Err(AuthError::InternalError(String::from_str("Failed to generate QR code")));
            },
        };
        if (w as u64) * (QR_SCALE as u64) > u32::MAX as u64 || (h as u64) * (QR_SCALE as u64)
            > u32::MAX as u64 {
            return Err(AuthError::InternalError(String::from_str("Failed to generate QR code")));
        }
        let big_w: u64 = (w as u64) * (QR_SCALE as u64);
        let big_h: u64 = (h as u64) * (QR_SCALE as u64);
        assert(big_w * big_h <= u64::MAX) by (nonlinear_arith)
            requires
                big_w <= u32::MAX,
                big_h <= u32::MAX,
        ;
        if big_w * big_h > u32::MAX as u64 || w == 0 || h == 0 {
            return Err(AuthError::InternalError(String::from_str("Failed to generate QR code")));
        }
        assert(w * QR_SCALE > 0 && h * QR_SCALE > 0) by (nonlinear_arith)
            requires
                w > 0,
                h > 0,
        ;
        let scaled = scale_image(w, h, &px, QR_SCALE);
        let png = match encode_png(w * QR_SCALE, h * QR_SCALE, &scaled) {
            Ok(b) => b,
            Err(_) => {
                return Err(
                    AuthError::InternalError(String::from_str("Failed to encode QR code as PNG")),
                );
            },
        };
        let encoded = encode_base64(&png);
        let r = String::from_str("data:image/png;base64,").concat(encoded.as_str());
        assert(scaled_by(scaled@, px@, w as int, h as int, QR_SCALE as int));
        assert(url@ == totp_url(self.issuer@, username@, secret@));
        assert(qr_image_of(url@) == Some((w, h, px@)));
        assert(png@ == png_of((w * QR_SCALE) as u32, (h * QR_SCALE) as u32, scaled@));
        assert(r@ == png_data_url(png@));
        assert(qr_data_url(url@, r@)) by {
            let img = qr_image_of(url@)->Some_0;
            assert(img.0 == w && img.1 == h && img.2 == px@);
            assert(scaled_by(scaled@, img.2, img.0 as int, img.1 as int, QR_SCALE as int));
        }
        Ok(r)
    }
}

} // verus!

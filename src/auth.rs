//! One-shot access codes and session tokens.
use vstd::prelude::*;
use crate::clock::now_millis;
use rand::Rng;
use sha2::Digest;

verus! {

/// Digits in an access code.
pub const CODE_LENGTH: usize = 6;

/// Lifetime of an access code, in seconds.
pub const CODE_VALIDITY_SECS: u64 = 300;

/// Characters in a session token.
pub const TOKEN_LENGTH: usize = 32;

/// The lower-case hex SHA-256 digest of the UTF-8 bytes of `s`.
pub uninterp spec fn sha256_hex(s: Seq<char>) -> Seq<char>;

/// Relies on `sha2::Sha256` (`new`, `update`, `finalize`) formatted with `{:x}`:
/// the digest depends on the text alone.
#[verifier::external_body]
fn sha256_lower_hex(text: &str) -> (r: String)
    ensures
        r@ == sha256_hex(text@),
{
    let mut hasher = sha2::Sha256::new();
    hasher.update(text.as_bytes());
    format!("{:x}", hasher.finalize())
}

pub open spec fn is_ascii_digit(c: char) -> bool {
    '0' <= c <= '9'
}

pub open spec fn is_ascii_alphanumeric(c: char) -> bool {
    ||| '0' <= c <= '9'
    ||| 'a' <= c <= 'z'
    ||| 'A' <= c <= 'Z'
}

/// Relies on `rand::thread_rng` sampling `Uniform::new_inclusive('0', '9')`:
/// `n` decimal digits.
#[verifier::external_body]
fn random_digits(n: usize) -> (r: String)
    ensures
        r@.len() == n,
        forall|i: int| 0 <= i < n ==> is_ascii_digit(#[trigger] r@[i]),
{
    rand::thread_rng().sample_iter(rand::distributions::Uniform::new_inclusive('0', '9')).take(n).collect()
}

/// Relies on `rand::thread_rng` sampling `rand::distributions::Alphanumeric`:
/// `n` characters of `[A-Za-z0-9]`.
#[verifier::external_body]
fn random_alphanumeric(n: usize) -> (r: String)
    ensures
        r@.len() == n,
        forall|i: int| 0 <= i < n ==> is_ascii_alphanumeric(#[trigger] r@[i]),
{
    rand::thread_rng().sample_iter(&rand::distributions::Alphanumeric).take(n).map(char::from).collect()
}

/// `a + b`, or `u64::MAX` where that does not fit.
pub open spec fn sat_add(a: u64, b: u64) -> u64 {
    if a + b > u64::MAX {
        u64::MAX
    } else {
        (a + b) as u64
    }
}

/// The access code of a host session, stored with its hash.
#[derive(Debug, Clone)]
pub struct AccessCode {
    pub code: String,
    pub hashed: String,
    pub created_at: u64,
    pub expires_at: u64,
}

/// A viewer's request to authenticate.
#[derive(Debug, Clone)]
pub struct AuthRequest {
    pub code: String,
    pub client_id: String,
}

/// The host's answer to an `AuthRequest`.
#[derive(Debug, Clone)]
pub struct AuthResponse {
    pub success: bool,
    pub session_token: Option<String>,
    pub message: String,
}

impl AccessCode {
    /// The stored hash is the hash of the stored code.
    pub open spec fn wf(&self) -> bool {
        self.hashed@ == sha256_hex(self.code@)
    }

    /// `code`, offered at `now` (seconds), authenticates: the code has not
    /// expired and its hash is the stored one.
    pub open spec fn accepts(&self, code: Seq<char>, now: u64) -> bool {
        now <= self.expires_at && sha256_hex(code) == self.hashed@
    }

    /// The code has expired at `now` (seconds).
    pub open spec fn expired_at(&self, now: u64) -> bool {
        now > self.expires_at
    }

    /// The lower-case hex SHA-256 of `code`.
    pub fn hash_code(code: &str) -> (r: String)
        ensures
            r@ == sha256_hex(code@),
    {
        sha256_lower_hex(code)
    }

    /// The access code `code`, created at `now_secs`, valid for 300 s.
    pub fn from_code_at(code: String, now_secs: u64) -> (r: AccessCode)
        ensures
            r.wf(),
            r.code@ == code@,
            r.created_at == now_secs,
            r.expires_at == sat_add(now_secs, CODE_VALIDITY_SECS),
    {
        let hashed = Self::hash_code(code.as_str());
        let expires_at: u64 = if now_secs > u64::MAX - CODE_VALIDITY_SECS {
            u64::MAX
        } else {
            now_secs + CODE_VALIDITY_SECS
        };
        AccessCode { code, hashed, created_at: now_secs, expires_at }
    }

    /// A fresh random 6-digit code, valid for 300 s from now.
    pub fn generate() -> (r: AccessCode)
        ensures
            r.wf(),
            r.code@.len() == CODE_LENGTH,
            forall|i: int| 0 <= i < CODE_LENGTH ==> is_ascii_digit(#[trigger] r.code@[i]),
            r.expires_at == sat_add(r.created_at, CODE_VALIDITY_SECS),
    {
        let code = random_digits(CODE_LENGTH);
        let now_secs: u64 = now_millis() / 1000;
        Self::from_code_at(code, now_secs)
    }

    /// Checks `code` at `now_secs`.
    pub fn verify_at(&self, code: &str, now_secs: u64) -> (r: bool)
        ensures
            r == self.accepts(code@, now_secs),
    {
        if now_secs > self.expires_at {
            return false;
        }
        let h = Self::hash_code(code);
        h == self.hashed
    }

    /// Checks `code` now: the answer of `verify_at` for the time the clock gave.
    pub fn verify(&self, code: &str) -> (r: bool)
        ensures
            r ==> sha256_hex(code@) == self.hashed@,
            exists|t: u64| r == #[trigger] self.accepts(code@, t),
    {
        let now_secs: u64 = now_millis() / 1000;
        let r = self.verify_at(code, now_secs);
        assert(r == self.accepts(code@, now_secs));
        r
    }

    /// The code has expired at `now_secs`.
    pub fn is_expired_at(&self, now_secs: u64) -> (r: bool)
        ensures
            r == self.expired_at(now_secs),
    {
        now_secs > self.expires_at
    }

    /// The code has expired now: the answer of `is_expired_at` for the time
    /// the clock gave.
    pub fn is_expired(&self) -> (r: bool)
        ensures
            exists|t: u64| r == #[trigger] self.expired_at(t),
    {
        let now_secs: u64 = now_millis() / 1000;
        let r = self.is_expired_at(now_secs);
        assert(r == self.expired_at(now_secs));
        r
    }
}

/// The correct code authenticates until it expires, and no code, the correct
/// one included, authenticates after expiry.
pub proof fn lemma_access_code(ac: AccessCode, code: Seq<char>, now: u64)
    requires
        ac.wf(),
    ensures
        code == ac.code@ && now <= ac.expires_at ==> ac.accepts(code, now),
        now > ac.expires_at ==> !ac.accepts(code, now),
        ac.accepts(code, now) <==> (now <= ac.expires_at && sha256_hex(code) == sha256_hex(
            ac.code@,
        )),
{
}

/// The host's answer to `code` at `now_secs`, given the code slot.
/// Success carries no token yet: the session controller issues it.
pub fn handle_auth_at(code: &str, stored: &Option<AccessCode>, now_secs: u64) -> (r: AuthResponse)
    ensures
        r.success == (stored matches Some(ac) && ac.accepts(code@, now_secs)),
        r.session_token is None,
{
    match stored {
        Some(ac) => {
            if ac.verify_at(code, now_secs) {
                return AuthResponse {
                    success: true,
                    session_token: None,
                    message: "Authentication successful".to_string(),
                };
            }
        },
        None => {},
    }
    AuthResponse {
        success: false,
        session_token: None,
        message: "Invalid or expired code".to_string(),
    }
}

/// A bearer token of an authenticated viewer.
#[derive(Debug)]
pub struct SessionToken {
    pub token: String,
    pub created_at: u64,
    pub expires_at: u64,
}

impl SessionToken {
    /// The token is still valid at `now` (seconds).
    pub open spec fn valid_at(&self, now: u64) -> bool {
        now <= self.expires_at
    }

    /// When a token created at `now` for `validity_hours` expires:
    /// `now + validity_hours·3600`, or `u64::MAX` where that does not fit.
    pub open spec fn expiry(now: u64, validity_hours: u64) -> u64 {
        if validity_hours > u64::MAX / 3600 {
            u64::MAX
        } else {
            sat_add(now, (validity_hours * 3600) as u64)
        }
    }

    /// A token from `token`, created at `now_secs`, valid for `validity_hours`.
    pub fn from_token_at(token: String, now_secs: u64, validity_hours: u64) -> (r: SessionToken)
        ensures
            r.token@ == token@,
            r.created_at == now_secs,
            r.expires_at == Self::expiry(now_secs, validity_hours),
    {
        let expires_at: u64 = if validity_hours > u64::MAX / 3600 {
            u64::MAX
        } else {
            let span: u64 = validity_hours * 3600;
            if now_secs > u64::MAX - span {
                u64::MAX
            } else {
                now_secs + span
            }
        };
        SessionToken { token, created_at: now_secs, expires_at }
    }

    /// A fresh random token of 32 alphanumeric characters, valid for
    /// `validity_hours` from now.
    pub fn generate(validity_hours: u64) -> (r: SessionToken)
        ensures
            r.token@.len() == TOKEN_LENGTH,
            forall|i: int| 0 <= i < TOKEN_LENGTH ==> is_ascii_alphanumeric(#[trigger] r.token@[i]),
            r.expires_at == Self::expiry(r.created_at, validity_hours),
    {
        let token = random_alphanumeric(TOKEN_LENGTH);
        let now_secs: u64 = now_millis() / 1000;
        Self::from_token_at(token, now_secs, validity_hours)
    }

    /// The token is still valid at `now_secs`.
    pub fn is_valid_at(&self, now_secs: u64) -> (r: bool)
        ensures
            r == self.valid_at(now_secs),
    {
        now_secs <= self.expires_at
    }

    /// The token is still valid now: the answer of `is_valid_at` for the time
    /// the clock gave.
    pub fn is_valid(&self) -> (r: bool)
        ensures
            exists|t: u64| r == #[trigger] self.valid_at(t),
    {
        let now_secs: u64 = now_millis() / 1000;
        let r = self.is_valid_at(now_secs);
        assert(r == self.valid_at(now_secs));
        r
    }
}

} // verus!

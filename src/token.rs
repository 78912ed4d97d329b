//! Bearer tokens with a fixed lifetime, and the wire records about them.
use vstd::prelude::*;
use crate::clock::{is_url_safe_char, now_millis, random_id};

verus! {

/// How long a token stays valid: 24 hours, in milliseconds.
pub const TOKEN_TTL_MILLIS: i64 = 86_400_000;

/// How many characters a generated token value has.
pub const TOKEN_LEN: usize = 8;

/// An opaque credential with its absolute expiry (milliseconds since the epoch).
#[derive(Clone, Debug)]
pub struct Token {
    pub value: String,
    pub expires_at: i64,
}

/// The expiry of a token issued at `issued_at`; it saturates at the end of
/// the clock's range.
pub open spec fn expiry_for(issued_at: i64) -> i64 {
    if issued_at <= i64::MAX - TOKEN_TTL_MILLIS {
        (issued_at + TOKEN_TTL_MILLIS) as i64
    } else {
        i64::MAX
    }
}

impl Token {
    /// The token is valid at instant `now` exactly when `now` is before its expiry.
    pub open spec fn valid_at(&self, now: i64) -> bool {
        now < self.expires_at
    }

    /// A token with the given value, issued at `now`.
    pub fn issue(value: String, now: i64) -> (r: Token)
        ensures
            r.value@ == value@,
            r.expires_at == expiry_for(now),
    {
        let expires_at = if now <= i64::MAX - TOKEN_TTL_MILLIS {
            now + TOKEN_TTL_MILLIS
        } else {
            i64::MAX
        };
        Token { value, expires_at }
    }

    /// A fresh random token of eight URL-safe characters, valid for 24 hours
    /// from now.
    pub fn generate() -> (r: Token)
        ensures
            r.value@.len() == TOKEN_LEN,
            forall|i: int| 0 <= i < r.value@.len() ==> is_url_safe_char(#[trigger] r.value@[i]),
            exists|issued_at: i64| r.expires_at == expiry_for(issued_at),
    {
        let value = random_id(TOKEN_LEN);
        let now = now_millis();
        let r = Token::issue(value, now);
        assert(r.expires_at == expiry_for(now));
        r
    }

    /// Whether the token is valid at instant `now`.
    pub fn is_valid_at(&self, now: i64) -> (r: bool)
        ensures
            r == self.valid_at(now),
    {
        now < self.expires_at
    }

    /// Whether the token is valid at the current time.
    pub fn is_valid(&self) -> bool {
        let now = now_millis();
        self.is_valid_at(now)
    }
}

/// A token issued at `issued_at` is valid at that instant and at every later
/// instant before 24 hours have passed, and invalid from then on.
pub proof fn lemma_token_lifetime(tok: Token, issued_at: i64, now: i64)
    requires
        tok.expires_at == expiry_for(issued_at),
        issued_at <= i64::MAX - TOKEN_TTL_MILLIS,
    ensures
        tok.valid_at(issued_at),
        issued_at <= now < issued_at + TOKEN_TTL_MILLIS ==> tok.valid_at(now),
        now >= issued_at + TOKEN_TTL_MILLIS ==> !tok.valid_at(now),
{
}

/// What the token-creation endpoint returns.
#[derive(Clone, Debug)]
pub struct TokenResponse {
    pub token: String,
    pub expires_at: i64,
    pub ws_url: String,
    pub command_hint: String,
}

/// A request to validate a token.
#[derive(Clone, Debug)]
pub struct TokenValidateRequest {
    pub token: String,
}

/// Whether a token is valid, and its expiry when it is.
#[derive(Clone, Debug)]
pub struct TokenValidateResponse {
    pub valid: bool,
    pub expires_at: Option<i64>,
}

} // verus!

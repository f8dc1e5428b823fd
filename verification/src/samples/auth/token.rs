//! Claims and tokens.
//!
//! Tokens are opaque strings here: no signature is made or checked. Every
//! token that is not empty is accepted as that of a reader whose claims never
//! expire, and every token that is made is the same fixed string.

use crate::clock::unix_seconds;
use crate::samples::auth::role::Role;
use crate::text::concat2;
use vstd::prelude::*;

verus! {

/// Why a token is refused.
#[derive(Debug)]
pub enum TokenError {
    Invalid,
    Expired,
    /// A claim that must be there is not; holds its name.
    MissingClaim(String),
}

/// The message of a [`TokenError`] whose claim, where it has one, is `claim`.
pub open spec fn token_message_of(e: TokenError) -> Seq<char> {
    match e {
        TokenError::Invalid => "Invalid token"@,
        TokenError::Expired => "Token expired"@,
        TokenError::MissingClaim(claim) => "Missing required claim: "@ + claim@,
    }
}

impl TokenError {
    /// The message that this error shows to the user.
    pub fn to_string(&self) -> (r: String)
        ensures
            r@ == token_message_of(*self),
    {
        match self {
            TokenError::Invalid => String::from_str("Invalid token"),
            TokenError::Expired => String::from_str("Token expired"),
            TokenError::MissingClaim(claim) => concat2("Missing required claim: ", claim.as_str()),
        }
    }
}

/// What a token says of its bearer.
#[derive(Debug, Clone)]
pub struct Claims {
    /// The subject: the user's id.
    pub sub: String,
    /// The user's role.
    pub role: Role,
    /// When the claims expire, in seconds since the start of 1970.
    pub exp: u64,
    /// When the claims were issued, in seconds since the start of 1970.
    pub iat: u64,
}

impl Claims {
    /// Claims issued at the time `iat`.
    pub fn issued_at(sub: String, role: Role, exp: u64, iat: u64) -> (r: Claims)
        ensures
            r.sub == sub,
            r.role == role,
            r.exp == exp,
            r.iat == iat,
    {
        Claims { sub, role, exp, iat }
    }

    /// Claims issued now, by the system's clock.
    pub fn new(sub: String, role: Role, exp: u64) -> (r: Claims)
        ensures
            r.sub == sub,
            r.role == role,
            r.exp == exp,
    {
        Claims::issued_at(sub, role, exp, unix_seconds())
    }

    /// Whether the claims have expired at the time `now`: they have once `now`
    /// is past `exp`.
    pub fn is_expired_at(&self, now: u64) -> (r: bool)
        ensures
            r == (now > self.exp),
    {
        now > self.exp
    }

    /// Whether the claims have expired now, by the system's clock. Claims
    /// whose `exp` is the largest number never expire.
    pub fn is_expired(&self) -> (r: bool)
        ensures
            r ==> self.exp < u64::MAX,
    {
        self.is_expired_at(unix_seconds())
    }
}

/// Operations on tokens.
pub struct Token;

impl Token {
    /// The claims of the bearer of `token`. The empty token is invalid; the
    /// claims of any other are those of the reader `placeholder`, and never
    /// expire.
    pub fn validate(token: &str, _secret: &str) -> (r: Result<Claims, TokenError>)
        ensures
            token@.len() == 0 ==> r is Err && r->Err_0 is Invalid,
            token@.len() > 0 ==> r is Ok && r->Ok_0.sub@ == "placeholder"@ && r->Ok_0.role
                == Role::Reader && r->Ok_0.exp == u64::MAX,
    {
        if token.is_empty() {
            return Err(TokenError::Invalid);
        }
        Ok(Claims::new(String::from_str("placeholder"), Role::Reader, u64::MAX))
    }

    /// A token for `claims`: always the string `placeholder_token`.
    pub fn generate(_claims: &Claims, _secret: &str) -> (r: Result<String, TokenError>)
        ensures
            r is Ok,
            r->Ok_0@ == "placeholder_token"@,
    {
        Ok(String::from_str("placeholder_token"))
    }
}

} // verus!

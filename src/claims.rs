//! The self-describing payload of every issued token.
use vstd::prelude::*;
use crate::ids::Uuid;

verus! {

/// Lifetime of an access token, in seconds (one hour).
pub const ACCESS_LIFETIME_SECS: i64 = 3600;

/// Lifetime of a refresh token, in seconds (seven days).
pub const REFRESH_LIFETIME_SECS: i64 = 604800;

/// The issuer named in every token.
pub const ISSUER: &'static str = "rustblog";

/// Largest instant, in seconds since the epoch, that the clock can report.
pub const CLOCK_LIMIT: i64 = 10_000_000_000_000;

/// The two halves of a session: a short-lived access token and a long-lived
/// refresh token. Each is signed with a secret of its own.
#[derive(Clone, Copy, Debug, PartialEq, Eq, Structural)]
pub enum TokenKind {
    Access,
    Refresh,
}

impl TokenKind {
    pub open spec fn lifetime_spec(self) -> i64 {
        match self {
            TokenKind::Access => ACCESS_LIFETIME_SECS,
            TokenKind::Refresh => REFRESH_LIFETIME_SECS,
        }
    }

    /// Seconds for which a token of this kind, and its registry entry, live.
    #[verifier::when_used_as_spec(lifetime_spec)]
    pub fn lifetime(self) -> (r: i64)
        ensures
            r == self.lifetime_spec(),
    {
        match self {
            TokenKind::Access => ACCESS_LIFETIME_SECS,
            TokenKind::Refresh => REFRESH_LIFETIME_SECS,
        }
    }
}

/// Relies on chrono's `Utc::now` and `DateTime::timestamp`: whole seconds
/// since the Unix epoch. `Utc::now` panics on a clock set before the epoch,
/// so a returned value is not negative, and chrono's dates end in year 262142,
/// well before `CLOCK_LIMIT` seconds.
#[verifier::external_body]
pub(crate) fn unix_now() -> (r: i64)
    ensures
        0 <= r < CLOCK_LIMIT,
{
    chrono::Utc::now().timestamp()
}

/// Issuer, subject (user id), session id, issue and expiry instants in
/// seconds since the epoch, and whether this is a refresh token.
#[derive(Debug)]
pub struct TokenClaims {
    pub iss: String,
    pub sub: Uuid,
    pub jti: Uuid,
    pub iat: i64,
    pub exp: i64,
    pub is_refresh: bool,
}

impl TokenClaims {
    pub open spec fn kind_spec(&self) -> TokenKind {
        if self.is_refresh {
            TokenKind::Refresh
        } else {
            TokenKind::Access
        }
    }

    /// These are the claims of a `kind` token for user `sub` in session `jti`,
    /// issued at `now`.
    pub open spec fn issued(&self, sub: Uuid, jti: Uuid, kind: TokenKind, now: i64) -> bool {
        &&& self.iss@ == ISSUER@
        &&& self.sub == sub
        &&& self.jti == jti
        &&& self.iat == now
        &&& self.exp == now + kind.lifetime_spec()
        &&& self.kind_spec() == kind
    }

    /// The claims of a `kind` token for user `sub` in session `jti`, issued at
    /// `now` and expiring one lifetime of that kind later.
    pub fn issue(sub: Uuid, jti: Uuid, kind: TokenKind, now: i64) -> (r: TokenClaims)
        requires
            0 <= now < CLOCK_LIMIT,
        ensures
            r.issued(sub, jti, kind, now),
    {
        TokenClaims {
            iss: String::from_str(ISSUER),
            sub,
            jti,
            iat: now,
            exp: now + kind.lifetime(),
            is_refresh: kind == TokenKind::Refresh,
        }
    }

    #[verifier::when_used_as_spec(kind_spec)]
    pub fn kind(&self) -> (r: TokenKind)
        ensures
            r == self.kind_spec(),
    {
        if self.is_refresh {
            TokenKind::Refresh
        } else {
            TokenKind::Access
        }
    }

    /// A field-by-field copy.
    pub fn duplicate(&self) -> (r: TokenClaims)
        ensures
            r == *self,
    {
        TokenClaims {
            iss: self.iss.clone(),
            sub: self.sub,
            jti: self.jti,
            iat: self.iat,
            exp: self.exp,
            is_refresh: self.is_refresh,
        }
    }
}

} // verus!

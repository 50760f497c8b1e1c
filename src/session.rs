//! The session state machine: login, logout, refresh and request
//! authentication. Each flow is a value that asks for one outside step at a
//! time (a user lookup, a token signature or decoding, a registry read or
//! write) and is told how that step went; every decision is taken here.
use vstd::prelude::*;
use crate::bearer::{bearer_token_of, get_bearer_token, has_bearer_token};
use crate::claims::{unix_now, TokenClaims, TokenKind, CLOCK_LIMIT};
use crate::dtos::TokensResponseDto;
use crate::error::Error;
use crate::ids::Uuid;
use crate::models::User;
use crate::password::{bcrypt_accepts, check_password_hash};
use crate::registry::{entry, EntryKey};

verus! {

/// What a presented token is meant to do; it decides the secret that checks
/// the token and the kind that the token must be.
#[derive(Clone, Copy, Debug, PartialEq, Eq, Structural)]
pub enum Purpose {
    /// Exchange a refresh token for a new pair.
    Refresh,
    /// End the session of an access token.
    Logout,
    /// Authenticate a request with an access token.
    Verify,
}

impl Purpose {
    /// The kind of token, and so the secret, that this purpose expects.
    pub open spec fn expects(self) -> TokenKind {
        match self {
            Purpose::Refresh => TokenKind::Refresh,
            _ => TokenKind::Access,
        }
    }

    fn expected_kind(self) -> (r: TokenKind)
        ensures
            r == self.expects(),
    {
        match self {
            Purpose::Refresh => TokenKind::Refresh,
            _ => TokenKind::Access,
        }
    }
}

/// Why a flow was refused.
#[derive(Clone, Copy, Debug, PartialEq, Eq, Structural)]
pub enum SessionFault {
    /// The header does not hold `Bearer <token>`.
    MissingBearer,
    /// Unknown email or wrong password.
    BadCredentials,
    /// The user store failed.
    UserLookupFailed,
    /// The token's signature, expiry or format did not check.
    InvalidToken,
    /// An access token where a refresh token was expected, or the reverse.
    WrongKind,
    /// The access token has expired.
    Expired,
    /// The registry holds no entry for this very token.
    Revoked,
    /// A token could not be signed.
    SigningFailed,
    /// A registry entry could not be written.
    SavingFailed,
    /// A registry entry could not be removed.
    RevokingFailed,
}

impl SessionFault {
    pub open spec fn status(self) -> u16 {
        match self {
            SessionFault::UserLookupFailed | SessionFault::SigningFailed
            | SessionFault::SavingFailed | SessionFault::RevokingFailed => 500,
            _ => 401,
        }
    }

    /// The error that reports this fault.
    pub fn to_error(self) -> (r: Error)
        ensures
            r.status() == self.status(),
            r is Unauthorized || r is InternalServerError,
    {
        match self {
            SessionFault::MissingBearer => Error::Unauthorized(
                String::from_str("Bearer token was not found inside Authentication header."),
            ),
            SessionFault::BadCredentials => Error::Unauthorized(
                String::from_str("Authentication failed."),
            ),
            SessionFault::UserLookupFailed => Error::InternalServerError(
                String::from_str("Something went wrong."),
            ),
            SessionFault::InvalidToken => Error::Unauthorized(
                String::from_str("Error while decoding jwt token."),
            ),
            SessionFault::WrongKind => Error::Unauthorized(
                String::from_str("Wrong kind of token."),
            ),
            SessionFault::Expired => Error::Unauthorized(String::from_str("Token has expired.")),
            SessionFault::Revoked => Error::Unauthorized(
                String::from_str("Session is no longer active."),
            ),
            SessionFault::SigningFailed => Error::InternalServerError(
                String::from_str("Cannot generate tokens."),
            ),
            SessionFault::SavingFailed => Error::InternalServerError(
                String::from_str("Error while saving tokens."),
            ),
            SessionFault::RevokingFailed => Error::InternalServerError(
                String::from_str("Cannot delete tokens."),
            ),
        }
    }
}

/// What a successful flow hands back.
#[derive(Debug)]
pub enum SessionGrant {
    /// Login and refresh: a new token pair.
    Tokens(TokensResponseDto),
    /// Logout: the session is gone.
    LoggedOut,
    /// Request authentication: the caller's claims.
    Caller(TokenClaims),
}

/// The outside step a flow asks for next.
#[derive(Debug)]
pub enum SessionAction {
    /// Look up the user with this email.
    FindUser { email: String },
    /// Check the signature and expiry of `token` with the secret of `kind`
    /// and decode its claims.
    Decode { token: String, kind: TokenKind },
    /// Read the registry entry `entry`.
    Fetch { entry: EntryKey },
    /// Sign `claims` with the secret of their kind.
    Sign { claims: TokenClaims },
    /// Write `token` under `entry`, to live `entry.ttl_secs()` seconds.
    Save { entry: EntryKey, token: String },
    /// Remove the registry entry `entry`; a missing entry is no failure.
    Remove { entry: EntryKey },
    /// The flow is over: answer the client with this.
    Reply(Result<SessionGrant, Error>),
}

/// How the step that was asked for went.
#[derive(Debug)]
pub enum SessionEvent {
    /// The user lookup answered (`None`: no user has that email).
    UserFound(Option<User>),
    /// The token checked and decoded to these claims.
    Decoded(TokenClaims),
    /// The registry read answered (`None`: no such entry).
    Fetched(Option<String>),
    /// The claims were signed into this token.
    Signed(String),
    /// The write or removal was carried out.
    Done,
    /// The step failed.
    Failed,
}

/// A login, logout, refresh or request authentication in progress.
#[derive(Debug)]
pub enum SessionFlow {
    /// Login: waiting for the user record of `email`. The session id and the
    /// time of issue are drawn when the flow starts.
    FindingUser { email: String, password: String, token_id: Uuid, now: i64 },
    /// Waiting for the claims of `token`.
    Decoding { token: String, purpose: Purpose, now: i64 },
    /// Waiting for the registry entry of the token's session and kind.
    Fetching { token: String, claims: TokenClaims, purpose: Purpose, now: i64 },
    /// Removing the `kind` entry of the session: access first, then refresh.
    Revoking { user_id: Uuid, token_id: Uuid, kind: TokenKind, purpose: Purpose, now: i64 },
    /// Waiting for the access token (while `signed_access` is `None`), then
    /// for the refresh token.
    Signing { user_id: Uuid, token_id: Uuid, now: i64, signed_access: Option<String> },
    /// Writing the `kind` entry of the new pair: refresh first, then access.
    Saving { user_id: Uuid, token_id: Uuid, kind: TokenKind, access: String, refresh: String },
    /// A write failed: removing the `kind` entry, access first, then refresh.
    CleaningUp { user_id: Uuid, token_id: Uuid, kind: TokenKind },
    /// The flow is over with this outcome.
    Finished { outcome: Result<SessionGrant, SessionFault> },
}

pub open spec fn refused(fault: SessionFault) -> SessionFlow {
    SessionFlow::Finished { outcome: Err(fault) }
}

impl SessionEvent {
    pub open spec fn succeeded(&self) -> bool {
        self is Done
    }
}

impl SessionFlow {
    /// Every instant a flow holds is one the clock can report.
    pub open spec fn wf(&self) -> bool {
        match *self {
            SessionFlow::FindingUser { now, .. } => 0 <= now < CLOCK_LIMIT,
            SessionFlow::Decoding { now, .. } => 0 <= now < CLOCK_LIMIT,
            SessionFlow::Fetching { now, .. } => 0 <= now < CLOCK_LIMIT,
            SessionFlow::Revoking { now, .. } => 0 <= now < CLOCK_LIMIT,
            SessionFlow::Signing { now, .. } => 0 <= now < CLOCK_LIMIT,
            _ => true,
        }
    }

    /// The state that follows `self` once the step it asked for went as `ev`
    /// says.
    pub open spec fn next(self, ev: SessionEvent) -> SessionFlow {
        match self {
            SessionFlow::FindingUser { email, password, token_id, now } => match ev {
                SessionEvent::UserFound(Some(user)) => {
                    if user.email@ == email@ && bcrypt_accepts(password@, user.password@) {
                        SessionFlow::Signing { user_id: user.id, token_id, now, signed_access: None }
                    } else {
                        refused(SessionFault::BadCredentials)
                    }
                },
                SessionEvent::UserFound(None) => refused(SessionFault::BadCredentials),
                _ => refused(SessionFault::UserLookupFailed),
            },
            SessionFlow::Decoding { token, purpose, now } => match ev {
                SessionEvent::Decoded(claims) => {
                    if claims.kind_spec() != purpose.expects() {
                        refused(SessionFault::WrongKind)
                    } else if purpose == Purpose::Verify && claims.exp <= now {
                        refused(SessionFault::Expired)
                    } else {
                        SessionFlow::Fetching { token, claims, purpose, now }
                    }
                },
                _ => refused(SessionFault::InvalidToken),
            },
            SessionFlow::Fetching { token, claims, purpose, now } => match ev {
                SessionEvent::Fetched(Some(stored)) => {
                    if stored@ != token@ {
                        refused(SessionFault::Revoked)
                    } else if purpose == Purpose::Verify {
                        SessionFlow::Finished { outcome: Ok(SessionGrant::Caller(claims)) }
                    } else {
                        SessionFlow::Revoking {
                            user_id: claims.sub,
                            token_id: claims.jti,
                            kind: TokenKind::Access,
                            purpose,
                            now,
                        }
                    }
                },
                _ => refused(SessionFault::Revoked),
            },
            SessionFlow::Revoking { user_id, token_id, kind, purpose, now } => {
                if !ev.succeeded() {
                    refused(SessionFault::RevokingFailed)
                } else if kind == TokenKind::Access {
                    SessionFlow::Revoking { user_id, token_id, kind: TokenKind::Refresh, purpose, now }
                } else if purpose == Purpose::Refresh {
                    SessionFlow::Signing { user_id, token_id, now, signed_access: None }
                } else {
                    SessionFlow::Finished { outcome: Ok(SessionGrant::LoggedOut) }
                }
            },
            SessionFlow::Signing { user_id, token_id, now, signed_access } => match ev {
                SessionEvent::Signed(t) => match signed_access {
                    None => SessionFlow::Signing { user_id, token_id, now, signed_access: Some(t) },
                    Some(a) => SessionFlow::Saving {
                        user_id,
                        token_id,
                        kind: TokenKind::Refresh,
                        access: a,
                        refresh: t,
                    },
                },
                _ => refused(SessionFault::SigningFailed),
            },
            SessionFlow::Saving { user_id, token_id, kind, access, refresh } => {
                if !ev.succeeded() {
                    SessionFlow::CleaningUp { user_id, token_id, kind: TokenKind::Access }
                } else if kind == TokenKind::Refresh {
                    SessionFlow::Saving { user_id, token_id, kind: TokenKind::Access, access, refresh }
                } else {
                    SessionFlow::Finished {
                        outcome: Ok(
                            SessionGrant::Tokens(
                                TokensResponseDto { access_token: access, refresh_token: refresh },
                            ),
                        ),
                    }
                }
            },
            SessionFlow::CleaningUp { user_id, token_id, kind } => {
                if ev.succeeded() && kind == TokenKind::Access {
                    SessionFlow::CleaningUp { user_id, token_id, kind: TokenKind::Refresh }
                } else {
                    refused(SessionFault::SavingFailed)
                }
            },
            SessionFlow::Finished { .. } => self,
        }
    }

    /// `a` is the step that the state `self` asks for.
    pub open spec fn asks(&self, a: SessionAction) -> bool {
        match *self {
            SessionFlow::FindingUser { email, .. } => a == SessionAction::FindUser { email },
            SessionFlow::Decoding { token, purpose, .. } => a == SessionAction::Decode {
                token,
                kind: purpose.expects(),
            },
            SessionFlow::Fetching { claims, purpose, .. } => a == SessionAction::Fetch {
                entry: entry(claims.sub, claims.jti, purpose.expects()),
            },
            SessionFlow::Revoking { user_id, token_id, kind, .. } => a == SessionAction::Remove {
                entry: entry(user_id, token_id, kind),
            },
            SessionFlow::Signing { user_id, token_id, now, signed_access } => match a {
                SessionAction::Sign { claims } => claims.issued(
                    user_id,
                    token_id,
                    if signed_access is None {
                        TokenKind::Access
                    } else {
                        TokenKind::Refresh
                    },
                    now,
                ),
                _ => false,
            },
            SessionFlow::Saving { user_id, token_id, kind, access, refresh } => a
                == SessionAction::Save {
                entry: entry(user_id, token_id, kind),
                token: if kind == TokenKind::Access {
                    access
                } else {
                    refresh
                },
            },
            SessionFlow::CleaningUp { user_id, token_id, kind } => a == SessionAction::Remove {
                entry: entry(user_id, token_id, kind),
            },
            SessionFlow::Finished { outcome } => match a {
                SessionAction::Reply(r) => match outcome {
                    Ok(g) => r == Ok::<SessionGrant, Error>(g),
                    Err(f) => r matches Err(e) && e.status() == f.status(),
                },
                _ => false,
            },
        }
    }

    /// Whether every instant the flow holds is one the clock can report; the
    /// flows this module hands out always are.
    pub fn is_well_formed(&self) -> (r: bool)
        ensures
            r == self.wf(),
    {
        let now = match self {
            SessionFlow::FindingUser { now, .. } => *now,
            SessionFlow::Decoding { now, .. } => *now,
            SessionFlow::Fetching { now, .. } => *now,
            SessionFlow::Revoking { now, .. } => *now,
            SessionFlow::Signing { now, .. } => *now,
            _ => 0,
        };
        0 <= now && now < CLOCK_LIMIT
    }

    /// The request for the current state.
    fn action(&self) -> (r: SessionAction)
        requires
            self.wf(),
        ensures
            self.asks(r),
    {
        match self {
            SessionFlow::FindingUser { email, .. } => SessionAction::FindUser { email: email.clone() },
            SessionFlow::Decoding { token, purpose, .. } => SessionAction::Decode {
                token: token.clone(),
                kind: purpose.expected_kind(),
            },
            SessionFlow::Fetching { claims, purpose, .. } => SessionAction::Fetch {
                entry: EntryKey::new(claims.sub, claims.jti, purpose.expected_kind()),
            },
            SessionFlow::Revoking { user_id, token_id, kind, .. } => SessionAction::Remove {
                entry: EntryKey::new(*user_id, *token_id, *kind),
            },
            SessionFlow::Signing { user_id, token_id, now, signed_access } => {
                let kind = match signed_access {
                    None => TokenKind::Access,
                    Some(_) => TokenKind::Refresh,
                };
                SessionAction::Sign { claims: TokenClaims::issue(*user_id, *token_id, kind, *now) }
            },
            SessionFlow::Saving { user_id, token_id, kind, access, refresh } => {
                let token = match kind {
                    TokenKind::Access => access.clone(),
                    TokenKind::Refresh => refresh.clone(),
                };
                SessionAction::Save { entry: EntryKey::new(*user_id, *token_id, *kind), token }
            },
            SessionFlow::CleaningUp { user_id, token_id, kind } => SessionAction::Remove {
                entry: EntryKey::new(*user_id, *token_id, *kind),
            },
            SessionFlow::Finished { outcome } => match outcome {
                Ok(SessionGrant::Tokens(t)) => SessionAction::Reply(
                    Ok(SessionGrant::Tokens(t.duplicate())),
                ),
                Ok(SessionGrant::LoggedOut) => SessionAction::Reply(Ok(SessionGrant::LoggedOut)),
                Ok(SessionGrant::Caller(c)) => SessionAction::Reply(
                    Ok(SessionGrant::Caller(c.duplicate())),
                ),
                Err(f) => SessionAction::Reply(Err(f.to_error())),
            },
        }
    }

    /// Advances the flow by the outcome of the step it asked for, and returns
    /// the new state with the step it asks for next.
    pub fn step(self, ev: SessionEvent) -> (r: (SessionFlow, SessionAction))
        requires
            self.wf(),
        ensures
            r.0 == self.next(ev),
            r.0.wf(),
            r.0.asks(r.1),
    {
        let ghost old_self = self;
        let ghost old_ev = ev;
        let next = match self {
            SessionFlow::FindingUser { email, password, token_id, now } => match ev {
                SessionEvent::UserFound(Some(user)) => {
                    if user.email == email && check_password_hash(password, user.password) {
                        SessionFlow::Signing { user_id: user.id, token_id, now, signed_access: None }
                    } else {
                        SessionFlow::Finished { outcome: Err(SessionFault::BadCredentials) }
                    }
                },
                SessionEvent::UserFound(None) => SessionFlow::Finished {
                    outcome: Err(SessionFault::BadCredentials),
                },
                _ => SessionFlow::Finished { outcome: Err(SessionFault::UserLookupFailed) },
            },
            SessionFlow::Decoding { token, purpose, now } => match ev {
                SessionEvent::Decoded(claims) => {
                    if claims.kind() != purpose.expected_kind() {
                        SessionFlow::Finished { outcome: Err(SessionFault::WrongKind) }
                    } else if purpose == Purpose::Verify && claims.exp <= now {
                        SessionFlow::Finished { outcome: Err(SessionFault::Expired) }
                    } else {
                        SessionFlow::Fetching { token, claims, purpose, now }
                    }
                },
                _ => SessionFlow::Finished { outcome: Err(SessionFault::InvalidToken) },
            },
            SessionFlow::Fetching { token, claims, purpose, now } => match ev {
                SessionEvent::Fetched(Some(stored)) => {
                    if stored != token {
                        SessionFlow::Finished { outcome: Err(SessionFault::Revoked) }
                    } else if purpose == Purpose::Verify {
                        SessionFlow::Finished { outcome: Ok(SessionGrant::Caller(claims)) }
                    } else {
                        SessionFlow::Revoking {
                            user_id: claims.sub,
                            token_id: claims.jti,
                            kind: TokenKind::Access,
                            purpose,
                            now,
                        }
                    }
                },
                _ => SessionFlow::Finished { outcome: Err(SessionFault::Revoked) },
            },
            SessionFlow::Revoking { user_id, token_id, kind, purpose, now } => {
                let ok = match ev {
                    SessionEvent::Done => true,
                    _ => false,
                };
                if !ok {
                    SessionFlow::Finished { outcome: Err(SessionFault::RevokingFailed) }
                } else if kind == TokenKind::Access {
                    SessionFlow::Revoking { user_id, token_id, kind: TokenKind::Refresh, purpose, now }
                } else if purpose == Purpose::Refresh {
                    SessionFlow::Signing { user_id, token_id, now, signed_access: None }
                } else {
                    SessionFlow::Finished { outcome: Ok(SessionGrant::LoggedOut) }
                }
            },
            SessionFlow::Signing { user_id, token_id, now, signed_access } => match ev {
                SessionEvent::Signed(t) => match signed_access {
                    None => SessionFlow::Signing { user_id, token_id, now, signed_access: Some(t) },
                    Some(a) => SessionFlow::Saving {
                        user_id,
                        token_id,
                        kind: TokenKind::Refresh,
                        access: a,
                        refresh: t,
                    },
                },
                _ => SessionFlow::Finished { outcome: Err(SessionFault::SigningFailed) },
            },
            SessionFlow::Saving { user_id, token_id, kind, access, refresh } => {
                let ok = match ev {
                    SessionEvent::Done => true,
                    _ => false,
                };
                if !ok {
                    SessionFlow::CleaningUp { user_id, token_id, kind: TokenKind::Access }
                } else if kind == TokenKind::Refresh {
                    SessionFlow::Saving { user_id, token_id, kind: TokenKind::Access, access, refresh }
                } else {
                    SessionFlow::Finished {
                        outcome: Ok(
                            SessionGrant::Tokens(
                                TokensResponseDto { access_token: access, refresh_token: refresh },
                            ),
                        ),
                    }
                }
            },
            SessionFlow::CleaningUp { user_id, token_id, kind } => {
                let ok = match ev {
                    SessionEvent::Done => true,
                    _ => false,
                };
                if ok && kind == TokenKind::Access {
                    SessionFlow::CleaningUp { user_id, token_id, kind: TokenKind::Refresh }
                } else {
                    SessionFlow::Finished { outcome: Err(SessionFault::SavingFailed) }
                }
            },
            SessionFlow::Finished { outcome } => SessionFlow::Finished { outcome },
        };
        assert(next == old_self.next(old_ev));
        let a = next.action();
        (next, a)
    }

    /// Starts a login with the email and password of `user` (the other fields
    /// are not read). A fresh session id and the time of issue are drawn now.
    pub fn login(user: User) -> (r: (SessionFlow, SessionAction))
        ensures
            r.0 matches SessionFlow::FindingUser { email, password, token_id, now } && email
                == user.email && password == user.password && !token_id.is_nil(),
            r.0.wf(),
            r.0.asks(r.1),
    {
        let token_id = Uuid::new_v4();
        let now = unix_now();
        let flow = SessionFlow::FindingUser {
            email: user.email,
            password: user.password,
            token_id,
            now,
        };
        let a = flow.action();
        (flow, a)
    }

    /// Starts a refresh that consumes `token`.
    pub fn refresh(token: String) -> (r: (SessionFlow, SessionAction))
        ensures
            r.0 matches SessionFlow::Decoding { token: t, purpose, .. } && t == token && purpose
                == Purpose::Refresh,
            r.0.wf(),
            r.0.asks(r.1),
    {
        let now = unix_now();
        let flow = SessionFlow::Decoding { token, purpose: Purpose::Refresh, now };
        let a = flow.action();
        (flow, a)
    }

    fn presented(auth_header: String, purpose: Purpose) -> (r: (SessionFlow, SessionAction))
        ensures
            has_bearer_token(auth_header@) ==> (r.0 matches SessionFlow::Decoding {
                token: t,
                purpose: p,
                ..
            } && bearer_token_of(auth_header@, t@) && p == purpose),
            !has_bearer_token(auth_header@) ==> r.0 == refused(SessionFault::MissingBearer),
            r.0.wf(),
            r.0.asks(r.1),
    {
        let flow = match get_bearer_token(auth_header) {
            Ok(token) => {
                let now = unix_now();
                SessionFlow::Decoding { token, purpose, now }
            },
            Err(_) => SessionFlow::Finished { outcome: Err(SessionFault::MissingBearer) },
        };
        let a = flow.action();
        (flow, a)
    }

    /// Starts a logout with the value of the `Authorization` header.
    pub fn logout(auth_header: String) -> (r: (SessionFlow, SessionAction))
        ensures
            has_bearer_token(auth_header@) ==> (r.0 matches SessionFlow::Decoding {
                token: t,
                purpose,
                ..
            } && bearer_token_of(auth_header@, t@) && purpose == Purpose::Logout),
            !has_bearer_token(auth_header@) ==> r.0 == refused(SessionFault::MissingBearer),
            r.0.wf(),
            r.0.asks(r.1),
    {
        SessionFlow::presented(auth_header, Purpose::Logout)
    }

    /// Starts the authentication of a request from the value of its
    /// `Authorization` header.
    pub fn authenticate(auth_header: String) -> (r: (SessionFlow, SessionAction))
        ensures
            has_bearer_token(auth_header@) ==> (r.0 matches SessionFlow::Decoding {
                token: t,
                purpose,
                ..
            } && bearer_token_of(auth_header@, t@) && purpose == Purpose::Verify),
            !has_bearer_token(auth_header@) ==> r.0 == refused(SessionFault::MissingBearer),
            r.0.wf(),
            r.0.asks(r.1),
    {
        SessionFlow::presented(auth_header, Purpose::Verify)
    }
}

} // verus!

use std::collections::HashMap;

use rust_blog::claims::{TokenClaims, TokenKind};
use rust_blog::error::Error;
use rust_blog::ids::Uuid;
use rust_blog::mappers::from_login_dto_to_user;
use rust_blog::dtos::LoginRequestDto;
use rust_blog::models::User;
use rust_blog::registry::EntryKey;
use rust_blog::session::{Purpose, SessionAction, SessionEvent, SessionFault, SessionFlow, SessionGrant};

/// Users, a registry and a stand-in signer: a token is its claims written
/// out, tagged with the kind whose secret signed it, plus a serial number.
struct World {
    users: Vec<User>,
    registry: HashMap<String, String>,
    serial: u64,
    fail_saves_from: Option<usize>,
    saves: usize,
    fail_user_store: bool,
}

fn tag(kind: TokenKind) -> &'static str {
    match kind {
        TokenKind::Access => "A",
        TokenKind::Refresh => "R",
    }
}

fn decode(token: &str, kind: TokenKind) -> Option<TokenClaims> {
    let parts: Vec<&str> = token.split(':').collect();
    if parts.len() != 6 || parts[0] != tag(kind) {
        return None;
    }
    Some(TokenClaims {
        iss: "rustblog".to_string(),
        sub: Uuid::from_u128(parts[1].parse().ok()?),
        jti: Uuid::from_u128(parts[2].parse().ok()?),
        iat: parts[3].parse().ok()?,
        exp: parts[4].parse().ok()?,
        is_refresh: parts[0] == "R",
    })
}

impl World {
    fn new() -> World {
        let password = bcrypt::hash("password", 4).unwrap();
        let john = User {
            id: Uuid::from_u128(0x1234),
            email: "john@rustblog.com".to_string(),
            username: "jonn".to_string(),
            password,
            created_at: 0,
            updated_at: 0,
        };
        World { users: vec![john], registry: HashMap::new(), serial: 0, fail_saves_from: None, saves: 0, fail_user_store: false }
    }

    fn sign(&mut self, c: &TokenClaims) -> String {
        self.serial += 1;
        format!("{}:{}:{}:{}:{}:{}", tag(c.kind()), c.sub.as_u128(), c.jti.as_u128(), c.iat, c.exp, self.serial)
    }

    fn coherent(&self) -> bool {
        self.registry.keys().filter(|k| k.ends_with(".at")).all(|k| {
            let rt = format!("{}.rt", &k[..k.len() - 3]);
            self.registry.contains_key(&rt)
        })
    }

    fn run(&mut self, start: (SessionFlow, SessionAction)) -> Result<SessionGrant, Error> {
        let (mut flow, mut action) = start;
        let mut steps = 0;
        loop {
            assert!(self.coherent(), "an access entry without its refresh entry");
            steps += 1;
            assert!(steps < 50);
            let ev = match action {
                SessionAction::FindUser { email } => {
                    if self.fail_user_store {
                        SessionEvent::Failed
                    } else {
                        SessionEvent::UserFound(self.users.iter().find(|u| u.email == email).map(|u| User {
                            id: u.id,
                            email: u.email.clone(),
                            username: u.username.clone(),
                            password: u.password.clone(),
                            created_at: u.created_at,
                            updated_at: u.updated_at,
                        }))
                    }
                }
                SessionAction::Decode { token, kind } => match decode(&token, kind) {
                    Some(c) => SessionEvent::Decoded(c),
                    None => SessionEvent::Failed,
                },
                SessionAction::Fetch { entry } => SessionEvent::Fetched(self.registry.get(&entry.to_key()).cloned()),
                SessionAction::Sign { claims } => SessionEvent::Signed(self.sign(&claims)),
                SessionAction::Save { entry, token } => {
                    self.saves += 1;
                    if self.fail_saves_from.map_or(false, |n| self.saves >= n) {
                        SessionEvent::Failed
                    } else {
                        self.registry.insert(entry.to_key(), token);
                        SessionEvent::Done
                    }
                }
                SessionAction::Remove { entry } => {
                    self.registry.remove(&entry.to_key());
                    SessionEvent::Done
                }
                SessionAction::Reply(r) => return r,
            };
            let (f, a) = flow.step(ev);
            flow = f;
            action = a;
        }
    }

    fn login(&mut self, email: &str, password: &str) -> Result<SessionGrant, Error> {
        let user = from_login_dto_to_user(LoginRequestDto { email: email.to_string(), password: password.to_string() });
        self.run(SessionFlow::login(user))
    }
}

fn tokens(r: Result<SessionGrant, Error>) -> (String, String) {
    match r {
        Ok(SessionGrant::Tokens(t)) => (t.access_token, t.refresh_token),
        other => panic!("expected a token pair, got {:?}", other),
    }
}

fn unauthorized(r: Result<SessionGrant, Error>) {
    match r {
        Err(e) => assert_eq!(e.code(), 401, "{:?}", e),
        Ok(g) => panic!("expected 401, got {:?}", g),
    }
}

#[test]
fn seed_and_login() {
    let mut w = World::new();
    let (access, refresh) = tokens(w.login("john@rustblog.com", "password"));
    assert!(!access.is_empty() && !refresh.is_empty());
    let a = decode(&access, TokenKind::Access).unwrap();
    let r = decode(&refresh, TokenKind::Refresh).unwrap();
    assert_eq!(a.sub, r.sub);
    assert_eq!(a.jti, r.jti);
    assert_eq!(a.sub, Uuid::from_u128(0x1234));
    assert!(!a.jti.is_nil());
    assert!(!a.is_refresh);
    assert!(r.is_refresh);
    assert_eq!(a.exp - a.iat, 3600);
    assert_eq!(r.exp - r.iat, 604800);
    assert!(a.iat > 1_600_000_000);
    let at = EntryKey::new(a.sub, a.jti, TokenKind::Access).to_key();
    let rt = EntryKey::new(a.sub, a.jti, TokenKind::Refresh).to_key();
    assert_eq!(w.registry.get(&at), Some(&access));
    assert_eq!(w.registry.get(&rt), Some(&refresh));
}

#[test]
fn wrong_password() {
    let mut w = World::new();
    unauthorized(w.login("john@rustblog.com", "wrong"));
    assert!(w.registry.is_empty());
}

#[test]
fn unknown_user_is_unauthorized_and_store_failure_is_internal() {
    let mut w = World::new();
    unauthorized(w.login("jane@rustblog.com", "password"));
    w.fail_user_store = true;
    match w.login("john@rustblog.com", "password") {
        Err(e) => assert_eq!(e.code(), 500),
        Ok(g) => panic!("expected 500, got {:?}", g),
    }
}

#[test]
fn refresh_rotates() {
    let mut w = World::new();
    let (access1, refresh1) = tokens(w.login("john@rustblog.com", "password"));
    let (access2, refresh2) = tokens(w.run(SessionFlow::refresh(refresh1.clone())));
    assert_ne!(access2, access1);
    assert_ne!(refresh2, refresh1);
    let old = decode(&refresh1, TokenKind::Refresh).unwrap();
    let new_access = decode(&access2, TokenKind::Access).unwrap();
    let new_refresh = decode(&refresh2, TokenKind::Refresh).unwrap();
    assert_eq!(new_access.jti, old.jti);
    assert_eq!(new_refresh.jti, old.jti);
    assert_eq!(new_access.sub, old.sub);
    // the consumed refresh token is no longer honoured
    unauthorized(w.run(SessionFlow::refresh(refresh1)));
    // nor is the old access token
    unauthorized(w.run(SessionFlow::authenticate(format!("Bearer {}", access1))));
    assert_eq!(w.registry.len(), 2);
}

#[test]
fn logout_kills_session() {
    let mut w = World::new();
    let (_, refresh1) = tokens(w.login("john@rustblog.com", "password"));
    let (access2, _) = tokens(w.run(SessionFlow::refresh(refresh1)));
    match w.run(SessionFlow::authenticate(format!("Bearer {}", access2))) {
        Ok(SessionGrant::Caller(c)) => assert_eq!(c.sub, Uuid::from_u128(0x1234)),
        other => panic!("expected the caller's claims, got {:?}", other),
    }
    match w.run(SessionFlow::logout(format!("Bearer {}", access2))) {
        Ok(SessionGrant::LoggedOut) => {}
        other => panic!("expected a logout, got {:?}", other),
    }
    assert!(w.registry.is_empty());
    unauthorized(w.run(SessionFlow::authenticate(format!("Bearer {}", access2))));
}

#[test]
fn logout_twice_is_unauthorized_not_server_error() {
    let mut w = World::new();
    let (access, _) = tokens(w.login("john@rustblog.com", "password"));
    let header = format!("Bearer {}", access);
    assert!(matches!(w.run(SessionFlow::logout(header.clone())), Ok(SessionGrant::LoggedOut)));
    match w.run(SessionFlow::logout(header)) {
        Err(Error::Unauthorized(m)) => assert_eq!(m, "Session is no longer active."),
        other => panic!("expected 401, got {:?}", other),
    }
}

#[test]
fn tokens_of_one_kind_fail_on_the_other_path() {
    let mut w = World::new();
    let (access, refresh) = tokens(w.login("john@rustblog.com", "password"));
    // a refresh token where an access token is expected, and the reverse
    unauthorized(w.run(SessionFlow::authenticate(format!("Bearer {}", refresh))));
    unauthorized(w.run(SessionFlow::logout(format!("Bearer {}", refresh))));
    unauthorized(w.run(SessionFlow::refresh(access.clone())));
    // the session is untouched by the refused attempts
    assert_eq!(w.registry.len(), 2);
    assert!(matches!(w.run(SessionFlow::authenticate(format!("Bearer {}", access))), Ok(SessionGrant::Caller(_))));
}

#[test]
fn decode_asks_for_the_secret_of_the_expected_kind() {
    let (_, a) = SessionFlow::refresh("t".to_string());
    assert!(matches!(a, SessionAction::Decode { kind: TokenKind::Refresh, .. }));
    let (_, a) = SessionFlow::logout("Bearer t".to_string());
    assert!(matches!(a, SessionAction::Decode { kind: TokenKind::Access, .. }));
    let (_, a) = SessionFlow::authenticate("Bearer t".to_string());
    match a {
        SessionAction::Decode { token, kind } => {
            assert_eq!(token, "t");
            assert_eq!(kind, TokenKind::Access);
        }
        other => panic!("unexpected {:?}", other),
    }
}

#[test]
fn claims_of_the_wrong_kind_are_refused() {
    let claims = TokenClaims::issue(Uuid::from_u128(1), Uuid::from_u128(2), TokenKind::Refresh, 10);
    let flow = SessionFlow::Decoding { token: "t".to_string(), purpose: Purpose::Logout, now: 10 };
    let (next, action) = flow.step(SessionEvent::Decoded(claims));
    assert!(matches!(next, SessionFlow::Finished { outcome: Err(SessionFault::WrongKind) }));
    match action {
        SessionAction::Reply(Err(e)) => assert_eq!(e.code(), 401),
        other => panic!("unexpected {:?}", other),
    }
}

#[test]
fn expired_access_token_is_refused() {
    let claims = TokenClaims::issue(Uuid::from_u128(1), Uuid::from_u128(2), TokenKind::Access, 10);
    let flow = SessionFlow::Decoding { token: "t".to_string(), purpose: Purpose::Verify, now: 10 + 3600 };
    let (next, _) = flow.step(SessionEvent::Decoded(claims));
    assert!(matches!(next, SessionFlow::Finished { outcome: Err(SessionFault::Expired) }));
}

#[test]
fn missing_bearer_is_refused_before_any_step() {
    let (flow, action) = SessionFlow::logout("Token abc".to_string());
    assert!(matches!(flow, SessionFlow::Finished { outcome: Err(SessionFault::MissingBearer) }));
    match action {
        SessionAction::Reply(Err(Error::Unauthorized(_))) => {}
        other => panic!("unexpected {:?}", other),
    }
}

#[test]
fn failed_refresh_save_cleans_up_and_reports_internal_error() {
    let mut w = World::new();
    w.fail_saves_from = Some(2);
    match w.login("john@rustblog.com", "password") {
        Err(Error::InternalServerError(m)) => assert_eq!(m, "Error while saving tokens."),
        other => panic!("expected 500, got {:?}", other),
    }
    assert!(w.registry.is_empty());
}

#[test]
fn failed_first_save_leaves_nothing_behind() {
    let mut w = World::new();
    w.fail_saves_from = Some(1);
    match w.login("john@rustblog.com", "password") {
        Err(e) => assert_eq!(e.code(), 500),
        other => panic!("expected 500, got {:?}", other),
    }
    assert!(w.registry.is_empty());
}

#[test]
fn pair_is_saved_refresh_first() {
    let mut w = World::new();
    let (flow, _) = SessionFlow::login(from_login_dto_to_user(LoginRequestDto {
        email: "john@rustblog.com".to_string(),
        password: "password".to_string(),
    }));
    let john = &w.users[0];
    let user = User {
        id: john.id,
        email: john.email.clone(),
        username: john.username.clone(),
        password: john.password.clone(),
        created_at: 0,
        updated_at: 0,
    };
    let (flow, a) = flow.step(SessionEvent::UserFound(Some(user)));
    let c1 = match a {
        SessionAction::Sign { claims } => claims,
        other => panic!("unexpected {:?}", other),
    };
    assert!(!c1.is_refresh);
    let t1 = w.sign(&c1);
    let (flow, a) = flow.step(SessionEvent::Signed(t1));
    let c2 = match a {
        SessionAction::Sign { claims } => claims,
        other => panic!("unexpected {:?}", other),
    };
    assert!(c2.is_refresh);
    assert_eq!((c1.sub, c1.jti), (c2.sub, c2.jti));
    let t2 = w.sign(&c2);
    let (flow, a) = flow.step(SessionEvent::Signed(t2.clone()));
    match a {
        SessionAction::Save { entry, token } => {
            assert_eq!(entry.kind, TokenKind::Refresh);
            assert_eq!(token, t2);
        }
        other => panic!("unexpected {:?}", other),
    }
    let (_, a) = flow.step(SessionEvent::Done);
    assert!(matches!(a, SessionAction::Save { entry: EntryKey { kind: TokenKind::Access, .. }, .. }));
}

#[test]
fn failed_signature_is_internal_error() {
    let flow = SessionFlow::Signing { user_id: Uuid::from_u128(1), token_id: Uuid::from_u128(2), now: 10, signed_access: None };
    let (next, action) = flow.step(SessionEvent::Failed);
    assert!(matches!(next, SessionFlow::Finished { outcome: Err(SessionFault::SigningFailed) }));
    match action {
        SessionAction::Reply(Err(Error::InternalServerError(m))) => assert_eq!(m, "Cannot generate tokens."),
        other => panic!("unexpected {:?}", other),
    }
}

#[test]
fn failed_revocation_is_internal_error_and_keeps_refresh_entry() {
    let flow = SessionFlow::Revoking {
        user_id: Uuid::from_u128(1),
        token_id: Uuid::from_u128(2),
        kind: TokenKind::Access,
        purpose: Purpose::Logout,
        now: 10,
    };
    let (next, action) = flow.step(SessionEvent::Failed);
    assert!(matches!(next, SessionFlow::Finished { outcome: Err(SessionFault::RevokingFailed) }));
    match action {
        SessionAction::Reply(Err(e)) => assert_eq!(e.code(), 500),
        other => panic!("unexpected {:?}", other),
    }
    assert!(next.is_well_formed());
}

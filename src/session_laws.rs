//! Laws of the session flows, over a model of the token registry.
use vstd::prelude::*;
use crate::claims::TokenKind;
use crate::ids::Uuid;
use crate::registry::{entry, session_coherent, EntryKey, RegistryModel};
use crate::session::{refused, Purpose, SessionAction, SessionEvent, SessionFault, SessionFlow, SessionGrant};

verus! {

impl SessionFlow {
    /// The registry after the step that `self` asks for went as `ev` says,
    /// with nothing else writing to it. A failed write or removal may or may
    /// not have taken effect.
    pub open spec fn registry_effect(
        self,
        ev: SessionEvent,
        before: RegistryModel,
        after: RegistryModel,
    ) -> bool {
        match self {
            SessionFlow::Saving { user_id, token_id, kind, access, refresh } => {
                let v = if kind == TokenKind::Access {
                    access@
                } else {
                    refresh@
                };
                after == before.insert(entry(user_id, token_id, kind), v) || (!ev.succeeded()
                    && after == before)
            },
            SessionFlow::Revoking { user_id, token_id, kind, .. } => after == before.remove(
                entry(user_id, token_id, kind),
            ) || (!ev.succeeded() && after == before),
            SessionFlow::CleaningUp { user_id, token_id, kind } => after == before.remove(
                entry(user_id, token_id, kind),
            ) || (!ev.succeeded() && after == before),
            _ => after == before,
        }
    }

    /// The registry is coherent, and what the state has already done holds
    /// in it: once the refresh entry of a new pair is written it is there;
    /// once an access entry is removed it is gone.
    pub open spec fn coherent_with(self, reg: RegistryModel) -> bool {
        &&& session_coherent(reg)
        &&& match self {
            SessionFlow::Saving { user_id, token_id, kind, .. } => kind == TokenKind::Access
                ==> reg.contains_key(entry(user_id, token_id, TokenKind::Refresh)),
            SessionFlow::Revoking { user_id, token_id, kind, .. } => kind == TokenKind::Refresh
                ==> !reg.contains_key(entry(user_id, token_id, TokenKind::Access)),
            SessionFlow::CleaningUp { user_id, token_id, kind } => kind == TokenKind::Refresh
                ==> !reg.contains_key(entry(user_id, token_id, TokenKind::Access)),
            _ => true,
        }
    }

    /// The user and session id that the state works for, once known.
    pub open spec fn session(self) -> Option<(Uuid, Uuid)> {
        match self {
            SessionFlow::Fetching { claims, .. } => Some((claims.sub, claims.jti)),
            SessionFlow::Revoking { user_id, token_id, .. } => Some((user_id, token_id)),
            SessionFlow::Signing { user_id, token_id, .. } => Some((user_id, token_id)),
            SessionFlow::Saving { user_id, token_id, .. } => Some((user_id, token_id)),
            SessionFlow::CleaningUp { user_id, token_id, .. } => Some((user_id, token_id)),
            _ => None,
        }
    }

    /// `ev` is what a faithful read of `reg` answers to the state's request.
    pub open spec fn answered_from(self, ev: SessionEvent, reg: RegistryModel) -> bool {
        match self {
            SessionFlow::Fetching { claims, purpose, .. } => {
                let k = entry(claims.sub, claims.jti, purpose.expects());
                match ev {
                    SessionEvent::Fetched(Some(v)) => reg.contains_key(k) && reg[k] == v@,
                    SessionEvent::Fetched(None) => !reg.contains_key(k),
                    SessionEvent::Failed => true,
                    _ => false,
                }
            },
            _ => true,
        }
    }
}

/// Session coherence: with no other writer, no step of any flow leaves an
/// access entry without the refresh entry of its session. Pairs are written
/// refresh first, and access entries are removed first.
pub proof fn session_coherence_kept(
    flow: SessionFlow,
    ev: SessionEvent,
    before: RegistryModel,
    after: RegistryModel,
)
    requires
        flow.coherent_with(before),
        flow.registry_effect(ev, before, after),
    ensures
        flow.next(ev).coherent_with(after),
{
    match flow {
        SessionFlow::Saving { user_id, token_id, kind, .. } => {
            assert forall|k: EntryKey|
                #[trigger] after.contains_key(k) && k.kind == TokenKind::Access implies after.contains_key(
                entry(k.user_id, k.token_id, TokenKind::Refresh),
            ) by {
                if before.contains_key(k) {
                    assert(before.contains_key(entry(k.user_id, k.token_id, TokenKind::Refresh)));
                }
            }
        },
        SessionFlow::Revoking { user_id, token_id, kind, .. } => {
            assert forall|k: EntryKey|
                #[trigger] after.contains_key(k) && k.kind == TokenKind::Access implies after.contains_key(
                entry(k.user_id, k.token_id, TokenKind::Refresh),
            ) by {
                assert(before.contains_key(k));
                assert(before.contains_key(entry(k.user_id, k.token_id, TokenKind::Refresh)));
            }
        },
        SessionFlow::CleaningUp { user_id, token_id, kind } => {
            assert forall|k: EntryKey|
                #[trigger] after.contains_key(k) && k.kind == TokenKind::Access implies after.contains_key(
                entry(k.user_id, k.token_id, TokenKind::Refresh),
            ) by {
                assert(before.contains_key(k));
                assert(before.contains_key(entry(k.user_id, k.token_id, TokenKind::Refresh)));
            }
        },
        _ => {},
    }
}

/// The state after the flow has been told each of `evs` in turn.
pub open spec fn after_events(flow: SessionFlow, evs: Seq<SessionEvent>) -> SessionFlow
    decreases evs.len(),
{
    if evs.len() == 0 {
        flow
    } else {
        after_events(flow.next(evs[0]), evs.drop_first())
    }
}

/// `regs` are the registry before the flow's first step and after each step
/// that went as `evs` says, with nothing else writing to the registry.
pub open spec fn registry_trace(
    flow: SessionFlow,
    evs: Seq<SessionEvent>,
    regs: Seq<RegistryModel>,
) -> bool
    decreases evs.len(),
{
    &&& regs.len() == evs.len() + 1
    &&& evs.len() > 0 ==> {
        &&& flow.registry_effect(evs[0], regs[0], regs[1])
        &&& registry_trace(flow.next(evs[0]), evs.drop_first(), regs.drop_first())
    }
}

/// Session coherence over a whole run: from a coherent registry, a flow that
/// is told any sequence of outcomes never leaves a session with an access
/// entry and no refresh entry, at any point.
pub proof fn sessions_stay_coherent(
    flow: SessionFlow,
    evs: Seq<SessionEvent>,
    regs: Seq<RegistryModel>,
)
    requires
        flow.coherent_with(regs[0]),
        registry_trace(flow, evs, regs),
    ensures
        forall|i: int| 0 <= i < regs.len() ==> session_coherent(#[trigger] regs[i]),
        after_events(flow, evs).coherent_with(regs.last()),
    decreases evs.len(),
{
    if evs.len() > 0 {
        session_coherence_kept(flow, evs[0], regs[0], regs[1]);
        let rest = regs.drop_first();
        sessions_stay_coherent(flow.next(evs[0]), evs.drop_first(), rest);
        assert forall|i: int| 0 <= i < regs.len() implies session_coherent(#[trigger] regs[i]) by {
            if i > 0 {
                assert(regs[i] == rest[i - 1]);
            }
        }
        assert(rest.last() == regs.last());
    }
}

/// Access entries expire first (one hour against seven days); an access
/// entry leaving the registry never breaks coherence.
pub proof fn access_expiry_keeps_coherence(
    flow: SessionFlow,
    reg: RegistryModel,
    k: EntryKey,
)
    requires
        flow.coherent_with(reg),
        k.kind == TokenKind::Access,
    ensures
        flow.coherent_with(reg.remove(k)),
        TokenKind::Access.lifetime_spec() < TokenKind::Refresh.lifetime_spec(),
{
    assert forall|k2: EntryKey|
        #[trigger] reg.remove(k).contains_key(k2) && k2.kind == TokenKind::Access implies reg.remove(
        k,
    ).contains_key(entry(k2.user_id, k2.token_id, TokenKind::Refresh)) by {
        assert(reg.contains_key(entry(k2.user_id, k2.token_id, TokenKind::Refresh)));
    }
}

/// A flow never changes session: the claims of a presented token name the
/// session that every later state works for, every token the flow asks to
/// sign is for that user and session id (so an access token and its refresh
/// sibling share both, and a refresh keeps the session id of the token it
/// consumed), and the pair handed back is the pair that was saved.
pub proof fn session_is_kept(flow: SessionFlow, ev: SessionEvent)
    ensures
        flow is Decoding && !(flow.next(ev) is Finished) ==> (ev matches SessionEvent::Decoded(c)
            && flow.next(ev).session() == Some((c.sub, c.jti))),
        flow.session() is Some && !(flow.next(ev) is Finished) ==> flow.next(ev).session()
            == flow.session(),
        forall|a: SessionAction|
            flow.asks(a) && (a matches SessionAction::Sign { claims }) ==> flow.session()
                == Some((a->claims.sub, a->claims.jti)),
        flow.next(ev) matches SessionFlow::Finished { outcome: Ok(SessionGrant::Tokens(t)) } ==> (
        flow matches SessionFlow::Saving { access, refresh, .. } && t.access_token == access
            && t.refresh_token == refresh) || flow.next(ev) == flow,
{
}

/// Logout is idempotent, first half: a logout whose removal of the access
/// entry succeeded leaves no access entry for that session.
pub proof fn logout_removes_access_entry(
    flow: SessionFlow,
    ev: SessionEvent,
    before: RegistryModel,
    after: RegistryModel,
)
    requires
        flow matches SessionFlow::Revoking { kind, purpose, .. } && kind == TokenKind::Access
            && purpose == Purpose::Logout,
        ev.succeeded(),
        flow.registry_effect(ev, before, after),
    ensures
        !after.contains_key(entry(flow->Revoking_user_id, flow->Revoking_token_id, TokenKind::Access)),
        flow.next(ev) matches SessionFlow::Revoking { kind, .. } && kind == TokenKind::Refresh,
{
}

/// Logout is idempotent, second half: once the access entry of the session
/// is gone (or holds another token), a logout presenting the token is refused
/// as unauthorized, never with a server error, whatever the registry read
/// answered.
pub proof fn logout_replay_refused(flow: SessionFlow, ev: SessionEvent, reg: RegistryModel)
    requires
        flow matches SessionFlow::Fetching { token, claims, purpose, .. } && purpose
            == Purpose::Logout && (!reg.contains_key(entry(claims.sub, claims.jti, TokenKind::Access))
            || reg[entry(claims.sub, claims.jti, TokenKind::Access)] != token@),
        flow.answered_from(ev, reg),
    ensures
        flow.next(ev) == refused(SessionFault::Revoked),
        SessionFault::Revoked.status() == 401,
{
}

/// Tokens of the two kinds are kept apart: each purpose asks for the token to
/// be checked with the secret of the kind it expects (access for logout and
/// request authentication, refresh for refresh) and refuses claims of the
/// other kind; the first token of a pair is signed as an access token, the
/// second as a refresh token.
pub proof fn token_kinds_kept_apart(flow: SessionFlow, ev: SessionEvent)
    ensures
        forall|a: SessionAction|
            #![auto]
            flow.asks(a) && flow is Decoding ==> (a matches SessionAction::Decode { kind, .. }
                && kind == flow->Decoding_purpose.expects()),
        flow is Decoding && (ev matches SessionEvent::Decoded(c) && c.kind_spec()
            != flow->Decoding_purpose.expects()) ==> flow.next(ev) == refused(SessionFault::WrongKind),
        forall|a: SessionAction|
            #![auto]
            flow.asks(a) && flow is Signing ==> (a matches SessionAction::Sign { claims }
                && claims.is_refresh == (flow->signed_access is Some)),
        Purpose::Refresh.expects() == TokenKind::Refresh,
        Purpose::Logout.expects() == TokenKind::Access,
        Purpose::Verify.expects() == TokenKind::Access,
{
}

} // verus!

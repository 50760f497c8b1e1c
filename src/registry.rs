//! The token registry: the server-side list of live tokens, keyed by user,
//! session and kind. A bearer token counts only while its entry is present.
use vstd::prelude::*;
use crate::claims::TokenKind;
use crate::ids::{hyphenated, Uuid};

verus! {

/// The key of one registry entry: `<user_id>.<jti>.at` or `<user_id>.<jti>.rt`.
#[derive(Clone, Copy, Debug, PartialEq, Eq, Structural)]
pub struct EntryKey {
    pub user_id: Uuid,
    pub token_id: Uuid,
    pub kind: TokenKind,
}

pub open spec fn kind_suffix(kind: TokenKind) -> Seq<char> {
    match kind {
        TokenKind::Access => seq!['a', 't'],
        TokenKind::Refresh => seq!['r', 't'],
    }
}

pub open spec fn entry(user_id: Uuid, token_id: Uuid, kind: TokenKind) -> EntryKey {
    EntryKey { user_id, token_id, kind }
}

/// What the registry holds: for each present key, the encoded token.
pub type RegistryModel = Map<EntryKey, Seq<char>>;

/// No session has an access entry without its refresh entry.
pub open spec fn session_coherent(reg: RegistryModel) -> bool {
    forall|k: EntryKey|
        #[trigger] reg.contains_key(k) && k.kind == TokenKind::Access ==> reg.contains_key(
            entry(k.user_id, k.token_id, TokenKind::Refresh),
        )
}

impl EntryKey {
    pub open spec fn text(self) -> Seq<char> {
        hyphenated(self.user_id.value) + seq!['.'] + hyphenated(self.token_id.value) + seq!['.']
            + kind_suffix(self.kind)
    }

    pub fn new(user_id: Uuid, token_id: Uuid, kind: TokenKind) -> (r: EntryKey)
        ensures
            r == entry(user_id, token_id, kind),
    {
        EntryKey { user_id, token_id, kind }
    }

    /// The key text used in the key-value store.
    pub fn to_key(&self) -> (r: String)
        ensures
            r@ == self.text(),
    {
        let mut s = self.user_id.to_text();
        let t = self.token_id.to_text();
        s.append(".");
        s.append(t.as_str());
        match self.kind {
            TokenKind::Access => s.append(".at"),
            TokenKind::Refresh => s.append(".rt"),
        }
        proof {
            reveal_strlit(".");
            reveal_strlit(".at");
            reveal_strlit(".rt");
            assert(s@ =~= self.text());
        }
        s
    }

    /// Time to live of the entry, in seconds: the lifetime of its token.
    pub fn ttl_secs(&self) -> (r: u64)
        ensures
            r == self.kind.lifetime() as u64,
    {
        self.kind.lifetime() as u64
    }
}

} // verus!

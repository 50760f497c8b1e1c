//! Comments: who writes them, and what an update may change.
use vstd::prelude::*;
use crate::claims::TokenClaims;
use crate::dtos::CommentRequestDto;
use crate::ids::Uuid;
use crate::models::Comment;

verus! {

/// The comment to create from a request made under `claims`: its author is
/// the token's subject.
pub fn comment_for_author(dto: &CommentRequestDto, claims: &TokenClaims) -> (r: Comment)
    ensures
        r.user_id == claims.sub,
        r.body == dto.body,
        r.post_id == dto.post_id,
        r.id.is_nil(),
{
    Comment {
        id: Uuid::nil(),
        body: dto.body.clone(),
        user_id: claims.sub,
        post_id: dto.post_id,
        created_at: 0,
        updated_at: 0,
    }
}

/// The stored comment with the body of `incoming`; id, author, post and
/// instants are kept.
pub fn apply_comment_update(stored: Comment, incoming: Comment) -> (r: Comment)
    ensures
        r == (Comment { body: incoming.body, ..stored }),
{
    Comment { body: incoming.body, ..stored }
}

} // verus!

//! The post-and-image protocol. A post row and the blob of its image are
//! kept one-to-one across update, image attach or replace, and delete: a
//! flow asks for one outside step at a time (a row read or write, a blob
//! upload or removal) and decides what follows from how it went.
use vstd::prelude::*;
use crate::claims::TokenClaims;
use crate::dtos::PostRequestDto;
use crate::error::Error;
use crate::ids::Uuid;
use crate::models::Post;

verus! {

/// Why a post flow failed.
#[derive(Clone, Copy, Debug, PartialEq, Eq, Structural)]
pub enum PostFault {
    /// No post has that id.
    NotFound,
    /// The post store failed on a read.
    LookupFailed,
    /// The image bytes could not be stored.
    UploadFailed,
    /// The post row could not be written.
    StoreFailed,
    /// The image blob could not be removed.
    DiscardFailed,
    /// The post row could not be removed.
    EraseFailed,
}

impl PostFault {
    pub open spec fn status(self) -> u16 {
        match self {
            PostFault::NotFound => 404,
            _ => 500,
        }
    }

    /// The error that reports this fault.
    pub fn to_error(self) -> (r: Error)
        ensures
            r.status() == self.status(),
    {
        match self {
            PostFault::NotFound => Error::NotFound(String::from_str("Not found.")),
            PostFault::LookupFailed => Error::InternalServerError(
                String::from_str("Something went wrong."),
            ),
            PostFault::UploadFailed => Error::InternalServerError(
                String::from_str("Error saving file."),
            ),
            PostFault::StoreFailed => Error::InternalServerError(
                String::from_str("Something went wrong."),
            ),
            PostFault::DiscardFailed => Error::InternalServerError(
                String::from_str("Error deleting file."),
            ),
            PostFault::EraseFailed => Error::InternalServerError(
                String::from_str("Something went wrong."),
            ),
        }
    }
}

/// What a successful post flow hands back.
#[derive(Debug)]
pub enum PostGrant {
    /// Update and image attach: the post as stored.
    Updated(Post),
    /// Delete: the post and its image are gone.
    Deleted,
}

/// The outside step a post flow asks for next.
#[derive(Debug)]
pub enum PostAction {
    /// Read the post `id`.
    Fetch { id: Uuid },
    /// Store the uploaded bytes as a blob under `key`, with this content type.
    Upload { key: Uuid, content_type: String },
    /// Write the row of `post` (title, body, image and author).
    Store { post: Post },
    /// Remove the blob `key`.
    Discard { key: Uuid },
    /// Remove the row of the post `id`.
    Erase { id: Uuid },
    /// The flow is over: answer the client with this.
    Reply(Result<PostGrant, Error>),
}

/// How the step that was asked for went.
#[derive(Debug)]
pub enum PostEvent {
    /// The read found this post.
    Found(Post),
    /// The read found no such post.
    Missing,
    /// The row was written; this is the stored row.
    Stored(Post),
    /// The upload or removal was carried out.
    Done,
    /// The step failed.
    Failed,
}

/// An update, image attach or delete in progress.
#[derive(Debug)]
pub enum PostFlow {
    /// Update: waiting for the post `id`, whose title and body become these.
    UpdateFetching { id: Uuid, title: String, body: String },
    /// Update: writing the merged post.
    UpdateStoring { post: Post },
    /// Image: waiting for the post `id`. The new image goes under `key`.
    ImageFetching { id: Uuid, key: Uuid, content_type: String },
    /// Image: uploading the bytes under `key`.
    Uploading { post: Post, key: Uuid, content_type: String },
    /// Image: writing `post`, which now points at the new image; `old_image`
    /// is the image it pointed at before.
    Repointing { post: Post, old_image: Uuid },
    /// Image: the row write failed; removing the new blob `key` first.
    RollingBack { key: Uuid },
    /// Image: the stored `post` points at the new image; removing the old
    /// blob, whose failure leaves only garbage behind.
    DiscardingOld { post: Post, old_image: Uuid },
    /// Delete: waiting for the post `id`.
    DeleteFetching { id: Uuid },
    /// Delete: removing the blob `image` of post `id` before its row.
    DiscardingImage { id: Uuid, image: Uuid },
    /// Delete: removing the row of post `id`, whose image was `image`.
    Erasing { id: Uuid, image: Uuid },
    /// The flow is over with this outcome.
    Finished { outcome: Result<PostGrant, PostFault> },
}

pub open spec fn failed(fault: PostFault) -> PostFlow {
    PostFlow::Finished { outcome: Err(fault) }
}

/// `post` with another image.
pub open spec fn with_image(post: Post, image_id: Uuid) -> Post {
    Post { image_id, ..post }
}

/// `post` with another title and body; id, image, author and instants kept.
pub open spec fn with_text(post: Post, title: String, body: String) -> Post {
    Post { title, body, ..post }
}

impl PostEvent {
    pub open spec fn succeeded(&self) -> bool {
        self is Done
    }
}

impl PostFlow {
    /// The state that follows `self` once the step it asked for went as `ev`
    /// says.
    pub open spec fn next(self, ev: PostEvent) -> PostFlow {
        match self {
            PostFlow::UpdateFetching { id, title, body } => match ev {
                PostEvent::Found(p) => PostFlow::UpdateStoring { post: with_text(p, title, body) },
                PostEvent::Missing => failed(PostFault::NotFound),
                _ => failed(PostFault::LookupFailed),
            },
            PostFlow::UpdateStoring { post } => match ev {
                PostEvent::Stored(row) => PostFlow::Finished { outcome: Ok(PostGrant::Updated(row)) },
                _ => failed(PostFault::StoreFailed),
            },
            PostFlow::ImageFetching { id, key, content_type } => match ev {
                PostEvent::Found(p) => PostFlow::Uploading { post: p, key, content_type },
                PostEvent::Missing => failed(PostFault::NotFound),
                _ => failed(PostFault::LookupFailed),
            },
            PostFlow::Uploading { post, key, content_type } => {
                if ev.succeeded() {
                    PostFlow::Repointing { post: with_image(post, key), old_image: post.image_id }
                } else {
                    failed(PostFault::UploadFailed)
                }
            },
            PostFlow::Repointing { post, old_image } => match ev {
                PostEvent::Stored(row) => {
                    if old_image.is_nil_spec() {
                        PostFlow::Finished { outcome: Ok(PostGrant::Updated(row)) }
                    } else {
                        PostFlow::DiscardingOld { post: row, old_image }
                    }
                },
                _ => PostFlow::RollingBack { key: post.image_id },
            },
            PostFlow::RollingBack { key } => failed(PostFault::StoreFailed),
            PostFlow::DiscardingOld { post, old_image } => PostFlow::Finished {
                outcome: Ok(PostGrant::Updated(post)),
            },
            PostFlow::DeleteFetching { id } => match ev {
                PostEvent::Found(p) => {
                    if p.image_id.is_nil_spec() {
                        PostFlow::Erasing { id: p.id, image: p.image_id }
                    } else {
                        PostFlow::DiscardingImage { id: p.id, image: p.image_id }
                    }
                },
                PostEvent::Missing => failed(PostFault::NotFound),
                _ => failed(PostFault::LookupFailed),
            },
            PostFlow::DiscardingImage { id, image } => {
                if ev.succeeded() {
                    PostFlow::Erasing { id, image }
                } else {
                    failed(PostFault::DiscardFailed)
                }
            },
            PostFlow::Erasing { id, image } => {
                if ev.succeeded() {
                    PostFlow::Finished { outcome: Ok(PostGrant::Deleted) }
                } else {
                    failed(PostFault::EraseFailed)
                }
            },
            PostFlow::Finished { .. } => self,
        }
    }

    /// `a` is the step that the state `self` asks for.
    pub open spec fn asks(&self, a: PostAction) -> bool {
        match *self {
            PostFlow::UpdateFetching { id, .. } => a == PostAction::Fetch { id },
            PostFlow::UpdateStoring { post } => a == PostAction::Store { post },
            PostFlow::ImageFetching { id, .. } => a == PostAction::Fetch { id },
            PostFlow::Uploading { key, content_type, .. } => a == PostAction::Upload {
                key,
                content_type,
            },
            PostFlow::Repointing { post, .. } => a == PostAction::Store { post },
            PostFlow::RollingBack { key } => a == PostAction::Discard { key },
            PostFlow::DiscardingOld { old_image, .. } => a == PostAction::Discard { key: old_image },
            PostFlow::DeleteFetching { id } => a == PostAction::Fetch { id },
            PostFlow::DiscardingImage { image, .. } => a == PostAction::Discard { key: image },
            PostFlow::Erasing { id, .. } => a == PostAction::Erase { id },
            PostFlow::Finished { outcome } => match a {
                PostAction::Reply(r) => match outcome {
                    Ok(PostGrant::Updated(p)) => r matches Ok(PostGrant::Updated(q)) && q
                        == p,
                    Ok(PostGrant::Deleted) => r matches Ok(PostGrant::Deleted),
                    Err(f) => r matches Err(e) && e.status() == f.status(),
                },
                _ => false,
            },
        }
    }

    /// The request for the current state.
    fn action(&self) -> (r: PostAction)
        ensures
            self.asks(r),
    {
        match self {
            PostFlow::UpdateFetching { id, .. } => PostAction::Fetch { id: *id },
            PostFlow::UpdateStoring { post } => PostAction::Store { post: copy_post(post) },
            PostFlow::ImageFetching { id, .. } => PostAction::Fetch { id: *id },
            PostFlow::Uploading { key, content_type, .. } => PostAction::Upload {
                key: *key,
                content_type: content_type.clone(),
            },
            PostFlow::Repointing { post, .. } => PostAction::Store { post: copy_post(post) },
            PostFlow::RollingBack { key } => PostAction::Discard { key: *key },
            PostFlow::DiscardingOld { old_image, .. } => PostAction::Discard { key: *old_image },
            PostFlow::DeleteFetching { id } => PostAction::Fetch { id: *id },
            PostFlow::DiscardingImage { image, .. } => PostAction::Discard { key: *image },
            PostFlow::Erasing { id, .. } => PostAction::Erase { id: *id },
            PostFlow::Finished { outcome } => match outcome {
                Ok(PostGrant::Updated(p)) => PostAction::Reply(Ok(PostGrant::Updated(copy_post(p)))),
                Ok(PostGrant::Deleted) => PostAction::Reply(Ok(PostGrant::Deleted)),
                Err(f) => PostAction::Reply(Err(f.to_error())),
            },
        }
    }

    /// Advances the flow by the outcome of the step it asked for, and returns
    /// the new state with the step it asks for next.
    pub fn step(self, ev: PostEvent) -> (r: (PostFlow, PostAction))
        ensures
            r.0 == self.next(ev),
            r.0.asks(r.1),
    {
        let ghost old_self = self;
        let ghost old_ev = ev;
        let ok = match ev {
            PostEvent::Done => true,
            _ => false,
        };
        let next = match self {
            PostFlow::UpdateFetching { id, title, body } => match ev {
                PostEvent::Found(p) => PostFlow::UpdateStoring { post: Post { title, body, ..p } },
                PostEvent::Missing => PostFlow::Finished { outcome: Err(PostFault::NotFound) },
                _ => PostFlow::Finished { outcome: Err(PostFault::LookupFailed) },
            },
            PostFlow::UpdateStoring { post } => match ev {
                PostEvent::Stored(row) => PostFlow::Finished { outcome: Ok(PostGrant::Updated(row)) },
                _ => PostFlow::Finished { outcome: Err(PostFault::StoreFailed) },
            },
            PostFlow::ImageFetching { id, key, content_type } => match ev {
                PostEvent::Found(p) => PostFlow::Uploading { post: p, key, content_type },
                PostEvent::Missing => PostFlow::Finished { outcome: Err(PostFault::NotFound) },
                _ => PostFlow::Finished { outcome: Err(PostFault::LookupFailed) },
            },
            PostFlow::Uploading { post, key, content_type } => {
                if ok {
                    let old_image = post.image_id;
                    PostFlow::Repointing { post: Post { image_id: key, ..post }, old_image }
                } else {
                    PostFlow::Finished { outcome: Err(PostFault::UploadFailed) }
                }
            },
            PostFlow::Repointing { post, old_image } => match ev {
                PostEvent::Stored(row) => {
                    if old_image.is_nil() {
                        PostFlow::Finished { outcome: Ok(PostGrant::Updated(row)) }
                    } else {
                        PostFlow::DiscardingOld { post: row, old_image }
                    }
                },
                _ => PostFlow::RollingBack { key: post.image_id },
            },
            PostFlow::RollingBack { key } => PostFlow::Finished {
                outcome: Err(PostFault::StoreFailed),
            },
            PostFlow::DiscardingOld { post, old_image } => PostFlow::Finished {
                outcome: Ok(PostGrant::Updated(post)),
            },
            PostFlow::DeleteFetching { id } => match ev {
                PostEvent::Found(p) => {
                    if p.image_id.is_nil() {
                        PostFlow::Erasing { id: p.id, image: p.image_id }
                    } else {
                        PostFlow::DiscardingImage { id: p.id, image: p.image_id }
                    }
                },
                PostEvent::Missing => PostFlow::Finished { outcome: Err(PostFault::NotFound) },
                _ => PostFlow::Finished { outcome: Err(PostFault::LookupFailed) },
            },
            PostFlow::DiscardingImage { id, image } => {
                if ok {
                    PostFlow::Erasing { id, image }
                } else {
                    PostFlow::Finished { outcome: Err(PostFault::DiscardFailed) }
                }
            },
            PostFlow::Erasing { id, image } => {
                if ok {
                    PostFlow::Finished { outcome: Ok(PostGrant::Deleted) }
                } else {
                    PostFlow::Finished { outcome: Err(PostFault::EraseFailed) }
                }
            },
            PostFlow::Finished { outcome } => PostFlow::Finished { outcome },
        };
        assert(next == old_self.next(old_ev));
        let a = next.action();
        (next, a)
    }

    /// Starts an update of the post `post.id`: its title and body become
    /// those of `post`; nothing else of `post` is read.
    pub fn update(post: Post) -> (r: (PostFlow, PostAction))
        ensures
            r.0 == (PostFlow::UpdateFetching { id: post.id, title: post.title, body: post.body }),
            r.0.asks(r.1),
    {
        let flow = PostFlow::UpdateFetching { id: post.id, title: post.title, body: post.body };
        let a = flow.action();
        (flow, a)
    }

    /// Starts attaching an image of type `content_type` to the post `id`; the
    /// key of the new blob is drawn now.
    pub fn add_image(id: Uuid, content_type: String) -> (r: (PostFlow, PostAction))
        ensures
            r.0 matches PostFlow::ImageFetching { id: i, key, content_type: c } && i == id && c
                == content_type && !key.is_nil(),
            r.0.asks(r.1),
    {
        let key = Uuid::new_v4();
        let flow = PostFlow::ImageFetching { id, key, content_type };
        let a = flow.action();
        (flow, a)
    }

    /// Starts deleting the post `id` with its image.
    pub fn delete(id: Uuid) -> (r: (PostFlow, PostAction))
        ensures
            r.0 == (PostFlow::DeleteFetching { id }),
            r.0.asks(r.1),
    {
        let flow = PostFlow::DeleteFetching { id };
        let a = flow.action();
        (flow, a)
    }
}

/// A field-by-field copy of a post.
pub fn copy_post(p: &Post) -> (r: Post)
    ensures
        r == *p,
{
    Post {
        id: p.id,
        title: p.title.clone(),
        body: p.body.clone(),
        image_id: p.image_id,
        user_id: p.user_id,
        created_at: p.created_at,
        updated_at: p.updated_at,
    }
}

/// The post to create from a request made under `claims`: its author is the
/// token's subject, and it has no image yet.
pub fn post_for_author(dto: &PostRequestDto, claims: &TokenClaims) -> (r: Post)
    ensures
        r.user_id == claims.sub,
        r.title == dto.title,
        r.body == dto.body,
        r.image_id.is_nil(),
        r.id.is_nil(),
{
    Post {
        id: Uuid::nil(),
        title: dto.title.clone(),
        body: dto.body.clone(),
        image_id: Uuid::nil(),
        user_id: claims.sub,
        created_at: 0,
        updated_at: 0,
    }
}

} // verus!

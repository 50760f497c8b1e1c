//! Conversions between payloads and records.
use vstd::prelude::*;
use crate::dtos::{CommentRequestDto, CommentResponseDto, LoginRequestDto, PostRequestDto, PostResponseDto};
use crate::ids::{hyphenated, Uuid};
use crate::models::{Comment, Post, User};

verus! {

/// The path under which the image proxy serves an image.
pub const IMAGE_PATH: &'static str = "/assets/images/";

/// The public URL of a post's image, or nothing when it has none.
pub open spec fn image_url_of(image_id: Uuid) -> Seq<char> {
    if image_id.is_nil_spec() {
        Seq::empty()
    } else {
        IMAGE_PATH@ + hyphenated(image_id.value)
    }
}

/// A login attempt as a user record: only its email and password are set.
pub fn from_login_dto_to_user(dto: LoginRequestDto) -> (r: User)
    ensures
        r.email == dto.email,
        r.password == dto.password,
        r.username@ == Seq::<char>::empty(),
        r.id.is_nil(),
{
    User {
        id: Uuid::nil(),
        email: dto.email,
        username: String::new(),
        password: dto.password,
        created_at: 0,
        updated_at: 0,
    }
}

/// A new comment from its payload; ids and instants are left for the store.
pub fn from_dto_to_comment(dto: &CommentRequestDto) -> (r: Comment)
    ensures
        r.body == dto.body,
        r.post_id == dto.post_id,
        r.id.is_nil(),
        r.user_id.is_nil(),
{
    Comment {
        id: Uuid::nil(),
        body: dto.body.clone(),
        user_id: Uuid::nil(),
        post_id: dto.post_id,
        created_at: 0,
        updated_at: 0,
    }
}

pub fn from_comment_to_dto(model: &Comment) -> (r: CommentResponseDto)
    ensures
        r.id@ == hyphenated(model.id.value),
        r.body == model.body,
        r.user_id@ == hyphenated(model.user_id.value),
        r.post_id@ == hyphenated(model.post_id.value),
        r.created_at == model.created_at,
        r.updated_at == model.updated_at,
{
    CommentResponseDto {
        id: model.id.to_text(),
        body: model.body.clone(),
        user_id: model.user_id.to_text(),
        post_id: model.post_id.to_text(),
        created_at: model.created_at,
        updated_at: model.updated_at,
    }
}

/// A new post from its payload: no image, no author, ids and instants left
/// for the store.
pub fn from_dto_to_post(dto: &PostRequestDto) -> (r: Post)
    ensures
        r.title == dto.title,
        r.body == dto.body,
        r.id.is_nil(),
        r.image_id.is_nil(),
        r.user_id.is_nil(),
{
    Post {
        id: Uuid::nil(),
        title: dto.title.clone(),
        body: dto.body.clone(),
        image_id: Uuid::nil(),
        user_id: Uuid::nil(),
        created_at: 0,
        updated_at: 0,
    }
}

pub fn from_post_to_dto(model: &Post) -> (r: PostResponseDto)
    ensures
        r.id@ == hyphenated(model.id.value),
        r.title == model.title,
        r.body == model.body,
        r.image_url@ == image_url_of(model.image_id),
        r.user_id@ == hyphenated(model.user_id.value),
        r.created_at == model.created_at,
        r.updated_at == model.updated_at,
{
    let image_url = if !model.image_id.is_nil() {
        let mut url = String::from_str(IMAGE_PATH);
        let text = model.image_id.to_text();
        url.append(text.as_str());
        url
    } else {
        String::new()
    };
    PostResponseDto {
        id: model.id.to_text(),
        title: model.title.clone(),
        body: model.body.clone(),
        image_url,
        user_id: model.user_id.to_text(),
        created_at: model.created_at,
        updated_at: model.updated_at,
    }
}

/// Applies `transform` to each model, in order.
pub fn from_model_to_dto_list<MODEL, DTO, F>(models: Vec<MODEL>, transform: F) -> (r: Vec<DTO>) where
    F: Fn(&MODEL) -> DTO,

    requires
        forall|i: int| 0 <= i < models.len() ==> transform.requires((&models[i],)),
    ensures
        r.len() == models.len(),
        forall|i: int| 0 <= i < models.len() ==> transform.ensures((&models[i],), #[trigger] r[i]),
{
    let mut out: Vec<DTO> = Vec::new();
    let mut i: usize = 0;
    while i < models.len()
        invariant
            i <= models.len(),
            out.len() == i,
            forall|j: int| 0 <= j < models.len() ==> transform.requires((&models[j],)),
            forall|j: int| 0 <= j < i ==> transform.ensures((&models[j],), #[trigger] out[j]),
        decreases models.len() - i,
    {
        let d = transform(&models[i]);
        out.push(d);
        i = i + 1;
    }
    out
}

} // verus!

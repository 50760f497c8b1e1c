//! Request and response payloads, in the shape the HTTP edge exchanges.
use vstd::prelude::*;
use crate::ids::Uuid;

verus! {

#[derive(Debug)]
pub struct LoginRequestDto {
    pub email: String,
    pub password: String,
}

#[derive(Debug)]
pub struct PostRequestDto {
    pub title: String,
    pub body: String,
}

#[derive(Debug)]
pub struct TokenRefreshRequestDto {
    pub refresh_token: String,
}

#[derive(Debug)]
pub struct CommentRequestDto {
    pub body: String,
    pub post_id: Uuid,
}

/// The body of every error response: `{"error": <message>}`.
#[derive(Debug)]
pub struct ErrorResponseDto {
    pub error: String,
}

/// The token pair handed out by login and refresh.
#[derive(Debug)]
pub struct TokensResponseDto {
    pub access_token: String,
    pub refresh_token: String,
}

/// A post as shown to clients; `image_url` is empty when there is no image.
#[derive(Debug)]
pub struct PostResponseDto {
    pub id: String,
    pub title: String,
    pub body: String,
    pub image_url: String,
    pub user_id: String,
    pub updated_at: i64,
    pub created_at: i64,
}

#[derive(Debug)]
pub struct CommentResponseDto {
    pub id: String,
    pub body: String,
    pub user_id: String,
    pub post_id: String,
    pub updated_at: i64,
    pub created_at: i64,
}

impl TokensResponseDto {
    /// A field-by-field copy.
    pub fn duplicate(&self) -> (r: TokensResponseDto)
        ensures
            r == *self,
    {
        TokensResponseDto {
            access_token: self.access_token.clone(),
            refresh_token: self.refresh_token.clone(),
        }
    }
}

} // verus!

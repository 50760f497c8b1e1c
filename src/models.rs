//! Persistent records. Instants are microseconds since the Unix epoch.
use vstd::prelude::*;
use crate::ids::Uuid;

verus! {

/// A user account; `password` holds a bcrypt verifier, never the cleartext.
#[derive(Debug)]
pub struct User {
    pub id: Uuid,
    pub email: String,
    pub username: String,
    pub password: String,
    pub created_at: i64,
    pub updated_at: i64,
}

/// The fields of a user that is about to be created.
#[derive(Debug)]
pub struct CreateUser {
    pub email: String,
    pub username: String,
    pub password: String,
}

/// A post; a nil `image_id` means that it has no image.
#[derive(Debug)]
pub struct Post {
    pub id: Uuid,
    pub title: String,
    pub body: String,
    pub image_id: Uuid,
    pub user_id: Uuid,
    pub created_at: i64,
    pub updated_at: i64,
}

/// A comment on the post `post_id`.
#[derive(Debug)]
pub struct Comment {
    pub id: Uuid,
    pub body: String,
    pub user_id: Uuid,
    pub post_id: Uuid,
    pub created_at: i64,
    pub updated_at: i64,
}

} // verus!

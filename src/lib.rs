//! A small blogging service core: sessions built from signed tokens plus a
//! revocation registry, and posts whose images live in a blob store.

pub mod ids;
pub mod error;
pub mod bearer;
pub mod claims;
pub mod registry;
pub mod models;
pub mod dtos;
pub mod password;
pub mod session;
pub mod session_laws;
pub mod posts;
pub mod post_laws;
pub mod mappers;
pub mod comments;
pub mod settings;
pub mod response;

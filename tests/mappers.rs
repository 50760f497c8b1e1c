use rust_blog::claims::{TokenClaims, TokenKind};
use rust_blog::comments::{apply_comment_update, comment_for_author};
use rust_blog::dtos::{CommentRequestDto, LoginRequestDto};
use rust_blog::ids::Uuid;
use rust_blog::mappers::{from_comment_to_dto, from_dto_to_comment, from_login_dto_to_user, from_model_to_dto_list, from_post_to_dto};
use rust_blog::models::{Comment, Post};
use rust_blog::settings::Settings;

fn post(image: u128) -> Post {
    Post {
        id: Uuid::from_u128(1),
        title: "t".to_string(),
        body: "b".to_string(),
        image_id: Uuid::from_u128(image),
        user_id: Uuid::from_u128(2),
        created_at: 5,
        updated_at: 6,
    }
}

#[test]
fn post_dto_shows_image_url_only_with_an_image() {
    let d = from_post_to_dto(&post(0));
    assert_eq!(d.image_url, "");
    assert_eq!(d.id, "00000000-0000-0000-0000-000000000001");
    assert_eq!(d.user_id, "00000000-0000-0000-0000-000000000002");
    assert_eq!((d.created_at, d.updated_at), (5, 6));
    let d = from_post_to_dto(&post(0xabc));
    assert_eq!(d.image_url, "/assets/images/00000000-0000-0000-0000-000000000abc");
}

#[test]
fn list_mapping_keeps_order_and_length() {
    let out = from_model_to_dto_list(vec![post(0), post(3)], from_post_to_dto);
    assert_eq!(out.len(), 2);
    assert_eq!(out[0].image_url, "");
    assert_eq!(out[1].image_url, "/assets/images/00000000-0000-0000-0000-000000000003");
    let empty: Vec<Post> = Vec::new();
    assert!(from_model_to_dto_list(empty, from_post_to_dto).is_empty());
    let doubled = from_model_to_dto_list(vec![1u32, 2, 3], |x: &u32| x * 2);
    assert_eq!(doubled, vec![2, 4, 6]);
}

#[test]
fn login_dto_becomes_a_bare_user() {
    let u = from_login_dto_to_user(LoginRequestDto { email: "a@b.c".to_string(), password: "pw".to_string() });
    assert_eq!(u.email, "a@b.c");
    assert_eq!(u.password, "pw");
    assert_eq!(u.username, "");
    assert!(u.id.is_nil());
}

#[test]
fn comments_take_author_and_keep_fields_on_update() {
    let claims = TokenClaims::issue(Uuid::from_u128(9), Uuid::from_u128(8), TokenKind::Access, 0);
    let dto = CommentRequestDto { body: "hi".to_string(), post_id: Uuid::from_u128(4) };
    let c = comment_for_author(&dto, &claims);
    assert_eq!(c.user_id, Uuid::from_u128(9));
    assert_eq!(c.post_id, Uuid::from_u128(4));
    assert_eq!(c.body, "hi");
    let plain = from_dto_to_comment(&dto);
    assert!(plain.user_id.is_nil());
    let stored = Comment { id: Uuid::from_u128(1), body: "old".to_string(), user_id: Uuid::from_u128(9), post_id: Uuid::from_u128(4), created_at: 1, updated_at: 2 };
    let incoming = Comment { id: Uuid::from_u128(1), body: "new".to_string(), user_id: Uuid::from_u128(7), post_id: Uuid::from_u128(6), created_at: 0, updated_at: 0 };
    let merged = apply_comment_update(stored, incoming);
    assert_eq!(merged.body, "new");
    assert_eq!(merged.user_id, Uuid::from_u128(9));
    assert_eq!(merged.post_id, Uuid::from_u128(4));
    assert_eq!(merged.created_at, 1);
    let d = from_comment_to_dto(&merged);
    assert_eq!(d.post_id, "00000000-0000-0000-0000-000000000004");
    assert_eq!(d.body, "new");
}

#[test]
fn public_object_url_joins_address_bucket_and_key() {
    let s = Settings {
        postgres_dsn: String::new(),
        redis_addr: String::new(),
        redis_password: String::new(),
        minio_addr: String::new(),
        minio_public_addr: "http://minio:9000".to_string(),
        minio_access_key: String::new(),
        minio_secret_key: String::new(),
        minio_bucket_name: "images".to_string(),
        public_key: String::new(),
        private_key: String::new(),
        access_secret: String::new(),
        refresh_secret: String::new(),
    };
    assert_eq!(s.public_object_url("abc"), "http://minio:9000/images/abc");
}

use rust_blog::claims::{TokenClaims, TokenKind, ACCESS_LIFETIME_SECS, ISSUER, REFRESH_LIFETIME_SECS};
use rust_blog::ids::Uuid;
use rust_blog::registry::EntryKey;

#[test]
fn lifetimes_are_one_hour_and_seven_days() {
    assert_eq!(ACCESS_LIFETIME_SECS, 3600);
    assert_eq!(REFRESH_LIFETIME_SECS, 7 * 24 * 3600);
    assert_eq!(TokenKind::Access.lifetime(), 3600);
    assert_eq!(TokenKind::Refresh.lifetime(), 604800);
}

#[test]
fn access_claims_are_issued_for_one_hour() {
    let c = TokenClaims::issue(Uuid::from_u128(7), Uuid::from_u128(9), TokenKind::Access, 1_700_000_000);
    assert_eq!(c.iss, ISSUER);
    assert_eq!(c.iss, "rustblog");
    assert_eq!(c.sub, Uuid::from_u128(7));
    assert_eq!(c.jti, Uuid::from_u128(9));
    assert_eq!(c.iat, 1_700_000_000);
    assert_eq!(c.exp, 1_700_003_600);
    assert!(!c.is_refresh);
    assert_eq!(c.kind(), TokenKind::Access);
}

#[test]
fn refresh_claims_are_issued_for_seven_days() {
    let c = TokenClaims::issue(Uuid::from_u128(7), Uuid::from_u128(9), TokenKind::Refresh, 100);
    assert_eq!(c.exp, 100 + 604800);
    assert!(c.is_refresh);
    assert_eq!(c.kind(), TokenKind::Refresh);
    let d = c.duplicate();
    assert_eq!(d.iss, c.iss);
    assert_eq!(d.exp, c.exp);
}

#[test]
fn registry_keys_name_user_session_and_kind() {
    let user = Uuid::from_u128(0x11111111_2222_3333_4444_555555555555);
    let jti = Uuid::from_u128(0xaaaaaaaa_bbbb_cccc_dddd_eeeeeeeeeeee);
    let at = EntryKey::new(user, jti, TokenKind::Access);
    let rt = EntryKey::new(user, jti, TokenKind::Refresh);
    assert_eq!(
        at.to_key(),
        "11111111-2222-3333-4444-555555555555.aaaaaaaa-bbbb-cccc-dddd-eeeeeeeeeeee.at"
    );
    assert_eq!(
        rt.to_key(),
        "11111111-2222-3333-4444-555555555555.aaaaaaaa-bbbb-cccc-dddd-eeeeeeeeeeee.rt"
    );
    assert_eq!(at.ttl_secs(), 3600);
    assert_eq!(rt.ttl_secs(), 604800);
}

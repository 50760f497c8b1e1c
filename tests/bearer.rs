use rust_blog::bearer::{get_bearer_token, white_space};
use rust_blog::error::Error;

#[test]
fn bearer_token_is_extracted() {
    let r = get_bearer_token("Bearer abc.def.ghi".to_string());
    assert_eq!(r.unwrap(), "abc.def.ghi");
}

#[test]
fn bearer_token_tolerates_surrounding_white_space() {
    let r = get_bearer_token("  Bearer \t tok123 \n".to_string());
    assert_eq!(r.unwrap(), "tok123");
    let r = get_bearer_token("Bearer\u{3000}tok".to_string());
    assert_eq!(r.unwrap(), "tok");
}

#[test]
fn bearer_token_missing_is_unauthorized() {
    for h in ["", "Bearer", "Bearer   ", "Basic abc", "bearer abc", "Bearer a b", "Bearerabc", "tok"] {
        match get_bearer_token(h.to_string()) {
            Err(Error::Unauthorized(m)) => {
                assert_eq!(m, "Bearer token was not found inside Authentication header.")
            }
            other => panic!("unexpected result for {:?}: {:?}", h, other),
        }
    }
}

#[test]
fn white_space_matches_std() {
    for c in ['\t', '\n', '\u{b}', '\u{c}', '\r', ' ', '\u{85}', '\u{a0}', '\u{1680}', '\u{2000}',
              '\u{200a}', '\u{2028}', '\u{2029}', '\u{202f}', '\u{205f}', '\u{3000}', 'a', 'B', '.',
              '\u{200b}', '\u{1f600}', '0'] {
        assert_eq!(white_space(c), c.is_whitespace(), "{:?}", c);
    }
}

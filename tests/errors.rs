use rust_blog::error::Error;
use rust_blog::response::{error_response, to_response, to_response_with_no_content};

#[test]
fn error_codes_and_messages() {
    let cases = [
        (Error::BadRequest("a".to_string()), 400, "a"),
        (Error::Unauthorized("b".to_string()), 401, "b"),
        (Error::Forbidden("c".to_string()), 403, "c"),
        (Error::NotFound("d".to_string()), 404, "d"),
        (Error::InternalServerError("e".to_string()), 500, "e"),
    ];
    for (e, code, msg) in cases {
        assert_eq!(e.code(), code);
        assert_eq!(e.message(), msg);
    }
}

#[test]
fn error_response_body() {
    let (code, body) = error_response(&Error::NotFound("Not found.".to_string()));
    assert_eq!(code, 404);
    assert_eq!(body.error, "Not found.");
}

#[test]
fn to_response_maps_success_and_failure() {
    let ok: Result<u32, Error> = Ok(20);
    match to_response(ok, |v| v + 1) {
        Ok((code, v)) => {
            assert_eq!(code, 200);
            assert_eq!(v, 21);
        }
        Err(_) => panic!("expected success"),
    }
    let err: Result<u32, Error> = Err(Error::Unauthorized("no".to_string()));
    match to_response(err, |v| v + 1) {
        Err((code, body)) => {
            assert_eq!(code, 401);
            assert_eq!(body.error, "no");
        }
        Ok(_) => panic!("expected failure"),
    }
}

#[test]
fn to_response_with_no_content_maps_success_and_failure() {
    assert_eq!(to_response_with_no_content(Ok(())).unwrap(), 204);
    match to_response_with_no_content(Err(Error::InternalServerError("x".to_string()))) {
        Err((code, body)) => {
            assert_eq!(code, 500);
            assert_eq!(body.error, "x");
        }
        Ok(_) => panic!("expected failure"),
    }
}

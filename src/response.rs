//! How a service result becomes an HTTP status and body.
use vstd::prelude::*;
use crate::dtos::ErrorResponseDto;
use crate::error::Error;

verus! {

/// The status and `{"error": ...}` body that report `error`.
pub fn error_response(error: &Error) -> (r: (u16, ErrorResponseDto))
    ensures
        r.0 == error.status(),
        r.1.error@ == error.text(),
{
    (error.code(), ErrorResponseDto { error: error.message() })
}

/// 200 with `op` applied to a success; the error's status and message
/// otherwise.
pub fn to_response<T, U, F: FnOnce(T) -> U>(result: Result<T, Error>, op: F) -> (r: Result<
    (u16, U),
    (u16, ErrorResponseDto),
>)
    requires
        result matches Ok(v) ==> op.requires((v,)),
    ensures
        result matches Ok(v) ==> (r matches Ok((code, u)) && code == 200 && op.ensures((v,), u)),
        result matches Err(e) ==> (r matches Err((code, body)) && code == e.status() && body.error@
            == e.text()),
{
    match result {
        Ok(value) => Ok((200, op(value))),
        Err(error) => Err(error_response(&error)),
    }
}

/// 204 for a success; the error's status and message otherwise.
pub fn to_response_with_no_content(result: Result<(), Error>) -> (r: Result<
    u16,
    (u16, ErrorResponseDto),
>)
    ensures
        result is Ok ==> r == Ok::<u16, (u16, ErrorResponseDto)>(204),
        result matches Err(e) ==> (r matches Err((code, body)) && code == e.status() && body.error@
            == e.text()),
{
    match result {
        Ok(()) => Ok(204),
        Err(error) => Err(error_response(&error)),
    }
}

} // verus!

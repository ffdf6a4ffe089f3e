//! The status and headers of the API's responses.
use vstd::prelude::*;

use crate::errors::ApiError;
use crate::string_map::StringMap;
use crate::{CacheControl, ErrResponse};

verus! {

/// Status code of a successful response.
pub const OK: u16 = 200;

/// Status code of a temporary redirect.
pub const TEMPORARY_REDIRECT: u16 = 307;

/// Status code of a request with a method that the endpoint does not serve.
pub const METHOD_NOT_ALLOWED: u16 = 405;

/// The status and headers of a response.
pub struct ResponseHead {
    pub status: u16,
    pub headers: StringMap,
}

/// The headers of a JSON response with the given cache policy.
pub open spec fn json_headers(cache: CacheControl) -> Map<Seq<char>, Seq<char>> {
    Map::empty().insert("content-type"@, "application/json"@).insert(
        "cache-control"@,
        cache.header_text(),
    )
}

/// The head of a JSON response: its status, the JSON content type and the
/// cache policy.
pub fn json_response(status: u16, cache: CacheControl) -> (r: ResponseHead)
    ensures
        r.status == status,
        r.headers@ == json_headers(cache),
{
    let mut headers = StringMap::new();
    headers.insert("content-type".to_owned(), "application/json".to_owned());
    headers.insert("cache-control".to_owned(), cache.get_header().to_owned());
    ResponseHead { status, headers }
}

/// The head of a successful JSON response.
pub fn ok_json(cache: CacheControl) -> (r: ResponseHead)
    ensures
        r.status == OK,
        r.headers@ == json_headers(cache),
{
    json_response(OK, cache)
}

/// The response to an error: the error's status code, never cached, with
/// the error's text as the message of the body.
pub fn err_json<T: ApiError>(error: &T) -> (r: (ResponseHead, ErrResponse))
    ensures
        r.0.status == error.spec_status_code(),
        r.0.headers@ == json_headers(CacheControl::NoStore),
        r.1.message@ == error.spec_message(),
{
    let head = json_response(error.status_code(), CacheControl::NoStore);
    (head, ErrResponse { message: error.message() })
}

/// The head of a temporary redirect to `to` with the given cache policy.
pub fn redirect(to: &str, cache: CacheControl) -> (r: ResponseHead)
    ensures
        r.status == TEMPORARY_REDIRECT,
        r.headers@ == Map::<Seq<char>, Seq<char>>::empty().insert(
            "cache-control"@,
            cache.header_text(),
        ).insert("location"@, to@),
{
    let mut headers = StringMap::new();
    headers.insert("cache-control".to_owned(), cache.get_header().to_owned());
    headers.insert("location".to_owned(), to.to_owned());
    ResponseHead { status: TEMPORARY_REDIRECT, headers }
}

/// The head of the response to a request with a method that is not served.
pub fn method_not_allowed() -> (r: ResponseHead)
    ensures
        r.status == METHOD_NOT_ALLOWED,
        r.headers@ == Map::<Seq<char>, Seq<char>>::empty(),
{
    ResponseHead { status: METHOD_NOT_ALLOWED, headers: StringMap::new() }
}

} // verus!

//! Errors of the API and the HTTP status codes they are answered with.
use vstd::prelude::*;
use vstd::std_specs::convert::FromSpecImpl;
use vstd::string::*;

use crate::text::{decimal, push_decimal};

verus! {

/// Status code of a response whose resource is missing.
pub const NOT_FOUND: u16 = 404;

/// Status code of a malformed request.
pub const BAD_REQUEST: u16 = 400;

/// Status code of a failure of this API itself.
pub const INTERNAL_SERVER_ERROR: u16 = 500;

/// Status code of a failure of an upstream service.
pub const BAD_GATEWAY: u16 = 502;

/// An error that the API answers with a status code and a message.
pub trait ApiError {
    /// The HTTP status code of the response.
    spec fn spec_status_code(&self) -> u16;

    /// The HTTP status code of the response.
    fn status_code(&self) -> (r: u16)
        ensures
            r == self.spec_status_code(),
    ;

    /// The text of the error, shown in the response.
    spec fn spec_message(&self) -> Seq<char>;

    /// The text of the error, shown in the response.
    fn message(&self) -> (r: String)
        ensures
            r@ == self.spec_message(),
    ;
}

/// An upstream HTTP request that failed, with the status code of the
/// response when one was received.
#[derive(Clone, Copy, PartialEq, Eq, Structural, Debug)]
pub struct RequestFailure {
    pub status: Option<u16>,
}

/// What went wrong with an upstream request.
#[derive(Clone, Copy, PartialEq, Eq, Structural, Debug)]
pub enum FailureKind {
    NotFound,
    ServerError,
    ClientError,
    NetworkError,
}

/// A status code in the 5xx class.
pub open spec fn is_server_error(status: u16) -> bool {
    500 <= status < 600
}

/// A status code in the 4xx class.
pub open spec fn is_client_error(status: u16) -> bool {
    400 <= status < 500
}

/// The kind of a failed request: a 404 response, a 5xx response, another 4xx
/// response, or no response (or any other status).
pub open spec fn kind_of_status(status: Option<u16>) -> FailureKind {
    match status {
        Some(s) => if s == 404 {
            FailureKind::NotFound
        } else if is_server_error(s) {
            FailureKind::ServerError
        } else if is_client_error(s) {
            FailureKind::ClientError
        } else {
            FailureKind::NetworkError
        },
        None => FailureKind::NetworkError,
    }
}

/// The status code that this API answers with for an upstream failure.
pub open spec fn answer_for_status(status: Option<u16>) -> u16 {
    match kind_of_status(status) {
        FailureKind::NotFound => NOT_FOUND,
        FailureKind::ServerError => BAD_GATEWAY,
        FailureKind::ClientError => INTERNAL_SERVER_ERROR,
        FailureKind::NetworkError => INTERNAL_SERVER_ERROR,
    }
}

/// A failed upstream request is a missing resource exactly when the status
/// is 404, a server error exactly for a status from 500 to 599, a client
/// error for any other status from 400 to 499, and a network error when
/// there is no status or any other one; the API answers 404, 502, 500 and
/// 500 for these.
pub proof fn lemma_failure_kinds_by_status(status: Option<u16>)
    ensures
        (kind_of_status(status) == FailureKind::NotFound) <==> status == Some(404u16),
        (kind_of_status(status) == FailureKind::ServerError) <==> (status matches Some(s) && 500 <= s
            <= 599),
        (kind_of_status(status) == FailureKind::ClientError) <==> (status matches Some(s) && 400 <= s
            <= 499 && s != 404),
        (kind_of_status(status) == FailureKind::NetworkError) <==> (status is None || (status matches Some(
            s,
        ) && !(400 <= s <= 599))),
        status == Some(404u16) ==> answer_for_status(status) == 404,
        status matches Some(s) && 500 <= s <= 599 ==> answer_for_status(status) == 502,
        status != Some(404u16) && !(status matches Some(s) && 500 <= s <= 599) ==> answer_for_status(
            status,
        ) == 500,
{
}

impl RequestFailure {
    /// The kind of this failure.
    pub fn kind(&self) -> (r: FailureKind)
        ensures
            r == kind_of_status(self.status),
    {
        match self.status {
            Some(s) => if s == 404 {
                FailureKind::NotFound
            } else if 500 <= s && s < 600 {
                FailureKind::ServerError
            } else if 400 <= s && s < 500 {
                FailureKind::ClientError
            } else {
                FailureKind::NetworkError
            },
            None => FailureKind::NetworkError,
        }
    }
}

/// The debug rendering of an optional status code, such as `Some(404)` or `None`.
pub open spec fn status_debug_text(status: Option<u16>) -> Seq<char> {
    match status {
        Some(s) => "Some("@ + decimal(s as nat) + ")"@,
        None => "None"@,
    }
}

/// Appends the debug rendering of an optional status code to `s`.
pub fn push_status_debug(s: &mut String, status: Option<u16>)
    ensures
        final(s)@ == old(s)@ + status_debug_text(status),
{
    match status {
        Some(code) => {
            s.append("Some(");
            push_decimal(s, code as u64);
            s.append(")");
        },
        None => {
            s.append("None");
        },
    }
}

/// The text `prefix` followed by the debug rendering of a status code.
pub fn text_with_status(prefix: &str, status: Option<u16>) -> (r: String)
    ensures
        r@ == prefix@ + status_debug_text(status),
{
    let mut r = prefix.to_owned();
    push_status_debug(&mut r, status);
    r
}

#[verifier::external_type_specification]
#[verifier::external_body]
pub struct ExUrlParseError(url::ParseError);

/// The text that `Display` writes for a `url::ParseError`.
pub uninterp spec fn url_parse_error_display(error: url::ParseError) -> Seq<char>;

/// The fixed texts that `url` writes for its parse errors, one per variant.
pub open spec fn is_url_parse_error_text(text: Seq<char>) -> bool {
    text == "empty host"@
        || text == "invalid international domain name"@
        || text == "invalid port number"@
        || text == "invalid IPv4 address"@
        || text == "invalid IPv6 address"@
        || text == "invalid domain character"@
        || text == "relative URL without a base"@
        || text == "relative URL with a cannot-be-a-base base"@
        || text == "a cannot-be-a-base URL doesn\u{2019}t have a host to set"@
        || text == "URLs more than 4 GB are not supported"@
}

/// Calls `Display::to_string` on a `url::ParseError`. Claimed: the text is the
/// error's `Display` text, which depends on the error alone, and it is one of
/// the fixed texts that `url` gives its error variants.
#[verifier::external_body]
fn url_parse_error_text(error: &url::ParseError) -> (r: String)
    ensures
        r@ == url_parse_error_display(*error),
        is_url_parse_error_text(r@),
{
    error.to_string()
}

/// Errors of the API itself.
pub enum CoreError {
    UrlParse(url::ParseError),
}

impl From<url::ParseError> for CoreError {
    fn from(value: url::ParseError) -> (r: Self) {
        CoreError::UrlParse(value)
    }
}

impl FromSpecImpl<url::ParseError> for CoreError {
    open spec fn obeys_from_spec() -> bool {
        true
    }

    open spec fn from_spec(v: url::ParseError) -> Self {
        CoreError::UrlParse(v)
    }
}

impl ApiError for CoreError {
    open spec fn spec_status_code(&self) -> u16 {
        BAD_REQUEST
    }

    fn status_code(&self) -> (r: u16) {
        match self {
            CoreError::UrlParse(_) => BAD_REQUEST,
        }
    }

    /// The text of the error: that of the URL error.
    open spec fn spec_message(&self) -> Seq<char> {
        match self {
            CoreError::UrlParse(err) => url_parse_error_display(*err),
        }
    }

    fn message(&self) -> (r: String)
        ensures
            is_url_parse_error_text(r@),
    {
        match self {
            CoreError::UrlParse(err) => url_parse_error_text(err),
        }
    }
}

} // verus!

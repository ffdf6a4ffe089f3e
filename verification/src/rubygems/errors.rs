//! Errors of the requests to the RubyGems API.
use vstd::prelude::*;

use crate::errors::{
    kind_of_status, status_debug_text, text_with_status, ApiError, FailureKind, RequestFailure,
    BAD_GATEWAY, INTERNAL_SERVER_ERROR, NOT_FOUND,
};

verus! {

/// An error of a request to the RubyGems API.
#[derive(Debug)]
pub enum RubyGemsError {
    ResourceNotFound { source: Option<RequestFailure> },
    ClientError { source: RequestFailure },
    ServerError { source: RequestFailure },
    NetworkError { source: RequestFailure },
}

impl RubyGemsError {
    /// The error for a failed request, by the status code of its response.
    pub open spec fn spec_from_failure(failure: RequestFailure) -> Self {
        match kind_of_status(failure.status) {
            FailureKind::NotFound => RubyGemsError::ResourceNotFound { source: Some(failure) },
            FailureKind::ServerError => RubyGemsError::ServerError { source: failure },
            FailureKind::ClientError => RubyGemsError::ClientError { source: failure },
            FailureKind::NetworkError => RubyGemsError::NetworkError { source: failure },
        }
    }


    /// Classifies a failed request: a 404 response is a missing resource, a 5xx
    /// response a server error, another 4xx response a client error, and
    /// anything else a network error.
    pub fn from_failure(failure: RequestFailure) -> (r: Self)
        ensures
            r == Self::spec_from_failure(failure),
    {
        match failure.kind() {
            FailureKind::NotFound => RubyGemsError::ResourceNotFound { source: Some(failure) },
            FailureKind::ServerError => RubyGemsError::ServerError { source: failure },
            FailureKind::ClientError => RubyGemsError::ClientError { source: failure },
            FailureKind::NetworkError => RubyGemsError::NetworkError { source: failure },
        }
    }
}

impl ApiError for RubyGemsError {
    /// The status code of the response for this error.
    open spec fn spec_status_code(&self) -> u16 {
        match self {
            RubyGemsError::ResourceNotFound { .. } => NOT_FOUND,
            RubyGemsError::ClientError { .. } => INTERNAL_SERVER_ERROR,
            RubyGemsError::NetworkError { .. } => INTERNAL_SERVER_ERROR,
            RubyGemsError::ServerError { .. } => BAD_GATEWAY,
        }
    }

    fn status_code(&self) -> (r: u16) {
        match self {
            RubyGemsError::ResourceNotFound { .. } => NOT_FOUND,
            RubyGemsError::ClientError { .. } | RubyGemsError::NetworkError { .. } => INTERNAL_SERVER_ERROR,
            RubyGemsError::ServerError { .. } => BAD_GATEWAY,
        }
    }

    /// The text of this error.
    open spec fn spec_message(&self) -> Seq<char> {
        match self {
            RubyGemsError::ResourceNotFound { .. } => "The requested resource was not found when interfacing with RubyGems API."@,
            RubyGemsError::ClientError { source } => "Client error. "@ + status_debug_text(source.status),
            RubyGemsError::ServerError { source } => "RubyGems API had a server error. "@ + status_debug_text(
                source.status,
            ),
            RubyGemsError::NetworkError { source } => "Network error. "@ + status_debug_text(source.status),
        }
    }

    fn message(&self) -> (r: String)
    {
        match self {
            RubyGemsError::ResourceNotFound { .. } => "The requested resource was not found when interfacing with RubyGems API.".to_owned(),
            RubyGemsError::ClientError { source } => text_with_status("Client error. ", source.status),
            RubyGemsError::ServerError { source } => text_with_status(
                "RubyGems API had a server error. ",
                source.status,
            ),
            RubyGemsError::NetworkError { source } => text_with_status("Network error. ", source.status),
        }
    }
}

/// A failed request is answered with 404 when the upstream response was a
/// 404, with 502 when it was a 5xx, and with 500 otherwise.
pub proof fn lemma_rubygems_failure_answer(failure: RequestFailure)
    ensures
        RubyGemsError::spec_from_failure(failure).spec_status_code() == crate::errors::answer_for_status(
            failure.status,
        ),
{
}

} // verus!

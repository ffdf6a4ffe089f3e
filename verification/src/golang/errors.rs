//! Errors of the requests to the Golang Proxy API.
use vstd::prelude::*;

use crate::errors::{
    kind_of_status, status_debug_text, text_with_status, ApiError, FailureKind, RequestFailure,
    BAD_GATEWAY, INTERNAL_SERVER_ERROR, NOT_FOUND,
};

verus! {

/// An error of a request to the Golang Proxy API.
#[derive(Debug)]
pub enum GolangError {
    ResourceNotFound { source: Option<RequestFailure> },
    ClientError { source: RequestFailure },
    ServerError { source: RequestFailure },
    NetworkError { source: RequestFailure },
}

impl GolangError {
    /// The error for a failed request, by the status code of its response.
    pub open spec fn spec_from_failure(failure: RequestFailure) -> Self {
        match kind_of_status(failure.status) {
            FailureKind::NotFound => GolangError::ResourceNotFound { source: Some(failure) },
            FailureKind::ServerError => GolangError::ServerError { source: failure },
            FailureKind::ClientError => GolangError::ClientError { source: failure },
            FailureKind::NetworkError => GolangError::NetworkError { source: failure },
        }
    }


    /// Classifies a failed request: a 404 response is a missing resource, a 5xx
    /// response a server error, another 4xx response a client error, and
    /// anything else a network error.
    pub fn from_failure(failure: RequestFailure) -> (r: Self)
        ensures
            r == Self::spec_from_failure(failure),
    {
        match failure.kind() {
            FailureKind::NotFound => GolangError::ResourceNotFound { source: Some(failure) },
            FailureKind::ServerError => GolangError::ServerError { source: failure },
            FailureKind::ClientError => GolangError::ClientError { source: failure },
            FailureKind::NetworkError => GolangError::NetworkError { source: failure },
        }
    }
}

impl ApiError for GolangError {
    /// The status code of the response for this error.
    open spec fn spec_status_code(&self) -> u16 {
        match self {
            GolangError::ResourceNotFound { .. } => NOT_FOUND,
            GolangError::ClientError { .. } => INTERNAL_SERVER_ERROR,
            GolangError::NetworkError { .. } => INTERNAL_SERVER_ERROR,
            GolangError::ServerError { .. } => BAD_GATEWAY,
        }
    }

    fn status_code(&self) -> (r: u16) {
        match self {
            GolangError::ResourceNotFound { .. } => NOT_FOUND,
            GolangError::ClientError { .. } | GolangError::NetworkError { .. } => INTERNAL_SERVER_ERROR,
            GolangError::ServerError { .. } => BAD_GATEWAY,
        }
    }

    /// The text of this error.
    open spec fn spec_message(&self) -> Seq<char> {
        match self {
            GolangError::ResourceNotFound { .. } => "The requested resource was not found when interfacing with Golang Proxy API."@,
            GolangError::ClientError { source } => "Client error. "@ + status_debug_text(source.status),
            GolangError::ServerError { source } => "Golang Proxy API had a server error. "@ + status_debug_text(
                source.status,
            ),
            GolangError::NetworkError { source } => "Network error. "@ + status_debug_text(source.status),
        }
    }

    fn message(&self) -> (r: String)
    {
        match self {
            GolangError::ResourceNotFound { .. } => "The requested resource was not found when interfacing with Golang Proxy API.".to_owned(),
            GolangError::ClientError { source } => text_with_status("Client error. ", source.status),
            GolangError::ServerError { source } => text_with_status(
                "Golang Proxy API had a server error. ",
                source.status,
            ),
            GolangError::NetworkError { source } => text_with_status("Network error. ", source.status),
        }
    }
}

/// A failed request is answered with 404 when the upstream response was a
/// 404, with 502 when it was a 5xx, and with 500 otherwise.
pub proof fn lemma_golang_failure_answer(failure: RequestFailure)
    ensures
        GolangError::spec_from_failure(failure).spec_status_code() == crate::errors::answer_for_status(
            failure.status,
        ),
{
}

} // verus!

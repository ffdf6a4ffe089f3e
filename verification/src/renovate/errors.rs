//! Errors of the requests to the Renovate API.
use vstd::prelude::*;

use crate::errors::{
    kind_of_status, status_debug_text, text_with_status, ApiError, FailureKind, RequestFailure,
    BAD_GATEWAY, INTERNAL_SERVER_ERROR, NOT_FOUND,
};

verus! {

/// An error of a request to the Renovate API.
#[derive(Debug)]
pub enum RenovateError {
    ResourceNotFound { source: Option<RequestFailure> },
    ClientError { source: RequestFailure },
    ServerError { source: RequestFailure },
    NetworkError { source: RequestFailure },
    InternalError,
}

impl RenovateError {
    /// The error for a failed request, by the status code of its response.
    pub open spec fn spec_from_failure(failure: RequestFailure) -> Self {
        match kind_of_status(failure.status) {
            FailureKind::NotFound => RenovateError::ResourceNotFound { source: Some(failure) },
            FailureKind::ServerError => RenovateError::ServerError { source: failure },
            FailureKind::ClientError => RenovateError::ClientError { source: failure },
            FailureKind::NetworkError => RenovateError::NetworkError { source: failure },
        }
    }


    /// Classifies a failed request: a 404 response is a missing resource, a 5xx
    /// response a server error, another 4xx response a client error, and
    /// anything else a network error.
    pub fn from_failure(failure: RequestFailure) -> (r: Self)
        ensures
            r == Self::spec_from_failure(failure),
    {
        match failure.kind() {
            FailureKind::NotFound => RenovateError::ResourceNotFound { source: Some(failure) },
            FailureKind::ServerError => RenovateError::ServerError { source: failure },
            FailureKind::ClientError => RenovateError::ClientError { source: failure },
            FailureKind::NetworkError => RenovateError::NetworkError { source: failure },
        }
    }
}

impl ApiError for RenovateError {
    /// The status code of the response for this error.
    open spec fn spec_status_code(&self) -> u16 {
        match self {
            RenovateError::ResourceNotFound { .. } => NOT_FOUND,
            RenovateError::ClientError { .. } => INTERNAL_SERVER_ERROR,
            RenovateError::NetworkError { .. } => INTERNAL_SERVER_ERROR,
            RenovateError::ServerError { .. } => BAD_GATEWAY,
            RenovateError::InternalError => INTERNAL_SERVER_ERROR,
        }
    }

    fn status_code(&self) -> (r: u16) {
        match self {
            RenovateError::ResourceNotFound { .. } => NOT_FOUND,
            RenovateError::InternalError
            | RenovateError::ClientError { .. }
            | RenovateError::NetworkError { .. } => INTERNAL_SERVER_ERROR,
            RenovateError::ServerError { .. } => BAD_GATEWAY,
        }
    }

    /// The text of this error.
    open spec fn spec_message(&self) -> Seq<char> {
        match self {
            RenovateError::ResourceNotFound { .. } => "The requested resource was not found when interfacing with the Renovate API."@,
            RenovateError::ClientError { source } => "Client error. "@ + status_debug_text(source.status),
            RenovateError::ServerError { source } => "Renovate API had a server error. "@ + status_debug_text(
                source.status,
            ),
            RenovateError::NetworkError { source } => "Network error. "@ + status_debug_text(source.status),
            RenovateError::InternalError => "API had internal error."@,
        }
    }

    fn message(&self) -> (r: String)
    {
        match self {
            RenovateError::ResourceNotFound { .. } => "The requested resource was not found when interfacing with the Renovate API.".to_owned(),
            RenovateError::ClientError { source } => text_with_status("Client error. ", source.status),
            RenovateError::ServerError { source } => text_with_status(
                "Renovate API had a server error. ",
                source.status,
            ),
            RenovateError::NetworkError { source } => text_with_status("Network error. ", source.status),
            RenovateError::InternalError => "API had internal error.".to_owned(),
        }
    }
}

/// A failed request is answered with 404 when the upstream response was a
/// 404, with 502 when it was a 5xx, and with 500 otherwise.
pub proof fn lemma_renovate_failure_answer(failure: RequestFailure)
    ensures
        RenovateError::spec_from_failure(failure).spec_status_code() == crate::errors::answer_for_status(
            failure.status,
        ),
{
}

} // verus!

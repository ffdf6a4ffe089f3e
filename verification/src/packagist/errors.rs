//! Errors of the requests to the Packagist API.
use vstd::prelude::*;

use crate::errors::{
    kind_of_status, status_debug_text, text_with_status, ApiError, FailureKind, RequestFailure,
    BAD_GATEWAY, INTERNAL_SERVER_ERROR, NOT_FOUND,
};

verus! {

/// An error of a request to the Packagist API.
#[derive(Debug)]
pub enum PackagistError {
    ResourceNotFound { source: Option<RequestFailure> },
    ClientError { source: RequestFailure },
    ServerError { source: RequestFailure },
    NetworkError { source: RequestFailure },
}

impl PackagistError {
    /// The error for a failed request, by the status code of its response.
    pub open spec fn spec_from_failure(failure: RequestFailure) -> Self {
        match kind_of_status(failure.status) {
            FailureKind::NotFound => PackagistError::ResourceNotFound { source: Some(failure) },
            FailureKind::ServerError => PackagistError::ServerError { source: failure },
            FailureKind::ClientError => PackagistError::ClientError { source: failure },
            FailureKind::NetworkError => PackagistError::NetworkError { source: failure },
        }
    }


    /// Classifies a failed request: a 404 response is a missing resource, a 5xx
    /// response a server error, another 4xx response a client error, and
    /// anything else a network error.
    pub fn from_failure(failure: RequestFailure) -> (r: Self)
        ensures
            r == Self::spec_from_failure(failure),
    {
        match failure.kind() {
            FailureKind::NotFound => PackagistError::ResourceNotFound { source: Some(failure) },
            FailureKind::ServerError => PackagistError::ServerError { source: failure },
            FailureKind::ClientError => PackagistError::ClientError { source: failure },
            FailureKind::NetworkError => PackagistError::NetworkError { source: failure },
        }
    }
}

impl ApiError for PackagistError {
    /// The status code of the response for this error.
    open spec fn spec_status_code(&self) -> u16 {
        match self {
            PackagistError::ResourceNotFound { .. } => NOT_FOUND,
            PackagistError::ClientError { .. } => INTERNAL_SERVER_ERROR,
            PackagistError::NetworkError { .. } => INTERNAL_SERVER_ERROR,
            PackagistError::ServerError { .. } => BAD_GATEWAY,
        }
    }

    fn status_code(&self) -> (r: u16) {
        match self {
            PackagistError::ResourceNotFound { .. } => NOT_FOUND,
            PackagistError::ClientError { .. } | PackagistError::NetworkError { .. } => INTERNAL_SERVER_ERROR,
            PackagistError::ServerError { .. } => BAD_GATEWAY,
        }
    }

    /// The text of this error.
    open spec fn spec_message(&self) -> Seq<char> {
        match self {
            PackagistError::ResourceNotFound { .. } => "The requested resource was not found when interfacing with Packagist API."@,
            PackagistError::ClientError { source } => "Client error. "@ + status_debug_text(source.status),
            PackagistError::ServerError { source } => "Packagist API had a server error. "@ + status_debug_text(
                source.status,
            ),
            PackagistError::NetworkError { source } => "Network error. "@ + status_debug_text(source.status),
        }
    }

    fn message(&self) -> (r: String)
    {
        match self {
            PackagistError::ResourceNotFound { .. } => "The requested resource was not found when interfacing with Packagist API.".to_owned(),
            PackagistError::ClientError { source } => text_with_status("Client error. ", source.status),
            PackagistError::ServerError { source } => text_with_status(
                "Packagist API had a server error. ",
                source.status,
            ),
            PackagistError::NetworkError { source } => text_with_status("Network error. ", source.status),
        }
    }
}

/// A failed request is answered with 404 when the upstream response was a
/// 404, with 502 when it was a 5xx, and with 500 otherwise.
pub proof fn lemma_packagist_failure_answer(failure: RequestFailure)
    ensures
        PackagistError::spec_from_failure(failure).spec_status_code() == crate::errors::answer_for_status(
            failure.status,
        ),
{
}

} // verus!

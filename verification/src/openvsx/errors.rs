//! Errors of the requests to the OpenVSX API.
use vstd::prelude::*;

use crate::errors::{
    kind_of_status, status_debug_text, text_with_status, ApiError, FailureKind, RequestFailure,
    BAD_GATEWAY, INTERNAL_SERVER_ERROR, NOT_FOUND,
};

verus! {

/// An error of a request to the OpenVSX API.
#[derive(Debug)]
pub enum OpenVSXError {
    ResourceNotFound { source: Option<RequestFailure> },
    ClientError { source: RequestFailure },
    ServerError { source: RequestFailure },
    NetworkError { source: RequestFailure },
}

impl OpenVSXError {
    /// The error for a failed request, by the status code of its response.
    pub open spec fn spec_from_failure(failure: RequestFailure) -> Self {
        match kind_of_status(failure.status) {
            FailureKind::NotFound => OpenVSXError::ResourceNotFound { source: Some(failure) },
            FailureKind::ServerError => OpenVSXError::ServerError { source: failure },
            FailureKind::ClientError => OpenVSXError::ClientError { source: failure },
            FailureKind::NetworkError => OpenVSXError::NetworkError { source: failure },
        }
    }


    /// Classifies a failed request: a 404 response is a missing resource, a 5xx
    /// response a server error, another 4xx response a client error, and
    /// anything else a network error.
    pub fn from_failure(failure: RequestFailure) -> (r: Self)
        ensures
            r == Self::spec_from_failure(failure),
    {
        match failure.kind() {
            FailureKind::NotFound => OpenVSXError::ResourceNotFound { source: Some(failure) },
            FailureKind::ServerError => OpenVSXError::ServerError { source: failure },
            FailureKind::ClientError => OpenVSXError::ClientError { source: failure },
            FailureKind::NetworkError => OpenVSXError::NetworkError { source: failure },
        }
    }
}

impl ApiError for OpenVSXError {
    /// The status code of the response for this error.
    open spec fn spec_status_code(&self) -> u16 {
        match self {
            OpenVSXError::ResourceNotFound { .. } => NOT_FOUND,
            OpenVSXError::ClientError { .. } => INTERNAL_SERVER_ERROR,
            OpenVSXError::NetworkError { .. } => INTERNAL_SERVER_ERROR,
            OpenVSXError::ServerError { .. } => BAD_GATEWAY,
        }
    }

    fn status_code(&self) -> (r: u16) {
        match self {
            OpenVSXError::ResourceNotFound { .. } => NOT_FOUND,
            OpenVSXError::ClientError { .. } | OpenVSXError::NetworkError { .. } => INTERNAL_SERVER_ERROR,
            OpenVSXError::ServerError { .. } => BAD_GATEWAY,
        }
    }

    /// The text of this error.
    open spec fn spec_message(&self) -> Seq<char> {
        match self {
            OpenVSXError::ResourceNotFound { .. } => "The requested resource was not found when interfacing with OpenVSX API."@,
            OpenVSXError::ClientError { source } => "Client error. "@ + status_debug_text(source.status),
            OpenVSXError::ServerError { source } => "OpenVSX API had a server error. "@ + status_debug_text(
                source.status,
            ),
            OpenVSXError::NetworkError { source } => "Network error. "@ + status_debug_text(source.status),
        }
    }

    fn message(&self) -> (r: String)
    {
        match self {
            OpenVSXError::ResourceNotFound { .. } => "The requested resource was not found when interfacing with OpenVSX API.".to_owned(),
            OpenVSXError::ClientError { source } => text_with_status("Client error. ", source.status),
            OpenVSXError::ServerError { source } => text_with_status(
                "OpenVSX API had a server error. ",
                source.status,
            ),
            OpenVSXError::NetworkError { source } => text_with_status("Network error. ", source.status),
        }
    }
}

/// A failed request is answered with 404 when the upstream response was a
/// 404, with 502 when it was a 5xx, and with 500 otherwise.
pub proof fn lemma_openvsx_failure_answer(failure: RequestFailure)
    ensures
        OpenVSXError::spec_from_failure(failure).spec_status_code() == crate::errors::answer_for_status(
            failure.status,
        ),
{
}

} // verus!

//! Errors of the requests to the crates registry.
use vstd::prelude::*;

use crate::errors::{
    kind_of_status, ApiError, FailureKind, RequestFailure, BAD_GATEWAY, INTERNAL_SERVER_ERROR,
    NOT_FOUND,
};

verus! {

/// An error of a request to the crates registry.
#[derive(Debug)]
pub enum CratesError {
    ResourceNotFound { source: Option<RequestFailure> },
    ClientError { source: Option<RequestFailure> },
    ServerError { source: Option<RequestFailure> },
    NetworkError { source: Option<RequestFailure> },
}

/// How a call of the crates registry client failed, as that client reports it.
#[derive(Clone, Copy, PartialEq, Eq, Structural, Debug)]
pub enum CratesApiFailure {
    /// The HTTP request failed.
    Http(RequestFailure),
    /// The URL of the request was invalid.
    Url,
    /// The crate could not be found.
    NotFound,
    /// No permission to access the resource.
    PermissionDenied,
    /// The response could not be decoded.
    JsonDecode,
    /// The registry answered with an error.
    Api,
    /// Any other failure.
    Other,
}

impl CratesError {
    /// The error for a failed HTTP request, by the status code of its response.
    pub open spec fn spec_from_failure(failure: RequestFailure) -> Self {
        match kind_of_status(failure.status) {
            FailureKind::NotFound => CratesError::ResourceNotFound { source: Some(failure) },
            FailureKind::ServerError => CratesError::ServerError { source: Some(failure) },
            FailureKind::ClientError => CratesError::ClientError { source: Some(failure) },
            FailureKind::NetworkError => CratesError::NetworkError { source: Some(failure) },
        }
    }

    /// The error for a failure reported by the registry client.
    pub open spec fn spec_from_api_failure(failure: CratesApiFailure) -> Self {
        match failure {
            CratesApiFailure::NotFound => CratesError::ResourceNotFound { source: None },
            CratesApiFailure::Http(f) => CratesError::NetworkError { source: Some(f) },
            CratesApiFailure::Url => CratesError::NetworkError { source: None },
            CratesApiFailure::PermissionDenied => CratesError::ClientError { source: None },
            CratesApiFailure::JsonDecode => CratesError::ServerError { source: None },
            CratesApiFailure::Api => CratesError::ServerError { source: None },
            CratesApiFailure::Other => CratesError::ServerError { source: None },
        }
    }


    /// Classifies a failed HTTP request: a 404 response is a missing
    /// resource, a 5xx response a server error, another 4xx response a client
    /// error, and anything else a network error.
    pub fn from_failure(failure: RequestFailure) -> (r: Self)
        ensures
            r == Self::spec_from_failure(failure),
    {
        match failure.kind() {
            FailureKind::NotFound => CratesError::ResourceNotFound { source: Some(failure) },
            FailureKind::ServerError => CratesError::ServerError { source: Some(failure) },
            FailureKind::ClientError => CratesError::ClientError { source: Some(failure) },
            FailureKind::NetworkError => CratesError::NetworkError { source: Some(failure) },
        }
    }

    /// Classifies a failure reported by the registry client: a missing crate
    /// is a missing resource, a failed request or a bad URL a network error, a
    /// refused permission a client error, and anything else a server error.
    pub fn from_api_failure(failure: CratesApiFailure) -> (r: Self)
        ensures
            r == Self::spec_from_api_failure(failure),
    {
        match failure {
            CratesApiFailure::NotFound => CratesError::ResourceNotFound { source: None },
            CratesApiFailure::Http(f) => CratesError::NetworkError { source: Some(f) },
            CratesApiFailure::Url => CratesError::NetworkError { source: None },
            CratesApiFailure::PermissionDenied => CratesError::ClientError { source: None },
            CratesApiFailure::JsonDecode => CratesError::ServerError { source: None },
            CratesApiFailure::Api => CratesError::ServerError { source: None },
            CratesApiFailure::Other => CratesError::ServerError { source: None },
        }
    }
}

impl ApiError for CratesError {
    /// The status code of the response for this error.
    open spec fn spec_status_code(&self) -> u16 {
        match self {
            CratesError::ResourceNotFound { .. } => NOT_FOUND,
            CratesError::ClientError { .. } => INTERNAL_SERVER_ERROR,
            CratesError::NetworkError { .. } => INTERNAL_SERVER_ERROR,
            CratesError::ServerError { .. } => BAD_GATEWAY,
        }
    }

    fn status_code(&self) -> (r: u16) {
        match self {
            CratesError::ResourceNotFound { .. } => NOT_FOUND,
            CratesError::ClientError { .. } | CratesError::NetworkError { .. } => INTERNAL_SERVER_ERROR,
            CratesError::ServerError { .. } => BAD_GATEWAY,
        }
    }

    /// The text of this error.
    open spec fn spec_message(&self) -> Seq<char> {
        match self {
            CratesError::ResourceNotFound {
                ..
            } => "The requested resource was not found when interfacing with Crates registry API."@,
            CratesError::ClientError { .. } => "Client error."@,
            CratesError::ServerError { .. } => "Crate registry API had a server error."@,
            CratesError::NetworkError { .. } => "Network error."@,
        }
    }

    fn message(&self) -> (r: String)
    {
        match self {
            CratesError::ResourceNotFound {
                ..
            } => "The requested resource was not found when interfacing with Crates registry API.".to_owned(),
            CratesError::ClientError { .. } => "Client error.".to_owned(),
            CratesError::ServerError { .. } => "Crate registry API had a server error.".to_owned(),
            CratesError::NetworkError { .. } => "Network error.".to_owned(),
        }
    }
}

/// A failed HTTP request is answered with 404 when the upstream response was
/// a 404, with 502 when it was a 5xx, and with 500 otherwise.
pub proof fn lemma_crates_failure_answer(failure: RequestFailure)
    ensures
        CratesError::spec_from_failure(failure).spec_status_code() == crate::errors::answer_for_status(
            failure.status,
        ),
{
}

} // verus!

//! What the API answers about Open VSX extensions.
use vstd::prelude::*;

use super::client::spec::OpenVSXExtensionDto;

verus! {

/// An extension and its version.
#[derive(Debug)]
pub struct OpenVSXExtensionResponse {
    pub name: String,
    pub version: String,
}

impl OpenVSXExtensionResponse {
    /// The extension as `namespace/name`, with its version.
    pub fn from_dto(dto: OpenVSXExtensionDto) -> (r: Self)
        ensures
            r.name@ == dto.namespace@ + "/"@ + dto.name@,
            r.version == dto.version,
    {
        Self {
            name: crate::text::concat3(dto.namespace.as_str(), "/", dto.name.as_str()),
            version: dto.version,
        }
    }
}

} // verus!

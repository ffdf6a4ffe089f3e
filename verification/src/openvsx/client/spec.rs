//! The documents of the Open VSX registry.
use vstd::prelude::*;

verus! {

/// A page of the versions of an extension: each version with the URL of its
/// document, and the number of versions in all.
#[derive(Debug)]
pub struct OpenVSXExtensionVersionsDto {
    pub versions: Vec<(String, String)>,
    pub total_size: u64,
}

/// An extension at its latest version.
#[derive(Debug)]
pub struct OpenVSXExtensionDto {
    pub namespace: String,
    pub name: String,
    pub version: String,
}

} // verus!

//! What the API answers about crates.
use vstd::prelude::*;

use super::CrateInfo;

verus! {

/// A crate and its highest version.
#[derive(Debug)]
pub struct CrateResponse {
    pub name: String,
    pub version: String,
}

impl CrateResponse {
    /// The crate's name and highest version.
    pub fn from_info(value: CrateInfo) -> (r: Self)
        ensures
            r.name == value.name,
            r.version == value.max_version,
    {
        Self { name: value.name, version: value.max_version }
    }
}

} // verus!

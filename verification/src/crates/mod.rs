pub mod api;
pub mod errors;
pub mod manager;

use vstd::prelude::*;

verus! {

/// A crate of the registry, by name.
#[derive(Debug)]
pub struct Crate {
    pub name: String,
}

/// What the API reads of the registry's answer for a crate: its name, its
/// highest version and the numbers of all its versions, as listed.
#[derive(Debug)]
pub struct CrateInfo {
    pub name: String,
    pub max_version: String,
    pub versions: Vec<String>,
}

} // verus!

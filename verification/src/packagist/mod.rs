pub mod errors;
pub mod manager;

use vstd::prelude::*;

verus! {

/// What the API reads of a version of a Packagist package.
#[derive(Debug)]
pub struct PackagistPackageDto {
    pub version: String,
}

} // verus!

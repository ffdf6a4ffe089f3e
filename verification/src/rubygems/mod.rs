pub mod errors;
pub mod manager;

use vstd::prelude::*;

verus! {

/// What the API reads of a version of a gem: its number and whether it is a
/// pre-release.
#[derive(Debug)]
pub struct RubyGemVersionDto {
    pub version: String,
    pub prerelease: bool,
}

} // verus!

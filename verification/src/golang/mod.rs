pub mod client;
pub mod errors;
pub mod manager;

use vstd::prelude::*;

verus! {

/// A Go module, by path.
#[derive(Debug)]
pub struct GolangPackage {
    pub name: String,
}

} // verus!

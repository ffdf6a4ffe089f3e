//! The versions of Go modules.
use vstd::prelude::*;

use crate::semver_sort::{newest_first, semver_sort_desc};

verus! {

/// Answers the questions about Go modules with the client that fetches their
/// data.
pub struct GolangManager<C> {
    client: C,
}

impl<C> GolangManager<C> {
    pub fn new(client: C) -> (r: Self)
        ensures
            r.client() == client,
    {
        Self { client }
    }

    /// The client that fetches the data.
    pub closed spec fn client(&self) -> C {
        self.client
    }

    /// The client that fetches the data.
    pub fn get_client(&self) -> (r: &C)
        ensures
            *r == self.client(),
    {
        &self.client
    }

    /// All the versions of a module from the newest to the oldest, given the
    /// versions that the proxy listed.
    pub fn get_all_versions(unsorted_versions: &Vec<String>) -> (r: Vec<String>)
        ensures
            newest_first(unsorted_versions@, r@),
    {
        semver_sort_desc(unsorted_versions)
    }
}

} // verus!

//! The versions of crates.
use vstd::prelude::*;

use super::errors::CratesError;
use super::CrateInfo;
use crate::semver_sort::{newest_first, semver_sort_desc};

verus! {

/// Answers the questions about crates with the client that fetches their
/// data.
pub struct CratesManager<C> {
    client: C,
}

/// Whether a list of version numbers holds the given one.
pub open spec fn has_version(versions: Seq<String>, version: Seq<char>) -> bool {
    exists|i: int| 0 <= i < versions.len() && (#[trigger] versions[i])@ == version
}

impl<C> CratesManager<C> {
    pub fn new(client: C) -> (r: Self)
        ensures
            r.client() == client,
    {
        Self { client }
    }

    /// The client that fetches the data.
    pub closed spec fn client(&self) -> C {
        self.client
    }

    /// The client that fetches the data.
    pub fn get_client(&self) -> (r: &C)
        ensures
            *r == self.client(),
    {
        &self.client
    }

    /// All the version numbers of a crate, from the newest to the oldest.
    pub fn get_all_crate_versions(crate_response: CrateInfo) -> (r: Vec<String>)
        ensures
            newest_first(crate_response.versions@, r@),
    {
        semver_sort_desc(&crate_response.versions)
    }

    /// The crate, when it has the given version; a missing resource
    /// otherwise.
    pub fn get_crate_version(crate_response: CrateInfo, version: &str) -> (r: Result<
        CrateInfo,
        CratesError,
    >)
        ensures
            has_version(crate_response.versions@, version@) ==> r == Ok::<
                CrateInfo,
                CratesError,
            >(crate_response),
            !has_version(crate_response.versions@, version@) ==> r == Err::<
                CrateInfo,
                CratesError,
            >(CratesError::ResourceNotFound { source: None }),
    {
        let mut i: usize = 0;
        while i < crate_response.versions.len()
            invariant
                i <= crate_response.versions@.len(),
                forall|j: int| 0 <= j < i ==> (#[trigger] crate_response.versions@[j])@ != version@,
            decreases crate_response.versions@.len() - i,
        {
            if crate::text::str_eq(crate_response.versions[i].as_str(), version) {
                return Ok(crate_response);
            }
            i = i + 1;
        }
        Err(CratesError::ResourceNotFound { source: None })
    }
}

} // verus!

//! The versions of gems.
use vstd::prelude::*;

use super::errors::RubyGemsError;
use super::RubyGemVersionDto;
use crate::search::lemma_first_match;
use crate::semver_sort::{newest_first, semver_sort_desc};

verus! {

/// Answers the questions about gems with the client that fetches their data.
pub struct RubyGemsManager<C> {
    client: C,
}

/// The index of the first version with the given number, if any.
pub open spec fn first_gem_version(versions: Seq<RubyGemVersionDto>, version: Seq<char>) -> Option<
    int,
> {
    if exists|k: int| 0 <= k < versions.len() && (#[trigger] versions[k]).version@ == version {
        Some(
            choose|k: int|
                0 <= k < versions.len() && (#[trigger] versions[k]).version@ == version && forall|
                    l: int,
                | 0 <= l < k ==> (#[trigger] versions[l]).version@ != version,
        )
    } else {
        None
    }
}

/// A version of a gem is looked up by its number: the version found has
/// that number and none before it has; and none is found exactly when no
/// version has it.
pub proof fn lemma_first_gem_version_finds_the_number(versions: Seq<RubyGemVersionDto>, version: Seq<char>)
    ensures
        first_gem_version(versions, version) matches Some(k) ==> 0 <= k < versions.len()
            && versions[k].version@ == version && forall|l: int|
            0 <= l < k ==> (#[trigger] versions[l]).version@ != version,
        first_gem_version(versions, version) is None <==> forall|l: int|
            0 <= l < versions.len() ==> (#[trigger] versions[l]).version@ != version,
{
    if exists|k: int| 0 <= k < versions.len() && (#[trigger] versions[k]).version@ == version {
        let k = choose|k: int| 0 <= k < versions.len() && (#[trigger] versions[k]).version@ == version;
        lemma_first_match(versions, |d: RubyGemVersionDto| d.version@ == version, k);
    }
}

/// The numbers of the versions that are not pre-releases, in order.
pub open spec fn release_versions(versions: Seq<RubyGemVersionDto>) -> Seq<String>
    decreases versions.len(),
{
    if versions.len() == 0 {
        seq![]
    } else {
        let rest = release_versions(versions.drop_last());
        if versions.last().prerelease {
            rest
        } else {
            rest.push(versions.last().version)
        }
    }
}

/// The released versions of a gem are the numbers of exactly those entries
/// whose pre-release flag is off, in the order of the entries.
pub proof fn lemma_release_versions_are_non_prereleases(versions: Seq<RubyGemVersionDto>)
    ensures
        release_versions(versions) == versions.filter(|g: RubyGemVersionDto| !g.prerelease).map_values(
            |g: RubyGemVersionDto| g.version,
        ),
    decreases versions.len(),
{
    reveal_with_fuel(Seq::filter, 1);
    if versions.len() > 0 {
        lemma_release_versions_are_non_prereleases(versions.drop_last());
        let f = versions.drop_last().filter(|g: RubyGemVersionDto| !g.prerelease);
        assert(f.push(versions.last()).map_values(|g: RubyGemVersionDto| g.version)
            =~= f.map_values(|g: RubyGemVersionDto| g.version).push(versions.last().version));
    } else {
        assert(versions.filter(|g: RubyGemVersionDto| !g.prerelease).map_values(
            |g: RubyGemVersionDto| g.version,
        ) =~= Seq::<String>::empty());
    }
}

impl<C> RubyGemsManager<C> {
    pub fn new(client: C) -> (r: Self)
        ensures
            r.client() == client,
    {
        Self { client }
    }

    /// The client that fetches the data.
    pub closed spec fn client(&self) -> C {
        self.client
    }

    /// The client that fetches the data.
    pub fn get_client(&self) -> (r: &C)
        ensures
            *r == self.client(),
    {
        &self.client
    }

    /// The first of the versions of a gem with the given number; a missing
    /// resource when there is none.
    pub fn get_gem_version(gem_versions: Vec<RubyGemVersionDto>, version: &str) -> (r: Result<
        RubyGemVersionDto,
        RubyGemsError,
    >)
        ensures
            match r {
                Ok(v) => first_gem_version(gem_versions@, version@) matches Some(k) && v
                    == gem_versions@[k],
                Err(e) => first_gem_version(gem_versions@, version@) is None && e
                    == RubyGemsError::ResourceNotFound { source: None },
            },
    {
        let ghost all = gem_versions@;
        let mut versions = gem_versions;
        let mut i: usize = 0;
        while i < versions.len()
            invariant
                versions@ == all,
                all == gem_versions@,
                i <= all.len(),
                forall|j: int| 0 <= j < i ==> (#[trigger] all[j]).version@ != version@,
            decreases all.len() - i,
        {
            if crate::text::str_eq(versions[i].version.as_str(), version) {
                proof {
                    assert(0 <= i < all.len() && all[i as int].version@ == version@ && forall|l: int|
                        0 <= l < i ==> (#[trigger] all[l]).version@ != version@);
                    let k = choose|k: int|
                        0 <= k < all.len() && (#[trigger] all[k]).version@ == version@ && forall|l: int|
                            0 <= l < k ==> (#[trigger] all[l]).version@ != version@;
                    if k < i {
                        assert(all[k].version@ != version@);
                    }
                    if k > i {
                        assert(all[i as int].version@ != version@);
                    }
                    assert(k == i);
                }
                return Ok(versions.remove(i));
            }
            i = i + 1;
        }
        Err(RubyGemsError::ResourceNotFound { source: None })
    }

    /// The numbers of the versions of a gem that are not pre-releases, from
    /// the newest to the oldest.
    pub fn get_all_gem_versions(gem_versions: &Vec<RubyGemVersionDto>) -> (r: Vec<String>)
        ensures
            newest_first(release_versions(gem_versions@), r@),
            r@.to_multiset() == gem_versions@.filter(|g: RubyGemVersionDto| !g.prerelease).map_values(
                |g: RubyGemVersionDto| g.version,
            ).to_multiset(),
    {
        let mut out: Vec<String> = Vec::new();
        let mut i: usize = 0;
        while i < gem_versions.len()
            invariant
                i <= gem_versions@.len(),
                out@ == release_versions(gem_versions@.take(i as int)),
            decreases gem_versions@.len() - i,
        {
            proof {
                assert(gem_versions@.take(i + 1).drop_last() =~= gem_versions@.take(i as int));
            }
            if !gem_versions[i].prerelease {
                out.push(gem_versions[i].version.clone());
            }
            i = i + 1;
        }
        assert(gem_versions@.take(i as int) =~= gem_versions@);
        proof {
            lemma_release_versions_are_non_prereleases(gem_versions@);
        }
        semver_sort_desc(&out)
    }
}

} // verus!

//! The versions of Packagist packages.
use vstd::prelude::*;

use super::errors::PackagistError;
use super::PackagistPackageDto;
use crate::search::lemma_first_match;
use crate::semver_sort::{newest_first, semver_sort_desc};

verus! {

/// Answers the questions about Packagist packages with the client that
/// fetches their data.
pub struct PackagistManager<C> {
    client: C,
}

/// The index of the first entry with the given key, if any.
pub open spec fn first_key(entries: Seq<(String, Vec<PackagistPackageDto>)>, key: Seq<char>) -> Option<int> {
    if exists|k: int| 0 <= k < entries.len() && (#[trigger] entries[k]).0@ == key {
        Some(
            choose|k: int|
                0 <= k < entries.len() && (#[trigger] entries[k]).0@ == key && forall|l: int|
                    0 <= l < k ==> (#[trigger] entries[l]).0@ != key,
        )
    } else {
        None
    }
}

/// The index of the first version with the given number, if any.
pub open spec fn first_version(versions: Seq<PackagistPackageDto>, version: Seq<char>) -> Option<int> {
    if exists|k: int| 0 <= k < versions.len() && (#[trigger] versions[k]).version@ == version {
        Some(
            choose|k: int|
                0 <= k < versions.len() && (#[trigger] versions[k]).version@ == version && forall|
                    l: int,
                | 0 <= l < k ==> (#[trigger] versions[l]).version@ != version,
        )
    } else {
        None
    }
}

/// A package is looked up by its name: the entry found is named so and
/// none before it is; and none is found exactly when no entry is named so.
pub proof fn lemma_first_key_finds_the_name(entries: Seq<(String, Vec<PackagistPackageDto>)>, key: Seq<char>)
    ensures
        first_key(entries, key) matches Some(k) ==> 0 <= k < entries.len() && entries[k].0@ == key
            && forall|l: int| 0 <= l < k ==> (#[trigger] entries[l]).0@ != key,
        first_key(entries, key) is None <==> forall|l: int|
            0 <= l < entries.len() ==> (#[trigger] entries[l]).0@ != key,
{
    if exists|k: int| 0 <= k < entries.len() && (#[trigger] entries[k]).0@ == key {
        let k = choose|k: int| 0 <= k < entries.len() && (#[trigger] entries[k]).0@ == key;
        lemma_first_match(entries, |e: (String, Vec<PackagistPackageDto>)| e.0@ == key, k);
    }
}

/// A version is looked up by its number: the version found has that number
/// and none before it has; and none is found exactly when no version has it.
pub proof fn lemma_first_version_finds_the_number(versions: Seq<PackagistPackageDto>, version: Seq<char>)
    ensures
        first_version(versions, version) matches Some(k) ==> 0 <= k < versions.len()
            && versions[k].version@ == version && forall|l: int|
            0 <= l < k ==> (#[trigger] versions[l]).version@ != version,
        first_version(versions, version) is None <==> forall|l: int|
            0 <= l < versions.len() ==> (#[trigger] versions[l]).version@ != version,
{
    if exists|k: int| 0 <= k < versions.len() && (#[trigger] versions[k]).version@ == version {
        let k = choose|k: int| 0 <= k < versions.len() && (#[trigger] versions[k]).version@ == version;
        lemma_first_match(versions, |d: PackagistPackageDto| d.version@ == version, k);
    }
}

/// No package is named twice in a response, as in the map that Packagist
/// sends.
pub open spec fn distinct_names(entries: Seq<(String, Vec<PackagistPackageDto>)>) -> bool {
    forall|i: int, j: int|
        0 <= i < j < entries.len() ==> (#[trigger] entries[i]).0@ != (#[trigger] entries[j]).0@
}

/// The versions of a package in a response: those of the entry for it.
pub open spec fn resolved(entries: Seq<(String, Vec<PackagistPackageDto>)>, key: Seq<char>) -> Option<
    Seq<PackagistPackageDto>,
> {
    match first_key(entries, key) {
        Some(k) => Some(entries[k].1@),
        None => None,
    }
}

impl<C> PackagistManager<C> {
    pub fn new(client: C) -> (r: Self)
        ensures
            r.client() == client,
    {
        Self { client }
    }

    /// The client that fetches the data.
    pub closed spec fn client(&self) -> C {
        self.client
    }

    /// The client that fetches the data.
    pub fn get_client(&self) -> (r: &C)
        ensures
            *r == self.client(),
    {
        &self.client
    }

    /// The versions of a package among the packages of a response, by the
    /// package's name; a missing resource when the response lacks it.
    pub fn resolve_package_versions(
        packages: Vec<(String, Vec<PackagistPackageDto>)>,
        package: &str,
    ) -> (r: Result<Vec<PackagistPackageDto>, PackagistError>)
        requires
            distinct_names(packages@),
        ensures
            match r {
                Ok(v) => resolved(packages@, package@) == Some(v@),
                Err(e) => resolved(packages@, package@) is None && e
                    == PackagistError::ResourceNotFound { source: None },
            },
    {
        let ghost all = packages@;
        let mut list = packages;
        let mut i: usize = 0;
        while i < list.len()
            invariant
                list@ == all,
                all == packages@,
                i <= all.len(),
                forall|j: int| 0 <= j < i ==> (#[trigger] all[j]).0@ != package@,
            decreases all.len() - i,
        {
            if crate::text::str_eq(list[i].0.as_str(), package) {
                proof {
                    assert(0 <= i < all.len() && all[i as int].0@ == package@ && forall|l: int|
                        0 <= l < i ==> (#[trigger] all[l]).0@ != package@);
                    let k = choose|k: int|
                        0 <= k < all.len() && (#[trigger] all[k]).0@ == package@ && forall|l: int|
                            0 <= l < k ==> (#[trigger] all[l]).0@ != package@;
                    if k < i {
                        assert(all[k].0@ != package@);
                    }
                    if k > i {
                        assert(all[i as int].0@ != package@);
                    }
                    assert(k == i);
                }
                let entry = list.remove(i);
                return Ok(entry.1);
            }
            i = i + 1;
        }
        Err(PackagistError::ResourceNotFound { source: None })
    }

    /// The first version of a package in a response; a missing resource when
    /// the response lacks the package or it has no version.
    pub fn get_package(packages: Vec<(String, Vec<PackagistPackageDto>)>, package: &str) -> (r: Result<
        PackagistPackageDto,
        PackagistError,
    >)
        requires
            distinct_names(packages@),
        ensures
            match r {
                Ok(v) => resolved(packages@, package@) matches Some(vs) && vs.len() > 0 && v == vs[0],
                Err(e) => !(resolved(packages@, package@) matches Some(vs) && vs.len() > 0) && e
                    == PackagistError::ResourceNotFound { source: None },
            },
    {
        let mut versions = Self::resolve_package_versions(packages, package)?;
        if versions.len() > 0 {
            Ok(versions.remove(0))
        } else {
            Err(PackagistError::ResourceNotFound { source: None })
        }
    }

    /// The first version of a package in a response with the given number; a
    /// missing resource when there is none.
    pub fn get_package_version(
        packages: Vec<(String, Vec<PackagistPackageDto>)>,
        package: &str,
        version: &str,
    ) -> (r: Result<PackagistPackageDto, PackagistError>)
        requires
            distinct_names(packages@),
        ensures
            match r {
                Ok(v) => resolved(packages@, package@) matches Some(vs) && first_version(
                    vs,
                    version@,
                ) matches Some(k) && v == vs[k],
                Err(e) => !(resolved(packages@, package@) matches Some(vs) && first_version(
                    vs,
                    version@,
                ) is Some) && e == PackagistError::ResourceNotFound { source: None },
            },
    {
        let ghost input = packages@;
        let mut versions = Self::resolve_package_versions(packages, package)?;
        let ghost all = versions@;
        let mut i: usize = 0;
        while i < versions.len()
            invariant
                versions@ == all,
                resolved(input, package@) == Some(all),
                input == packages@,
                i <= all.len(),
                forall|j: int| 0 <= j < i ==> (#[trigger] all[j]).version@ != version@,
            decreases all.len() - i,
        {
            if crate::text::str_eq(versions[i].version.as_str(), version) {
                proof {
                    assert(0 <= i < all.len() && all[i as int].version@ == version@ && forall|l: int|
                        0 <= l < i ==> (#[trigger] all[l]).version@ != version@);
                    let k = choose|k: int|
                        0 <= k < all.len() && (#[trigger] all[k]).version@ == version@ && forall|l: int|
                            0 <= l < k ==> (#[trigger] all[l]).version@ != version@;
                    if k < i {
                        assert(all[k].version@ != version@);
                    }
                    if k > i {
                        assert(all[i as int].version@ != version@);
                    }
                    assert(k == i);
                }
                return Ok(versions.remove(i));
            }
            i = i + 1;
        }
        Err(PackagistError::ResourceNotFound { source: None })
    }

    /// The numbers of all the versions of a package in a response, from the
    /// newest to the oldest.
    pub fn get_all_package_versions(
        packages: Vec<(String, Vec<PackagistPackageDto>)>,
        package: &str,
    ) -> (r: Result<Vec<String>, PackagistError>)
        requires
            distinct_names(packages@),
        ensures
            match r {
                Ok(v) => resolved(packages@, package@) matches Some(vs) && newest_first(
                    vs.map_values(|d: PackagistPackageDto| d.version),
                    v@,
                ),
                Err(e) => resolved(packages@, package@) is None && e
                    == PackagistError::ResourceNotFound { source: None },
            },
    {
        let versions = Self::resolve_package_versions(packages, package)?;
        let mut out: Vec<String> = Vec::new();
        let mut i: usize = 0;
        while i < versions.len()
            invariant
                i <= versions@.len(),
                out@ == versions@.take(i as int).map_values(|d: PackagistPackageDto| d.version),
            decreases versions@.len() - i,
        {
            out.push(versions[i].version.clone());
            proof {
                assert(versions@.take(i + 1).map_values(|d: PackagistPackageDto| d.version)
                    =~= versions@.take(i as int).map_values(|d: PackagistPackageDto| d.version).push(
                    versions@[i as int].version,
                ));
            }
            i = i + 1;
        }
        assert(versions@.take(i as int) =~= versions@);
        Ok(semver_sort_desc(&out))
    }
}

} // verus!

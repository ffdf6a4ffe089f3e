pub mod client;
pub mod errors;

use vstd::prelude::*;
use vstd::std_specs::convert::FromSpecImpl;

use crate::text::{concat3, str_eq};
use crate::{CacheControl, QueryParams};

verus! {

/// A GitHub repository, by owner and name.
#[derive(Debug)]
pub struct GitHubRepo {
    pub owner: String,
    pub name: String,
}

/// The cache policy for the data of a repository: short for the registry
/// itself, medium for any other repository.
pub open spec fn repo_cache_control(owner: Seq<char>, name: Seq<char>) -> CacheControl {
    if owner == "mason-org"@ && name == "mason-registry"@ {
        CacheControl::PublicShort
    } else {
        CacheControl::PublicMedium
    }
}

/// Only the registry's own repository, `mason-org/mason-registry`, is
/// cached for a short time; every other repository for a medium time.
pub proof fn lemma_only_the_registry_is_cached_short(owner: Seq<char>, name: Seq<char>)
    ensures
        (repo_cache_control(owner, name) == CacheControl::PublicShort) <==> (owner == "mason-org"@
            && name == "mason-registry"@),
        (repo_cache_control(owner, name) == CacheControl::PublicMedium) <==> !(owner == "mason-org"@
            && name == "mason-registry"@),
{
}

impl GitHubRepo {
    pub fn new(owner: String, name: String) -> (r: Self)
        ensures
            r.owner == owner,
            r.name == name,
    {
        Self { owner, name }
    }

    /// The repository named by the `owner` and `name` query parameters.
    pub fn from_query(query: &QueryParams) -> (r: Self)
        requires
            query@.contains_key("owner"@),
            query@.contains_key("name"@),
        ensures
            r.owner@ == query@["owner"@],
            r.name@ == query@["name"@],
    {
        let owner = query.get("owner").unwrap().clone();
        let name = query.get("name").unwrap().clone();
        Self { owner, name }
    }

    /// The text `owner/name`.
    pub open spec fn spec_to_string(&self) -> Seq<char> {
        self.owner@ + "/"@ + self.name@
    }

    /// The repository as `owner/name`.
    pub fn to_string(&self) -> (r: String)
        ensures
            r@ == self.spec_to_string(),
    {
        concat3(self.owner.as_str(), "/", self.name.as_str())
    }
}

impl From<GitHubRepo> for CacheControl {
    fn from(repo: GitHubRepo) -> (r: Self) {
        if str_eq(repo.owner.as_str(), "mason-org") && str_eq(repo.name.as_str(), "mason-registry") {
            CacheControl::PublicShort
        } else {
            CacheControl::PublicMedium
        }
    }
}

impl FromSpecImpl<GitHubRepo> for CacheControl {
    open spec fn obeys_from_spec() -> bool {
        true
    }

    open spec fn from_spec(repo: GitHubRepo) -> Self {
        repo_cache_control(repo.owner@, repo.name@)
    }
}

/// A git reference of a repository, such as a tag.
pub trait GitHubRefId {
    /// The path of the reference below `git/ref/`.
    spec fn spec_ref_endpoint(&self) -> Seq<char>;

    /// The path of the reference below `git/ref/`.
    fn get_ref_endpoint(&self) -> (r: String)
        ensures
            r@ == self.spec_ref_endpoint(),
    ;
}

/// A git tag, by name.
pub struct GitHubTag(pub String);

impl GitHubTag {
    /// The tag of the given name.
    pub fn from_str(s: &str) -> (r: Self)
        ensures
            r.0@ == s@,
    {
        GitHubTag(s.to_owned())
    }

    /// The name of the tag.
    pub fn to_string(&self) -> (r: String)
        ensures
            r@ == self.0@,
    {
        self.0.clone()
    }
}

impl GitHubRefId for GitHubTag {
    /// A tag's reference is `tags/` and its name.
    open spec fn spec_ref_endpoint(&self) -> Seq<char> {
        "tags/"@ + self.0@
    }

    fn get_ref_endpoint(&self) -> (r: String) {
        crate::text::concat2("tags/", self.0.as_str())
    }
}

} // verus!

//! The requests to GitHub's API: endpoints, headers, GraphQL queries and the
//! walk through paginated results.
pub mod graphql;

use vstd::prelude::*;
use vstd::string::*;

use crate::http::client::HttpEndpoint;
use crate::string_map::StringMap;

use super::{GitHubRefId, GitHubRepo, GitHubTag};

verus! {

/// A GraphQL request: a query and its variables.
pub struct GraphQLRequest<Variables> {
    pub query: String,
    pub variables: Variables,
}

/// An endpoint of GitHub's API.
pub enum GitHubApiEndpoint<'a> {
    GraphQL,
    /// A link given by a previous response, by its raw URI.
    Link(String),
    Releases(&'a GitHubRepo),
    ReleaseTag(&'a GitHubRepo, &'a GitHubTag),
    LatestRelease(&'a GitHubRepo),
    /// A git reference of a repository, by the path of the reference.
    GitRef(&'a GitHubRepo, String),
}

impl<'a> GitHubApiEndpoint<'a> {
    /// The endpoint of a git reference of a repository.
    pub fn git_ref<R: GitHubRefId>(repo: &'a GitHubRepo, ref_id: &R) -> (r: Self)
        ensures
            r matches GitHubApiEndpoint::GitRef(rr, path) && rr == repo && path@
                == ref_id.spec_ref_endpoint(),
    {
        GitHubApiEndpoint::GitRef(repo, ref_id.get_ref_endpoint())
    }

    /// The path of the endpoint below the API's root.
    pub open spec fn spec_path(&self) -> Seq<char> {
        match self {
            GitHubApiEndpoint::GraphQL => "graphql"@,
            GitHubApiEndpoint::Link(uri) => uri@,
            GitHubApiEndpoint::Releases(repo) => "repos/"@ + repo.spec_to_string() + "/releases"@,
            GitHubApiEndpoint::LatestRelease(repo) => "repos/"@ + repo.spec_to_string()
                + "/releases/latest"@,
            GitHubApiEndpoint::ReleaseTag(repo, tag) => "repos/"@ + repo.spec_to_string()
                + "/releases/tags/"@ + tag.0@,
            GitHubApiEndpoint::GitRef(repo, git_ref) => "repos/"@ + repo.spec_to_string()
                + "/git/ref/"@ + git_ref@,
        }
    }

    /// The absolute URL of the endpoint: a link as it was given, any other
    /// endpoint below `https://api.github.com/`.
    pub open spec fn spec_full_url(&self) -> Seq<char> {
        match self {
            GitHubApiEndpoint::Link(uri) => uri@,
            _ => "https://api.github.com/"@ + self.spec_path(),
        }
    }

    /// The path of the endpoint below the API's root.
    pub fn to_string(&self) -> (r: String)
        ensures
            r@ == self.spec_path(),
    {
        match self {
            GitHubApiEndpoint::GraphQL => "graphql".to_owned(),
            GitHubApiEndpoint::Link(uri) => uri.clone(),
            GitHubApiEndpoint::Releases(repo) => {
                let mut r = "repos/".to_owned();
                r.append(repo.to_string().as_str());
                r.append("/releases");
                r
            },
            GitHubApiEndpoint::LatestRelease(repo) => {
                let mut r = "repos/".to_owned();
                r.append(repo.to_string().as_str());
                r.append("/releases/latest");
                r
            },
            GitHubApiEndpoint::ReleaseTag(repo, tag) => {
                let mut r = "repos/".to_owned();
                r.append(repo.to_string().as_str());
                r.append("/releases/tags/");
                r.append(tag.to_string().as_str());
                r
            },
            GitHubApiEndpoint::GitRef(repo, git_ref) => {
                let mut r = "repos/".to_owned();
                r.append(repo.to_string().as_str());
                r.append("/git/ref/");
                r.append(git_ref.as_str());
                r
            },
        }
    }
}

impl<'a> HttpEndpoint for GitHubApiEndpoint<'a> {
    fn as_full_url(&self) -> (r: String)
        ensures
            r@ == self.spec_full_url(),
    {
        match self {
            GitHubApiEndpoint::Link(uri) => uri.clone(),
            _ => {
                let mut r = "https://api.github.com/".to_owned();
                r.append(self.to_string().as_str());
                r
            },
        }
    }
}

/// A page of a paginated listing.
#[derive(Debug, Clone, Copy)]
pub struct GitHubPagination {
    pub page: u8,
    pub per_page: u8,
}

impl GitHubPagination {
    /// The largest page size that GitHub's API serves.
    pub const MAX_PAGE_LIMIT: u8 = 100;

    /// The query parameters that select the page.
    pub fn query(&self) -> (r: Vec<(&'static str, u8)>)
        ensures
            r@.len() == 2,
            r@[0].0@ == "page"@,
            r@[0].1 == self.page,
            r@[1].0@ == "per_page"@,
            r@[1].1 == self.per_page,
    {
        let mut q: Vec<(&'static str, u8)> = Vec::new();
        q.push(("page", self.page));
        q.push(("per_page", self.per_page));
        q
    }
}

/// The media types that requests to GitHub's API accept.
pub open spec fn github_accept_text() -> Seq<char> {
    "application/vnd.github.v3+json; q=1.0, application/json; q=0.8"@
}

/// The headers of the GitHub client: its media types and its credentials.
pub fn client_headers(api_key: &str) -> (r: StringMap)
    ensures
        r@ == Map::<Seq<char>, Seq<char>>::empty().insert("accept"@, github_accept_text()).insert(
            "authorization"@,
            "Bearer "@ + api_key@,
        ),
{
    let mut headers = StringMap::new();
    headers.insert(
        "accept".to_owned(),
        "application/vnd.github.v3+json; q=1.0, application/json; q=0.8".to_owned(),
    );
    headers.insert("authorization".to_owned(), crate::text::concat2("Bearer ", api_key));
    headers
}

/// Names the map from the `rel` parameter of each link to its raw URI that
/// `parse_link_header::parse` gives for the value of a `Link` header; `None`
/// when the header does not parse.
pub uninterp spec fn link_header_links(header: Seq<char>) -> Option<Map<Option<Seq<char>>, Seq<char>>>;

/// The raw URI of the link with the given relation in a `Link` header.
pub open spec fn link_with_rel_spec(header: Seq<char>, rel: Seq<char>) -> Option<Seq<char>> {
    match link_header_links(header) {
        Some(links) => if links.contains_key(Some(rel)) {
            Some(links[Some(rel)])
        } else {
            None
        },
        None => None,
    }
}

/// Calls `parse_link_header::parse` on a `Link` header and gives each link
/// of the map it returns as its `rel` parameter and its raw URI, in the
/// order in which the map is walked. The contract claims that the result is
/// nothing exactly when the named parse refuses the header, and otherwise
/// that each pair is an entry of the named map and each entry of that map
/// is among the pairs; the order of the pairs is left unsaid.
#[verifier::external_body]
fn parse_links(header: &str) -> (r: Option<Vec<(Option<String>, String)>>)
    ensures
        r is None == link_header_links(header@) is None,
        r matches Some(pairs) ==> {
            let links = link_header_links(header@).unwrap();
            &&& forall|i: int|
                0 <= i < pairs@.len() ==> links.contains_key(opt_view(#[trigger] pairs@[i].0))
                    && links[opt_view(pairs@[i].0)] == pairs@[i].1@
            &&& forall|k: Option<Seq<char>>|
                #[trigger] links.contains_key(k) ==> exists|i: int|
                    0 <= i < pairs@.len() && opt_view(#[trigger] pairs@[i].0) == k
        },
{
    parse_link_header::parse(header).ok().map(
        |links| links.into_iter().map(|(rel, link)| (rel, link.raw_uri)).collect(),
    )
}

/// The raw URI of the link whose `rel` is `rel` in a `Link` header, when the
/// header parses and names such a link.
fn link_with_rel(header: &str, rel: &str) -> (r: Option<String>)
    ensures
        opt_view(r) == link_with_rel_spec(header@, rel@),
{
    match parse_links(header) {
        Some(pairs) => {
            let ghost links = link_header_links(header@).unwrap();
            let mut i: usize = 0;
            while i < pairs.len()
                invariant
                    i <= pairs@.len(),
                    link_header_links(header@) == Some(links),
                    forall|j: int|
                        0 <= j < pairs@.len() ==> links.contains_key(opt_view(#[trigger] pairs@[j].0))
                            && links[opt_view(pairs@[j].0)] == pairs@[j].1@,
                    forall|j: int| 0 <= j < i ==> opt_view(#[trigger] pairs@[j].0) != Some(rel@),
                decreases pairs@.len() - i,
            {
                let found = match &pairs[i].0 {
                    Some(k) => crate::text::str_eq(k.as_str(), rel),
                    None => false,
                };
                if found {
                    let uri = pairs[i].1.clone();
                    assert(opt_view(pairs@[i as int].0) == Some(rel@));
                    assert(links.contains_key(Some(rel@)));
                    assert(uri@ == links[Some(rel@)]);
                    return Some(uri);
                }
                i = i + 1;
            }
            proof {
                if links.contains_key(Some(rel@)) {
                    let j = choose|j: int|
                        0 <= j < pairs@.len() && opt_view(#[trigger] pairs@[j].0) == Some(rel@);
                    assert(opt_view(pairs@[j].0) != Some(rel@));
                }
            }
            None
        },
        None => None,
    }
}

/// A response of GitHub's API: its data and its `Link` header.
pub struct GitHubResponse<T> {
    pub data: T,
    pub link_header: Option<String>,
}

/// The URI of the next page named by an optional `Link` header.
pub open spec fn next_link_spec(link_header: Option<Seq<char>>) -> Option<Seq<char>> {
    match link_header {
        Some(h) => link_with_rel_spec(h, "next"@),
        None => None,
    }
}

/// The text of an optional string.
pub open spec fn opt_view(s: Option<String>) -> Option<Seq<char>> {
    match s {
        Some(t) => Some(t@),
        None => None,
    }
}

impl<T> GitHubResponse<T> {
    /// The URI of the next page, when the `Link` header names one.
    pub fn next_link(&self) -> (r: Option<String>)
        ensures
            opt_view(r) == next_link_spec(opt_view(self.link_header)),
    {
        match &self.link_header {
            Some(h) => link_with_rel(h.as_str(), "next"),
            None => None,
        }
    }
}

/// The walk through the pages of a paginated listing: it gathers the data of
/// each page and decides which page to fetch next.
pub struct Paginator<T> {
    data: Vec<T>,
}

impl<T> View for Paginator<T> {
    type V = Seq<T>;

    closed spec fn view(&self) -> Seq<T> {
        self.data@
    }
}

/// The page that follows one, if the walk goes on and the page links to a
/// next one.
pub open spec fn next_page_spec(should_continue: bool, link_header: Option<Seq<char>>) -> Option<
    Seq<char>,
> {
    if should_continue {
        next_link_spec(link_header)
    } else {
        None
    }
}

/// The data of the pages, one page after the other.
pub open spec fn pages_data<T>(pages: Seq<Seq<T>>) -> Seq<T>
    decreases pages.len(),
{
    if pages.len() == 0 {
        Seq::empty()
    } else {
        pages_data(pages.drop_last()) + pages.last()
    }
}

/// A walk through paginated data gathers the data of every page it fetched,
/// in order, the last page included, and it fetched each page after the first
/// from the `next` link of the page before, which it follows only while the
/// condition holds. Here `gathered[i]` is what the walk held before it
/// accepted its `i`-th page, whose data is `pages[i]`, whose `Link` header is
/// `headers[i]`, on which the condition gave `conds[i]`, and for which the
/// step gave `nexts[i]` as the page to fetch next, as `Paginator::accept_page`
/// states of each step.
pub proof fn lemma_walk_gathers_every_page<T>(
    gathered: Seq<Seq<T>>,
    pages: Seq<Seq<T>>,
    headers: Seq<Option<Seq<char>>>,
    conds: Seq<bool>,
    nexts: Seq<Option<Seq<char>>>,
)
    requires
        pages.len() >= 1,
        gathered.len() == pages.len() + 1,
        headers.len() == pages.len(),
        conds.len() == pages.len(),
        nexts.len() == pages.len(),
        gathered[0] == Seq::<T>::empty(),
        forall|i: int| 0 <= i < pages.len() ==> gathered[i + 1] == gathered[i] + #[trigger] pages[i],
        forall|i: int| 0 <= i < pages.len() ==> #[trigger] nexts[i] == next_page_spec(conds[i], headers[i]),
        forall|i: int| 0 <= i < pages.len() - 1 ==> (#[trigger] nexts[i]) is Some,
        nexts.last() is None,
    ensures
        gathered.last() == pages_data(pages),
        forall|i: int|
            0 <= i < pages.len() - 1 ==> #[trigger] conds[i] && next_link_spec(headers[i]) is Some
                && nexts[i] == next_link_spec(headers[i]),
        !conds.last() || next_link_spec(headers.last()) is None,
{
    assert forall|n: int| 0 <= n <= pages.len() implies #[trigger] gathered[n] == pages_data(
        pages.take(n),
    ) by {
        lemma_gathered_prefix(gathered, pages, n);
    }
    assert(pages.take(pages.len() as int) =~= pages);
    assert forall|i: int| 0 <= i < pages.len() - 1 implies #[trigger] conds[i] && next_link_spec(
        headers[i],
    ) is Some && nexts[i] == next_link_spec(headers[i]) by {
        assert(nexts[i] is Some);
    }
    let last = pages.len() - 1;
    assert(nexts[last] is None);
}

proof fn lemma_gathered_prefix<T>(gathered: Seq<Seq<T>>, pages: Seq<Seq<T>>, n: int)
    requires
        gathered.len() == pages.len() + 1,
        gathered[0] == Seq::<T>::empty(),
        forall|i: int| 0 <= i < pages.len() ==> gathered[i + 1] == gathered[i] + #[trigger] pages[i],
        0 <= n <= pages.len(),
    ensures
        gathered[n] == pages_data(pages.take(n)),
    decreases n,
{
    if n > 0 {
        lemma_gathered_prefix(gathered, pages, n - 1);
        assert(pages.take(n).drop_last() =~= pages.take(n - 1));
        assert(pages.take(n).last() == pages[n - 1]);
    }
}

impl<T> Paginator<T> {
    /// A walk that has gathered nothing yet.
    pub fn new() -> (r: Self)
        ensures
            r@ == Seq::<T>::empty(),
    {
        Paginator { data: Vec::with_capacity(GitHubPagination::MAX_PAGE_LIMIT as usize) }
    }

    /// Gathers the data of a page and returns the URI of the page to fetch
    /// next: the page's `next` link when `should_continue` holds, and none
    /// otherwise or when the page has no such link.
    pub fn accept_page(&mut self, page: GitHubResponse<Vec<T>>, should_continue: bool) -> (r:
        Option<String>)
        ensures
            final(self)@ == old(self)@ + page.data@,
            opt_view(r) == next_page_spec(should_continue, opt_view(page.link_header)),
    {
        let next = if should_continue {
            page.next_link()
        } else {
            None
        };
        let mut data = page.data;
        self.data.append(&mut data);
        next
    }

    /// The data of all the pages gathered, in order.
    pub fn into_data(self) -> (r: Vec<T>)
        ensures
            r@ == self@,
    {
        self.data
    }
}

} // verus!

//! The versions of Open VSX extensions, gathered page by page.
use vstd::prelude::*;

use super::client::spec::OpenVSXExtensionVersionsDto;
use crate::semver_sort::{newest_first, semver_sort_desc};

verus! {

/// How many versions a page holds.
pub const VERSIONS_OFFSET: u64 = 50;

/// Answers the questions about Open VSX extensions with the client that
/// fetches their data.
pub struct OpenVSXManager<C> {
    client: C,
}

impl<C> OpenVSXManager<C> {
    pub fn new(client: C) -> (r: Self)
        ensures
            r.client() == client,
    {
        Self { client }
    }

    /// The client that fetches the data.
    pub closed spec fn client(&self) -> C {
        self.client
    }

    /// The client that fetches the data.
    pub fn get_client(&self) -> (r: &C)
        ensures
            *r == self.client(),
    {
        &self.client
    }
}

/// The versions named by a page, in the order of its entries.
pub open spec fn page_versions(page: Seq<(String, String)>) -> Seq<String> {
    page.map_values(|e: (String, String)| e.0)
}

/// No version is named twice on a page, as in the map that Open VSX sends.
pub open spec fn distinct_versions(page: Seq<(String, String)>) -> bool {
    forall|i: int, j: int| 0 <= i < j < page.len() ==> (#[trigger] page[i]).0@ != (#[trigger] page[j]).0@
}

/// The walk through the pages of the versions of an extension: the first
/// page starts at offset 0, each next one `VERSIONS_OFFSET` further, and the
/// walk ends once the offset reaches the total number of versions that the
/// last page reported.
pub struct VersionsPager {
    cursor: u64,
    done: bool,
    versions: Vec<String>,
}

impl VersionsPager {
    /// The offset of the next page.
    pub closed spec fn cursor(&self) -> u64 {
        self.cursor
    }

    /// Whether all pages have been gathered.
    pub closed spec fn done(&self) -> bool {
        self.done
    }

    /// The versions gathered so far, page after page.
    pub closed spec fn versions(&self) -> Seq<String> {
        self.versions@
    }

    /// A walk that has fetched nothing yet.
    pub fn new() -> (r: Self)
        ensures
            r.cursor() == 0,
            !r.done(),
            r.versions() == Seq::<String>::empty(),
    {
        VersionsPager { cursor: 0, done: false, versions: Vec::new() }
    }

    /// The size and offset of the page to fetch next; none once the walk is
    /// over.
    pub fn next_request(&self) -> (r: Option<(u64, u64)>)
        ensures
            r == if self.done() {
                None
            } else {
                Some((VERSIONS_OFFSET, self.cursor()))
            },
    {
        if self.done {
            None
        } else {
            Some((VERSIONS_OFFSET, self.cursor))
        }
    }

    /// Whether the offset of the next page fits in a `u64`.
    pub fn can_advance(&self) -> (r: bool)
        ensures
            r == (self.cursor() + VERSIONS_OFFSET <= u64::MAX),
    {
        self.cursor <= u64::MAX - VERSIONS_OFFSET
    }

    /// Gathers the versions of a fetched page and moves to the next offset;
    /// the walk ends when that offset reaches the total the page reported.
    pub fn accept_page(&mut self, page: OpenVSXExtensionVersionsDto)
        requires
            !old(self).done(),
            old(self).cursor() + VERSIONS_OFFSET <= u64::MAX,
            distinct_versions(page.versions@),
        ensures
            final(self).cursor() == old(self).cursor() + VERSIONS_OFFSET,
            final(self).done() == (final(self).cursor() >= page.total_size),
            final(self).versions() == old(self).versions() + page_versions(page.versions@),
    {
        self.cursor = self.cursor + VERSIONS_OFFSET;
        self.done = self.cursor >= page.total_size;
        let ghost total = page.total_size;
        let ghost cursor = self.cursor;
        let ghost done = self.done;
        let entries = page.versions;
        let mut i: usize = 0;
        let ghost start = self.versions@;
        while i < entries.len()
            invariant
                i <= entries@.len(),
                self.cursor == cursor,
                self.done == done,
                self.versions@ == start + page_versions(entries@).take(i as int),
            decreases entries@.len() - i,
        {
            self.versions.push(entries[i].0.clone());
            proof {
                assert(page_versions(entries@).take(i + 1) =~= page_versions(entries@).take(
                    i as int,
                ).push(entries@[i as int].0));
            }
            i = i + 1;
        }
        assert(page_versions(entries@).take(i as int) =~= page_versions(entries@));
    }

    /// All the versions gathered, from the newest to the oldest.
    pub fn into_sorted_versions(self) -> (r: Vec<String>)
        ensures
            newest_first(self.versions(), r@),
    {
        semver_sort_desc(&self.versions)
    }
}

/// The versions named by the pages, one page after the other.
pub open spec fn pages_versions(pages: Seq<OpenVSXExtensionVersionsDto>) -> Seq<String>
    decreases pages.len(),
{
    if pages.len() == 0 {
        Seq::empty()
    } else {
        pages_versions(pages.drop_last()) + page_versions(pages.last().versions@)
    }
}

/// The walk `after` is `before` once it has accepted `page`, as
/// `VersionsPager::accept_page` states.
pub open spec fn accepted(before: VersionsPager, page: OpenVSXExtensionVersionsDto, after: VersionsPager) -> bool {
    &&& after.cursor() == before.cursor() + VERSIONS_OFFSET
    &&& after.done() == (after.cursor() >= page.total_size)
    &&& after.versions() == before.versions() + page_versions(page.versions@)
}

/// A walk through the versions of an extension asks for its `i`-th page at
/// offset `VERSIONS_OFFSET * i`; it goes on after a page exactly when the next
/// offset lies below the total that the page reported, so it ends after the
/// first page `i` with `VERSIONS_OFFSET * (i + 1)` at least its total (after
/// one page when the first total is at most `VERSIONS_OFFSET`); and it gathers
/// the versions of every page, in order. Here `walk[i]` is the walk before it
/// accepted `pages[i]` and `walk[i + 1]` after, as `VersionsPager::new` and
/// `VersionsPager::accept_page` state.
pub proof fn lemma_offsets_walk(walk: Seq<VersionsPager>, pages: Seq<OpenVSXExtensionVersionsDto>)
    requires
        pages.len() >= 1,
        walk.len() == pages.len() + 1,
        walk[0].cursor() == 0,
        walk[0].versions() == Seq::<String>::empty(),
        forall|i: int| 0 <= i < pages.len() ==> !(#[trigger] walk[i]).done(),
        forall|i: int| 0 <= i < pages.len() ==> accepted(walk[i], #[trigger] pages[i], walk[i + 1]),
    ensures
        forall|i: int| 0 <= i <= pages.len() ==> (#[trigger] walk[i]).cursor() == VERSIONS_OFFSET * i,
        forall|i: int|
            0 <= i < pages.len() - 1 ==> VERSIONS_OFFSET * (i + 1) < (#[trigger] pages[i]).total_size,
        walk.last().done() == (VERSIONS_OFFSET * pages.len() >= pages.last().total_size),
        walk.last().versions() == pages_versions(pages),
{
    assert forall|n: int| 0 <= n <= pages.len() implies (#[trigger] walk[n]).cursor() == VERSIONS_OFFSET
        * n && walk[n].versions() == pages_versions(pages.take(n)) by {
        lemma_offsets_prefix(walk, pages, n);
    }
    assert forall|i: int| 0 <= i < pages.len() - 1 implies VERSIONS_OFFSET * (i + 1) < (
    #[trigger] pages[i]).total_size by {
        assert(!walk[i + 1].done());
        assert(accepted(walk[i], pages[i], walk[i + 1]));
        assert(walk[i + 1].cursor() == VERSIONS_OFFSET * (i + 1));
    }
    let n = pages.len() as int;
    assert(accepted(walk[n - 1], pages[n - 1], walk[n]));
    assert(walk[n].cursor() == VERSIONS_OFFSET * n);
    assert(pages.take(n) =~= pages);
}

proof fn lemma_offsets_prefix(walk: Seq<VersionsPager>, pages: Seq<OpenVSXExtensionVersionsDto>, n: int)
    requires
        walk.len() == pages.len() + 1,
        walk[0].cursor() == 0,
        walk[0].versions() == Seq::<String>::empty(),
        forall|i: int| 0 <= i < pages.len() ==> accepted(walk[i], #[trigger] pages[i], walk[i + 1]),
        0 <= n <= pages.len(),
    ensures
        walk[n].cursor() == VERSIONS_OFFSET * n,
        walk[n].versions() == pages_versions(pages.take(n)),
    decreases n,
{
    if n > 0 {
        lemma_offsets_prefix(walk, pages, n - 1);
        assert(accepted(walk[n - 1], pages[n - 1], walk[n]));
        assert(pages.take(n).drop_last() =~= pages.take(n - 1));
        assert(pages.take(n).last() == pages[n - 1]);
    }
}

} // verus!

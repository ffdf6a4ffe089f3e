pub mod badges;
pub mod crates;
pub mod errors;
pub mod github;
pub mod golang;
pub mod http;
pub mod json;
pub mod npm;
pub mod openvsx;
pub mod packagist;
pub mod renovate;
pub mod rubygems;
pub mod search;
pub mod semver_sort;
pub mod string_map;
pub mod text;
pub mod vercel;

use vstd::prelude::*;

use crate::string_map::{pair_views, pairs_to_map, StringMap};

verus! {

/// Names the (name, value) pairs, percent-decoded and in order, that
/// `url::form_urlencoded::parse` yields for the bytes of a query string.
pub uninterp spec fn form_urlencoded_pairs(query: Seq<char>) -> Seq<(Seq<char>, Seq<char>)>;

/// Calls `url::form_urlencoded::parse` on the bytes of `query` and collects the
/// owned pairs. The contract claims only that the pairs are the named result
/// of that call on this query; how the query is split and decoded is left to
/// the url crate.
#[verifier::external_body]
fn parse_form_urlencoded(query: &str) -> (r: Vec<(String, String)>)
    ensures
        pair_views(r@) == form_urlencoded_pairs(query@),
{
    url::form_urlencoded::parse(query.as_bytes()).into_owned().collect()
}

/// The query parameters of a request, by name.
pub struct QueryParams(StringMap);

impl View for QueryParams {
    type V = Map<Seq<char>, Seq<char>>;

    closed spec fn view(&self) -> Map<Seq<char>, Seq<char>> {
        self.0@
    }
}

/// The values that switch a flag on.
pub open spec fn is_flag_value(v: Seq<char>) -> bool {
    v == ""@ || v == "1"@ || v == "true"@
}

/// A flag is on exactly for the values `""`, `"1"` and `"true"`: any other
/// value, such as `"0"` or `"false"`, leaves it off, and a parameter that is
/// absent leaves it off too.
pub proof fn lemma_flag_on_only_for_on_values(params: QueryParams, name: Seq<char>)
    ensures
        (params@.contains_key(name) && is_flag_value(params@[name])) <==> (params@.contains_key(
            name,
        ) && (params@[name] == ""@ || params@[name] == "1"@ || params@[name] == "true"@)),
        !is_flag_value("0"@),
        !is_flag_value("false"@),
{
    reveal_strlit("");
    reveal_strlit("0");
    reveal_strlit("1");
    reveal_strlit("true");
    reveal_strlit("false");
    assert(""@.len() == 0 && "0"@.len() == 1 && "1"@.len() == 1);
    assert("true"@.len() == 4 && "false"@.len() == 5);
    assert("0"@[0] == '0' && "1"@[0] == '1');
    assert("0"@ != "1"@) by {
        assert("0"@[0] != "1"@[0]);
    }
}

impl QueryParams {
    /// The parameters of a query string such as `a=1&b=two`: a parameter
    /// given twice keeps its last value.
    pub fn parse(query: &str) -> (r: QueryParams)
        ensures
            r@ == pairs_to_map(form_urlencoded_pairs(query@)),
    {
        let pairs = parse_form_urlencoded(query);
        QueryParams::from_pairs(&pairs)
    }

    /// The parameters made of decoded (name, value) pairs, in order: a
    /// parameter given twice keeps its last value.
    pub fn from_pairs(pairs: &Vec<(String, String)>) -> (r: QueryParams)
        ensures
            r@ == pairs_to_map(pair_views(pairs@)),
    {
        QueryParams(StringMap::from_pairs(pairs))
    }

    /// The value of a parameter.
    pub fn get(&self, query: &str) -> (r: Option<&String>)
        ensures
            r is Some == self@.contains_key(query@),
            r matches Some(v) ==> v@ == self@[query@],
    {
        self.0.get(query)
    }

    /// Whether a parameter is set as a flag: present with the value `""`,
    /// `"1"` or `"true"`.
    pub fn has_flag(&self, query: &str) -> (r: bool)
        ensures
            r == (self@.contains_key(query@) && is_flag_value(self@[query@])),
    {
        match self.get(query) {
            Some(v) => {
                let v = v.as_str();
                crate::text::str_eq(v, "") || crate::text::str_eq(v, "1") || crate::text::str_eq(
                    v,
                    "true",
                )
            },
            None => false,
        }
    }
}

/// A parameter given more than once keeps the value of its last occurrence:
/// when the pair at `i` is the last one named `k`, the parameters made of the
/// pairs give `k` that pair's value.
pub proof fn lemma_repeated_parameter_keeps_last(
    pairs: Seq<(Seq<char>, Seq<char>)>,
    k: Seq<char>,
    i: int,
)
    requires
        0 <= i < pairs.len(),
        pairs[i].0 == k,
        forall|j: int| i < j < pairs.len() ==> #[trigger] pairs[j].0 != k,
    ensures
        pairs_to_map(pairs).contains_key(k),
        pairs_to_map(pairs)[k] == pairs[i].1,
    decreases pairs.len(),
{
    if i < pairs.len() - 1 {
        let init = pairs.drop_last();
        assert forall|j: int| i < j < init.len() implies #[trigger] init[j].0 != k by {
            assert(pairs[j].0 != k);
        }
        lemma_repeated_parameter_keeps_last(init, k, i);
        assert(pairs[pairs.len() - 1].0 != k);
    }
}

/// How long a response may be cached.
#[derive(PartialEq, Eq, Structural, Debug, Clone, Copy)]
pub enum CacheControl {
    NoStore,
    PublicShort,
    PublicMedium,
    PublicLong,
}

impl CacheControl {
    /// The text of the `Cache-Control` header.
    pub open spec fn header_text(self) -> Seq<char> {
        match self {
            CacheControl::NoStore => "no-store"@,
            CacheControl::PublicShort => "max-age=0, s-maxage=60, stale-while-revalidate=120"@,
            CacheControl::PublicMedium => "max-age=0, s-maxage=900"@,
            CacheControl::PublicLong => "max-age=0, s-maxage=86400"@,
        }
    }

    /// The value of the `Cache-Control` header for this policy.
    pub fn get_header(&self) -> (r: &'static str)
        ensures
            r@ == self.header_text(),
    {
        match self {
            CacheControl::NoStore => "no-store",
            CacheControl::PublicShort => "max-age=0, s-maxage=60, stale-while-revalidate=120",
            CacheControl::PublicMedium => "max-age=0, s-maxage=900",
            CacheControl::PublicLong => "max-age=0, s-maxage=86400",
        }
    }
}

/// The body of an error response.
pub struct ErrResponse {
    pub message: String,
}

} // verus!

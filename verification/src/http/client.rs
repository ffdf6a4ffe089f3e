//! What the library decides about outgoing requests: their URLs and headers.
use vstd::prelude::*;

use crate::string_map::StringMap;

verus! {

/// An endpoint of an upstream API.
pub trait HttpEndpoint {
    /// The absolute URL of the endpoint.
    fn as_full_url(&self) -> String;
}

/// The user agent sent with every request.
pub open spec fn user_agent_text() -> Seq<char> {
    "mason-registry-api (+https://github.com/mason-org/mason-registry-api)"@
}

/// The headers sent with every request unless the client overrides them.
pub open spec fn default_headers() -> Map<Seq<char>, Seq<char>> {
    Map::empty().insert("accept"@, "application/json"@).insert("user-agent"@, user_agent_text())
}

/// A client's own header replaces the default of the same name, and a
/// default that the client does not set is sent as it is.
pub proof fn lemma_client_header_overrides_default(custom: Map<Seq<char>, Seq<char>>, name: Seq<char>)
    ensures
        custom.contains_key(name) ==> default_headers().union_prefer_right(custom)[name]
            == custom[name],
        !custom.contains_key(name) && default_headers().contains_key(name) ==> default_headers().union_prefer_right(
            custom,
        )[name] == default_headers()[name],
        default_headers().union_prefer_right(custom).contains_key(name) <==> (custom.contains_key(
            name,
        ) || default_headers().contains_key(name)),
{
}

/// The headers of a request: the defaults, each replaced by the client's own
/// header of the same name, and the client's other headers.
pub fn request_headers(custom: &Option<StringMap>) -> (r: StringMap)
    ensures
        match custom {
            Some(c) => r@ == default_headers().union_prefer_right(c@),
            None => r@ == default_headers(),
        },
{
    let mut headers = StringMap::new();
    headers.insert("accept".to_owned(), "application/json".to_owned());
    headers.insert(
        "user-agent".to_owned(),
        "mason-registry-api (+https://github.com/mason-org/mason-registry-api)".to_owned(),
    );
    match custom {
        Some(c) => {
            let entries = c.entries();
            let mut i: usize = 0;
            while i < entries.len()
                invariant
                    i <= entries@.len(),
                    c@ == crate::string_map::pairs_to_map(
                        crate::string_map::pair_views(entries@),
                    ),
                    headers@ == default_headers().union_prefer_right(
                        crate::string_map::pairs_to_map(
                            crate::string_map::pair_views(entries@).take(i as int),
                        ),
                    ),
                decreases entries@.len() - i,
            {
                headers.insert(entries[i].0.clone(), entries[i].1.clone());
                proof {
                    let pv = crate::string_map::pair_views(entries@);
                    assert(pv.take(i + 1).drop_last() =~= pv.take(i as int));
                    assert(default_headers().union_prefer_right(
                        crate::string_map::pairs_to_map(pv.take(i as int)),
                    ).insert(pv[i as int].0, pv[i as int].1) =~= default_headers().union_prefer_right(
                        crate::string_map::pairs_to_map(pv.take(i + 1)),
                    ));
                }
                i = i + 1;
            }
            proof {
                let pv = crate::string_map::pair_views(entries@);
                assert(pv.take(i as int) =~= pv);
            }
        },
        None => {
            assert(headers@ =~= default_headers());
        },
    }
    headers
}

} // verus!

//! Shapes shared by the GraphQL queries.
pub mod sponsors;
pub mod tags;

use vstd::prelude::*;

use crate::json::{
    as_opt_string, decode_bool, decode_opt_string, member, opt_string_view, JsonValue,
};

verus! {

/// An edge of a GraphQL connection: a node and its cursor.
#[derive(Debug)]
pub struct Edge<Node> {
    pub cursor: String,
    pub node: Node,
}

/// Where a page of a GraphQL connection stands.
#[derive(Debug)]
pub struct PageInfo {
    pub start_cursor: Option<String>,
    pub end_cursor: Option<String>,
    pub has_next_page: bool,
    pub has_previous_page: bool,
}

/// The plain content of a page info.
pub type PageInfoView = (Option<Seq<char>>, Option<Seq<char>>, bool, bool);

impl PageInfo {
    pub open spec fn spec_view(&self) -> PageInfoView {
        (
            opt_string_view(self.start_cursor),
            opt_string_view(self.end_cursor),
            self.has_next_page,
            self.has_previous_page,
        )
    }
}

/// A required boolean member.
pub open spec fn decode_required_bool(v: Option<JsonValue>) -> Option<bool> {
    match v {
        Some(x) => decode_bool(x),
        None => None,
    }
}

/// The JSON value of an optional string: the string, or `null`.
pub open spec fn string_or_null(s: Option<String>) -> JsonValue {
    match s {
        Some(t) => JsonValue::String(t),
        None => JsonValue::Null,
    }
}

/// Each field of a page info comes from the JSON member of its own name:
/// an object whose members `startCursor` and `endCursor` are strings or
/// `null` and whose members `hasNextPage` and `hasPreviousPage` are booleans
/// gives the page info with those cursors and flags.
pub proof fn lemma_page_info_fields_from_members(
    es: Vec<(String, JsonValue)>,
    start: Option<String>,
    end: Option<String>,
    next: bool,
    prev: bool,
)
    requires
        member(es@, "startCursor"@) == Some(string_or_null(start)),
        member(es@, "endCursor"@) == Some(string_or_null(end)),
        member(es@, "hasNextPage"@) == Some(JsonValue::Bool(next)),
        member(es@, "hasPreviousPage"@) == Some(JsonValue::Bool(prev)),
    ensures
        decode_page_info(JsonValue::Object(es)) == Some(
            (opt_string_view(start), opt_string_view(end), next, prev),
        ),
{
}

/// A page info decoded from JSON: an object with the members `startCursor`
/// and `endCursor` (strings, `null` or absent) and `hasNextPage` and
/// `hasPreviousPage` (booleans), or an array of these four values in order.
pub open spec fn decode_page_info(v: JsonValue) -> Option<PageInfoView> {
    match v {
        JsonValue::Object(es) => {
            let start = decode_opt_string(member(es@, "startCursor"@));
            let end = decode_opt_string(member(es@, "endCursor"@));
            let next = decode_required_bool(member(es@, "hasNextPage"@));
            let prev = decode_required_bool(member(es@, "hasPreviousPage"@));
            if start is Some && end is Some && next is Some && prev is Some {
                Some((start.unwrap(), end.unwrap(), next.unwrap(), prev.unwrap()))
            } else {
                None
            }
        },
        JsonValue::Array(items) => {
            if items@.len() == 4 {
                let start = decode_opt_string(Some(items@[0]));
                let end = decode_opt_string(Some(items@[1]));
                let next = decode_bool(items@[2]);
                let prev = decode_bool(items@[3]);
                if start is Some && end is Some && next is Some && prev is Some {
                    Some((start.unwrap(), end.unwrap(), next.unwrap(), prev.unwrap()))
                } else {
                    None
                }
            } else {
                None
            }
        },
        _ => None,
    }
}

/// A required boolean member.
fn required_bool(v: Option<&JsonValue>) -> (r: Option<bool>)
    ensures
        r == decode_required_bool(
            match v {
                Some(x) => Some(*x),
                None => None,
            },
        ),
{
    match v {
        Some(x) => x.as_bool(),
        None => None,
    }
}

impl PageInfo {
    /// Decodes a page info from JSON.
    pub fn from_json(v: &JsonValue) -> (r: Option<PageInfo>)
        ensures
            match r {
                Some(p) => decode_page_info(*v) == Some(p.spec_view()),
                None => decode_page_info(*v) is None,
            },
    {
        match v {
            JsonValue::Object(_) => {
                let start = as_opt_string(v.get("startCursor"));
                let end = as_opt_string(v.get("endCursor"));
                let next = required_bool(v.get("hasNextPage"));
                let prev = required_bool(v.get("hasPreviousPage"));
                match (start, end, next, prev) {
                    (Some(start_cursor), Some(end_cursor), Some(has_next_page), Some(has_previous_page)) => {
                        Some(PageInfo { start_cursor, end_cursor, has_next_page, has_previous_page })
                    },
                    _ => None,
                }
            },
            JsonValue::Array(items) => {
                if items.len() == 4 {
                    let start = as_opt_string(Some(&items[0]));
                    let end = as_opt_string(Some(&items[1]));
                    let next = items[2].as_bool();
                    let prev = items[3].as_bool();
                    match (start, end, next, prev) {
                        (Some(start_cursor), Some(end_cursor), Some(has_next_page), Some(has_previous_page)) => {
                            Some(PageInfo { start_cursor, end_cursor, has_next_page, has_previous_page })
                        },
                        _ => None,
                    }
                } else {
                    None
                }
            },
            _ => None,
        }
    }
}

} // verus!

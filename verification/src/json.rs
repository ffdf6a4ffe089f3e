//! A JSON document as a tree of plain values, and the decoding of the parts
//! of it that the API reads.
use vstd::prelude::*;

verus! {

/// A JSON value. Numbers are kept as their text; an object keeps its members
/// in order, with distinct names when it comes from a parsed document.
#[derive(Debug)]
pub enum JsonValue {
    Null,
    Bool(bool),
    Number(String),
    String(String),
    Array(Vec<JsonValue>),
    Object(Vec<(String, JsonValue)>),
}

/// Why a JSON document could not be decoded.
#[derive(Debug, PartialEq, Eq, Clone, Copy)]
pub enum DecodeError {
    /// The document is not a JSON object.
    NotAnObject,
    /// A member that the document must have is missing; the text names it.
    MissingField(&'static str),
    /// A part of the document does not have the expected shape.
    Custom(&'static str),
}

/// The value of the first member with the given name.
pub open spec fn member(entries: Seq<(String, JsonValue)>, key: Seq<char>) -> Option<JsonValue>
    decreases entries.len(),
{
    if entries.len() == 0 {
        None
    } else if entries[0].0@ == key {
        Some(entries[0].1)
    } else {
        member(entries.drop_first(), key)
    }
}

/// A member is found by its name: the value found is that of a member with
/// the name before which no member has it; and none is found exactly when
/// no member has the name.
pub proof fn lemma_member_finds_the_name(entries: Seq<(String, JsonValue)>, key: Seq<char>)
    ensures
        member(entries, key) matches Some(v) ==> exists|k: int|
            0 <= k < entries.len() && (#[trigger] entries[k]).0@ == key && entries[k].1 == v && forall|
                l: int,
            | 0 <= l < k ==> (#[trigger] entries[l]).0@ != key,
        member(entries, key) is None <==> forall|l: int|
            0 <= l < entries.len() ==> (#[trigger] entries[l]).0@ != key,
    decreases entries.len(),
{
    if entries.len() > 0 {
        let rest = entries.drop_first();
        lemma_member_finds_the_name(rest, key);
        if entries[0].0@ != key {
            match member(rest, key) {
                Some(v) => {
                    let k = choose|k: int|
                        0 <= k < rest.len() && (#[trigger] rest[k]).0@ == key && rest[k].1 == v && forall|
                            l: int,
                        | 0 <= l < k ==> (#[trigger] rest[l]).0@ != key;
                    assert(entries[k + 1] == rest[k]);
                    assert forall|l: int| 0 <= l < k + 1 implies (#[trigger] entries[l]).0@ != key by {
                        if l > 0 {
                            assert(entries[l] == rest[l - 1]);
                        }
                    }
                },
                None => {
                    assert forall|l: int| 0 <= l < entries.len() implies (#[trigger] entries[l]).0@ != key by {
                        if l > 0 {
                            assert(entries[l] == rest[l - 1]);
                        }
                    }
                },
            }
            assert((forall|l: int| 0 <= l < entries.len() ==> (#[trigger] entries[l]).0@ != key) ==> (
            forall|l: int| 0 <= l < rest.len() ==> (#[trigger] rest[l]).0@ != key)) by {
                assert forall|l: int|
                    (forall|m: int| 0 <= m < entries.len() ==> (#[trigger] entries[m]).0@ != key) && 0 <= l
                        < rest.len() implies (#[trigger] rest[l]).0@ != key by {
                    assert(rest[l] == entries[l + 1]);
                }
            }
        } else {
            assert(entries[0].0@ == key);
        }
    }
}

/// The value of a member of an object; nothing for any other value.
pub open spec fn json_get(v: JsonValue, key: Seq<char>) -> Option<JsonValue> {
    match v {
        JsonValue::Object(entries) => member(entries@, key),
        _ => None,
    }
}

/// A string value.
pub open spec fn decode_string(v: JsonValue) -> Option<Seq<char>> {
    match v {
        JsonValue::String(s) => Some(s@),
        _ => None,
    }
}

/// A boolean value.
pub open spec fn decode_bool(v: JsonValue) -> Option<bool> {
    match v {
        JsonValue::Bool(b) => Some(b),
        _ => None,
    }
}

/// An optional string, from a value that may be absent: absent and `null`
/// give no string.
pub open spec fn decode_opt_string(v: Option<JsonValue>) -> Option<Option<Seq<char>>> {
    match v {
        None => Some(None),
        Some(JsonValue::Null) => Some(None),
        Some(JsonValue::String(s)) => Some(Some(s@)),
        Some(_) => None,
    }
}

proof fn lemma_member_skip(entries: Seq<(String, JsonValue)>, key: Seq<char>, i: int)
    requires
        0 <= i < entries.len(),
    ensures
        member(entries.skip(i), key) == if entries[i].0@ == key {
            Some(entries[i].1)
        } else {
            member(entries.skip(i + 1), key)
        },
{
    assert(entries.skip(i).drop_first() =~= entries.skip(i + 1));
    assert(entries.skip(i)[0] == entries[i]);
}

/// The value of the first member with the given name.
pub fn find_member<'a>(entries: &'a Vec<(String, JsonValue)>, key: &str) -> (r: Option<&'a JsonValue>)
    ensures
        match r {
            Some(v) => member(entries@, key@) == Some(*v),
            None => member(entries@, key@) is None,
        },
{
    let mut i: usize = 0;
    assert(entries@.skip(0) =~= entries@);
    while i < entries.len()
        invariant
            i <= entries@.len(),
            member(entries@, key@) == member(entries@.skip(i as int), key@),
        decreases entries@.len() - i,
    {
        proof {
            lemma_member_skip(entries@, key@, i as int);
        }
        if crate::text::str_eq(entries[i].0.as_str(), key) {
            return Some(&entries[i].1);
        }
        i = i + 1;
    }
    assert(entries@.skip(i as int).len() == 0);
    None
}

impl JsonValue {
    /// The value of a member of an object; nothing for any other value.
    pub fn get(&self, key: &str) -> (r: Option<&JsonValue>)
        ensures
            match r {
                Some(v) => json_get(*self, key@) == Some(*v),
                None => json_get(*self, key@) is None,
            },
    {
        match self {
            JsonValue::Object(entries) => find_member(entries, key),
            _ => None,
        }
    }

    /// A string value.
    pub fn as_string(&self) -> (r: Option<String>)
        ensures
            match r {
                Some(s) => decode_string(*self) == Some(s@),
                None => decode_string(*self) is None,
            },
    {
        match self {
            JsonValue::String(s) => Some(s.clone()),
            _ => None,
        }
    }

    /// A boolean value.
    pub fn as_bool(&self) -> (r: Option<bool>)
        ensures
            r == decode_bool(*self),
    {
        match self {
            JsonValue::Bool(b) => Some(*b),
            _ => None,
        }
    }
}

/// The text of an optional string.
pub open spec fn opt_string_view(s: Option<String>) -> Option<Seq<char>> {
    match s {
        Some(t) => Some(t@),
        None => None,
    }
}

/// An optional string from a value that may be absent.
pub fn as_opt_string(v: Option<&JsonValue>) -> (r: Option<Option<String>>)
    ensures
        match r {
            Some(s) => decode_opt_string(
                match v {
                    Some(x) => Some(*x),
                    None => None,
                },
            ) == Some(opt_string_view(s)),
            None => decode_opt_string(
                match v {
                    Some(x) => Some(*x),
                    None => None,
                },
            ) is None,
        },
{
    match v {
        None => Some(None),
        Some(JsonValue::Null) => Some(None),
        Some(JsonValue::String(s)) => Some(Some(s.clone())),
        Some(_) => None,
    }
}

} // verus!

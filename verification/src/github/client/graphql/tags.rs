//! The GraphQL query for the tags of a repository, newest commit first.
use vstd::prelude::*;

use super::{decode_page_info, PageInfo, PageInfoView};
use crate::github::client::GraphQLRequest;
use crate::github::GitHubRepo;
use crate::json::{decode_string, json_get, member, DecodeError, JsonValue};

verus! {

/// The variables of the tags query.
#[derive(Debug)]
pub struct Variables {
    pub owner: String,
    pub name: String,
    pub first: u64,
    pub after: Option<String>,
}

/// The text of the tags query.
pub const QUERY: &'static str = r#"
    query TagsQuery($owner: String!, $name: String!, $first: Int!, $after: String) {
      repository(owner: $owner, name: $name) {
        refs(refPrefix: "refs/tags/", first: $first, after: $after, orderBy: { field: TAG_COMMIT_DATE, direction: DESC }) {
          pageInfo {
              startCursor
              endCursor
              hasNextPage
              hasPreviousPage
          }
          nodes {
            name
          }
        }
      }
    }
"#;

/// A tag, by name.
#[derive(Debug)]
pub struct Tag {
    pub name: String,
}

/// A page of the tags of a repository.
#[derive(Debug)]
pub struct TagsQuery {
    pub tags: Vec<Tag>,
    pub page_info: PageInfo,
}

/// A tag decoded from JSON: an object with a string member `name`, or an
/// array holding just that string.
pub open spec fn decode_tag(v: JsonValue) -> Option<Seq<char>> {
    match v {
        JsonValue::Object(es) => match member(es@, "name"@) {
            Some(name) => decode_string(name),
            None => None,
        },
        JsonValue::Array(items) => if items@.len() == 1 {
            decode_string(items@[0])
        } else {
            None
        },
        _ => None,
    }
}

/// A tag's name is the JSON member `name`: an object whose member `name` is
/// a string gives the tag with that name.
pub proof fn lemma_tag_name_from_member(es: Vec<(String, JsonValue)>, name: String)
    requires
        member(es@, "name"@) == Some(JsonValue::String(name)),
    ensures
        decode_tag(JsonValue::Object(es)) == Some(name@),
{
}

/// A list of tags decoded from JSON: an array whose every item is a tag.
pub open spec fn decode_tags(v: JsonValue) -> Option<Seq<Seq<char>>> {
    match v {
        JsonValue::Array(items) => if forall|i: int|
            0 <= i < items@.len() ==> #[trigger] decode_tag(items@[i]) is Some {
            Some(Seq::new(items@.len(), |i: int| decode_tag(items@[i]).unwrap()))
        } else {
            None
        },
        _ => None,
    }
}

/// The plain content of a page of tags: their names and the page info.
pub type TagsQueryView = (Seq<Seq<char>>, PageInfoView);

/// A page of tags decoded from the response to the query: the connection
/// at `data.repository.refs`, its `nodes` the tags and its `pageInfo` the
/// page info. Each missing member and each undecodable part has its error.
pub open spec fn decode_tags_query(response: JsonValue) -> Result<TagsQueryView, DecodeError> {
    match response {
        JsonValue::Object(es) => match member(es@, "data"@) {
            None => Err(DecodeError::MissingField("data key missing.")),
            Some(data) => match json_get(data, "repository"@) {
                None => Err(DecodeError::MissingField("repository key missing.")),
                Some(repository) => match json_get(repository, "refs"@) {
                    None => Err(DecodeError::MissingField("repository.refs key missing.")),
                    Some(refs) => match json_get(refs, "nodes"@) {
                        None => Err(DecodeError::MissingField("nodes key missing.")),
                        Some(nodes) => match json_get(refs, "pageInfo"@) {
                            None => Err(DecodeError::MissingField("pageInfo key missing.")),
                            Some(page_info) => match decode_tags(nodes) {
                                None => Err(DecodeError::Custom("Failed to deserialize tags.")),
                                Some(tags) => match decode_page_info(page_info) {
                                    None => Err(
                                        DecodeError::Custom("Failed to deserialize pageInfo."),
                                    ),
                                    Some(p) => Ok((tags, p)),
                                },
                            },
                        },
                    },
                },
            },
        },
        _ => Err(DecodeError::NotAnObject),
    }
}

impl Tag {
    /// Decodes a tag from JSON.
    pub fn from_json(v: &JsonValue) -> (r: Option<Tag>)
        ensures
            match r {
                Some(t) => decode_tag(*v) == Some(t.name@),
                None => decode_tag(*v) is None,
            },
    {
        match v {
            JsonValue::Object(_) => match v.get("name") {
                Some(name) => match name.as_string() {
                    Some(name) => Some(Tag { name }),
                    None => None,
                },
                None => None,
            },
            JsonValue::Array(items) => {
                if items.len() == 1 {
                    match items[0].as_string() {
                        Some(name) => Some(Tag { name }),
                        None => None,
                    }
                } else {
                    None
                }
            },
            _ => None,
        }
    }
}

/// The names of a list of tags.
pub open spec fn tag_names(tags: Seq<Tag>) -> Seq<Seq<char>> {
    tags.map_values(|t: Tag| t.name@)
}

/// Decodes a list of tags from JSON.
pub fn tags_from_json(v: &JsonValue) -> (r: Option<Vec<Tag>>)
    ensures
        match r {
            Some(tags) => decode_tags(*v) == Some(tag_names(tags@)),
            None => decode_tags(*v) is None,
        },
{
    match v {
        JsonValue::Array(items) => {
            let mut tags: Vec<Tag> = Vec::new();
            let mut i: usize = 0;
            while i < items.len()
                invariant
                    *v == JsonValue::Array(*items),
                    i <= items@.len(),
                    tags@.len() == i,
                    forall|j: int| 0 <= j < i ==> #[trigger] decode_tag(items@[j]) == Some(tags@[j].name@),
                decreases items@.len() - i,
            {
                match Tag::from_json(&items[i]) {
                    Some(t) => {
                        tags.push(t);
                    },
                    None => {
                        assert(decode_tag(items@[i as int]) is None);
                        return None;
                    },
                }
                i = i + 1;
            }
            assert(Seq::new(items@.len(), |k: int| decode_tag(items@[k]).unwrap()) =~= tag_names(tags@));
            Some(tags)
        },
        _ => None,
    }
}

impl TagsQuery {
    /// The plain content of the page.
    pub open spec fn spec_view(&self) -> TagsQueryView {
        (tag_names(self.tags@), self.page_info.spec_view())
    }

    /// Decodes a page of tags from the JSON response to the query.
    pub fn from_json(response: &JsonValue) -> (r: Result<TagsQuery, DecodeError>)
        ensures
            match r {
                Ok(q) => decode_tags_query(*response) == Ok::<TagsQueryView, DecodeError>(q.spec_view()),
                Err(e) => decode_tags_query(*response) == Err::<TagsQueryView, DecodeError>(e),
            },
    {
        match response {
            JsonValue::Object(_) => {},
            _ => {
                return Err(DecodeError::NotAnObject);
            },
        }
        let data = match response.get("data") {
            Some(d) => d,
            None => {
                return Err(DecodeError::MissingField("data key missing."));
            },
        };
        let repository = match data.get("repository") {
            Some(d) => d,
            None => {
                return Err(DecodeError::MissingField("repository key missing."));
            },
        };
        let refs = match repository.get("refs") {
            Some(d) => d,
            None => {
                return Err(DecodeError::MissingField("repository.refs key missing."));
            },
        };
        let nodes = match refs.get("nodes") {
            Some(d) => d,
            None => {
                return Err(DecodeError::MissingField("nodes key missing."));
            },
        };
        let page_info = match refs.get("pageInfo") {
            Some(d) => d,
            None => {
                return Err(DecodeError::MissingField("pageInfo key missing."));
            },
        };
        let tags = match tags_from_json(nodes) {
            Some(t) => t,
            None => {
                return Err(DecodeError::Custom("Failed to deserialize tags."));
            },
        };
        let page_info = match PageInfo::from_json(page_info) {
            Some(p) => p,
            None => {
                return Err(DecodeError::Custom("Failed to deserialize pageInfo."));
            },
        };
        Ok(TagsQuery { tags, page_info })
    }
}

/// The request for a page of the tags of a repository: `first` tags after the
/// cursor `after`.
pub fn request(repo: &GitHubRepo, first: u64, after: Option<String>) -> (r: GraphQLRequest<Variables>)
    ensures
        r.query@ == QUERY@,
        r.variables.owner@ == repo.owner@,
        r.variables.name@ == repo.name@,
        r.variables.first == first,
        r.variables.after == after,
{
    GraphQLRequest {
        query: QUERY.to_owned(),
        variables: Variables { owner: repo.owner.clone(), name: repo.name.clone(), first, after },
    }
}

} // verus!

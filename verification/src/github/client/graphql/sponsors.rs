//! The GraphQL query for the sponsors of a user.
use vstd::prelude::*;

use super::{decode_page_info, PageInfo, PageInfoView};
use crate::github::client::GraphQLRequest;
use crate::json::{decode_string, json_get, member, DecodeError, JsonValue};

verus! {

/// The variables of the sponsors query.
#[derive(Debug)]
pub struct Variables {
    pub login: String,
    pub first: u64,
    pub after: Option<String>,
}

/// The text of the sponsors query.
pub const QUERY: &'static str = r#"
    query SponsorsQuery($login: String!, $first: Int!, $after: String) {
      user(login: $login) {
        sponsors(first: $first, after: $after) {
          pageInfo {
              startCursor
              endCursor
              hasNextPage
              hasPreviousPage
          }
          nodes {
            ... on Actor {
              login
              avatarUrl
              url
            }
          }
        }
      }
    }
"#;

/// A sponsor: its login, avatar and profile.
#[derive(Debug)]
pub struct Sponsor {
    pub avatar_url: String,
    pub login: String,
    pub url: String,
}

/// A page of the sponsors of a user.
#[derive(Debug)]
pub struct SponsorsQuery {
    pub sponsors: Vec<Sponsor>,
    pub page_info: PageInfo,
}

/// The plain content of a sponsor: avatar URL, login and URL.
pub type SponsorView = (Seq<char>, Seq<char>, Seq<char>);

/// A sponsor decoded from JSON: an object with the string members
/// `avatarUrl`, `login` and `url`, or an array of these three strings in
/// that order.
pub open spec fn decode_sponsor(v: JsonValue) -> Option<SponsorView> {
    match v {
        JsonValue::Object(es) => {
            let avatar_url = decode_required_string(member(es@, "avatarUrl"@));
            let login = decode_required_string(member(es@, "login"@));
            let url = decode_required_string(member(es@, "url"@));
            if avatar_url is Some && login is Some && url is Some {
                Some((avatar_url.unwrap(), login.unwrap(), url.unwrap()))
            } else {
                None
            }
        },
        JsonValue::Array(items) => if items@.len() == 3 {
            let avatar_url = decode_string(items@[0]);
            let login = decode_string(items@[1]);
            let url = decode_string(items@[2]);
            if avatar_url is Some && login is Some && url is Some {
                Some((avatar_url.unwrap(), login.unwrap(), url.unwrap()))
            } else {
                None
            }
        } else {
            None
        },
        _ => None,
    }
}

/// A required string member.
pub open spec fn decode_required_string(v: Option<JsonValue>) -> Option<Seq<char>> {
    match v {
        Some(x) => decode_string(x),
        None => None,
    }
}

fn required_string(v: Option<&JsonValue>) -> (r: Option<String>)
    ensures
        match r {
            Some(s) => decode_required_string(
                match v {
                    Some(x) => Some(*x),
                    None => None,
                },
            ) == Some(s@),
            None => decode_required_string(
                match v {
                    Some(x) => Some(*x),
                    None => None,
                },
            ) is None,
        },
{
    match v {
        Some(x) => x.as_string(),
        None => None,
    }
}

/// Each field of a sponsor comes from the JSON member of its own name: an
/// object whose members `avatarUrl`, `login` and `url` are strings gives the
/// sponsor with those three strings as its avatar URL, login and profile URL.
pub proof fn lemma_sponsor_fields_from_members(
    es: Vec<(String, JsonValue)>,
    avatar_url: String,
    login: String,
    url: String,
)
    requires
        member(es@, "avatarUrl"@) == Some(JsonValue::String(avatar_url)),
        member(es@, "login"@) == Some(JsonValue::String(login)),
        member(es@, "url"@) == Some(JsonValue::String(url)),
    ensures
        decode_sponsor(JsonValue::Object(es)) == Some((avatar_url@, login@, url@)),
{
}

/// A list of sponsors decoded from JSON: an array whose every item is a sponsor.
pub open spec fn decode_sponsors(v: JsonValue) -> Option<Seq<SponsorView>> {
    match v {
        JsonValue::Array(items) => if forall|i: int|
            0 <= i < items@.len() ==> #[trigger] decode_sponsor(items@[i]) is Some {
            Some(Seq::new(items@.len(), |i: int| decode_sponsor(items@[i]).unwrap()))
        } else {
            None
        },
        _ => None,
    }
}

/// The plain content of a page of sponsors: the sponsors and the page info.
pub type SponsorsQueryView = (Seq<SponsorView>, PageInfoView);

/// A page of sponsors decoded from the response to the query: the
/// connection at `data.user.sponsors`, its `nodes` the sponsors and its
/// `pageInfo` the page info. Each missing member and each undecodable part
/// has its error.
pub open spec fn decode_sponsors_query(response: JsonValue) -> Result<SponsorsQueryView, DecodeError> {
    match response {
        JsonValue::Object(es) => match member(es@, "data"@) {
            None => Err(DecodeError::MissingField("data key missing.")),
            Some(data) => match json_get(data, "user"@) {
                None => Err(DecodeError::MissingField("user key missing.")),
                Some(repository) => match json_get(repository, "sponsors"@) {
                    None => Err(DecodeError::MissingField("user.sponsors key missing.")),
                    Some(refs) => match json_get(refs, "nodes"@) {
                        None => Err(DecodeError::MissingField("sponsors key missing.")),
                        Some(nodes) => match json_get(refs, "pageInfo"@) {
                            None => Err(DecodeError::MissingField("pageInfo key missing.")),
                            Some(page_info) => match decode_sponsors(nodes) {
                                None => Err(DecodeError::Custom("Failed to deserialize sponsors.")),
                                Some(sponsors) => match decode_page_info(page_info) {
                                    None => Err(
                                        DecodeError::Custom("Failed to deserialize pageInfo."),
                                    ),
                                    Some(p) => Ok((sponsors, p)),
                                },
                            },
                        },
                    },
                },
            },
        },
        _ => Err(DecodeError::NotAnObject),
    }
}

impl Sponsor {
    /// The plain content of the sponsor.
    pub open spec fn spec_view(&self) -> SponsorView {
        (self.avatar_url@, self.login@, self.url@)
    }

    /// Decodes a sponsor from JSON.
    pub fn from_json(v: &JsonValue) -> (r: Option<Sponsor>)
        ensures
            match r {
                Some(s) => decode_sponsor(*v) == Some(s.spec_view()),
                None => decode_sponsor(*v) is None,
            },
    {
        match v {
            JsonValue::Object(_) => {
                let avatar_url = required_string(v.get("avatarUrl"));
                let login = required_string(v.get("login"));
                let url = required_string(v.get("url"));
                match (avatar_url, login, url) {
                    (Some(avatar_url), Some(login), Some(url)) => Some(Sponsor { avatar_url, login, url }),
                    _ => None,
                }
            },
            JsonValue::Array(items) => {
                if items.len() == 3 {
                    let avatar_url = items[0].as_string();
                    let login = items[1].as_string();
                    let url = items[2].as_string();
                    match (avatar_url, login, url) {
                        (Some(avatar_url), Some(login), Some(url)) => Some(
                            Sponsor { avatar_url, login, url },
                        ),
                        _ => None,
                    }
                } else {
                    None
                }
            },
            _ => None,
        }
    }
}

/// The plain content of a list of sponsors.
pub open spec fn sponsor_views(sponsors: Seq<Sponsor>) -> Seq<SponsorView> {
    sponsors.map_values(|s: Sponsor| s.spec_view())
}

/// Decodes a list of sponsors from JSON.
pub fn sponsors_from_json(v: &JsonValue) -> (r: Option<Vec<Sponsor>>)
    ensures
        match r {
            Some(sponsors) => decode_sponsors(*v) == Some(sponsor_views(sponsors@)),
            None => decode_sponsors(*v) is None,
        },
{
    match v {
        JsonValue::Array(items) => {
            let mut sponsors: Vec<Sponsor> = Vec::new();
            let mut i: usize = 0;
            while i < items.len()
                invariant
                    *v == JsonValue::Array(*items),
                    i <= items@.len(),
                    sponsors@.len() == i,
                    forall|j: int| 0 <= j < i ==> #[trigger] decode_sponsor(items@[j]) == Some(sponsors@[j].spec_view()),
                decreases items@.len() - i,
            {
                match Sponsor::from_json(&items[i]) {
                    Some(t) => {
                        sponsors.push(t);
                    },
                    None => {
                        assert(decode_sponsor(items@[i as int]) is None);
                        return None;
                    },
                }
                i = i + 1;
            }
            assert(Seq::new(items@.len(), |k: int| decode_sponsor(items@[k]).unwrap()) =~= sponsor_views(sponsors@));
            Some(sponsors)
        },
        _ => None,
    }
}

impl SponsorsQuery {
    /// The plain content of the page.
    pub open spec fn spec_view(&self) -> SponsorsQueryView {
        (sponsor_views(self.sponsors@), self.page_info.spec_view())
    }

    /// Decodes a page of sponsors from the JSON response to the query.
    pub fn from_json(response: &JsonValue) -> (r: Result<SponsorsQuery, DecodeError>)
        ensures
            match r {
                Ok(q) => decode_sponsors_query(*response) == Ok::<SponsorsQueryView, DecodeError>(q.spec_view()),
                Err(e) => decode_sponsors_query(*response) == Err::<SponsorsQueryView, DecodeError>(e),
            },
    {
        match response {
            JsonValue::Object(_) => {},
            _ => {
                return Err(DecodeError::NotAnObject);
            },
        }
        let data = match response.get("data") {
            Some(d) => d,
            None => {
                return Err(DecodeError::MissingField("data key missing."));
            },
        };
        let user = match data.get("user") {
            Some(d) => d,
            None => {
                return Err(DecodeError::MissingField("user key missing."));
            },
        };
        let refs = match user.get("sponsors") {
            Some(d) => d,
            None => {
                return Err(DecodeError::MissingField("user.sponsors key missing."));
            },
        };
        let nodes = match refs.get("nodes") {
            Some(d) => d,
            None => {
                return Err(DecodeError::MissingField("sponsors key missing."));
            },
        };
        let page_info = match refs.get("pageInfo") {
            Some(d) => d,
            None => {
                return Err(DecodeError::MissingField("pageInfo key missing."));
            },
        };
        let sponsors = match sponsors_from_json(nodes) {
            Some(t) => t,
            None => {
                return Err(DecodeError::Custom("Failed to deserialize sponsors."));
            },
        };
        let page_info = match PageInfo::from_json(page_info) {
            Some(p) => p,
            None => {
                return Err(DecodeError::Custom("Failed to deserialize pageInfo."));
            },
        };
        Ok(SponsorsQuery { sponsors, page_info })
    }
}

/// The request for a page of the sponsors of a user: `first` sponsors after
/// the cursor `after`.
pub fn request(login: String, first: u64, after: Option<String>) -> (r: GraphQLRequest<Variables>)
    ensures
        r.query@ == QUERY@,
        r.variables.login == login,
        r.variables.first == first,
        r.variables.after == after,
{
    GraphQLRequest { query: QUERY.to_owned(), variables: Variables { login, first, after } }
}

} // verus!

//! The requests to the Renovate API.
pub mod spec;

use vstd::prelude::*;
use vstd::string::*;

use crate::github::GitHubRepo;
use crate::http::client::HttpEndpoint;
use crate::string_map::StringMap;

verus! {

/// An endpoint of the Renovate API.
pub enum RenovateEndpoint<'a> {
    /// The jobs run on a GitHub repository.
    GitHubJobs(&'a GitHubRepo),
}

impl<'a> RenovateEndpoint<'a> {
    /// The path of the endpoint below the API's root.
    pub open spec fn spec_path(&self) -> Seq<char> {
        match self {
            RenovateEndpoint::GitHubJobs(repo) => "github/repos/"@ + repo.spec_to_string() + "/jobs"@,
        }
    }

    /// The path of the endpoint below the API's root.
    pub fn to_string(&self) -> (r: String)
        ensures
            r@ == self.spec_path(),
    {
        match self {
            RenovateEndpoint::GitHubJobs(repo) => crate::text::concat3(
                "github/repos/",
                repo.to_string().as_str(),
                "/jobs",
            ),
        }
    }
}

impl<'a> HttpEndpoint for RenovateEndpoint<'a> {
    fn as_full_url(&self) -> (r: String)
        ensures
            r@ == "https://v1.renovateapi.com/"@ + self.spec_path(),
    {
        crate::text::concat2("https://v1.renovateapi.com/", self.to_string().as_str())
    }
}

/// The headers of the Renovate client: its credentials.
pub fn client_headers(api_key: &str) -> (r: StringMap)
    ensures
        r@ == Map::<Seq<char>, Seq<char>>::empty().insert("authorization"@, "Bearer "@ + api_key@),
{
    let mut headers = StringMap::new();
    headers.insert("authorization".to_owned(), crate::text::concat2("Bearer ", api_key));
    headers
}

} // verus!

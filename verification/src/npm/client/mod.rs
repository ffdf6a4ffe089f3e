//! The requests to the npm registry.
use vstd::prelude::*;
use vstd::string::*;

use super::NpmPackage;
use crate::http::client::HttpEndpoint;
use crate::string_map::StringMap;

verus! {

/// An endpoint of the npm registry.
pub enum NpmEndpoint<'a> {
    /// The document of a package.
    Package(&'a NpmPackage),
}

impl<'a> NpmEndpoint<'a> {
    /// The path of the endpoint below the registry's root: `scope/name`, or
    /// just `name` for a package without scope.
    pub open spec fn spec_path(&self) -> Seq<char> {
        match self {
            NpmEndpoint::Package(pkg) => match pkg.scope {
                None => pkg.name@,
                Some(scope) => scope@ + "/"@ + pkg.name@,
            },
        }
    }

    /// The path of the endpoint below the registry's root.
    pub fn to_string(&self) -> (r: String)
        ensures
            r@ == self.spec_path(),
    {
        match self {
            NpmEndpoint::Package(pkg) => match &pkg.scope {
                None => pkg.name.clone(),
                Some(scope) => crate::text::concat3(scope.as_str(), "/", pkg.name.as_str()),
            },
        }
    }
}

impl<'a> HttpEndpoint for NpmEndpoint<'a> {
    fn as_full_url(&self) -> (r: String)
        ensures
            r@ == "https://registry.npmjs.com/"@ + self.spec_path(),
    {
        crate::text::concat2("https://registry.npmjs.com/", self.to_string().as_str())
    }
}

/// The media types that requests to the npm registry accept.
pub open spec fn npm_accept_text() -> Seq<char> {
    "application/vnd.npm.install-v1+json; q=1.0, application/json; q=0.8"@
}

/// The headers of the npm client: it asks for the abbreviated documents.
pub fn client_headers() -> (r: StringMap)
    ensures
        r@ == Map::<Seq<char>, Seq<char>>::empty().insert("accept"@, npm_accept_text()),
{
    let mut headers = StringMap::new();
    headers.insert(
        "accept".to_owned(),
        "application/vnd.npm.install-v1+json; q=1.0, application/json; q=0.8".to_owned(),
    );
    headers
}

} // verus!

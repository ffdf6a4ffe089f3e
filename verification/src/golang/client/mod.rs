//! The requests to the Go module proxy.
use vstd::prelude::*;
use vstd::string::*;

use super::GolangPackage;
use crate::http::client::HttpEndpoint;
use crate::text::{nonempty_lines, split_nonempty_lines};

verus! {

/// An endpoint of the Go module proxy.
pub enum GolangEndpoint<'a> {
    /// The list of the versions of a module.
    VersionsList(&'a GolangPackage),
}

impl<'a> GolangEndpoint<'a> {
    /// The path of the endpoint below the proxy's root.
    pub open spec fn spec_path(&self) -> Seq<char> {
        match self {
            GolangEndpoint::VersionsList(pkg) => pkg.name@ + "/@v/list"@,
        }
    }

    /// The path of the endpoint below the proxy's root.
    pub fn to_string(&self) -> (r: String)
        ensures
            r@ == self.spec_path(),
    {
        match self {
            GolangEndpoint::VersionsList(pkg) => crate::text::concat2(pkg.name.as_str(), "/@v/list"),
        }
    }
}

impl<'a> HttpEndpoint for GolangEndpoint<'a> {
    fn as_full_url(&self) -> (r: String)
        ensures
            r@ == "https://proxy.golang.org/"@ + self.spec_path(),
    {
        crate::text::concat2("https://proxy.golang.org/", self.to_string().as_str())
    }
}

/// The versions in the text of a version list: its lines that are not empty.
pub fn parse_versions_list(text: &str) -> (r: Vec<String>)
    ensures
        r@.map_values(|s: String| s@) == nonempty_lines(text@),
{
    split_nonempty_lines(text)
}

} // verus!

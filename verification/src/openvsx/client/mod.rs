//! The requests to the Open VSX registry.
pub mod spec;

use vstd::prelude::*;
use vstd::string::*;

use super::OpenVSXExtension;
use crate::http::client::HttpEndpoint;

verus! {

/// An endpoint of the Open VSX registry.
pub enum OpenVSXEndpoint<'a> {
    Extension(&'a OpenVSXExtension),
    ExtensionVersions(&'a OpenVSXExtension),
}

impl<'a> OpenVSXEndpoint<'a> {
    /// The path of the endpoint below the registry's API root.
    pub open spec fn spec_path(&self) -> Seq<char> {
        match self {
            OpenVSXEndpoint::Extension(ext) => ext.namespace@ + "/"@ + ext.extension@,
            OpenVSXEndpoint::ExtensionVersions(ext) => ext.namespace@ + "/"@ + ext.extension@
                + "/versions"@,
        }
    }

    /// The path of the endpoint below the registry's API root.
    pub fn to_string(&self) -> (r: String)
        ensures
            r@ == self.spec_path(),
    {
        match self {
            OpenVSXEndpoint::Extension(ext) => crate::text::concat3(
                ext.namespace.as_str(),
                "/",
                ext.extension.as_str(),
            ),
            OpenVSXEndpoint::ExtensionVersions(ext) => {
                let mut r = crate::text::concat3(
                    ext.namespace.as_str(),
                    "/",
                    ext.extension.as_str(),
                );
                r.append("/versions");
                r
            },
        }
    }
}

impl<'a> HttpEndpoint for OpenVSXEndpoint<'a> {
    fn as_full_url(&self) -> (r: String)
        ensures
            r@ == "https://open-vsx.org/api/"@ + self.spec_path(),
    {
        crate::text::concat2("https://open-vsx.org/api/", self.to_string().as_str())
    }
}

/// The query parameters that select a page of versions: its size and offset.
pub fn versions_query(size: u64, offset: u64) -> (r: Vec<(&'static str, u64)>)
    ensures
        r@.len() == 2,
        r@[0].0@ == "size"@,
        r@[0].1 == size,
        r@[1].0@ == "offset"@,
        r@[1].1 == offset,
{
    let mut q: Vec<(&'static str, u64)> = Vec::new();
    q.push(("size", size));
    q.push(("offset", offset));
    q
}

} // verus!

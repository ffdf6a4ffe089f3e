pub mod api;
pub mod client;
pub mod errors;
pub mod manager;

use vstd::prelude::*;

use crate::QueryParams;

verus! {

/// An extension of the Open VSX registry, by namespace and name.
#[derive(Debug)]
pub struct OpenVSXExtension {
    pub namespace: String,
    pub extension: String,
}

impl OpenVSXExtension {
    /// The extension named by the `namespace` and `extension` query
    /// parameters.
    pub fn from_query(query: &QueryParams) -> (r: Self)
        requires
            query@.contains_key("namespace"@),
            query@.contains_key("extension"@),
        ensures
            r.namespace@ == query@["namespace"@],
            r.extension@ == query@["extension"@],
    {
        Self {
            namespace: query.get("namespace").unwrap().clone(),
            extension: query.get("extension").unwrap().clone(),
        }
    }
}

} // verus!

pub mod client;

use vstd::prelude::*;

use crate::json::opt_string_view;
use crate::QueryParams;

verus! {

/// An npm package, by optional scope and name.
#[derive(Debug)]
pub struct NpmPackage {
    pub scope: Option<String>,
    pub name: String,
}

impl NpmPackage {
    /// The package named by the `scope` and `package` query parameters; the
    /// scope `_` stands for a package without scope.
    pub fn from_query(query: &QueryParams) -> (r: Self)
        requires
            query@.contains_key("scope"@),
            query@.contains_key("package"@),
        ensures
            r.name@ == query@["package"@],
            opt_string_view(r.scope) == if query@["scope"@] == "_"@ {
                None
            } else {
                Some(query@["scope"@])
            },
    {
        let scope = query.get("scope").unwrap();
        let name = query.get("package").unwrap().clone();
        if crate::text::str_eq(scope.as_str(), "_") {
            Self { scope: None, name }
        } else {
            Self { scope: Some(scope.clone()), name }
        }
    }
}

} // verus!

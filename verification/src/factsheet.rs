use vstd::prelude::*;

verus! {

/// The scope decision the architect obtains from the oracle: whether
/// the project needs a list of external reference sites.
#[derive(Clone, Copy, Debug, PartialEq, Eq, Structural)]
pub struct ProjectScope {
    pub is_external_urls_required: bool,
}

/// One discovered API endpoint of the generated server. `method` is a
/// lowercase HTTP verb, and `is_route_dynamic` is the literal string
/// `"true"` or `"false"` exactly as the oracle's structured output
/// spells it — it is deliberately not a boolean, so that the filter
/// compares what was actually produced.
#[derive(Clone, Debug)]
pub struct RouteObject {
    pub route: String,
    pub method: String,
    pub is_route_dynamic: String,
}

/// The shared work item of one pipeline run. The orchestrator creates
/// it with only the project description set and lends it to one role at
/// a time; each role fills in or rewrites its own fields.
#[derive(Clone, Debug)]
pub struct FactSheet {
    pub project_description: String,
    pub project_scope: Option<ProjectScope>,
    pub external_urls: Option<Vec<String>>,
    pub backend_code: Option<String>,
    pub api_endpoints_schema: Option<Vec<RouteObject>>,
}

impl FactSheet {
    /// A fresh fact sheet: the project description alone is populated.
    pub fn new(project_description: String) -> (r: Self)
        ensures
            r.project_description == project_description,
            r.project_scope is None,
            r.external_urls is None,
            r.backend_code is None,
            r.api_endpoints_schema is None,
    {
        FactSheet {
            project_description,
            project_scope: None,
            external_urls: None,
            backend_code: None,
            api_endpoints_schema: None,
        }
    }
}

} // verus!

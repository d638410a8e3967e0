use vstd::prelude::*;

verus! {

/// Arguments for creating a workflow: its name, whether it starts active,
/// and an optional initial version.
#[derive(Debug, Clone, PartialEq, Eq)]
pub struct CreateFlow {
    pub name: String,
    pub active: bool,
    pub version: Option<String>,
}

/// Arguments for updating a stored workflow's head fields.
#[derive(Debug, Clone, PartialEq, Eq)]
pub struct UpdateFlowArgs {
    pub flow_name: String,
    pub active: bool,
    pub version: Option<String>,
}

impl UpdateFlowArgs {
    /// Update arguments that rename only: inactive, with no version change.
    pub fn new(flow_name: String) -> (r: Self)
        ensures
            r.flow_name == flow_name,
            r.active == false,
            r.version is None,
    {
        UpdateFlowArgs { flow_name, active: false, version: None }
    }
}

/// Arguments for updating one stored workflow version; every field is
/// optional and an absent field leaves the stored value untouched.
#[derive(Debug, Clone, PartialEq, Eq)]
pub struct UpdateFlowVersion {
    pub version: Option<String>,
    pub flow_definition: Option<String>,
    pub published: Option<bool>,
    pub description: Option<String>,
}

} // verus!

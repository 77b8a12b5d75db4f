//! What the workflow and run commands report, as plain records.
use vstd::prelude::*;

verus! {

#[derive(Debug, Clone, PartialEq, Eq)]
pub struct WorkflowSummary {
    pub id: u64,
    pub name: String,
    pub path: String,
    pub state: String,
}

#[derive(Debug, Clone, PartialEq, Eq)]
pub struct RunSummary {
    pub database_id: u64,
    pub workflow_name: Option<String>,
    pub head_branch: Option<String>,
    pub status: String,
    pub conclusion: Option<String>,
    pub url: String,
    pub display_title: Option<String>,
}

} // verus!

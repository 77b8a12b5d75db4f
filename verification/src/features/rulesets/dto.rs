//! What the ruleset commands report, as a plain record.
use vstd::prelude::*;

verus! {

#[derive(Debug, Clone, PartialEq, Eq)]
pub struct RulesetSummary {
    pub id: u64,
    pub name: String,
    pub target: Option<String>,
    pub enforcement: Option<String>,
}

} // verus!

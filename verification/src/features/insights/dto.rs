//! What the traffic commands report, as plain records.
use vstd::prelude::*;

verus! {

#[derive(Debug, Clone, PartialEq, Eq)]
pub struct TrafficCount {
    pub timestamp: String,
    pub count: u64,
    pub uniques: u64,
}

#[derive(Debug, Clone, PartialEq, Eq)]
pub struct TrafficOverview {
    pub count: u64,
    pub uniques: u64,
    pub views: Option<Vec<TrafficCount>>,
    pub clones: Option<Vec<TrafficCount>>,
}

} // verus!

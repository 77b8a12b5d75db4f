//! What the Pages commands report, as plain records.
use vstd::prelude::*;

verus! {

#[derive(Debug, Clone, PartialEq, Eq)]
pub struct PagesSource {
    pub branch: Option<String>,
    pub path: Option<String>,
}

#[derive(Debug, Clone, PartialEq, Eq)]
pub struct PagesInfo {
    pub url: Option<String>,
    pub status: Option<String>,
    pub cname: Option<String>,
    pub custom_404: Option<bool>,
    pub html_url: Option<String>,
    pub public: Option<bool>,
    pub source: Option<PagesSource>,
}

} // verus!

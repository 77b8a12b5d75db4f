//! What the repository commands report, as plain records.
use vstd::prelude::*;

verus! {

#[derive(Debug, Clone, PartialEq, Eq)]
pub struct RepoSummary {
    pub name: String,
    pub name_with_owner: String,
    pub description: Option<String>,
    pub url: String,
    pub is_private: bool,
    pub viewer_permission: String,
}

#[derive(Debug, Clone, PartialEq, Eq)]
pub struct BranchCommit {
    pub sha: String,
}

#[derive(Debug, Clone, PartialEq, Eq)]
pub struct BranchSummary {
    pub name: String,
    pub protected: bool,
    pub commit: BranchCommit,
}

#[derive(Debug, Clone, PartialEq, Eq)]
pub struct CommitAuthor {
    pub name: Option<String>,
    pub email: Option<String>,
    pub date: Option<String>,
}

#[derive(Debug, Clone, PartialEq, Eq)]
pub struct CommitDetails {
    pub message: String,
    pub author: Option<CommitAuthor>,
}

#[derive(Debug, Clone, PartialEq, Eq)]
pub struct CommitSummary {
    pub sha: String,
    pub commit: CommitDetails,
}

} // verus!

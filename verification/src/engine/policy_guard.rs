//! Repository permission levels and the guard that refuses an action when the
//! caller's level is below the level the action needs.
use vstd::prelude::*;
use crate::engine::error::{AppError, ErrorView, permission_view};
use crate::text::concat;

verus! {

broadcast use vstd::string::group_string_axioms;

#[derive(Debug, Clone, Copy, PartialEq, Eq, PartialOrd, Ord, Structural)]
pub enum RepoPermission {
    Viewer,
    Write,
    Admin,
}

/// The rank of a level: viewer below write below admin.
pub open spec fn rank(p: RepoPermission) -> int {
    match p {
        RepoPermission::Viewer => 0,
        RepoPermission::Write => 1,
        RepoPermission::Admin => 2,
    }
}

/// `actual` is at least `required`.
pub open spec fn permits(required: RepoPermission, actual: RepoPermission) -> bool {
    rank(actual) >= rank(required)
}

/// The lower-case name of a level.
pub open spec fn permission_name(p: RepoPermission) -> Seq<char> {
    match p {
        RepoPermission::Viewer => "viewer"@,
        RepoPermission::Write => "write"@,
        RepoPermission::Admin => "admin"@,
    }
}

/// The message of a refusal.
pub open spec fn denial_message(
    action: Seq<char>,
    required: RepoPermission,
    actual: RepoPermission,
) -> Seq<char> {
    "action `"@ + action + "` requires "@ + permission_name(required) + " permission (actual: "@
        + permission_name(actual) + ")"@
}

/// The outcome of the guard: `None` when the action is allowed, otherwise the error.
pub open spec fn guard_outcome(
    required: RepoPermission,
    actual: RepoPermission,
    action: Seq<char>,
) -> Option<ErrorView> {
    if permits(required, actual) {
        None
    } else {
        Some(permission_view(denial_message(action, required, actual)))
    }
}

/// A level that an action allows keeps allowing it when raised: the guard
/// refuses an action exactly when the caller ranks below what it needs, so an
/// admin passes every guard.
pub proof fn lemma_guard_monotone(
    required: RepoPermission,
    actual: RepoPermission,
    higher: RepoPermission,
    action: Seq<char>,
)
    requires
        rank(actual) <= rank(higher),
    ensures
        guard_outcome(required, actual, action) is None ==> guard_outcome(required, higher, action) is None,
        guard_outcome(required, RepoPermission::Admin, action) is None,
        guard_outcome(required, actual, action) is None <==> rank(required) <= rank(actual),
{
}

impl RepoPermission {
    pub fn as_str(self) -> (s: &'static str)
        ensures
            s@ == permission_name(self),
    {
        match self {
            RepoPermission::Viewer => "viewer",
            RepoPermission::Write => "write",
            RepoPermission::Admin => "admin",
        }
    }

    /// The rank of this level.
    pub fn rank(self) -> (r: u8)
        ensures
            r == rank(self),
    {
        match self {
            RepoPermission::Viewer => 0,
            RepoPermission::Write => 1,
            RepoPermission::Admin => 2,
        }
    }
}

#[derive(Debug, Default, Clone, Copy)]
pub struct PolicyGuard;

impl PolicyGuard {
    pub fn require(&self, required: RepoPermission, actual: RepoPermission, action: &str) -> (r:
        Result<(), AppError>)
        ensures
            match guard_outcome(required, actual, action@) {
                None => r is Ok,
                Some(v) => r matches Err(e) && e.is(v),
            },
    {
        if actual.rank() >= required.rank() {
            return Ok(());
        }
        let m1 = concat("action `", action);
        let m2 = concat(m1.as_str(), "` requires ");
        let m3 = concat(m2.as_str(), required.as_str());
        let m4 = concat(m3.as_str(), " permission (actual: ");
        let m5 = concat(m4.as_str(), actual.as_str());
        let m6 = concat(m5.as_str(), ")");
        Err(AppError::permission(m6.as_str()))
    }
}

} // verus!

//! The caller's permission level on a repository, from the permission flags
//! that the GitHub API reports for it.
use vstd::prelude::*;
use crate::engine::command_registry::{CommandRequest, CommandSafety, RequestView, texts};
use crate::engine::error::AppError;
use crate::engine::executor::{CommandExecutor, Runner, execution_texts, run_outcome};
use crate::engine::invocation::{
    check_result, no_args, owner_repo_check, push_arg, push_str_arg, repo_path, repo_path_string,
    require_owner_repo,
};
use crate::engine::observability::TraceContext;
use crate::engine::policy_guard::RepoPermission;
use crate::json::{JsonValue, field, get, is_object, json_text_reading, parse_json_text};
use crate::text::{owned, trim, trimmed};

verus! {

broadcast use vstd::string::group_string_axioms;

/// The permission flags of a repository; a flag the API leaves out is `None`.
#[derive(Debug, Clone, Copy, PartialEq, Eq, Default)]
pub struct RepoPermissionFlags {
    pub admin: Option<bool>,
    pub maintain: Option<bool>,
    pub push: Option<bool>,
    pub triage: Option<bool>,
    pub pull: Option<bool>,
}

/// The flag is present and set.
pub open spec fn set(flag: Option<bool>) -> bool {
    flag == Some(true)
}

/// The level the flags grant: admin for admin or maintain, write for push or
/// triage, viewer otherwise.
pub open spec fn flags_permission(flags: RepoPermissionFlags) -> RepoPermission {
    if set(flags.admin) || set(flags.maintain) {
        RepoPermission::Admin
    } else if set(flags.push) || set(flags.triage) {
        RepoPermission::Write
    } else {
        RepoPermission::Viewer
    }
}

/// The level the flags grant.
pub fn permission_from_flags(flags: &RepoPermissionFlags) -> (p: RepoPermission)
    ensures
        p == flags_permission(*flags),
{
    let on = |f: Option<bool>| -> (b: bool)
        ensures
            b == set(f),
        {
            match f {
                Some(v) => v,
                None => false,
            }
        };
    if on(flags.admin) || on(flags.maintain) {
        return RepoPermission::Admin;
    }
    if on(flags.push) || on(flags.triage) {
        return RepoPermission::Write;
    }
    if on(flags.pull) {
        return RepoPermission::Viewer;
    }
    RepoPermission::Viewer
}

/// A flag as a JSON value gives it: `Some(None)` for null, `Some(Some(b))` for
/// a boolean, `None` for any other value.
pub open spec fn flag_value(x: JsonValue) -> Option<Option<bool>> {
    match x {
        JsonValue::Null => Some(None),
        JsonValue::Bool(b) => Some(Some(b)),
        _ => None,
    }
}

/// A flag member of the permissions object: `Some(None)` when it is missing,
/// otherwise what its value gives.
pub open spec fn flag_member(v: JsonValue, key: Seq<char>) -> Option<Option<bool>> {
    match field(v, key) {
        None => Some(None),
        Some(x) => flag_value(x),
    }
}

/// The flag of a well-formed flag.
pub open spec fn flag_of(f: Option<Option<bool>>) -> Option<bool> {
    match f {
        Some(b) => b,
        None => None,
    }
}

/// No flag at all.
pub open spec fn no_flags() -> RepoPermissionFlags {
    RepoPermissionFlags { admin: None, maintain: None, push: None, triage: None, pull: None }
}

/// The flags a JSON value gives when read as the record of the five optional
/// flags admin, maintain, push, triage and pull: an object whose five flag
/// members are each missing, null or a boolean (other members are ignored),
/// or an array of exactly five elements, each null or a boolean, in that
/// order. Anything else gives no flag at all.
pub open spec fn flags_of_value(v: JsonValue) -> RepoPermissionFlags {
    match v {
        JsonValue::Object(_) => if flag_member(v, "admin"@) is Some && flag_member(
            v,
            "maintain"@,
        ) is Some && flag_member(v, "push"@) is Some && flag_member(v, "triage"@) is Some
            && flag_member(v, "pull"@) is Some {
            RepoPermissionFlags {
                admin: flag_of(flag_member(v, "admin"@)),
                maintain: flag_of(flag_member(v, "maintain"@)),
                push: flag_of(flag_member(v, "push"@)),
                triage: flag_of(flag_member(v, "triage"@)),
                pull: flag_of(flag_member(v, "pull"@)),
            }
        } else {
            no_flags()
        },
        JsonValue::Array(items) => if items@.len() == 5 && flag_value(items@[0]) is Some
            && flag_value(items@[1]) is Some && flag_value(items@[2]) is Some && flag_value(
            items@[3],
        ) is Some && flag_value(items@[4]) is Some {
            RepoPermissionFlags {
                admin: flag_of(flag_value(items@[0])),
                maintain: flag_of(flag_value(items@[1])),
                push: flag_of(flag_value(items@[2])),
                triage: flag_of(flag_value(items@[3])),
                pull: flag_of(flag_value(items@[4])),
            }
        } else {
            no_flags()
        },
        _ => no_flags(),
    }
}

/// The flags that reading the permissions output gives: those of the JSON
/// value, as `flags_of_value` says; no flag at all for text that is not JSON.
pub open spec fn flags_of_reading(reading: Result<JsonValue, Seq<char>>) -> RepoPermissionFlags {
    match reading {
        Ok(v) => flags_of_value(v),
        Err(_) => no_flags(),
    }
}

/// A flag as a JSON value gives it.
fn flag_value_of(x: &JsonValue) -> (r: Option<Option<bool>>)
    ensures
        r == flag_value(*x),
{
    match x {
        JsonValue::Null => Some(None),
        JsonValue::Bool(b) => Some(Some(*b)),
        _ => None,
    }
}

/// A flag member of a value.
fn flag_member_of(v: &JsonValue, key: &str) -> (r: Option<Option<bool>>)
    ensures
        r == flag_member(*v, key@),
{
    match get(v, key) {
        None => Some(None),
        Some(x) => flag_value_of(x),
    }
}

/// The flags of five well-formed flags, or none.
fn flags_of_five(
    admin: Option<Option<bool>>,
    maintain: Option<Option<bool>>,
    push: Option<Option<bool>>,
    triage: Option<Option<bool>>,
    pull: Option<Option<bool>>,
) -> (f: RepoPermissionFlags)
    ensures
        f == if admin is Some && maintain is Some && push is Some && triage is Some && pull is Some {
            RepoPermissionFlags {
                admin: flag_of(admin),
                maintain: flag_of(maintain),
                push: flag_of(push),
                triage: flag_of(triage),
                pull: flag_of(pull),
            }
        } else {
            no_flags()
        },
{
    match (admin, maintain, push, triage, pull) {
        (Some(a), Some(m), Some(p), Some(t), Some(l)) => RepoPermissionFlags {
            admin: a,
            maintain: m,
            push: p,
            triage: t,
            pull: l,
        },
        _ => RepoPermissionFlags { admin: None, maintain: None, push: None, triage: None, pull: None },
    }
}

/// The flags a JSON value gives, read as `flags_of_value` says.
pub fn flags_from_json(v: &JsonValue) -> (f: RepoPermissionFlags)
    ensures
        f == flags_of_value(*v),
{
    match v {
        JsonValue::Object(_) => flags_of_five(
            flag_member_of(v, "admin"),
            flag_member_of(v, "maintain"),
            flag_member_of(v, "push"),
            flag_member_of(v, "triage"),
            flag_member_of(v, "pull"),
        ),
        JsonValue::Array(items) => {
            if items.len() == 5 {
                flags_of_five(
                    flag_value_of(&items[0]),
                    flag_value_of(&items[1]),
                    flag_value_of(&items[2]),
                    flag_value_of(&items[3]),
                    flag_value_of(&items[4]),
                )
            } else {
                RepoPermissionFlags { admin: None, maintain: None, push: None, triage: None, pull: None }
            }
        },
        _ => RepoPermissionFlags { admin: None, maintain: None, push: None, triage: None, pull: None },
    }
}

/// The flags of the permissions output, read as `flags_of_reading` says.
pub fn flags_from_output(stdout: &str) -> (f: RepoPermissionFlags)
    ensures
        f == flags_of_reading(json_text_reading(trim(stdout@))),
{
    let text = trimmed(stdout);
    match parse_json_text(text.as_str()) {
        Ok(v) => flags_from_json(&v),
        Err(_) => RepoPermissionFlags { admin: None, maintain: None, push: None, triage: None, pull: None },
    }
}

/// The request that reads the permission flags of `owner/repo`.
pub open spec fn permission_request(owner: Seq<char>, repo: Seq<char>) -> RequestView {
    RequestView {
        command_id: "internal.repo_permission.get"@,
        program: "gh"@,
        args: seq!["api"@, repo_path(owner, repo, ""@), "--jq"@, ".permissions"@],
        safety: CommandSafety::NonDestructive,
    }
}

pub struct RepoPermissionResolver<R: Runner> {
    executor: CommandExecutor<R>,
}

impl<R: Runner> RepoPermissionResolver<R> {
    /// The executor that runs the resolver's requests.
    pub closed spec fn executor_spec(&self) -> CommandExecutor<R> {
        self.executor
    }

    /// A resolver that runs its requests with `executor`.
    pub fn new(executor: CommandExecutor<R>) -> (r: Self)
        ensures
            r.executor_spec() == executor,
    {
        RepoPermissionResolver { executor }
    }

    /// The request the resolver sends for `owner/repo`.
    pub fn request_for(owner: &str, repo: &str) -> (req: CommandRequest)
        ensures
            req@ == permission_request(owner@, repo@),
    {
        let mut args = no_args();
        push_str_arg(&mut args, "api");
        push_arg(&mut args, repo_path_string(owner, repo, ""));
        push_str_arg(&mut args, "--jq");
        push_str_arg(&mut args, ".permissions");
        let req = CommandRequest {
            command_id: owned("internal.repo_permission.get"),
            program: owned("gh"),
            args,
            safety: CommandSafety::NonDestructive,
        };
        assert(req@.args =~= permission_request(owner@, repo@).args);
        req
    }

    /// The caller's level on `owner/repo`: runs `permission_request` and reads
    /// the flags it prints, as `flags_of_reading` says.
    pub fn resolve(&self, owner: &str, repo: &str, trace: &TraceContext) -> (r: Result<
        RepoPermission,
        AppError,
    >)
        ensures
            match owner_repo_check(owner@, repo@) {
                Some(v) => r matches Err(e) && e.is(v),
                None => exists|o: Result<(Seq<char>, Seq<char>), AppError>|
                    #[trigger] run_outcome(self.executor_spec(), permission_request(owner@, repo@), o)
                        && match o {
                        Ok(out) => r == Ok::<RepoPermission, AppError>(
                            flags_permission(flags_of_reading(json_text_reading(trim(out.0)))),
                        ),
                        Err(e) => r == Err::<RepoPermission, AppError>(e),
                    },
            },
    {
        require_owner_repo(owner, repo)?;
        let request = Self::request_for(owner, repo);
        let result = self.executor.execute(&request, trace);
        assert(run_outcome(self.executor_spec(), permission_request(owner@, repo@), execution_texts(result)));
        match result {
            Ok((output, _audit)) => {
                let flags = flags_from_output(output.stdout.as_str());
                Ok(permission_from_flags(&flags))
            },
            Err(e) => Err(e),
        }
    }
}

} // verus!

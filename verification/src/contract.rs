//! The contract between the front end and this library: the payload version,
//! the stable command identifiers, and the checks of a command envelope and of
//! a registry against them.
use vstd::prelude::*;
use crate::engine::command_registry::{
    CommandRegistry, CommandSpecView, default_entries, has_id, lemma_registered_all_has,
    registered_all,
};
use crate::engine::error::{AppError, ErrorView, validation_view};
use crate::engine::invocation::check_result;
use crate::engine::policy_guard::RepoPermission;
use crate::text::{blank, concat, concat3, is_blank, owned};

verus! {

broadcast use vstd::string::group_string_axioms;

pub const PAYLOAD_CONTRACT_VERSION: &'static str = "2026-03-13.v5";

/// The commands that the front end may send, in the contract's order.
pub open spec fn stable_ids() -> Seq<Seq<char>> {
    seq![
        "auth.organizations.list"@,
        "auth.status"@,
        "issue.close"@,
        "issue.comment"@,
        "issue.edit"@,
        "issue.list"@,
        "issue.reopen"@,
        "issue.view"@,
        "pr.close"@,
        "pr.comments.list"@,
        "pr.diff.files.list"@,
        "pr.diff.raw.get"@,
        "pr.list"@,
        "pr.merge"@,
        "pr.reopen"@,
        "pr.review"@,
        "pr.review_threads.list"@,
        "pr.view"@,
        "repo.list"@,
    ]
}

/// The texts of a list of string slices.
pub open spec fn strs(v: Seq<&str>) -> Seq<Seq<char>> {
    v.map_values(|s: &str| s@)
}

/// The stable command identifiers.
pub fn stable_command_ids() -> (v: Vec<&'static str>)
    ensures
        strs(v@) == stable_ids(),
{
    let v = vec![
        "auth.organizations.list",
        "auth.status",
        "issue.close",
        "issue.comment",
        "issue.edit",
        "issue.list",
        "issue.reopen",
        "issue.view",
        "pr.close",
        "pr.comments.list",
        "pr.diff.files.list",
        "pr.diff.raw.get",
        "pr.list",
        "pr.merge",
        "pr.reopen",
        "pr.review",
        "pr.review_threads.list",
        "pr.view",
        "repo.list",
    ];
    assert(strs(v@) =~= stable_ids());
    v
}

/// The permission level a command envelope carries.
#[derive(Debug, Clone, Copy, PartialEq, Eq, Structural)]
pub enum ContractRepoPermission {
    Viewer,
    Write,
    Admin,
}

/// The level an envelope grants: the one it names, viewer when it names none.
pub open spec fn contract_permission(p: Option<ContractRepoPermission>) -> RepoPermission {
    match p {
        Some(ContractRepoPermission::Write) => RepoPermission::Write,
        Some(ContractRepoPermission::Admin) => RepoPermission::Admin,
        _ => RepoPermission::Viewer,
    }
}

/// The level an envelope grants.
pub fn map_permission(p: Option<ContractRepoPermission>) -> (r: RepoPermission)
    ensures
        r == contract_permission(p),
{
    match p {
        Some(ContractRepoPermission::Write) => RepoPermission::Write,
        Some(ContractRepoPermission::Admin) => RepoPermission::Admin,
        _ => RepoPermission::Viewer,
    }
}

/// The first identifier of `ids` that the commands `reg` lack.
pub open spec fn first_missing(reg: Seq<CommandSpecView>, ids: Seq<Seq<char>>) -> Option<Seq<char>>
    decreases ids.len(),
{
    if ids.len() == 0 {
        None
    } else if !has_id(reg, ids[0]) {
        Some(ids[0])
    } else {
        first_missing(reg, ids.drop_first())
    }
}

/// The check of a registry against the stable contract.
pub open spec fn registry_contract_check(reg: Seq<CommandSpecView>) -> Option<ErrorView> {
    match first_missing(reg, stable_ids()) {
        Some(id) => Some(
            validation_view("stable contract mismatch: missing command `"@ + id + "` in registry"@),
        ),
        None => None,
    }
}

/// Fails when the registry lacks a stable command, naming the first one missing.
pub fn validate_registry_contract(registry: &CommandRegistry) -> (r: Result<(), AppError>)
    ensures
        check_result(registry_contract_check(registry@), r),
{
    let ids = stable_command_ids();
    let mut i: usize = 0;
    assert(stable_ids().subrange(0, stable_ids().len() as int) =~= stable_ids());
    while i < ids.len()
        invariant
            i <= ids@.len(),
            strs(ids@) == stable_ids(),
            first_missing(registry@, stable_ids()) == first_missing(
                registry@,
                stable_ids().subrange(i as int, stable_ids().len() as int),
            ),
        decreases ids@.len() - i,
    {
        let ghost rest = stable_ids().subrange(i as int, stable_ids().len() as int);
        assert(rest[0] == ids@[i as int]@);
        if !registry.contains(ids[i]) {
            let message = concat3("stable contract mismatch: missing command `", ids[i], "` in registry");
            return Err(AppError::validation(message.as_str()));
        }
        assert(rest.drop_first() =~= stable_ids().subrange(i + 1, stable_ids().len() as int));
        i = i + 1;
    }
    assert(stable_ids().subrange(ids@.len() as int, stable_ids().len() as int) =~= Seq::<Seq<char>>::empty());
    Ok(())
}

/// The default registry holds every stable command, so it meets the contract.
pub proof fn lemma_default_registry_meets_contract()
    ensures
        first_missing(registered_all(Seq::empty(), default_entries()), stable_ids()) is None,
        registry_contract_check(registered_all(Seq::empty(), default_entries())) is None,
{
    let reg = registered_all(Seq::empty(), default_entries());
    let d = default_entries();
    let ks: Seq<int> = seq![55, 54, 21, 19, 20, 17, 22, 56, 14, 58, 59, 60, 10, 16, 15, 12, 61, 57, 0];
    assert forall|j: int| 0 <= j < stable_ids().len() implies has_id(reg, #[trigger] stable_ids()[j]) by {
        lemma_registered_all_has(Seq::empty(), d, ks[j]);
        assert(d[ks[j]].id == stable_ids()[j]);
    }
    lemma_all_present_none(reg, stable_ids());
}

/// When every identifier is present, none is missing.
pub proof fn lemma_all_present_none(reg: Seq<CommandSpecView>, ids: Seq<Seq<char>>)
    requires
        forall|j: int| 0 <= j < ids.len() ==> has_id(reg, #[trigger] ids[j]),
    ensures
        first_missing(reg, ids) is None,
    decreases ids.len(),
{
    if ids.len() > 0 {
        assert(has_id(reg, ids[0]));
        assert forall|j: int| 0 <= j < ids.drop_first().len() implies has_id(
            reg,
            #[trigger] ids.drop_first()[j],
        ) by {
            assert(ids.drop_first()[j] == ids[j + 1]);
        }
        lemma_all_present_none(reg, ids.drop_first());
    }
}

/// The check of the fields of a command envelope: its version, its request
/// id, and that its command is stable and registered.
pub open spec fn envelope_check(
    version: Seq<char>,
    request_id: Seq<char>,
    command_id: Seq<char>,
    reg: Seq<CommandSpecView>,
) -> Option<ErrorView> {
    if version != PAYLOAD_CONTRACT_VERSION@ {
        Some(validation_view("unsupported contract version: "@ + version))
    } else if is_blank(request_id) {
        Some(validation_view("request_id is required"@))
    } else if is_blank(command_id) {
        Some(validation_view("command_id is required"@))
    } else if !stable_ids().contains(command_id) {
        Some(
            validation_view(
                "command_id `"@ + command_id + "` is not part of the stable frontend contract"@,
            ),
        )
    } else if !has_id(reg, command_id) {
        Some(validation_view("command_id `"@ + command_id + "` is not registered in backend"@))
    } else {
        None
    }
}

/// Whether the identifier is one of the stable commands.
pub fn is_stable_command(command_id: &str) -> (b: bool)
    ensures
        b == stable_ids().contains(command_id@),
{
    let ids = stable_command_ids();
    let target = owned(command_id);
    let mut i: usize = 0;
    while i < ids.len()
        invariant
            i <= ids@.len(),
            strs(ids@) == stable_ids(),
            target@ == command_id@,
            forall|j: int| 0 <= j < i ==> stable_ids()[j] != command_id@,
        decreases ids@.len() - i,
    {
        if owned(ids[i]) == target {
            assert(stable_ids()[i as int] == command_id@);
            return true;
        }
        i = i + 1;
    }
    false
}

/// Checks the fields of a command envelope against the contract and the
/// registry.
pub fn validate_envelope_fields(
    contract_version: &str,
    request_id: &str,
    command_id: &str,
    registry: &CommandRegistry,
) -> (r: Result<(), AppError>)
    ensures
        check_result(envelope_check(contract_version@, request_id@, command_id@, registry@), r),
{
    if owned(contract_version) != owned(PAYLOAD_CONTRACT_VERSION) {
        let message = concat("unsupported contract version: ", contract_version);
        return Err(AppError::validation(message.as_str()));
    }
    if blank(request_id) {
        return Err(AppError::validation("request_id is required"));
    }
    if blank(command_id) {
        return Err(AppError::validation("command_id is required"));
    }
    if !is_stable_command(command_id) {
        let message = concat3(
            "command_id `",
            command_id,
            "` is not part of the stable frontend contract",
        );
        return Err(AppError::validation(message.as_str()));
    }
    if !registry.contains(command_id) {
        let message = concat3("command_id `", command_id, "` is not registered in backend");
        return Err(AppError::validation(message.as_str()));
    }
    Ok(())
}

} // verus!

//! Repository rulesets: listing, reading, creating, updating and deleting them.
use vstd::prelude::*;
use crate::engine::command_registry::{CommandRegistry, CommandSpecView, texts};
use crate::engine::error::{AppError, ErrorView, validation_view};
use crate::engine::executor::{CommandExecutor, Runner};
use crate::engine::invocation::{
    check_result, first_failure, guarded_payload, guarded_unit, no_args, nonzero_check,
    owner_repo_check, push_arg, push_str_arg, repo_path, repo_path_string, require_nonzero,
    require_owner_repo, run_payload, run_unit,
};
use crate::engine::observability::TraceContext;
use crate::engine::policy_guard::{PolicyGuard, RepoPermission};
use crate::text::{blank, concat, concat3, decimal, decimal_string, is_blank};

verus! {

broadcast use vstd::string::group_string_axioms;

/// One `key=value` field of a ruleset.
#[derive(Debug, Clone, PartialEq, Eq)]
pub struct RulesetField {
    pub key: String,
    pub value: String,
}

#[derive(Debug, Clone, PartialEq, Eq)]
pub struct UpsertRulesetInput {
    pub owner: String,
    pub repo: String,
    pub fields: Vec<RulesetField>,
}

/// Some field has a blank key or value.
pub open spec fn has_blank_field(fields: Seq<RulesetField>) -> bool {
    exists|i: int| 0 <= i < fields.len() && (is_blank((#[trigger] fields[i]).key@) || is_blank(fields[i].value@))
}

impl UpsertRulesetInput {
    pub open spec fn invalid(&self) -> Option<ErrorView> {
        first_failure(
            owner_repo_check(self.owner@, self.repo@),
            if self.fields@.len() == 0 {
                Some(validation_view("fields must not be empty"@))
            } else if has_blank_field(self.fields@) {
                Some(validation_view("ruleset fields must have non-empty key and value"@))
            } else {
                None
            },
        )
    }

    pub fn validate(&self) -> (r: Result<(), AppError>)
        ensures
            check_result(self.invalid(), r),
    {
        require_owner_repo(self.owner.as_str(), self.repo.as_str())?;
        if self.fields.len() == 0 {
            return Err(AppError::validation("fields must not be empty"));
        }
        let mut i: usize = 0;
        while i < self.fields.len()
            invariant
                i <= self.fields@.len(),
                self.fields@.len() > 0,
                owner_repo_check(self.owner@, self.repo@) is None,
                forall|j: int|
                    0 <= j < i ==> !is_blank((#[trigger] self.fields@[j]).key@) && !is_blank(
                        self.fields@[j].value@,
                    ),
            decreases self.fields@.len() - i,
        {
            let field = &self.fields[i];
            if blank(field.key.as_str()) || blank(field.value.as_str()) {
                assert(has_blank_field(self.fields@)) by {
                    assert(is_blank(self.fields@[i as int].key@) || is_blank(self.fields@[i as int].value@));
                }
                return Err(AppError::validation("ruleset fields must have non-empty key and value"));
            }
            i = i + 1;
        }
        Ok(())
    }
}

#[derive(Debug, Clone, PartialEq, Eq)]
pub struct DeleteRulesetInput {
    pub owner: String,
    pub repo: String,
    pub ruleset_id: u64,
}

/// The check of a ruleset id.
pub open spec fn ruleset_id_check(id: u64) -> Option<ErrorView> {
    nonzero_check(id as int, "ruleset_id must be greater than 0"@)
}

impl DeleteRulesetInput {
    pub open spec fn invalid(&self) -> Option<ErrorView> {
        first_failure(owner_repo_check(self.owner@, self.repo@), ruleset_id_check(self.ruleset_id))
    }

    pub fn validate(&self) -> (r: Result<(), AppError>)
        ensures
            check_result(self.invalid(), r),
    {
        require_owner_repo(self.owner.as_str(), self.repo.as_str())?;
        require_nonzero(self.ruleset_id, "ruleset_id must be greater than 0")
    }
}

/// `["-f", "key=value"]` for each field, in order.
pub open spec fn field_args(fields: Seq<RulesetField>) -> Seq<Seq<char>>
    decreases fields.len(),
{
    if fields.len() == 0 {
        Seq::empty()
    } else {
        field_args(fields.drop_last()) + seq![
            "-f"@,
            fields.last().key@ + "="@ + fields.last().value@,
        ]
    }
}

fn push_fields(args: &mut Vec<String>, fields: &Vec<RulesetField>)
    ensures
        texts(final(args)@) == texts(old(args)@) + field_args(fields@),
{
    let ghost start = texts(args@);
    let mut i: usize = 0;
    while i < fields.len()
        invariant
            i <= fields@.len(),
            texts(args@) == start + field_args(fields@.subrange(0, i as int)),
        decreases fields@.len() - i,
    {
        push_str_arg(args, "-f");
        push_arg(args, concat3(fields[i].key.as_str(), "=", fields[i].value.as_str()));
        proof {
            let next = fields@.subrange(0, i + 1);
            assert(next.drop_last() =~= fields@.subrange(0, i as int));
            assert(texts(args@) =~= start + field_args(next));
        }
        i = i + 1;
    }
    assert(fields@.subrange(0, fields@.len() as int) =~= fields@);
}

pub open spec fn ruleset_path(owner: Seq<char>, repo: Seq<char>, id: u64) -> Seq<char> {
    repo_path(owner, repo, "/rulesets/"@ + decimal(id as nat))
}

fn ruleset_path_string(owner: &str, repo: &str, id: u64) -> (s: String)
    ensures
        s@ == ruleset_path(owner@, repo@, id),
{
    let number = decimal_string(id);
    let tail = concat("/rulesets/", number.as_str());
    repo_path_string(owner, repo, tail.as_str())
}

pub struct RulesetsService<R: Runner> {
    registry: CommandRegistry,
    executor: CommandExecutor<R>,
    policy_guard: PolicyGuard,
}

impl<R: Runner> RulesetsService<R> {
    /// The commands this service may run.
    pub closed spec fn commands(&self) -> Seq<CommandSpecView> {
        self.registry@
    }

    /// Whether destructive commands are skipped.
    pub closed spec fn safe_mode(&self) -> bool {
        self.executor.safe_mode()
    }

    /// The executor that runs the commands.
    pub closed spec fn execution(&self) -> CommandExecutor<R> {
        self.executor
    }

    pub fn new(registry: CommandRegistry, executor: CommandExecutor<R>) -> (s: Self)
        ensures
            s.commands() == registry@,
            s.safe_mode() == executor.safe_mode(),
            s.execution() == executor,
    {
        RulesetsService { registry, executor, policy_guard: PolicyGuard }
    }

    /// Lists the rulesets of a repository; the result is the command's JSON
    /// output.
    pub fn list(&self, permission: RepoPermission, owner: &str, repo: &str, trace: &TraceContext) -> (r:
        Result<String, AppError>)
        ensures
            guarded_payload(
                RepoPermission::Admin,
                permission,
                "rulesets.list"@,
                owner_repo_check(owner@, repo@),
                self.execution(),
                self.commands(),
                seq![repo_path(owner@, repo@, "/rulesets"@)],
                r,
            ),
    {
        self.policy_guard.require(RepoPermission::Admin, permission, "rulesets.list")?;
        require_owner_repo(owner, repo)?;
        let mut args = no_args();
        push_arg(&mut args, repo_path_string(owner, repo, "/rulesets"));
        assert(texts(args@) =~= seq![repo_path(owner@, repo@, "/rulesets"@)]);
        run_payload(&self.registry, &self.executor, "rulesets.list", &args, trace)
    }

    /// Reads one ruleset; the result is the command's JSON output.
    pub fn get(
        &self,
        permission: RepoPermission,
        owner: &str,
        repo: &str,
        ruleset_id: u64,
        trace: &TraceContext,
    ) -> (r: Result<String, AppError>)
        ensures
            guarded_payload(
                RepoPermission::Admin,
                permission,
                "rulesets.get"@,
                first_failure(owner_repo_check(owner@, repo@), ruleset_id_check(ruleset_id)),
                self.execution(),
                self.commands(),
                seq![ruleset_path(owner@, repo@, ruleset_id)],
                r,
            ),
    {
        self.policy_guard.require(RepoPermission::Admin, permission, "rulesets.get")?;
        require_owner_repo(owner, repo)?;
        require_nonzero(ruleset_id, "ruleset_id must be greater than 0")?;
        let mut args = no_args();
        push_arg(&mut args, ruleset_path_string(owner, repo, ruleset_id));
        assert(texts(args@) =~= seq![ruleset_path(owner@, repo@, ruleset_id)]);
        run_payload(&self.registry, &self.executor, "rulesets.get", &args, trace)
    }

    pub fn create(
        &self,
        permission: RepoPermission,
        input: &UpsertRulesetInput,
        trace: &TraceContext,
    ) -> (r: Result<(), AppError>)
        ensures
            guarded_unit(
                RepoPermission::Admin,
                permission,
                "rulesets.create"@,
                input.invalid(),
                self.execution(),
                self.commands(),
                seq![repo_path(input.owner@, input.repo@, "/rulesets"@)] + field_args(input.fields@),
                r,
            ),
    {
        self.policy_guard.require(RepoPermission::Admin, permission, "rulesets.create")?;
        input.validate()?;
        let mut args = no_args();
        push_arg(&mut args, repo_path_string(input.owner.as_str(), input.repo.as_str(), "/rulesets"));
        push_fields(&mut args, &input.fields);
        assert(texts(args@) =~= seq![repo_path(input.owner@, input.repo@, "/rulesets"@)] + field_args(
            input.fields@,
        ));
        run_unit(&self.registry, &self.executor, "rulesets.create", &args, trace)
    }

    pub fn update(
        &self,
        permission: RepoPermission,
        input: &UpsertRulesetInput,
        ruleset_id: u64,
        trace: &TraceContext,
    ) -> (r: Result<(), AppError>)
        ensures
            guarded_unit(
                RepoPermission::Admin,
                permission,
                "rulesets.update"@,
                first_failure(input.invalid(), ruleset_id_check(ruleset_id)),
                self.execution(),
                self.commands(),
                seq![ruleset_path(input.owner@, input.repo@, ruleset_id)] + field_args(input.fields@),
                r,
            ),
    {
        self.policy_guard.require(RepoPermission::Admin, permission, "rulesets.update")?;
        input.validate()?;
        require_nonzero(ruleset_id, "ruleset_id must be greater than 0")?;
        let mut args = no_args();
        push_arg(&mut args, ruleset_path_string(input.owner.as_str(), input.repo.as_str(), ruleset_id));
        push_fields(&mut args, &input.fields);
        assert(texts(args@) =~= seq![ruleset_path(input.owner@, input.repo@, ruleset_id)]
            + field_args(input.fields@));
        run_unit(&self.registry, &self.executor, "rulesets.update", &args, trace)
    }

    pub fn delete(&self, permission: RepoPermission, input: &DeleteRulesetInput, trace: &TraceContext) -> (r:
        Result<(), AppError>)
        ensures
            guarded_unit(
                RepoPermission::Admin,
                permission,
                "rulesets.delete"@,
                input.invalid(),
                self.execution(),
                self.commands(),
                seq![ruleset_path(input.owner@, input.repo@, input.ruleset_id)],
                r,
            ),
    {
        self.policy_guard.require(RepoPermission::Admin, permission, "rulesets.delete")?;
        input.validate()?;
        let mut args = no_args();
        push_arg(
            &mut args,
            ruleset_path_string(input.owner.as_str(), input.repo.as_str(), input.ruleset_id),
        );
        assert(texts(args@) =~= seq![ruleset_path(input.owner@, input.repo@, input.ruleset_id)]);
        run_unit(&self.registry, &self.executor, "rulesets.delete", &args, trace)
    }
}

} // verus!

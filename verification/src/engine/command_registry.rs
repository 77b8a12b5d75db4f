//! The registry of `gh` commands the library may run: each command has an
//! identifier, a program, fixed leading arguments and a safety class. A request
//! is built from a registered command and the caller's further arguments.
use vstd::prelude::*;
use crate::engine::error::{AppError, ErrorView, validation_view};
use crate::text::{concat, concat3, owned, str_has_char};

verus! {

broadcast use vstd::string::group_string_axioms;

#[derive(Debug, Clone, Copy, PartialEq, Eq, Structural)]
pub enum CommandSafety {
    NonDestructive,
    Destructive,
}

/// What a command specification says.
pub struct CommandSpecView {
    pub id: Seq<char>,
    pub program: Seq<char>,
    pub base_args: Seq<Seq<char>>,
    pub safety: CommandSafety,
}

/// The view of a specification written from its parts.
pub open spec fn spec_of(
    id: &str,
    program: &str,
    base_args: &[&str],
    safety: CommandSafety,
) -> CommandSpecView {
    CommandSpecView {
        id: id@,
        program: program@,
        base_args: base_args@.map_values(|a: &str| a@),
        safety,
    }
}

/// The texts of a list of strings.
pub open spec fn texts(v: Seq<String>) -> Seq<Seq<char>> {
    v.map_values(|s: String| s@)
}

#[derive(Debug, Clone, PartialEq, Eq)]
pub struct CommandSpec {
    pub id: String,
    pub program: String,
    pub base_args: Vec<String>,
    pub safety: CommandSafety,
}

impl View for CommandSpec {
    type V = CommandSpecView;

    open spec fn view(&self) -> CommandSpecView {
        CommandSpecView {
            id: self.id@,
            program: self.program@,
            base_args: texts(self.base_args@),
            safety: self.safety,
        }
    }
}

impl CommandSpec {
    pub fn new(id: &str, program: &str, base_args: &[&str], safety: CommandSafety) -> (s: Self)
        ensures
            s@ == spec_of(id, program, base_args, safety),
    {
        let mut args: Vec<String> = Vec::new();
        let mut i: usize = 0;
        while i < base_args.len()
            invariant
                i <= base_args@.len(),
                texts(args@) == base_args@.subrange(0, i as int).map_values(|a: &str| a@),
            decreases base_args@.len() - i,
        {
            args.push(owned(base_args[i]));
            proof {
                assert(base_args@.subrange(0, i + 1).map_values(|a: &str| a@) =~= base_args@.subrange(
                    0,
                    i as int,
                ).map_values(|a: &str| a@).push(base_args@[i as int]@));
                assert(texts(args@) =~= texts(args@.drop_last()).push(args@.last()@));
            }
            i = i + 1;
        }
        assert(base_args@.subrange(0, base_args@.len() as int) =~= base_args@);
        CommandSpec { id: owned(id), program: owned(program), safety, base_args: args }
    }

    /// A copy of this specification.
    pub fn duplicate(&self) -> (s: Self)
        ensures
            s@ == self@,
    {
        CommandSpec {
            id: owned(self.id.as_str()),
            program: owned(self.program.as_str()),
            base_args: copy_strings(&self.base_args),
            safety: self.safety,
        }
    }
}

/// A copy of a list of strings.
pub fn copy_strings(v: &Vec<String>) -> (r: Vec<String>)
    ensures
        texts(r@) == texts(v@),
{
    let mut r: Vec<String> = Vec::new();
    let mut i: usize = 0;
    while i < v.len()
        invariant
            i <= v@.len(),
            texts(r@) == texts(v@.subrange(0, i as int)),
        decreases v@.len() - i,
    {
        r.push(owned(v[i].as_str()));
        proof {
            assert(texts(v@.subrange(0, i + 1)) =~= texts(v@.subrange(0, i as int)).push(v@[i as int]@));
            assert(texts(r@) =~= texts(r@.drop_last()).push(r@.last()@));
        }
        i = i + 1;
    }
    assert(v@.subrange(0, v@.len() as int) =~= v@);
    r
}

/// What a request says.
pub struct RequestView {
    pub command_id: Seq<char>,
    pub program: Seq<char>,
    pub args: Seq<Seq<char>>,
    pub safety: CommandSafety,
}

#[derive(Debug, Clone, PartialEq, Eq)]
pub struct CommandRequest {
    pub command_id: String,
    pub program: String,
    pub args: Vec<String>,
    pub safety: CommandSafety,
}

impl View for CommandRequest {
    type V = RequestView;

    open spec fn view(&self) -> RequestView {
        RequestView {
            command_id: self.command_id@,
            program: self.program@,
            args: texts(self.args@),
            safety: self.safety,
        }
    }
}

/// Some specification in `s` has the identifier `id`.
pub open spec fn has_id(s: Seq<CommandSpecView>, id: Seq<char>) -> bool {
    exists|i: int| 0 <= i < s.len() && (#[trigger] s[i]).id == id
}

/// The first specification in `s` with the identifier `id`.
pub open spec fn lookup(s: Seq<CommandSpecView>, id: Seq<char>) -> Option<CommandSpecView>
    decreases s.len(),
{
    if s.len() == 0 {
        None
    } else if s[0].id == id {
        Some(s[0])
    } else {
        lookup(s.drop_first(), id)
    }
}

/// No two specifications share an identifier.
pub open spec fn ids_distinct(s: Seq<CommandSpecView>) -> bool {
    forall|i: int, j: int| 0 <= i < j < s.len() ==> (#[trigger] s[i]).id != (#[trigger] s[j]).id
}

/// The result of registering `e`: unchanged when its identifier is taken.
pub open spec fn register_spec(s: Seq<CommandSpecView>, e: CommandSpecView) -> Seq<CommandSpecView> {
    if has_id(s, e.id) {
        s
    } else {
        s.push(e)
    }
}

/// The result of registering every entry of `entries` in order.
pub open spec fn registered_all(
    s: Seq<CommandSpecView>,
    entries: Seq<CommandSpecView>,
) -> Seq<CommandSpecView>
    decreases entries.len(),
{
    if entries.len() == 0 {
        s
    } else {
        register_spec(registered_all(s, entries.drop_last()), entries.last())
    }
}

/// Some text in `args` holds a NUL character.
pub open spec fn has_nul(args: Seq<Seq<char>>) -> bool {
    exists|i: int| 0 <= i < args.len() && (#[trigger] args[i]).contains('\0')
}

pub open spec fn duplicate_message(id: Seq<char>) -> Seq<char> {
    "command `"@ + id + "` is already registered"@
}

pub open spec fn unregistered_message(id: Seq<char>) -> Seq<char> {
    "command `"@ + id + "` is not registered"@
}

pub open spec fn nul_message(id: Seq<char>) -> Seq<char> {
    "command `"@ + id + "` contains a NUL byte in args"@
}

/// The outcome of building a request for `id` with `args` from the
/// specifications `s`.
pub open spec fn build_outcome(
    s: Seq<CommandSpecView>,
    id: Seq<char>,
    args: Seq<Seq<char>>,
) -> Result<RequestView, ErrorView> {
    match lookup(s, id) {
        None => Err(validation_view(unregistered_message(id))),
        Some(spec) => if has_nul(args) {
            Err(validation_view(nul_message(id)))
        } else {
            Ok(
                RequestView {
                    command_id: id,
                    program: spec.program,
                    args: spec.base_args + args,
                    safety: spec.safety,
                },
            )
        },
    }
}


/// The commands of the default registry, in registration order.
pub open spec fn default_entries() -> Seq<CommandSpecView> {
    seq![
        spec_of("repo.list", "gh", &["repo", "list", "--json", "name,nameWithOwner,description,url,isPrivate,viewerPermission"], CommandSafety::NonDestructive),
        spec_of("repo.create", "gh", &["repo", "create"], CommandSafety::NonDestructive),
        spec_of("repo.edit", "gh", &["repo", "edit"], CommandSafety::NonDestructive),
        spec_of("repo.topics.replace", "gh", &["api", "--method", "PUT"], CommandSafety::NonDestructive),
        spec_of("repo.branches.list", "gh", &["api"], CommandSafety::NonDestructive),
        spec_of("repo.branch.ref.get", "gh", &["api"], CommandSafety::NonDestructive),
        spec_of("repo.branch.create", "gh", &["api", "--method", "POST"], CommandSafety::NonDestructive),
        spec_of("repo.branch.delete", "gh", &["api", "--method", "DELETE"], CommandSafety::Destructive),
        spec_of("repo.commits.list", "gh", &["api"], CommandSafety::NonDestructive),
        spec_of("repo.delete", "gh", &["repo", "delete"], CommandSafety::Destructive),
        spec_of("pr.list", "gh", &["pr", "list", "--json", "number,title,state,url,isDraft,author,headRefName,baseRefName"], CommandSafety::NonDestructive),
        spec_of("pr.create", "gh", &["api", "--method", "POST"], CommandSafety::NonDestructive),
        spec_of("pr.review", "gh", &["pr", "review"], CommandSafety::NonDestructive),
        spec_of("pr.edit", "gh", &["pr", "edit"], CommandSafety::NonDestructive),
        spec_of("pr.close", "gh", &["pr", "close"], CommandSafety::NonDestructive),
        spec_of("pr.reopen", "gh", &["pr", "reopen"], CommandSafety::NonDestructive),
        spec_of("pr.merge", "gh", &["pr", "merge"], CommandSafety::NonDestructive),
        spec_of("issue.list", "gh", &["issue", "list", "--json", "number,title,state,url,author"], CommandSafety::NonDestructive),
        spec_of("issue.create", "gh", &["issue", "create"], CommandSafety::NonDestructive),
        spec_of("issue.comment", "gh", &["issue", "comment"], CommandSafety::NonDestructive),
        spec_of("issue.edit", "gh", &["issue", "edit"], CommandSafety::NonDestructive),
        spec_of("issue.close", "gh", &["issue", "close"], CommandSafety::NonDestructive),
        spec_of("issue.reopen", "gh", &["issue", "reopen"], CommandSafety::NonDestructive),
        spec_of("workflow.list", "gh", &["workflow", "list", "--json", "id,name,path,state"], CommandSafety::NonDestructive),
        spec_of("run.list", "gh", &["run", "list", "--json", "databaseId,workflowName,headBranch,status,conclusion,url,displayTitle"], CommandSafety::NonDestructive),
        spec_of("run.rerun", "gh", &["run", "rerun"], CommandSafety::NonDestructive),
        spec_of("run.view", "gh", &["run", "view", "--json", "databaseId,status,conclusion,url,workflowName,jobs"], CommandSafety::NonDestructive),
        spec_of("run.logs", "gh", &["run", "view", "--log"], CommandSafety::NonDestructive),
        spec_of("run.cancel", "gh", &["run", "cancel"], CommandSafety::NonDestructive),
        spec_of("release.list", "gh", &["release", "list", "--json", "tagName,name,isDraft,isPrerelease,publishedAt,createdAt,isLatest"], CommandSafety::NonDestructive),
        spec_of("release.create", "gh", &["release", "create"], CommandSafety::NonDestructive),
        spec_of("release.edit", "gh", &["release", "edit"], CommandSafety::NonDestructive),
        spec_of("release.asset.upload", "gh", &["release", "upload"], CommandSafety::NonDestructive),
        spec_of("release.asset.delete", "gh", &["release", "delete-asset"], CommandSafety::Destructive),
        spec_of("release.delete", "gh", &["release", "delete"], CommandSafety::Destructive),
        spec_of("settings.collaborators.list", "gh", &["api"], CommandSafety::NonDestructive),
        spec_of("settings.collaborators.add", "gh", &["api", "--method", "PUT"], CommandSafety::NonDestructive),
        spec_of("settings.collaborators.remove", "gh", &["api", "--method", "DELETE"], CommandSafety::Destructive),
        spec_of("settings.secrets.list", "gh", &["secret", "list", "--json", "name,updatedAt,visibility"], CommandSafety::NonDestructive),
        spec_of("settings.secrets.set", "gh", &["secret", "set"], CommandSafety::NonDestructive),
        spec_of("settings.secrets.delete", "gh", &["secret", "delete"], CommandSafety::Destructive),
        spec_of("settings.variables.list", "gh", &["variable", "list", "--json", "name,value,updatedAt,createdAt,visibility"], CommandSafety::NonDestructive),
        spec_of("settings.variables.set", "gh", &["variable", "set"], CommandSafety::NonDestructive),
        spec_of("settings.variables.delete", "gh", &["variable", "delete"], CommandSafety::Destructive),
        spec_of("settings.webhooks.list", "gh", &["api"], CommandSafety::NonDestructive),
        spec_of("settings.webhooks.create", "gh", &["api", "--method", "POST"], CommandSafety::NonDestructive),
        spec_of("settings.webhooks.ping", "gh", &["api", "--method", "POST"], CommandSafety::NonDestructive),
        spec_of("settings.webhooks.delete", "gh", &["api", "--method", "DELETE"], CommandSafety::Destructive),
        spec_of("settings.branch_protection.get", "gh", &["api"], CommandSafety::NonDestructive),
        spec_of("settings.branch_protection.update", "gh", &["api", "--method", "PUT"], CommandSafety::NonDestructive),
        spec_of("settings.deploy_keys.list", "gh", &["api"], CommandSafety::NonDestructive),
        spec_of("settings.deploy_keys.add", "gh", &["api", "--method", "POST"], CommandSafety::NonDestructive),
        spec_of("settings.deploy_keys.delete", "gh", &["api", "--method", "DELETE"], CommandSafety::Destructive),
        spec_of("settings.dependabot_alerts.list", "gh", &["api"], CommandSafety::NonDestructive),
        spec_of("auth.status", "gh", &["auth", "status"], CommandSafety::NonDestructive),
        spec_of("auth.organizations.list", "gh", &["api"], CommandSafety::NonDestructive),
        spec_of("issue.view", "gh", &["issue", "view"], CommandSafety::NonDestructive),
        spec_of("pr.view", "gh", &["pr", "view"], CommandSafety::NonDestructive),
        spec_of("pr.comments.list", "gh", &["api"], CommandSafety::NonDestructive),
        spec_of("pr.diff.files.list", "gh", &["api"], CommandSafety::NonDestructive),
        spec_of("pr.diff.raw.get", "gh", &["pr", "diff"], CommandSafety::NonDestructive),
        spec_of("pr.review_threads.list", "gh", &["api", "graphql"], CommandSafety::NonDestructive),
        spec_of("discussions.categories.list", "gh", &["api", "graphql"], CommandSafety::NonDestructive),
        spec_of("discussions.list", "gh", &["api", "graphql"], CommandSafety::NonDestructive),
        spec_of("discussions.create", "gh", &["api", "graphql"], CommandSafety::NonDestructive),
        spec_of("discussions.close", "gh", &["api", "graphql"], CommandSafety::NonDestructive),
        spec_of("discussions.answer", "gh", &["api", "graphql"], CommandSafety::NonDestructive),
        spec_of("insights.views.get", "gh", &["api"], CommandSafety::NonDestructive),
        spec_of("insights.clones.get", "gh", &["api"], CommandSafety::NonDestructive),
        spec_of("projects.list", "gh", &["api", "graphql"], CommandSafety::NonDestructive),
        spec_of("projects.items.list", "gh", &["api", "graphql"], CommandSafety::NonDestructive),
        spec_of("projects.items.add", "gh", &["api", "graphql"], CommandSafety::NonDestructive),
        spec_of("pages.get", "gh", &["api"], CommandSafety::NonDestructive),
        spec_of("pages.create", "gh", &["api", "--method", "POST"], CommandSafety::NonDestructive),
        spec_of("pages.update", "gh", &["api", "--method", "PUT"], CommandSafety::NonDestructive),
        spec_of("pages.delete", "gh", &["api", "--method", "DELETE"], CommandSafety::Destructive),
        spec_of("rulesets.list", "gh", &["api"], CommandSafety::NonDestructive),
        spec_of("rulesets.get", "gh", &["api"], CommandSafety::NonDestructive),
        spec_of("rulesets.create", "gh", &["api", "--method", "POST"], CommandSafety::NonDestructive),
        spec_of("rulesets.update", "gh", &["api", "--method", "PUT"], CommandSafety::NonDestructive),
        spec_of("rulesets.delete", "gh", &["api", "--method", "DELETE"], CommandSafety::Destructive),
        spec_of("wiki.get", "gh", &["api"], CommandSafety::NonDestructive),
        spec_of("wiki.update", "gh", &["api", "--method", "PATCH"], CommandSafety::NonDestructive)
    ]
}

/// The views of a list of specifications.
pub open spec fn spec_views(v: Seq<CommandSpec>) -> Seq<CommandSpecView> {
    v.map_values(|s: CommandSpec| s@)
}

fn push_spec(v: &mut Vec<CommandSpec>, spec: CommandSpec)
    ensures
        spec_views(final(v)@) == spec_views(old(v)@).push(spec@),
{
    let ghost before = v@;
    v.push(spec);
    assert(spec_views(v@) =~= spec_views(before).push(spec@));
}

/// The specifications of the default commands.
#[verifier::rlimit(50)]
pub fn default_command_specs() -> (v: Vec<CommandSpec>)
    ensures
        spec_views(v@) == default_entries(),
{
    let mut v: Vec<CommandSpec> = Vec::new();
    assert(spec_views(v@) =~= Seq::<CommandSpecView>::empty());
    push_spec(&mut v, CommandSpec::new("repo.list", "gh", &["repo", "list", "--json", "name,nameWithOwner,description,url,isPrivate,viewerPermission"], CommandSafety::NonDestructive));
    push_spec(&mut v, CommandSpec::new("repo.create", "gh", &["repo", "create"], CommandSafety::NonDestructive));
    push_spec(&mut v, CommandSpec::new("repo.edit", "gh", &["repo", "edit"], CommandSafety::NonDestructive));
    push_spec(&mut v, CommandSpec::new("repo.topics.replace", "gh", &["api", "--method", "PUT"], CommandSafety::NonDestructive));
    push_spec(&mut v, CommandSpec::new("repo.branches.list", "gh", &["api"], CommandSafety::NonDestructive));
    push_spec(&mut v, CommandSpec::new("repo.branch.ref.get", "gh", &["api"], CommandSafety::NonDestructive));
    push_spec(&mut v, CommandSpec::new("repo.branch.create", "gh", &["api", "--method", "POST"], CommandSafety::NonDestructive));
    push_spec(&mut v, CommandSpec::new("repo.branch.delete", "gh", &["api", "--method", "DELETE"], CommandSafety::Destructive));
    push_spec(&mut v, CommandSpec::new("repo.commits.list", "gh", &["api"], CommandSafety::NonDestructive));
    push_spec(&mut v, CommandSpec::new("repo.delete", "gh", &["repo", "delete"], CommandSafety::Destructive));
    push_spec(&mut v, CommandSpec::new("pr.list", "gh", &["pr", "list", "--json", "number,title,state,url,isDraft,author,headRefName,baseRefName"], CommandSafety::NonDestructive));
    push_spec(&mut v, CommandSpec::new("pr.create", "gh", &["api", "--method", "POST"], CommandSafety::NonDestructive));
    push_spec(&mut v, CommandSpec::new("pr.review", "gh", &["pr", "review"], CommandSafety::NonDestructive));
    push_spec(&mut v, CommandSpec::new("pr.edit", "gh", &["pr", "edit"], CommandSafety::NonDestructive));
    push_spec(&mut v, CommandSpec::new("pr.close", "gh", &["pr", "close"], CommandSafety::NonDestructive));
    push_spec(&mut v, CommandSpec::new("pr.reopen", "gh", &["pr", "reopen"], CommandSafety::NonDestructive));
    push_spec(&mut v, CommandSpec::new("pr.merge", "gh", &["pr", "merge"], CommandSafety::NonDestructive));
    push_spec(&mut v, CommandSpec::new("issue.list", "gh", &["issue", "list", "--json", "number,title,state,url,author"], CommandSafety::NonDestructive));
    push_spec(&mut v, CommandSpec::new("issue.create", "gh", &["issue", "create"], CommandSafety::NonDestructive));
    push_spec(&mut v, CommandSpec::new("issue.comment", "gh", &["issue", "comment"], CommandSafety::NonDestructive));
    push_spec(&mut v, CommandSpec::new("issue.edit", "gh", &["issue", "edit"], CommandSafety::NonDestructive));
    push_spec(&mut v, CommandSpec::new("issue.close", "gh", &["issue", "close"], CommandSafety::NonDestructive));
    push_spec(&mut v, CommandSpec::new("issue.reopen", "gh", &["issue", "reopen"], CommandSafety::NonDestructive));
    push_spec(&mut v, CommandSpec::new("workflow.list", "gh", &["workflow", "list", "--json", "id,name,path,state"], CommandSafety::NonDestructive));
    push_spec(&mut v, CommandSpec::new("run.list", "gh", &["run", "list", "--json", "databaseId,workflowName,headBranch,status,conclusion,url,displayTitle"], CommandSafety::NonDestructive));
    push_spec(&mut v, CommandSpec::new("run.rerun", "gh", &["run", "rerun"], CommandSafety::NonDestructive));
    push_spec(&mut v, CommandSpec::new("run.view", "gh", &["run", "view", "--json", "databaseId,status,conclusion,url,workflowName,jobs"], CommandSafety::NonDestructive));
    push_spec(&mut v, CommandSpec::new("run.logs", "gh", &["run", "view", "--log"], CommandSafety::NonDestructive));
    push_spec(&mut v, CommandSpec::new("run.cancel", "gh", &["run", "cancel"], CommandSafety::NonDestructive));
    push_spec(&mut v, CommandSpec::new("release.list", "gh", &["release", "list", "--json", "tagName,name,isDraft,isPrerelease,publishedAt,createdAt,isLatest"], CommandSafety::NonDestructive));
    push_spec(&mut v, CommandSpec::new("release.create", "gh", &["release", "create"], CommandSafety::NonDestructive));
    push_spec(&mut v, CommandSpec::new("release.edit", "gh", &["release", "edit"], CommandSafety::NonDestructive));
    push_spec(&mut v, CommandSpec::new("release.asset.upload", "gh", &["release", "upload"], CommandSafety::NonDestructive));
    push_spec(&mut v, CommandSpec::new("release.asset.delete", "gh", &["release", "delete-asset"], CommandSafety::Destructive));
    push_spec(&mut v, CommandSpec::new("release.delete", "gh", &["release", "delete"], CommandSafety::Destructive));
    push_spec(&mut v, CommandSpec::new("settings.collaborators.list", "gh", &["api"], CommandSafety::NonDestructive));
    push_spec(&mut v, CommandSpec::new("settings.collaborators.add", "gh", &["api", "--method", "PUT"], CommandSafety::NonDestructive));
    push_spec(&mut v, CommandSpec::new("settings.collaborators.remove", "gh", &["api", "--method", "DELETE"], CommandSafety::Destructive));
    push_spec(&mut v, CommandSpec::new("settings.secrets.list", "gh", &["secret", "list", "--json", "name,updatedAt,visibility"], CommandSafety::NonDestructive));
    push_spec(&mut v, CommandSpec::new("settings.secrets.set", "gh", &["secret", "set"], CommandSafety::NonDestructive));
    push_spec(&mut v, CommandSpec::new("settings.secrets.delete", "gh", &["secret", "delete"], CommandSafety::Destructive));
    push_spec(&mut v, CommandSpec::new("settings.variables.list", "gh", &["variable", "list", "--json", "name,value,updatedAt,createdAt,visibility"], CommandSafety::NonDestructive));
    push_spec(&mut v, CommandSpec::new("settings.variables.set", "gh", &["variable", "set"], CommandSafety::NonDestructive));
    push_spec(&mut v, CommandSpec::new("settings.variables.delete", "gh", &["variable", "delete"], CommandSafety::Destructive));
    push_spec(&mut v, CommandSpec::new("settings.webhooks.list", "gh", &["api"], CommandSafety::NonDestructive));
    push_spec(&mut v, CommandSpec::new("settings.webhooks.create", "gh", &["api", "--method", "POST"], CommandSafety::NonDestructive));
    push_spec(&mut v, CommandSpec::new("settings.webhooks.ping", "gh", &["api", "--method", "POST"], CommandSafety::NonDestructive));
    push_spec(&mut v, CommandSpec::new("settings.webhooks.delete", "gh", &["api", "--method", "DELETE"], CommandSafety::Destructive));
    push_spec(&mut v, CommandSpec::new("settings.branch_protection.get", "gh", &["api"], CommandSafety::NonDestructive));
    push_spec(&mut v, CommandSpec::new("settings.branch_protection.update", "gh", &["api", "--method", "PUT"], CommandSafety::NonDestructive));
    push_spec(&mut v, CommandSpec::new("settings.deploy_keys.list", "gh", &["api"], CommandSafety::NonDestructive));
    push_spec(&mut v, CommandSpec::new("settings.deploy_keys.add", "gh", &["api", "--method", "POST"], CommandSafety::NonDestructive));
    push_spec(&mut v, CommandSpec::new("settings.deploy_keys.delete", "gh", &["api", "--method", "DELETE"], CommandSafety::Destructive));
    push_spec(&mut v, CommandSpec::new("settings.dependabot_alerts.list", "gh", &["api"], CommandSafety::NonDestructive));
    push_spec(&mut v, CommandSpec::new("auth.status", "gh", &["auth", "status"], CommandSafety::NonDestructive));
    push_spec(&mut v, CommandSpec::new("auth.organizations.list", "gh", &["api"], CommandSafety::NonDestructive));
    push_spec(&mut v, CommandSpec::new("issue.view", "gh", &["issue", "view"], CommandSafety::NonDestructive));
    push_spec(&mut v, CommandSpec::new("pr.view", "gh", &["pr", "view"], CommandSafety::NonDestructive));
    push_spec(&mut v, CommandSpec::new("pr.comments.list", "gh", &["api"], CommandSafety::NonDestructive));
    push_spec(&mut v, CommandSpec::new("pr.diff.files.list", "gh", &["api"], CommandSafety::NonDestructive));
    push_spec(&mut v, CommandSpec::new("pr.diff.raw.get", "gh", &["pr", "diff"], CommandSafety::NonDestructive));
    push_spec(&mut v, CommandSpec::new("pr.review_threads.list", "gh", &["api", "graphql"], CommandSafety::NonDestructive));
    push_spec(&mut v, CommandSpec::new("discussions.categories.list", "gh", &["api", "graphql"], CommandSafety::NonDestructive));
    push_spec(&mut v, CommandSpec::new("discussions.list", "gh", &["api", "graphql"], CommandSafety::NonDestructive));
    push_spec(&mut v, CommandSpec::new("discussions.create", "gh", &["api", "graphql"], CommandSafety::NonDestructive));
    push_spec(&mut v, CommandSpec::new("discussions.close", "gh", &["api", "graphql"], CommandSafety::NonDestructive));
    push_spec(&mut v, CommandSpec::new("discussions.answer", "gh", &["api", "graphql"], CommandSafety::NonDestructive));
    push_spec(&mut v, CommandSpec::new("insights.views.get", "gh", &["api"], CommandSafety::NonDestructive));
    push_spec(&mut v, CommandSpec::new("insights.clones.get", "gh", &["api"], CommandSafety::NonDestructive));
    push_spec(&mut v, CommandSpec::new("projects.list", "gh", &["api", "graphql"], CommandSafety::NonDestructive));
    push_spec(&mut v, CommandSpec::new("projects.items.list", "gh", &["api", "graphql"], CommandSafety::NonDestructive));
    push_spec(&mut v, CommandSpec::new("projects.items.add", "gh", &["api", "graphql"], CommandSafety::NonDestructive));
    push_spec(&mut v, CommandSpec::new("pages.get", "gh", &["api"], CommandSafety::NonDestructive));
    push_spec(&mut v, CommandSpec::new("pages.create", "gh", &["api", "--method", "POST"], CommandSafety::NonDestructive));
    push_spec(&mut v, CommandSpec::new("pages.update", "gh", &["api", "--method", "PUT"], CommandSafety::NonDestructive));
    push_spec(&mut v, CommandSpec::new("pages.delete", "gh", &["api", "--method", "DELETE"], CommandSafety::Destructive));
    push_spec(&mut v, CommandSpec::new("rulesets.list", "gh", &["api"], CommandSafety::NonDestructive));
    push_spec(&mut v, CommandSpec::new("rulesets.get", "gh", &["api"], CommandSafety::NonDestructive));
    push_spec(&mut v, CommandSpec::new("rulesets.create", "gh", &["api", "--method", "POST"], CommandSafety::NonDestructive));
    push_spec(&mut v, CommandSpec::new("rulesets.update", "gh", &["api", "--method", "PUT"], CommandSafety::NonDestructive));
    push_spec(&mut v, CommandSpec::new("rulesets.delete", "gh", &["api", "--method", "DELETE"], CommandSafety::Destructive));
    push_spec(&mut v, CommandSpec::new("wiki.get", "gh", &["api"], CommandSafety::NonDestructive));
    push_spec(&mut v, CommandSpec::new("wiki.update", "gh", &["api", "--method", "PATCH"], CommandSafety::NonDestructive));
    v
}

/// Registering every entry keeps the identifier of each of them present.
pub proof fn lemma_registered_all_has(s: Seq<CommandSpecView>, entries: Seq<CommandSpecView>, k: int)
    requires
        0 <= k < entries.len(),
    ensures
        has_id(registered_all(s, entries), entries[k].id),
    decreases entries.len(),
{
    let prev = registered_all(s, entries.drop_last());
    if k < entries.len() - 1 {
        assert(entries.drop_last()[k] == entries[k]);
        lemma_registered_all_has(s, entries.drop_last(), k);
        lemma_register_keeps(prev, entries.last(), entries[k].id);
    } else {
        let r = register_spec(prev, entries.last());
        if !has_id(prev, entries.last().id) {
            assert(r[r.len() - 1] == entries.last());
        }
    }
}

/// Registering never removes an identifier.
pub proof fn lemma_register_keeps(s: Seq<CommandSpecView>, e: CommandSpecView, id: Seq<char>)
    requires
        has_id(s, id),
    ensures
        has_id(register_spec(s, e), id),
{
    if !has_id(s, e.id) {
        let i = choose|i: int| 0 <= i < s.len() && (#[trigger] s[i]).id == id;
        assert(s.push(e)[i] == s[i]);
    }
}

/// Looking up an identifier that only the appended specification carries finds it.
proof fn lemma_lookup_appended(s: Seq<CommandSpecView>, e: CommandSpecView)
    requires
        !has_id(s, e.id),
    ensures
        lookup(s.push(e), e.id) == Some(e),
    decreases s.len(),
{
    if s.len() > 0 {
        assert(s[0].id != e.id);
        assert(s.push(e).drop_first() =~= s.drop_first().push(e));
        assert(!has_id(s.drop_first(), e.id)) by {
            if has_id(s.drop_first(), e.id) {
                let k = choose|k: int|
                    0 <= k < s.drop_first().len() && (#[trigger] s.drop_first()[k]).id == e.id;
                assert(s[k + 1] == s.drop_first()[k]);
            }
        }
        lemma_lookup_appended(s.drop_first(), e);
    }
}

/// A command registered under a new identifier is the one that requests for
/// that identifier are built from: its program, its base arguments followed by
/// the caller's, and its safety. Registering a taken identifier changes nothing.
pub proof fn lemma_register_then_build(
    s: Seq<CommandSpecView>,
    e: CommandSpecView,
    args: Seq<Seq<char>>,
)
    requires
        !has_nul(args),
    ensures
        !has_id(s, e.id) ==> build_outcome(register_spec(s, e), e.id, args) == Ok::<
            RequestView,
            ErrorView,
        >(RequestView { command_id: e.id, program: e.program, args: e.base_args + args, safety: e.safety }),
        has_id(s, e.id) ==> register_spec(s, e) == s,
{
    if !has_id(s, e.id) {
        lemma_lookup_appended(s, e);
    }
}

#[derive(Debug, Clone, Default)]
pub struct CommandRegistry {
    specs: Vec<CommandSpec>,
}

impl View for CommandRegistry {
    type V = Seq<CommandSpecView>;

    closed spec fn view(&self) -> Seq<CommandSpecView> {
        self.specs@.map_values(|s: CommandSpec| s@)
    }
}

proof fn lemma_lookup_skip(s: Seq<CommandSpecView>, id: Seq<char>, i: int)
    requires
        0 <= i <= s.len(),
        forall|j: int| 0 <= j < i ==> (#[trigger] s[j]).id != id,
    ensures
        lookup(s, id) == lookup(s.subrange(i, s.len() as int), id),
    decreases i,
{
    if i > 0 {
        assert(s.drop_first().subrange(i - 1, s.drop_first().len() as int) =~= s.subrange(
            i,
            s.len() as int,
        ));
        assert forall|j: int| 0 <= j < i - 1 implies (#[trigger] s.drop_first()[j]).id != id by {
            assert(s.drop_first()[j] == s[j + 1]);
        }
        lemma_lookup_skip(s.drop_first(), id, i - 1);
    } else {
        assert(s.subrange(0, s.len() as int) =~= s);
    }
}

/// A specification that was not found is absent.
proof fn lemma_lookup_none(s: Seq<CommandSpecView>, id: Seq<char>)
    ensures
        lookup(s, id) is None <==> !has_id(s, id),
    decreases s.len(),
{
    if s.len() > 0 {
        lemma_lookup_none(s.drop_first(), id);
        if has_id(s.drop_first(), id) {
            let k = choose|k: int| 0 <= k < s.drop_first().len() && (#[trigger] s.drop_first()[k]).id == id;
            assert(s[k + 1] == s.drop_first()[k]);
        }
        if has_id(s, id) && s[0].id != id {
            let k = choose|k: int| 0 <= k < s.len() && (#[trigger] s[k]).id == id;
            assert(s.drop_first()[k - 1] == s[k]);
        }
    }
}

/// A found specification carries the identifier it was looked up by.
pub proof fn lemma_lookup_some(s: Seq<CommandSpecView>, id: Seq<char>)
    ensures
        lookup(s, id) matches Some(spec) ==> spec.id == id,
    decreases s.len(),
{
    if s.len() > 0 {
        lemma_lookup_some(s.drop_first(), id);
    }
}

impl CommandRegistry {
    pub open spec fn wf(&self) -> bool {
        ids_distinct(self@)
    }

    pub fn new() -> (r: Self)
        ensures
            r@ == Seq::<CommandSpecView>::empty(),
    {
        let r = CommandRegistry { specs: Vec::new() };
        assert(r@ =~= Seq::<CommandSpecView>::empty());
        r
    }

    /// The registry of the default commands.
    pub fn with_defaults() -> (r: Self)
        ensures
            r@ == registered_all(Seq::empty(), default_entries()),
            r.wf(),
    {
        let defaults = default_command_specs();
        let mut registry = Self::new();
        let mut i: usize = 0;
        while i < defaults.len()
            invariant
                i <= defaults@.len(),
                spec_views(defaults@) == default_entries(),
                registry@ == registered_all(Seq::empty(), default_entries().take(i as int)),
                registry.wf(),
            decreases defaults@.len() - i,
        {
            let _ = registry.register(defaults[i].duplicate());
            proof {
                let d = default_entries();
                assert(d.take(i + 1).drop_last() =~= d.take(i as int));
                assert(spec_views(defaults@)[i as int] == defaults@[i as int]@);
            }
            i = i + 1;
        }
        assert(default_entries().take(defaults@.len() as int) =~= default_entries());
        registry
    }

    /// The position of the specification with identifier `id`, if any.
    fn position(&self, id: &str) -> (r: Option<usize>)
        ensures
            match r {
                None => !has_id(self@, id@) && lookup(self@, id@) is None,
                Some(i) => i < self@.len() && self@[i as int].id == id@ && lookup(self@, id@)
                    == Some(self@[i as int]),
            },
    {
        let n = self.specs.len();
        let mut i: usize = 0;
        let target = owned(id);
        while i < n
            invariant
                n == self.specs@.len(),
                i <= n,
                target@ == id@,
                forall|j: int| 0 <= j < i ==> (#[trigger] self@[j]).id != id@,
            decreases n - i,
        {
            if self.specs[i].id == target {
                proof {
                    lemma_lookup_skip(self@, id@, i as int);
                    assert(self@.subrange(i as int, self@.len() as int)[0] == self@[i as int]);
                }
                return Some(i);
            }
            i = i + 1;
        }
        proof {
            lemma_lookup_none(self@, id@);
        }
        None
    }

    pub fn register(&mut self, spec: CommandSpec) -> (r: Result<(), AppError>)
        ensures
            final(self)@ == register_spec(old(self)@, spec@),
            has_id(old(self)@, spec@.id) ==> (r matches Err(e) && e.is(
                validation_view(duplicate_message(spec@.id)),
            )),
            !has_id(old(self)@, spec@.id) ==> r is Ok,
            old(self).wf() ==> final(self).wf(),
    {
        match self.position(spec.id.as_str()) {
            Some(_) => {
                let message = concat3("command `", spec.id.as_str(), "` is already registered");
                Err(AppError::validation(message.as_str()))
            },
            None => {
                let ghost before = self@;
                self.specs.push(spec);
                proof {
                    assert(self@ =~= before.push(spec@));
                }
                Ok(())
            },
        }
    }

    pub fn build_request(&self, command_id: &str, dynamic_args: &[String]) -> (r: Result<
        CommandRequest,
        AppError,
    >)
        ensures
            match build_outcome(self@, command_id@, texts(dynamic_args@)) {
                Ok(v) => r matches Ok(req) && req@ == v,
                Err(v) => r matches Err(e) && e.is(v),
            },
    {
        let index = match self.position(command_id) {
            Some(i) => i,
            None => {
                let message = concat3("command `", command_id, "` is not registered");
                return Err(AppError::validation(message.as_str()));
            },
        };
        let mut k: usize = 0;
        while k < dynamic_args.len()
            invariant
                k <= dynamic_args@.len(),
                index < self@.len(),
                lookup(self@, command_id@) == Some(self@[index as int]),
                forall|j: int| 0 <= j < k ==> !(#[trigger] dynamic_args@[j])@.contains('\0'),
            decreases dynamic_args@.len() - k,
        {
            if str_has_char(dynamic_args[k].as_str(), '\0') {
                proof {
                    assert(texts(dynamic_args@)[k as int] == dynamic_args@[k as int]@);
                    assert(texts(dynamic_args@)[k as int].contains('\0'));
                    assert(has_nul(texts(dynamic_args@)));
                }
                let message = concat3("command `", command_id, "` contains a NUL byte in args");
                return Err(AppError::validation(message.as_str()));
            }
            k = k + 1;
        }
        proof {
            assert forall|j: int| 0 <= j < texts(dynamic_args@).len() implies !(
            #[trigger] texts(dynamic_args@)[j]).contains('\0') by {
                assert(texts(dynamic_args@)[j] == dynamic_args@[j]@);
            }
        }
        let spec = &self.specs[index];
        let mut args = copy_strings(&spec.base_args);
        let mut m: usize = 0;
        let ghost base = texts(args@);
        while m < dynamic_args.len()
            invariant
                m <= dynamic_args@.len(),
                texts(args@) == base + texts(dynamic_args@.subrange(0, m as int)),
            decreases dynamic_args@.len() - m,
        {
            let ghost before = args@;
            args.push(owned(dynamic_args[m].as_str()));
            proof {
                assert(args@.drop_last() =~= before);
                assert(texts(dynamic_args@.subrange(0, m + 1)) =~= texts(
                    dynamic_args@.subrange(0, m as int),
                ).push(dynamic_args@[m as int]@));
                assert(texts(args@) =~= texts(args@.drop_last()).push(args@.last()@));
                assert(texts(args@) =~= base + texts(dynamic_args@.subrange(0, m + 1)));
            }
            m = m + 1;
        }
        assert(dynamic_args@.subrange(0, dynamic_args@.len() as int) =~= dynamic_args@);
        Ok(
            CommandRequest {
                command_id: owned(command_id),
                program: owned(spec.program.as_str()),
                args,
                safety: spec.safety,
            },
        )
    }

    /// A registry with the same commands.
    pub fn duplicate(&self) -> (r: Self)
        ensures
            r@ == self@,
    {
        let mut specs: Vec<CommandSpec> = Vec::new();
        let mut i: usize = 0;
        while i < self.specs.len()
            invariant
                i <= self.specs@.len(),
                specs@.map_values(|s: CommandSpec| s@) == self@.subrange(0, i as int),
            decreases self.specs@.len() - i,
        {
            let ghost before = specs@;
            specs.push(self.specs[i].duplicate());
            proof {
                assert(specs@.map_values(|s: CommandSpec| s@) =~= before.map_values(
                    |s: CommandSpec| s@,
                ).push(self.specs@[i as int]@));
                assert(self@.subrange(0, i + 1) =~= self@.subrange(0, i as int).push(self@[i as int]));
            }
            i = i + 1;
        }
        assert(self@.subrange(0, self@.len() as int) =~= self@);
        CommandRegistry { specs }
    }

    pub fn len(&self) -> (n: usize)
        ensures
            n == self@.len(),
    {
        self.specs.len()
    }

    /// The identifiers of the registered commands, in registration order.
    pub fn command_ids(&self) -> (ids: Vec<String>)
        ensures
            texts(ids@) == self@.map_values(|s: CommandSpecView| s.id),
    {
        let mut ids: Vec<String> = Vec::new();
        let mut i: usize = 0;
        while i < self.specs.len()
            invariant
                i <= self.specs@.len(),
                texts(ids@) == self@.subrange(0, i as int).map_values(|s: CommandSpecView| s.id),
            decreases self.specs@.len() - i,
        {
            ids.push(owned(self.specs[i].id.as_str()));
            proof {
                assert(self@.subrange(0, i + 1).map_values(|s: CommandSpecView| s.id) =~= self@.subrange(
                    0,
                    i as int,
                ).map_values(|s: CommandSpecView| s.id).push(self@[i as int].id));
                assert(texts(ids@) =~= texts(ids@.drop_last()).push(ids@.last()@));
            }
            i = i + 1;
        }
        assert(self@.subrange(0, self@.len() as int) =~= self@);
        ids
    }

    /// Whether a command with identifier `id` is registered.
    pub fn contains(&self, id: &str) -> (b: bool)
        ensures
            b == has_id(self@, id@),
    {
        self.position(id).is_some()
    }
}

} // verus!

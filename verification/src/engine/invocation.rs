//! What the feature services share: checks of required fields, and running a
//! registered command with its arguments, together with the statement of what
//! each of them can end with.
use vstd::prelude::*;
use crate::engine::command_registry::{
    CommandRegistry, CommandSpecView, build_outcome, texts,
};
use crate::engine::error::{AppError, ErrorView, permission_view, validation_view};
use crate::engine::executor::{CommandExecutor, Runner, execution_texts, is_skipped, run_outcome, safe_mode_message};
use crate::engine::observability::TraceContext;
use crate::engine::policy_guard::{RepoPermission, guard_outcome};
use crate::text::{blank, concat, concat3, is_blank};

verus! {

broadcast use vstd::string::group_string_axioms;

/// `r` is what a check with outcome `o` returns: `Ok` when `o` is `None`,
/// otherwise the error `o` describes.
pub open spec fn check_result(o: Option<ErrorView>, r: Result<(), AppError>) -> bool {
    match o {
        None => r is Ok,
        Some(v) => r matches Err(e) && e.is(v),
    }
}

/// The first failing check of two, in order.
pub open spec fn first_failure(a: Option<ErrorView>, b: Option<ErrorView>) -> Option<ErrorView> {
    if a is Some {
        a
    } else {
        b
    }
}

/// How running the command `id` with `args` through `ex` may end, as the
/// standard output and error of the run that succeeded: the error of building
/// the request, or how executing the request that was built ends.
pub open spec fn command_output<R: Runner>(
    ex: CommandExecutor<R>,
    registry: Seq<CommandSpecView>,
    id: Seq<char>,
    args: Seq<Seq<char>>,
    o: Result<(Seq<char>, Seq<char>), AppError>,
) -> bool {
    match build_outcome(registry, id, args) {
        Err(v) => o matches Err(e) && e.is(v),
        Ok(req) => run_outcome(ex, req, o),
    }
}

/// `r` is what running the command `id` with `args` may end with, when
/// nothing but its success matters: `Ok` exactly when the command's outcome
/// is a success, its error otherwise.
pub open spec fn unit_result<R: Runner>(
    ex: CommandExecutor<R>,
    registry: Seq<CommandSpecView>,
    id: Seq<char>,
    args: Seq<Seq<char>>,
    r: Result<(), AppError>,
) -> bool {
    exists|o: Result<(Seq<char>, Seq<char>), AppError>|
        #[trigger] command_output(ex, registry, id, args, o) && match o {
            Ok(_) => r is Ok,
            Err(e) => r == Err::<(), AppError>(e),
        }
}

/// `r` is what running the command `id` with `args` may end with, when its
/// standard output is kept: the output of the command's outcome, or its error.
pub open spec fn payload_result<R: Runner>(
    ex: CommandExecutor<R>,
    registry: Seq<CommandSpecView>,
    id: Seq<char>,
    args: Seq<Seq<char>>,
    r: Result<String, AppError>,
) -> bool {
    exists|o: Result<(Seq<char>, Seq<char>), AppError>|
        #[trigger] command_output(ex, registry, id, args, o) && match o {
            Ok(out) => r matches Ok(p) && p@ == out.0,
            Err(e) => r == Err::<String, AppError>(e),
        }
}

/// A guarded operation: the permission check first, then the input checks,
/// then the command.
pub open spec fn guarded_unit<R: Runner>(
    required: RepoPermission,
    permission: RepoPermission,
    action: Seq<char>,
    invalid: Option<ErrorView>,
    ex: CommandExecutor<R>,
    registry: Seq<CommandSpecView>,
    args: Seq<Seq<char>>,
    r: Result<(), AppError>,
) -> bool {
    match first_failure(guard_outcome(required, permission, action), invalid) {
        Some(v) => r matches Err(e) && e.is(v),
        None => unit_result(ex, registry, action, args, r),
    }
}

/// A guarded operation whose output is kept.
pub open spec fn guarded_payload<R: Runner>(
    required: RepoPermission,
    permission: RepoPermission,
    action: Seq<char>,
    invalid: Option<ErrorView>,
    ex: CommandExecutor<R>,
    registry: Seq<CommandSpecView>,
    args: Seq<Seq<char>>,
    r: Result<String, AppError>,
) -> bool {
    match first_failure(guard_outcome(required, permission, action), invalid) {
        Some(v) => r matches Err(e) && e.is(v),
        None => payload_result(ex, registry, action, args, r),
    }
}

/// In safe test mode a destructive command is never run: once its request is
/// built, the operation succeeds, and an operation that keeps the output gets
/// an empty one.
pub proof fn lemma_safe_mode_skips_destructive<R: Runner>(
    ex: CommandExecutor<R>,
    registry: Seq<CommandSpecView>,
    id: Seq<char>,
    args: Seq<Seq<char>>,
    unit: Result<(), AppError>,
    payload: Result<String, AppError>,
)
    requires
        ex.safe_mode(),
        build_outcome(registry, id, args) matches Ok(req) && req.safety
            == crate::engine::command_registry::CommandSafety::Destructive,
        unit_result(ex, registry, id, args, unit),
        payload_result(ex, registry, id, args, payload),
    ensures
        unit is Ok,
        payload matches Ok(p) && p@ == Seq::<char>::empty(),
{
}

/// A guarded operation that the caller's level does not allow is refused with
/// the permission error, whatever its input, and runs nothing.
pub proof fn lemma_refusal_comes_first<R: Runner>(
    required: RepoPermission,
    permission: RepoPermission,
    action: Seq<char>,
    invalid: Option<ErrorView>,
    ex: CommandExecutor<R>,
    registry: Seq<CommandSpecView>,
    args: Seq<Seq<char>>,
    unit: Result<(), AppError>,
    payload: Result<String, AppError>,
)
    requires
        !crate::engine::policy_guard::permits(required, permission),
        guarded_unit(required, permission, action, invalid, ex, registry, args, unit),
        guarded_payload(
            required,
            permission,
            action,
            invalid,
            ex,
            registry,
            args,
            payload,
        ),
    ensures
        unit matches Err(e) && e.is(
            permission_view(
                crate::engine::policy_guard::denial_message(action, required, permission),
            ),
        ),
        payload matches Err(e) && e.is(
            permission_view(
                crate::engine::policy_guard::denial_message(action, required, permission),
            ),
        ),
{
}

/// An unguarded read: the input checks, then the command, whose output is kept.
pub open spec fn checked_payload<R: Runner>(
    invalid: Option<ErrorView>,
    ex: CommandExecutor<R>,
    registry: Seq<CommandSpecView>,
    id: Seq<char>,
    args: Seq<Seq<char>>,
    r: Result<String, AppError>,
) -> bool {
    match invalid {
        Some(v) => r matches Err(e) && e.is(v),
        None => payload_result(ex, registry, id, args, r),
    }
}

/// Builds the request for `id` and executes it, keeping nothing of the output.
pub fn run_unit<R: Runner>(
    registry: &CommandRegistry,
    executor: &CommandExecutor<R>,
    id: &str,
    args: &Vec<String>,
    trace: &TraceContext,
) -> (r: Result<(), AppError>)
    ensures
        unit_result(*executor, registry@, id@, texts(args@), r),
{
    match run_command(registry, executor, id, args, trace) {
        Ok(_) => Ok(()),
        Err(e) => Err(e),
    }
}

/// Builds the request for `id` and executes it, keeping its standard output.
pub fn run_payload<R: Runner>(
    registry: &CommandRegistry,
    executor: &CommandExecutor<R>,
    id: &str,
    args: &Vec<String>,
    trace: &TraceContext,
) -> (r: Result<String, AppError>)
    ensures
        payload_result(*executor, registry@, id@, texts(args@), r),
{
    match run_command(registry, executor, id, args, trace) {
        Ok(output) => Ok(output.stdout),
        Err(e) => Err(e),
    }
}

/// Builds the request for `id` and executes it, keeping its output.
pub fn run_command<R: Runner>(
    registry: &CommandRegistry,
    executor: &CommandExecutor<R>,
    id: &str,
    args: &Vec<String>,
    trace: &TraceContext,
) -> (r: Result<crate::engine::executor::ExecutionOutput, AppError>)
    ensures
        command_output(
            *executor,
            registry@,
            id@,
            texts(args@),
            match r {
                Ok(out) => Ok((out.stdout@, out.stderr@)),
                Err(e) => Err(e),
            },
        ),
{
    let req = match registry.build_request(id, args.as_slice()) {
        Ok(req) => req,
        Err(e) => return Err(e),
    };
    let result = executor.execute(&req, trace);
    proof {
        assert(run_outcome(*executor, req@, execution_texts(result)));
    }
    match result {
        Ok((output, _audit)) => Ok(output),
        Err(e) => Err(e),
    }
}

/// The check that owner and repository are given.
pub open spec fn owner_repo_check(owner: Seq<char>, repo: Seq<char>) -> Option<ErrorView> {
    if is_blank(owner) || is_blank(repo) {
        Some(validation_view("owner and repo are required"@))
    } else {
        None
    }
}

/// The check that a text is not blank, failing with `message`.
pub open spec fn required_check(value: Seq<char>, message: Seq<char>) -> Option<ErrorView> {
    if is_blank(value) {
        Some(validation_view(message))
    } else {
        None
    }
}

/// The check that an optional text, when given, is not blank.
pub open spec fn optional_check(value: Option<String>, message: Seq<char>) -> Option<ErrorView> {
    match value {
        Some(v) => required_check(v@, message),
        None => None,
    }
}

/// The check that a number is not zero.
pub open spec fn nonzero_check(value: int, message: Seq<char>) -> Option<ErrorView> {
    if value == 0 {
        Some(validation_view(message))
    } else {
        None
    }
}

/// The check that a list holds no blank text.
pub open spec fn entries_check(values: Seq<String>, message: Seq<char>) -> Option<ErrorView> {
    if exists|i: int| 0 <= i < values.len() && is_blank((#[trigger] values[i])@) {
        Some(validation_view(message))
    } else {
        None
    }
}

/// Fails with "owner and repo are required" when either is blank.
pub fn require_owner_repo(owner: &str, repo: &str) -> (r: Result<(), AppError>)
    ensures
        check_result(owner_repo_check(owner@, repo@), r),
{
    if blank(owner) || blank(repo) {
        return Err(AppError::validation("owner and repo are required"));
    }
    Ok(())
}

/// Fails with `message` when `value` is blank.
pub fn require_text(value: &str, message: &str) -> (r: Result<(), AppError>)
    ensures
        check_result(required_check(value@, message@), r),
{
    if blank(value) {
        return Err(AppError::validation(message));
    }
    Ok(())
}

/// Fails with `message` when `value` is given and blank.
pub fn require_optional_text(value: &Option<String>, message: &str) -> (r: Result<(), AppError>)
    ensures
        check_result(optional_check(*value, message@), r),
{
    match value {
        Some(v) => require_text(v.as_str(), message),
        None => Ok(()),
    }
}

/// Fails with `message` when `value` is zero.
pub fn require_nonzero(value: u64, message: &str) -> (r: Result<(), AppError>)
    ensures
        check_result(nonzero_check(value as int, message@), r),
{
    if value == 0 {
        return Err(AppError::validation(message));
    }
    Ok(())
}

/// Fails with `message` when some text of `values` is blank.
pub fn require_entries(values: &Vec<String>, message: &str) -> (r: Result<(), AppError>)
    ensures
        check_result(entries_check(values@, message@), r),
{
    let mut i: usize = 0;
    while i < values.len()
        invariant
            i <= values@.len(),
            forall|j: int| 0 <= j < i ==> !is_blank((#[trigger] values@[j])@),
        decreases values@.len() - i,
    {
        if blank(values[i].as_str()) {
            return Err(AppError::validation(message));
        }
        i = i + 1;
    }
    Ok(())
}

/// Appends an argument to an argument list.
pub fn push_arg(args: &mut Vec<String>, arg: String)
    ensures
        texts(final(args)@) == texts(old(args)@).push(arg@),
{
    let ghost before = args@;
    args.push(arg);
    assert(texts(args@) =~= texts(before).push(arg@));
}

/// Appends a copy of a text as an argument.
pub fn push_str_arg(args: &mut Vec<String>, arg: &str)
    ensures
        texts(final(args)@) == texts(old(args)@).push(arg@),
{
    push_arg(args, crate::text::owned(arg));
}

/// An empty argument list.
pub fn no_args() -> (args: Vec<String>)
    ensures
        texts(args@) == Seq::<Seq<char>>::empty(),
{
    let args: Vec<String> = Vec::new();
    assert(texts(args@) =~= Seq::<Seq<char>>::empty());
    args
}

/// Each value with `prefix` in front.
pub open spec fn prefixed(prefix: Seq<char>, values: Seq<Seq<char>>) -> Seq<Seq<char>> {
    values.map_values(|v: Seq<char>| prefix + v)
}

/// `flag` before each value: `[flag, v0, flag, v1, ...]`.
pub open spec fn flagged(flag: Seq<char>, values: Seq<Seq<char>>) -> Seq<Seq<char>>
    decreases values.len(),
{
    if values.len() == 0 {
        Seq::empty()
    } else {
        flagged(flag, values.drop_last()) + seq![flag, values.last()]
    }
}

/// Appends `flag` and `prefix + v` for each value `v`, in order.
pub fn push_flagged(args: &mut Vec<String>, flag: &str, prefix: &str, values: &Vec<String>)
    ensures
        texts(final(args)@) == texts(old(args)@) + flagged(flag@, prefixed(prefix@, texts(values@))),
{
    let ghost start = texts(args@);
    let mut i: usize = 0;
    while i < values.len()
        invariant
            i <= values@.len(),
            texts(args@) == start + flagged(flag@, prefixed(prefix@, texts(values@.subrange(0, i as int)))),
        decreases values@.len() - i,
    {
        push_str_arg(args, flag);
        push_arg(args, crate::text::concat(prefix, values[i].as_str()));
        proof {
            let prev = prefixed(prefix@, texts(values@.subrange(0, i as int)));
            let next = prefixed(prefix@, texts(values@.subrange(0, i + 1)));
            assert(next =~= prev.push(prefix@ + values@[i as int]@));
            assert(next.drop_last() =~= prev);
            assert(texts(args@) =~= start + flagged(flag@, next));
        }
        i = i + 1;
    }
    assert(values@.subrange(0, values@.len() as int) =~= values@);
}

/// "{a}/{b}".
pub open spec fn slash(a: Seq<char>, b: Seq<char>) -> Seq<char> {
    a + "/"@ + b
}

/// "{a}/{b}", the form `owner/repo` that `--repo` takes.
pub fn slash_join(a: &str, b: &str) -> (s: String)
    ensures
        s@ == slash(a@, b@),
{
    crate::text::concat3(a, "/", b)
}

/// "{name} is required".
pub fn required_message(name: &str) -> (s: String)
    ensures
        s@ == name@ + " is required"@,
{
    concat(name, " is required")
}

/// "repos/{owner}/{repo}{tail}", the REST path of a repository resource.
pub open spec fn repo_path(owner: Seq<char>, repo: Seq<char>, tail: Seq<char>) -> Seq<char> {
    "repos/"@ + owner + "/"@ + repo + tail
}

/// Builds "repos/{owner}/{repo}{tail}".
pub fn repo_path_string(owner: &str, repo: &str, tail: &str) -> (s: String)
    ensures
        s@ == repo_path(owner@, repo@, tail@),
{
    let head = concat3("repos/", owner, "/");
    concat3(head.as_str(), repo, tail)
}

/// The check that a named field is not blank: "{name} is required".
pub open spec fn field_check(name: Seq<char>, value: Seq<char>) -> Option<ErrorView> {
    required_check(value, name + " is required"@)
}

/// Fails with "{name} is required" when `value` is blank.
pub fn require_field(name: &str, value: &str) -> (r: Result<(), AppError>)
    ensures
        check_result(field_check(name@, value@), r),
{
    if blank(value) {
        let message = required_message(name);
        return Err(AppError::validation(message.as_str()));
    }
    Ok(())
}

/// `[flag, value]` when the value is given.
pub open spec fn optional_pair(flag: Seq<char>, value: Option<String>) -> Seq<Seq<char>> {
    match value {
        Some(v) => seq![flag, v@],
        None => Seq::empty(),
    }
}

/// Appends `flag` and the value when the value is given.
pub fn push_optional_pair(args: &mut Vec<String>, flag: &str, value: &Option<String>)
    ensures
        texts(final(args)@) == texts(old(args)@) + optional_pair(flag@, *value),
{
    let ghost start = texts(args@);
    match value {
        Some(v) => {
            push_str_arg(args, flag);
            push_str_arg(args, v.as_str());
            assert(texts(args@) =~= start + seq![flag@, v@]);
        },
        None => {
            assert(texts(args@) =~= start + Seq::<Seq<char>>::empty());
        },
    }
}

/// The check of a listing limit.
pub open spec fn limit_check(limit: u16) -> Option<ErrorView> {
    nonzero_check(limit as int, "limit must be greater than 0"@)
}

/// Fails with "limit must be greater than 0" when `limit` is zero.
pub fn require_limit(limit: u16) -> (r: Result<(), AppError>)
    ensures
        check_result(limit_check(limit), r),
{
    require_nonzero(limit as u64, "limit must be greater than 0")
}

/// The texts joined with `sep` between each two, as `[String]::join` does.
pub open spec fn joined(values: Seq<Seq<char>>, sep: Seq<char>) -> Seq<char>
    decreases values.len(),
{
    if values.len() == 0 {
        Seq::empty()
    } else if values.len() == 1 {
        values[0]
    } else {
        joined(values.drop_last(), sep) + sep + values.last()
    }
}

/// Joins the texts with `sep` between each two.
pub fn join_texts(values: &Vec<String>, sep: &str) -> (s: String)
    ensures
        s@ == joined(texts(values@), sep@),
{
    let mut s = String::new();
    let mut i: usize = 0;
    while i < values.len()
        invariant
            i <= values@.len(),
            s@ == joined(texts(values@.subrange(0, i as int)), sep@),
        decreases values@.len() - i,
    {
        let ghost prev = texts(values@.subrange(0, i as int));
        let ghost next = texts(values@.subrange(0, i + 1));
        assert(next.drop_last() =~= prev);
        assert(next.last() == values@[i as int]@);
        if i > 0 {
            s.append(sep);
        } else {
            assert(s@ =~= Seq::<char>::empty());
        }
        s.append(values[i].as_str());
        assert(s@ =~= joined(next, sep@));
        i = i + 1;
    }
    assert(values@.subrange(0, values@.len() as int) =~= values@);
    s
}

/// The command with its output parsed: the error of building the request, or
/// of running it, or what `parsed` relates the output to (an empty output when
/// safe test mode skips the command).
pub open spec fn parsed_result<T, R: Runner>(
    ex: CommandExecutor<R>,
    registry: Seq<CommandSpecView>,
    id: Seq<char>,
    args: Seq<Seq<char>>,
    r: Result<T, AppError>,
    parsed: spec_fn(Seq<char>, Result<T, AppError>) -> bool,
) -> bool {
    exists|o: Result<(Seq<char>, Seq<char>), AppError>|
        #[trigger] command_output(ex, registry, id, args, o) && match o {
            Ok(out) => parsed(out.0, r),
            Err(e) => r == Err::<T, AppError>(e),
        }
}

/// `[flag, key + value]` when the value is given: a field of an API call.
pub open spec fn optional_field(flag: Seq<char>, key: Seq<char>, value: Option<String>) -> Seq<
    Seq<char>,
> {
    match value {
        Some(v) => seq![flag, key + v@],
        None => Seq::empty(),
    }
}

/// Appends `flag` and `key + value` when the value is given.
pub fn push_optional_field(args: &mut Vec<String>, flag: &str, key: &str, value: &Option<String>)
    ensures
        texts(final(args)@) == texts(old(args)@) + optional_field(flag@, key@, *value),
{
    let ghost start = texts(args@);
    match value {
        Some(v) => {
            push_str_arg(args, flag);
            push_arg(args, concat(key, v.as_str()));
            assert(texts(args@) =~= start + seq![flag@, key@ + v@]);
        },
        None => {
            assert(texts(args@) =~= start + Seq::<Seq<char>>::empty());
        },
    }
}

} // verus!

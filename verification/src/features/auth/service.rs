//! The `gh` login status.
use vstd::prelude::*;
use crate::engine::command_registry::{CommandRegistry, CommandSpecView, build_outcome, texts};
use crate::engine::error::{AppError, ErrorCode};
use crate::engine::executor::{CommandExecutor, ExecutionOutput, Runner, output_texts};
use crate::engine::invocation::{command_output, no_args, payload_result, push_str_arg, run_command, run_payload};
use crate::engine::observability::TraceContext;
use crate::features::auth::dto::{GhAuthStatus, auth_status_result, logged_out_view, parse_gh_auth_status};
use crate::text::concat3;

verus! {

broadcast use vstd::string::group_string_axioms;

/// What the status is, given how running `gh auth status` ended: the reading
/// of its standard output and error, one after the other on separate lines;
/// signed out of github.com when the command reported that authentication is
/// required; the command's error otherwise.
pub open spec fn auth_status_outcome(
    outcome: Result<(Seq<char>, Seq<char>), AppError>,
    r: Result<GhAuthStatus, AppError>,
) -> bool {
    match outcome {
        Ok(o) => auth_status_result(o.0 + "\n"@ + o.1, r),
        Err(e) => if e.code == ErrorCode::AuthRequired {
            r matches Ok(s) && s@ == logged_out_view("github.com"@)
        } else {
            r == Err::<GhAuthStatus, AppError>(e)
        },
    }
}

/// The status, given how running `gh auth status` ended.
pub fn status_from_outcome(outcome: Result<ExecutionOutput, AppError>) -> (r: Result<
    GhAuthStatus,
    AppError,
>)
    ensures
        auth_status_outcome(output_texts(outcome), r),
{
    match outcome {
        Ok(output) => {
            let text = concat3(output.stdout.as_str(), "\n", output.stderr.as_str());
            parse_gh_auth_status(text.as_str())
        },
        Err(err) => {
            if err.code == ErrorCode::AuthRequired {
                Ok(GhAuthStatus::logged_out_default("github.com"))
            } else {
                Err(err)
            }
        },
    }
}

pub struct AuthService<R: Runner> {
    registry: CommandRegistry,
    executor: CommandExecutor<R>,
}

impl<R: Runner> AuthService<R> {
    /// The commands this service may run.
    pub closed spec fn commands(&self) -> Seq<CommandSpecView> {
        self.registry@
    }

    /// Whether destructive commands are skipped.
    pub closed spec fn safe_mode(&self) -> bool {
        self.executor.safe_mode()
    }

    /// The executor that runs the commands.
    pub closed spec fn execution(&self) -> CommandExecutor<R> {
        self.executor
    }

    pub fn new(registry: CommandRegistry, executor: CommandExecutor<R>) -> (s: Self)
        ensures
            s.commands() == registry@,
            s.safe_mode() == executor.safe_mode(),
            s.execution() == executor,
    {
        AuthService { registry, executor }
    }

    /// Reads the login status from `gh auth status`: the registered command runs
    /// with no further arguments, and its outcome is read as
    /// `auth_status_outcome` says.
    pub fn status(&self, trace: &TraceContext) -> (r: Result<GhAuthStatus, AppError>)
        ensures
            exists|o: Result<(Seq<char>, Seq<char>), AppError>|
                #[trigger] command_output(
                    self.execution(),
                    self.commands(),
                    "auth.status"@,
                    Seq::empty(),
                    o,
                ) && auth_status_outcome(o, r),
    {
        let args = no_args();
        let outcome = run_command(&self.registry, &self.executor, "auth.status", &args, trace);
        let r = status_from_outcome(outcome);
        assert(command_output(
            self.execution(),
            self.commands(),
            "auth.status"@,
            Seq::empty(),
            output_texts(outcome),
        ));
        r
    }

    /// Lists the organizations of the signed-in account (up to a hundred, in
    /// one page of the API); the result is the command's JSON output, which
    /// `normalize_organizations` brings into the listed form.
    pub fn list_organizations(&self, trace: &TraceContext) -> (r: Result<String, AppError>)
        ensures
            payload_result(
                self.execution(),
                self.commands(),
                "auth.organizations.list"@,
                seq!["user/orgs?per_page=100"@],
                r,
            ),
    {
        let mut args = no_args();
        push_str_arg(&mut args, "user/orgs?per_page=100");
        assert(texts(args@) =~= seq!["user/orgs?per_page=100"@]);
        run_payload(&self.registry, &self.executor, "auth.organizations.list", &args, trace)
    }
}

} // verus!

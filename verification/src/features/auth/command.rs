//! The login status as the front end asks for it.
use vstd::prelude::*;
use crate::engine::command_registry::{CommandSpecView, build_outcome};
use crate::engine::error::AppError;
use crate::engine::executor::{CommandExecutor, Runner};
use crate::engine::observability::TraceContext;
use crate::features::auth::dto::GhAuthStatus;
use crate::features::auth::service::{AuthService, auth_status_outcome};
use crate::engine::invocation::command_output;

verus! {

pub struct AuthCommandHandler<R: Runner> {
    service: AuthService<R>,
}

impl<R: Runner> AuthCommandHandler<R> {
    /// The commands the service may run.
    pub closed spec fn commands(&self) -> Seq<CommandSpecView> {
        self.service.commands()
    }

    /// Whether destructive commands are skipped.
    pub closed spec fn safe_mode(&self) -> bool {
        self.service.safe_mode()
    }

    /// The executor that runs the commands.
    pub closed spec fn execution(&self) -> CommandExecutor<R> {
        self.service.execution()
    }

    pub fn new(service: AuthService<R>) -> (h: Self)
        ensures
            h.commands() == service.commands(),
            h.safe_mode() == service.safe_mode(),
            h.execution() == service.execution(),
    {
        AuthCommandHandler { service }
    }

    pub fn status(&self, request_id: &str) -> (r: Result<GhAuthStatus, AppError>)
        ensures
            exists|o: Result<(Seq<char>, Seq<char>), AppError>|
                #[trigger] command_output(
                    self.execution(),
                    self.commands(),
                    "auth.status"@,
                    Seq::empty(),
                    o,
                ) && auth_status_outcome(o, r),
    {
        let trace = TraceContext::new(request_id);
        let r = self.service.status(&trace);
        proof {
            let o = choose|o: Result<(Seq<char>, Seq<char>), AppError>|
                #[trigger] command_output(
                    self.service.execution(),
                    self.service.commands(),
                    "auth.status"@,
                    Seq::empty(),
                    o,
                ) && auth_status_outcome(o, r);
            assert(command_output(self.execution(), self.commands(), "auth.status"@, Seq::empty(), o));
        }
        r
    }
}

} // verus!

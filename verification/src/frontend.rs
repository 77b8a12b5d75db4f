//! The dispatcher that the front end's commands go through: it holds the
//! default registry, checked against the stable contract when it is made, and
//! hands out the services, each with the same commands and the same executor
//! settings.
use vstd::prelude::*;
use crate::contract::{
    lemma_default_registry_meets_contract, registry_contract_check, stable_command_ids, stable_ids,
    strs, validate_registry_contract,
};
use crate::engine::command_registry::{
    CommandRegistry, CommandSpecView, build_outcome, default_entries, registered_all, texts,
};
use crate::engine::error::AppError;
use crate::engine::executor::{CommandExecutor, ExecutionOutput, Runner, execution_texts, output_texts, run_outcome};
use crate::engine::observability::TraceContext;
use crate::features::auth::service::AuthService;
use crate::features::repositories::service::RepositoriesService;
use crate::features::pull_requests::service::PullRequestsService;
use crate::features::issues::service::IssuesService;
use crate::features::actions::service::ActionsService;
use crate::features::releases::service::ReleasesService;
use crate::features::settings::service::SettingsService;
use crate::features::insights::service::InsightsService;
use crate::features::projects::service::ProjectsService;
use crate::features::discussions::service::DiscussionsService;
use crate::features::wiki::service::WikiService;
use crate::features::pages::service::PagesService;
use crate::features::rulesets::service::RulesetsService;

verus! {

pub struct FrontendDispatcher<R: Runner + Clone> {
    registry: CommandRegistry,
    runner: R,
    safe_test_mode: bool,
}

impl<R: Runner + Clone> FrontendDispatcher<R> {
    /// The commands the dispatcher may run.
    pub closed spec fn commands(&self) -> Seq<CommandSpecView> {
        self.registry@
    }

    /// Whether destructive commands are skipped.
    pub closed spec fn safe_mode(&self) -> bool {
        self.safe_test_mode
    }

    /// A dispatcher over the default registry. The default registry meets the
    /// stable contract, so this never fails.
    pub fn new(runner: R, safe_test_mode: bool) -> (r: Result<Self, AppError>)
        ensures
            r matches Ok(d) && d.commands() == registered_all(Seq::empty(), default_entries())
                && d.safe_mode() == safe_test_mode,
    {
        let registry = CommandRegistry::with_defaults();
        proof {
            lemma_default_registry_meets_contract();
        }
        validate_registry_contract(&registry)?;
        Ok(FrontendDispatcher { registry, runner, safe_test_mode })
    }

    /// The commands the dispatcher accepts: the stable ones.
    pub fn supported_command_ids() -> (v: Vec<&'static str>)
        ensures
            strs(v@) == stable_ids(),
    {
        stable_command_ids()
    }

    /// The registry that envelopes are checked against.
    pub fn registry(&self) -> (r: &CommandRegistry)
        ensures
            r@ == self.commands(),
    {
        &self.registry
    }

    /// Whether `ex` runs its commands with a copy of the dispatcher's runner.
    pub closed spec fn copies_runner(&self, ex: CommandExecutor<R>) -> bool {
        vstd::pervasive::cloned(self.runner, ex.runner_spec())
    }

    /// An executor as the dispatcher makes them: over a copy of its runner,
    /// with its safe mode and the default retry options (two retries, an
    /// initial backoff of 150 ms).
    pub open spec fn made_executor(&self, ex: CommandExecutor<R>) -> bool {
        &&& ex.safe_mode() == self.safe_mode()
        &&& ex.retry_options().max_retries == 2
        &&& ex.retry_options().initial_backoff_ms == 150
        &&& self.copies_runner(ex)
    }

    /// An executor over a copy of the runner.
    pub fn executor(&self) -> (e: CommandExecutor<R>)
        ensures
            self.made_executor(e),
    {
        CommandExecutor::new(self.runner.clone(), self.safe_test_mode)
    }

    /// Runs a registered command with the given arguments and reports its
    /// output as it is.
    pub fn execute_raw_command(&self, command_id: &str, request_id: &str, args: Vec<String>) -> (r:
        Result<ExecutionOutput, AppError>)
        ensures
            match build_outcome(self.commands(), command_id@, texts(args@)) {
                Err(v) => r matches Err(e) && e.is(v),
                Ok(req) => {
                    &&& exists|ex: CommandExecutor<R>|
                        self.made_executor(ex) && #[trigger] run_outcome(
                            ex,
                            req,
                            output_texts(r),
                        )
                    &&& r matches Ok(o) ==> o.command_id@ == command_id@ && o.exit_code == 0
                },
            },
    {
        let req = self.registry.build_request(command_id, args.as_slice())?;
        let trace = TraceContext::new(request_id);
        let ex = self.executor();
        let result = ex.execute(&req, &trace);
        assert(run_outcome(ex, req@, execution_texts(result)));
        match result {
            Ok((output, _audit)) => Ok(output),
            Err(e) => Err(e),
        }
    }

    pub fn auth_service(&self) -> (s: AuthService<R>)
        ensures
            s.commands() == self.commands(),
            s.safe_mode() == self.safe_mode(),
            self.made_executor(s.execution()),
    {
        AuthService::new(self.registry.duplicate(), self.executor())
    }

    pub fn repositories_service(&self) -> (s: RepositoriesService<R>)
        ensures
            s.commands() == self.commands(),
            s.safe_mode() == self.safe_mode(),
            self.made_executor(s.execution()),
    {
        RepositoriesService::new(self.registry.duplicate(), self.executor())
    }

    pub fn pull_requests_service(&self) -> (s: PullRequestsService<R>)
        ensures
            s.commands() == self.commands(),
            s.safe_mode() == self.safe_mode(),
            self.made_executor(s.execution()),
    {
        PullRequestsService::new(self.registry.duplicate(), self.executor())
    }

    pub fn issues_service(&self) -> (s: IssuesService<R>)
        ensures
            s.commands() == self.commands(),
            s.safe_mode() == self.safe_mode(),
            self.made_executor(s.execution()),
    {
        IssuesService::new(self.registry.duplicate(), self.executor())
    }

    pub fn actions_service(&self) -> (s: ActionsService<R>)
        ensures
            s.commands() == self.commands(),
            s.safe_mode() == self.safe_mode(),
            self.made_executor(s.execution()),
    {
        ActionsService::new(self.registry.duplicate(), self.executor())
    }

    pub fn releases_service(&self) -> (s: ReleasesService<R>)
        ensures
            s.commands() == self.commands(),
            s.safe_mode() == self.safe_mode(),
            self.made_executor(s.execution()),
    {
        ReleasesService::new(self.registry.duplicate(), self.executor())
    }

    pub fn settings_service(&self) -> (s: SettingsService<R>)
        ensures
            s.commands() == self.commands(),
            s.safe_mode() == self.safe_mode(),
            self.made_executor(s.execution()),
    {
        SettingsService::new(self.registry.duplicate(), self.executor())
    }

    pub fn insights_service(&self) -> (s: InsightsService<R>)
        ensures
            s.commands() == self.commands(),
            s.safe_mode() == self.safe_mode(),
            self.made_executor(s.execution()),
    {
        InsightsService::new(self.registry.duplicate(), self.executor())
    }

    pub fn projects_service(&self) -> (s: ProjectsService<R>)
        ensures
            s.commands() == self.commands(),
            s.safe_mode() == self.safe_mode(),
            self.made_executor(s.execution()),
    {
        ProjectsService::new(self.registry.duplicate(), self.executor())
    }

    pub fn discussions_service(&self) -> (s: DiscussionsService<R>)
        ensures
            s.commands() == self.commands(),
            s.safe_mode() == self.safe_mode(),
            self.made_executor(s.execution()),
    {
        DiscussionsService::new(self.registry.duplicate(), self.executor())
    }

    pub fn wiki_service(&self) -> (s: WikiService<R>)
        ensures
            s.commands() == self.commands(),
            s.safe_mode() == self.safe_mode(),
            self.made_executor(s.execution()),
    {
        WikiService::new(self.registry.duplicate(), self.executor())
    }

    pub fn pages_service(&self) -> (s: PagesService<R>)
        ensures
            s.commands() == self.commands(),
            s.safe_mode() == self.safe_mode(),
            self.made_executor(s.execution()),
    {
        PagesService::new(self.registry.duplicate(), self.executor())
    }

    pub fn rulesets_service(&self) -> (s: RulesetsService<R>)
        ensures
            s.commands() == self.commands(),
            s.safe_mode() == self.safe_mode(),
            self.made_executor(s.execution()),
    {
        RulesetsService::new(self.registry.duplicate(), self.executor())
    }
}

} // verus!

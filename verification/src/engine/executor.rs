//! Execution of command requests through a `Runner`: destructive commands are
//! skipped in safe test mode, failures are classified from the command's
//! output, and retryable failures are retried with exponential backoff.
use std::time::{Duration, Instant};
use vstd::prelude::*;
use crate::engine::command_registry::{CommandRequest, CommandSafety, RequestView, texts};
use crate::engine::error::{AppError, ErrorCode, ErrorView, error_view};
use crate::engine::observability::{AuditEvent, TraceContext};
use crate::text::{
    chars_of, concat, concat3, contains_chars, contains_seq, decimal, lower, lower_chars, owned,
    push_decimal, trim, trimmed,
};

verus! {

broadcast use vstd::string::group_string_axioms;

#[verifier::external_type_specification]
#[verifier::external_body]
pub struct ExIoError(std::io::Error);

#[verifier::external_type_specification]
#[verifier::external_body]
pub struct ExInstant(Instant);

#[derive(Debug, Clone, PartialEq, Eq)]
pub struct RawExecutionOutput {
    pub exit_code: i32,
    pub stdout: String,
    pub stderr: String,
}

/// Runs a program with arguments. Implemented by callers: by a process runner
/// in the application, by recording runners in tests.
pub trait Runner: Send + Sync {
    /// Whether the runner may answer `r` when asked to run `program` with
    /// `args`. An implementation that says nothing more allows any answer.
    open spec fn may_answer(
        &self,
        program: Seq<char>,
        args: Seq<Seq<char>>,
        r: std::io::Result<RawExecutionOutput>,
    ) -> bool {
        true
    }

    /// Runs `program` with `args` and reports how it ended.
    fn run(&self, program: &str, args: &[String]) -> (r: std::io::Result<RawExecutionOutput>)
        ensures
            self.may_answer(program@, texts(args@), r),
    ;

    /// Waits `delay_ms` milliseconds before a retry. The provided version does
    /// not wait; a runner that talks to a real process overrides it.
    fn pause(&self, delay_ms: u64) {
    }
}

#[derive(Debug, Clone, PartialEq, Eq)]
pub struct ExecutionOutput {
    pub command_id: String,
    pub exit_code: i32,
    pub stdout: String,
    pub stderr: String,
    pub duration_ms: u128,
    pub noop: bool,
}

#[derive(Debug, Clone, Copy, PartialEq, Eq)]
pub struct ExecutorOptions {
    pub max_retries: u8,
    pub initial_backoff_ms: u64,
}

impl Default for ExecutorOptions {
    fn default() -> (o: Self)
        ensures
            o.max_retries == 2,
            o.initial_backoff_ms == 150,
    {
        ExecutorOptions { max_retries: 2, initial_backoff_ms: 150 }
    }
}

/// `Instant::now`. The reading depends on the clock; nothing is stated of it.
#[verifier::external_body]
fn clock_now() -> Instant {
    Instant::now()
}

/// `Instant::elapsed`. The reading depends on the clock; nothing is stated of it.
#[verifier::external_body]
fn clock_elapsed(started: &Instant) -> Duration {
    started.elapsed()
}

/// `Duration::as_millis`. Nothing is stated of the result, as nothing is
/// known of the durations it is applied to here.
#[verifier::external_body]
fn duration_millis(d: &Duration) -> u128 {
    d.as_millis()
}

/// The message written to stderr when safe test mode skips a command.
pub open spec fn safe_mode_message() -> Seq<char> {
    "SAFE_TEST_MODE prevented destructive execution"@
}

/// A request that safe test mode skips.
pub open spec fn is_skipped(safe_test_mode: bool, request: RequestView) -> bool {
    safe_test_mode && request.safety == CommandSafety::Destructive
}

/// Signed decimal rendering.
pub open spec fn int_text(i: int) -> Seq<char> {
    if i < 0 {
        seq!['-'] + decimal((-i) as nat)
    } else {
        decimal(i as nat)
    }
}

/// The text searched for known failure phrases: stderr, a newline and stdout,
/// lower-cased.
pub open spec fn normalized(stderr: Seq<char>, stdout: Seq<char>) -> Seq<char> {
    lower(stderr + seq!['\n'] + stdout)
}

/// Some phrase of `needles` occurs in `text`.
pub open spec fn any_of(text: Seq<char>, needles: &[&str]) -> bool {
    exists|i: int| 0 <= i < needles@.len() && contains_seq(text, (#[trigger] needles@[i])@)
}

pub open spec fn auth_text(t: Seq<char>) -> bool {
    any_of(
        t,
        &[
            "authentication required",
            "requires authentication",
            "gh auth login",
            "bad credentials",
            "http 401",
            "must authenticate",
            "not logged into",
        ],
    )
}

pub open spec fn permission_text(t: Seq<char>) -> bool {
    any_of(
        t,
        &[
            "permission denied",
            "resource not accessible",
            "forbidden",
            "http 403",
            "must have admin rights",
            "required scopes",
        ],
    )
}

pub open spec fn not_found_text(t: Seq<char>) -> bool {
    any_of(t, &["not found", "http 404", "unknown repository"])
}

pub open spec fn rate_limited_text(t: Seq<char>) -> bool {
    any_of(
        t,
        &["rate limit exceeded", "secondary rate limit", "api rate limit exceeded", "http 429"],
    )
}

pub open spec fn network_text(t: Seq<char>) -> bool {
    any_of(
        t,
        &[
            "connection reset",
            "connection refused",
            "connection timed out",
            "tls handshake timeout",
            "i/o timeout",
            "temporary failure",
            "no such host",
            "dial tcp",
            "network is unreachable",
        ],
    )
}

pub open spec fn upstream_text(t: Seq<char>) -> bool {
    any_of(
        t,
        &[
            "http 500",
            "http 502",
            "http 503",
            "http 504",
            "service unavailable",
            "bad gateway",
            "gateway timeout",
        ],
    )
}

/// The message of a failed process.
pub open spec fn process_message(command_id: Seq<char>, exit_code: int, stderr: Seq<char>) -> Seq<
    char,
> {
    "command `"@ + command_id + "` failed with exit code "@ + int_text(exit_code) + " (stderr: "@
        + trim(stderr) + ")"@
}

/// The error of a process that exited with a non-zero code, classified by the
/// phrases in its output; the first class that matches wins.
pub open spec fn classify_process(
    command_id: Seq<char>,
    exit_code: int,
    stderr: Seq<char>,
    stdout: Seq<char>,
) -> ErrorView {
    let t = normalized(stderr, stdout);
    let m = process_message(command_id, exit_code, stderr);
    if rate_limited_text(t) {
        error_view(ErrorCode::RateLimited, m, true)
    } else if auth_text(t) {
        error_view(ErrorCode::AuthRequired, m, false)
    } else if permission_text(t) {
        error_view(ErrorCode::PermissionDenied, m, false)
    } else if not_found_text(t) {
        error_view(ErrorCode::NotFound, m, false)
    } else if network_text(t) {
        error_view(ErrorCode::NetworkError, m, true)
    } else if upstream_text(t) {
        error_view(ErrorCode::UpstreamError, m, true)
    } else {
        error_view(ErrorCode::ExecutionError, m, false)
    }
}

/// A failure whose output names a rate limit (`rate limit exceeded`,
/// `secondary rate limit` or `http 429`, in any letter case, in stderr or
/// stdout) is classified as rate limited and is retried, whatever other
/// failure the output also names: a rate limit answered with `HTTP 403` is a
/// rate limit, not a missing permission.
pub proof fn lemma_rate_limit_is_retried(
    command_id: Seq<char>,
    exit_code: int,
    stderr: Seq<char>,
    stdout: Seq<char>,
)
    requires
        contains_seq(lower(stderr + seq!['\n'] + stdout), "rate limit exceeded"@)
            || contains_seq(lower(stderr + seq!['\n'] + stdout), "secondary rate limit"@)
            || contains_seq(lower(stderr + seq!['\n'] + stdout), "http 429"@),
    ensures
        classify_process(command_id, exit_code, stderr, stdout).code == ErrorCode::RateLimited,
        classify_process(command_id, exit_code, stderr, stdout).retryable,
{
    let t = normalized(stderr, stdout);
    let needles: &[&str] = &["rate limit exceeded", "secondary rate limit", "api rate limit exceeded", "http 429"];
    assert(needles@[0]@ == "rate limit exceeded"@);
    assert(needles@[1]@ == "secondary rate limit"@);
    assert(needles@[3]@ == "http 429"@);
    assert(rate_limited_text(t));
}

/// The classes of a failure are tried in a fixed order, and the first one
/// whose phrases the output names decides the code; rate limits, network
/// failures and upstream failures are retried, the others are not; an output
/// that names none of them is an execution error, not retried. Every class
/// keeps the failure's message.
pub proof fn lemma_failure_classes_in_order(
    command_id: Seq<char>,
    exit_code: int,
    stderr: Seq<char>,
    stdout: Seq<char>,
)
    ensures
        ({
            let t = lower(stderr + seq!['\n'] + stdout);
            let e = classify_process(command_id, exit_code, stderr, stdout);
            &&& e.message == process_message(command_id, exit_code, stderr)
            &&& rate_limited_text(t) ==> e.code == ErrorCode::RateLimited && e.retryable
            &&& !rate_limited_text(t) && auth_text(t) ==> e.code == ErrorCode::AuthRequired
                && !e.retryable
            &&& !rate_limited_text(t) && !auth_text(t) && permission_text(t) ==> e.code
                == ErrorCode::PermissionDenied && !e.retryable
            &&& !rate_limited_text(t) && !auth_text(t) && !permission_text(t) && not_found_text(t)
                ==> e.code == ErrorCode::NotFound && !e.retryable
            &&& !rate_limited_text(t) && !auth_text(t) && !permission_text(t) && !not_found_text(t)
                && network_text(t) ==> e.code == ErrorCode::NetworkError && e.retryable
            &&& !rate_limited_text(t) && !auth_text(t) && !permission_text(t) && !not_found_text(t)
                && !network_text(t) && upstream_text(t) ==> e.code == ErrorCode::UpstreamError
                && e.retryable
            &&& !rate_limited_text(t) && !auth_text(t) && !permission_text(t) && !not_found_text(t)
                && !network_text(t) && !upstream_text(t) ==> e.code == ErrorCode::ExecutionError
                && !e.retryable
        }),
{
}

/// The phrases of each failure class, one by one: a text is of a class
/// exactly when it contains one of the class's phrases.
pub proof fn lemma_failure_phrases(t: Seq<char>)
    ensures
        auth_text(t) <==> (contains_seq(t, "authentication required"@)
            || contains_seq(t, "requires authentication"@)
            || contains_seq(t, "gh auth login"@)
            || contains_seq(t, "bad credentials"@)
            || contains_seq(t, "http 401"@)
            || contains_seq(t, "must authenticate"@)
            || contains_seq(t, "not logged into"@)),
        permission_text(t) <==> (contains_seq(t, "permission denied"@)
            || contains_seq(t, "resource not accessible"@)
            || contains_seq(t, "forbidden"@)
            || contains_seq(t, "http 403"@)
            || contains_seq(t, "must have admin rights"@)
            || contains_seq(t, "required scopes"@)),
        not_found_text(t) <==> (contains_seq(t, "not found"@)
            || contains_seq(t, "http 404"@)
            || contains_seq(t, "unknown repository"@)),
        rate_limited_text(t) <==> (contains_seq(t, "rate limit exceeded"@)
            || contains_seq(t, "secondary rate limit"@)
            || contains_seq(t, "api rate limit exceeded"@)
            || contains_seq(t, "http 429"@)),
        network_text(t) <==> (contains_seq(t, "connection reset"@)
            || contains_seq(t, "connection refused"@)
            || contains_seq(t, "connection timed out"@)
            || contains_seq(t, "tls handshake timeout"@)
            || contains_seq(t, "i/o timeout"@)
            || contains_seq(t, "temporary failure"@)
            || contains_seq(t, "no such host"@)
            || contains_seq(t, "dial tcp"@)
            || contains_seq(t, "network is unreachable"@)),
        upstream_text(t) <==> (contains_seq(t, "http 500"@)
            || contains_seq(t, "http 502"@)
            || contains_seq(t, "http 503"@)
            || contains_seq(t, "http 504"@)
            || contains_seq(t, "service unavailable"@)
            || contains_seq(t, "bad gateway"@)
            || contains_seq(t, "gateway timeout"@)),
{
    let auth_phrases: &[&str] = &["authentication required", "requires authentication", "gh auth login", "bad credentials", "http 401", "must authenticate", "not logged into"];
    assert(auth_phrases@[0]@ == "authentication required"@);
    assert(auth_phrases@[1]@ == "requires authentication"@);
    assert(auth_phrases@[2]@ == "gh auth login"@);
    assert(auth_phrases@[3]@ == "bad credentials"@);
    assert(auth_phrases@[4]@ == "http 401"@);
    assert(auth_phrases@[5]@ == "must authenticate"@);
    assert(auth_phrases@[6]@ == "not logged into"@);
    let permission_phrases: &[&str] = &["permission denied", "resource not accessible", "forbidden", "http 403", "must have admin rights", "required scopes"];
    assert(permission_phrases@[0]@ == "permission denied"@);
    assert(permission_phrases@[1]@ == "resource not accessible"@);
    assert(permission_phrases@[2]@ == "forbidden"@);
    assert(permission_phrases@[3]@ == "http 403"@);
    assert(permission_phrases@[4]@ == "must have admin rights"@);
    assert(permission_phrases@[5]@ == "required scopes"@);
    let not_found_phrases: &[&str] = &["not found", "http 404", "unknown repository"];
    assert(not_found_phrases@[0]@ == "not found"@);
    assert(not_found_phrases@[1]@ == "http 404"@);
    assert(not_found_phrases@[2]@ == "unknown repository"@);
    let rate_limited_phrases: &[&str] = &["rate limit exceeded", "secondary rate limit", "api rate limit exceeded", "http 429"];
    assert(rate_limited_phrases@[0]@ == "rate limit exceeded"@);
    assert(rate_limited_phrases@[1]@ == "secondary rate limit"@);
    assert(rate_limited_phrases@[2]@ == "api rate limit exceeded"@);
    assert(rate_limited_phrases@[3]@ == "http 429"@);
    let network_phrases: &[&str] = &["connection reset", "connection refused", "connection timed out", "tls handshake timeout", "i/o timeout", "temporary failure", "no such host", "dial tcp", "network is unreachable"];
    assert(network_phrases@[0]@ == "connection reset"@);
    assert(network_phrases@[1]@ == "connection refused"@);
    assert(network_phrases@[2]@ == "connection timed out"@);
    assert(network_phrases@[3]@ == "tls handshake timeout"@);
    assert(network_phrases@[4]@ == "i/o timeout"@);
    assert(network_phrases@[5]@ == "temporary failure"@);
    assert(network_phrases@[6]@ == "no such host"@);
    assert(network_phrases@[7]@ == "dial tcp"@);
    assert(network_phrases@[8]@ == "network is unreachable"@);
    let upstream_phrases: &[&str] = &["http 500", "http 502", "http 503", "http 504", "service unavailable", "bad gateway", "gateway timeout"];
    assert(upstream_phrases@[0]@ == "http 500"@);
    assert(upstream_phrases@[1]@ == "http 502"@);
    assert(upstream_phrases@[2]@ == "http 503"@);
    assert(upstream_phrases@[3]@ == "http 504"@);
    assert(upstream_phrases@[4]@ == "service unavailable"@);
    assert(upstream_phrases@[5]@ == "bad gateway"@);
    assert(upstream_phrases@[6]@ == "gateway timeout"@);
}

/// The error of a program that could not be started, given the text of the
/// I/O error.
pub open spec fn spawn_failure(command_id: Seq<char>, io_text: Seq<char>) -> ErrorView {
    error_view(
        ErrorCode::ExecutionError,
        "failed to execute `"@ + command_id + "`: "@ + io_text,
        true,
    )
}

/// What the runner answered to one run of a command.
pub type RunAnswer = std::io::Result<RawExecutionOutput>;

/// Whether an answer is a failure that is tried again while attempts remain:
/// a program that could not be started, or a process failure classified as
/// retryable.
pub open spec fn retryable_answer(command_id: Seq<char>, a: RunAnswer) -> bool {
    match a {
        Ok(raw) => raw.exit_code != 0 && classify_process(
            command_id,
            raw.exit_code as int,
            raw.stderr@,
            raw.stdout@,
        ).retryable,
        Err(_) => true,
    }
}

/// `e` is the error an answer ends in: the classified failure of a process
/// that exited with a non-zero code, or the failure to start the program.
pub open spec fn answer_failure(command_id: Seq<char>, a: RunAnswer, e: AppError) -> bool {
    match a {
        Ok(raw) => raw.exit_code != 0 && e.is(
            classify_process(command_id, raw.exit_code as int, raw.stderr@, raw.stdout@),
        ),
        Err(_) => exists|io_text: Seq<char>| e.is(#[trigger] spawn_failure(command_id, io_text)),
    }
}

/// The runs that executing `req` made: at least one and at most
/// `max_retries + 1`, each an answer of `runner` to the request's program and
/// arguments; every run but the last ended in a failure that is tried again,
/// and the last ended otherwise unless no attempt remained.
pub open spec fn run_history<R: Runner>(
    runner: R,
    req: RequestView,
    max_retries: u8,
    answers: Seq<RunAnswer>,
) -> bool {
    &&& 1 <= answers.len() <= max_retries + 1
    &&& forall|i: int|
        0 <= i < answers.len() ==> runner.may_answer(req.program, req.args, #[trigger] answers[i])
    &&& forall|i: int|
        0 <= i < answers.len() - 1 ==> retryable_answer(req.command_id, #[trigger] answers[i])
    &&& answers.len() < max_retries + 1 ==> !retryable_answer(req.command_id, answers.last())
}

/// The retry rule over the runs of one execution: a run whose answer is not a
/// failure tried again is the last one, and there are at most
/// `max_retries + 1` runs.
pub proof fn lemma_runs_stop_at_final_answer<R: Runner>(
    runner: R,
    req: RequestView,
    max_retries: u8,
    answers: Seq<RunAnswer>,
    i: int,
)
    requires
        run_history(runner, req, max_retries, answers),
        0 <= i < answers.len(),
        !retryable_answer(req.command_id, answers[i]),
    ensures
        i == answers.len() - 1,
        answers.len() <= max_retries + 1,
{
}

/// A failure that is always tried again uses every attempt: when every run of
/// a command ends in a retryable failure, the command runs `max_retries + 1`
/// times.
pub proof fn lemma_retryable_answers_use_every_attempt<R: Runner>(
    runner: R,
    req: RequestView,
    max_retries: u8,
    answers: Seq<RunAnswer>,
)
    requires
        run_history(runner, req, max_retries, answers),
        forall|i: int|
            0 <= i < answers.len() ==> retryable_answer(req.command_id, #[trigger] answers[i]),
    ensures
        answers.len() == max_retries + 1,
{
    assert(retryable_answer(req.command_id, answers[answers.len() - 1]));
}

/// How executing `req` with `ex` ends, as the standard output and error of the
/// run that succeeded: an empty output and the safe-mode message when safe test
/// mode skips the command; otherwise the output of the last of the runs, which
/// exited with code zero, or the failure that last run ended in.
pub open spec fn run_outcome<R: Runner>(
    ex: CommandExecutor<R>,
    req: RequestView,
    r: Result<(Seq<char>, Seq<char>), AppError>,
) -> bool {
    if is_skipped(ex.safe_mode(), req) {
        r == Ok::<(Seq<char>, Seq<char>), AppError>((Seq::<char>::empty(), safe_mode_message()))
    } else {
        exists|answers: Seq<RunAnswer>|
            #[trigger] run_history(ex.runner_spec(), req, ex.retry_options().max_retries, answers)
                && match r {
                Ok(o) => answers.last() matches Ok(raw) && raw.exit_code == 0 && o == (
                    raw.stdout@,
                    raw.stderr@,
                ),
                Err(e) => answer_failure(req.command_id, answers.last(), e),
            }
    }
}

/// The standard output and error of a run, or its error.
pub open spec fn output_texts(outcome: Result<ExecutionOutput, AppError>) -> Result<
    (Seq<char>, Seq<char>),
    AppError,
> {
    match outcome {
        Ok(o) => Ok((o.stdout@, o.stderr@)),
        Err(e) => Err(e),
    }
}

/// The standard output and error of an execution, or its error.
pub open spec fn execution_texts(r: Result<(ExecutionOutput, AuditEvent), AppError>) -> Result<
    (Seq<char>, Seq<char>),
    AppError,
> {
    match r {
        Ok((out, _)) => Ok((out.stdout@, out.stderr@)),
        Err(e) => Err(e),
    }
}

/// A command whose every run can only end in a retryable failure ends in an
/// error, after `max_retries + 1` runs (three with the options of
/// `CommandExecutor::new`), unless safe test mode skips it.
pub proof fn lemma_failing_runner_exhausts_retries<R: Runner>(
    ex: CommandExecutor<R>,
    req: RequestView,
    r: Result<(Seq<char>, Seq<char>), AppError>,
)
    requires
        run_outcome(ex, req, r),
        !is_skipped(ex.safe_mode(), req),
        forall|a: RunAnswer|
            #[trigger] ex.runner_spec().may_answer(req.program, req.args, a) ==> retryable_answer(
                req.command_id,
                a,
            ),
    ensures
        r is Err,
        exists|answers: Seq<RunAnswer>|
            #[trigger] run_history(ex.runner_spec(), req, ex.retry_options().max_retries, answers)
                && answers.len() == ex.retry_options().max_retries + 1 && answer_failure(
                req.command_id,
                answers.last(),
                r->Err_0,
            ),
{
    let max = ex.retry_options().max_retries;
    let answers = choose|answers: Seq<RunAnswer>|
        #[trigger] run_history(ex.runner_spec(), req, max, answers) && match r {
            Ok(o) => answers.last() matches Ok(raw) && raw.exit_code == 0 && o == (
                raw.stdout@,
                raw.stderr@,
            ),
            Err(e) => answer_failure(req.command_id, answers.last(), e),
        };
    assert(ex.runner_spec().may_answer(req.program, req.args, answers[answers.len() - 1]));
    assert forall|i: int| 0 <= i < answers.len() implies retryable_answer(
        req.command_id,
        #[trigger] answers[i],
    ) by {
        assert(ex.runner_spec().may_answer(req.program, req.args, answers[i]));
    }
    lemma_retryable_answers_use_every_attempt(ex.runner_spec(), req, max, answers);
}

/// Whether a failure is tried again: it is retryable and attempts remain.
pub open spec fn retry_allowed(e: ErrorView, attempt: u8, max_retries: u8) -> bool {
    e.retryable && attempt < max_retries
}

/// The wait before the retry that follows attempt `attempt`: the initial
/// backoff doubled once per earlier attempt, saturating at `u64::MAX`.
pub open spec fn backoff_ms(initial_backoff_ms: u64, attempt: u8) -> u64 {
    let factor = vstd::arithmetic::power::pow(2, attempt as nat);
    let factor_sat: int = if factor > u64::MAX { u64::MAX as int } else { factor };
    let product = initial_backoff_ms * factor_sat;
    if product > u64::MAX {
        u64::MAX
    } else {
        product as u64
    }
}

/// Each retry waits twice as long as the one before it, until the wait
/// saturates at `u64::MAX`.
pub proof fn lemma_backoff_doubles(initial_backoff_ms: u64, attempt: u8)
    requires
        attempt < u8::MAX,
    ensures
        backoff_ms(initial_backoff_ms, (attempt + 1) as u8) == if 2 * backoff_ms(
            initial_backoff_ms,
            attempt,
        ) > u64::MAX {
            u64::MAX as int
        } else {
            2 * backoff_ms(initial_backoff_ms, attempt)
        },
        backoff_ms(initial_backoff_ms, 0) == initial_backoff_ms,
{
    let b = initial_backoff_ms as int;
    let f = vstd::arithmetic::power::pow(2, attempt as nat);
    let g = vstd::arithmetic::power::pow(2, (attempt + 1) as nat);
    let m = u64::MAX as int;
    vstd::arithmetic::power::lemma_pow0(2);
    vstd::arithmetic::power::lemma_pow_adds(2, attempt as nat, 1);
    vstd::arithmetic::power::lemma_pow1(2);
    vstd::arithmetic::power::lemma_pow_positive(2, attempt as nat);
    assert(g == 2 * f);
    assert(b * (2 * f) == 2 * (b * f)) by (nonlinear_arith);
    assert(b >= 1 ==> b * m >= m) by (nonlinear_arith)
        requires
            m > 0,
    ;
    assert(b >= 1 && f >= 1 ==> b * f >= f) by (nonlinear_arith);
    assert(b >= 2 ==> b * f >= 2 * f) by (nonlinear_arith)
        requires
            f >= 1,
    ;
    assert(b * 1 == b);
    assert(b == 0 ==> b * f == 0 && b * m == 0) by (nonlinear_arith);
    assert(b == 1 ==> b * f == f && b * m == m) by (nonlinear_arith);
}

pub struct CommandExecutor<R: Runner> {
    runner: R,
    safe_test_mode: bool,
    options: ExecutorOptions,
}

impl<R: Runner> CommandExecutor<R> {
    /// Whether destructive commands are skipped.
    pub closed spec fn safe_mode(&self) -> bool {
        self.safe_test_mode
    }

    /// The retry options.
    pub closed spec fn retry_options(&self) -> ExecutorOptions {
        self.options
    }

    /// The runner that executes the commands.
    pub closed spec fn runner_spec(&self) -> R {
        self.runner
    }

    pub fn new(runner: R, safe_test_mode: bool) -> (e: Self)
        ensures
            e.runner_spec() == runner,
            e.safe_mode() == safe_test_mode,
            e.retry_options().max_retries == 2,
            e.retry_options().initial_backoff_ms == 150,
    {
        CommandExecutor { runner, safe_test_mode, options: ExecutorOptions::default() }
    }

    pub fn with_options(runner: R, safe_test_mode: bool, options: ExecutorOptions) -> (e: Self)
        ensures
            e.runner_spec() == runner,
            e.safe_mode() == safe_test_mode,
            e.retry_options() == options,
    {
        CommandExecutor { runner, safe_test_mode, options }
    }

    /// The runner that executes the commands: the one the executor was made with.
    pub fn runner(&self) -> (r: &R)
        ensures
            *r == self.runner_spec(),
    {
        &self.runner
    }

    pub fn execute(&self, request: &CommandRequest, trace: &TraceContext) -> (r: Result<
        (ExecutionOutput, AuditEvent),
        AppError,
    >)
        ensures
            is_skipped(self.safe_mode(), request@) ==> (r matches Ok((out, ev)) && {
                &&& out.command_id@ == request.command_id@
                &&& out.exit_code == 0
                &&& out.stdout@ == Seq::<char>::empty()
                &&& out.stderr@ == safe_mode_message()
                &&& out.noop
                &&& ev.trace_id@ == trace.trace_id@
                &&& ev.request_id@ == trace.request_id@
                &&& ev.command_id@ == request.command_id@
                &&& ev.duration_ms == out.duration_ms
                &&& ev.exit_code == 0
                &&& ev.noop
            }),
            !is_skipped(self.safe_mode(), request@) ==> (r matches Ok((out, ev)) ==> {
                &&& out.command_id@ == request.command_id@
                &&& out.exit_code == 0
                &&& !out.noop
                &&& ev.trace_id@ == trace.trace_id@
                &&& ev.request_id@ == trace.request_id@
                &&& ev.command_id@ == request.command_id@
                &&& ev.duration_ms == out.duration_ms
                &&& ev.exit_code == 0
                &&& !ev.noop
            }),
            run_outcome(*self, request@, execution_texts(r)),
    {
        let started = clock_now();
        if self.safe_test_mode && request.safety == CommandSafety::Destructive {
            let elapsed = clock_elapsed(&started);
            let duration_ms = duration_millis(&elapsed);
            let output = ExecutionOutput {
                command_id: owned(request.command_id.as_str()),
                exit_code: 0,
                stdout: String::new(),
                stderr: owned("SAFE_TEST_MODE prevented destructive execution"),
                duration_ms,
                noop: true,
            };
            let event = AuditEvent {
                trace_id: owned(trace.trace_id.as_str()),
                request_id: owned(trace.request_id.as_str()),
                command_id: owned(request.command_id.as_str()),
                duration_ms,
                exit_code: 0,
                noop: true,
            };
            return Ok((output, event));
        }
        let max_retries = self.options.max_retries;
        let ghost req = request@;
        let ghost mut answers: Seq<RunAnswer> = Seq::empty();
        let mut attempt: u8 = 0;
        loop
            invariant
                attempt <= max_retries,
                max_retries == self.options.max_retries,
                req == request@,
                !is_skipped(self.safe_mode(), req),
                answers.len() == attempt,
                forall|i: int|
                    0 <= i < answers.len() ==> self.runner.may_answer(
                        req.program,
                        req.args,
                        #[trigger] answers[i],
                    ),
                forall|i: int|
                    0 <= i < answers.len() ==> retryable_answer(req.command_id, #[trigger] answers[i]),
            decreases max_retries - attempt,
        {
            let answer = self.runner.run(request.program.as_str(), request.args.as_slice());
            let ghost before = answers;
            proof {
                answers = answers.push(answer);
                assert(answers[answers.len() - 1] == answer);
                assert forall|i: int| 0 <= i < answers.len() - 1 implies answers[i] == before[i] by {}
            }
            match answer {
                Ok(raw) => {
                    let elapsed = clock_elapsed(&started);
                    let duration_ms = duration_millis(&elapsed);
                    let ghost raw_g = raw;
                    if raw.exit_code == 0 {
                        let output = ExecutionOutput {
                            command_id: owned(request.command_id.as_str()),
                            exit_code: raw.exit_code,
                            stdout: raw.stdout,
                            stderr: raw.stderr,
                            duration_ms,
                            noop: false,
                        };
                        let event = AuditEvent {
                            trace_id: owned(trace.trace_id.as_str()),
                            request_id: owned(trace.request_id.as_str()),
                            command_id: owned(request.command_id.as_str()),
                            duration_ms,
                            exit_code: 0,
                            noop: false,
                        };
                        proof {
                            assert(answers.last() == Ok::<RawExecutionOutput, std::io::Error>(raw_g));
                            assert(run_history(self.runner, req, max_retries, answers));
                            assert(run_history(self.runner_spec(), request@, self.retry_options().max_retries, answers));
                            assert(run_outcome(*self, request@, execution_texts(Ok::<(ExecutionOutput, AuditEvent), AppError>((output, event)))));
                        }
                        return Ok((output, event));
                    }
                    let err = classify_process_error(
                        request.command_id.as_str(),
                        raw.exit_code,
                        raw.stderr.as_str(),
                        raw.stdout.as_str(),
                    );
                    if should_retry(&err, attempt, max_retries) {
                        self.runner.pause(backoff_delay(self.options.initial_backoff_ms, attempt));
                    } else {
                        proof {
                            assert(answers.last() == Ok::<RawExecutionOutput, std::io::Error>(raw_g));
                            assert(run_history(self.runner, req, max_retries, answers));
                            assert(answer_failure(req.command_id, answers.last(), err));
                            assert(run_history(self.runner_spec(), request@, self.retry_options().max_retries, answers));
                            assert(run_outcome(*self, request@, execution_texts(Err::<(ExecutionOutput, AuditEvent), AppError>(err))));
                        }
                        return Err(err);
                    }
                },
                Err(io_err) => {
                    let err = classify_spawn_error(request.command_id.as_str(), &io_err);
                    if should_retry(&err, attempt, max_retries) {
                        self.runner.pause(backoff_delay(self.options.initial_backoff_ms, attempt));
                    } else {
                        proof {
                            assert(answers.last() matches Err(_));
                            assert(answer_failure(req.command_id, answers.last(), err));
                            assert(run_history(self.runner_spec(), request@, self.retry_options().max_retries, answers));
                            assert(run_outcome(*self, request@, execution_texts(Err::<(ExecutionOutput, AuditEvent), AppError>(err))));
                        }
                        return Err(err);
                    }
                },
            }
            attempt = attempt + 1;
        }
    }
}

/// A failure is retried when it is retryable and attempts remain.
pub fn should_retry(err: &AppError, attempt: u8, max_retries: u8) -> (b: bool)
    ensures
        b == retry_allowed(err@, attempt, max_retries),
{
    err.retryable && attempt < max_retries
}

/// The wait in milliseconds before the retry that follows attempt `attempt`.
pub fn backoff_delay(initial_backoff_ms: u64, attempt: u8) -> (ms: u64)
    ensures
        ms == backoff_ms(initial_backoff_ms, attempt),
{
    let mut factor: u64 = 1;
    let mut k: u8 = 0;
    let ghost mut exact: int = 1;
    proof {
        vstd::arithmetic::power::lemma_pow0(2);
    }
    while k < attempt
        invariant
            k <= attempt,
            exact == vstd::arithmetic::power::pow(2, k as nat),
            factor == (if exact > u64::MAX { u64::MAX as int } else { exact }),
        decreases attempt - k,
    {
        proof {
            vstd::arithmetic::power::lemma_pow_adds(2, k as nat, 1);
            vstd::arithmetic::power::lemma_pow1(2);
            vstd::arithmetic::power::lemma_pow_positive(2, k as nat);
        }
        factor = saturating_mul(factor, 2);
        proof {
            exact = exact * 2;
        }
        k = k + 1;
    }
    saturating_mul(initial_backoff_ms, factor)
}

/// `u64::saturating_mul`: the product, or `u64::MAX` when it does not fit.
pub fn saturating_mul(a: u64, b: u64) -> (r: u64)
    ensures
        r == (if a * b > u64::MAX { u64::MAX as int } else { a * b }),
{
    match a.checked_mul(b) {
        Some(p) => p,
        None => u64::MAX,
    }
}

/// The error of a program that could not be started.
fn classify_spawn_error(command_id: &str, err: &std::io::Error) -> (e: AppError)
    ensures
        exists|io_text: Seq<char>| e.is(#[trigger] spawn_failure(command_id@, io_text)),
{
    let text = err.to_string();
    let head = concat3("failed to execute `", command_id, "`: ");
    let message = concat(head.as_str(), text.as_str());
    let e = AppError::new(ErrorCode::ExecutionError, message.as_str(), true);
    assert(e.is(spawn_failure(command_id@, text@)));
    e
}

/// Signed decimal rendering of an exit code.
pub fn int_string(i: i32) -> (s: String)
    ensures
        s@ == int_text(i as int),
{
    let wide = i as i64;
    let mut s = String::new();
    if wide < 0 {
        crate::text::push_char(&mut s, '-');
        push_decimal(&mut s, (-wide) as u64);
    } else {
        push_decimal(&mut s, wide as u64);
    }
    s
}

/// Whether some phrase of `needles` occurs in `text`.
pub fn contains_any(text: &Vec<char>, needles: &[&str]) -> (b: bool)
    ensures
        b == any_of(text@, needles),
{
    let mut i: usize = 0;
    while i < needles.len()
        invariant
            i <= needles@.len(),
            forall|j: int| 0 <= j < i ==> !contains_seq(text@, (#[trigger] needles@[j])@),
        decreases needles@.len() - i,
    {
        let needle = chars_of(needles[i]);
        if contains_chars(text, &needle) {
            return true;
        }
        i = i + 1;
    }
    false
}

/// The text searched for known failure phrases.
fn normalize_error_text(stderr: &str, stdout: &str) -> (t: Vec<char>)
    ensures
        t@ == normalized(stderr@, stdout@),
{
    let mut joined = owned(stderr);
    crate::text::push_char(&mut joined, '\n');
    joined.append(stdout);
    let chars = chars_of(joined.as_str());
    lower_chars(&chars)
}

fn is_auth_error(t: &Vec<char>) -> (b: bool)
    ensures
        b == auth_text(t@),
{
    contains_any(
        t,
        &[
            "authentication required",
            "requires authentication",
            "gh auth login",
            "bad credentials",
            "http 401",
            "must authenticate",
            "not logged into",
        ],
    )
}

fn is_permission_error(t: &Vec<char>) -> (b: bool)
    ensures
        b == permission_text(t@),
{
    contains_any(
        t,
        &[
            "permission denied",
            "resource not accessible",
            "forbidden",
            "http 403",
            "must have admin rights",
            "required scopes",
        ],
    )
}

fn is_not_found_error(t: &Vec<char>) -> (b: bool)
    ensures
        b == not_found_text(t@),
{
    contains_any(t, &["not found", "http 404", "unknown repository"])
}

fn is_rate_limited(t: &Vec<char>) -> (b: bool)
    ensures
        b == rate_limited_text(t@),
{
    contains_any(
        t,
        &["rate limit exceeded", "secondary rate limit", "api rate limit exceeded", "http 429"],
    )
}

fn is_network_error(t: &Vec<char>) -> (b: bool)
    ensures
        b == network_text(t@),
{
    contains_any(
        t,
        &[
            "connection reset",
            "connection refused",
            "connection timed out",
            "tls handshake timeout",
            "i/o timeout",
            "temporary failure",
            "no such host",
            "dial tcp",
            "network is unreachable",
        ],
    )
}

fn is_upstream_error(t: &Vec<char>) -> (b: bool)
    ensures
        b == upstream_text(t@),
{
    contains_any(
        t,
        &[
            "http 500",
            "http 502",
            "http 503",
            "http 504",
            "service unavailable",
            "bad gateway",
            "gateway timeout",
        ],
    )
}

/// The error of a process that exited with code `exit_code`.
pub fn classify_process_error(command_id: &str, exit_code: i32, stderr: &str, stdout: &str) -> (e:
    AppError)
    ensures
        e.is(classify_process(command_id@, exit_code as int, stderr@, stdout@)),
        rate_limited_text(normalized(stderr@, stdout@)) ==> e@.code == ErrorCode::RateLimited
            && e@.retryable,
{
    let stderr_trimmed = trimmed(stderr);
    let t = normalize_error_text(stderr, stdout);
    let m1 = concat3("command `", command_id, "` failed with exit code ");
    let code = int_string(exit_code);
    let m2 = concat3(m1.as_str(), code.as_str(), " (stderr: ");
    let message = concat3(m2.as_str(), stderr_trimmed.as_str(), ")");
    if is_rate_limited(&t) {
        return AppError::new(ErrorCode::RateLimited, message.as_str(), true);
    }
    if is_auth_error(&t) {
        return AppError::new(ErrorCode::AuthRequired, message.as_str(), false);
    }
    if is_permission_error(&t) {
        return AppError::new(ErrorCode::PermissionDenied, message.as_str(), false);
    }
    if is_not_found_error(&t) {
        return AppError::new(ErrorCode::NotFound, message.as_str(), false);
    }
    if is_network_error(&t) {
        return AppError::new(ErrorCode::NetworkError, message.as_str(), true);
    }
    if is_upstream_error(&t) {
        return AppError::new(ErrorCode::UpstreamError, message.as_str(), true);
    }
    AppError::new(ErrorCode::ExecutionError, message.as_str(), false)
}

} // verus!

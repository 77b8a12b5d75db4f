# gh_client_backend

The back end of a desktop client for the GitHub command line tool `gh`,
written in Verus: every operation's contract is stated over mathematical
models and proved.

- `src/engine/`: the registry of the `gh` commands the client may run, the
  permission guard, request building, the executor (safe test mode, retries
  of retryable failures with doubling backoff, classification of failures),
  errors with their fingerprints, trace contexts, and the repository
  permission resolver. The executor's contract states the runs it makes: each
  hands the runner the request's program and arguments, every run but the
  last ended in a failure that is tried again, there are at most one more
  than the allowed retries, and the result is the last run's output or
  failure.
- `src/features/`: one module per area (repositories, pull requests, issues,
  actions, releases, settings, insights, projects, discussions, wiki, pages,
  rulesets, auth): the input checks, the argument lists of each command, and
  the readers of the command output that are not plain JSON.
- `src/text.rs`, `src/json.rs`: text utilities and a model of parsed JSON.
- `src/contract.rs`, `src/keywords.rs`, `src/frontend.rs`, `src/app_ipc.rs`:
  the stable front-end contract, the payload keywords, the dispatcher's
  services, and the error form the front end receives.
- `app/`: a command line program that reads one command envelope as JSON,
  runs it with `gh` as a child process, and prints the outcome as JSON. It
  holds the `serde` forms of the records and the JSON readers.

The library is verified with Verus; the tests under `tests/` run it against
recording runners.

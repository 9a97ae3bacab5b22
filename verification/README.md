# arizona2

Arizona2 simulates AI people in shared scenes: people speak, move between
scenes, wait, hibernate, reflect on what happened, and keep memories, state
of mind and tasks. A background job runner pops due jobs and runs them.

This crate is a Verus library: each decision the simulation makes is written
as a verified function with a contract.

## Layout

- `src/domain/job/` — the jobs. Each job is a state machine: it starts from
  the job's data, names the next piece of outside work it needs
  (`effects::WorkerCall`: a database read or write, a model request), and
  goes on with the reply (`effects::Reply`). Each step's contract says what
  follows each reply.
- `src/job_runner.rs` — popping, running and marking jobs, and the active
  clock.
- `src/person_actions.rs` — the actions a person can choose, and how the
  model's tool calls are read into them.
- `src/open_ai/` — completion and embedding requests and the reading of their
  answers.
- `src/migrations.rs`, `src/tasks/` — database migrations and the offline
  memory and identity summaries.
- `src/laws.rs` — properties that span several functions, each proved.
- `app/` — the program around the library: the command line, logging,
  migration files and the migrations database, the model service's HTTP
  requests, the stored form of job data, and the job runner's loop, which
  performs the work each step asks for through a `Backend`. No backend for
  the simulation's database is included, so `run-job-runner` reports that
  the database layer is missing; `run` and `admin-ui` are not implemented
  either.
- `tests/` — tests that drive the state machines with scripted replies.

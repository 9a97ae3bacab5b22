//! Running the queued jobs: each job is popped, run to its end, and marked
//! finished, failed, or put back to wait; and the active clock by which
//! waiting jobs are timed.
use crate::domain::job::effects::{Next, Reply, WorkerCall};
use crate::domain::job::person_hibernating::{
    hibernating_error_text, HibernateOutcome, HibernateStep, PersonHibernatingJob,
};
use crate::domain::job::person_waiting::{waiting_error_text, WaitDecision, WaitStep, Waiting};
use crate::domain::job::process_message::{process_message_error_text, ProcessMessage, ProcessMessageStep};
use crate::domain::job::process_person_join::{JoinStep, ProcessPersonJoin};
use crate::domain::job::process_reaction_common::scene_reaction::{ReactionContext, SceneReaction};
use crate::domain::job::process_reaction_common::{reaction_error_text, SceneReactionTrigger};
use crate::domain::job::send_message_to_scene::{send_error_text, SendMessage};
use crate::domain::job::{job_kind_name, JobKind, PoppedJob};
use crate::domain::job_uuid::{job_uuid_text, JobUuid};
use crate::domain::message_uuid::MessageUuid;
use crate::domain::random_seed::RandomSeed;
use crate::nice_display::NiceDisplay;
use crate::num::{clamp_i64, max_i64, max_of_i64, saturating_add_i64, saturating_sub_i64};
use vstd::prelude::*;
use vstd::string::*;

verus! {

/// How often the runner looks for jobs when its setting cannot be read, in
/// seconds.
pub const DEFAULT_JOB_RUNNER_POLL_INTERVAL_SECS: u64 = 45;

/// Why running jobs failed.
#[derive(Debug)]
pub enum Error {
    WorkerInit(String),
    ActiveClock(String),
    PopJob(String),
    RunJob((JobUuid, RunJobError)),
}

/// What running the next job did.
#[derive(Debug)]
pub enum RunNextJobResult {
    NoJob,
    RanJob { job_uuid: JobUuid, job_kind: String },
    Deferred { job_uuid: JobUuid, job_kind: String },
}

/// Why running a job failed.
#[derive(Debug)]
pub enum RunJobError {
    FailedToMarkJobFinished(String),
    FailedToMarkJobFailed(String),
    FailedToResetJob(String),
    ProcessMessageError(crate::domain::job::process_message::Error),
    ProcessPersonJoinError(crate::domain::job::process_person_join::Error),
    SendMessageToSceneError(crate::domain::job::send_message_to_scene::Error),
    PersonWaitingError(crate::domain::job::person_waiting::Error),
    PersonHibernatingError(crate::domain::job::person_hibernating::Error),
}

/// How a job ended: done with, or put back to run later.
#[derive(Debug, Clone, Copy, PartialEq, Eq, Structural)]
pub enum RunJobOutcome {
    Completed,
    Deferred,
}

/// The explanation of a job failure.
pub open spec fn run_job_error_text(e: RunJobError) -> Seq<char> {
    match e {
        RunJobError::FailedToMarkJobFinished(d) =>
            "I ran into the following problem trying to mark the job as finished\n"@ + d@,
        RunJobError::ProcessMessageError(m) => "Error processing message job\n"@ + process_message_error_text(m),
        RunJobError::ProcessPersonJoinError(j) => "Error processing person join job\n"@ + match j {
            crate::domain::job::process_person_join::Error::Reaction(r) => reaction_error_text(r),
        },
        RunJobError::SendMessageToSceneError(s) => "Error sending message to scene job\n"@ + send_error_text(s),
        RunJobError::FailedToMarkJobFailed(d) => "I ran into the following problem trying to mark the job as failed\n"@
            + d@,
        RunJobError::FailedToResetJob(d) => "I ran into the following problem trying to reset the job\n"@ + d@,
        RunJobError::PersonWaitingError(w) => "Error processing person waiting job\n"@ + waiting_error_text(w),
        RunJobError::PersonHibernatingError(h) => "Error processing person hibernating job\n"@ + hibernating_error_text(h),
    }
}

/// The explanation of a runner failure.
pub open spec fn runner_error_text(e: Error) -> Seq<char> {
    match e {
        Error::WorkerInit(d) => "Worker initialization error\n"@ + d@,
        Error::ActiveClock(d) => "Active clock error\n"@ + d@,
        Error::RunJob((job_uuid, err)) => "I failed to run job "@ + job_uuid_text(job_uuid) + "\n"@
            + run_job_error_text(err),
        Error::PopJob(d) => "Failed to pop next job\n"@ + d@,
    }
}

fn prefixed(prefix: &str, d: &str) -> (res: String)
    ensures
        res@ == prefix@ + d@,
{
    let mut s = String::from_str(prefix);
    s.append(d);
    s
}

impl RunJobError {
    /// The explanation of the failure.
    pub fn explain(&self) -> (res: String)
        ensures
            res@ == run_job_error_text(*self),
    {
        match self {
            RunJobError::FailedToMarkJobFinished(d) => prefixed(
                "I ran into the following problem trying to mark the job as finished\n",
                d.as_str(),
            ),
            RunJobError::ProcessMessageError(m) => {
                let t = m.explain();
                prefixed("Error processing message job\n", t.as_str())
            },
            RunJobError::ProcessPersonJoinError(j) => {
                let t = match j {
                    crate::domain::job::process_person_join::Error::Reaction(r) => r.explain(),
                };
                prefixed("Error processing person join job\n", t.as_str())
            },
            RunJobError::SendMessageToSceneError(s) => {
                let t = s.explain();
                prefixed("Error sending message to scene job\n", t.as_str())
            },
            RunJobError::FailedToMarkJobFailed(d) => prefixed(
                "I ran into the following problem trying to mark the job as failed\n",
                d.as_str(),
            ),
            RunJobError::FailedToResetJob(d) => prefixed(
                "I ran into the following problem trying to reset the job\n",
                d.as_str(),
            ),
            RunJobError::PersonWaitingError(w) => {
                let t = w.explain();
                prefixed("Error processing person waiting job\n", t.as_str())
            },
            RunJobError::PersonHibernatingError(h) => {
                let t = h.explain();
                prefixed("Error processing person hibernating job\n", t.as_str())
            },
        }
    }
}

impl NiceDisplay for RunJobError {
    open spec fn message_spec(&self) -> Seq<char> {
        run_job_error_text(*self)
    }

    fn message(&self) -> (res: String) {
        let r = self.explain();
        assert(self.message_spec() == run_job_error_text(*self));
        r
    }
}

impl Error {
    /// The explanation of the failure.
    pub fn explain(&self) -> (res: String)
        ensures
            res@ == runner_error_text(*self),
    {
        match self {
            Error::WorkerInit(d) => prefixed("Worker initialization error\n", d.as_str()),
            Error::ActiveClock(d) => prefixed("Active clock error\n", d.as_str()),
            Error::RunJob((job_uuid, err)) => {
                let u = job_uuid.to_string();
                let mut s = prefixed("I failed to run job ", u.as_str());
                s.append("\n");
                let t = err.explain();
                s.append(t.as_str());
                s
            },
            Error::PopJob(d) => prefixed("Failed to pop next job\n", d.as_str()),
        }
    }
}

impl NiceDisplay for Error {
    open spec fn message_spec(&self) -> Seq<char> {
        runner_error_text(*self)
    }

    fn message(&self) -> (res: String) {
        let r = self.explain();
        assert(self.message_spec() == runner_error_text(*self));
        r
    }
}

/// The poll interval read from the settings, or the default where it could
/// not be read.
pub fn poll_interval_or_default(setting: Result<u64, String>) -> (res: u64)
    ensures
        res == match setting {
            Ok(secs) => secs,
            Err(_) => DEFAULT_JOB_RUNNER_POLL_INTERVAL_SECS,
        },
{
    match setting {
        Ok(secs) => secs,
        Err(_) => DEFAULT_JOB_RUNNER_POLL_INTERVAL_SECS,
    }
}

/// Whether the runner is enabled, by the settings; enabled where they could
/// not be read.
pub fn enabled_or_default(setting: Result<bool, String>) -> (res: bool)
    ensures
        res == match setting {
            Ok(enabled) => enabled,
            Err(_) => true,
        },
{
    match setting {
        Ok(enabled) => enabled,
        Err(_) => true,
    }
}

#[verifier::external_type_specification]
#[verifier::external_body]
pub struct ExInstant(std::time::Instant);

/// The current instant; wraps `std::time::Instant::now`.
#[verifier::external_body]
fn instant_now() -> std::time::Instant {
    std::time::Instant::now()
}

/// The time since `start`; wraps `std::time::Instant::elapsed`.
#[verifier::external_body]
fn elapsed_since(start: &std::time::Instant) -> std::time::Duration {
    start.elapsed()
}

/// The whole milliseconds of a duration; wraps `std::time::Duration::as_millis`.
#[verifier::external_body]
fn duration_millis(d: &std::time::Duration) -> u128 {
    d.as_millis()
}

/// The active time after `elapsed_ms` more milliseconds: an elapsed time
/// beyond `i64::MAX` counts as `i64::MAX`, and the sum saturates.
pub open spec fn active_ms_after(base_active_ms: i64, elapsed_ms: u128) -> i64 {
    let elapsed: i64 = if elapsed_ms > i64::MAX as u128 {
        i64::MAX
    } else {
        elapsed_ms as i64
    };
    clamp_i64(base_active_ms + elapsed)
}

/// The active time after `elapsed_ms` more milliseconds.
pub fn active_ms_after_elapsed(base_active_ms: i64, elapsed_ms: u128) -> (res: i64)
    ensures
        res == active_ms_after(base_active_ms, elapsed_ms),
{
    let elapsed: i64 = if elapsed_ms > 9223372036854775807u128 {
        9223372036854775807i64
    } else {
        elapsed_ms as i64
    };
    saturating_add_i64(base_active_ms, elapsed)
}

/// A clock of active time: the stored active time plus the time since it
/// was loaded. It keeps its last reading (the stored time before the
/// first), so that no reading is below an earlier one.
#[derive(Debug)]
pub struct ActiveClock {
    pub base_active_ms: i64,
    pub start: std::time::Instant,
    pub last_ms: i64,
}

/// What one reading of an active clock gives and leaves: the stored time plus
/// some elapsed time, never below the clock's last reading, which it becomes.
pub open spec fn clock_reading(before: ActiveClock, res: i64, after: ActiveClock) -> bool {
    &&& after.base_active_ms == before.base_active_ms
    &&& after.start == before.start
    &&& after.last_ms == res
    &&& res >= before.last_ms
    &&& res >= before.base_active_ms
    &&& exists|elapsed_ms: u128|
        res == max_i64(#[trigger] active_ms_after(before.base_active_ms, elapsed_ms), before.last_ms)
}

impl ActiveClock {
    /// A clock that starts now from the stored active time.
    pub fn new(base_active_ms: i64) -> (res: Self)
        ensures
            res.base_active_ms == base_active_ms,
            res.last_ms == base_active_ms,
    {
        ActiveClock { base_active_ms, start: instant_now(), last_ms: base_active_ms }
    }

    /// The current active time: the stored active time plus the milliseconds
    /// since the clock started. The monotonic clock never runs back, and the
    /// reading is kept at least the last one, so readings never decrease.
    pub fn current_ms(&mut self) -> (res: i64)
        ensures
            clock_reading(*old(self), res, *final(self)),
    {
        let elapsed = elapsed_since(&self.start);
        let ms = duration_millis(&elapsed);
        let now = active_ms_after_elapsed(self.base_active_ms, ms);
        let res = max_of_i64(now, self.last_ms);
        self.last_ms = res;
        res
    }
}

/// Where running a job stands.
#[derive(Debug)]
pub enum RunJob {
    Pinging { job_uuid: JobUuid },
    Sending { sub: SendMessage, job_uuid: JobUuid },
    ProcessingMessage { sub: ProcessMessage, job_uuid: JobUuid },
    ProcessingJoin { sub: ProcessPersonJoin, job_uuid: JobUuid },
    Waiting { sub: Waiting, job_uuid: JobUuid },
    CheckingHibernation { job: PersonHibernatingJob, job_uuid: JobUuid, current_active_ms: i64 },
    WakingUp { job_uuid: JobUuid },
    AwaitingFinished,
    AwaitingFailed,
    AwaitingReset,
    Finished,
}

/// The result type of a step of running a job.
pub type RunJobStep = (RunJob, Next<Result<RunJobOutcome, RunJobError>>);

/// The job is marked finished.
pub open spec fn completes(job_uuid: JobUuid, res: RunJobStep) -> bool {
    &&& res.0 is AwaitingFinished
    &&& res.1 == Next::<Result<RunJobOutcome, RunJobError>>::Call(WorkerCall::MarkJobFinished { job_uuid })
}

/// The job is marked failed with the explanation of `err`.
pub open spec fn fails(job_uuid: JobUuid, err: RunJobError, res: RunJobStep) -> bool {
    &&& res.0 is AwaitingFailed
    &&& match res.1 {
        Next::Call(WorkerCall::MarkJobFailed { job_uuid: u, details }) => u == job_uuid && details@
            == run_job_error_text(err),
        _ => false,
    }
}

/// The job is put back to run later.
pub open spec fn defers(job_uuid: JobUuid, res: RunJobStep) -> bool {
    &&& res.0 is AwaitingReset
    &&& res.1 == Next::<Result<RunJobOutcome, RunJobError>>::Call(WorkerCall::ResetJob { job_uuid })
}

/// What follows a step of sending a message.
pub open spec fn after_send(
    sub: (SendMessage, Next<Result<MessageUuid, crate::domain::job::send_message_to_scene::Error>>),
    job_uuid: JobUuid,
    res: RunJobStep,
) -> bool {
    match sub.1 {
        Next::Call(call) => {
            &&& res.0 == (RunJob::Sending { sub: sub.0, job_uuid })
            &&& res.1 == Next::<Result<RunJobOutcome, RunJobError>>::Call(call)
        },
        Next::Done(Err(e)) => fails(job_uuid, RunJobError::SendMessageToSceneError(e), res),
        Next::Done(Ok(_)) => completes(job_uuid, res),
    }
}

/// What follows a step of reacting to a message.
pub open spec fn after_process_message(sub: ProcessMessageStep, job_uuid: JobUuid, res: RunJobStep) -> bool {
    match sub.1 {
        Next::Call(call) => {
            &&& res.0 == (RunJob::ProcessingMessage { sub: sub.0, job_uuid })
            &&& res.1 == Next::<Result<RunJobOutcome, RunJobError>>::Call(call)
        },
        Next::Done(Err(e)) => fails(job_uuid, RunJobError::ProcessMessageError(e), res),
        Next::Done(Ok(())) => completes(job_uuid, res),
    }
}

/// What follows a step of reacting to someone joining.
pub open spec fn after_join(sub: JoinStep, job_uuid: JobUuid, res: RunJobStep) -> bool {
    match sub.1 {
        Next::Call(call) => {
            &&& res.0 == (RunJob::ProcessingJoin { sub: sub.0, job_uuid })
            &&& res.1 == Next::<Result<RunJobOutcome, RunJobError>>::Call(call)
        },
        Next::Done(Err(e)) => fails(job_uuid, RunJobError::ProcessPersonJoinError(e), res),
        Next::Done(Ok(())) => completes(job_uuid, res),
    }
}

/// What follows a step of a wait: a failed wait fails the run without
/// marking the job; an unfinished wait puts the job back.
pub open spec fn after_wait(sub: WaitStep, job_uuid: JobUuid, res: RunJobStep) -> bool {
    match sub.1 {
        Next::Call(call) => {
            &&& res.0 == (RunJob::Waiting { sub: sub.0, job_uuid })
            &&& res.1 == Next::<Result<RunJobOutcome, RunJobError>>::Call(call)
        },
        Next::Done(Err(e)) => res.1 == Next::<Result<RunJobOutcome, RunJobError>>::Done(
            Err(RunJobError::PersonWaitingError(e)),
        ),
        Next::Done(Ok(WaitDecision::FinishedWaiting)) => completes(job_uuid, res),
        Next::Done(Ok(WaitDecision::ContinueWaiting)) => defers(job_uuid, res),
    }
}

fn complete(job_uuid: JobUuid) -> (res: RunJobStep)
    ensures
        completes(job_uuid, res),
{
    (RunJob::AwaitingFinished, Next::Call(WorkerCall::MarkJobFinished { job_uuid }))
}

fn fail(job_uuid: JobUuid, err: RunJobError) -> (res: RunJobStep)
    ensures
        fails(job_uuid, err, res),
{
    let details = err.explain();
    (RunJob::AwaitingFailed, Next::Call(WorkerCall::MarkJobFailed { job_uuid, details }))
}

fn defer(job_uuid: JobUuid) -> (res: RunJobStep)
    ensures
        defers(job_uuid, res),
{
    (RunJob::AwaitingReset, Next::Call(WorkerCall::ResetJob { job_uuid }))
}

fn continue_send(
    sub: (SendMessage, Next<Result<MessageUuid, crate::domain::job::send_message_to_scene::Error>>),
    job_uuid: JobUuid,
) -> (res: RunJobStep)
    ensures
        after_send(sub, job_uuid, res),
{
    let (s, n) = sub;
    match n {
        Next::Call(call) => (RunJob::Sending { sub: s, job_uuid }, Next::Call(call)),
        Next::Done(Err(e)) => fail(job_uuid, RunJobError::SendMessageToSceneError(e)),
        Next::Done(Ok(_)) => complete(job_uuid),
    }
}

fn continue_process_message(sub: ProcessMessageStep, job_uuid: JobUuid) -> (res: RunJobStep)
    ensures
        after_process_message(sub, job_uuid, res),
{
    let (s, n) = sub;
    match n {
        Next::Call(call) => (RunJob::ProcessingMessage { sub: s, job_uuid }, Next::Call(call)),
        Next::Done(Err(e)) => fail(job_uuid, RunJobError::ProcessMessageError(e)),
        Next::Done(Ok(())) => complete(job_uuid),
    }
}

fn continue_join(sub: JoinStep, job_uuid: JobUuid) -> (res: RunJobStep)
    ensures
        after_join(sub, job_uuid, res),
{
    let (s, n) = sub;
    match n {
        Next::Call(call) => (RunJob::ProcessingJoin { sub: s, job_uuid }, Next::Call(call)),
        Next::Done(Err(e)) => fail(job_uuid, RunJobError::ProcessPersonJoinError(e)),
        Next::Done(Ok(())) => complete(job_uuid),
    }
}

fn continue_wait(sub: WaitStep, job_uuid: JobUuid) -> (res: RunJobStep)
    ensures
        after_wait(sub, job_uuid, res),
{
    let (s, n) = sub;
    match n {
        Next::Call(call) => (RunJob::Waiting { sub: s, job_uuid }, Next::Call(call)),
        Next::Done(Err(e)) => (RunJob::Finished, Next::Done(Err(RunJobError::PersonWaitingError(e)))),
        Next::Done(Ok(WaitDecision::FinishedWaiting)) => complete(job_uuid),
        Next::Done(Ok(WaitDecision::ContinueWaiting)) => defer(job_uuid),
    }
}

/// How running a job begins.
pub open spec fn job_starts(job: PoppedJob, random_seed: RandomSeed, current_active_ms: i64, res: RunJobStep) -> bool {
    let job_uuid = job.uuid;
    match job.kind {
        JobKind::Ping => {
            &&& res.0 == (RunJob::Pinging { job_uuid })
            &&& match res.1 {
                Next::Call(WorkerCall::Print { line }) => line@ == "Pong"@,
                _ => false,
            }
        },
        JobKind::SendMessageToScene(j) => {
            &&& res.0 == (RunJob::Sending {
                sub: SendMessage::AwaitingParticipants {
                    sender: j.sender,
                    scene_uuid: j.scene_uuid,
                    content: j.content,
                    random_seed: j.random_seed,
                },
                job_uuid,
            })
            &&& res.1 == Next::<Result<RunJobOutcome, RunJobError>>::Call(
                WorkerCall::GetSceneCurrentParticipants { scene_uuid: j.scene_uuid },
            )
        },
        JobKind::ProcessMessage(j) => {
            &&& res.0 == (RunJob::ProcessingMessage {
                sub: ProcessMessage::AwaitingMessage { job: j, random_seed, current_active_ms },
                job_uuid,
            })
            &&& res.1 == Next::<Result<RunJobOutcome, RunJobError>>::Call(
                WorkerCall::GetMessageByUuid { message_uuid: j.message_uuid },
            )
        },
        JobKind::ProcessPersonJoin(j) => {
            &&& match res.0 {
                RunJob::ProcessingJoin {
                    sub: ProcessPersonJoin::Reacting { sub: SceneReaction::AwaitingEnabled { ctx, pending } },
                    job_uuid: u,
                } => u == job_uuid && pending@.len() == 0 && ctx == (ReactionContext {
                    person_uuid: j.recipient_person_uuid,
                    scene_uuid: j.scene_uuid,
                    trigger: SceneReactionTrigger::PersonJoined { joined_person_uuid: j.joined_person_uuid },
                    random_seed,
                    current_active_ms,
                }),
                _ => false,
            }
            &&& res.1 == Next::<Result<RunJobOutcome, RunJobError>>::Call(
                WorkerCall::IsPersonEnabled { person_uuid: j.recipient_person_uuid },
            )
        },
        JobKind::PersonWaiting(j) => exists|sub: WaitStep|
            #[trigger] j.run_spec(random_seed, current_active_ms, sub) && after_wait(sub, job_uuid, res),
        JobKind::PersonHibernating(j) => {
            &&& res.0 == (RunJob::CheckingHibernation { job: j, job_uuid, current_active_ms })
            &&& res.1 == Next::<Result<RunJobOutcome, RunJobError>>::Call(
                WorkerCall::IsPersonHibernating { person_uuid: j.person_uuid },
            )
        },
    }
}

/// Starts running a popped job: each kind of job runs its own steps; a job
/// that completes is marked finished, one that fails is marked failed with
/// the explanation, and a wait or hibernation not yet over is put back.
pub fn run_job(job: PoppedJob, random_seed: RandomSeed, current_active_ms: i64) -> (res: RunJobStep)
    ensures
        job_starts(job, random_seed, current_active_ms, res),
{
    let job_uuid = job.uuid;
    match job.kind {
        JobKind::Ping => (RunJob::Pinging { job_uuid }, Next::Call(WorkerCall::Print { line: String::from_str("Pong") })),
        JobKind::SendMessageToScene(j) => {
            let (s, call) = j.run();
            (RunJob::Sending { sub: s, job_uuid }, Next::Call(call))
        },
        JobKind::ProcessMessage(j) => {
            let (s, call) = j.run(random_seed, current_active_ms);
            (RunJob::ProcessingMessage { sub: s, job_uuid }, Next::Call(call))
        },
        JobKind::ProcessPersonJoin(j) => {
            let sub = j.run(random_seed, current_active_ms);
            continue_join(sub, job_uuid)
        },
        JobKind::PersonWaiting(j) => {
            let sub = j.run(random_seed, current_active_ms);
            let ghost sub_g = sub;
            let res = continue_wait(sub, job_uuid);
            assert(j.run_spec(random_seed, current_active_ms, sub_g));
            res
        },
        JobKind::PersonHibernating(j) => (
            RunJob::CheckingHibernation { job: j, job_uuid, current_active_ms },
            Next::Call(WorkerCall::IsPersonHibernating { person_uuid: j.person_uuid }),
        ),
    }
}

impl RunJob {
    /// The reply each stage waits for.
    pub open spec fn awaits(self, reply: Reply) -> bool {
        match self {
            RunJob::Pinging { .. } => reply is Logged,
            RunJob::Sending { sub, .. } => sub.awaits(reply),
            RunJob::ProcessingMessage { sub, .. } => sub.awaits(reply),
            RunJob::ProcessingJoin { sub, .. } => sub.awaits(reply),
            RunJob::Waiting { sub, .. } => sub.awaits(reply),
            RunJob::CheckingHibernation { .. } => reply is Flag,
            RunJob::WakingUp { .. } => reply is Unit,
            RunJob::AwaitingFinished => reply is Unit,
            RunJob::AwaitingFailed => reply is Unit,
            RunJob::AwaitingReset => reply is Unit,
            RunJob::Finished => false,
        }
    }

    /// One step of running a job.
    pub open spec fn step(self, reply: Reply, res: RunJobStep) -> bool {
        match (self, reply) {
            (RunJob::Pinging { job_uuid }, Reply::Logged) => completes(job_uuid, res),
            (RunJob::Sending { sub, job_uuid }, _) => exists|s: (
                SendMessage,
                Next<Result<MessageUuid, crate::domain::job::send_message_to_scene::Error>>,
            )| #[trigger] sub.step(reply, s) && after_send(s, job_uuid, res),
            (RunJob::ProcessingMessage { sub, job_uuid }, _) => exists|s: ProcessMessageStep|
                #[trigger] sub.step(reply, s) && after_process_message(s, job_uuid, res),
            (RunJob::ProcessingJoin { sub, job_uuid }, _) => exists|s: JoinStep|
                #[trigger] sub.step(reply, s) && after_join(s, job_uuid, res),
            (RunJob::Waiting { sub, job_uuid }, _) => exists|s: WaitStep|
                #[trigger] sub.step(reply, s) && after_wait(s, job_uuid, res),
            (RunJob::CheckingHibernation { job, job_uuid, current_active_ms }, Reply::Flag(r)) => match r {
                Err(e) => match res.1 {
                    Next::Done(Err(RunJobError::PersonHibernatingError(
                        crate::domain::job::person_hibernating::Error::FailedToGetHibernationState(m),
                    ))) => m@ == e@,
                    _ => false,
                },
                Ok(false) => completes(job_uuid, res),
                Ok(true) => if clamp_i64(current_active_ms - job.start_active_ms) < job.duration_ms {
                    defers(job_uuid, res)
                } else {
                    &&& res.0 == (RunJob::WakingUp { job_uuid })
                    &&& res.1 == Next::<Result<RunJobOutcome, RunJobError>>::Call(
                        WorkerCall::SetPersonHibernating { person_uuid: job.person_uuid, is_hibernating: false },
                    )
                },
            },
            (RunJob::WakingUp { job_uuid }, Reply::Unit(r)) => match r {
                Err(e) => match res.1 {
                    Next::Done(Err(RunJobError::PersonHibernatingError(
                        crate::domain::job::person_hibernating::Error::FailedToSetHibernationState(m),
                    ))) => m@ == e@,
                    _ => false,
                },
                Ok(()) => completes(job_uuid, res),
            },
            (RunJob::AwaitingFinished, Reply::Unit(r)) => match r {
                Err(e) => res.1 == Next::<Result<RunJobOutcome, RunJobError>>::Done(
                    Err(RunJobError::FailedToMarkJobFinished(e)),
                ),
                Ok(()) => res.1 == Next::<Result<RunJobOutcome, RunJobError>>::Done(Ok(RunJobOutcome::Completed)),
            },
            (RunJob::AwaitingFailed, Reply::Unit(r)) => match r {
                Err(e) => res.1 == Next::<Result<RunJobOutcome, RunJobError>>::Done(
                    Err(RunJobError::FailedToMarkJobFailed(e)),
                ),
                Ok(()) => res.1 == Next::<Result<RunJobOutcome, RunJobError>>::Done(Ok(RunJobOutcome::Completed)),
            },
            (RunJob::AwaitingReset, Reply::Unit(r)) => match r {
                Err(e) => res.1 == Next::<Result<RunJobOutcome, RunJobError>>::Done(Err(RunJobError::FailedToResetJob(e))),
                Ok(()) => res.1 == Next::<Result<RunJobOutcome, RunJobError>>::Done(Ok(RunJobOutcome::Deferred)),
            },
            _ => false,
        }
    }

    /// Goes on with the reply.
    pub fn resume(self, reply: Reply) -> (res: RunJobStep)
        requires
            self.awaits(reply),
        ensures
            self.step(reply, res),
    {
        match self {
            RunJob::Pinging { job_uuid } => complete(job_uuid),
            RunJob::Sending { sub, job_uuid } => {
                let ghost sub_g = sub;
                let s = sub.resume(reply);
                let ghost s_g = s;
                let res = continue_send(s, job_uuid);
                assert(sub_g.step(reply, s_g));
                res
            },
            RunJob::ProcessingMessage { sub, job_uuid } => {
                let ghost sub_g = sub;
                let s = sub.resume(reply);
                let ghost s_g = s;
                let res = continue_process_message(s, job_uuid);
                assert(sub_g.step(reply, s_g));
                res
            },
            RunJob::ProcessingJoin { sub, job_uuid } => {
                let ghost sub_g = sub;
                let s = sub.resume(reply);
                let ghost s_g = s;
                let res = continue_join(s, job_uuid);
                assert(sub_g.step(reply, s_g));
                res
            },
            RunJob::Waiting { sub, job_uuid } => {
                let ghost sub_g = sub;
                let s = sub.resume(reply);
                let ghost s_g = s;
                let res = continue_wait(s, job_uuid);
                assert(sub_g.step(reply, s_g));
                res
            },
            RunJob::CheckingHibernation { job, job_uuid, current_active_ms } => match reply {
                Reply::Flag(r) => match job.after_hibernation_check(current_active_ms, r) {
                    HibernateStep::Finished(Err(e)) => (RunJob::Finished, Next::Done(Err(RunJobError::PersonHibernatingError(e)))),
                    HibernateStep::Finished(Ok(HibernateOutcome::Ready)) => complete(job_uuid),
                    HibernateStep::Finished(Ok(HibernateOutcome::NotReady)) => defer(job_uuid),
                    HibernateStep::WakeUp => (
                        RunJob::WakingUp { job_uuid },
                        Next::Call(WorkerCall::SetPersonHibernating { person_uuid: job.person_uuid, is_hibernating: false }),
                    ),
                },
                _ => (RunJob::Finished, Next::Done(Ok(RunJobOutcome::Completed))),
            },
            RunJob::WakingUp { job_uuid } => match reply {
                Reply::Unit(r) => match PersonHibernatingJob::after_wake_up(r) {
                    Ok(_) => complete(job_uuid),
                    Err(e) => (RunJob::Finished, Next::Done(Err(RunJobError::PersonHibernatingError(e)))),
                },
                _ => (RunJob::Finished, Next::Done(Ok(RunJobOutcome::Completed))),
            },
            RunJob::AwaitingFinished => match reply {
                Reply::Unit(Err(e)) => (RunJob::Finished, Next::Done(Err(RunJobError::FailedToMarkJobFinished(e)))),
                _ => (RunJob::Finished, Next::Done(Ok(RunJobOutcome::Completed))),
            },
            RunJob::AwaitingFailed => match reply {
                Reply::Unit(Err(e)) => (RunJob::Finished, Next::Done(Err(RunJobError::FailedToMarkJobFailed(e)))),
                _ => (RunJob::Finished, Next::Done(Ok(RunJobOutcome::Completed))),
            },
            RunJob::AwaitingReset => match reply {
                Reply::Unit(Err(e)) => (RunJob::Finished, Next::Done(Err(RunJobError::FailedToResetJob(e)))),
                _ => (RunJob::Finished, Next::Done(Ok(RunJobOutcome::Deferred))),
            },
            RunJob::Finished => (RunJob::Finished, Next::Done(Ok(RunJobOutcome::Completed))),
        }
    }
}

/// Where running the next job stands. `persist_clock` says whether the
/// active clock is stored once the job has run.
#[derive(Debug)]
pub enum RunNextJob {
    AwaitingJob { random_seed: RandomSeed, current_active_ms: i64, persist_clock: bool },
    Running { sub: RunJob, job_uuid: JobUuid, job_kind: String, persist_clock: bool },
    AwaitingPersist { result: RunNextJobResult },
    Finished,
}

/// The result type of a step of running the next job.
pub type NextJobStep = (RunNextJob, Next<Result<RunNextJobResult, Error>>);

/// The result of a job that ran.
pub open spec fn ran_result(job_uuid: JobUuid, job_kind: String, outcome: RunJobOutcome) -> RunNextJobResult {
    match outcome {
        RunJobOutcome::Completed => RunNextJobResult::RanJob { job_uuid, job_kind },
        RunJobOutcome::Deferred => RunNextJobResult::Deferred { job_uuid, job_kind },
    }
}

/// What follows a step of running the popped job: a failure is the runner's
/// failure for that job; once the job has run, the clock is stored where
/// asked.
pub open spec fn after_run(
    sub: RunJobStep,
    job_uuid: JobUuid,
    job_kind: String,
    persist_clock: bool,
    res: NextJobStep,
) -> bool {
    match sub.1 {
        Next::Call(call) => {
            &&& res.0 == (RunNextJob::Running { sub: sub.0, job_uuid, job_kind, persist_clock })
            &&& res.1 == Next::<Result<RunNextJobResult, Error>>::Call(call)
        },
        Next::Done(Err(e)) => res.1 == Next::<Result<RunNextJobResult, Error>>::Done(Err(Error::RunJob((job_uuid, e)))),
        Next::Done(Ok(outcome)) => if persist_clock {
            &&& res.0 == (RunNextJob::AwaitingPersist { result: ran_result(job_uuid, job_kind, outcome) })
            &&& res.1 == Next::<Result<RunNextJobResult, Error>>::Call(WorkerCall::PersistActiveClock)
        } else {
            res.1 == Next::<Result<RunNextJobResult, Error>>::Done(Ok(ran_result(job_uuid, job_kind, outcome)))
        },
    }
}

fn continue_run(sub: RunJobStep, job_uuid: JobUuid, job_kind: String, persist_clock: bool) -> (res: NextJobStep)
    ensures
        after_run(sub, job_uuid, job_kind, persist_clock, res),
{
    let (s, n) = sub;
    match n {
        Next::Call(call) => (RunNextJob::Running { sub: s, job_uuid, job_kind, persist_clock }, Next::Call(call)),
        Next::Done(Err(e)) => (RunNextJob::Finished, Next::Done(Err(Error::RunJob((job_uuid, e))))),
        Next::Done(Ok(outcome)) => {
            let result = match outcome {
                RunJobOutcome::Completed => RunNextJobResult::RanJob { job_uuid, job_kind },
                RunJobOutcome::Deferred => RunNextJobResult::Deferred { job_uuid, job_kind },
            };
            if persist_clock {
                (RunNextJob::AwaitingPersist { result }, Next::Call(WorkerCall::PersistActiveClock))
            } else {
                (RunNextJob::Finished, Next::Done(Ok(result)))
            }
        },
    }
}

fn start(random_seed: RandomSeed, current_active_ms: i64, persist_clock: bool) -> (res: NextJobStep)
    ensures
        res.0 == (RunNextJob::AwaitingJob { random_seed, current_active_ms, persist_clock }),
        res.1 == Next::<Result<RunNextJobResult, Error>>::Call(WorkerCall::PopNextJob { current_active_ms }),
{
    (
        RunNextJob::AwaitingJob { random_seed, current_active_ms, persist_clock },
        Next::Call(WorkerCall::PopNextJob { current_active_ms }),
    )
}

/// Starts running the next job due at `current_active_ms`.
pub fn run_next_job(random_seed: RandomSeed, current_active_ms: i64) -> (res: NextJobStep)
    ensures
        res.0 == (RunNextJob::AwaitingJob { random_seed, current_active_ms, persist_clock: false }),
        res.1 == Next::<Result<RunNextJobResult, Error>>::Call(WorkerCall::PopNextJob { current_active_ms }),
{
    start(random_seed, current_active_ms, false)
}

/// Starts running one job due at `current_active_ms`, storing the active
/// clock once it has run.
pub fn run_one_job(random_seed: RandomSeed, current_active_ms: i64) -> (res: NextJobStep)
    ensures
        res.0 == (RunNextJob::AwaitingJob { random_seed, current_active_ms, persist_clock: true }),
        res.1 == Next::<Result<RunNextJobResult, Error>>::Call(WorkerCall::PopNextJob { current_active_ms }),
{
    start(random_seed, current_active_ms, true)
}

impl RunNextJob {
    /// The reply each stage waits for.
    pub open spec fn awaits(self, reply: Reply) -> bool {
        match self {
            RunNextJob::AwaitingJob { .. } => reply is MaybeJob,
            RunNextJob::Running { sub, .. } => sub.awaits(reply),
            RunNextJob::AwaitingPersist { .. } => reply is Unit,
            RunNextJob::Finished => false,
        }
    }

    /// One step of running the next job: with no job due there is nothing to
    /// do; otherwise the job runs.
    pub open spec fn step(self, reply: Reply, res: NextJobStep) -> bool {
        match (self, reply) {
            (RunNextJob::AwaitingJob { random_seed, current_active_ms, persist_clock }, Reply::MaybeJob(r)) => match r {
                Err(e) => res.1 == Next::<Result<RunNextJobResult, Error>>::Done(Err(Error::PopJob(e))),
                Ok(None) => res.1 == Next::<Result<RunNextJobResult, Error>>::Done(Ok(RunNextJobResult::NoJob)),
                Ok(Some(job)) => exists|s: RunJobStep, job_kind: String|
                    #[trigger] job_starts(job, random_seed, current_active_ms, s) && job_kind@ == job_kind_name(job.kind)
                        && #[trigger] after_run(s, job.uuid, job_kind, persist_clock, res),
            },
            (RunNextJob::Running { sub, job_uuid, job_kind, persist_clock }, _) => exists|s: RunJobStep|
                #[trigger] sub.step(reply, s) && after_run(s, job_uuid, job_kind, persist_clock, res),
            (RunNextJob::AwaitingPersist { result }, Reply::Unit(r)) => match r {
                Err(e) => res.1 == Next::<Result<RunNextJobResult, Error>>::Done(Err(Error::ActiveClock(e))),
                Ok(()) => res.1 == Next::<Result<RunNextJobResult, Error>>::Done(Ok(result)),
            },
            _ => false,
        }
    }

    /// Goes on with the reply.
    pub fn resume(self, reply: Reply) -> (res: NextJobStep)
        requires
            self.awaits(reply),
        ensures
            self.step(reply, res),
    {
        match self {
            RunNextJob::AwaitingJob { random_seed, current_active_ms, persist_clock } => match reply {
                Reply::MaybeJob(Ok(Some(job))) => {
                    let ghost job_g = job;
                    let job_uuid = job.uuid;
                    let job_kind = job.kind.to_name();
                    let ghost kind_g = job_kind;
                    let s = run_job(job, random_seed, current_active_ms);
                    let ghost s_g = s;
                    let res = continue_run(s, job_uuid, job_kind, persist_clock);
                    assert(job_starts(job_g, random_seed, current_active_ms, s_g));
                    assert(after_run(s_g, job_g.uuid, kind_g, persist_clock, res));
                    res
                },
                Reply::MaybeJob(Ok(None)) => (RunNextJob::Finished, Next::Done(Ok(RunNextJobResult::NoJob))),
                Reply::MaybeJob(Err(e)) => (RunNextJob::Finished, Next::Done(Err(Error::PopJob(e)))),
                _ => (RunNextJob::Finished, Next::Done(Ok(RunNextJobResult::NoJob))),
            },
            RunNextJob::Running { sub, job_uuid, job_kind, persist_clock } => {
                let ghost sub_g = sub;
                let s = sub.resume(reply);
                let ghost s_g = s;
                let res = continue_run(s, job_uuid, job_kind, persist_clock);
                assert(sub_g.step(reply, s_g));
                res
            },
            RunNextJob::AwaitingPersist { result } => match reply {
                Reply::Unit(Err(e)) => (RunNextJob::Finished, Next::Done(Err(Error::ActiveClock(e)))),
                _ => (RunNextJob::Finished, Next::Done(Ok(result))),
            },
            RunNextJob::Finished => (RunNextJob::Finished, Next::Done(Ok(RunNextJobResult::NoJob))),
        }
    }
}

} // verus!

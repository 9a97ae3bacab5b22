//! A person waiting for something to happen.
use crate::capability::{GetArgs, MessageTypeArgs};
use crate::clock::utc_now_micros;
use crate::domain::event::{event_texts, Event};
use crate::domain::job::effects::{Next, Reply, WorkerCall};
use crate::domain::job::person_action_handler::{
    action_error_text, action_start, handle_person_action, ActionHandleError, HandleAction,
};
use crate::domain::job::task_transition::{TaskTransition, TaskTransitionError};
use crate::domain::memory::{filter_memory_results, kept_memory_contents, memory_contents};
use crate::domain::message::MessageSender;
use crate::domain::person_name::PersonName;
use crate::domain::person_uuid::PersonUuid;
use crate::domain::random_seed::RandomSeed;
use crate::domain::scene_uuid::SceneUuid;
use crate::ident::{uuid_string, uuid_text};
use crate::nice_display::NiceDisplay;
use crate::num::{clamp_i64, max_i64, max_of_i64, saturating_add_i64, saturating_sub_i64};
use crate::person_actions::action_summary;
use crate::text::{decimal_text, string_views, u64_text};
use vstd::prelude::*;
use vstd::string::*;

verus! {

/// A person waiting; `started_at` is in microseconds since the Unix epoch, the
/// other times in milliseconds of active time.
#[derive(Debug, Clone, Copy, PartialEq, Eq, Structural)]
pub struct PersonWaitingJob {
    pub person_uuid: Option<PersonUuid>,
    pub started_at: Option<i64>,
    pub duration_ms: i64,
    pub start_active_ms: i64,
}

/// The active time at which the wait ends.
pub open spec fn waiting_run_at(j: PersonWaitingJob) -> i64 {
    clamp_i64(j.start_active_ms + max_i64(j.duration_ms, 0))
}

impl PersonWaitingJob {
    /// A wait starting now at the given active time; negative numbers count
    /// as zero.
    pub fn new(person_uuid: PersonUuid, duration_ms: i64, start_active_ms: i64) -> (res: Self)
        ensures
            res.person_uuid == Some(person_uuid),
            res.started_at is Some,
            res.duration_ms == max_i64(duration_ms, 0),
            res.start_active_ms == max_i64(start_active_ms, 0),
    {
        PersonWaitingJob {
            person_uuid: Some(person_uuid),
            started_at: Some(utc_now_micros()),
            duration_ms: max_of_i64(duration_ms, 0),
            start_active_ms: max_of_i64(start_active_ms, 0),
        }
    }

    /// The active time at which the wait ends.
    pub fn run_at_active_ms(&self) -> (res: i64)
        ensures
            res == waiting_run_at(*self),
    {
        saturating_add_i64(self.start_active_ms, max_of_i64(self.duration_ms, 0))
    }
}


/// Why a wait job failed.
#[derive(Debug)]
pub enum Error {
    MissingPersonUuid,
    MissingStartedAt,
    FailedToGetHibernationState(String),
    FailedToGetEnabledState(String),
    FailedToGetEvents(String),
    FailedToGetReactionHistory(String),
    FailedToGetStateOfMind(String),
    NoStateOfMindFound { person_uuid: PersonUuid },
    FailedToGetPersonsName(String),
    CouldNotCreateMemoriesPrompt(String),
    FailedToSearchMemories(String),
    GetPersonReaction(String),
    CouldNotGetPersonsScene { person_uuid: PersonUuid, details: String },
    FailedToGetCurrentTask(String),
    TaskOutcomeClassification(String),
    TaskTransition(String),
    Action(ActionHandleError),
}

/// Whether the wait is over.
#[derive(Debug, Clone, Copy, PartialEq, Eq, Structural)]
pub enum WaitDecision {
    FinishedWaiting,
    ContinueWaiting,
}

/// The explanation of a wait error.
pub open spec fn waiting_error_text(e: Error) -> Seq<char> {
    match e {
        Error::MissingPersonUuid => "Missing person uuid on wait job"@,
        Error::MissingStartedAt => "Missing started_at on wait job"@,
        Error::FailedToGetHibernationState(d) => "Failed to get hibernation state: "@ + d@,
        Error::FailedToGetEnabledState(d) => "Failed to get enabled state: "@ + d@,
        Error::FailedToGetEvents(d) => "Failed to get events: "@ + d@,
        Error::FailedToGetReactionHistory(d) => "Failed to get reaction history: "@ + d@,
        Error::FailedToGetStateOfMind(d) => "Failed to get state of mind: "@ + d@,
        Error::NoStateOfMindFound { person_uuid } => "No state of mind found for person "@ + uuid_text(
            person_uuid.0,
        ),
        Error::FailedToGetPersonsName(d) => "Failed to get person's name: "@ + d@,
        Error::CouldNotCreateMemoriesPrompt(d) => "Could not create memories prompt: "@ + d@,
        Error::FailedToSearchMemories(d) => "Failed to search memories: "@ + d@,
        Error::GetPersonReaction(d) => "Failed to get person reaction: "@ + d@,
        Error::CouldNotGetPersonsScene { person_uuid, details } => "Could not get current scene for person "@
            + uuid_text(person_uuid.0) + ": "@ + details@,
        Error::FailedToGetCurrentTask(d) => "Failed to get current task: "@ + d@,
        Error::TaskOutcomeClassification(d) => "Task outcome classification failed: "@ + d@,
        Error::TaskTransition(d) => "Task transition failed: "@ + d@,
        Error::Action(a) => action_error_text(a),
    }
}

fn prefixed(prefix: &str, d: &String) -> (res: String)
    ensures
        res@ == prefix@ + d@,
{
    let mut s = String::from_str(prefix);
    s.append(d.as_str());
    s
}

impl Error {
    /// The explanation of the error.
    pub fn explain(&self) -> (res: String)
        ensures
            res@ == waiting_error_text(*self),
    {
        match self {
            Error::MissingPersonUuid => String::from_str("Missing person uuid on wait job"),
            Error::MissingStartedAt => String::from_str("Missing started_at on wait job"),
            Error::FailedToGetHibernationState(d) => prefixed("Failed to get hibernation state: ", d),
            Error::FailedToGetEnabledState(d) => prefixed("Failed to get enabled state: ", d),
            Error::FailedToGetEvents(d) => prefixed("Failed to get events: ", d),
            Error::FailedToGetReactionHistory(d) => prefixed("Failed to get reaction history: ", d),
            Error::FailedToGetStateOfMind(d) => prefixed("Failed to get state of mind: ", d),
            Error::NoStateOfMindFound { person_uuid } => {
                let u = uuid_string(person_uuid.0);
                prefixed("No state of mind found for person ", &u)
            },
            Error::FailedToGetPersonsName(d) => prefixed("Failed to get person's name: ", d),
            Error::CouldNotCreateMemoriesPrompt(d) => prefixed("Could not create memories prompt: ", d),
            Error::FailedToSearchMemories(d) => prefixed("Failed to search memories: ", d),
            Error::GetPersonReaction(d) => prefixed("Failed to get person reaction: ", d),
            Error::CouldNotGetPersonsScene { person_uuid, details } => {
                let u = uuid_string(person_uuid.0);
                let mut s = prefixed("Could not get current scene for person ", &u);
                s.append(": ");
                s.append(details.as_str());
                s
            },
            Error::FailedToGetCurrentTask(d) => prefixed("Failed to get current task: ", d),
            Error::TaskOutcomeClassification(d) => prefixed("Task outcome classification failed: ", d),
            Error::TaskTransition(d) => prefixed("Task transition failed: ", d),
            Error::Action(a) => a.explain(),
        }
    }
}

impl NiceDisplay for Error {
    open spec fn message_spec(&self) -> Seq<char> {
        waiting_error_text(*self)
    }

    fn message(&self) -> (res: String) {
        let r = self.explain();
        assert(self.message_spec() == waiting_error_text(*self));
        r
    }
}

/// The whole minutes of a wait, zero for a negative duration.
pub open spec fn waited_minutes(duration_ms: i64) -> nat {
    if duration_ms >= 0 {
        (duration_ms / 60000) as nat
    } else {
        0
    }
}

/// The situation of a person whose wait passed without anything happening.
pub open spec fn waiting_situation(person_name: Seq<char>, duration_ms: i64) -> Seq<char> {
    person_name + " decided to wait "@ + decimal_text(waited_minutes(duration_ms))
        + " minutes, and nothing happened. There were no new messages or events. It is okay to do nothing and keep waiting silently."@
}

/// Whether any event happened at or after `since`.
pub open spec fn has_event_since(events: Seq<Event>, since: i64) -> bool {
    exists|i: int| 0 <= i < events.len() && #[trigger] events[i].timestamp >= since
}

/// Where the memories of a wait are searched: the person's scene, or the
/// direct messages from the real-world user.
pub open spec fn waiting_message_type_args(scene_uuid: Option<SceneUuid>) -> MessageTypeArgs {
    match scene_uuid {
        Some(scene_uuid) => MessageTypeArgs::SceneByUuid { scene_uuid },
        None => MessageTypeArgs::Direct { from: MessageSender::RealWorldUser },
    }
}

/// The error of a task update failure.
pub open spec fn task_error(e: TaskTransitionError) -> Error {
    match e {
        TaskTransitionError::FailedToGetCurrentTask(d) => Error::FailedToGetCurrentTask(d),
        TaskTransitionError::TaskOutcomeClassification(d) => Error::TaskOutcomeClassification(d),
        TaskTransitionError::TaskTransition(d) => Error::TaskTransition(d),
    }
}

fn task_error_exec(e: TaskTransitionError) -> (res: Error)
    ensures
        res == task_error(e),
{
    match e {
        TaskTransitionError::FailedToGetCurrentTask(d) => Error::FailedToGetCurrentTask(d),
        TaskTransitionError::TaskOutcomeClassification(d) => Error::TaskOutcomeClassification(d),
        TaskTransitionError::TaskTransition(d) => Error::TaskTransition(d),
    }
}

/// Whether any event happened at or after `since`.
pub fn any_event_since(events: &Vec<Event>, since: i64) -> (res: bool)
    ensures
        res == has_event_since(events@, since),
{
    let mut i: usize = 0;
    while i < events.len()
        invariant
            i <= events.len(),
            forall|j: int| 0 <= j < i ==> #[trigger] events@[j].timestamp < since,
        decreases events.len() - i,
    {
        if events[i].timestamp >= since {
            return true;
        }
        i = i + 1;
    }
    false
}

/// The prompt lines of the events, in order.
pub fn event_lines(events: &Vec<Event>) -> (res: Vec<String>)
    ensures
        string_views(res@) == event_texts(events@),
{
    let mut res: Vec<String> = Vec::new();
    let mut i: usize = 0;
    while i < events.len()
        invariant
            i <= events.len(),
            string_views(res@) == event_texts(events@.take(i as int)),
        decreases events.len() - i,
    {
        let line = events[i].to_text();
        let ghost before = res@;
        res.push(line);
        proof {
            assert(string_views(res@) =~= string_views(before).push(line@));
            assert(event_texts(events@.take(i + 1)) =~= event_texts(events@.take(i as int)).push(
                event_texts(events@)[i as int],
            ));
        }
        i = i + 1;
    }
    proof {
        assert(events@.take(events.len() as int) =~= events@);
    }
    res
}

/// What a wait job knows throughout its run.
#[derive(Debug, Clone, Copy)]
pub struct WaitContext {
    pub person_uuid: PersonUuid,
    pub started_at: i64,
    pub duration_ms: i64,
    pub start_active_ms: i64,
    pub random_seed: RandomSeed,
    pub current_active_ms: i64,
}

/// Where a wait job stands.
#[derive(Debug)]
pub enum Waiting {
    AwaitingHibernation { ctx: WaitContext },
    AwaitingEnabled { ctx: WaitContext },
    AwaitingEvents { ctx: WaitContext },
    AwaitingReacted { ctx: WaitContext, recent_events: Vec<String> },
    AwaitingName { ctx: WaitContext, recent_events: Vec<String> },
    AwaitingScene { ctx: WaitContext, recent_events: Vec<String>, person_name: PersonName },
    AwaitingStateOfMind {
        ctx: WaitContext,
        recent_events: Vec<String>,
        person_name: PersonName,
        message_type_args: MessageTypeArgs,
    },
    AwaitingPrompt { ctx: WaitContext, state_of_mind: String, situation: String },
    AwaitingMemories { ctx: WaitContext, state_of_mind: String, situation: String },
    AwaitingReaction { ctx: WaitContext, situation: String },
    Acting { act: HandleAction, person_uuid: PersonUuid, situation: String, action_summary: String },
    Updating { update: TaskTransition },
    Finished,
}

/// The result type of a step of a wait.
pub type WaitStep = (Waiting, Next<Result<WaitDecision, Error>>);

/// What follows a step of the chosen action.
pub open spec fn after_act(
    sub: (HandleAction, Next<Result<(), ActionHandleError>>),
    person_uuid: PersonUuid,
    situation: String,
    summary: String,
    res: WaitStep,
) -> bool {
    match sub.1 {
        Next::Call(call) => {
            &&& res.0 == (Waiting::Acting { act: sub.0, person_uuid, situation, action_summary: summary })
            &&& res.1 == Next::<Result<WaitDecision, Error>>::Call(call)
        },
        Next::Done(Err(e)) => res.1 == Next::<Result<WaitDecision, Error>>::Done(Err(Error::Action(e))),
        Next::Done(Ok(())) => {
            &&& res.0 == (Waiting::Updating {
                update: TaskTransition::AwaitingTask { person_uuid, situation, action_summary: Some(summary) },
            })
            &&& res.1 == Next::<Result<WaitDecision, Error>>::Call(WorkerCall::GetPersonsCurrentActiveTask { person_uuid })
        },
    }
}

/// What follows a step of the task update.
pub open spec fn after_update(sub: (TaskTransition, Next<Result<(), TaskTransitionError>>), res: WaitStep) -> bool {
    match sub.1 {
        Next::Call(call) => {
            &&& res.0 == (Waiting::Updating { update: sub.0 })
            &&& res.1 == Next::<Result<WaitDecision, Error>>::Call(call)
        },
        Next::Done(Err(e)) => res.1 == Next::<Result<WaitDecision, Error>>::Done(Err(task_error(e))),
        Next::Done(Ok(())) => res.1 == Next::<Result<WaitDecision, Error>>::Done(Ok(WaitDecision::FinishedWaiting)),
    }
}

impl PersonWaitingJob {
    /// How a wait job begins: a job without a person or a start time fails;
    /// otherwise it asks whether the person hibernates.
    pub open spec fn run_spec(self, random_seed: RandomSeed, current_active_ms: i64, res: WaitStep) -> bool {
        match (self.person_uuid, self.started_at) {
            (None, _) => res.1 == Next::<Result<WaitDecision, Error>>::Done(Err(Error::MissingPersonUuid)),
            (Some(_), None) => res.1 == Next::<Result<WaitDecision, Error>>::Done(Err(Error::MissingStartedAt)),
            (Some(person_uuid), Some(started_at)) => {
                &&& res.0 == (Waiting::AwaitingHibernation {
                    ctx: WaitContext {
                        person_uuid,
                        started_at,
                        duration_ms: self.duration_ms,
                        start_active_ms: self.start_active_ms,
                        random_seed,
                        current_active_ms,
                    },
                })
                &&& res.1 == Next::<Result<WaitDecision, Error>>::Call(WorkerCall::IsPersonHibernating { person_uuid })
            },
        }
    }

    /// Runs the job. A hibernating or disabled person stops waiting. Before
    /// the duration has passed the person goes on waiting. After it, any event
    /// or reaction since the start ends the wait; otherwise the person is asked
    /// to react to a quiet situation, with the memories its description
    /// recalls, the chosen action is carried out, and the person's current
    /// task is brought up to date.
    pub fn run(&self, random_seed: RandomSeed, current_active_ms: i64) -> (res: WaitStep)
        ensures
            self.run_spec(random_seed, current_active_ms, res),
    {
        match (self.person_uuid, self.started_at) {
            (None, _) => (Waiting::Finished, Next::Done(Err(Error::MissingPersonUuid))),
            (Some(_), None) => (Waiting::Finished, Next::Done(Err(Error::MissingStartedAt))),
            (Some(person_uuid), Some(started_at)) => (
                Waiting::AwaitingHibernation {
                    ctx: WaitContext {
                        person_uuid,
                        started_at,
                        duration_ms: self.duration_ms,
                        start_active_ms: self.start_active_ms,
                        random_seed,
                        current_active_ms,
                    },
                },
                Next::Call(WorkerCall::IsPersonHibernating { person_uuid }),
            ),
        }
    }
}

impl Waiting {
    /// The reply each stage waits for.
    pub open spec fn awaits(self, reply: Reply) -> bool {
        match self {
            Waiting::AwaitingHibernation { .. } => reply is Flag,
            Waiting::AwaitingEnabled { .. } => reply is Flag,
            Waiting::AwaitingEvents { .. } => reply is Events,
            Waiting::AwaitingReacted { .. } => reply is Flag,
            Waiting::AwaitingName { .. } => reply is Name,
            Waiting::AwaitingScene { .. } => reply is CurrentScene,
            Waiting::AwaitingStateOfMind { .. } => reply is StateOfMind,
            Waiting::AwaitingPrompt { .. } => reply is Prompt,
            Waiting::AwaitingMemories { .. } => reply is Memories,
            Waiting::AwaitingReaction { .. } => reply is Reaction,
            Waiting::Acting { act, .. } => act.awaits(reply),
            Waiting::Updating { update } => update.awaits(reply),
            Waiting::Finished => false,
        }
    }

    /// One step of a wait job: what follows each reply.
    pub open spec fn step(self, reply: Reply, res: WaitStep) -> bool {
        match (self, reply) {
            (Waiting::AwaitingHibernation { ctx }, Reply::Flag(r)) => match r {
                Err(e) => res.1 == Next::<Result<WaitDecision, Error>>::Done(Err(Error::FailedToGetHibernationState(e))),
                Ok(true) => res.1 == Next::<Result<WaitDecision, Error>>::Done(Ok(WaitDecision::FinishedWaiting)),
                Ok(false) => {
                    &&& res.0 == (Waiting::AwaitingEnabled { ctx })
                    &&& res.1 == Next::<Result<WaitDecision, Error>>::Call(WorkerCall::IsPersonEnabled { person_uuid: ctx.person_uuid })
                },
            },
            (Waiting::AwaitingEnabled { ctx }, Reply::Flag(r)) => match r {
                Err(e) => res.1 == Next::<Result<WaitDecision, Error>>::Done(Err(Error::FailedToGetEnabledState(e))),
                Ok(false) => res.1 == Next::<Result<WaitDecision, Error>>::Done(Ok(WaitDecision::FinishedWaiting)),
                Ok(true) => if clamp_i64(ctx.current_active_ms - ctx.start_active_ms) >= ctx.duration_ms {
                    &&& res.0 == (Waiting::AwaitingEvents { ctx })
                    &&& res.1 == Next::<Result<WaitDecision, Error>>::Call(
                        WorkerCall::GetEvents { args: GetArgs { person_uuid: Some(ctx.person_uuid), scene_uuid: None } },
                    )
                } else {
                    res.1 == Next::<Result<WaitDecision, Error>>::Done(Ok(WaitDecision::ContinueWaiting))
                },
            },
            (Waiting::AwaitingEvents { ctx }, Reply::Events(r)) => match r {
                Err(e) => res.1 == Next::<Result<WaitDecision, Error>>::Done(Err(Error::FailedToGetEvents(e))),
                Ok(events) => if has_event_since(events@, ctx.started_at) {
                    res.1 == Next::<Result<WaitDecision, Error>>::Done(Ok(WaitDecision::FinishedWaiting))
                } else {
                    &&& match res.0 {
                        Waiting::AwaitingReacted { ctx: c, recent_events } => c == ctx && string_views(recent_events@)
                            == event_texts(events@),
                        _ => false,
                    }
                    &&& res.1 == Next::<Result<WaitDecision, Error>>::Call(
                        WorkerCall::HasReactedSince { person_uuid: ctx.person_uuid, since: ctx.started_at },
                    )
                },
            },
            (Waiting::AwaitingReacted { ctx, recent_events }, Reply::Flag(r)) => match r {
                Err(e) => res.1 == Next::<Result<WaitDecision, Error>>::Done(Err(Error::FailedToGetReactionHistory(e))),
                Ok(true) => res.1 == Next::<Result<WaitDecision, Error>>::Done(Ok(WaitDecision::FinishedWaiting)),
                Ok(false) => {
                    &&& res.0 == (Waiting::AwaitingName { ctx, recent_events })
                    &&& res.1 == Next::<Result<WaitDecision, Error>>::Call(WorkerCall::GetPersonsName { person_uuid: ctx.person_uuid })
                },
            },
            (Waiting::AwaitingName { ctx, recent_events }, Reply::Name(r)) => match r {
                Err(e) => res.1 == Next::<Result<WaitDecision, Error>>::Done(Err(Error::FailedToGetPersonsName(e))),
                Ok(person_name) => {
                    &&& res.0 == (Waiting::AwaitingScene { ctx, recent_events, person_name })
                    &&& res.1 == Next::<Result<WaitDecision, Error>>::Call(
                        WorkerCall::GetPersonsCurrentSceneUuid { person_uuid: ctx.person_uuid },
                    )
                },
            },
            (Waiting::AwaitingScene { ctx, recent_events, person_name }, Reply::CurrentScene(r)) => match r {
                Err(e) => res.1 == Next::<Result<WaitDecision, Error>>::Done(
                    Err(Error::CouldNotGetPersonsScene { person_uuid: ctx.person_uuid, details: e }),
                ),
                Ok(scene_uuid) => {
                    &&& res.0 == (Waiting::AwaitingStateOfMind {
                        ctx,
                        recent_events,
                        person_name,
                        message_type_args: waiting_message_type_args(scene_uuid),
                    })
                    &&& res.1 == Next::<Result<WaitDecision, Error>>::Call(
                        WorkerCall::GetLatestStateOfMind { person_uuid: ctx.person_uuid },
                    )
                },
            },
            (Waiting::AwaitingStateOfMind { ctx, recent_events, person_name, message_type_args }, Reply::StateOfMind(r)) => match r {
                Err(e) => res.1 == Next::<Result<WaitDecision, Error>>::Done(Err(Error::FailedToGetStateOfMind(e))),
                Ok(None) => res.1 == Next::<Result<WaitDecision, Error>>::Done(
                    Err(Error::NoStateOfMindFound { person_uuid: ctx.person_uuid }),
                ),
                Ok(Some(som)) => {
                    &&& match res.0 {
                        Waiting::AwaitingPrompt { ctx: c, state_of_mind, situation } => c == ctx
                            && state_of_mind == som.content
                            && situation@ == waiting_situation(person_name.0@, ctx.duration_ms),
                        _ => false,
                    }
                    &&& match res.1 {
                        Next::Call(WorkerCall::CreateMemoryQueryPrompt {
                            person_name: n,
                            message_type_args: m,
                            recent_events: ev,
                            state_of_mind,
                            situation,
                        }) => n == person_name && m == message_type_args && ev == recent_events
                            && state_of_mind@ == som.content@
                            && situation@ == waiting_situation(person_name.0@, ctx.duration_ms),
                        _ => false,
                    }
                },
            },
            (Waiting::AwaitingPrompt { ctx, state_of_mind, situation }, Reply::Prompt(r)) => match r {
                Err(e) => res.1 == Next::<Result<WaitDecision, Error>>::Done(Err(Error::CouldNotCreateMemoriesPrompt(e))),
                Ok(prompt) => {
                    &&& res.0 == (Waiting::AwaitingMemories { ctx, state_of_mind, situation })
                    &&& res.1 == Next::<Result<WaitDecision, Error>>::Call(
                        WorkerCall::SearchMemories { person_uuid: ctx.person_uuid, query: prompt.prompt, limit: 5 },
                    )
                },
            },
            (Waiting::AwaitingMemories { ctx, state_of_mind, situation }, Reply::Memories(r)) => match r {
                Err(e) => res.1 == Next::<Result<WaitDecision, Error>>::Done(Err(Error::FailedToSearchMemories(e))),
                Ok(results) => {
                    &&& match res.0 {
                        Waiting::AwaitingReaction { ctx: c, situation: s } => c == ctx && s == situation,
                        _ => false,
                    }
                    &&& match res.1 {
                        Next::Call(WorkerCall::GetReaction { memories, person_uuid, state_of_mind: som, situation: s }) =>
                            memory_contents(memories@) == kept_memory_contents(results@) && person_uuid
                                == ctx.person_uuid && som == state_of_mind && s@ == situation@,
                        _ => false,
                    }
                },
            },
            (Waiting::AwaitingReaction { ctx, situation }, Reply::Reaction(r)) => match r {
                Err(e) => res.1 == Next::<Result<WaitDecision, Error>>::Done(Err(Error::GetPersonReaction(e))),
                Ok(reaction) => match (res.0, res.1) {
                    (Waiting::Acting { act, person_uuid, situation: s, action_summary: summary }, Next::Call(call)) =>
                        person_uuid == ctx.person_uuid && s == situation && summary@ == action_summary(reaction.action@)
                            && action_start(reaction.action, ctx.person_uuid, ctx.random_seed, ctx.current_active_ms, (act, call)),
                    _ => false,
                },
            },
            (Waiting::Acting { act, person_uuid, situation, action_summary }, _) =>
                exists|sub: (HandleAction, Next<Result<(), ActionHandleError>>)|
                    #[trigger] act.step(reply, sub) && after_act(sub, person_uuid, situation, action_summary, res),
            (Waiting::Updating { update }, _) =>
                exists|sub: (TaskTransition, Next<Result<(), TaskTransitionError>>)|
                    #[trigger] update.step(reply, sub) && after_update(sub, res),
            _ => false,
        }
    }
}


fn minutes_of(duration_ms: i64) -> (res: u64)
    ensures
        res == waited_minutes(duration_ms),
{
    if duration_ms >= 0 {
        (duration_ms / 60000) as u64
    } else {
        0
    }
}

/// The situation of a person whose wait passed without anything happening.
pub fn waiting_situation_text(person_name: &PersonName, duration_ms: i64) -> (res: String)
    ensures
        res@ == waiting_situation(person_name.0@, duration_ms),
{
    let mut s = String::from_str(person_name.as_str());
    s.append(" decided to wait ");
    let m = u64_text(minutes_of(duration_ms));
    s.append(m.as_str());
    s.append(
        " minutes, and nothing happened. There were no new messages or events. It is okay to do nothing and keep waiting silently.",
    );
    s
}

impl Waiting {
    /// Goes on with the reply.
    pub fn resume(self, reply: Reply) -> (res: WaitStep)
        requires
            self.awaits(reply),
        ensures
            self.step(reply, res),
    {
        match self {
            Waiting::AwaitingHibernation { ctx } => match reply {
                Reply::Flag(Err(e)) => (Waiting::Finished, Next::Done(Err(Error::FailedToGetHibernationState(e)))),
                Reply::Flag(Ok(true)) => (Waiting::Finished, Next::Done(Ok(WaitDecision::FinishedWaiting))),
                _ => (
                    Waiting::AwaitingEnabled { ctx },
                    Next::Call(WorkerCall::IsPersonEnabled { person_uuid: ctx.person_uuid }),
                ),
            },
            Waiting::AwaitingEnabled { ctx } => match reply {
                Reply::Flag(Err(e)) => (Waiting::Finished, Next::Done(Err(Error::FailedToGetEnabledState(e)))),
                Reply::Flag(Ok(false)) => (Waiting::Finished, Next::Done(Ok(WaitDecision::FinishedWaiting))),
                _ => {
                    let elapsed = saturating_sub_i64(ctx.current_active_ms, ctx.start_active_ms);
                    if elapsed >= ctx.duration_ms {
                        let args = GetArgs::new().with_person_uuid(ctx.person_uuid);
                        (Waiting::AwaitingEvents { ctx }, Next::Call(WorkerCall::GetEvents { args }))
                    } else {
                        (Waiting::Finished, Next::Done(Ok(WaitDecision::ContinueWaiting)))
                    }
                },
            },
            Waiting::AwaitingEvents { ctx } => match reply {
                Reply::Events(Ok(events)) => {
                    if any_event_since(&events, ctx.started_at) {
                        (Waiting::Finished, Next::Done(Ok(WaitDecision::FinishedWaiting)))
                    } else {
                        let recent_events = event_lines(&events);
                        (
                            Waiting::AwaitingReacted { ctx, recent_events },
                            Next::Call(WorkerCall::HasReactedSince { person_uuid: ctx.person_uuid, since: ctx.started_at }),
                        )
                    }
                },
                Reply::Events(Err(e)) => (Waiting::Finished, Next::Done(Err(Error::FailedToGetEvents(e)))),
                _ => (Waiting::Finished, Next::Done(Ok(WaitDecision::FinishedWaiting))),
            },
            Waiting::AwaitingReacted { ctx, recent_events } => match reply {
                Reply::Flag(Err(e)) => (Waiting::Finished, Next::Done(Err(Error::FailedToGetReactionHistory(e)))),
                Reply::Flag(Ok(true)) => (Waiting::Finished, Next::Done(Ok(WaitDecision::FinishedWaiting))),
                _ => (
                    Waiting::AwaitingName { ctx, recent_events },
                    Next::Call(WorkerCall::GetPersonsName { person_uuid: ctx.person_uuid }),
                ),
            },
            Waiting::AwaitingName { ctx, recent_events } => match reply {
                Reply::Name(Ok(person_name)) => (
                    Waiting::AwaitingScene { ctx, recent_events, person_name },
                    Next::Call(WorkerCall::GetPersonsCurrentSceneUuid { person_uuid: ctx.person_uuid }),
                ),
                Reply::Name(Err(e)) => (Waiting::Finished, Next::Done(Err(Error::FailedToGetPersonsName(e)))),
                _ => (Waiting::Finished, Next::Done(Ok(WaitDecision::FinishedWaiting))),
            },
            Waiting::AwaitingScene { ctx, recent_events, person_name } => match reply {
                Reply::CurrentScene(Ok(scene_uuid)) => {
                    let message_type_args = match scene_uuid {
                        Some(scene_uuid) => MessageTypeArgs::SceneByUuid { scene_uuid },
                        None => MessageTypeArgs::Direct { from: MessageSender::RealWorldUser },
                    };
                    (
                        Waiting::AwaitingStateOfMind { ctx, recent_events, person_name, message_type_args },
                        Next::Call(WorkerCall::GetLatestStateOfMind { person_uuid: ctx.person_uuid }),
                    )
                },
                Reply::CurrentScene(Err(e)) => (
                    Waiting::Finished,
                    Next::Done(Err(Error::CouldNotGetPersonsScene { person_uuid: ctx.person_uuid, details: e })),
                ),
                _ => (Waiting::Finished, Next::Done(Ok(WaitDecision::FinishedWaiting))),
            },
            Waiting::AwaitingStateOfMind { ctx, recent_events, person_name, message_type_args } => match reply {
                Reply::StateOfMind(Ok(Some(som))) => {
                    let situation = waiting_situation_text(&person_name, ctx.duration_ms);
                    let situation_for_prompt = String::from_str(situation.as_str());
                    let state_of_mind = som.content;
                    let state_for_prompt = String::from_str(state_of_mind.as_str());
                    proof {
                        assert(state_for_prompt@ == state_of_mind@);
                    }
                    (
                        Waiting::AwaitingPrompt { ctx, state_of_mind, situation },
                        Next::Call(
                            WorkerCall::CreateMemoryQueryPrompt {
                                person_name,
                                message_type_args,
                                recent_events,
                                state_of_mind: state_for_prompt,
                                situation: situation_for_prompt,
                            },
                        ),
                    )
                },
                Reply::StateOfMind(Ok(None)) => (
                    Waiting::Finished,
                    Next::Done(Err(Error::NoStateOfMindFound { person_uuid: ctx.person_uuid })),
                ),
                Reply::StateOfMind(Err(e)) => (Waiting::Finished, Next::Done(Err(Error::FailedToGetStateOfMind(e)))),
                _ => (Waiting::Finished, Next::Done(Ok(WaitDecision::FinishedWaiting))),
            },
            Waiting::AwaitingPrompt { ctx, state_of_mind, situation } => match reply {
                Reply::Prompt(Ok(prompt)) => (
                    Waiting::AwaitingMemories { ctx, state_of_mind, situation },
                    Next::Call(WorkerCall::SearchMemories { person_uuid: ctx.person_uuid, query: prompt.prompt, limit: 5 }),
                ),
                Reply::Prompt(Err(e)) => (Waiting::Finished, Next::Done(Err(Error::CouldNotCreateMemoriesPrompt(e)))),
                _ => (Waiting::Finished, Next::Done(Ok(WaitDecision::FinishedWaiting))),
            },
            Waiting::AwaitingMemories { ctx, state_of_mind, situation } => match reply {
                Reply::Memories(Ok(results)) => {
                    let memories = filter_memory_results(results);
                    let situation_for_reaction = situation.clone();
                    (
                        Waiting::AwaitingReaction { ctx, situation },
                        Next::Call(
                            WorkerCall::GetReaction {
                                memories,
                                person_uuid: ctx.person_uuid,
                                state_of_mind,
                                situation: situation_for_reaction,
                            },
                        ),
                    )
                },
                Reply::Memories(Err(e)) => (Waiting::Finished, Next::Done(Err(Error::FailedToSearchMemories(e)))),
                _ => (Waiting::Finished, Next::Done(Ok(WaitDecision::FinishedWaiting))),
            },
            Waiting::AwaitingReaction { ctx, situation } => match reply {
                Reply::Reaction(Ok(reaction)) => {
                    let summary = reaction.action.summarize();
                    let (act, call) = handle_person_action(
                        reaction.action,
                        ctx.person_uuid,
                        ctx.random_seed,
                        ctx.current_active_ms,
                    );
                    (
                        Waiting::Acting { act, person_uuid: ctx.person_uuid, situation, action_summary: summary },
                        Next::Call(call),
                    )
                },
                Reply::Reaction(Err(e)) => (Waiting::Finished, Next::Done(Err(Error::GetPersonReaction(e)))),
                _ => (Waiting::Finished, Next::Done(Ok(WaitDecision::FinishedWaiting))),
            },
            Waiting::Acting { act, person_uuid, situation, action_summary } => {
                let ghost act_g = act;
                let sub = act.resume(reply);
                let ghost sub_g = sub;
                assert(act_g.step(reply, sub_g));
                let (a2, n) = sub;
                match n {
                    Next::Call(call) => (
                        Waiting::Acting { act: a2, person_uuid, situation, action_summary },
                        Next::Call(call),
                    ),
                    Next::Done(Err(e)) => (Waiting::Finished, Next::Done(Err(Error::Action(e)))),
                    Next::Done(Ok(())) => {
                        let (update, call) = TaskTransition::start(person_uuid, situation, Some(action_summary));
                        (Waiting::Updating { update }, Next::Call(call))
                    },
                }
            },
            Waiting::Updating { update } => {
                let ghost update_g = update;
                let sub = update.resume(reply);
                let ghost sub_g = sub;
                assert(update_g.step(reply, sub_g));
                let (u2, n) = sub;
                match n {
                    Next::Call(call) => (Waiting::Updating { update: u2 }, Next::Call(call)),
                    Next::Done(Err(e)) => (Waiting::Finished, Next::Done(Err(task_error_exec(e)))),
                    Next::Done(Ok(())) => (Waiting::Finished, Next::Done(Ok(WaitDecision::FinishedWaiting))),
                }
            },
            Waiting::Finished => (Waiting::Finished, Next::Done(Ok(WaitDecision::FinishedWaiting))),
        }
    }
}

} // verus!

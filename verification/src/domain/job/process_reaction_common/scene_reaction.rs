//! Running a reaction from start to end, and previewing its prompts.
use crate::capability::{GetArgs, ReactionPromptPreview};
use crate::domain::event::{events_prompt_list, Event};
use crate::domain::job::effects::{Next, Reply, WorkerCall};
use crate::domain::job::person_action_handler::{action_start, handle_person_action, ActionHandleError, HandleAction};
use crate::domain::job::process_reaction_common::reaction_input::{
    situation_context, InputContext, ReactionExecutionInput, ReactionInputBuild, ReactionInputStep,
};
use crate::domain::job::process_reaction_common::reflection_changes::{changes_from, ApplyChanges, ChangesStep};
use crate::domain::job::process_reaction_common::scene_situation::SceneSituation;
use crate::domain::job::process_reaction_common::{
    memory_description, memory_description_text, reflection_situation, reflection_situation_text, Error,
    SceneReactionTrigger,
};
use crate::domain::job::task_transition::{TaskTransition, TaskTransitionError};
use crate::domain::memory::copy_memories;
use crate::domain::message::{copy_messages, Message};
use crate::domain::message_uuid::MessageUuid;
use crate::domain::person_uuid::PersonUuid;
use crate::domain::random_seed::RandomSeed;
use crate::domain::scene_uuid::SceneUuid;
use crate::domain::situation::opt_view;
use crate::person_actions::{action_summary, ReflectionDecision};
use vstd::prelude::*;

verus! {

/// Who reacts, where, why, and with what randomness and time.
#[derive(Debug, Clone, Copy)]
pub struct ReactionContext {
    pub person_uuid: PersonUuid,
    pub scene_uuid: SceneUuid,
    pub trigger: SceneReactionTrigger,
    pub random_seed: RandomSeed,
    pub current_active_ms: i64,
}

/// The identifiers of the messages, in order.
pub open spec fn message_ids(ms: Seq<Message>) -> Seq<MessageUuid> {
    ms.map_values(|m: Message| m.uuid)
}

/// The identifiers of the messages, in order.
pub fn message_ids_of(ms: &Vec<Message>) -> (res: Vec<MessageUuid>)
    ensures
        res@ == message_ids(ms@),
{
    let mut res: Vec<MessageUuid> = Vec::new();
    let mut i: usize = 0;
    while i < ms.len()
        invariant
            i <= ms.len(),
            res@ == message_ids(ms@.take(i as int)),
        decreases ms.len() - i,
    {
        res.push(ms[i].uuid);
        proof {
            assert(message_ids(ms@.take(i + 1)) =~= message_ids(ms@.take(i as int)).push(ms@[i as int].uuid));
        }
        i = i + 1;
    }
    proof {
        assert(ms@.take(ms.len() as int) =~= ms@);
    }
    res
}

/// The context in which the reaction is prepared.
pub open spec fn input_context(ctx: ReactionContext) -> InputContext {
    InputContext { person_uuid: ctx.person_uuid, scene_uuid: ctx.scene_uuid, trigger: ctx.trigger }
}

/// The error of a task update failure.
pub open spec fn reaction_task_error(e: TaskTransitionError) -> Error {
    match e {
        TaskTransitionError::FailedToGetCurrentTask(d) => Error::FailedToGetCurrentTask(d),
        TaskTransitionError::TaskOutcomeClassification(d) => Error::TaskOutcomeClassification(d),
        TaskTransitionError::TaskTransition(d) => Error::TaskTransition(d),
    }
}

fn task_error_of(e: TaskTransitionError) -> (res: Error)
    ensures
        res == reaction_task_error(e),
{
    match e {
        TaskTransitionError::FailedToGetCurrentTask(d) => Error::FailedToGetCurrentTask(d),
        TaskTransitionError::TaskOutcomeClassification(d) => Error::TaskOutcomeClassification(d),
        TaskTransitionError::TaskTransition(d) => Error::TaskTransition(d),
    }
}

/// Where a reaction stands.
#[derive(Debug)]
pub enum SceneReaction {
    AwaitingPending { ctx: ReactionContext },
    AwaitingEnabled { ctx: ReactionContext, pending: Vec<Message> },
    AwaitingHibernation { ctx: ReactionContext, pending: Vec<Message> },
    AwaitingSkipMarked { ctx: ReactionContext },
    Preparing { sub: ReactionInputBuild, ctx: ReactionContext, pending: Vec<Message> },
    AwaitingReaction { ctx: ReactionContext, pending: Vec<Message>, input: ReactionExecutionInput },
    Acting {
        sub: HandleAction,
        ctx: ReactionContext,
        pending: Vec<Message>,
        input: ReactionExecutionInput,
        summary: String,
        reflection: ReflectionDecision,
    },
    Updating {
        sub: TaskTransition,
        ctx: ReactionContext,
        pending: Vec<Message>,
        input: ReactionExecutionInput,
        summary: String,
        reflection: ReflectionDecision,
    },
    AwaitingReflectionEvents { ctx: ReactionContext, pending: Vec<Message>, input: ReactionExecutionInput, summary: String },
    AwaitingChanges { ctx: ReactionContext, pending: Vec<Message>, input: ReactionExecutionInput, summary: String },
    Applying {
        sub: ApplyChanges,
        ctx: ReactionContext,
        pending: Vec<Message>,
        input: ReactionExecutionInput,
        summary: String,
    },
    AwaitingMemories { ctx: ReactionContext, pending: Vec<Message> },
    AwaitingHandled { ctx: ReactionContext },
    Finished,
}

/// The result type of a step of a reaction.
pub type ReactionStep = (SceneReaction, Next<Result<(), Error>>);

/// A person who does not react: the pending messages, if any, are marked
/// handled; otherwise the reaction ends.
pub open spec fn skips(ctx: ReactionContext, pending: Seq<Message>, res: ReactionStep) -> bool {
    if pending.len() > 0 {
        &&& res.0 == (SceneReaction::AwaitingSkipMarked { ctx })
        &&& match res.1 {
            Next::Call(WorkerCall::MarkSceneMessagesHandled { person_uuid, message_uuids }) => person_uuid
                == ctx.person_uuid && message_uuids@ == message_ids(pending),
            _ => false,
        }
    } else {
        res.1 == Next::<Result<(), Error>>::Done(Ok(()))
    }
}

/// Preparing the reaction begins.
pub open spec fn prepares(ctx: ReactionContext, pending: Vec<Message>, res: ReactionStep) -> bool {
    &&& match res.0 {
        SceneReaction::Preparing { sub, ctx: c, pending: p } => c == ctx && p == pending && match sub {
            ReactionInputBuild::Situating { sub: s, ctx: ic, pending: ip } => ic == input_context(ctx) && ip@
                == pending@ && match s {
                SceneSituation::AwaitingName { ctx: sc, messages } => sc == situation_context(ic) && messages@
                    == pending@,
                _ => false,
            },
            _ => false,
        },
        _ => false,
    }
    &&& res.1 == Next::<Result<(), Error>>::Call(WorkerCall::GetPersonsName { person_uuid: ctx.person_uuid })
}

/// The memory of the reaction is asked to be made from its description.
pub open spec fn describes(
    ctx: ReactionContext,
    pending: Vec<Message>,
    input: ReactionExecutionInput,
    summary: String,
    res: ReactionStep,
) -> bool {
    &&& res.0 == (SceneReaction::AwaitingMemories { ctx, pending })
    &&& match res.1 {
        Next::Call(WorkerCall::MaybeCreateMemoriesFromDescription { person_uuid, description }) => person_uuid
            == ctx.person_uuid && description@ == memory_description_text(
            input.situation.text_spec(),
            opt_view(input.description_prefix),
            summary@,
        ),
        _ => false,
    }
}

/// What follows a step of preparing the reaction.
pub open spec fn after_prepare(sub: ReactionInputStep, ctx: ReactionContext, pending: Vec<Message>, res: ReactionStep) -> bool {
    match sub.1 {
        Next::Call(call) => {
            &&& res.0 == (SceneReaction::Preparing { sub: sub.0, ctx, pending })
            &&& res.1 == Next::<Result<(), Error>>::Call(call)
        },
        Next::Done(Err(e)) => res.1 == Next::<Result<(), Error>>::Done(Err(e)),
        Next::Done(Ok(input)) => {
            &&& match res.0 {
                SceneReaction::AwaitingReaction { ctx: c, pending: p, input: i } => c == ctx && p == pending && i == input,
                _ => false,
            }
            &&& match res.1 {
                Next::Call(WorkerCall::GetReaction { memories, person_uuid, state_of_mind, situation }) => memories@
                    == input.reflection_input.memories@ && person_uuid == ctx.person_uuid && state_of_mind@
                    == input.reflection_input.state_of_mind@ && situation@ == input.reaction_situation@,
                _ => false,
            }
        },
    }
}

/// What follows a step of the chosen action.
pub open spec fn after_act(
    sub: (HandleAction, Next<Result<(), ActionHandleError>>),
    ctx: ReactionContext,
    pending: Vec<Message>,
    input: ReactionExecutionInput,
    summary: String,
    reflection: ReflectionDecision,
    res: ReactionStep,
) -> bool {
    match sub.1 {
        Next::Call(call) => {
            &&& res.0 == (SceneReaction::Acting { sub: sub.0, ctx, pending, input, summary, reflection })
            &&& res.1 == Next::<Result<(), Error>>::Call(call)
        },
        Next::Done(Err(e)) => res.1 == Next::<Result<(), Error>>::Done(Err(Error::Action(e))),
        Next::Done(Ok(())) => {
            &&& match res.0 {
                SceneReaction::Updating { sub: s, ctx: c, pending: p, input: i, summary: m, reflection: r } => c == ctx
                    && p == pending && i == input && m == summary && r == reflection && match s {
                    TaskTransition::AwaitingTask { person_uuid, situation, action_summary } => person_uuid
                        == ctx.person_uuid && situation@ == input.situation.text_spec() && match action_summary {
                        Some(a) => a@ == summary@,
                        None => false,
                    },
                    _ => false,
                },
                _ => false,
            }
            &&& res.1 == Next::<Result<(), Error>>::Call(WorkerCall::GetPersonsCurrentActiveTask { person_uuid: ctx.person_uuid })
        },
    }
}

/// What follows a step of bringing the person's task up to date.
pub open spec fn after_update(
    sub: (TaskTransition, Next<Result<(), TaskTransitionError>>),
    ctx: ReactionContext,
    pending: Vec<Message>,
    input: ReactionExecutionInput,
    summary: String,
    reflection: ReflectionDecision,
    res: ReactionStep,
) -> bool {
    match sub.1 {
        Next::Call(call) => {
            &&& res.0 == (SceneReaction::Updating { sub: sub.0, ctx, pending, input, summary, reflection })
            &&& res.1 == Next::<Result<(), Error>>::Call(call)
        },
        Next::Done(Err(e)) => res.1 == Next::<Result<(), Error>>::Done(Err(reaction_task_error(e))),
        Next::Done(Ok(())) => match reflection {
            ReflectionDecision::Reflection => {
                &&& res.0 == (SceneReaction::AwaitingReflectionEvents { ctx, pending, input, summary })
                &&& res.1 == Next::<Result<(), Error>>::Call(
                    WorkerCall::GetEvents { args: GetArgs { person_uuid: Some(ctx.person_uuid), scene_uuid: None } },
                )
            },
            ReflectionDecision::NoReflection => describes(ctx, pending, input, summary, res),
        },
    }
}

/// What follows a step of carrying out the reflection's changes.
pub open spec fn after_apply(
    sub: ChangesStep,
    ctx: ReactionContext,
    pending: Vec<Message>,
    input: ReactionExecutionInput,
    summary: String,
    res: ReactionStep,
) -> bool {
    match sub.1 {
        Next::Call(call) => {
            &&& res.0 == (SceneReaction::Applying { sub: sub.0, ctx, pending, input, summary })
            &&& res.1 == Next::<Result<(), Error>>::Call(call)
        },
        Next::Done(Err(e)) => res.1 == Next::<Result<(), Error>>::Done(Err(e)),
        Next::Done(Ok(())) => describes(ctx, pending, input, summary, res),
    }
}

fn skip(ctx: ReactionContext, pending: Vec<Message>) -> (res: ReactionStep)
    ensures
        skips(ctx, pending@, res),
{
    if pending.len() > 0 {
        let message_uuids = message_ids_of(&pending);
        (
            SceneReaction::AwaitingSkipMarked { ctx },
            Next::Call(WorkerCall::MarkSceneMessagesHandled { person_uuid: ctx.person_uuid, message_uuids }),
        )
    } else {
        (SceneReaction::Finished, Next::Done(Ok(())))
    }
}

fn prepare(ctx: ReactionContext, pending: Vec<Message>) -> (res: ReactionStep)
    ensures
        prepares(ctx, pending, res),
{
    let ictx = InputContext { person_uuid: ctx.person_uuid, scene_uuid: ctx.scene_uuid, trigger: ctx.trigger };
    let (sub, call) = ReactionInputBuild::start(ictx, copy_messages(&pending));
    (SceneReaction::Preparing { sub, ctx, pending }, Next::Call(call))
}

fn describe(ctx: ReactionContext, pending: Vec<Message>, input: ReactionExecutionInput, summary: String) -> (res: ReactionStep)
    ensures
        describes(ctx, pending, input, summary, res),
{
    let situation = input.situation.to_string();
    let description = memory_description(situation.as_str(), &input.description_prefix, summary.as_str());
    (
        SceneReaction::AwaitingMemories { ctx, pending },
        Next::Call(WorkerCall::MaybeCreateMemoriesFromDescription { person_uuid: ctx.person_uuid, description }),
    )
}

fn continue_prepare(sub: ReactionInputStep, ctx: ReactionContext, pending: Vec<Message>) -> (res: ReactionStep)
    ensures
        after_prepare(sub, ctx, pending, res),
{
    let (s, n) = sub;
    match n {
        Next::Call(call) => (SceneReaction::Preparing { sub: s, ctx, pending }, Next::Call(call)),
        Next::Done(Err(e)) => (SceneReaction::Finished, Next::Done(Err(e))),
        Next::Done(Ok(input)) => {
            let memories = copy_memories(&input.reflection_input.memories);
            let state_of_mind = input.reflection_input.state_of_mind.clone();
            let situation = input.reaction_situation.clone();
            (
                SceneReaction::AwaitingReaction { ctx, pending, input },
                Next::Call(WorkerCall::GetReaction { memories, person_uuid: ctx.person_uuid, state_of_mind, situation }),
            )
        },
    }
}

fn continue_act(
    sub: (HandleAction, Next<Result<(), ActionHandleError>>),
    ctx: ReactionContext,
    pending: Vec<Message>,
    input: ReactionExecutionInput,
    summary: String,
    reflection: ReflectionDecision,
) -> (res: ReactionStep)
    ensures
        after_act(sub, ctx, pending, input, summary, reflection, res),
{
    let (s, n) = sub;
    match n {
        Next::Call(call) => (SceneReaction::Acting { sub: s, ctx, pending, input, summary, reflection }, Next::Call(call)),
        Next::Done(Err(e)) => (SceneReaction::Finished, Next::Done(Err(Error::Action(e)))),
        Next::Done(Ok(())) => {
            let situation = input.situation.to_string();
            let (update, call) = TaskTransition::start(ctx.person_uuid, situation, Some(summary.clone()));
            (SceneReaction::Updating { sub: update, ctx, pending, input, summary, reflection }, Next::Call(call))
        },
    }
}

fn continue_update(
    sub: (TaskTransition, Next<Result<(), TaskTransitionError>>),
    ctx: ReactionContext,
    pending: Vec<Message>,
    input: ReactionExecutionInput,
    summary: String,
    reflection: ReflectionDecision,
) -> (res: ReactionStep)
    ensures
        after_update(sub, ctx, pending, input, summary, reflection, res),
{
    let (s, n) = sub;
    match n {
        Next::Call(call) => (SceneReaction::Updating { sub: s, ctx, pending, input, summary, reflection }, Next::Call(call)),
        Next::Done(Err(e)) => (SceneReaction::Finished, Next::Done(Err(task_error_of(e)))),
        Next::Done(Ok(())) => match reflection {
            ReflectionDecision::Reflection => {
                let args = GetArgs::new().with_person_uuid(ctx.person_uuid);
                (
                    SceneReaction::AwaitingReflectionEvents { ctx, pending, input, summary },
                    Next::Call(WorkerCall::GetEvents { args }),
                )
            },
            ReflectionDecision::NoReflection => describe(ctx, pending, input, summary),
        },
    }
}

fn continue_apply(
    sub: ChangesStep,
    ctx: ReactionContext,
    pending: Vec<Message>,
    input: ReactionExecutionInput,
    summary: String,
) -> (res: ReactionStep)
    ensures
        after_apply(sub, ctx, pending, input, summary, res),
{
    let (s, n) = sub;
    match n {
        Next::Call(call) => (SceneReaction::Applying { sub: s, ctx, pending, input, summary }, Next::Call(call)),
        Next::Done(Err(e)) => (SceneReaction::Finished, Next::Done(Err(e))),
        Next::Done(Ok(())) => describe(ctx, pending, input, summary),
    }
}

/// Starts a reaction of `person_uuid` in `scene_uuid`. New messages are
/// fetched first; a disabled or hibernating person does not react, and their
/// pending messages are marked handled; without new messages there is
/// nothing to react to. Otherwise the reaction is prepared, asked for,
/// carried out; the person's task is brought up to date; the person reflects
/// where the reaction says so, and the changes are made; the reaction is
/// offered as memories; and the new messages are marked handled.
pub fn run_scene_reaction(
    person_uuid: PersonUuid,
    scene_uuid: SceneUuid,
    trigger: SceneReactionTrigger,
    random_seed: RandomSeed,
    current_active_ms: i64,
) -> (res: ReactionStep)
    ensures
        ({
            let ctx = ReactionContext { person_uuid, scene_uuid, trigger, random_seed, current_active_ms };
            match trigger {
                SceneReactionTrigger::NewMessages => {
                    &&& res.0 == (SceneReaction::AwaitingPending { ctx })
                    &&& res.1 == Next::<Result<(), Error>>::Call(
                        WorkerCall::GetUnhandledSceneMessages { person_uuid, scene_uuid },
                    )
                },
                _ => {
                    &&& match res.0 {
                        SceneReaction::AwaitingEnabled { ctx: c, pending } => c == ctx && pending@.len() == 0,
                        _ => false,
                    }
                    &&& res.1 == Next::<Result<(), Error>>::Call(WorkerCall::IsPersonEnabled { person_uuid })
                },
            }
        }),
{
    let ctx = ReactionContext { person_uuid, scene_uuid, trigger, random_seed, current_active_ms };
    match trigger {
        SceneReactionTrigger::NewMessages => (
            SceneReaction::AwaitingPending { ctx },
            Next::Call(WorkerCall::GetUnhandledSceneMessages { person_uuid, scene_uuid }),
        ),
        _ => (
            SceneReaction::AwaitingEnabled { ctx, pending: Vec::new() },
            Next::Call(WorkerCall::IsPersonEnabled { person_uuid }),
        ),
    }
}

impl SceneReaction {
    /// The reply each stage waits for.
    pub open spec fn awaits(self, reply: Reply) -> bool {
        match self {
            SceneReaction::AwaitingPending { .. } => reply is Messages,
            SceneReaction::AwaitingEnabled { .. } => reply is Flag,
            SceneReaction::AwaitingHibernation { .. } => reply is Flag,
            SceneReaction::AwaitingSkipMarked { .. } => reply is Unit,
            SceneReaction::Preparing { sub, .. } => sub.awaits(reply),
            SceneReaction::AwaitingReaction { .. } => reply is Reaction,
            SceneReaction::Acting { sub, .. } => sub.awaits(reply),
            SceneReaction::Updating { sub, .. } => sub.awaits(reply),
            SceneReaction::AwaitingReflectionEvents { .. } => reply is Events,
            SceneReaction::AwaitingChanges { .. } => reply is ReflectionChanges,
            SceneReaction::Applying { sub, .. } => sub.awaits(reply),
            SceneReaction::AwaitingMemories { .. } => reply is MemoryIds,
            SceneReaction::AwaitingHandled { .. } => reply is Unit,
            SceneReaction::Finished => false,
        }
    }

    /// One step of a reaction: what follows each reply.
    pub open spec fn step(self, reply: Reply, res: ReactionStep) -> bool {
        match (self, reply) {
            (SceneReaction::AwaitingPending { ctx }, Reply::Messages(r)) => match r {
                Err(e) => res.1 == Next::<Result<(), Error>>::Done(
                    Err(Error::FailedToGetUnhandledSceneMessages { scene_uuid: ctx.scene_uuid, details: e }),
                ),
                Ok(pending) => {
                    &&& res.0 == (SceneReaction::AwaitingEnabled { ctx, pending })
                    &&& res.1 == Next::<Result<(), Error>>::Call(WorkerCall::IsPersonEnabled { person_uuid: ctx.person_uuid })
                },
            },
            (SceneReaction::AwaitingEnabled { ctx, pending }, Reply::Flag(r)) => match r {
                Err(e) => res.1 == Next::<Result<(), Error>>::Done(
                    Err(Error::FailedToGetEnabledState { person_uuid: ctx.person_uuid, details: e }),
                ),
                Ok(false) => skips(ctx, pending@, res),
                Ok(true) => {
                    &&& res.0 == (SceneReaction::AwaitingHibernation { ctx, pending })
                    &&& res.1 == Next::<Result<(), Error>>::Call(WorkerCall::IsPersonHibernating { person_uuid: ctx.person_uuid })
                },
            },
            (SceneReaction::AwaitingHibernation { ctx, pending }, Reply::Flag(r)) => match r {
                Err(e) => res.1 == Next::<Result<(), Error>>::Done(
                    Err(Error::FailedToGetHibernationState { person_uuid: ctx.person_uuid, details: e }),
                ),
                Ok(true) => skips(ctx, pending@, res),
                Ok(false) => if ctx.trigger is NewMessages && pending@.len() == 0 {
                    res.1 == Next::<Result<(), Error>>::Done(Ok(()))
                } else {
                    prepares(ctx, pending, res)
                },
            },
            (SceneReaction::AwaitingSkipMarked { ctx }, Reply::Unit(r)) => match r {
                Err(e) => res.1 == Next::<Result<(), Error>>::Done(
                    Err(Error::FailedToMarkSceneMessagesHandled { scene_uuid: ctx.scene_uuid, details: e }),
                ),
                Ok(()) => res.1 == Next::<Result<(), Error>>::Done(Ok(())),
            },
            (SceneReaction::Preparing { sub, ctx, pending }, _) => exists|s: ReactionInputStep|
                #[trigger] sub.step(reply, s) && after_prepare(s, ctx, pending, res),
            (SceneReaction::AwaitingReaction { ctx, pending, input }, Reply::Reaction(r)) => match r {
                Err(e) => res.1 == Next::<Result<(), Error>>::Done(Err(Error::GetPersonReaction(e))),
                Ok(reaction) => match (res.0, res.1) {
                    (SceneReaction::Acting { sub, ctx: c, pending: p, input: i, summary, reflection }, Next::Call(call)) =>
                        c == ctx && p == pending && i == input && summary@ == action_summary(reaction.action@)
                            && reflection == reaction.reflection && action_start(
                            reaction.action,
                            ctx.person_uuid,
                            ctx.random_seed,
                            ctx.current_active_ms,
                            (sub, call),
                        ),
                    _ => false,
                },
            },
            (SceneReaction::Acting { sub, ctx, pending, input, summary, reflection }, _) =>
                exists|s: (HandleAction, Next<Result<(), ActionHandleError>>)|
                    #[trigger] sub.step(reply, s) && after_act(s, ctx, pending, input, summary, reflection, res),
            (SceneReaction::Updating { sub, ctx, pending, input, summary, reflection }, _) =>
                exists|s: (TaskTransition, Next<Result<(), TaskTransitionError>>)|
                    #[trigger] sub.step(reply, s) && after_update(s, ctx, pending, input, summary, reflection, res),
            (SceneReaction::AwaitingReflectionEvents { ctx, pending, input, summary }, Reply::Events(r)) => match r {
                Err(e) => res.1 == Next::<Result<(), Error>>::Done(Err(Error::FailedToGetEvents(e))),
                Ok(events) => {
                    &&& res.0 == (SceneReaction::AwaitingChanges { ctx, pending, input, summary })
                    &&& match res.1 {
                        Next::Call(WorkerCall::GetReflectionChanges {
                            memories,
                            person_uuid,
                            person_identity,
                            state_of_mind,
                            situation,
                        }) => memories@ == input.reflection_input.memories@ && person_uuid == ctx.person_uuid
                            && person_identity@ == input.reflection_input.person_identity@ && state_of_mind@
                            == input.reflection_input.state_of_mind@ && situation@ == reflection_situation_text(
                            input.situation.text_spec(),
                            events_prompt_list(events@),
                        ),
                        _ => false,
                    }
                },
            },
            (SceneReaction::AwaitingChanges { ctx, pending, input, summary }, Reply::ReflectionChanges(r)) => match r {
                Err(e) => res.1 == Next::<Result<(), Error>>::Done(Err(Error::Reflection(e))),
                Ok(changes) => exists|s: ChangesStep|
                    #[trigger] changes_from(ctx.person_uuid, input.reflection_input.person_name, changes@, 0, s)
                        && after_apply(s, ctx, pending, input, summary, res),
            },
            (SceneReaction::Applying { sub, ctx, pending, input, summary }, _) => exists|s: ChangesStep|
                #[trigger] sub.step(reply, s) && after_apply(s, ctx, pending, input, summary, res),
            (SceneReaction::AwaitingMemories { ctx, pending }, Reply::MemoryIds(r)) => match r {
                Err(e) => res.1 == Next::<Result<(), Error>>::Done(Err(Error::FailedToCreateMemory(e))),
                Ok(_) => if ctx.trigger is NewMessages {
                    &&& res.0 == (SceneReaction::AwaitingHandled { ctx })
                    &&& match res.1 {
                        Next::Call(WorkerCall::MarkSceneMessagesHandled { person_uuid, message_uuids }) => person_uuid
                            == ctx.person_uuid && message_uuids@ == message_ids(pending@),
                        _ => false,
                    }
                } else {
                    res.1 == Next::<Result<(), Error>>::Done(Ok(()))
                },
            },
            (SceneReaction::AwaitingHandled { ctx }, Reply::Unit(r)) => match r {
                Err(e) => res.1 == Next::<Result<(), Error>>::Done(
                    Err(Error::FailedToMarkSceneMessagesHandled { scene_uuid: ctx.scene_uuid, details: e }),
                ),
                Ok(()) => res.1 == Next::<Result<(), Error>>::Done(Ok(())),
            },
            _ => false,
        }
    }
}

impl SceneReaction {
    /// Goes on with the reply.
    pub fn resume(self, reply: Reply) -> (res: ReactionStep)
        requires
            self.awaits(reply),
        ensures
            self.step(reply, res),
    {
        match self {
            SceneReaction::AwaitingPending { ctx } => match reply {
                Reply::Messages(Ok(pending)) => (
                    SceneReaction::AwaitingEnabled { ctx, pending },
                    Next::Call(WorkerCall::IsPersonEnabled { person_uuid: ctx.person_uuid }),
                ),
                Reply::Messages(Err(e)) => (
                    SceneReaction::Finished,
                    Next::Done(Err(Error::FailedToGetUnhandledSceneMessages { scene_uuid: ctx.scene_uuid, details: e })),
                ),
                _ => (SceneReaction::Finished, Next::Done(Ok(()))),
            },
            SceneReaction::AwaitingEnabled { ctx, pending } => match reply {
                Reply::Flag(Ok(true)) => (
                    SceneReaction::AwaitingHibernation { ctx, pending },
                    Next::Call(WorkerCall::IsPersonHibernating { person_uuid: ctx.person_uuid }),
                ),
                Reply::Flag(Ok(false)) => skip(ctx, pending),
                Reply::Flag(Err(e)) => (
                    SceneReaction::Finished,
                    Next::Done(Err(Error::FailedToGetEnabledState { person_uuid: ctx.person_uuid, details: e })),
                ),
                _ => (SceneReaction::Finished, Next::Done(Ok(()))),
            },
            SceneReaction::AwaitingHibernation { ctx, pending } => match reply {
                Reply::Flag(Ok(false)) => {
                    let is_new_messages = match ctx.trigger {
                        SceneReactionTrigger::NewMessages => true,
                        _ => false,
                    };
                    if is_new_messages && pending.len() == 0 {
                        (SceneReaction::Finished, Next::Done(Ok(())))
                    } else {
                        prepare(ctx, pending)
                    }
                },
                Reply::Flag(Ok(true)) => skip(ctx, pending),
                Reply::Flag(Err(e)) => (
                    SceneReaction::Finished,
                    Next::Done(Err(Error::FailedToGetHibernationState { person_uuid: ctx.person_uuid, details: e })),
                ),
                _ => (SceneReaction::Finished, Next::Done(Ok(()))),
            },
            SceneReaction::AwaitingSkipMarked { ctx } => match reply {
                Reply::Unit(Err(e)) => (
                    SceneReaction::Finished,
                    Next::Done(Err(Error::FailedToMarkSceneMessagesHandled { scene_uuid: ctx.scene_uuid, details: e })),
                ),
                _ => (SceneReaction::Finished, Next::Done(Ok(()))),
            },
            SceneReaction::Preparing { sub, ctx, pending } => {
                let ghost sub_g = sub;
                let s = sub.resume(reply);
                let ghost s_g = s;
                let res = continue_prepare(s, ctx, pending);
                assert(sub_g.step(reply, s_g));
                res
            },
            SceneReaction::AwaitingReaction { ctx, pending, input } => match reply {
                Reply::Reaction(Ok(reaction)) => {
                    let summary = reaction.action.summarize();
                    let reflection = reaction.reflection;
                    let (sub, call) = handle_person_action(
                        reaction.action,
                        ctx.person_uuid,
                        ctx.random_seed,
                        ctx.current_active_ms,
                    );
                    (SceneReaction::Acting { sub, ctx, pending, input, summary, reflection }, Next::Call(call))
                },
                Reply::Reaction(Err(e)) => (SceneReaction::Finished, Next::Done(Err(Error::GetPersonReaction(e)))),
                _ => (SceneReaction::Finished, Next::Done(Ok(()))),
            },
            SceneReaction::Acting { sub, ctx, pending, input, summary, reflection } => {
                let ghost sub_g = sub;
                let s = sub.resume(reply);
                let ghost s_g = s;
                let res = continue_act(s, ctx, pending, input, summary, reflection);
                assert(sub_g.step(reply, s_g));
                res
            },
            SceneReaction::Updating { sub, ctx, pending, input, summary, reflection } => {
                let ghost sub_g = sub;
                let s = sub.resume(reply);
                let ghost s_g = s;
                let res = continue_update(s, ctx, pending, input, summary, reflection);
                assert(sub_g.step(reply, s_g));
                res
            },
            SceneReaction::AwaitingReflectionEvents { ctx, pending, input, summary } => match reply {
                Reply::Events(Ok(events)) => {
                    let situation_text = input.situation.to_string();
                    let events_text = Event::many_to_prompt_list(events);
                    let situation = reflection_situation(situation_text.as_str(), events_text.as_str());
                    let memories = copy_memories(&input.reflection_input.memories);
                    let person_identity = input.reflection_input.person_identity.clone();
                    let state_of_mind = input.reflection_input.state_of_mind.clone();
                    (
                        SceneReaction::AwaitingChanges { ctx, pending, input, summary },
                        Next::Call(
                            WorkerCall::GetReflectionChanges {
                                memories,
                                person_uuid: ctx.person_uuid,
                                person_identity,
                                state_of_mind,
                                situation,
                            },
                        ),
                    )
                },
                Reply::Events(Err(e)) => (SceneReaction::Finished, Next::Done(Err(Error::FailedToGetEvents(e)))),
                _ => (SceneReaction::Finished, Next::Done(Ok(()))),
            },
            SceneReaction::AwaitingChanges { ctx, pending, input, summary } => match reply {
                Reply::ReflectionChanges(Ok(changes)) => {
                    let ghost cs = changes@;
                    let name = input.reflection_input.person_name.copy();
                    let s = ApplyChanges::begin(ctx.person_uuid, name, changes);
                    let ghost s_g = s;
                    let ghost input_g = input;
                    let ghost pending_g = pending;
                    let ghost summary_g = summary;
                    let res = continue_apply(s, ctx, pending, input, summary);
                    assert(changes_from(ctx.person_uuid, input_g.reflection_input.person_name, cs, 0, s_g));
                    assert(after_apply(s_g, ctx, pending_g, input_g, summary_g, res));
                    res
                },
                Reply::ReflectionChanges(Err(e)) => (SceneReaction::Finished, Next::Done(Err(Error::Reflection(e)))),
                _ => (SceneReaction::Finished, Next::Done(Ok(()))),
            },
            SceneReaction::Applying { sub, ctx, pending, input, summary } => {
                let ghost sub_g = sub;
                let s = sub.resume(reply);
                let ghost s_g = s;
                let res = continue_apply(s, ctx, pending, input, summary);
                assert(sub_g.step(reply, s_g));
                res
            },
            SceneReaction::AwaitingMemories { ctx, pending } => match reply {
                Reply::MemoryIds(Ok(_)) => {
                    let is_new_messages = match ctx.trigger {
                        SceneReactionTrigger::NewMessages => true,
                        _ => false,
                    };
                    if is_new_messages {
                        let message_uuids = message_ids_of(&pending);
                        (
                            SceneReaction::AwaitingHandled { ctx },
                            Next::Call(WorkerCall::MarkSceneMessagesHandled { person_uuid: ctx.person_uuid, message_uuids }),
                        )
                    } else {
                        (SceneReaction::Finished, Next::Done(Ok(())))
                    }
                },
                Reply::MemoryIds(Err(e)) => (SceneReaction::Finished, Next::Done(Err(Error::FailedToCreateMemory(e)))),
                _ => (SceneReaction::Finished, Next::Done(Ok(()))),
            },
            SceneReaction::AwaitingHandled { ctx } => match reply {
                Reply::Unit(Err(e)) => (
                    SceneReaction::Finished,
                    Next::Done(Err(Error::FailedToMarkSceneMessagesHandled { scene_uuid: ctx.scene_uuid, details: e })),
                ),
                _ => (SceneReaction::Finished, Next::Done(Ok(()))),
            },
            SceneReaction::Finished => (SceneReaction::Finished, Next::Done(Ok(()))),
        }
    }
}

/// Where previewing a reaction's prompts stands.
#[derive(Debug)]
pub enum PreviewReaction {
    AwaitingPending { ctx: InputContext },
    Preparing { sub: ReactionInputBuild, ctx: InputContext },
    AwaitingPreview,
    Finished,
}

/// The result type of a step of previewing.
pub type PreviewStep = (PreviewReaction, Next<Result<ReactionPromptPreview, Error>>);

/// Preparing the previewed reaction begins with the pending messages.
pub open spec fn preview_prepares(ctx: InputContext, pending: Seq<Message>, res: PreviewStep) -> bool {
    &&& match res.0 {
        PreviewReaction::Preparing { sub, ctx: c } => c == ctx && match sub {
            ReactionInputBuild::Situating { sub: s, ctx: ic, pending: ip } => ic == ctx && ip@ == pending && match s {
                SceneSituation::AwaitingName { ctx: sc, messages } => sc == situation_context(ctx) && messages@ == pending,
                _ => false,
            },
            _ => false,
        },
        _ => false,
    }
    &&& res.1 == Next::<Result<ReactionPromptPreview, Error>>::Call(WorkerCall::GetPersonsName { person_uuid: ctx.person_uuid })
}

/// What follows a step of preparing the previewed reaction.
pub open spec fn after_preview_prepare(sub: ReactionInputStep, ctx: InputContext, res: PreviewStep) -> bool {
    match sub.1 {
        Next::Call(call) => {
            &&& res.0 == (PreviewReaction::Preparing { sub: sub.0, ctx })
            &&& res.1 == Next::<Result<ReactionPromptPreview, Error>>::Call(call)
        },
        Next::Done(Err(e)) => res.1 == Next::<Result<ReactionPromptPreview, Error>>::Done(Err(e)),
        Next::Done(Ok(input)) => {
            &&& res.0 is AwaitingPreview
            &&& match res.1 {
                Next::Call(WorkerCall::PreviewReactionPrompts { memories, person_uuid, situation }) => memories@
                    == input.reflection_input.memories@ && person_uuid == ctx.person_uuid && situation@
                    == input.reaction_situation@,
                _ => false,
            }
        },
    }
}

fn preview_prepare(ctx: InputContext, pending: Vec<Message>) -> (res: PreviewStep)
    ensures
        preview_prepares(ctx, pending@, res),
{
    let ghost ms = pending@;
    let (sub, call) = ReactionInputBuild::start(ctx, pending);
    (PreviewReaction::Preparing { sub, ctx }, Next::Call(call))
}

fn continue_preview_prepare(sub: ReactionInputStep, ctx: InputContext) -> (res: PreviewStep)
    ensures
        after_preview_prepare(sub, ctx, res),
{
    let (s, n) = sub;
    match n {
        Next::Call(call) => (PreviewReaction::Preparing { sub: s, ctx }, Next::Call(call)),
        Next::Done(Err(e)) => (PreviewReaction::Finished, Next::Done(Err(e))),
        Next::Done(Ok(input)) => (
            PreviewReaction::AwaitingPreview,
            Next::Call(
                WorkerCall::PreviewReactionPrompts {
                    memories: input.reflection_input.memories,
                    person_uuid: ctx.person_uuid,
                    situation: input.reaction_situation,
                },
            ),
        ),
    }
}

/// Starts previewing the prompts a reaction would be asked with: the same
/// preparation as a reaction, without carrying anything out.
pub fn preview_scene_reaction_prompts(person_uuid: PersonUuid, scene_uuid: SceneUuid, trigger: SceneReactionTrigger) -> (res: PreviewStep)
    ensures
        ({
            let ctx = InputContext { person_uuid, scene_uuid, trigger };
            match trigger {
                SceneReactionTrigger::NewMessages => {
                    &&& res.0 == (PreviewReaction::AwaitingPending { ctx })
                    &&& res.1 == Next::<Result<ReactionPromptPreview, Error>>::Call(
                        WorkerCall::GetUnhandledSceneMessages { person_uuid, scene_uuid },
                    )
                },
                _ => preview_prepares(ctx, Seq::empty(), res),
            }
        }),
{
    let ctx = InputContext { person_uuid, scene_uuid, trigger };
    match trigger {
        SceneReactionTrigger::NewMessages => (
            PreviewReaction::AwaitingPending { ctx },
            Next::Call(WorkerCall::GetUnhandledSceneMessages { person_uuid, scene_uuid }),
        ),
        _ => {
            let pending: Vec<Message> = Vec::new();
            preview_prepare(ctx, pending)
        },
    }
}

impl PreviewReaction {
    /// The reply each stage waits for.
    pub open spec fn awaits(self, reply: Reply) -> bool {
        match self {
            PreviewReaction::AwaitingPending { .. } => reply is Messages,
            PreviewReaction::Preparing { sub, .. } => sub.awaits(reply),
            PreviewReaction::AwaitingPreview => reply is Preview,
            PreviewReaction::Finished => false,
        }
    }

    /// One step of previewing: what follows each reply.
    pub open spec fn step(self, reply: Reply, res: PreviewStep) -> bool {
        match (self, reply) {
            (PreviewReaction::AwaitingPending { ctx }, Reply::Messages(r)) => match r {
                Err(e) => res.1 == Next::<Result<ReactionPromptPreview, Error>>::Done(
                    Err(Error::FailedToGetUnhandledSceneMessages { scene_uuid: ctx.scene_uuid, details: e }),
                ),
                Ok(pending) => preview_prepares(ctx, pending@, res),
            },
            (PreviewReaction::Preparing { sub, ctx }, _) => exists|s: ReactionInputStep|
                #[trigger] sub.step(reply, s) && after_preview_prepare(s, ctx, res),
            (PreviewReaction::AwaitingPreview, Reply::Preview(r)) => match r {
                Err(e) => res.1 == Next::<Result<ReactionPromptPreview, Error>>::Done(Err(Error::GetPersonReaction(e))),
                Ok(preview) => res.1 == Next::<Result<ReactionPromptPreview, Error>>::Done(Ok(preview)),
            },
            _ => false,
        }
    }

    /// Goes on with the reply.
    pub fn resume(self, reply: Reply) -> (res: PreviewStep)
        requires
            self.awaits(reply),
        ensures
            self.step(reply, res),
    {
        match self {
            PreviewReaction::AwaitingPending { ctx } => match reply {
                Reply::Messages(Ok(pending)) => preview_prepare(ctx, pending),
                Reply::Messages(Err(e)) => (
                    PreviewReaction::Finished,
                    Next::Done(Err(Error::FailedToGetUnhandledSceneMessages { scene_uuid: ctx.scene_uuid, details: e })),
                ),
                _ => (PreviewReaction::Finished, Next::Done(Err(Error::GetPersonReaction(String::new())))),
            },
            PreviewReaction::Preparing { sub, ctx } => {
                let ghost sub_g = sub;
                let s = sub.resume(reply);
                let ghost s_g = s;
                let res = continue_preview_prepare(s, ctx);
                assert(sub_g.step(reply, s_g));
                res
            },
            PreviewReaction::AwaitingPreview => match reply {
                Reply::Preview(Ok(preview)) => (PreviewReaction::Finished, Next::Done(Ok(preview))),
                Reply::Preview(Err(e)) => (PreviewReaction::Finished, Next::Done(Err(Error::GetPersonReaction(e)))),
                _ => (PreviewReaction::Finished, Next::Done(Err(Error::GetPersonReaction(String::new())))),
            },
            PreviewReaction::Finished => (PreviewReaction::Finished, Next::Done(Err(Error::GetPersonReaction(String::new())))),
        }
    }
}

} // verus!

//! What a person brings to a reaction: their name, the memories the situation
//! recalls, who they are and their state of mind.
use crate::capability::{GetArgs, MessageTypeArgs};
use crate::domain::event::event_texts;
use crate::domain::job::effects::{Next, Reply, WorkerCall};
use crate::domain::job::person_waiting::event_lines;
use crate::domain::job::process_reaction_common::Error;
use crate::domain::memory::{filter_memory_results, kept_memory_contents, memory_contents, Memory};
use crate::domain::person_name::PersonName;
use crate::domain::person_uuid::PersonUuid;
use crate::domain::scene_uuid::SceneUuid;
use crate::text::string_views;
use vstd::prelude::*;

verus! {

/// What a person brings to a reaction.
#[derive(Debug)]
pub struct ReflectionInput {
    pub person_name: PersonName,
    pub memories: Vec<Memory>,
    pub person_identity: String,
    pub state_of_mind: String,
}

/// Where gathering the reflection input stands.
#[derive(Debug)]
pub enum ReflectionInputBuild {
    AwaitingName { person_uuid: PersonUuid, scene_uuid: SceneUuid, situation: String },
    AwaitingEvents { person_uuid: PersonUuid, scene_uuid: SceneUuid, situation: String, person_name: PersonName },
    AwaitingStateOfMind {
        person_uuid: PersonUuid,
        scene_uuid: SceneUuid,
        situation: String,
        person_name: PersonName,
        recent_events: Vec<String>,
    },
    AwaitingPrompt { person_uuid: PersonUuid, person_name: PersonName, state_of_mind: String },
    AwaitingMemories { person_uuid: PersonUuid, person_name: PersonName, state_of_mind: String },
    AwaitingIdentity {
        person_uuid: PersonUuid,
        person_name: PersonName,
        state_of_mind: String,
        memories: Vec<Memory>,
    },
    Finished,
}

/// The result type of a step of gathering the reflection input.
pub type InputStep = (ReflectionInputBuild, Next<Result<ReflectionInput, Error>>);

impl ReflectionInputBuild {
    /// Starts by asking for the person's name; `situation` is the text of the
    /// person's situation in the scene.
    pub fn start(person_uuid: PersonUuid, scene_uuid: SceneUuid, situation: String) -> (res: (ReflectionInputBuild, WorkerCall))
        ensures
            res.0 == (ReflectionInputBuild::AwaitingName { person_uuid, scene_uuid, situation }),
            res.1 == (WorkerCall::GetPersonsName { person_uuid }),
    {
        (ReflectionInputBuild::AwaitingName { person_uuid, scene_uuid, situation }, WorkerCall::GetPersonsName { person_uuid })
    }

    /// The reply each stage waits for.
    pub open spec fn awaits(self, reply: Reply) -> bool {
        match self {
            ReflectionInputBuild::AwaitingName { .. } => reply is Name,
            ReflectionInputBuild::AwaitingEvents { .. } => reply is Events,
            ReflectionInputBuild::AwaitingStateOfMind { .. } => reply is StateOfMind,
            ReflectionInputBuild::AwaitingPrompt { .. } => reply is Prompt,
            ReflectionInputBuild::AwaitingMemories { .. } => reply is Memories,
            ReflectionInputBuild::AwaitingIdentity { .. } => reply is MaybeText,
            ReflectionInputBuild::Finished => false,
        }
    }

    /// One step of gathering: the name, the person's events in the scene, the
    /// latest state of mind, a memory query made of these, the memories it
    /// finds (the closest ones), and the person's identity.
    pub open spec fn step(self, reply: Reply, res: InputStep) -> bool {
        match (self, reply) {
            (ReflectionInputBuild::AwaitingName { person_uuid, scene_uuid, situation }, Reply::Name(r)) => match r {
                Err(e) => res.1 == Next::<Result<ReflectionInput, Error>>::Done(Err(Error::FailedToGetPersonsName(e))),
                Ok(person_name) => {
                    &&& res.0 == (ReflectionInputBuild::AwaitingEvents { person_uuid, scene_uuid, situation, person_name })
                    &&& res.1 == Next::<Result<ReflectionInput, Error>>::Call(
                        WorkerCall::GetEvents {
                            args: GetArgs { person_uuid: Some(person_uuid), scene_uuid: Some(scene_uuid) },
                        },
                    )
                },
            },
            (ReflectionInputBuild::AwaitingEvents { person_uuid, scene_uuid, situation, person_name }, Reply::Events(r)) => match r {
                Err(e) => res.1 == Next::<Result<ReflectionInput, Error>>::Done(Err(Error::FailedToGetEvents(e))),
                Ok(events) => {
                    &&& match res.0 {
                        ReflectionInputBuild::AwaitingStateOfMind { person_uuid: p, scene_uuid: s, situation: t, person_name: n, recent_events } =>
                            p == person_uuid && s == scene_uuid && t == situation && n == person_name
                                && string_views(recent_events@) == event_texts(events@),
                        _ => false,
                    }
                    &&& res.1 == Next::<Result<ReflectionInput, Error>>::Call(WorkerCall::GetLatestStateOfMind { person_uuid })
                },
            },
            (ReflectionInputBuild::AwaitingStateOfMind { person_uuid, scene_uuid, situation, person_name, recent_events }, Reply::StateOfMind(r)) => match r {
                Err(e) => res.1 == Next::<Result<ReflectionInput, Error>>::Done(Err(Error::FailedToGetStateOfMind(e))),
                Ok(None) => res.1 == Next::<Result<ReflectionInput, Error>>::Done(Err(Error::NoStateOfMindFound { person_uuid })),
                Ok(Some(som)) => {
                    &&& match res.0 {
                        ReflectionInputBuild::AwaitingPrompt { person_uuid: p, person_name: n, state_of_mind } => p == person_uuid
                            && n == person_name && state_of_mind@ == som.content@,
                        _ => false,
                    }
                    &&& match res.1 {
                        Next::Call(WorkerCall::CreateMemoryQueryPrompt {
                            person_name: n,
                            message_type_args,
                            recent_events: ev,
                            state_of_mind,
                            situation: t,
                        }) => n == person_name && message_type_args == (MessageTypeArgs::SceneByUuid { scene_uuid })
                            && ev == recent_events && state_of_mind@ == som.content@ && t == situation,
                        _ => false,
                    }
                },
            },
            (ReflectionInputBuild::AwaitingPrompt { person_uuid, person_name, state_of_mind }, Reply::Prompt(r)) => match r {
                Err(e) => res.1 == Next::<Result<ReflectionInput, Error>>::Done(Err(Error::CouldNotCreateMemoriesPrompt(e))),
                Ok(prompt) => {
                    &&& res.0 == (ReflectionInputBuild::AwaitingMemories { person_uuid, person_name, state_of_mind })
                    &&& res.1 == Next::<Result<ReflectionInput, Error>>::Call(
                        WorkerCall::SearchMemories { person_uuid, query: prompt.prompt, limit: 5 },
                    )
                },
            },
            (ReflectionInputBuild::AwaitingMemories { person_uuid, person_name, state_of_mind }, Reply::Memories(r)) => match r {
                Err(e) => res.1 == Next::<Result<ReflectionInput, Error>>::Done(Err(Error::FailedToSearchMemories(e))),
                Ok(results) => {
                    &&& match res.0 {
                        ReflectionInputBuild::AwaitingIdentity { person_uuid: p, person_name: n, state_of_mind: s, memories } =>
                            p == person_uuid && n == person_name && s == state_of_mind && memory_contents(memories@)
                                == kept_memory_contents(results@),
                        _ => false,
                    }
                    &&& res.1 == Next::<Result<ReflectionInput, Error>>::Call(WorkerCall::GetPersonIdentitySummary { person_uuid })
                },
            },
            (ReflectionInputBuild::AwaitingIdentity { person_uuid, person_name, state_of_mind, memories }, Reply::MaybeText(r)) => match r {
                Err(e) => res.1 == Next::<Result<ReflectionInput, Error>>::Done(Err(Error::FailedToGetPersonIdentity(e))),
                Ok(None) => res.1 == Next::<Result<ReflectionInput, Error>>::Done(Err(Error::NoPersonIdentityFound { person_uuid })),
                Ok(Some(person_identity)) => res.1 == Next::<Result<ReflectionInput, Error>>::Done(
                    Ok(ReflectionInput { person_name, memories, person_identity, state_of_mind }),
                ),
            },
            _ => false,
        }
    }

    /// Goes on with the reply.
    pub fn resume(self, reply: Reply) -> (res: InputStep)
        requires
            self.awaits(reply),
        ensures
            self.step(reply, res),
    {
        let failed = Error::FailedToGetPersonsName(String::new());
        match self {
            ReflectionInputBuild::AwaitingName { person_uuid, scene_uuid, situation } => match reply {
                Reply::Name(Ok(person_name)) => {
                    let args = GetArgs::new().with_person_uuid(person_uuid).with_scene_uuid(scene_uuid);
                    (
                        ReflectionInputBuild::AwaitingEvents { person_uuid, scene_uuid, situation, person_name },
                        Next::Call(WorkerCall::GetEvents { args }),
                    )
                },
                Reply::Name(Err(e)) => (ReflectionInputBuild::Finished, Next::Done(Err(Error::FailedToGetPersonsName(e)))),
                _ => (ReflectionInputBuild::Finished, Next::Done(Err(failed))),
            },
            ReflectionInputBuild::AwaitingEvents { person_uuid, scene_uuid, situation, person_name } => match reply {
                Reply::Events(Ok(events)) => {
                    let recent_events = event_lines(&events);
                    (
                        ReflectionInputBuild::AwaitingStateOfMind { person_uuid, scene_uuid, situation, person_name, recent_events },
                        Next::Call(WorkerCall::GetLatestStateOfMind { person_uuid }),
                    )
                },
                Reply::Events(Err(e)) => (ReflectionInputBuild::Finished, Next::Done(Err(Error::FailedToGetEvents(e)))),
                _ => (ReflectionInputBuild::Finished, Next::Done(Err(failed))),
            },
            ReflectionInputBuild::AwaitingStateOfMind { person_uuid, scene_uuid, situation, person_name, recent_events } => match reply {
                Reply::StateOfMind(Ok(Some(som))) => {
                    let state_of_mind = som.content;
                    let for_prompt = state_of_mind.clone();
                    let prompt_name = person_name.copy();
                    (
                        ReflectionInputBuild::AwaitingPrompt { person_uuid, person_name, state_of_mind },
                        Next::Call(
                            WorkerCall::CreateMemoryQueryPrompt {
                                person_name: prompt_name,
                                message_type_args: MessageTypeArgs::SceneByUuid { scene_uuid },
                                recent_events,
                                state_of_mind: for_prompt,
                                situation,
                            },
                        ),
                    )
                },
                Reply::StateOfMind(Ok(None)) => (
                    ReflectionInputBuild::Finished,
                    Next::Done(Err(Error::NoStateOfMindFound { person_uuid })),
                ),
                Reply::StateOfMind(Err(e)) => (ReflectionInputBuild::Finished, Next::Done(Err(Error::FailedToGetStateOfMind(e)))),
                _ => (ReflectionInputBuild::Finished, Next::Done(Err(failed))),
            },
            ReflectionInputBuild::AwaitingPrompt { person_uuid, person_name, state_of_mind } => match reply {
                Reply::Prompt(Ok(prompt)) => (
                    ReflectionInputBuild::AwaitingMemories { person_uuid, person_name, state_of_mind },
                    Next::Call(WorkerCall::SearchMemories { person_uuid, query: prompt.prompt, limit: 5 }),
                ),
                Reply::Prompt(Err(e)) => (ReflectionInputBuild::Finished, Next::Done(Err(Error::CouldNotCreateMemoriesPrompt(e)))),
                _ => (ReflectionInputBuild::Finished, Next::Done(Err(failed))),
            },
            ReflectionInputBuild::AwaitingMemories { person_uuid, person_name, state_of_mind } => match reply {
                Reply::Memories(Ok(results)) => {
                    let memories = filter_memory_results(results);
                    (
                        ReflectionInputBuild::AwaitingIdentity { person_uuid, person_name, state_of_mind, memories },
                        Next::Call(WorkerCall::GetPersonIdentitySummary { person_uuid }),
                    )
                },
                Reply::Memories(Err(e)) => (ReflectionInputBuild::Finished, Next::Done(Err(Error::FailedToSearchMemories(e)))),
                _ => (ReflectionInputBuild::Finished, Next::Done(Err(failed))),
            },
            ReflectionInputBuild::AwaitingIdentity { person_uuid, person_name, state_of_mind, memories } => match reply {
                Reply::MaybeText(Ok(Some(person_identity))) => (
                    ReflectionInputBuild::Finished,
                    Next::Done(Ok(ReflectionInput { person_name, memories, person_identity, state_of_mind })),
                ),
                Reply::MaybeText(Ok(None)) => (
                    ReflectionInputBuild::Finished,
                    Next::Done(Err(Error::NoPersonIdentityFound { person_uuid })),
                ),
                Reply::MaybeText(Err(e)) => (ReflectionInputBuild::Finished, Next::Done(Err(Error::FailedToGetPersonIdentity(e)))),
                _ => (ReflectionInputBuild::Finished, Next::Done(Err(failed))),
            },
            ReflectionInputBuild::Finished => (ReflectionInputBuild::Finished, Next::Done(Err(failed))),
        }
    }
}

} // verus!

//! The data that jobs exchange with the worker's storage and model services.
use crate::domain::actor_uuid::ActorUuid;
use crate::domain::memory_uuid::MemoryUuid;
use crate::domain::message::MessageSender;
use crate::domain::motivation_uuid::MotivationUuid;
use crate::domain::person_name::PersonName;
use crate::domain::person_uuid::PersonUuid;
use crate::domain::scene_uuid::SceneUuid;
use crate::domain::state_of_mind_uuid::StateOfMindUuid;
use vstd::prelude::*;

verus! {

/// Someone currently in a scene.
#[derive(Debug)]
pub struct SceneParticipant {
    pub actor_uuid: ActorUuid,
    pub person_name: PersonName,
}

/// A scene.
#[derive(Debug)]
pub struct Scene {
    pub uuid: SceneUuid,
    pub name: String,
}

/// Which events to fetch: those of a person, optionally within one scene.
#[derive(Debug, Clone, Copy, PartialEq, Eq, Structural)]
pub struct GetArgs {
    pub person_uuid: Option<PersonUuid>,
    pub scene_uuid: Option<SceneUuid>,
}

impl GetArgs {
    /// No restriction.
    pub fn new() -> (res: Self)
        ensures
            res == (GetArgs { person_uuid: None, scene_uuid: None }),
    {
        GetArgs { person_uuid: None, scene_uuid: None }
    }

    /// Restricted to the events of a person.
    pub fn with_person_uuid(self, person_uuid: PersonUuid) -> (res: Self)
        ensures
            res == (GetArgs { person_uuid: Some(person_uuid), ..self }),
    {
        GetArgs { person_uuid: Some(person_uuid), ..self }
    }

    /// Restricted to the events of a scene.
    pub fn with_scene_uuid(self, scene_uuid: SceneUuid) -> (res: Self)
        ensures
            res == (GetArgs { scene_uuid: Some(scene_uuid), ..self }),
    {
        GetArgs { scene_uuid: Some(scene_uuid), ..self }
    }
}

/// Where the messages of a memory query come from.
#[derive(Debug, Clone)]
pub enum MessageTypeArgs {
    SceneByUuid { scene_uuid: SceneUuid },
    Scene { scene_name: String },
    Direct { from: MessageSender },
}

/// A change that a reflection asks for.
#[derive(Debug)]
pub enum ReflectionChange {
    StateOfMind { content: String },
    MemorySummary { summary: String },
    NewMotivation { content: String, priority: i64 },
    DeleteMotivation { motivation_uuid: MotivationUuid },
}

/// A memory to store.
#[derive(Debug)]
pub struct NewMemory {
    pub memory_uuid: MemoryUuid,
    pub content: String,
    pub person_uuid: PersonUuid,
}

/// A motivation to store.
#[derive(Debug)]
pub struct NewMotivation {
    pub person_uuid: PersonUuid,
    pub content: String,
    pub priority: i32,
}

/// A state of mind to store.
#[derive(Debug)]
pub struct NewStateOfMind {
    pub uuid: StateOfMindUuid,
    pub person_name: PersonName,
    pub state_of_mind: String,
}

/// The prompts a reaction would be asked with.
#[derive(Debug)]
pub struct ReactionPromptPreview {
    pub thinking_system_prompt: String,
    pub thinking_user_prompt: String,
    pub action_system_prompt: String,
    pub action_user_prompt: String,
}

/// The prompt with which memories are searched.
#[derive(Debug)]
pub struct MemoryQueryPrompt {
    pub prompt: String,
}

} // verus!

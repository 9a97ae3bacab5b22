//! The requests that jobs make of the worker (its storage and model services)
//! and the replies they get. Jobs are written as step functions: given what
//! they know and the reply to their last request, they say what to ask next or
//! how they end. The application performs each request and hands back the
//! reply.
use crate::capability::{
    GetArgs, MemoryQueryPrompt, MessageTypeArgs, NewMemory, NewMotivation,
    NewStateOfMind, ReactionPromptPreview, ReflectionChange, Scene, SceneParticipant,
};
use crate::domain::event::Event;
use crate::domain::job::{JobKind, PoppedJob};
use crate::domain::job_uuid::JobUuid;
use crate::domain::logger::Level;
use crate::domain::memory::{Memory, MemorySearchResult};
use crate::domain::memory_uuid::MemoryUuid;
use crate::domain::message::{Message, MessageSender};
use crate::domain::message_uuid::MessageUuid;
use crate::domain::motivation_uuid::MotivationUuid;
use crate::domain::person_name::PersonName;
use crate::domain::person_task::{PersonTask, PersonTaskOutcomeCheck, PersonTaskTerminalOutcome};
use crate::domain::person_task_uuid::PersonTaskUuid;
use crate::domain::person_uuid::PersonUuid;
use crate::domain::scene_participant_uuid::SceneParticipantUuid;
use crate::domain::scene_uuid::SceneUuid;
use crate::domain::state_of_mind::StateOfMind;
use crate::domain::state_of_mind_uuid::StateOfMindUuid;
use crate::json::Json;
use crate::person_actions::PersonReaction;
use vstd::prelude::*;

verus! {

/// A request to the worker.
#[derive(Debug)]
pub enum WorkerCall {
    IsPersonHibernating { person_uuid: PersonUuid },
    SetPersonHibernating { person_uuid: PersonUuid, is_hibernating: bool },
    IsPersonEnabled { person_uuid: PersonUuid },
    GetEvents { args: GetArgs },
    HasReactedSince { person_uuid: PersonUuid, since: i64 },
    GetPersonsName { person_uuid: PersonUuid },
    GetPersonsCurrentSceneUuid { person_uuid: PersonUuid },
    GetLatestStateOfMind { person_uuid: PersonUuid },
    CreateMemoryQueryPrompt {
        person_name: PersonName,
        message_type_args: MessageTypeArgs,
        recent_events: Vec<String>,
        state_of_mind: String,
        situation: String,
    },
    SearchMemories { person_uuid: PersonUuid, query: String, limit: i64 },
    GetReaction {
        memories: Vec<Memory>,
        person_uuid: PersonUuid,
        state_of_mind: String,
        situation: String,
    },
    PreviewReactionPrompts { memories: Vec<Memory>, person_uuid: PersonUuid, situation: String },
    UnshiftJob { job: JobKind },
    GetSceneFromName { scene_name: String },
    CreateSceneFromTravel { scene_name: String, basis_scene_uuid: SceneUuid },
    AddPersonToScene { scene_uuid: SceneUuid, person_name: PersonName },
    GetSceneCurrentParticipants { scene_uuid: SceneUuid },
    SendSceneMessage { sender: MessageSender, scene_uuid: SceneUuid, content: String },
    AddSceneMessageRecipients { message_uuid: MessageUuid, recipients: Vec<PersonUuid> },
    RecordReaction { person_uuid: PersonUuid, action_kind: String },
    Log { level: Level, message: String },
    GetPersonsCurrentActiveTask { person_uuid: PersonUuid },
    ClassifyCurrentTaskOutcome {
        task: PersonTask,
        situation: String,
        action_summary: Option<String>,
    },
    TransitionPersonTask {
        person_uuid: PersonUuid,
        task_uuid: PersonTaskUuid,
        outcome: PersonTaskTerminalOutcome,
    },
    GetUnhandledSceneMessages { person_uuid: PersonUuid, scene_uuid: SceneUuid },
    MarkSceneMessagesHandled { person_uuid: PersonUuid, message_uuids: Vec<MessageUuid> },
    GetSceneName { scene_uuid: SceneUuid },
    GetSceneDescription { scene_uuid: SceneUuid },
    SummarizeReactionEvents { events_text: String },
    GetPersonIdentitySummary { person_uuid: PersonUuid },
    GetReflectionChanges {
        memories: Vec<Memory>,
        person_uuid: PersonUuid,
        person_identity: String,
        state_of_mind: String,
        situation: String,
    },
    CreateStateOfMind { new_state_of_mind: NewStateOfMind },
    CreateMemory { new_memory: NewMemory },
    LogEvent { event_name: String, data: Json },
    CreateMotivation { new_motivation: NewMotivation },
    DeleteMotivation { motivation_uuid: MotivationUuid },
    MaybeCreateMemoriesFromDescription { person_uuid: PersonUuid, description: String },
    GetMessageByUuid { message_uuid: MessageUuid },
    PopNextJob { current_active_ms: i64 },
    MarkJobFinished { job_uuid: JobUuid },
    MarkJobFailed { job_uuid: JobUuid, details: String },
    ResetJob { job_uuid: JobUuid },
    Print { line: String },
    PersistActiveClock,
}

/// The reply to a request.
#[derive(Debug)]
pub enum Reply {
    Unit(Result<(), String>),
    Flag(Result<bool, String>),
    Events(Result<Vec<Event>, String>),
    Name(Result<PersonName, String>),
    CurrentScene(Result<Option<SceneUuid>, String>),
    StateOfMind(Result<Option<StateOfMind>, String>),
    Prompt(Result<MemoryQueryPrompt, String>),
    Memories(Result<Vec<MemorySearchResult>, String>),
    Reaction(Result<PersonReaction, String>),
    SceneByName(Result<Option<Scene>, String>),
    NewScene(Result<Scene, String>),
    Participation(Result<SceneParticipantUuid, String>),
    Participants(Result<Vec<SceneParticipant>, String>),
    MessageSent(Result<MessageUuid, String>),
    Task(Result<Option<PersonTask>, String>),
    TaskCheck(Result<PersonTaskOutcomeCheck, String>),
    Messages(Result<Vec<Message>, String>),
    Text(Result<String, String>),
    Preview(Result<ReactionPromptPreview, String>),
    MaybeText(Result<Option<String>, String>),
    ReflectionChanges(Result<Vec<ReflectionChange>, String>),
    StateOfMindId(Result<StateOfMindUuid, String>),
    MemoryId(Result<MemoryUuid, String>),
    MotivationId(Result<MotivationUuid, String>),
    MemoryIds(Result<Vec<MemoryUuid>, String>),
    MaybeMessage(Result<Option<Message>, String>),
    MaybeJob(Result<Option<PoppedJob>, String>),
    Logged,
}

/// The kind of reply that answers a request.
pub open spec fn answers(call: WorkerCall, reply: Reply) -> bool {
    match call {
        WorkerCall::IsPersonHibernating { .. } => reply is Flag,
        WorkerCall::SetPersonHibernating { .. } => reply is Unit,
        WorkerCall::IsPersonEnabled { .. } => reply is Flag,
        WorkerCall::GetEvents { .. } => reply is Events,
        WorkerCall::HasReactedSince { .. } => reply is Flag,
        WorkerCall::GetPersonsName { .. } => reply is Name,
        WorkerCall::GetPersonsCurrentSceneUuid { .. } => reply is CurrentScene,
        WorkerCall::GetLatestStateOfMind { .. } => reply is StateOfMind,
        WorkerCall::CreateMemoryQueryPrompt { .. } => reply is Prompt,
        WorkerCall::SearchMemories { .. } => reply is Memories,
        WorkerCall::GetReaction { .. } => reply is Reaction,
        WorkerCall::PreviewReactionPrompts { .. } => reply is Preview,
        WorkerCall::UnshiftJob { .. } => reply is Unit,
        WorkerCall::GetSceneFromName { .. } => reply is SceneByName,
        WorkerCall::CreateSceneFromTravel { .. } => reply is NewScene,
        WorkerCall::AddPersonToScene { .. } => reply is Participation,
        WorkerCall::GetSceneCurrentParticipants { .. } => reply is Participants,
        WorkerCall::SendSceneMessage { .. } => reply is MessageSent,
        WorkerCall::AddSceneMessageRecipients { .. } => reply is Unit,
        WorkerCall::RecordReaction { .. } => reply is Unit,
        WorkerCall::Log { .. } => reply is Logged,
        WorkerCall::GetPersonsCurrentActiveTask { .. } => reply is Task,
        WorkerCall::ClassifyCurrentTaskOutcome { .. } => reply is TaskCheck,
        WorkerCall::TransitionPersonTask { .. } => reply is Unit,
        WorkerCall::GetUnhandledSceneMessages { .. } => reply is Messages,
        WorkerCall::MarkSceneMessagesHandled { .. } => reply is Unit,
        WorkerCall::GetSceneName { .. } => reply is MaybeText,
        WorkerCall::GetSceneDescription { .. } => reply is MaybeText,
        WorkerCall::SummarizeReactionEvents { .. } => reply is Text,
        WorkerCall::GetPersonIdentitySummary { .. } => reply is MaybeText,
        WorkerCall::GetReflectionChanges { .. } => reply is ReflectionChanges,
        WorkerCall::CreateStateOfMind { .. } => reply is StateOfMindId,
        WorkerCall::CreateMemory { .. } => reply is MemoryId,
        WorkerCall::LogEvent { .. } => reply is Unit,
        WorkerCall::CreateMotivation { .. } => reply is MotivationId,
        WorkerCall::DeleteMotivation { .. } => reply is Unit,
        WorkerCall::MaybeCreateMemoriesFromDescription { .. } => reply is MemoryIds,
        WorkerCall::GetMessageByUuid { .. } => reply is MaybeMessage,
        WorkerCall::PopNextJob { .. } => reply is MaybeJob,
        WorkerCall::MarkJobFinished { .. } => reply is Unit,
        WorkerCall::MarkJobFailed { .. } => reply is Unit,
        WorkerCall::ResetJob { .. } => reply is Unit,
        WorkerCall::Print { .. } => reply is Logged,
        WorkerCall::PersistActiveClock => reply is Unit,
    }
}

/// What a job does next: ask the worker, or end.
#[derive(Debug)]
pub enum Next<T> {
    Call(WorkerCall),
    Done(T),
}

} // verus!

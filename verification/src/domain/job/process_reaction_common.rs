//! How a person reacts to what happens in their scene: new messages, someone
//! joining, or a look at the surroundings. The reaction is prepared from the
//! scene, the person's memories and recent events, carried out, and may lead
//! the person to reflect.
pub mod reaction_input;
pub mod reflection_changes;
pub mod reflection_input;
pub mod scene_reaction;
pub mod scene_situation;

use crate::domain::event::{Event, EventType};
use crate::domain::job::person_action_handler::{action_error_text, ActionHandleError};
use crate::domain::message::{Message, MessageSender};
use crate::domain::message_uuid::MessageUuid;
use crate::domain::person_uuid::PersonUuid;
use crate::domain::scene_uuid::SceneUuid;
use crate::ident::{uuid_string, uuid_text};
use crate::nice_display::NiceDisplay;
use crate::text::join_seq;
use crate::text_utils::{normalize_message_content, normalized_content};
use vstd::prelude::*;
use vstd::string::*;

verus! {

/// What prompted a reaction.
#[derive(Debug, Clone, Copy, PartialEq, Eq, Structural)]
pub enum SceneReactionTrigger {
    NewMessages,
    PersonJoined { joined_person_uuid: PersonUuid },
    SceneDescriptionGaze,
}

/// Why a reaction failed.
#[derive(Debug)]
pub enum Error {
    GetPersonReaction(String),
    FailedToGetEvents(String),
    FailedToGetStateOfMind(String),
    NoStateOfMindFound { person_uuid: PersonUuid },
    CouldNotCreateMemoriesPrompt(String),
    FailedToSearchMemories(String),
    FailedToGetPersonIdentity(String),
    NoPersonIdentityFound { person_uuid: PersonUuid },
    FailedToGetSendersName { person_uuid: PersonUuid, details: String },
    FailedToGetPersonsName(String),
    FailedToGetSceneParticipants { scene_uuid: SceneUuid, details: String },
    FailedToGetSceneName { scene_uuid: SceneUuid, details: String },
    SceneNameNotFound { scene_uuid: SceneUuid },
    FailedToGetSceneDescription { scene_uuid: SceneUuid, details: String },
    SceneDescriptionNotFound { scene_uuid: SceneUuid },
    FailedToGetUnhandledSceneMessages { scene_uuid: SceneUuid, details: String },
    FailedToMarkSceneMessagesHandled { scene_uuid: SceneUuid, details: String },
    FailedToGetHibernationState { person_uuid: PersonUuid, details: String },
    FailedToGetEnabledState { person_uuid: PersonUuid, details: String },
    FailedToCreateMemory(String),
    FailedToCreateReflectionStateOfMind(String),
    FailedToCreateReflectionMemory(String),
    FailedToCreateReflectionMotivation(String),
    FailedToDeleteReflectionMotivation(String),
    FailedToGetCurrentTask(String),
    TaskOutcomeClassification(String),
    TaskTransition(String),
    Action(ActionHandleError),
    Reflection(String),
}

/// The explanation of a reaction error.
pub open spec fn reaction_error_text(e: Error) -> Seq<char> {
    match e {
        Error::GetPersonReaction(d) => "Failed to get person reaction: "@ + d@,
        Error::FailedToGetEvents(d) => "Failed to get events: "@ + d@,
        Error::FailedToGetStateOfMind(d) => "Failed to get state of mind: "@ + d@,
        Error::NoStateOfMindFound { person_uuid } => "No state of mind found for person "@ + uuid_text(person_uuid.0),
        Error::CouldNotCreateMemoriesPrompt(d) => "Could not create memories prompt: "@ + d@,
        Error::FailedToSearchMemories(d) => "Failed to search memories: "@ + d@,
        Error::FailedToGetPersonIdentity(d) => "Failed to get person identity: "@ + d@,
        Error::NoPersonIdentityFound { person_uuid } => "No person identity found for person "@ + uuid_text(person_uuid.0),
        Error::FailedToGetSendersName { person_uuid, details } => "Failed to get person's name for "@ + uuid_text(person_uuid.0)
            + ": "@ + details@,
        Error::FailedToGetPersonsName(d) => "Failed to get person's name: "@ + d@,
        Error::FailedToGetSceneParticipants { scene_uuid, details } => "Failed to get scene participants for "@
            + uuid_text(scene_uuid.0) + ": "@ + details@,
        Error::FailedToGetSceneName { scene_uuid, details } => "Failed to get scene name for "@ + uuid_text(scene_uuid.0)
            + ": "@ + details@,
        Error::SceneNameNotFound { scene_uuid } => "Scene name not found for "@ + uuid_text(scene_uuid.0),
        Error::FailedToGetSceneDescription { scene_uuid, details } => "Failed to get scene description for "@
            + uuid_text(scene_uuid.0) + ": "@ + details@,
        Error::SceneDescriptionNotFound { scene_uuid } => "Scene description not found for "@ + uuid_text(scene_uuid.0),
        Error::FailedToGetUnhandledSceneMessages { scene_uuid, details } => "Failed to get unhandled scene messages for "@
            + uuid_text(scene_uuid.0) + ": "@ + details@,
        Error::FailedToMarkSceneMessagesHandled { scene_uuid, details } => "Failed to mark scene messages handled for "@
            + uuid_text(scene_uuid.0) + ": "@ + details@,
        Error::FailedToGetHibernationState { person_uuid, details } => "Failed to get hibernation state for "@
            + uuid_text(person_uuid.0) + ": "@ + details@,
        Error::FailedToGetEnabledState { person_uuid, details } => "Failed to get enabled state for "@
            + uuid_text(person_uuid.0) + ": "@ + details@,
        Error::FailedToCreateMemory(d) => "Failed to create memory:\n"@ + d@,
        Error::FailedToCreateReflectionStateOfMind(d) => "Failed to create reflection state of mind:\n"@ + d@,
        Error::FailedToCreateReflectionMemory(d) => "Failed to create reflection memory:\n"@ + d@,
        Error::FailedToCreateReflectionMotivation(d) => "Failed to create reflection motivation:\n"@ + d@,
        Error::FailedToDeleteReflectionMotivation(d) => "Failed to delete reflection motivation:\n"@ + d@,
        Error::FailedToGetCurrentTask(d) => "Failed to get current task:\n"@ + d@,
        Error::TaskOutcomeClassification(d) => "Task outcome classification failed:\n"@ + d@,
        Error::TaskTransition(d) => "Task transition failed:\n"@ + d@,
        Error::Action(a) => action_error_text(a),
        Error::Reflection(d) => "Reflection error:\n"@ + d@,
    }
}

fn prefixed(prefix: &str, d: &String) -> (res: String)
    ensures
        res@ == prefix@ + d@,
{
    let mut s = String::from_str(prefix);
    s.append(d.as_str());
    s
}

fn with_uuid(prefix: &str, uuid: u128) -> (res: String)
    ensures
        res@ == prefix@ + uuid_text(uuid),
{
    let u = uuid_string(uuid);
    prefixed(prefix, &u)
}

fn with_uuid_details(prefix: &str, uuid: u128, details: &String) -> (res: String)
    ensures
        res@ == prefix@ + uuid_text(uuid) + ": "@ + details@,
{
    let mut s = with_uuid(prefix, uuid);
    s.append(": ");
    s.append(details.as_str());
    s
}

impl Error {
    /// The explanation of the error.
    pub fn explain(&self) -> (res: String)
        ensures
            res@ == reaction_error_text(*self),
    {
        match self {
            Error::GetPersonReaction(d) => prefixed("Failed to get person reaction: ", d),
            Error::FailedToGetEvents(d) => prefixed("Failed to get events: ", d),
            Error::FailedToGetStateOfMind(d) => prefixed("Failed to get state of mind: ", d),
            Error::NoStateOfMindFound { person_uuid } => with_uuid("No state of mind found for person ", person_uuid.0),
            Error::CouldNotCreateMemoriesPrompt(d) => prefixed("Could not create memories prompt: ", d),
            Error::FailedToSearchMemories(d) => prefixed("Failed to search memories: ", d),
            Error::FailedToGetPersonIdentity(d) => prefixed("Failed to get person identity: ", d),
            Error::NoPersonIdentityFound { person_uuid } => with_uuid("No person identity found for person ", person_uuid.0),
            Error::FailedToGetSendersName { person_uuid, details } =>
                with_uuid_details("Failed to get person's name for ", person_uuid.0, details),
            Error::FailedToGetPersonsName(d) => prefixed("Failed to get person's name: ", d),
            Error::FailedToGetSceneParticipants { scene_uuid, details } =>
                with_uuid_details("Failed to get scene participants for ", scene_uuid.0, details),
            Error::FailedToGetSceneName { scene_uuid, details } =>
                with_uuid_details("Failed to get scene name for ", scene_uuid.0, details),
            Error::SceneNameNotFound { scene_uuid } => with_uuid("Scene name not found for ", scene_uuid.0),
            Error::FailedToGetSceneDescription { scene_uuid, details } =>
                with_uuid_details("Failed to get scene description for ", scene_uuid.0, details),
            Error::SceneDescriptionNotFound { scene_uuid } => with_uuid("Scene description not found for ", scene_uuid.0),
            Error::FailedToGetUnhandledSceneMessages { scene_uuid, details } =>
                with_uuid_details("Failed to get unhandled scene messages for ", scene_uuid.0, details),
            Error::FailedToMarkSceneMessagesHandled { scene_uuid, details } =>
                with_uuid_details("Failed to mark scene messages handled for ", scene_uuid.0, details),
            Error::FailedToGetHibernationState { person_uuid, details } =>
                with_uuid_details("Failed to get hibernation state for ", person_uuid.0, details),
            Error::FailedToGetEnabledState { person_uuid, details } =>
                with_uuid_details("Failed to get enabled state for ", person_uuid.0, details),
            Error::FailedToCreateMemory(d) => prefixed("Failed to create memory:\n", d),
            Error::FailedToCreateReflectionStateOfMind(d) => prefixed("Failed to create reflection state of mind:\n", d),
            Error::FailedToCreateReflectionMemory(d) => prefixed("Failed to create reflection memory:\n", d),
            Error::FailedToCreateReflectionMotivation(d) => prefixed("Failed to create reflection motivation:\n", d),
            Error::FailedToDeleteReflectionMotivation(d) => prefixed("Failed to delete reflection motivation:\n", d),
            Error::FailedToGetCurrentTask(d) => prefixed("Failed to get current task:\n", d),
            Error::TaskOutcomeClassification(d) => prefixed("Task outcome classification failed:\n", d),
            Error::TaskTransition(d) => prefixed("Task transition failed:\n", d),
            Error::Action(a) => a.explain(),
            Error::Reflection(d) => prefixed("Reflection error:\n", d),
        }
    }
}

impl NiceDisplay for Error {
    open spec fn message_spec(&self) -> Seq<char> {
        reaction_error_text(*self)
    }

    fn message(&self) -> (res: String) {
        let r = self.explain();
        assert(self.message_spec() == reaction_error_text(*self));
        r
    }
}

/// Whether the event is the record of one of the messages.
pub open spec fn records_one_of(e: Event, messages: Seq<Message>) -> bool {
    match e.event_type {
        EventType::Said { message_uuid, .. } => exists|i: int| 0 <= i < messages.len() && #[trigger] messages[i].uuid == message_uuid,
        _ => false,
    }
}

/// The events that do not record one of the messages, in order.
pub open spec fn kept_reaction_events(events: Seq<Event>, messages: Seq<Message>) -> Seq<Event>
    decreases events.len(),
{
    if events.len() == 0 {
        Seq::empty()
    } else {
        let rest = kept_reaction_events(events.drop_last(), messages);
        if records_one_of(events.last(), messages) {
            rest
        } else {
            rest.push(events.last())
        }
    }
}

fn is_one_of(u: MessageUuid, messages: &Vec<Message>) -> (res: bool)
    ensures
        res == exists|i: int| 0 <= i < messages@.len() && #[trigger] messages@[i].uuid == u,
{
    let mut i: usize = 0;
    while i < messages.len()
        invariant
            i <= messages.len(),
            forall|j: int| 0 <= j < i ==> #[trigger] messages@[j].uuid != u,
        decreases messages.len() - i,
    {
        if messages[i].uuid.0 == u.0 {
            return true;
        }
        i = i + 1;
    }
    false
}

/// Leaves out the events that record one of the messages: those are shown to
/// the person as new.
pub fn filter_reaction_events(events: Vec<Event>, messages: &Vec<Message>) -> (res: Vec<Event>)
    ensures
        res@ == kept_reaction_events(events@, messages@),
{
    let mut res: Vec<Event> = Vec::new();
    let mut i: usize = 0;
    while i < events.len()
        invariant
            i <= events.len(),
            res@ == kept_reaction_events(events@.take(i as int), messages@),
        decreases events.len() - i,
    {
        proof {
            assert(events@.take(i + 1).drop_last() =~= events@.take(i as int));
            assert(events@.take(i + 1).last() == events@[i as int]);
        }
        let listed = match &events[i].event_type {
            EventType::Said { message_uuid, .. } => is_one_of(*message_uuid, messages),
            _ => false,
        };
        if !listed {
            res.push(events[i].copy());
        }
        i = i + 1;
    }
    proof {
        assert(events@.take(events.len() as int) =~= events@);
    }
    res
}

/// What the person is told to react to first.
pub open spec fn priority_instruction(trigger: SceneReactionTrigger) -> Seq<char> {
    match trigger {
        SceneReactionTrigger::NewMessages =>
            "React to the newest activity first. Prioritize the NEW MESSAGE EVENT lines below when deciding what to do now."@,
        SceneReactionTrigger::PersonJoined { .. } =>
            "React to the newest activity first. Prioritize the NEW JOIN EVENT lines below when deciding what to do now."@,
        SceneReactionTrigger::SceneDescriptionGaze =>
            "React to the current scene description first. Prioritize the SCENE GAZE EVENT lines below when deciding what to do now."@,
    }
}

/// The heading of the new events.
pub open spec fn new_event_section_label(trigger: SceneReactionTrigger) -> Seq<char> {
    match trigger {
        SceneReactionTrigger::NewMessages => "New message events (newest; primary reaction target):"@,
        SceneReactionTrigger::PersonJoined { .. } => "New join events (newest; primary reaction target):"@,
        SceneReactionTrigger::SceneDescriptionGaze => "Scene gaze event (primary reaction target):"@,
    }
}

/// The line of a new message from the sender labelled `label`.
pub open spec fn message_event_line(label: Seq<char>, content: Seq<char>) -> Seq<char> {
    "In the current scene, "@ + label + " said: \""@ + normalized_content(content) + "\" [NEW MESSAGE EVENT]"@
}

/// The situation line of a message from the sender labelled `label`.
pub open spec fn situation_message_line(label: Seq<char>, content: Seq<char>) -> Seq<char> {
    label + ": \""@ + normalized_content(content) + "\""@
}

/// The label of the real-world user.
pub open spec fn real_world_user_label() -> Seq<char> {
    "Chadtech"@
}

/// The new event of someone joining.
pub open spec fn join_event_text(person_name: Seq<char>) -> Seq<char> {
    "In the current scene, "@ + person_name + " joined the scene [NEW JOIN EVENT]"@
}

/// The new event of a look at the scene.
pub open spec fn gaze_event_text(scene_name: Seq<char>, scene_description: Seq<char>) -> Seq<char> {
    "In the current scene \""@ + scene_name + "\", the environment is described as:\n"@ + scene_description
        + "\n[SCENE GAZE EVENT]"@
}

/// The section of new message lines: `None.` where there is none.
pub open spec fn message_section_text(lines: Seq<Seq<char>>) -> Seq<char> {
    if lines.len() == 0 {
        "None."@
    } else {
        join_seq(lines, "\n"@)
    }
}

/// What the memory of a join or a look starts with.
pub open spec fn description_prefix_text(trigger: SceneReactionTrigger, section: Seq<char>) -> Option<Seq<char>> {
    match trigger {
        SceneReactionTrigger::NewMessages => None,
        SceneReactionTrigger::PersonJoined { .. } => Some("Join event:\n"@ + section),
        SceneReactionTrigger::SceneDescriptionGaze => Some("Scene gaze event:\n"@ + section),
    }
}

/// The situation the person reacts to.
pub open spec fn reaction_situation_text(
    trigger: SceneReactionTrigger,
    recent_events_summary: Seq<char>,
    section: Seq<char>,
    prompt_situation: Seq<char>,
) -> Seq<char> {
    priority_instruction(trigger) + "\n\nRecent events (older context):\n"@ + recent_events_summary + "\n\n"@
        + new_event_section_label(trigger) + "\n"@ + section + "\n\n"@ + prompt_situation
}

/// The situation the person reflects on.
pub open spec fn reflection_situation_text(situation: Seq<char>, recent_events: Seq<char>) -> Seq<char> {
    situation + "\n\nRecent events:\n"@ + recent_events
}

/// What the person may remember of the reaction.
pub open spec fn memory_description_text(situation: Seq<char>, prefix: Option<Seq<char>>, summary: Seq<char>) -> Seq<char> {
    match prefix {
        Some(p) => situation + "\n\n"@ + p + "\n\nResponse:\n"@ + summary,
        None => situation + "\n\nResponse:\n"@ + summary,
    }
}

/// The line of a new message from the sender labelled `label`.
pub fn message_event_line_text(label: &str, content: &str) -> (res: String)
    ensures
        res@ == message_event_line(label@, content@),
{
    let mut s = String::from_str("In the current scene, ");
    s.append(label);
    s.append(" said: \"");
    let c = normalize_message_content(content);
    s.append(c.as_str());
    s.append("\" [NEW MESSAGE EVENT]");
    s
}

/// The situation line of a message from the sender labelled `label`.
pub fn situation_message_line_text(label: &str, content: &str) -> (res: String)
    ensures
        res@ == situation_message_line(label@, content@),
{
    let mut s = String::from_str(label);
    s.append(": \"");
    let c = normalize_message_content(content);
    s.append(c.as_str());
    s.append("\"");
    s
}

/// The new event of someone joining.
pub fn join_event(person_name: &str) -> (res: String)
    ensures
        res@ == join_event_text(person_name@),
{
    let mut s = String::from_str("In the current scene, ");
    s.append(person_name);
    s.append(" joined the scene [NEW JOIN EVENT]");
    s
}

/// The new event of a look at the scene.
pub fn gaze_event(scene_name: &str, scene_description: &str) -> (res: String)
    ensures
        res@ == gaze_event_text(scene_name@, scene_description@),
{
    let mut s = String::from_str("In the current scene \"");
    s.append(scene_name);
    s.append("\", the environment is described as:\n");
    s.append(scene_description);
    s.append("\n[SCENE GAZE EVENT]");
    s
}

/// The section of new message lines.
pub fn message_section(lines: &Vec<String>) -> (res: String)
    ensures
        res@ == message_section_text(crate::text::string_views(lines@)),
{
    if lines.len() == 0 {
        String::from_str("None.")
    } else {
        crate::text::join_texts(lines, "\n")
    }
}

/// What the memory of a join or a look starts with.
pub fn description_prefix(trigger: SceneReactionTrigger, section: &str) -> (res: Option<String>)
    ensures
        match res {
            Some(s) => description_prefix_text(trigger, section@) == Some(s@),
            None => description_prefix_text(trigger, section@) is None,
        },
{
    match trigger {
        SceneReactionTrigger::NewMessages => None,
        SceneReactionTrigger::PersonJoined { .. } => {
            let mut s = String::from_str("Join event:\n");
            s.append(section);
            Some(s)
        },
        SceneReactionTrigger::SceneDescriptionGaze => {
            let mut s = String::from_str("Scene gaze event:\n");
            s.append(section);
            Some(s)
        },
    }
}

/// The situation the person reacts to.
pub fn reaction_situation(
    trigger: SceneReactionTrigger,
    recent_events_summary: &str,
    section: &str,
    prompt_situation: &str,
) -> (res: String)
    ensures
        res@ == reaction_situation_text(trigger, recent_events_summary@, section@, prompt_situation@),
{
    let mut s = match trigger {
        SceneReactionTrigger::NewMessages => String::from_str(
            "React to the newest activity first. Prioritize the NEW MESSAGE EVENT lines below when deciding what to do now.",
        ),
        SceneReactionTrigger::PersonJoined { .. } => String::from_str(
            "React to the newest activity first. Prioritize the NEW JOIN EVENT lines below when deciding what to do now.",
        ),
        SceneReactionTrigger::SceneDescriptionGaze => String::from_str(
            "React to the current scene description first. Prioritize the SCENE GAZE EVENT lines below when deciding what to do now.",
        ),
    };
    s.append("\n\nRecent events (older context):\n");
    s.append(recent_events_summary);
    s.append("\n\n");
    match trigger {
        SceneReactionTrigger::NewMessages => s.append("New message events (newest; primary reaction target):"),
        SceneReactionTrigger::PersonJoined { .. } => s.append("New join events (newest; primary reaction target):"),
        SceneReactionTrigger::SceneDescriptionGaze => s.append("Scene gaze event (primary reaction target):"),
    }
    s.append("\n");
    s.append(section);
    s.append("\n\n");
    s.append(prompt_situation);
    s
}

/// The situation the person reflects on.
pub fn reflection_situation(situation: &str, recent_events: &str) -> (res: String)
    ensures
        res@ == reflection_situation_text(situation@, recent_events@),
{
    let mut s = String::from_str(situation);
    s.append("\n\nRecent events:\n");
    s.append(recent_events);
    s
}

/// What the person may remember of the reaction.
pub fn memory_description(situation: &str, prefix: &Option<String>, summary: &str) -> (res: String)
    ensures
        res@ == memory_description_text(situation@, crate::domain::situation::opt_view(*prefix), summary@),
{
    let mut s = String::from_str(situation);
    match prefix {
        Some(p) => {
            s.append("\n\n");
            s.append(p.as_str());
        },
        None => {},
    }
    s.append("\n\nResponse:\n");
    s.append(summary);
    s
}

} // verus!

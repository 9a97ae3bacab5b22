use arizona2::capability::{MemoryQueryPrompt, ReactionPromptPreview, SceneParticipant};
use arizona2::domain::actor_uuid::ActorUuid;
use arizona2::domain::event::{Event, EventType};
use arizona2::domain::job::effects::{Next, Reply, WorkerCall};
use arizona2::domain::job::process_reaction_common::scene_reaction::{
    preview_scene_reaction_prompts, run_scene_reaction,
};
use arizona2::domain::job::process_reaction_common::SceneReactionTrigger;
use arizona2::domain::job::JobKind;
use arizona2::domain::memory::MemorySearchResult;
use arizona2::domain::message::{Message, MessageSender};
use arizona2::domain::message_uuid::MessageUuid;
use arizona2::domain::person_name::PersonName;
use arizona2::domain::person_uuid::PersonUuid;
use arizona2::domain::random_seed::RandomSeed;
use arizona2::domain::scene_uuid::SceneUuid;
use arizona2::domain::state_of_mind::StateOfMind;
use arizona2::person_actions::{PersonAction, PersonReaction, ReflectionDecision};

const ALICE: PersonUuid = PersonUuid(1);
const BOB: PersonUuid = PersonUuid(2);
const CHARLIE: PersonUuid = PersonUuid(3);
const SCENE: SceneUuid = SceneUuid(10);
const PENDING: MessageUuid = MessageUuid(20);

struct Mock {
    is_enabled: bool,
    is_hibernating: bool,
    pending: Vec<Message>,
    reaction_action: PersonAction,
    summarize_inputs: Vec<String>,
    preview_situations: Vec<String>,
    reaction_situations: Vec<String>,
    handled: Vec<Vec<MessageUuid>>,
    sent: Vec<(MessageSender, SceneUuid, String)>,
    recipient_batches: Vec<Vec<PersonUuid>>,
    jobs: Vec<JobKind>,
    reaction_kinds: Vec<String>,
    memory_descriptions: Vec<String>,
}

fn name_of(p: PersonUuid) -> String {
    match p.0 {
        1 => "Alice".to_string(),
        2 => "Bob".to_string(),
        _ => "Charlie".to_string(),
    }
}

fn pending_message() -> Message {
    Message {
        uuid: PENDING,
        sender: MessageSender::AiPerson(BOB),
        scene_uuid: SCENE,
        content: "Hey Alice, are you coming?".to_string(),
        sent_at: 0,
    }
}

fn events() -> Vec<Event> {
    vec![
        Event::new(
            1,
            EventType::Entered { person_name: "Charlie".to_string(), scene_name: "Cafe".to_string() },
        ),
        Event::new(
            2,
            EventType::Said {
                scene_name: "Cafe".to_string(),
                speaker_name: "Bob".to_string(),
                comment: "Hey Alice, are you coming?".to_string(),
                message_uuid: PENDING,
            },
        ),
    ]
}

impl Mock {
    fn new() -> Self {
        Mock {
            is_enabled: true,
            is_hibernating: false,
            pending: vec![pending_message()],
            reaction_action: PersonAction::SayInScene {
                comment: "On my way.".to_string(),
                destination_scene_name: None,
            },
            summarize_inputs: vec![],
            preview_situations: vec![],
            reaction_situations: vec![],
            handled: vec![],
            sent: vec![],
            recipient_batches: vec![],
            jobs: vec![],
            reaction_kinds: vec![],
            memory_descriptions: vec![],
        }
    }

    fn answer(&mut self, call: WorkerCall) -> Reply {
        match call {
            WorkerCall::GetUnhandledSceneMessages { .. } => Reply::Messages(Ok(self.pending.iter().cloned().collect())),
            WorkerCall::IsPersonEnabled { .. } => Reply::Flag(Ok(self.is_enabled)),
            WorkerCall::IsPersonHibernating { .. } => Reply::Flag(Ok(self.is_hibernating)),
            WorkerCall::GetPersonsName { person_uuid } => Reply::Name(Ok(PersonName(name_of(person_uuid)))),
            WorkerCall::GetSceneCurrentParticipants { .. } => Reply::Participants(Ok(vec![ALICE, BOB, CHARLIE]
                .into_iter()
                .map(|p| SceneParticipant { actor_uuid: ActorUuid::AiPerson(p), person_name: PersonName(name_of(p)) })
                .collect())),
            WorkerCall::GetEvents { .. } => Reply::Events(Ok(events())),
            WorkerCall::GetLatestStateOfMind { .. } => Reply::StateOfMind(Ok(Some(StateOfMind {
                content: "Alert and curious".to_string(),
            }))),
            WorkerCall::CreateMemoryQueryPrompt { .. } => Reply::Prompt(Ok(MemoryQueryPrompt {
                prompt: "what about Bob".to_string(),
            })),
            WorkerCall::SearchMemories { .. } => Reply::Memories(Ok(vec![MemorySearchResult {
                content: "Alice trusts Bob when he sounds urgent.".to_string(),
                distance_tier: 0,
            }])),
            WorkerCall::GetPersonIdentitySummary { .. } => Reply::MaybeText(Ok(Some(
                "Alice is thoughtful and reliable.".to_string(),
            ))),
            WorkerCall::SummarizeReactionEvents { events_text } => {
                self.summarize_inputs.push(events_text);
                Reply::Text(Ok("OLDER SUMMARY".to_string()))
            },
            WorkerCall::PreviewReactionPrompts { situation, .. } => {
                self.preview_situations.push(situation);
                Reply::Preview(Ok(ReactionPromptPreview {
                    thinking_system_prompt: "sys".to_string(),
                    thinking_user_prompt: "user".to_string(),
                    action_system_prompt: "action-sys".to_string(),
                    action_user_prompt: "action-user".to_string(),
                }))
            },
            WorkerCall::GetReaction { situation, .. } => {
                self.reaction_situations.push(situation);
                Reply::Reaction(Ok(PersonReaction {
                    action: self.reaction_action.copy(),
                    reflection: ReflectionDecision::NoReflection,
                }))
            },
            WorkerCall::GetPersonsCurrentSceneUuid { .. } => Reply::CurrentScene(Ok(Some(SCENE))),
            WorkerCall::SendSceneMessage { sender, scene_uuid, content } => {
                self.sent.push((sender, scene_uuid, content));
                Reply::MessageSent(Ok(MessageUuid(99)))
            },
            WorkerCall::AddSceneMessageRecipients { recipients, .. } => {
                self.recipient_batches.push(recipients);
                Reply::Unit(Ok(()))
            },
            WorkerCall::UnshiftJob { job } => {
                self.jobs.push(job);
                Reply::Unit(Ok(()))
            },
            WorkerCall::RecordReaction { action_kind, .. } => {
                self.reaction_kinds.push(action_kind);
                Reply::Unit(Ok(()))
            },
            WorkerCall::GetPersonsCurrentActiveTask { .. } => Reply::Task(Ok(None)),
            WorkerCall::MaybeCreateMemoriesFromDescription { description, .. } => {
                self.memory_descriptions.push(description);
                Reply::MemoryIds(Ok(vec![]))
            },
            WorkerCall::MarkSceneMessagesHandled { message_uuids, .. } => {
                self.handled.push(message_uuids);
                Reply::Unit(Ok(()))
            },
            other => panic!("unexpected request {:?}", other),
        }
    }
}

fn run(mock: &mut Mock, trigger: SceneReactionTrigger, seed: u64, now: i64) -> Result<(), String> {
    let (mut state, mut next) = run_scene_reaction(ALICE, SCENE, trigger, RandomSeed::from_u64(seed), now);
    loop {
        match next {
            Next::Call(call) => {
                let reply = mock.answer(call);
                let (s, n) = state.resume(reply);
                state = s;
                next = n;
            },
            Next::Done(result) => return result.map_err(|e| e.explain()),
        }
    }
}

#[test]
fn preview_scene_reaction_prompts_filters_pending_message_events_and_highlights_new_messages() {
    let mut mock = Mock::new();
    let (mut state, mut next) = preview_scene_reaction_prompts(ALICE, SCENE, SceneReactionTrigger::NewMessages);
    let preview = loop {
        match next {
            Next::Call(call) => {
                let reply = mock.answer(call);
                let (s, n) = state.resume(reply);
                state = s;
                next = n;
            },
            Next::Done(result) => break result,
        }
    };
    assert!(preview.is_ok());
    assert_eq!(mock.summarize_inputs.len(), 1);
    assert!(mock.summarize_inputs[0].contains("Charlie entered scene Cafe"));
    assert!(!mock.summarize_inputs[0].contains("Hey Alice, are you coming?"));
    assert_eq!(mock.preview_situations.len(), 1);
    let situation = &mock.preview_situations[0];
    assert!(situation.contains("OLDER SUMMARY"));
    assert!(situation.contains("New message events (newest; primary reaction target):"));
    assert!(situation.contains("[NEW MESSAGE EVENT]"));
    assert!(situation.contains("Bob said"));
}

#[test]
fn run_scene_reaction_skips_disabled_people_and_marks_pending_messages_handled() {
    let mut mock = Mock::new();
    mock.is_enabled = false;
    assert_eq!(run(&mut mock, SceneReactionTrigger::NewMessages, 7, 50), Ok(()));
    assert!(mock.reaction_situations.is_empty());
    assert_eq!(mock.handled.len(), 1);
    assert_eq!(mock.handled[0], vec![PENDING]);
    assert!(mock.sent.is_empty());
}

#[test]
fn run_scene_reaction_say_in_scene_sends_reply_enqueues_follow_up_jobs_and_records_memory() {
    let mut mock = Mock::new();
    assert_eq!(run(&mut mock, SceneReactionTrigger::NewMessages, 9, 120_000), Ok(()));
    assert_eq!(mock.sent.len(), 1);
    let (_, sent_scene, sent_content) = &mock.sent[0];
    assert_eq!(*sent_scene, SCENE);
    assert_eq!(sent_content, "On my way.");
    assert_eq!(mock.recipient_batches.len(), 1);
    let recipients = &mock.recipient_batches[0];
    assert_eq!(recipients.len(), 2);
    assert!(recipients.contains(&BOB));
    assert!(recipients.contains(&CHARLIE));
    assert!(!recipients.contains(&ALICE));
    let reacting: Vec<PersonUuid> = mock
        .jobs
        .iter()
        .filter_map(|job| match job {
            JobKind::ProcessMessage(j) => Some(j.recipient_person_uuid),
            _ => None,
        })
        .collect();
    assert_eq!(reacting.len(), 2);
    assert!(reacting.contains(&BOB));
    assert!(reacting.contains(&CHARLIE));
    let wait_jobs: Vec<i64> = mock
        .jobs
        .iter()
        .filter_map(|job| match job {
            JobKind::PersonWaiting(w) => Some(w.run_at_active_ms()),
            _ => None,
        })
        .collect();
    assert_eq!(wait_jobs, vec![120_000]);
    assert_eq!(mock.reaction_kinds, vec!["say_in_scene".to_string()]);
    assert_eq!(mock.handled, vec![vec![PENDING]]);
    assert_eq!(mock.memory_descriptions.len(), 1);
    assert!(mock.memory_descriptions[0].contains("Response:\nSpoke in scene: On my way."));
}

#[test]
fn new_messages_without_pending_messages_end_quietly() {
    let mut mock = Mock::new();
    mock.pending = vec![];
    assert_eq!(run(&mut mock, SceneReactionTrigger::NewMessages, 1, 0), Ok(()));
    assert!(mock.reaction_situations.is_empty());
    assert!(mock.handled.is_empty());
}

#[test]
fn joining_person_is_announced_and_remembered_with_the_join_event() {
    let mut mock = Mock::new();
    mock.reaction_action = PersonAction::Idle;
    let trigger = SceneReactionTrigger::PersonJoined { joined_person_uuid: CHARLIE };
    assert_eq!(run(&mut mock, trigger, 3, 1_000), Ok(()));
    assert_eq!(mock.reaction_situations.len(), 1);
    let situation = &mock.reaction_situations[0];
    assert!(situation.starts_with("React to the newest activity first. Prioritize the NEW JOIN EVENT lines"));
    assert!(situation.contains("New join events (newest; primary reaction target):\nIn the current scene, Charlie joined the scene [NEW JOIN EVENT]"));
    assert!(mock.handled.is_empty());
    assert_eq!(mock.memory_descriptions.len(), 1);
    assert!(mock.memory_descriptions[0].contains("\n\nJoin event:\nIn the current scene, Charlie joined the scene [NEW JOIN EVENT]\n\nResponse:\nDid nothing."));
    let waits: Vec<i64> = mock
        .jobs
        .iter()
        .filter_map(|job| match job {
            JobKind::PersonWaiting(w) => Some(w.run_at_active_ms()),
            _ => None,
        })
        .collect();
    assert_eq!(waits, vec![1_000 + 240_000]);
}

#[test]
fn hibernating_person_does_not_react_and_pending_messages_are_handled() {
    let mut mock = Mock::new();
    mock.is_hibernating = true;
    assert_eq!(run(&mut mock, SceneReactionTrigger::NewMessages, 2, 50), Ok(()));
    assert!(mock.reaction_situations.is_empty());
    assert!(mock.sent.is_empty());
    assert_eq!(mock.handled, vec![vec![PENDING]]);
}

use arizona2::capability::SceneParticipant;
use arizona2::domain::actor_uuid::ActorUuid;
use arizona2::domain::job::process_message::ProcessMessageJob;
use arizona2::domain::job::send_message_to_scene::select_recipients;
use arizona2::domain::job::{JobData, JobKind};
use arizona2::domain::logger::{Level, Logger};
use arizona2::domain::memory::{filter_memory_results, MemorySearchResult};
use arizona2::domain::message::MessageSender;
use arizona2::domain::message_uuid::MessageUuid;
use arizona2::domain::person_name::PersonName;
use arizona2::domain::person_task::PersonTaskTerminalOutcome;
use arizona2::domain::person_uuid::PersonUuid;
use arizona2::person_actions::{PersonActionKind, ReflectionDecision};

#[test]
fn stored_job_reads_back_by_its_name() {
    let job = ProcessMessageJob { message_uuid: MessageUuid(5), recipient_person_uuid: PersonUuid(6) };
    let name = JobKind::ProcessMessage(job).to_name();
    assert_eq!(name, "process message");
    let data = JobData {
        as_send_message_to_scene: Err("not this kind".to_string()),
        as_process_message: Ok(job),
        as_process_person_join: Err("not this kind".to_string()),
        as_person_waiting: Err("not this kind".to_string()),
        as_person_hibernating: Err("not this kind".to_string()),
    };
    match JobKind::parse(name, Some(data)) {
        Ok(JobKind::ProcessMessage(j)) => assert_eq!(j, job),
        _ => panic!("expected the same job"),
    }
    match JobKind::parse(JobKind::Ping.to_name(), None) {
        Ok(JobKind::Ping) => {}
        _ => panic!("expected a ping"),
    }
}

#[test]
fn logging_passes_every_more_important_level() {
    let levels = [Level::Debug, Level::Info, Level::Warning, Level::Error];
    for (i, least) in levels.iter().enumerate() {
        let logger = Logger::init(*least);
        for (j, level) in levels.iter().enumerate() {
            assert_eq!(logger.log_line(*level, "x").is_some(), j >= i);
        }
    }
    assert_eq!(Logger::init(Level::Info).log_line(Level::Error, "disk full"), Some("[ERROR] disk full\n".to_string()));
}

#[test]
fn recipients_are_the_other_ai_people() {
    let participants = vec![
        SceneParticipant { actor_uuid: ActorUuid::AiPerson(PersonUuid(1)), person_name: PersonName("Ana".to_string()) },
        SceneParticipant { actor_uuid: ActorUuid::AiPerson(PersonUuid(2)), person_name: PersonName("Bo".to_string()) },
        SceneParticipant { actor_uuid: ActorUuid::RealWorldUser, person_name: PersonName("User".to_string()) },
        SceneParticipant { actor_uuid: ActorUuid::AiPerson(PersonUuid(3)), person_name: PersonName("Cy".to_string()) },
    ];
    assert_eq!(select_recipients(MessageSender::AiPerson(PersonUuid(1)), &participants), vec![PersonUuid(2), PersonUuid(3)]);
    assert_eq!(
        select_recipients(MessageSender::RealWorldUser, &participants),
        vec![PersonUuid(1), PersonUuid(2), PersonUuid(3)]
    );
}

#[test]
fn task_outcome_names_are_distinct_and_read_back() {
    let names = PersonTaskTerminalOutcome::all_names();
    for (i, a) in names.iter().enumerate() {
        for b in names.iter().skip(i + 1) {
            assert_ne!(a, b);
        }
    }
    for outcome in PersonTaskTerminalOutcome::all() {
        let back = PersonTaskTerminalOutcome::from_tool_value(&outcome.to_name());
        assert!(matches!(back, Ok(o) if o == outcome));
    }
    assert!(PersonTaskTerminalOutcome::from_tool_value("maybe").is_err());
}

#[test]
fn choice_names_are_distinct() {
    let names = PersonActionKind::all_action_names();
    for (i, a) in names.iter().enumerate() {
        for b in names.iter().skip(i + 1) {
            assert_ne!(a, b);
        }
    }
    assert_ne!(ReflectionDecision::Reflection.to_name(), ReflectionDecision::NoReflection.to_name());
    assert_eq!(ReflectionDecision::all_names(), vec!["no_reflection".to_string(), "reflection".to_string()]);
}

#[test]
fn memories_come_from_the_tightest_threshold_that_keeps_any() {
    let results = vec![
        MemorySearchResult { content: "far".to_string(), distance_tier: 2 },
        MemorySearchResult { content: "near".to_string(), distance_tier: 1 },
        MemorySearchResult { content: "also near".to_string(), distance_tier: 1 },
    ];
    let kept: Vec<String> = filter_memory_results(results).into_iter().map(|m| m.content).collect();
    assert_eq!(kept, vec!["near".to_string(), "also near".to_string()]);
    let none = vec![MemorySearchResult { content: "too far".to_string(), distance_tier: 3 }];
    assert!(filter_memory_results(none).is_empty());
}

use arizona2::domain::job::Job;
use arizona2::domain::job_uuid::JobUuid;
use arizona2::job_runner::ActiveClock;
use arizona2::open_ai::completion::{CompletionError, MessageError};

#[test]
fn job_info_names_kind_uuid_and_finish_time() {
    let mut job = Job {
        uuid: JobUuid::test_id(7),
        kind: JobKind::Ping,
        started_at: Some(0),
        finished_at: Some(1_704_164_645_000_000),
        error: None,
        deleted_at: None,
    };
    assert_eq!(job.to_info_string(), "ping, uuid: 7, finished at 2024-01-02 03:04:05 UTC");
    job.finished_at = None;
    job.error = Some("boom".to_string());
    assert_eq!(job.to_info_string(), "ping, uuid: 7, failed");
    job.error = None;
    assert_eq!(job.status_label(), "not finished");
    job.started_at = None;
    assert_eq!(job.status_label(), "not started");
}

#[test]
fn message_errors_are_quoted_in_completion_errors() {
    let e = CompletionError::Message(MessageError::NoChoices { json: "{}".to_string() });
    assert_eq!(
        e.explain(),
        "I had trouble extracting the message from the response:\n\"No choices in response\\nResponse JSON:\\n{}\""
    );
}

#[test]
fn fresh_identifiers_are_time_ordered_uuids() {
    let a = PersonUuid::new().0;
    assert_eq!((a >> 76) & 0xF, 7);
    assert_eq!((a >> 62) & 0x3, 2);
}

#[test]
fn active_clock_starts_at_the_stored_time() {
    let mut clock = ActiveClock::new(5_000);
    let now = clock.current_ms();
    assert!(now >= 5_000);
    assert!(clock.current_ms() >= now);
    assert!(clock.last_ms >= now);
}

use arizona2::json::Json;
use arizona2::open_ai::tool_call::ToolCall;
use arizona2::person_actions::{PersonAction, PersonReaction};

#[test]
fn every_advertised_choice_parses() {
    for r in ReflectionDecision::all_names() {
        for a in PersonActionKind::all_action_names() {
            let call = ToolCall {
                name: "choose_action".to_string(),
                arguments: vec![
                    ("reflection".to_string(), Json::string(&r)),
                    ("action".to_string(), Json::string(&a)),
                    ("comment".to_string(), Json::string("c")),
                    ("scene_name".to_string(), Json::string("s")),
                    ("duration".to_string(), Json::PosInt(1)),
                ],
            };
            let reaction = PersonReaction::from_open_ai_tool_call(call).ok().unwrap();
            assert_eq!(reaction.reflection.to_name(), r);
            let ok = match (a.as_str(), &reaction.action) {
                ("wait", PersonAction::Wait { duration: 1 }) => true,
                ("hibernate", PersonAction::Hibernate { duration: 1 }) => true,
                ("idle", PersonAction::Idle) => true,
                ("say in scene", PersonAction::SayInScene { comment, destination_scene_name: None }) => comment == "c",
                ("move to scene", PersonAction::MoveToScene { scene_name }) => scene_name == "s",
                _ => false,
            };
            assert!(ok, "action {} read wrongly", a);
        }
    }
}

use arizona2::capability::{Scene, SceneParticipant};
use arizona2::domain::actor_uuid::ActorUuid;
use arizona2::domain::job::effects::{Next, Reply, WorkerCall};
use arizona2::domain::job::person_action_handler::{handle_person_action, ActionHandleError, HandleAction};
use arizona2::domain::job::JobKind;
use arizona2::domain::person_name::PersonName;
use arizona2::domain::person_uuid::PersonUuid;
use arizona2::domain::random_seed::RandomSeed;
use arizona2::domain::scene_participant_uuid::SceneParticipantUuid;
use arizona2::domain::scene_uuid::SceneUuid;
use arizona2::person_actions::PersonAction;

fn drive(
    start: (HandleAction, WorkerCall),
    mut answer: impl FnMut(&WorkerCall) -> Reply,
) -> (Vec<WorkerCall>, Result<(), ActionHandleError>) {
    let (mut state, first) = start;
    let mut calls = Vec::new();
    let mut next = Next::Call(first);
    loop {
        match next {
            Next::Call(call) => {
                let reply = answer(&call);
                calls.push(call);
                let (s, n) = state.resume(reply);
                state = s;
                next = n;
            }
            Next::Done(result) => return (calls, result),
        }
    }
}

const PERSON: PersonUuid = PersonUuid(7);

fn wait_duration(call: &WorkerCall) -> Option<(Option<PersonUuid>, i64, i64)> {
    match call {
        WorkerCall::UnshiftJob { job: JobKind::PersonWaiting(j) } => Some((j.person_uuid, j.duration_ms, j.start_active_ms)),
        _ => None,
    }
}

#[test]
fn idle_person_waits_four_minutes() {
    let (calls, result) = drive(
        handle_person_action(PersonAction::Idle, PERSON, RandomSeed::from_u64(0), 1_000),
        |_| Reply::Unit(Ok(())),
    );
    assert!(result.is_ok());
    assert_eq!(calls.len(), 1);
    assert_eq!(wait_duration(&calls[0]), Some((Some(PERSON), 240_000, 1_000)));
}

#[test]
fn waiting_person_queues_the_given_duration() {
    let (calls, result) = drive(
        handle_person_action(PersonAction::Wait { duration: 5_000 }, PERSON, RandomSeed::from_u64(0), 10),
        |_| Reply::Unit(Ok(())),
    );
    assert!(result.is_ok());
    assert_eq!(wait_duration(&calls[0]), Some((Some(PERSON), 5_000, 10)));
}

#[test]
fn failed_wait_queue_is_reported() {
    let (_, result) = drive(
        handle_person_action(PersonAction::Idle, PERSON, RandomSeed::from_u64(0), 0),
        |_| Reply::Unit(Err("queue full".to_string())),
    );
    match result {
        Err(e) => assert_eq!(e.explain(), "Person could not wait: queue full"),
        Ok(_) => panic!("expected a failure"),
    }
}

#[test]
fn hibernating_person_is_marked_then_queued() {
    let (calls, result) = drive(
        handle_person_action(PersonAction::Hibernate { duration: 60_000 }, PERSON, RandomSeed::from_u64(0), 20),
        |_| Reply::Unit(Ok(())),
    );
    assert!(result.is_ok());
    assert_eq!(calls.len(), 2);
    assert!(matches!(
        calls[0],
        WorkerCall::SetPersonHibernating { person_uuid, is_hibernating: true } if person_uuid == PERSON
    ));
    match &calls[1] {
        WorkerCall::UnshiftJob { job: JobKind::PersonHibernating(j) } => {
            assert_eq!(j.person_uuid, PERSON);
            assert_eq!(j.duration_ms, 60_000);
            assert_eq!(j.start_active_ms, 20);
        }
        other => panic!("unexpected call {:?}", other),
    }
}

#[test]
fn failing_to_mark_hibernation_stops_there() {
    let (calls, result) = drive(
        handle_person_action(PersonAction::Hibernate { duration: 1 }, PERSON, RandomSeed::from_u64(0), 0),
        |_| Reply::Unit(Err("no row".to_string())),
    );
    assert_eq!(calls.len(), 1);
    match result {
        Err(e) => assert_eq!(e.explain(), "Could not set hibernation state: no row"),
        Ok(_) => panic!("expected a failure"),
    }
}

fn participant(p: u128, name: &str) -> SceneParticipant {
    SceneParticipant { actor_uuid: ActorUuid::AiPerson(PersonUuid(p)), person_name: PersonName(name.to_string()) }
}

#[test]
fn moving_to_a_known_scene_queues_a_wait_and_join_jobs_then_records() {
    let target = SceneUuid(99);
    let (calls, result) = drive(
        handle_person_action(
            PersonAction::MoveToScene { scene_name: "Harbor".to_string() },
            PERSON,
            RandomSeed::from_u64(0),
            500,
        ),
        |call| match call {
            WorkerCall::GetPersonsName { .. } => Reply::Name(Ok(PersonName("Ana".to_string()))),
            WorkerCall::GetPersonsCurrentSceneUuid { .. } => Reply::CurrentScene(Ok(Some(SceneUuid(1)))),
            WorkerCall::GetSceneFromName { .. } => {
                Reply::SceneByName(Ok(Some(Scene { uuid: target, name: "Harbor".to_string() })))
            }
            WorkerCall::AddPersonToScene { .. } => Reply::Participation(Ok(SceneParticipantUuid(3))),
            WorkerCall::GetSceneCurrentParticipants { .. } => Reply::Participants(Ok(vec![
                participant(7, "Ana"),
                SceneParticipant { actor_uuid: ActorUuid::RealWorldUser, person_name: PersonName("User".to_string()) },
                participant(8, "Bo"),
            ])),
            _ => Reply::Unit(Ok(())),
        },
    );
    assert!(result.is_ok());
    assert!(matches!(&calls[2], WorkerCall::GetSceneFromName { scene_name } if scene_name == "Harbor"));
    assert!(matches!(&calls[3], WorkerCall::AddPersonToScene { scene_uuid, person_name } if *scene_uuid == target && person_name.0 == "Ana"));
    assert_eq!(wait_duration(&calls[4]), Some((Some(PERSON), 30_000, 500)));
    let joins: Vec<PersonUuid> = calls
        .iter()
        .filter_map(|c| match c {
            WorkerCall::UnshiftJob { job: JobKind::ProcessPersonJoin(j) } => {
                assert_eq!(j.scene_uuid, target);
                assert_eq!(j.joined_person_uuid, PERSON);
                Some(j.recipient_person_uuid)
            }
            _ => None,
        })
        .collect();
    assert_eq!(joins, vec![PersonUuid(7), PersonUuid(8)]);
    assert!(matches!(
        calls.last().unwrap(),
        WorkerCall::RecordReaction { action_kind, .. } if action_kind == "move_to_scene"
    ));
}

#[test]
fn moving_to_an_unknown_scene_from_nowhere_fails() {
    let (_, result) = drive(
        handle_person_action(
            PersonAction::MoveToScene { scene_name: "Nowhere".to_string() },
            PERSON,
            RandomSeed::from_u64(0),
            0,
        ),
        |call| match call {
            WorkerCall::GetPersonsName { .. } => Reply::Name(Ok(PersonName("Ana".to_string()))),
            WorkerCall::GetPersonsCurrentSceneUuid { .. } => Reply::CurrentScene(Ok(None)),
            WorkerCall::GetSceneFromName { .. } => Reply::SceneByName(Ok(None)),
            _ => Reply::Unit(Ok(())),
        },
    );
    match result {
        Err(e) => assert_eq!(
            e.explain(),
            "Person could not move to scene: Person is not currently in a scene; cannot derive travel context"
        ),
        Ok(_) => panic!("expected a failure"),
    }
}

#[test]
fn moving_to_an_unknown_scene_creates_it_from_the_current_one() {
    let (calls, result) = drive(
        handle_person_action(
            PersonAction::MoveToScene { scene_name: "Cave".to_string() },
            PERSON,
            RandomSeed::from_u64(0),
            0,
        ),
        |call| match call {
            WorkerCall::GetPersonsName { .. } => Reply::Name(Ok(PersonName("Ana".to_string()))),
            WorkerCall::GetPersonsCurrentSceneUuid { .. } => Reply::CurrentScene(Ok(Some(SceneUuid(1)))),
            WorkerCall::GetSceneFromName { .. } => Reply::SceneByName(Ok(None)),
            WorkerCall::CreateSceneFromTravel { .. } => {
                Reply::NewScene(Ok(Scene { uuid: SceneUuid(5), name: "Cave".to_string() }))
            }
            WorkerCall::AddPersonToScene { .. } => Reply::Participation(Ok(SceneParticipantUuid(3))),
            WorkerCall::GetSceneCurrentParticipants { .. } => Reply::Participants(Ok(vec![])),
            _ => Reply::Unit(Ok(())),
        },
    );
    assert!(result.is_ok());
    assert!(matches!(
        &calls[3],
        WorkerCall::CreateSceneFromTravel { scene_name, basis_scene_uuid } if scene_name == "Cave" && *basis_scene_uuid == SceneUuid(1)
    ));
}

#[test]
fn speaking_outside_any_scene_fails() {
    let (_, result) = drive(
        handle_person_action(
            PersonAction::SayInScene { comment: "hi".to_string(), destination_scene_name: None },
            PERSON,
            RandomSeed::from_u64(0),
            0,
        ),
        |call| match call {
            WorkerCall::GetPersonsName { .. } => Reply::Name(Ok(PersonName("Ana".to_string()))),
            _ => Reply::CurrentScene(Ok(None)),
        },
    );
    match result {
        Err(e) => assert_eq!(e.explain(), "Could not get person's scene: Person is not in any scene"),
        Ok(_) => panic!("expected a failure"),
    }
}

#[test]
fn action_error_texts() {
    let cases = [
        (ActionHandleError::Hibernate("x".to_string()), "Person could not hibernate: x"),
        (ActionHandleError::ReactionLog("x".to_string()), "Could not record reaction: x"),
        (ActionHandleError::PersonName("x".to_string()), "Could not get person's name: x"),
        (ActionHandleError::MoveToScene("x".to_string()), "Person could not move to scene: x"),
        (
            ActionHandleError::Say { scene_uuid: SceneUuid(0), details: "x".to_string() },
            "Person could not say in scene 00000000-0000-0000-0000-000000000000: x",
        ),
    ];
    for (e, text) in cases {
        assert_eq!(e.explain(), text);
    }
}

#[test]
fn speaking_sends_then_queues_a_wait_due_at_once_then_records() {
    let (calls, result) = drive(
        handle_person_action(
            PersonAction::SayInScene { comment: "hi".to_string(), destination_scene_name: None },
            PERSON,
            RandomSeed::from_u64(3),
            700,
        ),
        |call| match call {
            WorkerCall::GetPersonsName { .. } => Reply::Name(Ok(PersonName("Ana".to_string()))),
            WorkerCall::GetPersonsCurrentSceneUuid { .. } => Reply::CurrentScene(Ok(Some(SceneUuid(1)))),
            WorkerCall::GetSceneCurrentParticipants { .. } => {
                Reply::Participants(Ok(vec![participant(7, "Ana"), participant(8, "Bo")]))
            }
            WorkerCall::SendSceneMessage { .. } => Reply::MessageSent(Ok(arizona2::domain::message_uuid::MessageUuid(4))),
            _ => Reply::Unit(Ok(())),
        },
    );
    assert!(result.is_ok());
    let waits: Vec<(Option<PersonUuid>, i64, i64)> = calls.iter().filter_map(wait_duration).collect();
    assert_eq!(waits, vec![(Some(PERSON), 0, 700)]);
    let wait_at = calls.iter().position(|c| wait_duration(c).is_some()).unwrap();
    let record_at = calls
        .iter()
        .position(|c| matches!(c, WorkerCall::RecordReaction { action_kind, .. } if action_kind == "say_in_scene"))
        .unwrap();
    assert!(wait_at < record_at);
    assert_eq!(record_at, calls.len() - 1);
}

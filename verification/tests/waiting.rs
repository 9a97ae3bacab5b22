use arizona2::domain::event::{Event, EventType};
use arizona2::domain::job::effects::{Next, Reply, WorkerCall};
use arizona2::domain::job::person_waiting::{
    any_event_since, event_lines, waiting_situation_text, Error, PersonWaitingJob, WaitDecision,
};
use arizona2::domain::person_name::PersonName;
use arizona2::domain::person_uuid::PersonUuid;
use arizona2::domain::random_seed::RandomSeed;

fn job(started_at: i64, duration_ms: i64, start_active_ms: i64) -> PersonWaitingJob {
    PersonWaitingJob {
        person_uuid: Some(PersonUuid(4)),
        started_at: Some(started_at),
        duration_ms,
        start_active_ms,
    }
}

fn drive(
    job: &PersonWaitingJob,
    current_active_ms: i64,
    mut answer: impl FnMut(&WorkerCall) -> Reply,
) -> (Vec<WorkerCall>, Result<WaitDecision, Error>) {
    let (mut state, mut next) = job.run(RandomSeed::from_u64(0), current_active_ms);
    let mut calls = Vec::new();
    loop {
        match next {
            Next::Call(call) => {
                let reply = answer(&call);
                calls.push(call);
                let (s, n) = state.resume(reply);
                state = s;
                next = n;
            }
            Next::Done(result) => return (calls, result),
        }
    }
}

fn entered(timestamp: i64) -> Event {
    Event {
        timestamp,
        event_type: EventType::Entered { person_name: "Bo".to_string(), scene_name: "Harbor".to_string() },
    }
}

#[test]
fn hibernating_person_stops_waiting() {
    let (calls, result) = drive(&job(0, 1_000, 0), 5_000, |_| Reply::Flag(Ok(true)));
    assert_eq!(calls.len(), 1);
    assert_eq!(result.ok(), Some(WaitDecision::FinishedWaiting));
}

#[test]
fn disabled_person_stops_waiting() {
    let (calls, result) = drive(&job(0, 1_000, 0), 5_000, |call| match call {
        WorkerCall::IsPersonHibernating { .. } => Reply::Flag(Ok(false)),
        _ => Reply::Flag(Ok(false)),
    });
    assert_eq!(calls.len(), 2);
    assert!(matches!(calls[1], WorkerCall::IsPersonEnabled { .. }));
    assert_eq!(result.ok(), Some(WaitDecision::FinishedWaiting));
}

#[test]
fn wait_goes_on_before_its_duration() {
    let (calls, result) = drive(&job(0, 10_000, 1_000), 5_000, |call| match call {
        WorkerCall::IsPersonHibernating { .. } => Reply::Flag(Ok(false)),
        _ => Reply::Flag(Ok(true)),
    });
    assert_eq!(calls.len(), 2);
    assert_eq!(result.ok(), Some(WaitDecision::ContinueWaiting));
}

#[test]
fn an_event_since_the_start_ends_the_wait() {
    let (calls, result) = drive(&job(100, 1_000, 0), 5_000, |call| match call {
        WorkerCall::IsPersonHibernating { .. } => Reply::Flag(Ok(false)),
        WorkerCall::IsPersonEnabled { .. } => Reply::Flag(Ok(true)),
        _ => Reply::Events(Ok(vec![entered(50), entered(150)])),
    });
    assert_eq!(calls.len(), 3);
    assert_eq!(result.ok(), Some(WaitDecision::FinishedWaiting));
}

#[test]
fn a_reaction_since_the_start_ends_the_wait() {
    let (calls, result) = drive(&job(100, 1_000, 0), 5_000, |call| match call {
        WorkerCall::IsPersonHibernating { .. } => Reply::Flag(Ok(false)),
        WorkerCall::IsPersonEnabled { .. } => Reply::Flag(Ok(true)),
        WorkerCall::GetEvents { .. } => Reply::Events(Ok(vec![entered(50)])),
        _ => Reply::Flag(Ok(true)),
    });
    assert!(matches!(calls[3], WorkerCall::HasReactedSince { since: 100, .. }));
    assert_eq!(result.ok(), Some(WaitDecision::FinishedWaiting));
}

#[test]
fn missing_state_of_mind_is_an_error() {
    let (_, result) = drive(&job(100, 1_000, 0), 5_000, |call| match call {
        WorkerCall::IsPersonHibernating { .. } => Reply::Flag(Ok(false)),
        WorkerCall::IsPersonEnabled { .. } => Reply::Flag(Ok(true)),
        WorkerCall::GetEvents { .. } => Reply::Events(Ok(vec![])),
        WorkerCall::HasReactedSince { .. } => Reply::Flag(Ok(false)),
        WorkerCall::GetPersonsName { .. } => Reply::Name(Ok(PersonName("Ana".to_string()))),
        WorkerCall::GetPersonsCurrentSceneUuid { .. } => Reply::CurrentScene(Ok(None)),
        _ => Reply::StateOfMind(Ok(None)),
    });
    match result {
        Err(e) => assert_eq!(
            e.explain(),
            "No state of mind found for person 00000000-0000-0000-0000-000000000004"
        ),
        Ok(_) => panic!("expected a failure"),
    }
}

#[test]
fn wait_without_person_fails_at_once() {
    let j = PersonWaitingJob { person_uuid: None, started_at: Some(0), duration_ms: 0, start_active_ms: 0 };
    let (calls, result) = drive(&j, 0, |_| panic!("no call expected"));
    assert!(calls.is_empty());
    match result {
        Err(e) => assert_eq!(e.explain(), "Missing person uuid on wait job"),
        Ok(_) => panic!("expected a failure"),
    }
}

#[test]
fn new_waits_never_go_negative() {
    let j = PersonWaitingJob::new(PersonUuid(1), -5, -7);
    assert_eq!(j.duration_ms, 0);
    assert_eq!(j.start_active_ms, 0);
    assert!(j.started_at.is_some());
    assert_eq!(job(0, 1_000, i64::MAX - 10).run_at_active_ms(), i64::MAX);
    assert_eq!(job(0, -3, 20).run_at_active_ms(), 20);
}

#[test]
fn quiet_situation_counts_whole_minutes() {
    assert_eq!(
        waiting_situation_text(&PersonName("Ana".to_string()), 150_000),
        "Ana decided to wait 2 minutes, and nothing happened. There were no new messages or events. It is okay to do nothing and keep waiting silently."
    );
}

#[test]
fn events_since_and_their_lines() {
    let events = vec![entered(10), entered(20)];
    assert!(any_event_since(&events, 20));
    assert!(!any_event_since(&events, 21));
    assert_eq!(event_lines(&events), vec!["Bo entered scene Harbor".to_string(); 2]);
}

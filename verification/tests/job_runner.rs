use arizona2::domain::job::effects::{Next, Reply, WorkerCall};
use arizona2::domain::job::person_hibernating::PersonHibernatingJob;
use arizona2::domain::job::person_waiting::PersonWaitingJob;
use arizona2::domain::job::send_message_to_scene::SendMessageToSceneJob;
use arizona2::domain::job::{JobKind, PoppedJob};
use arizona2::domain::message::MessageSender;
use arizona2::domain::scene_uuid::SceneUuid;
use arizona2::domain::job_uuid::JobUuid;
use arizona2::domain::person_uuid::PersonUuid;
use arizona2::domain::random_seed::RandomSeed;
use arizona2::job_runner::{
    active_ms_after_elapsed, enabled_or_default, poll_interval_or_default, run_next_job, run_one_job,
    Error, RunJobError, RunNextJobResult,
};

struct Mock {
    next_job: Option<PoppedJob>,
    finished: Vec<JobUuid>,
    failed: Vec<(JobUuid, String)>,
    reset: Vec<JobUuid>,
    printed: Vec<String>,
    hibernating: bool,
    woken: Vec<PersonUuid>,
    persisted: usize,
}

impl Mock {
    fn with_job(job: Option<PoppedJob>) -> Self {
        Mock {
            next_job: job,
            finished: vec![],
            failed: vec![],
            reset: vec![],
            printed: vec![],
            hibernating: true,
            woken: vec![],
            persisted: 0,
        }
    }

    fn answer(&mut self, call: WorkerCall) -> Reply {
        match call {
            WorkerCall::PopNextJob { .. } => Reply::MaybeJob(Ok(self.next_job.take())),
            WorkerCall::Print { line } => {
                self.printed.push(line);
                Reply::Logged
            },
            WorkerCall::MarkJobFinished { job_uuid } => {
                self.finished.push(job_uuid);
                Reply::Unit(Ok(()))
            },
            WorkerCall::MarkJobFailed { job_uuid, details } => {
                self.failed.push((job_uuid, details));
                Reply::Unit(Ok(()))
            },
            WorkerCall::ResetJob { job_uuid } => {
                self.reset.push(job_uuid);
                Reply::Unit(Ok(()))
            },
            WorkerCall::IsPersonHibernating { .. } => Reply::Flag(Ok(self.hibernating)),
            WorkerCall::SetPersonHibernating { person_uuid, is_hibernating } => {
                assert!(!is_hibernating);
                self.woken.push(person_uuid);
                Reply::Unit(Ok(()))
            },
            WorkerCall::GetSceneCurrentParticipants { .. } => Reply::Participants(Err("db down".to_string())),
            WorkerCall::PersistActiveClock => {
                self.persisted += 1;
                Reply::Unit(Ok(()))
            },
            other => panic!("unexpected request {:?}", other),
        }
    }
}

fn drive(mock: &mut Mock, start: (arizona2::job_runner::RunNextJob, Next<Result<RunNextJobResult, Error>>)) -> Result<RunNextJobResult, Error> {
    let (mut state, mut next) = start;
    loop {
        match next {
            Next::Call(call) => {
                let reply = mock.answer(call);
                let (s, n) = state.resume(reply);
                state = s;
                next = n;
            },
            Next::Done(result) => return result,
        }
    }
}

#[test]
fn returns_ok_when_no_job_available() {
    let mut mock = Mock::with_job(None);
    let res = drive(&mut mock, run_next_job(RandomSeed::from_u64(0), 0));
    assert!(matches!(res, Ok(RunNextJobResult::NoJob)));
}

#[test]
fn processes_ping_and_marks_finished() {
    let job_uuid = JobUuid::test_id(0);
    let mut mock = Mock::with_job(Some(PoppedJob { uuid: job_uuid, kind: JobKind::Ping }));
    let res = drive(&mut mock, run_next_job(RandomSeed::from_u64(0), 0));
    assert!(res.is_ok());
    assert!(mock.finished.contains(&job_uuid));
    assert_eq!(mock.printed, vec!["Pong".to_string()]);
}

#[test]
fn run_one_job_stores_the_clock_and_names_the_job() {
    let job_uuid = JobUuid::test_id(5);
    let mut mock = Mock::with_job(Some(PoppedJob { uuid: job_uuid, kind: JobKind::Ping }));
    let res = drive(&mut mock, run_one_job(RandomSeed::from_u64(0), 0));
    match res {
        Ok(RunNextJobResult::RanJob { job_uuid: u, job_kind }) => {
            assert_eq!(u, job_uuid);
            assert_eq!(job_kind, "ping");
        },
        _ => panic!("expected a job that ran"),
    }
    assert_eq!(mock.persisted, 1);
}

#[test]
fn unfinished_hibernation_is_put_back() {
    let job_uuid = JobUuid::test_id(1);
    let person = PersonUuid(7);
    let job = PersonHibernatingJob { person_uuid: person, started_at: 0, duration_ms: 1_000, start_active_ms: 500 };
    let mut mock = Mock::with_job(Some(PoppedJob { uuid: job_uuid, kind: JobKind::PersonHibernating(job) }));
    let res = drive(&mut mock, run_one_job(RandomSeed::from_u64(0), 1_000));
    assert!(matches!(res, Ok(RunNextJobResult::Deferred { .. })));
    assert_eq!(mock.reset, vec![job_uuid]);
    assert!(mock.finished.is_empty());
}

#[test]
fn finished_hibernation_wakes_the_person() {
    let job_uuid = JobUuid::test_id(2);
    let person = PersonUuid(7);
    let job = PersonHibernatingJob { person_uuid: person, started_at: 0, duration_ms: 1_000, start_active_ms: 500 };
    let mut mock = Mock::with_job(Some(PoppedJob { uuid: job_uuid, kind: JobKind::PersonHibernating(job) }));
    let res = drive(&mut mock, run_next_job(RandomSeed::from_u64(0), 1_500));
    assert!(matches!(res, Ok(RunNextJobResult::RanJob { .. })));
    assert_eq!(mock.woken, vec![person]);
    assert_eq!(mock.finished, vec![job_uuid]);
}

#[test]
fn wait_without_a_start_fails_the_run_without_marking() {
    let job_uuid = JobUuid::test_id(3);
    let job = PersonWaitingJob { person_uuid: Some(PersonUuid(1)), started_at: None, duration_ms: 0, start_active_ms: 0 };
    let mut mock = Mock::with_job(Some(PoppedJob { uuid: job_uuid, kind: JobKind::PersonWaiting(job) }));
    let res = drive(&mut mock, run_next_job(RandomSeed::from_u64(0), 0));
    match res {
        Err(e) => {
            assert!(matches!(e, Error::RunJob((u, RunJobError::PersonWaitingError(_))) if u == job_uuid));
            assert_eq!(
                e.explain(),
                "I failed to run job 3\nError processing person waiting job\nMissing started_at on wait job"
            );
        },
        Ok(_) => panic!("expected a failure"),
    }
    assert!(mock.failed.is_empty());
    assert!(mock.finished.is_empty());
}

#[test]
fn failed_send_is_marked_failed_with_its_explanation() {
    let job_uuid = JobUuid::test_id(4);
    let job = SendMessageToSceneJob {
        sender: MessageSender::RealWorldUser,
        scene_uuid: SceneUuid(0),
        content: "hi".to_string(),
        random_seed: RandomSeed::from_u64(1),
    };
    let mut mock = Mock::with_job(Some(PoppedJob { uuid: job_uuid, kind: JobKind::SendMessageToScene(job) }));
    let res = drive(&mut mock, run_next_job(RandomSeed::from_u64(0), 0));
    assert!(matches!(res, Ok(RunNextJobResult::RanJob { .. })));
    assert_eq!(mock.failed.len(), 1);
    assert_eq!(
        mock.failed[0].1,
        "Error sending message to scene job\nFailed to get participants for scene 00000000-0000-0000-0000-000000000000: db down"
    );
}

#[test]
fn settings_fall_back_to_defaults() {
    assert_eq!(poll_interval_or_default(Ok(3)), 3);
    assert_eq!(poll_interval_or_default(Err("x".to_string())), 45);
    assert!(enabled_or_default(Err("x".to_string())));
    assert!(!enabled_or_default(Ok(false)));
}

#[test]
fn active_time_adds_elapsed_time_and_saturates() {
    assert_eq!(active_ms_after_elapsed(100, 50), 150);
    assert_eq!(active_ms_after_elapsed(i64::MAX - 1, 10), i64::MAX);
    assert_eq!(active_ms_after_elapsed(5, u128::MAX), i64::MAX);
    assert_eq!(active_ms_after_elapsed(-10, 3), -7);
}

//! Carrying out the action a person chose: queueing a wait or a hibernation,
//! speaking in the scene, or moving to another scene.
use crate::capability::{Scene, SceneParticipant};
use crate::domain::actor_uuid::ActorUuid;
use crate::domain::job::effects::{Next, Reply, WorkerCall};
use crate::domain::job::person_hibernating::PersonHibernatingJob;
use crate::domain::job::person_waiting::PersonWaitingJob;
use crate::domain::job::process_person_join::ProcessPersonJoinJob;
use crate::domain::job::send_message_to_scene::{send_error_text, SendMessage};
use crate::domain::job::JobKind;
use crate::domain::message::MessageSender;
use crate::domain::message_uuid::MessageUuid;
use crate::domain::person_name::PersonName;
use crate::domain::person_uuid::PersonUuid;
use crate::domain::random_seed::RandomSeed;
use crate::domain::scene_uuid::SceneUuid;
use crate::ident::{uuid_string, uuid_text};
use crate::nice_display::NiceDisplay;
use crate::num::max_i64;
use crate::person_actions::{PersonAction, PersonActionV};
use vstd::prelude::*;
use vstd::string::*;

verus! {

/// Why an action could not be carried out.
#[derive(Debug)]
pub enum ActionHandleError {
    Wait(String),
    Hibernate(String),
    HibernationState(String),
    ReactionLog(String),
    PersonName(String),
    SceneMissing(String),
    Say { scene_uuid: SceneUuid, details: String },
    MoveToScene(String),
}

/// The explanation of an action error.
pub open spec fn action_error_text(e: ActionHandleError) -> Seq<char> {
    match e {
        ActionHandleError::Wait(d) => "Person could not wait: "@ + d@,
        ActionHandleError::Hibernate(d) => "Person could not hibernate: "@ + d@,
        ActionHandleError::HibernationState(d) => "Could not set hibernation state: "@ + d@,
        ActionHandleError::ReactionLog(d) => "Could not record reaction: "@ + d@,
        ActionHandleError::PersonName(d) => "Could not get person's name: "@ + d@,
        ActionHandleError::SceneMissing(d) => "Could not get person's scene: "@ + d@,
        ActionHandleError::Say { scene_uuid, details } => "Person could not say in scene "@
            + uuid_text(scene_uuid.0) + ": "@ + details@,
        ActionHandleError::MoveToScene(d) => "Person could not move to scene: "@ + d@,
    }
}

fn prefixed(prefix: &str, d: &String) -> (res: String)
    ensures
        res@ == prefix@ + d@,
{
    let mut s = String::from_str(prefix);
    s.append(d.as_str());
    s
}

impl ActionHandleError {
    /// The explanation of the error.
    pub fn explain(&self) -> (res: String)
        ensures
            res@ == action_error_text(*self),
    {
        match self {
            ActionHandleError::Wait(d) => prefixed("Person could not wait: ", d),
            ActionHandleError::Hibernate(d) => prefixed("Person could not hibernate: ", d),
            ActionHandleError::HibernationState(d) => prefixed("Could not set hibernation state: ", d),
            ActionHandleError::ReactionLog(d) => prefixed("Could not record reaction: ", d),
            ActionHandleError::PersonName(d) => prefixed("Could not get person's name: ", d),
            ActionHandleError::SceneMissing(d) => prefixed("Could not get person's scene: ", d),
            ActionHandleError::Say { scene_uuid, details } => {
                let mut s = String::from_str("Person could not say in scene ");
                let u = uuid_string(scene_uuid.0);
                s.append(u.as_str());
                s.append(": ");
                s.append(details.as_str());
                s
            },
            ActionHandleError::MoveToScene(d) => prefixed("Person could not move to scene: ", d),
        }
    }
}

impl NiceDisplay for ActionHandleError {
    open spec fn message_spec(&self) -> Seq<char> {
        action_error_text(*self)
    }

    fn message(&self) -> (res: String) {
        let r = self.explain();
        assert(self.message_spec() == action_error_text(*self));
        r
    }
}

/// How long an idle person waits, in milliseconds.
pub const IDLE_DURATION_MS: i64 = 240000;

/// How long a person waits after moving, in milliseconds.
pub const POST_MOVE_WAIT_MS: u64 = 30000;

/// How long a person waits after speaking, in milliseconds: the wait is due
/// at once.
pub const POST_SAY_WAIT_MS: u64 = 0;

/// A duration in milliseconds as a signed number, capped at `i64::MAX`.
pub open spec fn capped_duration(duration_ms: u64) -> i64 {
    if duration_ms > i64::MAX as u64 {
        i64::MAX
    } else {
        duration_ms as i64
    }
}

/// Whether `job` is a wait of `person` for `duration_ms` from `current_active_ms`.
pub open spec fn is_wait_job(job: JobKind, person: PersonUuid, duration_ms: u64, current_active_ms: i64) -> bool {
    match job {
        JobKind::PersonWaiting(w) => w.person_uuid == Some(person) && w.started_at is Some
            && w.duration_ms == max_i64(capped_duration(duration_ms), 0) && w.start_active_ms
            == max_i64(current_active_ms, 0),
        _ => false,
    }
}

/// Whether `job` is a hibernation of `person` for `duration_ms` from `current_active_ms`.
pub open spec fn is_hibernation_job(job: JobKind, person: PersonUuid, duration_ms: u64, current_active_ms: i64) -> bool {
    match job {
        JobKind::PersonHibernating(h) => h.person_uuid == person && h.duration_ms == max_i64(
            capped_duration(duration_ms),
            0,
        ) && h.start_active_ms == max_i64(current_active_ms, 0),
        _ => false,
    }
}

fn cap_duration(duration_ms: u64) -> (res: i64)
    ensures
        res == capped_duration(duration_ms),
{
    if duration_ms > 9223372036854775807u64 {
        9223372036854775807i64
    } else {
        duration_ms as i64
    }
}

/// The wait job of a person.
pub fn wait_job(person_uuid: PersonUuid, duration_ms: u64, current_active_ms: i64) -> (res: JobKind)
    ensures
        is_wait_job(res, person_uuid, duration_ms, current_active_ms),
{
    JobKind::PersonWaiting(PersonWaitingJob::new(person_uuid, cap_duration(duration_ms), current_active_ms))
}

/// The hibernation job of a person.
pub fn hibernation_job(person_uuid: PersonUuid, duration_ms: u64, current_active_ms: i64) -> (res: JobKind)
    ensures
        is_hibernation_job(res, person_uuid, duration_ms, current_active_ms),
{
    JobKind::PersonHibernating(PersonHibernatingJob::new(person_uuid, cap_duration(duration_ms), current_active_ms))
}

/// A join job for each AI person present (the one who joined included), in order.
pub open spec fn join_jobs_spec(scene_uuid: SceneUuid, joined: PersonUuid, ps: Seq<SceneParticipant>) -> Seq<JobKind>
    decreases ps.len(),
{
    if ps.len() == 0 {
        Seq::empty()
    } else {
        let rest = join_jobs_spec(scene_uuid, joined, ps.drop_last());
        match ps.last().actor_uuid {
            ActorUuid::AiPerson(p) => rest.push(
                JobKind::ProcessPersonJoin(
                    ProcessPersonJoinJob { scene_uuid, joined_person_uuid: joined, recipient_person_uuid: p },
                ),
            ),
            ActorUuid::RealWorldUser => rest,
        }
    }
}

/// A join job for each AI person present, in order.
pub fn join_jobs(scene_uuid: SceneUuid, joined: PersonUuid, participants: &Vec<SceneParticipant>) -> (res: Vec<JobKind>)
    ensures
        res@ == join_jobs_spec(scene_uuid, joined, participants@),
{
    let mut res: Vec<JobKind> = Vec::new();
    let mut i: usize = 0;
    while i < participants.len()
        invariant
            i <= participants.len(),
            res@ == join_jobs_spec(scene_uuid, joined, participants@.take(i as int)),
        decreases participants.len() - i,
    {
        proof {
            assert(participants@.take(i + 1).drop_last() =~= participants@.take(i as int));
            assert(participants@.take(i + 1).last() == participants@[i as int]);
        }
        match participants[i].actor_uuid {
            ActorUuid::AiPerson(p) => {
                res.push(
                    JobKind::ProcessPersonJoin(
                        ProcessPersonJoinJob { scene_uuid, joined_person_uuid: joined, recipient_person_uuid: p },
                    ),
                );
            },
            ActorUuid::RealWorldUser => {},
        }
        i = i + 1;
    }
    proof {
        assert(participants@.take(participants.len() as int) =~= participants@);
    }
    res
}

/// Where moving a person to a scene stands.
#[derive(Debug)]
pub enum MoveToScene {
    AwaitingName { person_uuid: PersonUuid, scene_name: String, current_active_ms: i64 },
    AwaitingFrom { person_uuid: PersonUuid, scene_name: String, current_active_ms: i64, person_name: PersonName },
    AwaitingScene { person_uuid: PersonUuid, scene_name: String, current_active_ms: i64, person_name: PersonName, from: Option<SceneUuid> },
    AwaitingCreated { person_uuid: PersonUuid, current_active_ms: i64, person_name: PersonName, from: Option<SceneUuid> },
    AwaitingAdded { person_uuid: PersonUuid, current_active_ms: i64, scene_uuid: SceneUuid },
    AwaitingWaitQueued { person_uuid: PersonUuid, scene_uuid: SceneUuid },
    AwaitingParticipants { person_uuid: PersonUuid, scene_uuid: SceneUuid },
    AwaitingJoinQueued { jobs: Vec<JobKind> },
}

/// The text of an error.
pub open spec fn error_with(d: Seq<char>) -> Seq<char> {
    d
}

/// The message of a move from a person who is in no scene to a scene that
/// does not exist yet.
pub open spec fn no_travel_context_text() -> Seq<char> {
    "Person is not currently in a scene; cannot derive travel context"@
}

impl MoveToScene {
    /// The reply each stage waits for.
    pub open spec fn awaits(self, reply: Reply) -> bool {
        match self {
            MoveToScene::AwaitingName { .. } => reply is Name,
            MoveToScene::AwaitingFrom { .. } => reply is CurrentScene,
            MoveToScene::AwaitingScene { .. } => reply is SceneByName,
            MoveToScene::AwaitingCreated { .. } => reply is NewScene,
            MoveToScene::AwaitingAdded { .. } => reply is Participation,
            MoveToScene::AwaitingWaitQueued { .. } => reply is Unit,
            MoveToScene::AwaitingParticipants { .. } => reply is Participants,
            MoveToScene::AwaitingJoinQueued { .. } => reply is Unit,
        }
    }

    /// Starts by asking for the person's name.
    pub fn start(person_uuid: PersonUuid, scene_name: String, current_active_ms: i64) -> (res: (MoveToScene, WorkerCall))
        ensures
            res.0 == (MoveToScene::AwaitingName { person_uuid, scene_name, current_active_ms }),
            res.1 == (WorkerCall::GetPersonsName { person_uuid }),
    {
        (MoveToScene::AwaitingName { person_uuid, scene_name, current_active_ms }, WorkerCall::GetPersonsName { person_uuid })
    }

    /// With the destination known: a person already there stays; otherwise the
    /// person is added to it.
    pub open spec fn arrive(person_uuid: PersonUuid, current_active_ms: i64, person_name: PersonName, from: Option<SceneUuid>, scene: Scene, res: (MoveToScene, Next<Result<(), ActionHandleError>>)) -> bool {
        if from == Some(scene.uuid) {
            res.1 == Next::<Result<(), ActionHandleError>>::Done(Ok(()))
        } else {
            &&& res.0 == (MoveToScene::AwaitingAdded { person_uuid, current_active_ms, scene_uuid: scene.uuid })
            &&& res.1 == Next::<Result<(), ActionHandleError>>::Call(
                WorkerCall::AddPersonToScene { scene_uuid: scene.uuid, person_name },
            )
        }
    }

    fn arrive_exec(person_uuid: PersonUuid, current_active_ms: i64, person_name: PersonName, from: Option<SceneUuid>, scene: Scene) -> (res: (MoveToScene, Next<Result<(), ActionHandleError>>))
        ensures
            Self::arrive(person_uuid, current_active_ms, person_name, from, scene, res),
    {
        let same = match from {
            Some(f) => f.0 == scene.uuid.0,
            None => false,
        };
        if same {
            (MoveToScene::AwaitingJoinQueued { jobs: Vec::new() }, Next::Done(Ok(())))
        } else {
            let scene_uuid = scene.uuid;
            (
                MoveToScene::AwaitingAdded { person_uuid, current_active_ms, scene_uuid },
                Next::Call(WorkerCall::AddPersonToScene { scene_uuid, person_name }),
            )
        }
    }

    /// Queue the first remaining join job, or finish.
    pub open spec fn queue_next(jobs: Seq<JobKind>, res: (MoveToScene, Next<Result<(), ActionHandleError>>)) -> bool {
        if jobs.len() == 0 {
            res.1 == Next::<Result<(), ActionHandleError>>::Done(Ok(()))
        } else {
            &&& match res.0 {
                MoveToScene::AwaitingJoinQueued { jobs: rest } => rest@ == jobs.drop_first(),
                _ => false,
            }
            &&& res.1 == Next::<Result<(), ActionHandleError>>::Call(WorkerCall::UnshiftJob { job: jobs[0] })
        }
    }

    fn queue_next_exec(jobs: Vec<JobKind>) -> (res: (MoveToScene, Next<Result<(), ActionHandleError>>))
        ensures
            Self::queue_next(jobs@, res),
    {
        let mut jobs = jobs;
        if jobs.len() == 0 {
            (MoveToScene::AwaitingJoinQueued { jobs }, Next::Done(Ok(())))
        } else {
            let ghost before = jobs@;
            let job = jobs.remove(0);
            proof {
                assert(jobs@ =~= before.drop_first());
            }
            (MoveToScene::AwaitingJoinQueued { jobs }, Next::Call(WorkerCall::UnshiftJob { job }))
        }
    }

    /// One step of a move.
    pub open spec fn step(self, reply: Reply, res: (MoveToScene, Next<Result<(), ActionHandleError>>)) -> bool {
        match (self, reply) {
            (MoveToScene::AwaitingName { person_uuid, scene_name, current_active_ms }, Reply::Name(r)) => match r {
                Err(e) => res.1 == Next::<Result<(), ActionHandleError>>::Done(Err(ActionHandleError::PersonName(e))),
                Ok(person_name) => res.0 == (MoveToScene::AwaitingFrom { person_uuid, scene_name, current_active_ms, person_name })
                    && res.1 == Next::<Result<(), ActionHandleError>>::Call(WorkerCall::GetPersonsCurrentSceneUuid { person_uuid }),
            },
            (MoveToScene::AwaitingFrom { person_uuid, scene_name, current_active_ms, person_name }, Reply::CurrentScene(r)) => match r {
                Err(e) => res.1 == Next::<Result<(), ActionHandleError>>::Done(Err(ActionHandleError::SceneMissing(e))),
                Ok(from) => {
                    &&& match res.0 {
                        MoveToScene::AwaitingScene { person_uuid: p, scene_name: n, current_active_ms: c, person_name: pn, from: f } =>
                            p == person_uuid && n == scene_name && c == current_active_ms && pn == person_name && f == from,
                        _ => false,
                    }
                    &&& match res.1 {
                        Next::Call(WorkerCall::GetSceneFromName { scene_name: n }) => n@ == scene_name@,
                        _ => false,
                    }
                },
            },
            (MoveToScene::AwaitingScene { person_uuid, scene_name, current_active_ms, person_name, from }, Reply::SceneByName(r)) => match r {
                Err(e) => res.1 == Next::<Result<(), ActionHandleError>>::Done(Err(ActionHandleError::MoveToScene(e))),
                Ok(Some(scene)) => Self::arrive(person_uuid, current_active_ms, person_name, from, scene, res),
                Ok(None) => match from {
                    None => match res.1 {
                        Next::Done(Err(ActionHandleError::MoveToScene(m))) => m@ == no_travel_context_text(),
                        _ => false,
                    },
                    Some(basis_scene_uuid) => res.0 == (MoveToScene::AwaitingCreated { person_uuid, current_active_ms, person_name, from })
                        && res.1 == Next::<Result<(), ActionHandleError>>::Call(WorkerCall::CreateSceneFromTravel { scene_name, basis_scene_uuid }),
                },
            },
            (MoveToScene::AwaitingCreated { person_uuid, current_active_ms, person_name, from }, Reply::NewScene(r)) => match r {
                Err(e) => res.1 == Next::<Result<(), ActionHandleError>>::Done(Err(ActionHandleError::MoveToScene(e))),
                Ok(scene) => Self::arrive(person_uuid, current_active_ms, person_name, from, scene, res),
            },
            (MoveToScene::AwaitingAdded { person_uuid, current_active_ms, scene_uuid }, Reply::Participation(r)) => match r {
                Err(e) => res.1 == Next::<Result<(), ActionHandleError>>::Done(Err(ActionHandleError::MoveToScene(e))),
                Ok(_) => res.0 == (MoveToScene::AwaitingWaitQueued { person_uuid, scene_uuid }) && match res.1 {
                    Next::Call(WorkerCall::UnshiftJob { job }) => is_wait_job(job, person_uuid, POST_MOVE_WAIT_MS, current_active_ms),
                    _ => false,
                },
            },
            (MoveToScene::AwaitingWaitQueued { person_uuid, scene_uuid }, Reply::Unit(r)) => match r {
                Err(e) => res.1 == Next::<Result<(), ActionHandleError>>::Done(Err(ActionHandleError::Wait(e))),
                Ok(()) => res.0 == (MoveToScene::AwaitingParticipants { person_uuid, scene_uuid })
                    && res.1 == Next::<Result<(), ActionHandleError>>::Call(WorkerCall::GetSceneCurrentParticipants { scene_uuid }),
            },
            (MoveToScene::AwaitingParticipants { person_uuid, scene_uuid }, Reply::Participants(r)) => match r {
                Err(e) => res.1 == Next::<Result<(), ActionHandleError>>::Done(Err(ActionHandleError::MoveToScene(e))),
                Ok(ps) => Self::queue_next(join_jobs_spec(scene_uuid, person_uuid, ps@), res),
            },
            (MoveToScene::AwaitingJoinQueued { jobs }, Reply::Unit(r)) => match r {
                Err(e) => res.1 == Next::<Result<(), ActionHandleError>>::Done(Err(ActionHandleError::MoveToScene(e))),
                Ok(()) => Self::queue_next(jobs@, res),
            },
            _ => false,
        }
    }

    /// Goes on with the reply: the destination is looked up by name, or made
    /// from the person's current scene where it does not exist; a person not
    /// yet there is added, then waits, and everyone present gets a join job.
    pub fn resume(self, reply: Reply) -> (res: (MoveToScene, Next<Result<(), ActionHandleError>>))
        requires
            self.awaits(reply),
        ensures
            self.step(reply, res),
    {
        let done = MoveToScene::AwaitingJoinQueued { jobs: Vec::new() };
        match self {
            MoveToScene::AwaitingName { person_uuid, scene_name, current_active_ms } => match reply {
                Reply::Name(Err(e)) => (done, Next::Done(Err(ActionHandleError::PersonName(e)))),
                Reply::Name(Ok(person_name)) => (
                    MoveToScene::AwaitingFrom { person_uuid, scene_name, current_active_ms, person_name },
                    Next::Call(WorkerCall::GetPersonsCurrentSceneUuid { person_uuid }),
                ),
                _ => (done, Next::Done(Ok(()))),
            },
            MoveToScene::AwaitingFrom { person_uuid, scene_name, current_active_ms, person_name } => match reply {
                Reply::CurrentScene(Err(e)) => (done, Next::Done(Err(ActionHandleError::SceneMissing(e)))),
                Reply::CurrentScene(Ok(from)) => {
                    let lookup = scene_name.clone();
                    (
                        MoveToScene::AwaitingScene { person_uuid, scene_name, current_active_ms, person_name, from },
                        Next::Call(WorkerCall::GetSceneFromName { scene_name: lookup }),
                    )
                },
                _ => (done, Next::Done(Ok(()))),
            },
            MoveToScene::AwaitingScene { person_uuid, scene_name, current_active_ms, person_name, from } => match reply {
                Reply::SceneByName(Err(e)) => (done, Next::Done(Err(ActionHandleError::MoveToScene(e)))),
                Reply::SceneByName(Ok(Some(scene))) => Self::arrive_exec(person_uuid, current_active_ms, person_name, from, scene),
                Reply::SceneByName(Ok(None)) => match from {
                    None => (
                        done,
                        Next::Done(Err(ActionHandleError::MoveToScene(String::from_str(
                            "Person is not currently in a scene; cannot derive travel context",
                        )))),
                    ),
                    Some(basis_scene_uuid) => (
                        MoveToScene::AwaitingCreated { person_uuid, current_active_ms, person_name, from },
                        Next::Call(WorkerCall::CreateSceneFromTravel { scene_name, basis_scene_uuid }),
                    ),
                },
                _ => (done, Next::Done(Ok(()))),
            },
            MoveToScene::AwaitingCreated { person_uuid, current_active_ms, person_name, from } => match reply {
                Reply::NewScene(Err(e)) => (done, Next::Done(Err(ActionHandleError::MoveToScene(e)))),
                Reply::NewScene(Ok(scene)) => Self::arrive_exec(person_uuid, current_active_ms, person_name, from, scene),
                _ => (done, Next::Done(Ok(()))),
            },
            MoveToScene::AwaitingAdded { person_uuid, current_active_ms, scene_uuid } => match reply {
                Reply::Participation(Err(e)) => (done, Next::Done(Err(ActionHandleError::MoveToScene(e)))),
                Reply::Participation(Ok(_)) => (
                    MoveToScene::AwaitingWaitQueued { person_uuid, scene_uuid },
                    Next::Call(WorkerCall::UnshiftJob { job: wait_job(person_uuid, POST_MOVE_WAIT_MS, current_active_ms) }),
                ),
                _ => (done, Next::Done(Ok(()))),
            },
            MoveToScene::AwaitingWaitQueued { person_uuid, scene_uuid } => match reply {
                Reply::Unit(Err(e)) => (done, Next::Done(Err(ActionHandleError::Wait(e)))),
                Reply::Unit(Ok(())) => (
                    MoveToScene::AwaitingParticipants { person_uuid, scene_uuid },
                    Next::Call(WorkerCall::GetSceneCurrentParticipants { scene_uuid }),
                ),
                _ => (done, Next::Done(Ok(()))),
            },
            MoveToScene::AwaitingParticipants { person_uuid, scene_uuid } => match reply {
                Reply::Participants(Err(e)) => (done, Next::Done(Err(ActionHandleError::MoveToScene(e)))),
                Reply::Participants(Ok(ps)) => {
                    let jobs = join_jobs(scene_uuid, person_uuid, &ps);
                    Self::queue_next_exec(jobs)
                },
                _ => (done, Next::Done(Ok(()))),
            },
            MoveToScene::AwaitingJoinQueued { jobs } => match reply {
                Reply::Unit(Err(e)) => (done, Next::Done(Err(ActionHandleError::MoveToScene(e)))),
                Reply::Unit(Ok(())) => Self::queue_next_exec(jobs),
                _ => (done, Next::Done(Ok(()))),
            },
        }
    }
}


/// Where carrying out an action stands.
#[derive(Debug)]
pub enum HandleAction {
    AwaitingHibernationSet { person_uuid: PersonUuid, duration_ms: u64, current_active_ms: i64 },
    AwaitingWaitQueued,
    AwaitingHibernationQueued,
    AwaitingSpeakerName {
        person_uuid: PersonUuid,
        comment: String,
        destination: Option<String>,
        random_seed: RandomSeed,
        current_active_ms: i64,
    },
    AwaitingSpeakerScene {
        person_uuid: PersonUuid,
        comment: String,
        destination: Option<String>,
        random_seed: RandomSeed,
        current_active_ms: i64,
    },
    Sending {
        send: SendMessage,
        person_uuid: PersonUuid,
        scene_uuid: SceneUuid,
        destination: Option<String>,
        current_active_ms: i64,
    },
    Moving { mv: MoveToScene, person_uuid: PersonUuid, reaction_kind: String },
    AwaitingSpeakerWaitQueued { person_uuid: PersonUuid },
    AwaitingRecorded,
}

/// The message of a speaker who is in no scene.
pub open spec fn not_in_scene_text() -> Seq<char> {
    "Person is not in any scene"@
}

/// How carrying out `action` begins.
pub open spec fn action_start(
    action: PersonAction,
    person_uuid: PersonUuid,
    random_seed: RandomSeed,
    current_active_ms: i64,
    res: (HandleAction, WorkerCall),
) -> bool {
    match action {
        PersonAction::Wait { duration } => res.0 is AwaitingWaitQueued && match res.1 {
            WorkerCall::UnshiftJob { job } => is_wait_job(job, person_uuid, duration, current_active_ms),
            _ => false,
        },
        PersonAction::Idle => res.0 is AwaitingWaitQueued && match res.1 {
            WorkerCall::UnshiftJob { job } => is_wait_job(job, person_uuid, IDLE_DURATION_MS as u64, current_active_ms),
            _ => false,
        },
        PersonAction::Hibernate { duration } => {
            &&& res.0 == (HandleAction::AwaitingHibernationSet { person_uuid, duration_ms: duration, current_active_ms })
            &&& res.1 == (WorkerCall::SetPersonHibernating { person_uuid, is_hibernating: true })
        },
        PersonAction::SayInScene { comment, destination_scene_name } => {
            &&& res.0 == (HandleAction::AwaitingSpeakerName {
                person_uuid,
                comment,
                destination: destination_scene_name,
                random_seed,
                current_active_ms,
            })
            &&& res.1 == (WorkerCall::GetPersonsName { person_uuid })
        },
        PersonAction::MoveToScene { scene_name } => {
            &&& match res.0 {
                HandleAction::Moving { mv, person_uuid: p, reaction_kind } => p == person_uuid
                    && reaction_kind@ == "move_to_scene"@
                    && mv == (MoveToScene::AwaitingName { person_uuid, scene_name, current_active_ms }),
                _ => false,
            }
            &&& res.1 == (WorkerCall::GetPersonsName { person_uuid })
        },
    }
}

/// Carries out the action a person chose. A wait or an idle person queues a
/// wait job; hibernation marks the person hibernating and queues a
/// hibernation job; speaking looks up the person's scene, sends the comment
/// there, then moves the person on where a destination is named or else
/// queues a wait due at once, and records the reaction; moving records the
/// reaction once the move is done.
pub fn handle_person_action(
    action: PersonAction,
    person_uuid: PersonUuid,
    random_seed: RandomSeed,
    current_active_ms: i64,
) -> (res: (HandleAction, WorkerCall))
    ensures
        action_start(action, person_uuid, random_seed, current_active_ms, res),
{
    match action {
        PersonAction::Wait { duration } => (
            HandleAction::AwaitingWaitQueued,
            WorkerCall::UnshiftJob { job: wait_job(person_uuid, duration, current_active_ms) },
        ),
        PersonAction::Idle => (
            HandleAction::AwaitingWaitQueued,
            WorkerCall::UnshiftJob { job: wait_job(person_uuid, 240000u64, current_active_ms) },
        ),
        PersonAction::Hibernate { duration } => (
            HandleAction::AwaitingHibernationSet { person_uuid, duration_ms: duration, current_active_ms },
            WorkerCall::SetPersonHibernating { person_uuid, is_hibernating: true },
        ),
        PersonAction::SayInScene { comment, destination_scene_name } => (
            HandleAction::AwaitingSpeakerName {
                person_uuid,
                comment,
                destination: destination_scene_name,
                random_seed,
                current_active_ms,
            },
            WorkerCall::GetPersonsName { person_uuid },
        ),
        PersonAction::MoveToScene { scene_name } => {
            let (mv, call) = MoveToScene::start(person_uuid, scene_name, current_active_ms);
            (
                HandleAction::Moving { mv, person_uuid, reaction_kind: String::from_str("move_to_scene") },
                call,
            )
        },
    }
}

/// What follows a step of sending the comment.
pub open spec fn after_send(
    sub: (SendMessage, Next<Result<MessageUuid, crate::domain::job::send_message_to_scene::Error>>),
    person_uuid: PersonUuid,
    scene_uuid: SceneUuid,
    destination: Option<String>,
    current_active_ms: i64,
    res: (HandleAction, Next<Result<(), ActionHandleError>>),
) -> bool {
    match sub.1 {
        Next::Call(call) => {
            &&& res.0 == (HandleAction::Sending { send: sub.0, person_uuid, scene_uuid, destination, current_active_ms })
            &&& res.1 == Next::<Result<(), ActionHandleError>>::Call(call)
        },
        Next::Done(Err(e)) => match res.1 {
            Next::Done(Err(ActionHandleError::Say { scene_uuid: s, details })) => s == scene_uuid && details@
                == send_error_text(e),
            _ => false,
        },
        Next::Done(Ok(_)) => match destination {
            Some(scene_name) => {
                &&& match res.0 {
                    HandleAction::Moving { mv, person_uuid: p, reaction_kind } => p == person_uuid
                        && reaction_kind@ == "say_in_scene_and_move_to_scene"@
                        && mv == (MoveToScene::AwaitingName { person_uuid, scene_name, current_active_ms }),
                    _ => false,
                }
                &&& res.1 == Next::<Result<(), ActionHandleError>>::Call(WorkerCall::GetPersonsName { person_uuid })
            },
            None => {
                &&& res.0 == (HandleAction::AwaitingSpeakerWaitQueued { person_uuid })
                &&& match res.1 {
                    Next::Call(WorkerCall::UnshiftJob { job }) => is_wait_job(
                        job,
                        person_uuid,
                        POST_SAY_WAIT_MS,
                        current_active_ms,
                    ),
                    _ => false,
                }
            },
        },
    }
}

/// What follows a step of moving.
pub open spec fn after_move(
    sub: (MoveToScene, Next<Result<(), ActionHandleError>>),
    person_uuid: PersonUuid,
    reaction_kind: String,
    res: (HandleAction, Next<Result<(), ActionHandleError>>),
) -> bool {
    match sub.1 {
        Next::Call(call) => {
            &&& res.0 == (HandleAction::Moving { mv: sub.0, person_uuid, reaction_kind })
            &&& res.1 == Next::<Result<(), ActionHandleError>>::Call(call)
        },
        Next::Done(Err(e)) => res.1 == Next::<Result<(), ActionHandleError>>::Done(Err(e)),
        Next::Done(Ok(())) => {
            &&& res.0 is AwaitingRecorded
            &&& match res.1 {
                Next::Call(WorkerCall::RecordReaction { person_uuid: p, action_kind }) => p == person_uuid
                    && action_kind@ == reaction_kind@,
                _ => false,
            }
        },
    }
}

impl HandleAction {
    /// The reply each stage waits for.
    pub open spec fn awaits(self, reply: Reply) -> bool {
        match self {
            HandleAction::AwaitingHibernationSet { .. } => reply is Unit,
            HandleAction::AwaitingWaitQueued => reply is Unit,
            HandleAction::AwaitingHibernationQueued => reply is Unit,
            HandleAction::AwaitingSpeakerName { .. } => reply is Name,
            HandleAction::AwaitingSpeakerScene { .. } => reply is CurrentScene,
            HandleAction::Sending { send, .. } => send.awaits(reply),
            HandleAction::Moving { mv, .. } => mv.awaits(reply),
            HandleAction::AwaitingSpeakerWaitQueued { .. } => reply is Unit,
            HandleAction::AwaitingRecorded => reply is Unit,
        }
    }

    /// One step of carrying out an action.
    pub open spec fn step(self, reply: Reply, res: (HandleAction, Next<Result<(), ActionHandleError>>)) -> bool {
        match (self, reply) {
            (HandleAction::AwaitingHibernationSet { person_uuid, duration_ms, current_active_ms }, Reply::Unit(r)) => match r {
                Err(e) => res.1 == Next::<Result<(), ActionHandleError>>::Done(Err(ActionHandleError::HibernationState(e))),
                Ok(()) => res.0 is AwaitingHibernationQueued && match res.1 {
                    Next::Call(WorkerCall::UnshiftJob { job }) => is_hibernation_job(job, person_uuid, duration_ms, current_active_ms),
                    _ => false,
                },
            },
            (HandleAction::AwaitingWaitQueued, Reply::Unit(r)) => match r {
                Err(e) => res.1 == Next::<Result<(), ActionHandleError>>::Done(Err(ActionHandleError::Wait(e))),
                Ok(()) => res.1 == Next::<Result<(), ActionHandleError>>::Done(Ok(())),
            },
            (HandleAction::AwaitingHibernationQueued, Reply::Unit(r)) => match r {
                Err(e) => res.1 == Next::<Result<(), ActionHandleError>>::Done(Err(ActionHandleError::Hibernate(e))),
                Ok(()) => res.1 == Next::<Result<(), ActionHandleError>>::Done(Ok(())),
            },
            (HandleAction::AwaitingSpeakerName { person_uuid, comment, destination, random_seed, current_active_ms }, Reply::Name(r)) => match r {
                Err(e) => res.1 == Next::<Result<(), ActionHandleError>>::Done(Err(ActionHandleError::PersonName(e))),
                Ok(_) => {
                    &&& res.0 == (HandleAction::AwaitingSpeakerScene { person_uuid, comment, destination, random_seed, current_active_ms })
                    &&& res.1 == Next::<Result<(), ActionHandleError>>::Call(WorkerCall::GetPersonsCurrentSceneUuid { person_uuid })
                },
            },
            (HandleAction::AwaitingSpeakerScene { person_uuid, comment, destination, random_seed, current_active_ms }, Reply::CurrentScene(r)) => match r {
                Err(e) => res.1 == Next::<Result<(), ActionHandleError>>::Done(Err(ActionHandleError::SceneMissing(e))),
                Ok(None) => match res.1 {
                    Next::Done(Err(ActionHandleError::SceneMissing(m))) => m@ == not_in_scene_text(),
                    _ => false,
                },
                Ok(Some(scene_uuid)) => {
                    &&& res.0 == (HandleAction::Sending {
                        send: SendMessage::AwaitingParticipants {
                            sender: MessageSender::AiPerson(person_uuid),
                            scene_uuid,
                            content: comment,
                            random_seed,
                        },
                        person_uuid,
                        scene_uuid,
                        destination,
                        current_active_ms,
                    })
                    &&& res.1 == Next::<Result<(), ActionHandleError>>::Call(WorkerCall::GetSceneCurrentParticipants { scene_uuid })
                },
            },
            (HandleAction::Sending { send, person_uuid, scene_uuid, destination, current_active_ms }, _) =>
                exists|sub: (SendMessage, Next<Result<MessageUuid, crate::domain::job::send_message_to_scene::Error>>)|
                    #[trigger] send.step(reply, sub) && after_send(sub, person_uuid, scene_uuid, destination, current_active_ms, res),
            (HandleAction::Moving { mv, person_uuid, reaction_kind }, _) =>
                exists|sub: (MoveToScene, Next<Result<(), ActionHandleError>>)|
                    #[trigger] mv.step(reply, sub) && after_move(sub, person_uuid, reaction_kind, res),
            (HandleAction::AwaitingSpeakerWaitQueued { person_uuid }, Reply::Unit(r)) => match r {
                Err(e) => res.1 == Next::<Result<(), ActionHandleError>>::Done(Err(ActionHandleError::Wait(e))),
                Ok(()) => {
                    &&& res.0 is AwaitingRecorded
                    &&& match res.1 {
                        Next::Call(WorkerCall::RecordReaction { person_uuid: p, action_kind }) => p == person_uuid
                            && action_kind@ == "say_in_scene"@,
                        _ => false,
                    }
                },
            },
            (HandleAction::AwaitingRecorded, Reply::Unit(r)) => match r {
                Err(e) => res.1 == Next::<Result<(), ActionHandleError>>::Done(Err(ActionHandleError::ReactionLog(e))),
                Ok(()) => res.1 == Next::<Result<(), ActionHandleError>>::Done(Ok(())),
            },
            _ => false,
        }
    }

    /// Goes on with the reply.
    pub fn resume(self, reply: Reply) -> (res: (HandleAction, Next<Result<(), ActionHandleError>>))
        requires
            self.awaits(reply),
        ensures
            self.step(reply, res),
    {
        match self {
            HandleAction::AwaitingHibernationSet { person_uuid, duration_ms, current_active_ms } => match reply {
                Reply::Unit(Err(e)) => (HandleAction::AwaitingRecorded, Next::Done(Err(ActionHandleError::HibernationState(e)))),
                _ => (
                    HandleAction::AwaitingHibernationQueued,
                    Next::Call(WorkerCall::UnshiftJob { job: hibernation_job(person_uuid, duration_ms, current_active_ms) }),
                ),
            },
            HandleAction::AwaitingWaitQueued => match reply {
                Reply::Unit(Err(e)) => (HandleAction::AwaitingRecorded, Next::Done(Err(ActionHandleError::Wait(e)))),
                _ => (HandleAction::AwaitingRecorded, Next::Done(Ok(()))),
            },
            HandleAction::AwaitingHibernationQueued => match reply {
                Reply::Unit(Err(e)) => (HandleAction::AwaitingRecorded, Next::Done(Err(ActionHandleError::Hibernate(e)))),
                _ => (HandleAction::AwaitingRecorded, Next::Done(Ok(()))),
            },
            HandleAction::AwaitingSpeakerName { person_uuid, comment, destination, random_seed, current_active_ms } => match reply {
                Reply::Name(Err(e)) => (HandleAction::AwaitingRecorded, Next::Done(Err(ActionHandleError::PersonName(e)))),
                _ => (
                    HandleAction::AwaitingSpeakerScene { person_uuid, comment, destination, random_seed, current_active_ms },
                    Next::Call(WorkerCall::GetPersonsCurrentSceneUuid { person_uuid }),
                ),
            },
            HandleAction::AwaitingSpeakerScene { person_uuid, comment, destination, random_seed, current_active_ms } => match reply {
                Reply::CurrentScene(Ok(Some(scene_uuid))) => (
                    HandleAction::Sending {
                        send: SendMessage::AwaitingParticipants {
                            sender: MessageSender::AiPerson(person_uuid),
                            scene_uuid,
                            content: comment,
                            random_seed,
                        },
                        person_uuid,
                        scene_uuid,
                        destination,
                        current_active_ms,
                    },
                    Next::Call(WorkerCall::GetSceneCurrentParticipants { scene_uuid }),
                ),
                Reply::CurrentScene(Err(e)) => (HandleAction::AwaitingRecorded, Next::Done(Err(ActionHandleError::SceneMissing(e)))),
                _ => (
                    HandleAction::AwaitingRecorded,
                    Next::Done(Err(ActionHandleError::SceneMissing(String::from_str("Person is not in any scene")))),
                ),
            },
            HandleAction::Sending { send, person_uuid, scene_uuid, destination, current_active_ms } => {
                let ghost send_g = send;
                let sub = send.resume(reply);
                let ghost sub_g = sub;
                assert(send_g.step(reply, sub_g));
                let (s2, n) = sub;
                match n {
                    Next::Call(call) => (
                        HandleAction::Sending { send: s2, person_uuid, scene_uuid, destination, current_active_ms },
                        Next::Call(call),
                    ),
                    Next::Done(Err(e)) => {
                        let details = e.explain();
                        (HandleAction::AwaitingRecorded, Next::Done(Err(ActionHandleError::Say { scene_uuid, details })))
                    },
                    Next::Done(Ok(_)) => match destination {
                        Some(scene_name) => {
                            let (mv, call) = MoveToScene::start(person_uuid, scene_name, current_active_ms);
                            (
                                HandleAction::Moving {
                                    mv,
                                    person_uuid,
                                    reaction_kind: String::from_str("say_in_scene_and_move_to_scene"),
                                },
                                Next::Call(call),
                            )
                        },
                        None => (
                            HandleAction::AwaitingSpeakerWaitQueued { person_uuid },
                            Next::Call(WorkerCall::UnshiftJob { job: wait_job(person_uuid, POST_SAY_WAIT_MS, current_active_ms) }),
                        ),
                    },
                }
            },
            HandleAction::Moving { mv, person_uuid, reaction_kind } => {
                let ghost mv_g = mv;
                let sub = mv.resume(reply);
                let ghost sub_g = sub;
                assert(mv_g.step(reply, sub_g));
                let (m2, n) = sub;
                match n {
                    Next::Call(call) => (HandleAction::Moving { mv: m2, person_uuid, reaction_kind }, Next::Call(call)),
                    Next::Done(Err(e)) => (HandleAction::AwaitingRecorded, Next::Done(Err(e))),
                    Next::Done(Ok(())) => (
                        HandleAction::AwaitingRecorded,
                        Next::Call(WorkerCall::RecordReaction { person_uuid, action_kind: reaction_kind }),
                    ),
                }
            },
            HandleAction::AwaitingSpeakerWaitQueued { person_uuid } => match reply {
                Reply::Unit(Err(e)) => (HandleAction::AwaitingRecorded, Next::Done(Err(ActionHandleError::Wait(e)))),
                _ => (
                    HandleAction::AwaitingRecorded,
                    Next::Call(WorkerCall::RecordReaction { person_uuid, action_kind: String::from_str("say_in_scene") }),
                ),
            },
            HandleAction::AwaitingRecorded => match reply {
                Reply::Unit(Err(e)) => (HandleAction::AwaitingRecorded, Next::Done(Err(ActionHandleError::ReactionLog(e)))),
                _ => (HandleAction::AwaitingRecorded, Next::Done(Ok(()))),
            },
        }
    }
}

} // verus!

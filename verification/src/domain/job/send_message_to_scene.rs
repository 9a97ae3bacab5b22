//! Sending a message to a scene: everyone else present receives it, and each
//! AI person among them gets a job to react to it.
use crate::capability::SceneParticipant;
use crate::domain::actor_uuid::{actor_label, ActorUuid};
use crate::domain::job::effects::{Next, Reply, WorkerCall};
use crate::domain::job::process_message::ProcessMessageJob;
use crate::domain::job::JobKind;
use crate::domain::message::MessageSender;
use crate::domain::message_uuid::MessageUuid;
use crate::domain::person_uuid::PersonUuid;
use crate::domain::random_seed::{small_rng_from_seed, RandomSeed};
use crate::domain::scene_uuid::SceneUuid;
use crate::ident::{uuid_string, uuid_text};
use crate::nice_display::NiceDisplay;
use rand::seq::SliceRandom;
use vstd::prelude::*;
use vstd::string::*;

verus! {

/// A job that sends a message to a scene.
#[derive(Debug)]
pub struct SendMessageToSceneJob {
    pub sender: MessageSender,
    pub scene_uuid: SceneUuid,
    pub content: String,
    pub random_seed: RandomSeed,
}

/// Why sending a message to a scene failed.
#[derive(Debug)]
pub enum Error {
    FailedToGetSceneParticipants { scene_uuid: SceneUuid, details: String },
    FailedToSendMessage { participant: ActorUuid, details: String },
    FailedToUnshiftJob { message_uuid: MessageUuid, details: String },
}

/// The explanation of a sending error.
pub open spec fn send_error_text(e: Error) -> Seq<char> {
    match e {
        Error::FailedToGetSceneParticipants { scene_uuid, details } =>
            "Failed to get participants for scene "@ + uuid_text(scene_uuid.0) + ": "@ + details@,
        Error::FailedToSendMessage { participant, details } =>
            "Failed to send message to participant "@ + actor_label(participant) + ": "@ + details@,
        Error::FailedToUnshiftJob { message_uuid, details } =>
            "Failed to unshift process message job for message "@ + uuid_text(message_uuid.0)
                + ": "@ + details@,
    }
}

impl Error {
    /// The explanation of the error.
    pub fn explain(&self) -> (res: String)
        ensures
            res@ == send_error_text(*self),
    {
        match self {
            Error::FailedToGetSceneParticipants { scene_uuid, details } => {
                let mut s = String::from_str("Failed to get participants for scene ");
                let u = uuid_string(scene_uuid.0);
                s.append(u.as_str());
                s.append(": ");
                s.append(details.as_str());
                s
            },
            Error::FailedToSendMessage { participant, details } => {
                let mut s = String::from_str("Failed to send message to participant ");
                let l = participant.to_label();
                s.append(l.as_str());
                s.append(": ");
                s.append(details.as_str());
                s
            },
            Error::FailedToUnshiftJob { message_uuid, details } => {
                let mut s = String::from_str("Failed to unshift process message job for message ");
                let u = uuid_string(message_uuid.0);
                s.append(u.as_str());
                s.append(": ");
                s.append(details.as_str());
                s
            },
        }
    }
}

impl NiceDisplay for Error {
    open spec fn message_spec(&self) -> Seq<char> {
        send_error_text(*self)
    }

    fn message(&self) -> (res: String) {
        let r = self.explain();
        assert(self.message_spec() == send_error_text(*self));
        r
    }
}

/// Whether `actor` is the AI person who sent the message.
pub open spec fn is_sender(sender: MessageSender, actor: ActorUuid) -> bool {
    match (sender, actor) {
        (MessageSender::AiPerson(s), ActorUuid::AiPerson(p)) => s.0 == p.0,
        _ => false,
    }
}

/// The AI persons among the participants, other than the sender, in order.
pub open spec fn recipient_uuids(sender: MessageSender, ps: Seq<SceneParticipant>) -> Seq<PersonUuid>
    decreases ps.len(),
{
    if ps.len() == 0 {
        Seq::empty()
    } else {
        let rest = recipient_uuids(sender, ps.drop_last());
        match ps.last().actor_uuid {
            ActorUuid::AiPerson(p) => if is_sender(sender, ps.last().actor_uuid) {
                rest
            } else {
                rest.push(p)
            },
            ActorUuid::RealWorldUser => rest,
        }
    }
}

/// A job for each recipient to react to the message, in order.
pub open spec fn process_message_jobs(message_uuid: MessageUuid, recipients: Seq<PersonUuid>) -> Seq<JobKind> {
    recipients.map_values(
        |p: PersonUuid|
            JobKind::ProcessMessage(ProcessMessageJob { message_uuid, recipient_person_uuid: p }),
    )
}

/// Puts the items in a random order drawn from the generator; wraps
/// `rand::seq::SliceRandom::shuffle`. The order is not stated; the items are
/// the same.
#[verifier::external_body]
pub(crate) fn shuffle_vec<T>(v: &mut Vec<T>, rng: &mut rand::rngs::SmallRng)
    ensures
        final(v)@.to_multiset() == old(v)@.to_multiset(),
{
    v.shuffle(rng);
}

/// The AI persons among the participants, other than the sender, in order.
pub fn select_recipients(sender: MessageSender, participants: &Vec<SceneParticipant>) -> (res: Vec<PersonUuid>)
    ensures
        res@ == recipient_uuids(sender, participants@),
{
    let mut res: Vec<PersonUuid> = Vec::new();
    let mut i: usize = 0;
    while i < participants.len()
        invariant
            i <= participants.len(),
            res@ == recipient_uuids(sender, participants@.take(i as int)),
        decreases participants.len() - i,
    {
        proof {
            assert(participants@.take(i + 1).drop_last() =~= participants@.take(i as int));
            assert(participants@.take(i + 1).last() == participants@[i as int]);
        }
        let actor = participants[i].actor_uuid;
        let is_self = match (&sender, &actor) {
            (MessageSender::AiPerson(s), ActorUuid::AiPerson(p)) => s.0 == p.0,
            _ => false,
        };
        if !is_self {
            match actor {
                ActorUuid::AiPerson(p) => res.push(p),
                ActorUuid::RealWorldUser => {},
            }
        }
        i = i + 1;
    }
    proof {
        assert(participants@.take(participants.len() as int) =~= participants@);
    }
    res
}

impl SendMessageToSceneJob {
    /// Runs the job: starts sending its message.
    pub fn run(self) -> (res: (SendMessage, WorkerCall))
        ensures
            res.0 == (SendMessage::AwaitingParticipants {
                sender: self.sender,
                scene_uuid: self.scene_uuid,
                content: self.content,
                random_seed: self.random_seed,
            }),
            res.1 == (WorkerCall::GetSceneCurrentParticipants { scene_uuid: self.scene_uuid }),
    {
        send_scene_message_and_enqueue_recipients(self.sender, self.scene_uuid, self.content, self.random_seed)
    }
}

/// Where sending a message stands.
#[derive(Debug)]
pub enum SendMessage {
    AwaitingParticipants { sender: MessageSender, scene_uuid: SceneUuid, content: String, random_seed: RandomSeed },
    AwaitingSent { sender: MessageSender, participants: Vec<SceneParticipant> },
    AwaitingRecipients { message_uuid: MessageUuid, jobs: Vec<JobKind> },
    AwaitingUnshift { message_uuid: MessageUuid, jobs: Vec<JobKind> },
}

/// Sends a message to a scene and gives each AI person present, other than
/// the sender and in a random order drawn from the seed, a job to react to
/// it; it starts by asking who is in the scene.
pub fn send_scene_message_and_enqueue_recipients(
    sender: MessageSender,
    scene_uuid: SceneUuid,
    content: String,
    random_seed: RandomSeed,
) -> (res: (SendMessage, WorkerCall))
    ensures
        res.0 == (SendMessage::AwaitingParticipants { sender, scene_uuid, content, random_seed }),
        res.1 == (WorkerCall::GetSceneCurrentParticipants { scene_uuid }),
{
    (
        SendMessage::AwaitingParticipants { sender, scene_uuid, content, random_seed },
        WorkerCall::GetSceneCurrentParticipants { scene_uuid },
    )
}

impl SendMessage {
    /// The reply each stage waits for.
    pub open spec fn awaits(self, reply: Reply) -> bool {
        match self {
            SendMessage::AwaitingParticipants { .. } => reply is Participants,
            SendMessage::AwaitingSent { .. } => reply is MessageSent,
            SendMessage::AwaitingRecipients { .. } => reply is Unit,
            SendMessage::AwaitingUnshift { .. } => reply is Unit,
        }
    }

    /// One step of sending: what follows each reply.
    pub open spec fn step(self, reply: Reply, res: (SendMessage, Next<Result<MessageUuid, Error>>)) -> bool {
        match (self, reply) {
            (SendMessage::AwaitingParticipants { sender, scene_uuid, content, .. }, Reply::Participants(r)) => match r {
                Err(e) => res.1 == Next::<Result<MessageUuid, Error>>::Done(
                    Err(Error::FailedToGetSceneParticipants { scene_uuid, details: e }),
                ),
                Ok(ps) => {
                    &&& match res.0 {
                        SendMessage::AwaitingSent { sender: s, participants } => s == sender
                            && participants@.to_multiset() == ps@.to_multiset(),
                        _ => false,
                    }
                    &&& res.1 == Next::<Result<MessageUuid, Error>>::Call(
                        WorkerCall::SendSceneMessage { sender, scene_uuid, content },
                    )
                },
            },
            (SendMessage::AwaitingSent { sender, participants }, Reply::MessageSent(r)) => match r {
                Err(e) => res.1 == Next::<Result<MessageUuid, Error>>::Done(
                    Err(Error::FailedToSendMessage { participant: ActorUuid::RealWorldUser, details: e }),
                ),
                Ok(message_uuid) => {
                    &&& match res.0 {
                        SendMessage::AwaitingRecipients { message_uuid: m, jobs } => m
                            == message_uuid && jobs@ == process_message_jobs(
                            message_uuid,
                            recipient_uuids(sender, participants@),
                        ),
                        _ => false,
                    }
                    &&& match res.1 {
                        Next::Call(
                            WorkerCall::AddSceneMessageRecipients { message_uuid: m2, recipients },
                        ) => m2 == message_uuid && recipients@ == recipient_uuids(
                            sender,
                            participants@,
                        ),
                        _ => false,
                    }
                },
            },
            (SendMessage::AwaitingRecipients { message_uuid, jobs }, Reply::Unit(r)) => match r {
                Err(e) => res.1 == Next::<Result<MessageUuid, Error>>::Done(
                    Err(Error::FailedToSendMessage { participant: ActorUuid::RealWorldUser, details: e }),
                ),
                Ok(()) => Self::queue_next(message_uuid, jobs@, res),
            },
            (SendMessage::AwaitingUnshift { message_uuid, jobs }, Reply::Unit(r)) => match r {
                Err(e) => res.1 == Next::<Result<MessageUuid, Error>>::Done(
                    Err(Error::FailedToUnshiftJob { message_uuid, details: e }),
                ),
                Ok(()) => Self::queue_next(message_uuid, jobs@, res),
            },
            _ => false,
        }
    }

    /// Goes on with the reply. The participants are shuffled with the seed;
    /// the message is sent; its recipients are the AI persons present other
    /// than the sender; each of them gets a job to react, queued in turn.
    pub fn resume(self, reply: Reply) -> (res: (SendMessage, Next<Result<MessageUuid, Error>>))
        requires
            self.awaits(reply),
        ensures
            self.step(reply, res),
    {
        match self {
            SendMessage::AwaitingParticipants { sender, scene_uuid, content, random_seed } => match reply {
                Reply::Participants(r) => match r {
                    Err(e) => (
                        SendMessage::AwaitingRecipients { message_uuid: MessageUuid(0), jobs: Vec::new() },
                        Next::Done(Err(Error::FailedToGetSceneParticipants { scene_uuid, details: e })),
                    ),
                    Ok(ps) => {
                        let mut participants = ps;
                        let mut rng = small_rng_from_seed(random_seed.value());
                        shuffle_vec(&mut participants, &mut rng);
                        (
                            SendMessage::AwaitingSent { sender, participants },
                            Next::Call(WorkerCall::SendSceneMessage { sender, scene_uuid, content }),
                        )
                    },
                },
                _ => (SendMessage::AwaitingRecipients { message_uuid: MessageUuid(0), jobs: Vec::new() }, Next::Done(Ok(MessageUuid(0)))),
            },
            SendMessage::AwaitingSent { sender, participants } => match reply {
                Reply::MessageSent(r) => match r {
                    Err(e) => (
                        SendMessage::AwaitingRecipients { message_uuid: MessageUuid(0), jobs: Vec::new() },
                        Next::Done(
                            Err(Error::FailedToSendMessage { participant: ActorUuid::RealWorldUser, details: e }),
                        ),
                    ),
                    Ok(message_uuid) => {
                        let recipients = select_recipients(sender, &participants);
                        let mut jobs: Vec<JobKind> = Vec::new();
                        let mut i: usize = 0;
                        while i < recipients.len()
                            invariant
                                i <= recipients.len(),
                                jobs@ == process_message_jobs(message_uuid, recipients@.take(i as int)),
                            decreases recipients.len() - i,
                        {
                            jobs.push(
                                JobKind::ProcessMessage(
                                    ProcessMessageJob { message_uuid, recipient_person_uuid: recipients[i] },
                                ),
                            );
                            proof {
                                assert(process_message_jobs(message_uuid, recipients@.take(i + 1)) =~= process_message_jobs(
                                    message_uuid,
                                    recipients@.take(i as int),
                                ).push(
                                    JobKind::ProcessMessage(
                                        ProcessMessageJob { message_uuid, recipient_person_uuid: recipients@[i as int] },
                                    ),
                                ));
                            }
                            i = i + 1;
                        }
                        proof {
                            assert(recipients@.take(recipients.len() as int) =~= recipients@);
                        }
                        (
                            SendMessage::AwaitingRecipients { message_uuid, jobs },
                            Next::Call(WorkerCall::AddSceneMessageRecipients { message_uuid, recipients }),
                        )
                    },
                },
                _ => (SendMessage::AwaitingRecipients { message_uuid: MessageUuid(0), jobs: Vec::new() }, Next::Done(Ok(MessageUuid(0)))),
            },
            SendMessage::AwaitingRecipients { message_uuid, jobs } => match reply {
                Reply::Unit(r) => match r {
                    Err(e) => (
                        SendMessage::AwaitingRecipients { message_uuid, jobs },
                        Next::Done(
                            Err(Error::FailedToSendMessage { participant: ActorUuid::RealWorldUser, details: e }),
                        ),
                    ),
                    Ok(()) => Self::queue_next_exec(message_uuid, jobs),
                },
                _ => (SendMessage::AwaitingRecipients { message_uuid, jobs }, Next::Done(Ok(message_uuid))),
            },
            SendMessage::AwaitingUnshift { message_uuid, jobs } => match reply {
                Reply::Unit(r) => match r {
                    Err(e) => (
                        SendMessage::AwaitingRecipients { message_uuid, jobs },
                        Next::Done(Err(Error::FailedToUnshiftJob { message_uuid, details: e })),
                    ),
                    Ok(()) => Self::queue_next_exec(message_uuid, jobs),
                },
                _ => (SendMessage::AwaitingRecipients { message_uuid, jobs }, Next::Done(Ok(message_uuid))),
            },
        }
    }

    /// Queue the first remaining job, or finish with the message's identifier.
    pub open spec fn queue_next(
        message_uuid: MessageUuid,
        jobs: Seq<JobKind>,
        res: (SendMessage, Next<Result<MessageUuid, Error>>),
    ) -> bool {
        if jobs.len() == 0 {
            res.1 == Next::<Result<MessageUuid, Error>>::Done(Ok(message_uuid))
        } else {
            &&& match res.0 {
                SendMessage::AwaitingUnshift { message_uuid: m, jobs: rest } => m == message_uuid
                    && rest@ == jobs.drop_first(),
                _ => false,
            }
            &&& res.1 == Next::<Result<MessageUuid, Error>>::Call(WorkerCall::UnshiftJob { job: jobs[0] })
        }
    }

    fn queue_next_exec(message_uuid: MessageUuid, jobs: Vec<JobKind>) -> (res: (SendMessage, Next<Result<MessageUuid, Error>>))
        ensures
            Self::queue_next(message_uuid, jobs@, res),
    {
        let mut jobs = jobs;
        if jobs.len() == 0 {
            (SendMessage::AwaitingUnshift { message_uuid, jobs }, Next::Done(Ok(message_uuid)))
        } else {
            let ghost before = jobs@;
            let job = jobs.remove(0);
            proof {
                assert(jobs@ =~= before.drop_first());
            }
            (SendMessage::AwaitingUnshift { message_uuid, jobs }, Next::Call(WorkerCall::UnshiftJob { job }))
        }
    }
}

} // verus!

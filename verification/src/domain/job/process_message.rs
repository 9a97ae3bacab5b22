//! A person reacting to a message said in their scene.
use crate::domain::job::effects::{Next, Reply, WorkerCall};
use crate::domain::job::process_reaction_common::scene_reaction::{
    run_scene_reaction, ReactionContext, ReactionStep, SceneReaction,
};
use crate::domain::job::process_reaction_common::{reaction_error_text, SceneReactionTrigger};
use crate::domain::message_uuid::MessageUuid;
use crate::domain::person_uuid::PersonUuid;
use crate::domain::random_seed::RandomSeed;
use crate::nice_display::NiceDisplay;
use vstd::prelude::*;
use vstd::string::*;

verus! {

/// A job for a person to react to a message.
#[derive(Debug, Clone, Copy, PartialEq, Eq, Structural)]
pub struct ProcessMessageJob {
    pub message_uuid: MessageUuid,
    pub recipient_person_uuid: PersonUuid,
}

/// Why reacting to a message failed.
#[derive(Debug)]
pub enum Error {
    FailedToGetMessage(String),
    MessageNotFound,
    Reaction(crate::domain::job::process_reaction_common::Error),
}

/// The explanation of an error.
pub open spec fn process_message_error_text(e: Error) -> Seq<char> {
    match e {
        Error::FailedToGetMessage(d) => "Failed to get message: "@ + d@,
        Error::MessageNotFound => "Message not found"@,
        Error::Reaction(r) => reaction_error_text(r),
    }
}

impl Error {
    /// The explanation of the error.
    pub fn explain(&self) -> (res: String)
        ensures
            res@ == process_message_error_text(*self),
    {
        match self {
            Error::FailedToGetMessage(d) => {
                let mut s = String::from_str("Failed to get message: ");
                s.append(d.as_str());
                s
            },
            Error::MessageNotFound => String::from_str("Message not found"),
            Error::Reaction(r) => r.explain(),
        }
    }
}

impl NiceDisplay for Error {
    open spec fn message_spec(&self) -> Seq<char> {
        process_message_error_text(*self)
    }

    fn message(&self) -> (res: String) {
        let r = self.explain();
        assert(self.message_spec() == process_message_error_text(*self));
        r
    }
}

/// Where reacting to a message stands.
#[derive(Debug)]
pub enum ProcessMessage {
    AwaitingMessage { job: ProcessMessageJob, random_seed: RandomSeed, current_active_ms: i64 },
    Reacting { sub: SceneReaction },
    Finished,
}

/// The result type of a step of reacting to a message.
pub type ProcessMessageStep = (ProcessMessage, Next<Result<(), Error>>);

/// What follows a step of the reaction.
pub open spec fn after_reaction(sub: ReactionStep, res: ProcessMessageStep) -> bool {
    match sub.1 {
        Next::Call(call) => {
            &&& res.0 == (ProcessMessage::Reacting { sub: sub.0 })
            &&& res.1 == Next::<Result<(), Error>>::Call(call)
        },
        Next::Done(Err(e)) => res.1 == Next::<Result<(), Error>>::Done(Err(Error::Reaction(e))),
        Next::Done(Ok(())) => res.1 == Next::<Result<(), Error>>::Done(Ok(())),
    }
}

fn continue_reaction(sub: ReactionStep) -> (res: ProcessMessageStep)
    ensures
        after_reaction(sub, res),
{
    let (s, n) = sub;
    match n {
        Next::Call(call) => (ProcessMessage::Reacting { sub: s }, Next::Call(call)),
        Next::Done(Err(e)) => (ProcessMessage::Finished, Next::Done(Err(Error::Reaction(e)))),
        Next::Done(Ok(())) => (ProcessMessage::Finished, Next::Done(Ok(()))),
    }
}

impl ProcessMessageJob {
    /// Runs the job: the message is looked up, and the recipient reacts to
    /// the new messages of its scene.
    pub fn run(self, random_seed: RandomSeed, current_active_ms: i64) -> (res: (ProcessMessage, WorkerCall))
        ensures
            res.0 == (ProcessMessage::AwaitingMessage { job: self, random_seed, current_active_ms }),
            res.1 == (WorkerCall::GetMessageByUuid { message_uuid: self.message_uuid }),
    {
        (
            ProcessMessage::AwaitingMessage { job: self, random_seed, current_active_ms },
            WorkerCall::GetMessageByUuid { message_uuid: self.message_uuid },
        )
    }
}

impl ProcessMessage {
    /// The reply each stage waits for.
    pub open spec fn awaits(self, reply: Reply) -> bool {
        match self {
            ProcessMessage::AwaitingMessage { .. } => reply is MaybeMessage,
            ProcessMessage::Reacting { sub } => sub.awaits(reply),
            ProcessMessage::Finished => false,
        }
    }

    /// One step of reacting to a message.
    pub open spec fn step(self, reply: Reply, res: ProcessMessageStep) -> bool {
        match (self, reply) {
            (ProcessMessage::AwaitingMessage { job, random_seed, current_active_ms }, Reply::MaybeMessage(r)) => match r {
                Err(e) => res.1 == Next::<Result<(), Error>>::Done(Err(Error::FailedToGetMessage(e))),
                Ok(None) => res.1 == Next::<Result<(), Error>>::Done(Err(Error::MessageNotFound)),
                Ok(Some(message)) => {
                    &&& res.0 == (ProcessMessage::Reacting {
                        sub: SceneReaction::AwaitingPending {
                            ctx: ReactionContext {
                                person_uuid: job.recipient_person_uuid,
                                scene_uuid: message.scene_uuid,
                                trigger: SceneReactionTrigger::NewMessages,
                                random_seed,
                                current_active_ms,
                            },
                        },
                    })
                    &&& res.1 == Next::<Result<(), Error>>::Call(
                        WorkerCall::GetUnhandledSceneMessages {
                            person_uuid: job.recipient_person_uuid,
                            scene_uuid: message.scene_uuid,
                        },
                    )
                },
            },
            (ProcessMessage::Reacting { sub }, _) => exists|s: ReactionStep|
                #[trigger] sub.step(reply, s) && after_reaction(s, res),
            _ => false,
        }
    }

    /// Goes on with the reply.
    pub fn resume(self, reply: Reply) -> (res: ProcessMessageStep)
        requires
            self.awaits(reply),
        ensures
            self.step(reply, res),
    {
        match self {
            ProcessMessage::AwaitingMessage { job, random_seed, current_active_ms } => match reply {
                Reply::MaybeMessage(Ok(Some(message))) => {
                    let sub = run_scene_reaction(
                        job.recipient_person_uuid,
                        message.scene_uuid,
                        SceneReactionTrigger::NewMessages,
                        random_seed,
                        current_active_ms,
                    );
                    continue_reaction(sub)
                },
                Reply::MaybeMessage(Ok(None)) => (ProcessMessage::Finished, Next::Done(Err(Error::MessageNotFound))),
                Reply::MaybeMessage(Err(e)) => (ProcessMessage::Finished, Next::Done(Err(Error::FailedToGetMessage(e)))),
                _ => (ProcessMessage::Finished, Next::Done(Err(Error::MessageNotFound))),
            },
            ProcessMessage::Reacting { sub } => {
                let ghost sub_g = sub;
                let s = sub.resume(reply);
                let ghost s_g = s;
                let res = continue_reaction(s);
                assert(sub_g.step(reply, s_g));
                res
            },
            ProcessMessage::Finished => (ProcessMessage::Finished, Next::Done(Err(Error::MessageNotFound))),
        }
    }
}

} // verus!

//! A person reacting to someone joining their scene.
use crate::domain::job::effects::{Next, Reply, WorkerCall};
use crate::domain::job::process_reaction_common::scene_reaction::{
    run_scene_reaction, ReactionContext, ReactionStep, SceneReaction,
};
use crate::domain::job::process_reaction_common::{reaction_error_text, SceneReactionTrigger};
use crate::domain::person_uuid::PersonUuid;
use crate::domain::random_seed::RandomSeed;
use crate::domain::scene_uuid::SceneUuid;
use crate::nice_display::NiceDisplay;
use vstd::prelude::*;

verus! {

/// A job for a person to react to someone joining their scene.
#[derive(Debug, Clone, Copy, PartialEq, Eq, Structural)]
pub struct ProcessPersonJoinJob {
    pub scene_uuid: SceneUuid,
    pub joined_person_uuid: PersonUuid,
    pub recipient_person_uuid: PersonUuid,
}

/// Why reacting to someone joining failed.
#[derive(Debug)]
pub enum Error {
    Reaction(crate::domain::job::process_reaction_common::Error),
}

impl NiceDisplay for Error {
    open spec fn message_spec(&self) -> Seq<char> {
        match *self {
            Error::Reaction(r) => reaction_error_text(r),
        }
    }

    fn message(&self) -> (res: String) {
        match self {
            Error::Reaction(r) => r.explain(),
        }
    }
}

/// Where reacting to someone joining stands.
#[derive(Debug)]
pub enum ProcessPersonJoin {
    Reacting { sub: SceneReaction },
    Finished,
}

/// The result type of a step of reacting to someone joining.
pub type JoinStep = (ProcessPersonJoin, Next<Result<(), Error>>);

/// What follows a step of the reaction.
pub open spec fn after_join_reaction(sub: ReactionStep, res: JoinStep) -> bool {
    match sub.1 {
        Next::Call(call) => {
            &&& res.0 == (ProcessPersonJoin::Reacting { sub: sub.0 })
            &&& res.1 == Next::<Result<(), Error>>::Call(call)
        },
        Next::Done(Err(e)) => res.1 == Next::<Result<(), Error>>::Done(Err(Error::Reaction(e))),
        Next::Done(Ok(())) => res.1 == Next::<Result<(), Error>>::Done(Ok(())),
    }
}

fn continue_join_reaction(sub: ReactionStep) -> (res: JoinStep)
    ensures
        after_join_reaction(sub, res),
{
    let (s, n) = sub;
    match n {
        Next::Call(call) => (ProcessPersonJoin::Reacting { sub: s }, Next::Call(call)),
        Next::Done(Err(e)) => (ProcessPersonJoin::Finished, Next::Done(Err(Error::Reaction(e)))),
        Next::Done(Ok(())) => (ProcessPersonJoin::Finished, Next::Done(Ok(()))),
    }
}

impl ProcessPersonJoinJob {
    /// Runs the job: the recipient reacts to the person who joined.
    pub fn run(self, random_seed: RandomSeed, current_active_ms: i64) -> (res: JoinStep)
        ensures
            match res.0 {
                ProcessPersonJoin::Reacting { sub: SceneReaction::AwaitingEnabled { ctx, pending } } => ctx
                    == (ReactionContext {
                    person_uuid: self.recipient_person_uuid,
                    scene_uuid: self.scene_uuid,
                    trigger: SceneReactionTrigger::PersonJoined { joined_person_uuid: self.joined_person_uuid },
                    random_seed,
                    current_active_ms,
                }) && pending@.len() == 0,
                _ => false,
            },
            res.1 == Next::<Result<(), Error>>::Call(
                WorkerCall::IsPersonEnabled { person_uuid: self.recipient_person_uuid },
            ),
    {
        let sub = run_scene_reaction(
            self.recipient_person_uuid,
            self.scene_uuid,
            SceneReactionTrigger::PersonJoined { joined_person_uuid: self.joined_person_uuid },
            random_seed,
            current_active_ms,
        );
        continue_join_reaction(sub)
    }
}

impl ProcessPersonJoin {
    /// The reply each stage waits for.
    pub open spec fn awaits(self, reply: Reply) -> bool {
        match self {
            ProcessPersonJoin::Reacting { sub } => sub.awaits(reply),
            ProcessPersonJoin::Finished => false,
        }
    }

    /// One step of reacting to someone joining.
    pub open spec fn step(self, reply: Reply, res: JoinStep) -> bool {
        match self {
            ProcessPersonJoin::Reacting { sub } => exists|s: ReactionStep|
                #[trigger] sub.step(reply, s) && after_join_reaction(s, res),
            ProcessPersonJoin::Finished => false,
        }
    }

    /// Goes on with the reply.
    pub fn resume(self, reply: Reply) -> (res: JoinStep)
        requires
            self.awaits(reply),
        ensures
            self.step(reply, res),
    {
        match self {
            ProcessPersonJoin::Reacting { sub } => {
                let ghost sub_g = sub;
                let s = sub.resume(reply);
                let ghost s_g = s;
                let res = continue_join_reaction(s);
                assert(sub_g.step(reply, s_g));
                res
            },
            ProcessPersonJoin::Finished => (ProcessPersonJoin::Finished, Next::Done(Ok(()))),
        }
    }
}

} // verus!

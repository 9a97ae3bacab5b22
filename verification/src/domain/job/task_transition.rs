//! After a person acts: ask whether their current task has ended, and if so,
//! record how.
use crate::domain::job::effects::{Next, Reply, WorkerCall};
use crate::domain::person_task::PersonTaskOutcomeCheck;
use crate::domain::person_task_uuid::PersonTaskUuid;
use crate::domain::person_uuid::PersonUuid;
use vstd::prelude::*;

verus! {

/// Why the task of a person could not be brought up to date.
#[derive(Debug)]
pub enum TaskTransitionError {
    FailedToGetCurrentTask(String),
    TaskOutcomeClassification(String),
    TaskTransition(String),
}

/// Where the update of the current task stands.
#[derive(Debug)]
pub enum TaskTransition {
    AwaitingTask { person_uuid: PersonUuid, situation: String, action_summary: Option<String> },
    AwaitingCheck { person_uuid: PersonUuid, task_uuid: PersonTaskUuid },
    AwaitingTransition,
}

impl TaskTransition {
    /// The reply each stage waits for.
    pub open spec fn awaits(self, reply: Reply) -> bool {
        match self {
            TaskTransition::AwaitingTask { .. } => reply is Task,
            TaskTransition::AwaitingCheck { .. } => reply is TaskCheck,
            TaskTransition::AwaitingTransition => reply is Unit,
        }
    }

    /// Starts by asking for the person's current active task.
    pub fn start(person_uuid: PersonUuid, situation: String, action_summary: Option<String>) -> (res: (
        TaskTransition,
        WorkerCall,
    ))
        ensures
            res.0 == (TaskTransition::AwaitingTask { person_uuid, situation, action_summary }),
            res.1 == (WorkerCall::GetPersonsCurrentActiveTask { person_uuid }),
    {
        (
            TaskTransition::AwaitingTask { person_uuid, situation, action_summary },
            WorkerCall::GetPersonsCurrentActiveTask { person_uuid },
        )
    }

    /// One step of the update: what follows each reply.
    pub open spec fn step(self, reply: Reply, res: (TaskTransition, Next<Result<(), TaskTransitionError>>)) -> bool {
        match (self, reply) {
            (
                TaskTransition::AwaitingTask { person_uuid, situation, action_summary },
                Reply::Task(r),
            ) => match r {
                Err(e) => res.1 == Next::<Result<(), TaskTransitionError>>::Done(
                    Err(TaskTransitionError::FailedToGetCurrentTask(e)),
                ),
                Ok(None) => res.1 == Next::<Result<(), TaskTransitionError>>::Done(Ok(())),
                Ok(Some(task)) => res.0 == (TaskTransition::AwaitingCheck {
                    person_uuid,
                    task_uuid: task.uuid,
                }) && res.1 == Next::<Result<(), TaskTransitionError>>::Call(
                    WorkerCall::ClassifyCurrentTaskOutcome { task, situation, action_summary },
                ),
            },
            (TaskTransition::AwaitingCheck { person_uuid, task_uuid }, Reply::TaskCheck(r)) =>
                match r {
                Err(e) => res.1 == Next::<Result<(), TaskTransitionError>>::Done(
                    Err(TaskTransitionError::TaskOutcomeClassification(e)),
                ),
                Ok(PersonTaskOutcomeCheck::StillActive) => res.1 == Next::<
                    Result<(), TaskTransitionError>,
                >::Done(Ok(())),
                Ok(PersonTaskOutcomeCheck::Terminal(outcome)) => res.0
                    == TaskTransition::AwaitingTransition && res.1 == Next::<
                    Result<(), TaskTransitionError>,
                >::Call(WorkerCall::TransitionPersonTask { person_uuid, task_uuid, outcome }),
            },
            (TaskTransition::AwaitingTransition, Reply::Unit(r)) => match r {
                Err(e) => res.1 == Next::<Result<(), TaskTransitionError>>::Done(
                    Err(TaskTransitionError::TaskTransition(e)),
                ),
                Ok(()) => res.1 == Next::<Result<(), TaskTransitionError>>::Done(Ok(())),
            },
            _ => false,
        }
    }

    /// Goes on with the reply: no task, or a task still active, ends the update;
    /// an ended task is recorded with its outcome; each failure ends it with
    /// its own error.
    pub fn resume(self, reply: Reply) -> (res: (TaskTransition, Next<Result<(), TaskTransitionError>>))
        requires
            self.awaits(reply),
        ensures
            self.step(reply, res),
    {
        match self {
            TaskTransition::AwaitingTask { person_uuid, situation, action_summary } => match reply {
                Reply::Task(r) => match r {
                    Err(e) => (
                        TaskTransition::AwaitingTransition,
                        Next::Done(Err(TaskTransitionError::FailedToGetCurrentTask(e))),
                    ),
                    Ok(None) => (TaskTransition::AwaitingTransition, Next::Done(Ok(()))),
                    Ok(Some(task)) => {
                        let task_uuid = task.uuid;
                        (
                            TaskTransition::AwaitingCheck { person_uuid, task_uuid },
                            Next::Call(
                                WorkerCall::ClassifyCurrentTaskOutcome {
                                    task,
                                    situation,
                                    action_summary,
                                },
                            ),
                        )
                    },
                },
                _ => (TaskTransition::AwaitingTransition, Next::Done(Ok(()))),
            },
            TaskTransition::AwaitingCheck { person_uuid, task_uuid } => match reply {
                Reply::TaskCheck(r) => match r {
                    Err(e) => (
                        TaskTransition::AwaitingTransition,
                        Next::Done(Err(TaskTransitionError::TaskOutcomeClassification(e))),
                    ),
                    Ok(PersonTaskOutcomeCheck::StillActive) => (
                        TaskTransition::AwaitingTransition,
                        Next::Done(Ok(())),
                    ),
                    Ok(PersonTaskOutcomeCheck::Terminal(outcome)) => (
                        TaskTransition::AwaitingTransition,
                        Next::Call(
                            WorkerCall::TransitionPersonTask { person_uuid, task_uuid, outcome },
                        ),
                    ),
                },
                _ => (TaskTransition::AwaitingTransition, Next::Done(Ok(()))),
            },
            TaskTransition::AwaitingTransition => match reply {
                Reply::Unit(r) => match r {
                    Err(e) => (
                        TaskTransition::AwaitingTransition,
                        Next::Done(Err(TaskTransitionError::TaskTransition(e))),
                    ),
                    Ok(()) => (TaskTransition::AwaitingTransition, Next::Done(Ok(()))),
                },
                _ => (TaskTransition::AwaitingTransition, Next::Done(Ok(()))),
            },
        }
    }
}

} // verus!

//! Carrying out the changes a person's reflection asks for, one at a time,
//! each logged as a `reflection_change` event.
use crate::capability::{NewMemory, NewMotivation, NewStateOfMind, ReflectionChange};
use crate::domain::job::effects::{Next, Reply, WorkerCall};
use crate::domain::job::process_reaction_common::Error;
use crate::domain::memory_uuid::MemoryUuid;
use crate::domain::motivation_uuid::MotivationUuid;
use crate::domain::person_name::PersonName;
use crate::domain::person_uuid::PersonUuid;
use crate::domain::state_of_mind_uuid::StateOfMindUuid;
use crate::ident::{is_v7_uuid, uuid_string, uuid_text};
use crate::json::{member_views, push_member, Json, JsonV};
use crate::text::{trim_chars, trim_text};
use vstd::prelude::*;
use vstd::string::*;

verus! {

/// Whether the change is a memory summary with nothing but white space.
pub open spec fn is_blank_summary(c: ReflectionChange) -> bool {
    match c {
        ReflectionChange::MemorySummary { summary } => trim_chars(summary@).len() == 0,
        _ => false,
    }
}

/// The first change from `i` on that is not a blank summary, or the number
/// of changes.
pub open spec fn first_effective(cs: Seq<ReflectionChange>, i: int) -> int
    decreases cs.len() - i,
{
    if i >= cs.len() {
        cs.len() as int
    } else if !is_blank_summary(cs[i]) {
        i
    } else {
        first_effective(cs, i + 1)
    }
}

/// Whether a priority fits in an `i32`.
pub open spec fn fits_i32(priority: i64) -> bool {
    i32::MIN <= priority <= i32::MAX
}

/// The message of a priority that does not fit.
pub open spec fn priority_range_text() -> Seq<char> {
    "Motivation priority must fit in i32"@
}

/// A JSON integer as `serde_json` holds an `i64`.
pub open spec fn int_json(v: i64) -> JsonV {
    if v >= 0 {
        JsonV::PosInt(v as u64)
    } else {
        JsonV::NegInt(v)
    }
}

/// The data of the `reflection_change` event of a change; `motivation_uuid`
/// is the identifier of a motivation the change created. Members are in key
/// order.
pub open spec fn change_log_data(person_uuid: PersonUuid, c: ReflectionChange, motivation_uuid: MotivationUuid) -> JsonV {
    match c {
        ReflectionChange::StateOfMind { content } => JsonV::Object(
            seq![
                ("change_type"@, JsonV::Str("state_of_mind"@)),
                ("content"@, JsonV::Str(content@)),
                ("person_uuid"@, JsonV::Str(uuid_text(person_uuid.0))),
            ],
        ),
        ReflectionChange::MemorySummary { summary } => JsonV::Object(
            seq![
                ("change_type"@, JsonV::Str("memory_summary"@)),
                ("person_uuid"@, JsonV::Str(uuid_text(person_uuid.0))),
                ("summary"@, JsonV::Str(summary@)),
            ],
        ),
        ReflectionChange::NewMotivation { content, priority } => JsonV::Object(
            seq![
                ("change_type"@, JsonV::Str("add_motivation"@)),
                ("content"@, JsonV::Str(content@)),
                ("motivation_uuid"@, JsonV::Str(uuid_text(motivation_uuid.0))),
                ("person_uuid"@, JsonV::Str(uuid_text(person_uuid.0))),
                ("priority"@, int_json(priority)),
            ],
        ),
        ReflectionChange::DeleteMotivation { motivation_uuid: m } => JsonV::Object(
            seq![
                ("change_type"@, JsonV::Str("remove_motivation"@)),
                ("motivation_uuid"@, JsonV::Str(uuid_text(m.0))),
                ("person_uuid"@, JsonV::Str(uuid_text(person_uuid.0))),
            ],
        ),
    }
}

fn int_json_value(v: i64) -> (res: Json)
    ensures
        res@ == int_json(v),
{
    if v >= 0 {
        Json::PosInt(v as u64)
    } else {
        Json::NegInt(v)
    }
}

fn str_json(s: &str) -> (res: Json)
    ensures
        res@ == JsonV::Str(s@),
{
    Json::Str(String::from_str(s))
}

fn uuid_json(v: u128) -> (res: Json)
    ensures
        res@ == JsonV::Str(uuid_text(v)),
{
    Json::Str(uuid_string(v))
}

/// The data of the `reflection_change` event of a change.
pub fn change_log_value(person_uuid: PersonUuid, c: &ReflectionChange, motivation_uuid: MotivationUuid) -> (res: Json)
    ensures
        res@ == change_log_data(person_uuid, *c, motivation_uuid),
{
    let mut ms: Vec<(String, Json)> = Vec::new();
    proof {
        assert(member_views(ms@) =~= Seq::<(Seq<char>, JsonV)>::empty());
    }
    match c {
        ReflectionChange::StateOfMind { content } => {
            push_member(&mut ms, "change_type", str_json("state_of_mind"));
            push_member(&mut ms, "content", Json::Str(content.clone()));
            push_member(&mut ms, "person_uuid", uuid_json(person_uuid.0));
        },
        ReflectionChange::MemorySummary { summary } => {
            push_member(&mut ms, "change_type", str_json("memory_summary"));
            push_member(&mut ms, "person_uuid", uuid_json(person_uuid.0));
            push_member(&mut ms, "summary", Json::Str(summary.clone()));
        },
        ReflectionChange::NewMotivation { content, priority } => {
            push_member(&mut ms, "change_type", str_json("add_motivation"));
            push_member(&mut ms, "content", Json::Str(content.clone()));
            push_member(&mut ms, "motivation_uuid", uuid_json(motivation_uuid.0));
            push_member(&mut ms, "person_uuid", uuid_json(person_uuid.0));
            push_member(&mut ms, "priority", int_json_value(*priority));
        },
        ReflectionChange::DeleteMotivation { motivation_uuid: m } => {
            push_member(&mut ms, "change_type", str_json("remove_motivation"));
            push_member(&mut ms, "motivation_uuid", uuid_json(m.0));
            push_member(&mut ms, "person_uuid", uuid_json(person_uuid.0));
        },
    }
    let res = Json::Object(ms);
    proof {
        assert(member_views(ms@) =~= match change_log_data(person_uuid, *c, motivation_uuid) {
            JsonV::Object(m) => m,
            _ => Seq::empty(),
        });
    }
    res
}

/// Which reply a change waits for.
#[derive(Debug, Clone, Copy, PartialEq, Eq, Structural)]
pub enum ChangeStage {
    Creating,
    Logging,
}

/// Where carrying out the changes stands.
#[derive(Debug)]
pub enum ApplyChanges {
    Working {
        person_uuid: PersonUuid,
        person_name: PersonName,
        changes: Vec<ReflectionChange>,
        current: usize,
        stage: ChangeStage,
    },
    Finished,
}

/// The result type of a step of carrying out the changes.
pub type ChangesStep = (ApplyChanges, Next<Result<(), Error>>);

/// Whether the state works on change `current` at `stage`.
pub open spec fn working_on(
    s: ApplyChanges,
    person_uuid: PersonUuid,
    person_name: PersonName,
    changes: Seq<ReflectionChange>,
    current: int,
    stage: ChangeStage,
) -> bool {
    match s {
        ApplyChanges::Working { person_uuid: p, person_name: n, changes: cs, current: c, stage: st } => p == person_uuid
            && n == person_name && cs@ == changes && c == current && st == stage,
        _ => false,
    }
}

/// Carrying out the changes goes on from change `i`: blank summaries are
/// passed over; the next change is asked for, or a priority that does not
/// fit fails; with none left, the changes are done.
pub open spec fn changes_from(
    person_uuid: PersonUuid,
    person_name: PersonName,
    cs: Seq<ReflectionChange>,
    i: int,
    res: ChangesStep,
) -> bool {
    let j = first_effective(cs, i);
    if j >= cs.len() {
        res.1 == Next::<Result<(), Error>>::Done(Ok(()))
    } else {
        match cs[j] {
            ReflectionChange::StateOfMind { content } => {
                &&& working_on(res.0, person_uuid, person_name, cs, j, ChangeStage::Creating)
                &&& match res.1 {
                    Next::Call(WorkerCall::CreateStateOfMind { new_state_of_mind }) => new_state_of_mind.person_name
                        == person_name && new_state_of_mind.state_of_mind@ == content@ && is_v7_uuid(new_state_of_mind.uuid.0),
                    _ => false,
                }
            },
            ReflectionChange::MemorySummary { summary } => {
                &&& working_on(res.0, person_uuid, person_name, cs, j, ChangeStage::Creating)
                &&& match res.1 {
                    Next::Call(WorkerCall::CreateMemory { new_memory }) => new_memory.person_uuid == person_uuid
                        && new_memory.content@ == summary@ && is_v7_uuid(new_memory.memory_uuid.0),
                    _ => false,
                }
            },
            ReflectionChange::NewMotivation { content, priority } => if fits_i32(priority) {
                &&& working_on(res.0, person_uuid, person_name, cs, j, ChangeStage::Creating)
                &&& match res.1 {
                    Next::Call(WorkerCall::CreateMotivation { new_motivation }) => new_motivation.person_uuid == person_uuid
                        && new_motivation.content@ == content@ && new_motivation.priority == priority,
                    _ => false,
                }
            } else {
                match res.1 {
                    Next::Done(Err(Error::FailedToCreateReflectionMotivation(m))) => m@ == priority_range_text(),
                    _ => false,
                }
            },
            ReflectionChange::DeleteMotivation { motivation_uuid } => {
                &&& working_on(res.0, person_uuid, person_name, cs, j, ChangeStage::Creating)
                &&& res.1 == Next::<Result<(), Error>>::Call(WorkerCall::DeleteMotivation { motivation_uuid })
            },
        }
    }
}

/// The event logged once a change is made.
pub open spec fn logs_change(
    person_uuid: PersonUuid,
    person_name: PersonName,
    cs: Seq<ReflectionChange>,
    i: int,
    motivation_uuid: MotivationUuid,
    res: ChangesStep,
) -> bool {
    &&& working_on(res.0, person_uuid, person_name, cs, i, ChangeStage::Logging)
    &&& match res.1 {
        Next::Call(WorkerCall::LogEvent { event_name, data }) => event_name@ == "reflection_change"@ && data@
            == change_log_data(person_uuid, cs[i], motivation_uuid),
        _ => false,
    }
}

proof fn lemma_first_effective_bounds(cs: Seq<ReflectionChange>, i: int)
    requires
        0 <= i <= cs.len(),
    ensures
        i <= first_effective(cs, i) <= cs.len(),
        first_effective(cs, i) < cs.len() ==> !is_blank_summary(cs[first_effective(cs, i)]),
    decreases cs.len() - i,
{
    if i < cs.len() && is_blank_summary(cs[i]) {
        lemma_first_effective_bounds(cs, i + 1);
    }
}

fn is_blank(c: &ReflectionChange) -> (res: bool)
    ensures
        res == is_blank_summary(*c),
{
    match c {
        ReflectionChange::MemorySummary { summary } => {
            let t = trim_text(summary.as_str());
            t.as_str().unicode_len() == 0
        },
        _ => false,
    }
}

fn continue_changes(person_uuid: PersonUuid, person_name: PersonName, changes: Vec<ReflectionChange>, start: usize) -> (res: ChangesStep)
    requires
        start <= changes.len(),
    ensures
        changes_from(person_uuid, person_name, changes@, start as int, res),
{
    let mut i: usize = start;
    while i < changes.len() && is_blank(&changes[i])
        invariant
            start <= i <= changes.len(),
            first_effective(changes@, start as int) == first_effective(changes@, i as int),
        decreases changes.len() - i,
    {
        i = i + 1;
    }
    proof {
        lemma_first_effective_bounds(changes@, i as int);
    }
    if i >= changes.len() {
        return (ApplyChanges::Finished, Next::Done(Ok(())));
    }
    let call = match &changes[i] {
        ReflectionChange::StateOfMind { content } => WorkerCall::CreateStateOfMind {
            new_state_of_mind: NewStateOfMind {
                uuid: StateOfMindUuid::new(),
                person_name: person_name.copy(),
                state_of_mind: content.clone(),
            },
        },
        ReflectionChange::MemorySummary { summary } => WorkerCall::CreateMemory {
            new_memory: NewMemory { memory_uuid: MemoryUuid::new(), content: summary.clone(), person_uuid },
        },
        ReflectionChange::NewMotivation { content, priority } => {
            if *priority < -2147483648i64 || *priority > 2147483647i64 {
                return (
                    ApplyChanges::Finished,
                    Next::Done(
                        Err(Error::FailedToCreateReflectionMotivation(String::from_str("Motivation priority must fit in i32"))),
                    ),
                );
            }
            WorkerCall::CreateMotivation {
                new_motivation: NewMotivation { person_uuid, content: content.clone(), priority: *priority as i32 },
            }
        },
        ReflectionChange::DeleteMotivation { motivation_uuid } => WorkerCall::DeleteMotivation { motivation_uuid: *motivation_uuid },
    };
    (ApplyChanges::Working { person_uuid, person_name, changes, current: i, stage: ChangeStage::Creating }, Next::Call(call))
}

impl ApplyChanges {
    /// Starts carrying out the changes of `person_uuid`, named `person_name`.
    pub fn begin(person_uuid: PersonUuid, person_name: PersonName, changes: Vec<ReflectionChange>) -> (res: ChangesStep)
        ensures
            changes_from(person_uuid, person_name, changes@, 0, res),
    {
        continue_changes(person_uuid, person_name, changes, 0)
    }

    /// The reply each stage waits for.
    pub open spec fn awaits(self, reply: Reply) -> bool {
        match self {
            ApplyChanges::Working { changes, current, stage, .. } => current < changes.len() && match stage {
                ChangeStage::Logging => reply is Unit,
                ChangeStage::Creating => match changes@[current as int] {
                    ReflectionChange::StateOfMind { .. } => reply is StateOfMindId,
                    ReflectionChange::MemorySummary { .. } => reply is MemoryId,
                    ReflectionChange::NewMotivation { .. } => reply is MotivationId,
                    ReflectionChange::DeleteMotivation { .. } => reply is Unit,
                },
            },
            ApplyChanges::Finished => false,
        }
    }

    /// One step of carrying out the changes: a change made is logged; the
    /// outcome of logging is not looked at, and the next change follows.
    pub open spec fn step(self, reply: Reply, res: ChangesStep) -> bool {
        match self {
            ApplyChanges::Working { person_uuid, person_name, changes, current, stage } => match stage {
                ChangeStage::Logging => changes_from(person_uuid, person_name, changes@, current + 1, res),
                ChangeStage::Creating => match (changes@[current as int], reply) {
                    (ReflectionChange::StateOfMind { .. }, Reply::StateOfMindId(r)) => match r {
                        Err(e) => res.1 == Next::<Result<(), Error>>::Done(Err(Error::FailedToCreateReflectionStateOfMind(e))),
                        Ok(_) => exists|m: MotivationUuid|
                            #[trigger] logs_change(person_uuid, person_name, changes@, current as int, m, res),
                    },
                    (ReflectionChange::MemorySummary { .. }, Reply::MemoryId(r)) => match r {
                        Err(e) => res.1 == Next::<Result<(), Error>>::Done(Err(Error::FailedToCreateReflectionMemory(e))),
                        Ok(_) => exists|m: MotivationUuid|
                            #[trigger] logs_change(person_uuid, person_name, changes@, current as int, m, res),
                    },
                    (ReflectionChange::NewMotivation { .. }, Reply::MotivationId(r)) => match r {
                        Err(e) => res.1 == Next::<Result<(), Error>>::Done(Err(Error::FailedToCreateReflectionMotivation(e))),
                        Ok(m) => logs_change(person_uuid, person_name, changes@, current as int, m, res),
                    },
                    (ReflectionChange::DeleteMotivation { .. }, Reply::Unit(r)) => match r {
                        Err(e) => res.1 == Next::<Result<(), Error>>::Done(Err(Error::FailedToDeleteReflectionMotivation(e))),
                        Ok(()) => exists|m: MotivationUuid|
                            #[trigger] logs_change(person_uuid, person_name, changes@, current as int, m, res),
                    },
                    _ => false,
                },
            },
            ApplyChanges::Finished => false,
        }
    }

    /// Goes on with the reply.
    pub fn resume(self, reply: Reply) -> (res: ChangesStep)
        requires
            self.awaits(reply),
        ensures
            self.step(reply, res),
    {
        match self {
            ApplyChanges::Working { person_uuid, person_name, changes, current, stage } => match stage {
                ChangeStage::Logging => continue_changes(person_uuid, person_name, changes, current + 1),
                ChangeStage::Creating => {
                    let created: Result<MotivationUuid, Error> = match reply {
                        Reply::StateOfMindId(Err(e)) => Err(Error::FailedToCreateReflectionStateOfMind(e)),
                        Reply::MemoryId(Err(e)) => Err(Error::FailedToCreateReflectionMemory(e)),
                        Reply::MotivationId(Err(e)) => Err(Error::FailedToCreateReflectionMotivation(e)),
                        Reply::Unit(Err(e)) => Err(Error::FailedToDeleteReflectionMotivation(e)),
                        Reply::MotivationId(Ok(m)) => Ok(m),
                        _ => Ok(MotivationUuid(0)),
                    };
                    match created {
                        Err(e) => (ApplyChanges::Finished, Next::Done(Err(e))),
                        Ok(m) => {
                            let ghost cs = changes@;
                            let ghost name = person_name;
                            let data = change_log_value(person_uuid, &changes[current], m);
                            let res = (
                                ApplyChanges::Working { person_uuid, person_name, changes, current, stage: ChangeStage::Logging },
                                Next::Call(WorkerCall::LogEvent { event_name: String::from_str("reflection_change"), data }),
                            );
                            assert(logs_change(person_uuid, name, cs, current as int, m, res));
                            res
                        },
                    }
                },
            },
            ApplyChanges::Finished => (ApplyChanges::Finished, Next::Done(Ok(()))),
        }
    }
}

} // verus!

//! A task of a person and the outcomes that end it.
use crate::domain::person_task_uuid::PersonTaskUuid;
use crate::domain::person_uuid::PersonUuid;
use crate::text::{i64_text, join_seq, signed_decimal_text, str_eq};
use vstd::prelude::*;
use vstd::string::*;

verus! {

/// A task of a person; times are microseconds since the Unix epoch (UTC).
#[derive(Clone, Debug)]
pub struct PersonTask {
    pub uuid: PersonTaskUuid,
    pub person_uuid: PersonUuid,
    pub content: String,
    pub state: Option<String>,
    pub success_condition: Option<String>,
    pub abandon_condition: Option<String>,
    pub failure_condition: Option<String>,
    pub priority: i32,
    pub created_at: i64,
    pub completed_at: Option<i64>,
    pub abandoned_at: Option<i64>,
    pub failed_at: Option<i64>,
}

/// How a task ended.
#[derive(Clone, Copy, Debug, PartialEq, Eq, Structural)]
pub enum PersonTaskTerminalOutcome {
    Completed,
    Failed,
    Abandoned,
}

/// Whether a task goes on or has ended.
#[derive(Clone, Copy, Debug, PartialEq, Eq, Structural)]
pub enum PersonTaskOutcomeCheck {
    StillActive,
    Terminal(PersonTaskTerminalOutcome),
}

/// The name of an outcome in tool calls.
pub open spec fn outcome_name(o: PersonTaskTerminalOutcome) -> Seq<char> {
    match o {
        PersonTaskTerminalOutcome::Completed => "completed"@,
        PersonTaskTerminalOutcome::Failed => "failed"@,
        PersonTaskTerminalOutcome::Abandoned => "abandoned"@,
    }
}

/// All outcomes, in the order in which they are offered.
pub open spec fn all_outcomes() -> Seq<PersonTaskTerminalOutcome> {
    seq![
        PersonTaskTerminalOutcome::Completed,
        PersonTaskTerminalOutcome::Failed,
        PersonTaskTerminalOutcome::Abandoned,
    ]
}

/// The names of all outcomes, in order.
pub open spec fn all_outcome_names() -> Seq<Seq<char>> {
    seq!["completed"@, "failed"@, "abandoned"@]
}

/// The error for a value that names no outcome.
pub open spec fn unrecognized_outcome_text(value: Seq<char>) -> Seq<char> {
    "Unrecognized person task terminal outcome: "@ + value + ". Must be one of: "@ + join_seq(
        all_outcome_names(),
        ", "@,
    )
}

/// The display form of a task.
pub open spec fn person_task_text(t: PersonTask) -> Seq<char> {
    "Task (priority "@ + signed_decimal_text(t.priority as int) + " / 100):\n"@ + t.content@
}

impl PersonTaskTerminalOutcome {
    /// The name of the outcome in tool calls.
    pub fn to_name(&self) -> (res: String)
        ensures
            res@ == outcome_name(*self),
    {
        match self {
            PersonTaskTerminalOutcome::Completed => String::from_str("completed"),
            PersonTaskTerminalOutcome::Failed => String::from_str("failed"),
            PersonTaskTerminalOutcome::Abandoned => String::from_str("abandoned"),
        }
    }

    /// All outcomes, in order.
    pub fn all() -> (res: Vec<PersonTaskTerminalOutcome>)
        ensures
            res@ == all_outcomes(),
    {
        let res = vec![
            PersonTaskTerminalOutcome::Completed,
            PersonTaskTerminalOutcome::Failed,
            PersonTaskTerminalOutcome::Abandoned,
        ];
        proof {
            assert(res@ =~= all_outcomes());
        }
        res
    }

    /// The names of all outcomes, in order.
    pub fn all_names() -> (res: Vec<String>)
        ensures
            res@.map_values(|s: String| s@) == all_outcome_names(),
    {
        let all = Self::all();
        let mut res: Vec<String> = Vec::new();
        let mut i: usize = 0;
        while i < all.len()
            invariant
                all@ == all_outcomes(),
                i <= all.len(),
                res@.len() == i,
                forall|j: int| 0 <= j < i ==> res@[j]@ == #[trigger] all_outcome_names()[j],
            decreases all.len() - i,
        {
            let name = all[i].to_name();
            res.push(name);
            i = i + 1;
        }
        proof {
            assert(res@.map_values(|s: String| s@) =~= all_outcome_names());
        }
        res
    }

    /// The outcome named `value`, or an error listing the valid names.
    pub fn from_tool_value(value: &str) -> (res: Result<Self, String>)
        ensures
            match res {
                Ok(o) => outcome_name(o) == value@,
                Err(e) => (forall|o: PersonTaskTerminalOutcome| outcome_name(o) != value@) && e@
                    == unrecognized_outcome_text(value@),
            },
    {
        let all = Self::all();
        let mut i: usize = 0;
        while i < all.len()
            invariant
                all@ == all_outcomes(),
                i <= all.len(),
                forall|j: int| 0 <= j < i ==> outcome_name(#[trigger] all_outcomes()[j]) != value@,
            decreases all.len() - i,
        {
            let name = all[i].to_name();
            if str_eq(name.as_str(), value) {
                return Ok(all[i]);
            }
            i = i + 1;
        }
        proof {
            assert forall|o: PersonTaskTerminalOutcome| outcome_name(o) != value@ by {
                match o {
                    PersonTaskTerminalOutcome::Completed => assert(all_outcomes()[0] == o),
                    PersonTaskTerminalOutcome::Failed => assert(all_outcomes()[1] == o),
                    PersonTaskTerminalOutcome::Abandoned => assert(all_outcomes()[2] == o),
                }
            }
        }
        let mut s = String::from_str("Unrecognized person task terminal outcome: ");
        s.append(value);
        s.append(". Must be one of: ");
        let names = Self::all_names();
        let joined = crate::text::join_texts(&names, ", ");
        s.append(joined.as_str());
        Err(s)
    }
}

impl PersonTask {
    /// `Task (priority <n> / 100):` and the content on the next line.
    pub fn to_string(&self) -> (res: String)
        ensures
            res@ == person_task_text(*self),
    {
        let mut s = String::from_str("Task (priority ");
        let p = i64_text(self.priority as i64);
        s.append(p.as_str());
        s.append(" / 100):\n");
        s.append(self.content.as_str());
        s
    }
}

} // verus!

//! A goal of a person.
use crate::domain::goal_uuid::GoalUuid;
use crate::domain::person_uuid::PersonUuid;
use vstd::prelude::*;

verus! {

/// A goal of a person; times are microseconds since the Unix epoch (UTC).
#[derive(Clone, Debug)]
pub struct Goal {
    pub uuid: GoalUuid,
    pub person_uuid: PersonUuid,
    pub content: String,
    pub priority: i32,
    pub created_at: i64,
    pub ended_at: Option<i64>,
    pub deleted_at: Option<i64>,
}

} // verus!

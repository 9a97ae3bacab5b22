//! Identifies a job: a stored job has a UUID, a job made in a test a number.
use crate::ident::{fresh_v7_uuid, is_v7_uuid, uuid_string, uuid_text};
use crate::text::{decimal_text, u64_text};
use vstd::prelude::*;
use vstd::string::*;

verus! {

/// Identifies a job.
#[derive(Debug, Clone, Copy, PartialEq, Eq, Structural, Hash)]
pub enum JobUuid {
    Real(u128),
    Test(u64),
}

/// The display form of a job identifier.
pub open spec fn job_uuid_text(j: JobUuid) -> Seq<char> {
    match j {
        JobUuid::Real(u) => uuid_text(u),
        JobUuid::Test(id) => decimal_text(id as nat),
    }
}

impl JobUuid {
    /// A fresh stored-job identifier.
    pub fn new() -> (res: Self)
        ensures
            res matches JobUuid::Real(u) && is_v7_uuid(u),
    {
        JobUuid::Real(fresh_v7_uuid())
    }

    /// The UUID of a stored job; a test identifier has none.
    pub fn to_uuid(&self) -> (res: Result<u128, String>)
        ensures
            match *self {
                JobUuid::Real(u) => res == Ok::<u128, String>(u),
                JobUuid::Test(id) => res is Err && res->Err_0@ == "Cannot turn test id "@
                    + decimal_text(id as nat) + " into a uuid"@,
            },
    {
        match self {
            JobUuid::Real(uuid) => Ok(*uuid),
            JobUuid::Test(test_id) => {
                let mut s = String::from_str("Cannot turn test id ");
                let n = u64_text(*test_id);
                s.append(n.as_str());
                s.append(" into a uuid");
                Err(s)
            },
        }
    }

    /// The stored-job identifier with the given UUID.
    pub fn from_uuid(uuid: u128) -> (res: Self)
        ensures
            res == JobUuid::Real(uuid),
    {
        JobUuid::Real(uuid)
    }

    /// The identifier of a job made in a test.
    pub fn test_id(id: u64) -> (res: Self)
        ensures
            res == JobUuid::Test(id),
    {
        JobUuid::Test(id)
    }

    /// The display form: the UUID, or the test number in decimal.
    pub fn to_string(&self) -> (res: String)
        ensures
            res@ == job_uuid_text(*self),
    {
        match self {
            JobUuid::Real(uuid) => uuid_string(*uuid),
            JobUuid::Test(id) => u64_text(*id),
        }
    }
}

} // verus!

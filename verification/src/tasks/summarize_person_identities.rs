//! Summarizing each person's latest identity.
use crate::nice_display::NiceDisplay;
use vstd::prelude::*;
use vstd::string::*;

verus! {

/// Why summarizing identities failed; each holds the text of the underlying
/// failure.
#[derive(Debug)]
pub enum Error {
    WorkerInit(String),
    FetchPeople(String),
    Completion(String),
    UpdateSummary(String),
    DeleteNullSummaries(String),
}

/// The explanation of an error.
pub open spec fn identities_error_text(e: Error) -> Seq<char> {
    match e {
        Error::WorkerInit(d) => "Worker initialization failed: "@ + d@,
        Error::FetchPeople(d) => "Failed to fetch people/identities: "@ + d@,
        Error::Completion(d) => "Failed to summarize identity with LLM: "@ + d@,
        Error::UpdateSummary(d) => "Failed to update identity summary: "@ + d@,
        Error::DeleteNullSummaries(d) => "Failed deleting identities with null summary: "@ + d@,
    }
}

fn prefixed(prefix: &str, d: &String) -> (res: String)
    ensures
        res@ == prefix@ + d@,
{
    let mut s = String::from_str(prefix);
    s.append(d.as_str());
    s
}

impl Error {
    /// The explanation of the error.
    pub fn explain(&self) -> (res: String)
        ensures
            res@ == identities_error_text(*self),
    {
        match self {
            Error::WorkerInit(d) => prefixed("Worker initialization failed: ", d),
            Error::FetchPeople(d) => prefixed("Failed to fetch people/identities: ", d),
            Error::Completion(d) => prefixed("Failed to summarize identity with LLM: ", d),
            Error::UpdateSummary(d) => prefixed("Failed to update identity summary: ", d),
            Error::DeleteNullSummaries(d) => prefixed("Failed deleting identities with null summary: ", d),
        }
    }
}

impl NiceDisplay for Error {
    open spec fn message_spec(&self) -> Seq<char> {
        identities_error_text(*self)
    }

    fn message(&self) -> (res: String) {
        let r = self.explain();
        assert(self.message_spec() == identities_error_text(*self));
        r
    }
}

/// The identity to summarize for a person: present only where both the
/// identity's record and its text exist.
pub fn identity_to_summarize<T>(identity_uuid: Option<T>, identity: Option<String>) -> (res: Option<(T, String)>)
    ensures
        match (identity_uuid, identity) {
            (Some(u), Some(t)) => res == Some((u, t)),
            _ => res is None,
        },
{
    match (identity_uuid, identity) {
        (Some(u), Some(t)) => Some((u, t)),
        _ => None,
    }
}

} // verus!

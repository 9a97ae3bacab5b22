//! A person sleeping without interruption until an amount of active time has
//! passed.
use crate::clock::utc_now_micros;
use crate::domain::person_uuid::PersonUuid;
use crate::nice_display::NiceDisplay;
use crate::num::{clamp_i64, max_i64, max_of_i64, saturating_add_i64, saturating_sub_i64};
use vstd::prelude::*;
use vstd::string::*;

verus! {

/// A person sleeping; `started_at` is in microseconds since the Unix epoch,
/// the other times in milliseconds of active time.
#[derive(Debug, Clone, Copy, PartialEq, Eq, Structural)]
pub struct PersonHibernatingJob {
    pub person_uuid: PersonUuid,
    pub started_at: i64,
    pub duration_ms: i64,
    pub start_active_ms: i64,
}

/// Why a hibernation job failed.
#[derive(Debug)]
pub enum Error {
    FailedToGetHibernationState(String),
    FailedToSetHibernationState(String),
}

/// Whether the person is awake again.
#[derive(Debug, Clone, Copy, PartialEq, Eq, Structural)]
pub enum HibernateOutcome {
    Ready,
    NotReady,
}

/// What a hibernation job does after reading whether the person sleeps.
#[derive(Debug)]
pub enum HibernateStep {
    Finished(Result<HibernateOutcome, Error>),
    WakeUp,
}

/// The explanation of a hibernation error.
pub open spec fn hibernating_error_text(e: Error) -> Seq<char> {
    match e {
        Error::FailedToGetHibernationState(err) => "Failed to get hibernation state: "@ + err@,
        Error::FailedToSetHibernationState(err) => "Failed to set hibernation state: "@ + err@,
    }
}

impl Error {
    /// The explanation of the error.
    pub fn explain(&self) -> (res: String)
        ensures
            res@ == hibernating_error_text(*self),
    {
        match self {
            Error::FailedToGetHibernationState(err) => {
                let mut s = String::from_str("Failed to get hibernation state: ");
                s.append(err.as_str());
                s
            },
            Error::FailedToSetHibernationState(err) => {
                let mut s = String::from_str("Failed to set hibernation state: ");
                s.append(err.as_str());
                s
            },
        }
    }
}

impl NiceDisplay for Error {
    open spec fn message_spec(&self) -> Seq<char> {
        hibernating_error_text(*self)
    }

    fn message(&self) -> (res: String) {
        let r = self.explain();
        assert(self.message_spec() == hibernating_error_text(*self));
        r
    }
}

/// The active time at which the person may wake.
pub open spec fn hibernation_run_at(j: PersonHibernatingJob) -> i64 {
    clamp_i64(j.start_active_ms + max_i64(j.duration_ms, 0))
}

impl PersonHibernatingJob {
    /// A hibernation starting now at the given active time; negative numbers
    /// count as zero.
    pub fn new(person_uuid: PersonUuid, duration_ms: i64, start_active_ms: i64) -> (res: Self)
        ensures
            res.person_uuid == person_uuid,
            res.duration_ms == max_i64(duration_ms, 0),
            res.start_active_ms == max_i64(start_active_ms, 0),
    {
        PersonHibernatingJob {
            person_uuid,
            started_at: utc_now_micros(),
            duration_ms: max_of_i64(duration_ms, 0),
            start_active_ms: max_of_i64(start_active_ms, 0),
        }
    }

    /// The active time at which the person may wake.
    pub fn run_at_active_ms(&self) -> (res: i64)
        ensures
            res == hibernation_run_at(*self),
    {
        saturating_add_i64(self.start_active_ms, max_of_i64(self.duration_ms, 0))
    }

    /// Decides on the person's hibernation state: a read error fails the job,
    /// a person who is awake is ready, one whose time has not yet passed is not
    /// ready, and otherwise the person is to be woken.
    pub fn after_hibernation_check(&self, current_active_ms: i64, is_hibernating: Result<bool, String>) -> (res: HibernateStep)
        ensures
            match is_hibernating {
                Err(e) => res matches HibernateStep::Finished(Err(Error::FailedToGetHibernationState(m))) && m@ == e@,
                Ok(false) => res matches HibernateStep::Finished(Ok(HibernateOutcome::Ready)),
                Ok(true) => if clamp_i64(current_active_ms - self.start_active_ms) < self.duration_ms {
                    res matches HibernateStep::Finished(Ok(HibernateOutcome::NotReady))
                } else {
                    res matches HibernateStep::WakeUp
                },
            },
    {
        match is_hibernating {
            Err(e) => HibernateStep::Finished(Err(Error::FailedToGetHibernationState(e))),
            Ok(false) => HibernateStep::Finished(Ok(HibernateOutcome::Ready)),
            Ok(true) => {
                let elapsed = saturating_sub_i64(current_active_ms, self.start_active_ms);
                if elapsed < self.duration_ms {
                    HibernateStep::Finished(Ok(HibernateOutcome::NotReady))
                } else {
                    HibernateStep::WakeUp
                }
            },
        }
    }

    /// The outcome once the person has been marked awake.
    pub fn after_wake_up(result: Result<(), String>) -> (res: Result<HibernateOutcome, Error>)
        ensures
            match result {
                Ok(()) => res matches Ok(HibernateOutcome::Ready),
                Err(e) => res matches Err(Error::FailedToSetHibernationState(m)) && m@ == e@,
            },
    {
        match result {
            Ok(()) => Ok(HibernateOutcome::Ready),
            Err(e) => Err(Error::FailedToSetHibernationState(e)),
        }
    }
}

} // verus!

//! Jobs: what they are called, how stored jobs are read back, and their status.
pub mod effects;
pub mod person_action_handler;
pub mod person_hibernating;
pub mod person_waiting;
pub mod process_message;
pub mod process_person_join;
pub mod process_reaction_common;
pub mod send_message_to_scene;
pub mod task_transition;

use super::job_uuid::{job_uuid_text, JobUuid};
use crate::clock::{format_utc_datetime, representable_micros, utc_datetime_text};
use crate::domain::job::person_hibernating::PersonHibernatingJob;
use crate::domain::job::person_waiting::PersonWaitingJob;
use crate::domain::job::process_message::ProcessMessageJob;
use crate::domain::job::process_person_join::ProcessPersonJoinJob;
use crate::domain::job::send_message_to_scene::SendMessageToSceneJob;
use crate::nice_display::NiceDisplay;
use crate::text::str_eq;
use vstd::prelude::*;
use vstd::string::*;

verus! {

/// A stored job; times are microseconds since the Unix epoch (UTC).
#[derive(Debug)]
pub struct Job {
    pub uuid: JobUuid,
    pub kind: JobKind,
    pub started_at: Option<i64>,
    pub finished_at: Option<i64>,
    pub error: Option<String>,
    pub deleted_at: Option<i64>,
}

/// A job taken from the queue to be run.
#[derive(Debug)]
pub struct PoppedJob {
    pub uuid: JobUuid,
    pub kind: JobKind,
}

/// Where a stored job stands.
#[derive(Debug, Clone, Copy, PartialEq, Eq, Structural)]
pub enum JobStatus {
    Finished,
    Failed,
    InProgress,
    NotStarted,
}

/// What a job does.
#[derive(Debug)]
pub enum JobKind {
    Ping,
    SendMessageToScene(SendMessageToSceneJob),
    ProcessMessage(ProcessMessageJob),
    ProcessPersonJoin(ProcessPersonJoinJob),
    PersonWaiting(PersonWaitingJob),
    PersonHibernating(PersonHibernatingJob),
}

/// The stored data of a job, decoded by the application into each job type
/// that can carry data: each entry holds the decoded job, or the text of the
/// decoder's error for that type.
pub struct JobData {
    pub as_send_message_to_scene: Result<SendMessageToSceneJob, String>,
    pub as_process_message: Result<ProcessMessageJob, String>,
    pub as_process_person_join: Result<ProcessPersonJoinJob, String>,
    pub as_person_waiting: Result<PersonWaitingJob, String>,
    pub as_person_hibernating: Result<PersonHibernatingJob, String>,
}

/// Why a stored job could not be read.
#[derive(Debug)]
pub enum ParseError {
    UnknownJobName(String),
    NoJobDataForJobThatReuiresIt { job_name: String },
    FailedToParseJobData { job_name: String, details: String },
}

/// The explanation of a parse error.
pub open spec fn parse_error_text(e: ParseError) -> Seq<char> {
    match e {
        ParseError::UnknownJobName(name) => "Unknown job name: "@ + name@,
        ParseError::NoJobDataForJobThatReuiresIt { job_name } => "No job data provided for a \""@
            + job_name@ + "\" job that requires it"@,
        ParseError::FailedToParseJobData { job_name, details } =>
            "Failed to parse job data for a \""@ + job_name@ + "\" job\n\n"@ + details@,
    }
}

impl ParseError {
    /// The explanation of the error.
    pub fn explain(&self) -> (res: String)
        ensures
            res@ == parse_error_text(*self),
    {
        match self {
            ParseError::UnknownJobName(name) => {
                let mut s = String::from_str("Unknown job name: ");
                s.append(name.as_str());
                s
            },
            ParseError::NoJobDataForJobThatReuiresIt { job_name } => {
                let mut s = String::from_str("No job data provided for a \"");
                s.append(job_name.as_str());
                s.append("\" job that requires it");
                s
            },
            ParseError::FailedToParseJobData { job_name, details } => {
                let mut s = String::from_str("Failed to parse job data for a \"");
                s.append(job_name.as_str());
                s.append("\" job\n\n");
                s.append(details.as_str());
                s
            },
        }
    }
}

impl NiceDisplay for ParseError {
    open spec fn message_spec(&self) -> Seq<char> {
        parse_error_text(*self)
    }

    fn message(&self) -> (res: String) {
        let r = self.explain();
        assert(self.message_spec() == parse_error_text(*self));
        r
    }
}

/// The stored name of a job kind.
pub open spec fn job_kind_name(k: JobKind) -> Seq<char> {
    match k {
        JobKind::Ping => "ping"@,
        JobKind::SendMessageToScene(_) => "send message to scene"@,
        JobKind::ProcessMessage(_) => "process message"@,
        JobKind::ProcessPersonJoin(_) => "process person join"@,
        JobKind::PersonWaiting(_) => "person waiting"@,
        JobKind::PersonHibernating(_) => "person hibernating"@,
    }
}

/// What reading a stored job of the given name and data gives: `ping` needs
/// no data; every other known name needs data that decodes to its type.
pub open spec fn parse_job_kind(name: Seq<char>, data: Option<JobData>) -> Result<JobKind, ParseErrorV> {
    if name == "ping"@ {
        Ok(JobKind::Ping)
    } else if name == "send message to scene"@ || name == "process message"@ || name
        == "process person join"@ || name == "person waiting"@ || name == "person hibernating"@ {
        match data {
            None => Err(
                ParseErrorV::NoJobDataForJobThatReuiresIt { job_name: name },
            ),
            Some(d) => if name == "send message to scene"@ {
                match d.as_send_message_to_scene {
                    Ok(j) => Ok(JobKind::SendMessageToScene(j)),
                    Err(e) => Err(
                        ParseErrorV::FailedToParseJobData {
                            job_name: name,
                            details: e@,
                        },
                    ),
                }
            } else if name == "process message"@ {
                match d.as_process_message {
                    Ok(j) => Ok(JobKind::ProcessMessage(j)),
                    Err(e) => Err(
                        ParseErrorV::FailedToParseJobData {
                            job_name: name,
                            details: e@,
                        },
                    ),
                }
            } else if name == "process person join"@ {
                match d.as_process_person_join {
                    Ok(j) => Ok(JobKind::ProcessPersonJoin(j)),
                    Err(e) => Err(
                        ParseErrorV::FailedToParseJobData {
                            job_name: name,
                            details: e@,
                        },
                    ),
                }
            } else if name == "person waiting"@ {
                match d.as_person_waiting {
                    Ok(j) => Ok(JobKind::PersonWaiting(j)),
                    Err(e) => Err(
                        ParseErrorV::FailedToParseJobData {
                            job_name: name,
                            details: e@,
                        },
                    ),
                }
            } else {
                match d.as_person_hibernating {
                    Ok(j) => Ok(JobKind::PersonHibernating(j)),
                    Err(e) => Err(
                        ParseErrorV::FailedToParseJobData {
                            job_name: name,
                            details: e@,
                        },
                    ),
                }
            }
        }
    } else {
        Err(ParseErrorV::UnknownJobName(name))
    }
}

/// The spec form of a parse error.
pub enum ParseErrorV {
    UnknownJobName(Seq<char>),
    NoJobDataForJobThatReuiresIt { job_name: Seq<char> },
    FailedToParseJobData { job_name: Seq<char>, details: Seq<char> },
}

impl View for ParseError {
    type V = ParseErrorV;

    open spec fn view(&self) -> ParseErrorV {
        match self {
            ParseError::UnknownJobName(n) => ParseErrorV::UnknownJobName(n@),
            ParseError::NoJobDataForJobThatReuiresIt { job_name } =>
                ParseErrorV::NoJobDataForJobThatReuiresIt { job_name: job_name@ },
            ParseError::FailedToParseJobData { job_name, details } =>
                ParseErrorV::FailedToParseJobData { job_name: job_name@, details: details@ },
        }
    }
}

/// The spec form of a parse result.
pub open spec fn parse_result_view(r: Result<JobKind, ParseError>) -> Result<JobKind, ParseErrorV> {
    match r {
        Ok(k) => Ok(k),
        Err(e) => Err(e@),
    }
}

/// The status of a stored job: a finish time means finished, else an error
/// means failed, else a start time means in progress.
pub open spec fn job_status(j: Job) -> JobStatus {
    if j.finished_at is Some {
        JobStatus::Finished
    } else if j.error is Some {
        JobStatus::Failed
    } else if j.started_at is Some {
        JobStatus::InProgress
    } else {
        JobStatus::NotStarted
    }
}

/// The status label of a stored job.
pub open spec fn job_status_label(j: Job) -> Seq<char> {
    match job_status(j) {
        JobStatus::Finished => match j.finished_at {
            Some(t) => "finished at "@ + utc_datetime_text(t),
            None => "finished"@,
        },
        JobStatus::Failed => "failed"@,
        JobStatus::InProgress => "not finished"@,
        JobStatus::NotStarted => "not started"@,
    }
}

/// Whether the times of a job can be written as dates.
pub open spec fn job_times_representable(j: Job) -> bool {
    j.finished_at matches Some(t) ==> representable_micros(t)
}

impl JobKind {
    /// The stored name of the job kind.
    pub fn to_name(&self) -> (res: String)
        ensures
            res@ == job_kind_name(*self),
    {
        match self {
            JobKind::Ping => String::from_str("ping"),
            JobKind::SendMessageToScene(_) => String::from_str("send message to scene"),
            JobKind::ProcessMessage(_) => String::from_str("process message"),
            JobKind::ProcessPersonJoin(_) => String::from_str("process person join"),
            JobKind::PersonWaiting(_) => String::from_str("person waiting"),
            JobKind::PersonHibernating(_) => String::from_str("person hibernating"),
        }
    }

    /// Reads a job kind from its stored name and data.
    pub fn parse(name: String, maybe_data: Option<JobData>) -> (res: Result<JobKind, ParseError>)
        ensures
            parse_result_view(res) == parse_job_kind(name@, maybe_data),
    {
        let n = name.as_str();
        if str_eq(n, "ping") {
            return Ok(JobKind::Ping);
        }
        let known = str_eq(n, "send message to scene") || str_eq(n, "process message") || str_eq(
            n,
            "process person join",
        ) || str_eq(n, "person waiting") || str_eq(n, "person hibernating");
        if !known {
            return Err(ParseError::UnknownJobName(name));
        }
        let data = match maybe_data {
            None => {
                return Err(ParseError::NoJobDataForJobThatReuiresIt { job_name: name });
            },
            Some(d) => d,
        };
        if str_eq(n, "send message to scene") {
            match data.as_send_message_to_scene {
                Ok(j) => Ok(JobKind::SendMessageToScene(j)),
                Err(e) => Err(ParseError::FailedToParseJobData { job_name: name, details: e }),
            }
        } else if str_eq(n, "process message") {
            match data.as_process_message {
                Ok(j) => Ok(JobKind::ProcessMessage(j)),
                Err(e) => Err(ParseError::FailedToParseJobData { job_name: name, details: e }),
            }
        } else if str_eq(n, "process person join") {
            match data.as_process_person_join {
                Ok(j) => Ok(JobKind::ProcessPersonJoin(j)),
                Err(e) => Err(ParseError::FailedToParseJobData { job_name: name, details: e }),
            }
        } else if str_eq(n, "person waiting") {
            match data.as_person_waiting {
                Ok(j) => Ok(JobKind::PersonWaiting(j)),
                Err(e) => Err(ParseError::FailedToParseJobData { job_name: name, details: e }),
            }
        } else {
            match data.as_person_hibernating {
                Ok(j) => Ok(JobKind::PersonHibernating(j)),
                Err(e) => Err(ParseError::FailedToParseJobData { job_name: name, details: e }),
            }
        }
    }
}

impl Job {
    /// Where the job stands.
    pub fn status(&self) -> (res: JobStatus)
        ensures
            res == job_status(*self),
    {
        if self.finished_at.is_some() {
            JobStatus::Finished
        } else if self.error.is_some() {
            JobStatus::Failed
        } else if self.started_at.is_some() {
            JobStatus::InProgress
        } else {
            JobStatus::NotStarted
        }
    }

    /// `finished at <date>`, `failed`, `not finished` or `not started`.
    pub fn status_label(&self) -> (res: String)
        requires
            job_times_representable(*self),
        ensures
            res@ == job_status_label(*self),
    {
        match self.status() {
            JobStatus::Finished => match self.finished_at {
                Some(finished_at) => {
                    let mut s = String::from_str("finished at ");
                    let date = format_utc_datetime(finished_at);
                    s.append(date.as_str());
                    s
                },
                None => String::from_str("finished"),
            },
            JobStatus::Failed => String::from_str("failed"),
            JobStatus::InProgress => String::from_str("not finished"),
            JobStatus::NotStarted => String::from_str("not started"),
        }
    }

    /// The stored name of the job's kind.
    pub fn kind_label(&self) -> (res: String)
        ensures
            res@ == job_kind_name(self.kind),
    {
        self.kind.to_name()
    }

    /// Reads a stored job.
    pub fn parse(
        uuid: JobUuid,
        started_at: Option<i64>,
        finished_at: Option<i64>,
        error: Option<String>,
        deleted_at: Option<i64>,
        name: String,
        maybe_data: Option<JobData>,
    ) -> (res: Result<Job, ParseError>)
        ensures
            match res {
                Ok(j) => j.uuid == uuid && j.started_at == started_at && j.finished_at
                    == finished_at && j.error == error && j.deleted_at == deleted_at && Ok::<JobKind, ParseErrorV>(j.kind) == parse_job_kind(name@, maybe_data),
                Err(e) => Err::<JobKind, ParseErrorV>(e@) == parse_job_kind(name@, maybe_data),
            },
    {
        let kind = match JobKind::parse(name, maybe_data) {
            Ok(k) => k,
            Err(e) => {
                return Err(e);
            },
        };
        Ok(Job { uuid, kind, started_at, finished_at, error, deleted_at })
    }

    /// `<kind>, uuid: <uuid>, <status>`.
    pub fn to_info_string(&self) -> (res: String)
        requires
            job_times_representable(*self),
        ensures
            res@ == job_kind_name(self.kind) + ", uuid: "@ + job_uuid_text(self.uuid) + ", "@
                + job_status_label(*self),
    {
        let mut s = self.kind.to_name();
        s.append(", uuid: ");
        let u = self.uuid.to_string();
        s.append(u.as_str());
        s.append(", ");
        let l = self.status_label();
        s.append(l.as_str());
        s
    }

    /// The identifier of the job.
    pub fn uuid(&self) -> (res: &JobUuid)
        ensures
            *res == self.uuid,
    {
        &self.uuid
    }

    /// When the job finished.
    pub fn finished_at(&self) -> (res: Option<i64>)
        ensures
            res == self.finished_at,
    {
        self.finished_at
    }

    /// When the job started.
    pub fn started_at(&self) -> (res: Option<i64>)
        ensures
            res == self.started_at,
    {
        self.started_at
    }

    /// The error the job failed with.
    pub fn error(&self) -> (res: Option<&String>)
        ensures
            match self.error {
                Some(e) => res == Some(&e),
                None => res is None,
            },
    {
        self.error.as_ref()
    }

    /// When the job was deleted.
    pub fn deleted_at(&self) -> (res: Option<i64>)
        ensures
            res == self.deleted_at,
    {
        self.deleted_at
    }
}

impl PoppedJob {
    /// Reads a job taken from the queue.
    pub fn parse(uuid: JobUuid, name: String, maybe_data: Option<JobData>) -> (res: Result<PoppedJob, ParseError>)
        ensures
            match res {
                Ok(j) => j.uuid == uuid && Ok::<JobKind, ParseErrorV>(j.kind) == parse_job_kind(name@, maybe_data),
                Err(e) => Err::<JobKind, ParseErrorV>(e@) == parse_job_kind(name@, maybe_data),
            },
    {
        let kind = match JobKind::parse(name, maybe_data) {
            Ok(k) => k,
            Err(e) => {
                return Err(e);
            },
        };
        Ok(PoppedJob { uuid, kind })
    }
}

} // verus!

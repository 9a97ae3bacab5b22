//! The program's commands and the log file each one writes to.
use vstd::prelude::*;
use vstd::string::*;

verus! {

/// What the program is asked to do.
#[derive(Debug, Clone)]
pub enum Cmd {
    Run,
    NewMigration { migration_name: String },
    RunMigrations,
    AdminUi,
    RunJobRunner,
}

/// The name a command's log file is made from.
pub open spec fn log_name(cmd: Cmd) -> Seq<char> {
    match cmd {
        Cmd::Run => "server"@,
        Cmd::NewMigration { .. } => "migrations"@,
        Cmd::RunMigrations => "migrations"@,
        Cmd::AdminUi => "admin-ui"@,
        Cmd::RunJobRunner => "job-runner"@,
    }
}

impl Cmd {
    /// The name the command's log file is made from.
    pub fn log_file_name(&self) -> (res: &'static str)
        ensures
            res@ == log_name(*self),
    {
        match self {
            Cmd::Run => "server",
            Cmd::NewMigration { .. } => "migrations",
            Cmd::RunMigrations => "migrations",
            Cmd::AdminUi => "admin-ui",
            Cmd::RunJobRunner => "job-runner",
        }
    }

    /// The command's log file: `arizona2-`, its name, and `.log`.
    pub fn log_file(&self) -> (res: String)
        ensures
            res@ == "arizona2-"@ + log_name(*self) + ".log"@,
    {
        let mut s = String::from_str("arizona2-");
        s.append(self.log_file_name());
        s.append(".log");
        s
    }
}

} // verus!

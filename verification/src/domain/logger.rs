//! Levels, destinations and the filtering and line format of the job log.
//! Writing a line to the console or to a file happens in the application.
use vstd::prelude::*;
use vstd::string::*;

verus! {

/// How serious a log message is.
#[derive(Debug, Clone, Copy, PartialEq, Eq, Structural)]
pub enum Level {
    Debug,
    Info,
    Warning,
    Error,
}

/// Where log lines go.
#[derive(Debug, Clone, Copy, PartialEq, Eq, Structural)]
pub enum LogTo {
    File,
    Console,
}

/// A logger: a least level and a destination.
#[derive(Debug, Clone, Copy, PartialEq, Eq, Structural)]
pub struct Logger {
    pub level: Level,
    pub log_to: LogTo,
}

/// The rank of a level, from `Debug` (0) to `Error` (3).
pub open spec fn level_priority(l: Level) -> u8 {
    match l {
        Level::Debug => 0,
        Level::Info => 1,
        Level::Warning => 2,
        Level::Error => 3,
    }
}

/// The upper-case name of a level.
pub open spec fn level_name(l: Level) -> Seq<char> {
    match l {
        Level::Debug => "DEBUG"@,
        Level::Info => "INFO"@,
        Level::Warning => "WARNING"@,
        Level::Error => "ERROR"@,
    }
}

/// The line written for a message: `[LEVEL] message` and a line break.
pub open spec fn log_line_text(l: Level, message: Seq<char>) -> Seq<char> {
    "["@ + level_name(l) + "] "@ + message + "\n"@
}

impl Level {
    /// The rank of the level.
    pub fn to_priority(&self) -> (res: u8)
        ensures
            res == level_priority(*self),
    {
        match self {
            Level::Debug => 0,
            Level::Info => 1,
            Level::Warning => 2,
            Level::Error => 3,
        }
    }

    /// The upper-case name of the level.
    pub fn to_string(&self) -> (res: String)
        ensures
            res@ == level_name(*self),
    {
        match self {
            Level::Debug => String::from_str("DEBUG"),
            Level::Info => String::from_str("INFO"),
            Level::Warning => String::from_str("WARNING"),
            Level::Error => String::from_str("ERROR"),
        }
    }
}

impl Logger {
    /// Whether a message of `level` passes the logger's least level.
    pub fn should_log(&self, level: &Level) -> (res: bool)
        ensures
            res == (level_priority(*level) >= level_priority(self.level)),
    {
        level.to_priority() >= self.level.to_priority()
    }

    /// A console logger with the given least level.
    pub fn init(level: Level) -> (res: Self)
        ensures
            res == (Logger { level, log_to: LogTo::Console }),
    {
        Logger { level, log_to: LogTo::Console }
    }

    /// The same logger, writing to the log file.
    pub fn log_to_file(self) -> (res: Self)
        ensures
            res == (Logger { level: self.level, log_to: LogTo::File }),
    {
        let mut s = self;
        s.log_to = LogTo::File;
        s
    }

    /// The line to write for `message` at `level`, or `None` where the level is
    /// below the logger's least level.
    pub fn log_line(&self, level: Level, message: &str) -> (res: Option<String>)
        ensures
            res is Some <==> level_priority(level) >= level_priority(self.level),
            res matches Some(line) ==> line@ == log_line_text(level, message@),
    {
        if self.should_log(&level) {
            let mut s = String::from_str("[");
            let name = level.to_string();
            s.append(name.as_str());
            s.append("] ");
            s.append(message);
            s.append("\n");
            Some(s)
        } else {
            None
        }
    }
}

} // verus!

use vstd::prelude::*;

verus! {

/// The settings of one trace.
#[derive(Debug, PartialEq, Eq)]
pub struct Config {
    pub log: LogConfig,
    pub record: RecordConfig,
    pub redirect: RedirectConfig,
}

/// How much the engine reports of its own work.
#[derive(Debug, PartialEq, Eq)]
pub struct LogConfig {
    pub level: LogLevel,
}

/// The least severity that is reported; warnings where none is set.
#[derive(Debug, Clone, Copy, PartialEq, Eq, Structural)]
pub enum LogLevel {
    DEBUG,
    INFO,
    WARNING,
    ERROR,
}

impl Default for LogLevel {
    fn default() -> (level: LogLevel)
        ensures
            level == LogLevel::WARNING,
    {
        LogLevel::WARNING
    }
}

/// What the engine replaces in the tracee's view of the system.
#[derive(Debug, PartialEq, Eq)]
pub struct RedirectConfig {
    /// Pairs of paths: an open of `from` opens `to` instead.
    pub files: Vec<Redirect>,
    /// Whether random bytes come from the seeded generator.
    pub random: bool,
    /// The wall-clock time to report, in seconds since the Unix epoch.
    pub time: Option<u64>,
    /// The process id to report.
    pub pid: Option<u32>,
    /// Where the tracee's standard output goes.
    pub stdout: Option<String>,
    /// Where the tracee's standard error goes.
    pub stderr: Option<String>,
}

/// Which kinds of event are recorded, and where.
#[derive(Debug, PartialEq, Eq)]
pub struct RecordConfig {
    pub files: bool,
    pub random: bool,
    pub time: bool,
    pub pid: bool,
    /// The output path; `-` is standard output.
    pub path: String,
}

/// An open of `from` opens `to` instead.
#[derive(Debug, PartialEq, Eq)]
pub struct Redirect {
    pub from: String,
    pub to: String,
}

impl Clone for Redirect {
    fn clone(&self) -> (copy: Redirect)
        ensures
            copy == *self,
    {
        Redirect { from: self.from.clone(), to: self.to.clone() }
    }
}

impl Clone for RecordConfig {
    fn clone(&self) -> (copy: RecordConfig)
        ensures
            copy == *self,
    {
        RecordConfig {
            files: self.files,
            random: self.random,
            time: self.time,
            pid: self.pid,
            path: self.path.clone(),
        }
    }
}

impl Config {
    /// Whether time queries must reach the kernel as system calls, so that
    /// the engine sees them: when they are recorded or replaced.
    pub open spec fn wants_time_syscalls(&self) -> bool {
        self.record.time || self.redirect.time is Some
    }

    /// Whether new tasks must lose sight of the vDSO.
    pub fn needs_time_syscalls(&self) -> (needed: bool)
        ensures
            needed == self.wants_time_syscalls(),
    {
        self.record.time || self.redirect.time.is_some()
    }
}

} // verus!

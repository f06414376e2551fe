use crate::config::RecordConfig;
use crate::syscall::Clock;
use vstd::prelude::*;
use vstd::std_specs::convert::FromSpecImpl;

verus! {

/// A point in time as the kernel reports it: whole seconds and the
/// nanoseconds within the second.
#[derive(Debug, Clone, Copy, PartialEq, Eq, Structural)]
pub struct Timestamp {
    pub seconds: u64,
    pub nanoseconds: u64,
}

/// An open of a file by the tracee.
#[derive(Debug, PartialEq, Eq)]
pub struct FileRecord {
    /// The path that the tracee asked for.
    pub path: String,
    pub success: bool,
    pub read: bool,
    pub write: bool,
}

/// A request for random bytes.
#[derive(Debug, Clone, Copy, PartialEq, Eq, Structural)]
pub struct RandomRecord {
    pub length: usize,
}

/// A time query, with the time that the kernel answered where it did.
#[derive(Debug, Clone, Copy, PartialEq, Eq, Structural)]
pub struct TimeRecord {
    pub clock: Clock,
    pub time: Option<Timestamp>,
}

/// An identity query, with the value that the kernel answered.
#[derive(Debug, Clone, Copy, PartialEq, Eq, Structural)]
pub struct PIDRecord {
    pub pid: u32,
}

/// One intercepted event.
#[derive(Debug, PartialEq, Eq)]
pub enum Record {
    File(FileRecord),
    Random(RandomRecord),
    Time(TimeRecord),
    PID(PIDRecord),
}

impl From<FileRecord> for Record {
    fn from(record: FileRecord) -> (wrapped: Record) {
        Record::File(record)
    }
}

impl FromSpecImpl<FileRecord> for Record {
    open spec fn obeys_from_spec() -> bool {
        true
    }

    open spec fn from_spec(record: FileRecord) -> Record {
        Record::File(record)
    }
}

impl From<RandomRecord> for Record {
    fn from(record: RandomRecord) -> (wrapped: Record) {
        Record::Random(record)
    }
}

impl FromSpecImpl<RandomRecord> for Record {
    open spec fn obeys_from_spec() -> bool {
        true
    }

    open spec fn from_spec(record: RandomRecord) -> Record {
        Record::Random(record)
    }
}

impl From<TimeRecord> for Record {
    fn from(record: TimeRecord) -> (wrapped: Record) {
        Record::Time(record)
    }
}

impl FromSpecImpl<TimeRecord> for Record {
    open spec fn obeys_from_spec() -> bool {
        true
    }

    open spec fn from_spec(record: TimeRecord) -> Record {
        Record::Time(record)
    }
}

impl From<PIDRecord> for Record {
    fn from(record: PIDRecord) -> (wrapped: Record) {
        Record::PID(record)
    }
}

impl FromSpecImpl<PIDRecord> for Record {
    open spec fn obeys_from_spec() -> bool {
        true
    }

    open spec fn from_spec(record: PIDRecord) -> Record {
        Record::PID(record)
    }
}

/// The filter in front of the record stream: it lets a record through when the
/// settings ask for records of its kind.
#[derive(Debug, PartialEq, Eq)]
pub struct Recorder {
    config: RecordConfig,
}

impl Recorder {
    /// The settings that the recorder was made with.
    pub closed spec fn config(&self) -> RecordConfig {
        self.config
    }

    /// Whether the settings ask for this record.
    pub open spec fn wanted(config: RecordConfig, record: Record) -> bool {
        match record {
            Record::File(_) => config.files,
            Record::Random(_) => config.random,
            Record::Time(_) => config.time,
            Record::PID(_) => config.pid,
        }
    }

    /// Whether the stream is standard output rather than a file: when the
    /// path is a single hyphen.
    pub open spec fn writes_to_stdout(config: RecordConfig) -> bool {
        config.path@ == seq!['-']
    }

    /// A recorder with a copy of the settings.
    pub fn new(cfg: &RecordConfig) -> (recorder: Recorder)
        ensures
            recorder.config() == *cfg,
    {
        Recorder { config: cfg.clone() }
    }

    /// Whether records go to standard output; otherwise they go to the file
    /// at the configured path, truncated.
    pub fn to_stdout(&self) -> (stdout: bool)
        ensures
            stdout == Self::writes_to_stdout(self.config()),
    {
        let hyphen = String::from_str("-");
        proof {
            reveal_strlit("-");
            assert(hyphen@ =~= seq!['-']);
        }
        self.config.path == hyphen
    }

    /// The output path.
    pub fn path(&self) -> (path: &String)
        ensures
            *path == self.config().path,
    {
        &self.config.path
    }

    /// Passes a record on to the stream, or drops it: the result is the
    /// record where its kind is recorded, and nothing where it is not.
    pub fn record(&self, record: Record) -> (line: Option<Record>)
        ensures
            line == if Self::wanted(self.config(), record) {
                Some(record)
            } else {
                None
            },
    {
        let wanted = match record {
            Record::File(_) => self.config.files,
            Record::Random(_) => self.config.random,
            Record::Time(_) => self.config.time,
            Record::PID(_) => self.config.pid,
        };
        if wanted {
            Some(record)
        } else {
            None
        }
    }
}

} // verus!

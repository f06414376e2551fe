use crate::error::Error;
use crate::recorder::Record;
use crate::registers::Registers;
use vstd::prelude::*;

verus! {

/// The errno of a request that names a task which is gone.
pub const ESRCH: i32 = 3;

/// How many bytes a request for part of a string asks for.
pub const CHUNK: usize = 4096;

/// One request to the kernel. The engine decides; whoever drives it carries
/// the request out and answers with a [`Reply`].
#[derive(Debug, PartialEq, Eq)]
pub enum Action {
    /// Let the task run to its next system call boundary.
    Syscall { pid: i32 },
    /// Block until the task stops or exits.
    Wait { pid: i32 },
    /// Block until any task of the session that `parent` leads stops or
    /// exits, threads included.
    WaitSession { parent: i32 },
    /// Read the task's registers.
    GetRegisters { pid: i32 },
    /// Write the task's registers.
    SetRegisters { pid: i32, registers: Registers },
    /// Have the kernel report system call stops as such, pass tracing on to
    /// the task's children, stop the task on exec and on exit, and kill it
    /// when its tracer exits.
    SetOptions { pid: i32 },
    /// Read the word at an address of the task's memory.
    Peek { pid: i32, addr: u64 },
    /// Write the word at an address of the task's memory.
    Poke { pid: i32, addr: u64, word: u64 },
    /// Read exactly `len` bytes of the task's memory.
    Read { pid: i32, addr: u64, len: usize },
    /// Read up to `len` bytes of the task's memory: as many as one read
    /// gives.
    ReadSome { pid: i32, addr: u64, len: usize },
    /// Write bytes into the task's memory.
    Write { pid: i32, addr: u64, data: Vec<u8> },
    /// Resolve a path to its absolute form, through symbolic links.
    Canonicalize { path: String },
    /// Append a record to the record stream.
    Emit { record: Record },
}

/// How a task that was waited for was found.
#[derive(Debug, Clone, Copy, PartialEq, Eq, Structural)]
pub enum WaitStatus {
    /// The task has exited with this code.
    Exited { pid: i32, code: i32 },
    /// The task stopped at the entry or at the exit of a system call.
    PtraceSyscall { pid: i32 },
    /// The task stopped to report a fork, an exec or its exit.
    PtraceEvent { pid: i32, event: i32 },
    /// The task stopped on a signal.
    Stopped { pid: i32 },
    /// Anything else.
    Other,
}

/// The answer to an [`Action`].
#[derive(Debug, PartialEq, Eq)]
pub enum Reply {
    /// The request was carried out and has nothing to report.
    Done,
    /// The outcome of a wait.
    Status(WaitStatus),
    /// The registers that were read.
    Registers(Registers),
    /// The word that was read.
    Word(u64),
    /// The bytes that were read.
    Data(Vec<u8>),
    /// The resolved path.
    Path(String),
    /// The request failed, with this errno (0 where the failure has none).
    Failed(i32),
}

/// Where an operation stands after a step: it needs the answer to a request
/// before it can go on, or it has ended.
#[derive(Debug, PartialEq, Eq)]
pub enum Progress<M, T> {
    /// The rest of the operation, and the request whose answer it waits for.
    Pending(M, Action),
    /// The operation has completed with this result.
    Done(T),
    /// The operation has failed.
    Failed(Error),
}

impl Action {
    /// The task that a request is about, if it is about one.
    pub open spec fn target(self) -> Option<i32> {
        match self {
            Action::Syscall { pid } => Some(pid),
            Action::Wait { pid } => Some(pid),
            Action::GetRegisters { pid } => Some(pid),
            Action::SetRegisters { pid, .. } => Some(pid),
            Action::SetOptions { pid } => Some(pid),
            Action::Peek { pid, .. } => Some(pid),
            Action::Poke { pid, .. } => Some(pid),
            Action::Read { pid, .. } => Some(pid),
            Action::ReadSome { pid, .. } => Some(pid),
            Action::Write { pid, .. } => Some(pid),
            Action::WaitSession { .. } => None,
            Action::Canonicalize { .. } => None,
            Action::Emit { .. } => None,
        }
    }

    /// Whether the request is one of those by which the task `pid` is
    /// stepped and its registers and single words of its memory are read
    /// and written.
    pub open spec fn steps(self, pid: i32) -> bool {
        self.target() == Some(pid) && (self is Syscall || self is Wait || self is GetRegisters
            || self is SetRegisters || self is Peek || self is Poke)
    }
}

impl<M, T> Progress<M, T> {
    /// Whether an operation that goes on does so with a request that only
    /// steps the task `pid`.
    pub open spec fn steps(self, pid: i32) -> bool {
        self matches Progress::Pending(_, action) ==> action.steps(pid)
    }

    /// The bytes that the pending request writes, where it is a write.
    pub open spec fn payload(self) -> Vec<u8> {
        match self {
            Progress::Pending(_, Action::Write { data, .. }) => data,
            _ => arbitrary(),
        }
    }
}

impl Reply {
    /// The error that an answer stands for where a different answer was
    /// expected: the errno of a failed request, and a protocol violation for
    /// an answer of the wrong kind.
    pub open spec fn unexpected_spec(self) -> Error {
        match self {
            Reply::Failed(errno) => Error::Io(errno),
            _ => Error::ProtocolViolation,
        }
    }

    /// The error for an answer that was not expected.
    pub fn unexpected(&self) -> (error: Error)
        ensures
            error == self.unexpected_spec(),
    {
        match self {
            Reply::Failed(errno) => Error::Io(*errno),
            _ => Error::ProtocolViolation,
        }
    }

    /// Whether the answer to a request to let a task run allows going on: it
    /// was carried out, or the task is gone already.
    pub open spec fn resumed_spec(self) -> bool {
        match self {
            Reply::Done => true,
            Reply::Failed(errno) => errno == ESRCH,
            _ => false,
        }
    }

    /// Whether a task that was told to run is running or gone.
    pub fn resumed(&self) -> (ok: bool)
        ensures
            ok == self.resumed_spec(),
    {
        match self {
            Reply::Done => true,
            Reply::Failed(errno) => *errno == ESRCH,
            _ => false,
        }
    }
}

} // verus!

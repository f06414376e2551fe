use crate::registers::Registers;
use crate::syscall::{Clock, SysNum};
use vstd::prelude::*;

verus! {

/// The directory descriptor that stands for the current directory.
pub const AT_FDCWD: i32 = -100;

/// The largest errno that a return value can encode.
pub const MAX_ERRNO: i64 = 4095;

/// A system call that the engine acts on, with the arguments that it needs.
#[derive(Debug, PartialEq, Eq)]
pub enum Operation {
    Fork { num: SysNum },
    Open { num: SysNum, path: String, read: bool, write: bool },
    Rand { len: usize, addr: u64 },
    Time { num: SysNum, clock: Clock, addr: u64 },
    Pid { num: SysNum },
    Wait,
    Exit,
}

/// What a system call returned: a value, or an errno.
#[derive(Debug, Clone, Copy, PartialEq, Eq, Structural)]
pub enum OperationResult {
    Success(i32),
    Error(i32),
}

impl Operation {
    /// Whether the access mode in the flags of an open allows reading.
    pub open spec fn reads(flags: u64) -> bool {
        flags & 3 != 1
    }

    /// Whether the access mode in the flags of an open allows writing.
    pub open spec fn writes(flags: u64) -> bool {
        flags & 3 != 0
    }

    /// The address of the path that a system call opens, where it opens one:
    /// the first argument of `open`, the second of `openat`.
    pub open spec fn pathname_spec(registers: Registers) -> Option<u64> {
        match SysNum::named(registers.orig_rax) {
            SysNum::Open => Some(registers.rdi),
            SysNum::OpenAt => Some(registers.rsi),
            _ => None,
        }
    }

    /// An `openat` is decoded only where it resolves the path against the
    /// current directory.
    pub open spec fn supported(registers: Registers) -> bool {
        SysNum::named(registers.orig_rax) == SysNum::OpenAt ==> registers.rdi as i32 == AT_FDCWD
    }

    /// The operation that the registers at the entry of a system call ask
    /// for, if the engine acts on that system call. `path` is the string at
    /// `pathname_spec`, and counts only where there is one.
    pub open spec fn parse_spec(registers: Registers, path: String) -> Option<Operation> {
        match SysNum::named(registers.orig_rax) {
            SysNum::Open => Some(
                Operation::Open {
                    num: SysNum::Open,
                    path,
                    read: Self::reads(registers.rsi),
                    write: Self::writes(registers.rsi),
                },
            ),
            SysNum::OpenAt => Some(
                Operation::Open {
                    num: SysNum::OpenAt,
                    path,
                    read: Self::reads(registers.rdx),
                    write: Self::writes(registers.rdx),
                },
            ),
            SysNum::GetRandom => Some(
                Operation::Rand { len: registers.rsi as usize, addr: registers.rdi },
            ),
            SysNum::ClockGetTime => Some(
                Operation::Time {
                    num: SysNum::ClockGetTime,
                    clock: Clock::classify(registers.rdi as i32),
                    addr: registers.rsi,
                },
            ),
            SysNum::Time => Some(
                Operation::Time {
                    num: SysNum::Time,
                    clock: Clock::Realtime(0),
                    addr: registers.rdi,
                },
            ),
            SysNum::GetPID => Some(Operation::Pid { num: SysNum::GetPID }),
            SysNum::GetPPID => Some(Operation::Pid { num: SysNum::GetPPID }),
            SysNum::GetGID => Some(Operation::Pid { num: SysNum::GetGID }),
            SysNum::GetEGID => Some(Operation::Pid { num: SysNum::GetEGID }),
            SysNum::GetUID => Some(Operation::Pid { num: SysNum::GetUID }),
            SysNum::GetEUID => Some(Operation::Pid { num: SysNum::GetEUID }),
            SysNum::Clone => Some(Operation::Fork { num: SysNum::Clone }),
            SysNum::Fork => Some(Operation::Fork { num: SysNum::Fork }),
            SysNum::VFork => Some(Operation::Fork { num: SysNum::VFork }),
            SysNum::Wait => Some(Operation::Wait),
            SysNum::Exit => Some(Operation::Exit),
            SysNum::ExitGroup => Some(Operation::Exit),
            _ => None,
        }
    }

    /// Whether the engine hands the operation to a handler. A fork, a wait
    /// and an exit hold the task inside the kernel, and are passed over.
    pub open spec fn dispatched_spec(&self) -> bool {
        !(self is Fork || self is Wait || self is Exit)
    }

    /// What a raw return value stands for: an errno where it lies in
    /// `-4095..=-1`, a value otherwise.
    pub open spec fn result_spec(retval: i64) -> OperationResult {
        if -MAX_ERRNO <= retval <= -1 {
            OperationResult::Error((-retval) as i32)
        } else {
            OperationResult::Success(retval as i32)
        }
    }

    /// Where the path of an open stands in the task's memory.
    pub fn pathname(registers: &Registers) -> (addr: Option<u64>)
        ensures
            addr == Self::pathname_spec(*registers),
    {
        match SysNum::from(registers.orig_rax) {
            SysNum::Open => Some(registers.rdi),
            SysNum::OpenAt => Some(registers.rsi),
            _ => None,
        }
    }

    /// Whether the system call can be decoded.
    pub fn is_supported(registers: &Registers) -> (supported: bool)
        ensures
            supported == Self::supported(*registers),
    {
        match SysNum::from(registers.orig_rax) {
            SysNum::OpenAt => {
                let fd: i32 = #[verifier::truncate]
                (registers.rdi as i32);
                fd == AT_FDCWD
            },
            _ => true,
        }
    }

    /// Decodes the system call that a task has entered.
    pub fn parse(registers: &Registers, path: String) -> (operation: Option<Operation>)
        requires
            Self::supported(*registers),
        ensures
            operation == Self::parse_spec(*registers, path),
    {
        match SysNum::from(registers.orig_rax) {
            SysNum::Open => {
                let rw_flags: u64 = registers.rsi & 3;
                Some(
                    Operation::Open {
                        num: SysNum::Open,
                        path,
                        read: rw_flags != 1,
                        write: rw_flags != 0,
                    },
                )
            },
            SysNum::OpenAt => {
                let rw_flags: u64 = registers.rdx & 3;
                Some(
                    Operation::Open {
                        num: SysNum::OpenAt,
                        path,
                        read: rw_flags != 1,
                        write: rw_flags != 0,
                    },
                )
            },
            SysNum::GetRandom => {
                let len: usize = #[verifier::truncate]
                (registers.rsi as usize);
                Some(Operation::Rand { len, addr: registers.rdi })
            },
            SysNum::ClockGetTime => Some(
                Operation::Time {
                    num: SysNum::ClockGetTime,
                    clock: Clock::from(registers.rdi),
                    addr: registers.rsi,
                },
            ),
            SysNum::Time => Some(
                Operation::Time {
                    num: SysNum::Time,
                    clock: Clock::Realtime(0),
                    addr: registers.rdi,
                },
            ),
            SysNum::GetPID => Some(Operation::Pid { num: SysNum::GetPID }),
            SysNum::GetPPID => Some(Operation::Pid { num: SysNum::GetPPID }),
            SysNum::GetGID => Some(Operation::Pid { num: SysNum::GetGID }),
            SysNum::GetEGID => Some(Operation::Pid { num: SysNum::GetEGID }),
            SysNum::GetUID => Some(Operation::Pid { num: SysNum::GetUID }),
            SysNum::GetEUID => Some(Operation::Pid { num: SysNum::GetEUID }),
            SysNum::Clone => Some(Operation::Fork { num: SysNum::Clone }),
            SysNum::Fork => Some(Operation::Fork { num: SysNum::Fork }),
            SysNum::VFork => Some(Operation::Fork { num: SysNum::VFork }),
            SysNum::Wait => Some(Operation::Wait),
            SysNum::Exit => Some(Operation::Exit),
            SysNum::ExitGroup => Some(Operation::Exit),
            _ => None,
        }
    }

    /// Whether the operation goes to a handler.
    pub fn dispatched(&self) -> (dispatched: bool)
        ensures
            dispatched == self.dispatched_spec(),
    {
        match self {
            Operation::Fork { .. } => false,
            Operation::Wait => false,
            Operation::Exit => false,
            _ => true,
        }
    }

    /// Tells a value from an errno in what a system call returned.
    pub fn result(retval: i64) -> (result: OperationResult)
        ensures
            result == Self::result_spec(retval),
    {
        if -MAX_ERRNO <= retval && retval <= -1 {
            OperationResult::Error((-retval) as i32)
        } else {
            OperationResult::Success(
                #[verifier::truncate]
                (retval as i32),
            )
        }
    }
}

/// An operation that carries the system call keeps the one that the task
/// asked for, and an open is decoded from `open` and `openat` alone.
pub proof fn lemma_parse_keeps_number(registers: Registers, path: String)
    ensures
        match Operation::parse_spec(registers, path) {
            Some(Operation::Open { num, path: kept, .. }) => num.number() == registers.orig_rax
                && kept == path && (num == SysNum::Open || num == SysNum::OpenAt),
            Some(Operation::Time { num, .. }) => num.number() == registers.orig_rax,
            Some(Operation::Pid { num }) => num.number() == registers.orig_rax,
            Some(Operation::Fork { num }) => num.number() == registers.orig_rax,
            _ => true,
        },
        Operation::parse_spec(registers, path) is Some && Operation::parse_spec(
            registers,
            path,
        )->0 is Open <==> Operation::pathname_spec(registers) is Some,
{
}

/// A return value is an errno exactly in `-4095..=-1`, the errno is its
/// negation, and every value from 0 to the largest `i32` stands for itself.
pub proof fn lemma_result_ranges(retval: i64)
    ensures
        Operation::result_spec(retval) is Error <==> -4095 <= retval <= -1,
        Operation::result_spec(retval) matches OperationResult::Error(errno) ==> 1 <= errno
            <= 4095 && errno == -retval,
        0 <= retval <= i32::MAX ==> Operation::result_spec(retval) == OperationResult::Success(
            retval as i32,
        ) && retval as i32 == retval,
{
}

} // verus!

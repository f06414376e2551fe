use crate::error::Error;
use crate::kernel::{Action, Progress, Reply};
use crate::registers::Registers;
use crate::syscall::SysNum;
use crate::tracer::operation::{Operation, OperationResult};
use crate::tracer::tracee::{Memory, State, Step, StepGoal, StepPhase, Tracee, TraceeView};
use vstd::prelude::*;

verus! {

/// The word that holds the two bytes of the `syscall` instruction, `0F 05`,
/// at its low end, and no-ops above them.
pub const SYSCALL_OPCODES: u64 = 0x9090_9090_9090_050f;

/// The least value of a register that is negative when read as signed.
pub const SIGN: u64 = 0x8000_0000_0000_0000;

/// Pages that can be read and written.
pub const PROT_READ: u64 = 1;

pub const PROT_WRITE: u64 = 2;

/// A mapping of the task's own, backed by no file.
pub const MAP_PRIVATE: u64 = 0x02;

pub const MAP_ANONYMOUS: u64 = 0x20;

/// One move of an injection.
#[derive(Copy, Clone, Debug, PartialEq, Eq, Structural)]
pub enum Move {
    /// Read the word at the instruction pointer, to put it back later.
    Save,
    /// Write the registers that make the task run the injected call.
    Install,
    /// Let the kernel run the call that the task is in, and keep what it
    /// returned.
    Run,
    /// Write the registers as they were.
    Restore,
    /// Put a `syscall` instruction at the instruction pointer.
    Arm,
    /// Let the task run to the entry of its next call.
    Enter,
    /// Put back the word that was at the instruction pointer.
    Disarm,
}

/// The moves of an injection, in order, by the position that it starts
/// from.
///
/// At an entry the task will run one call whatever is done, so the injected
/// call takes the place of the task's own. The task is then made to enter
/// its own call again: its registers are put back, and a `syscall`
/// instruction where it stands takes it to a new entry.
///
/// At an exit the `syscall` instruction takes the task to an entry with the
/// injected call, the kernel runs it, and registers and instruction are put
/// back.
///
/// Of a task that is gone only the read is tried.
pub open spec fn script(origin: State) -> Seq<Move> {
    match origin {
        State::BeforeSyscall => seq![
            Move::Save,
            Move::Install,
            Move::Run,
            Move::Restore,
            Move::Arm,
            Move::Enter,
            Move::Disarm,
            Move::Restore,
        ],
        State::AfterSyscall => seq![
            Move::Save,
            Move::Install,
            Move::Arm,
            Move::Enter,
            Move::Run,
            Move::Restore,
            Move::Disarm,
        ],
        State::Exited => seq![Move::Save],
    }
}

/// The move at a place of the script, if the script is that long.
pub open spec fn move_at_spec(origin: State, at: usize) -> Option<Move> {
    if at < script(origin).len() {
        Some(script(origin)[at as int])
    } else {
        None
    }
}

/// Looks a move up in the script.
pub fn move_at(origin: State, at: usize) -> (step: Option<Move>)
    ensures
        step == move_at_spec(origin, at),
{
    match origin {
        State::BeforeSyscall => match at {
            0 => Some(Move::Save),
            1 => Some(Move::Install),
            2 => Some(Move::Run),
            3 => Some(Move::Restore),
            4 => Some(Move::Arm),
            5 => Some(Move::Enter),
            6 => Some(Move::Disarm),
            7 => Some(Move::Restore),
            _ => None,
        },
        State::AfterSyscall => match at {
            0 => Some(Move::Save),
            1 => Some(Move::Install),
            2 => Some(Move::Arm),
            3 => Some(Move::Enter),
            4 => Some(Move::Run),
            5 => Some(Move::Restore),
            6 => Some(Move::Disarm),
            _ => None,
        },
        State::Exited => match at {
            0 => Some(Move::Save),
            _ => None,
        },
    }
}

/// A system call that the engine runs inside the tracee, in progress.
#[derive(Copy, Clone, Debug, PartialEq, Eq, Structural)]
pub struct SendSyscall {
    /// The position that the injection started from.
    pub origin: State,
    /// The registers as they were.
    pub saved: Registers,
    /// The registers that run the injected call.
    pub loaded: Registers,
    /// The word that was at the instruction pointer, once it has been read.
    pub opcodes: u64,
    /// What the injected call returned, once it has run.
    pub result: u64,
    /// The place in the script of the move in progress.
    pub at: usize,
    /// The step in progress, where the move is one.
    pub step: Step,
}

impl SendSyscall {
    /// Whether what a call returned is negative, read as a signed register.
    pub open spec fn is_negative(result: u64) -> bool {
        result >= SIGN
    }

    /// The errno that a negative return value encodes: its negation, as far
    /// as it fits.
    pub open spec fn errno_spec(result: u64) -> i32 {
        ((u64::MAX - result + 1) as u64) as i32
    }

    /// How the injection ends after its last move: with the errno where the
    /// call returned a negative value, and else with what it returned. From
    /// a task that is gone nothing was run.
    pub open spec fn finish_spec(self) -> Progress<SendSyscall, u64> {
        if self.origin == State::Exited {
            Progress::Failed(Error::ProtocolViolation)
        } else if Self::is_negative(self.result) {
            Progress::Failed(Error::KernelRefused(Self::errno_spec(self.result)))
        } else {
            Progress::Done(self.result)
        }
    }

    /// A move that is a step goes on as the step does.
    pub open spec fn stepping_spec(self, progress: Progress<Step, ()>) -> Progress<
        SendSyscall,
        u64,
    > {
        match progress {
            Progress::Pending(step, action) => Progress::Pending(
                SendSyscall { step, ..self },
                action,
            ),
            Progress::Done(_) => Progress::Failed(Error::ProtocolViolation),
            Progress::Failed(error) => Progress::Failed(error),
        }
    }

    /// The request that the move at `self.at` starts with, or the end of the
    /// injection where the script has none left.
    pub open spec fn begin_spec(self, tracee: TraceeView) -> Progress<SendSyscall, u64> {
        match move_at_spec(self.origin, self.at) {
            None => self.finish_spec(),
            Some(Move::Save) => Progress::Pending(
                self,
                Action::Peek { pid: tracee.pid, addr: self.saved.rip },
            ),
            Some(Move::Install) => Progress::Pending(
                self,
                Action::SetRegisters { pid: tracee.pid, registers: self.loaded },
            ),
            Some(Move::Restore) => Progress::Pending(
                self,
                Action::SetRegisters { pid: tracee.pid, registers: self.saved },
            ),
            Some(Move::Arm) => Progress::Pending(
                self,
                Action::Poke { pid: tracee.pid, addr: self.saved.rip, word: SYSCALL_OPCODES },
            ),
            Some(Move::Disarm) => Progress::Pending(
                self,
                Action::Poke { pid: tracee.pid, addr: self.saved.rip, word: self.opcodes },
            ),
            Some(Move::Run) => self.stepping_spec(Tracee::step_spec(tracee, StepGoal::Exit)),
            Some(Move::Enter) => self.stepping_spec(Tracee::step_spec(tracee, StepGoal::Entry)),
        }
    }

    /// The injection with the move in progress behind it.
    pub open spec fn advanced(self) -> SendSyscall {
        SendSyscall { at: (self.at + 1) as usize, ..self }
    }

    /// The injection after an answer. The answer completes the move in
    /// progress, or takes its step further; a completed move is followed by
    /// the next of the script. A written register file is from then on what
    /// the handle holds, and the result is read from the registers at the
    /// stop that `Run` ends on.
    pub open spec fn next(self, tracee: TraceeView, reply: Reply) -> (
        TraceeView,
        Progress<SendSyscall, u64>,
    ) {
        match move_at_spec(self.origin, self.at) {
            None => (tracee, Progress::Failed(Error::ProtocolViolation)),
            Some(Move::Save) => match reply {
                Reply::Word(word) => (
                    tracee,
                    (SendSyscall { opcodes: word, ..self.advanced() }).begin_spec(tracee),
                ),
                _ => (tracee, Progress::Failed(reply.unexpected_spec())),
            },
            Some(Move::Install) => match reply {
                Reply::Done => {
                    let after = TraceeView { registers: self.loaded, ..tracee };
                    (after, self.advanced().begin_spec(after))
                },
                _ => (tracee, Progress::Failed(reply.unexpected_spec())),
            },
            Some(Move::Restore) => match reply {
                Reply::Done => {
                    let after = TraceeView { registers: self.saved, ..tracee };
                    (after, self.advanced().begin_spec(after))
                },
                _ => (tracee, Progress::Failed(reply.unexpected_spec())),
            },
            Some(Move::Arm) => match reply {
                Reply::Done => (tracee, self.advanced().begin_spec(tracee)),
                _ => (tracee, Progress::Failed(reply.unexpected_spec())),
            },
            Some(Move::Disarm) => match reply {
                Reply::Done => (tracee, self.advanced().begin_spec(tracee)),
                _ => (tracee, Progress::Failed(reply.unexpected_spec())),
            },
            Some(Move::Run) => {
                let (after, progress) = self.step.next(tracee, reply);
                match progress {
                    Progress::Pending(step, action) => (
                        after,
                        Progress::Pending(SendSyscall { step, ..self }, action),
                    ),
                    Progress::Done(_) => (
                        after,
                        (SendSyscall { result: after.registers.rax, ..self.advanced() }).begin_spec(
                            after,
                        ),
                    ),
                    Progress::Failed(error) => (after, Progress::Failed(error)),
                }
            },
            Some(Move::Enter) => {
                let (after, progress) = self.step.next(tracee, reply);
                match progress {
                    Progress::Pending(step, action) => (
                        after,
                        Progress::Pending(SendSyscall { step, ..self }, action),
                    ),
                    Progress::Done(_) => (after, self.advanced().begin_spec(after)),
                    Progress::Failed(error) => (after, Progress::Failed(error)),
                }
            },
        }
    }

    fn finish(self) -> (progress: Progress<SendSyscall, u64>)
        ensures
            progress == self.finish_spec(),
    {
        match self.origin {
            State::Exited => Progress::Failed(Error::ProtocolViolation),
            _ => {
                if self.result >= SIGN {
                    let negated: u64 = u64::MAX - self.result + 1;
                    let errno: i32 = #[verifier::truncate]
                    (negated as i32);
                    Progress::Failed(Error::KernelRefused(errno))
                } else {
                    Progress::Done(self.result)
                }
            },
        }
    }

    fn stepping(self, progress: Progress<Step, ()>) -> (stepping: Progress<SendSyscall, u64>)
        ensures
            stepping == self.stepping_spec(progress),
    {
        match progress {
            Progress::Pending(step, action) => {
                let mut call = self;
                call.step = step;
                Progress::Pending(call, action)
            },
            Progress::Done(_) => Progress::Failed(Error::ProtocolViolation),
            Progress::Failed(error) => Progress::Failed(error),
        }
    }

    fn begin(self, tracee: &Tracee) -> (progress: Progress<SendSyscall, u64>)
        ensures
            progress == self.begin_spec(tracee@),
    {
        match move_at(self.origin, self.at) {
            None => self.finish(),
            Some(Move::Save) => Progress::Pending(
                self,
                Action::Peek { pid: tracee.pid, addr: self.saved.rip },
            ),
            Some(Move::Install) => Progress::Pending(
                self,
                Action::SetRegisters { pid: tracee.pid, registers: self.loaded },
            ),
            Some(Move::Restore) => Progress::Pending(
                self,
                Action::SetRegisters { pid: tracee.pid, registers: self.saved },
            ),
            Some(Move::Arm) => Progress::Pending(
                self,
                Action::Poke { pid: tracee.pid, addr: self.saved.rip, word: SYSCALL_OPCODES },
            ),
            Some(Move::Disarm) => Progress::Pending(
                self,
                Action::Poke { pid: tracee.pid, addr: self.saved.rip, word: self.opcodes },
            ),
            Some(Move::Run) => self.stepping(tracee.step_over_syscall()),
            Some(Move::Enter) => self.stepping(tracee.step_to_syscall()),
        }
    }

    fn advance(self) -> (call: SendSyscall)
        requires
            move_at_spec(self.origin, self.at) is Some,
        ensures
            call == self.advanced(),
    {
        let mut call = self;
        call.at = self.at + 1;
        call
    }

    /// Takes the answer to the injection's last request.
    pub fn resume(self, tracee: &mut Tracee, reply: Reply) -> (progress: Progress<
        SendSyscall,
        u64,
    >)
        ensures
            (final(tracee)@, progress) == self.next(old(tracee)@, reply),
    {
        match move_at(self.origin, self.at) {
            None => Progress::Failed(Error::ProtocolViolation),
            Some(Move::Save) => match reply {
                Reply::Word(word) => {
                    let mut call = self.advance();
                    call.opcodes = word;
                    call.begin(tracee)
                },
                other => Progress::Failed(other.unexpected()),
            },
            Some(Move::Install) => match reply {
                Reply::Done => {
                    tracee.registers = self.loaded;
                    self.advance().begin(tracee)
                },
                other => Progress::Failed(other.unexpected()),
            },
            Some(Move::Restore) => match reply {
                Reply::Done => {
                    tracee.registers = self.saved;
                    self.advance().begin(tracee)
                },
                other => Progress::Failed(other.unexpected()),
            },
            Some(Move::Arm) => match reply {
                Reply::Done => self.advance().begin(tracee),
                other => Progress::Failed(other.unexpected()),
            },
            Some(Move::Disarm) => match reply {
                Reply::Done => self.advance().begin(tracee),
                other => Progress::Failed(other.unexpected()),
            },
            Some(Move::Run) => match self.step.resume(tracee, reply) {
                Progress::Pending(step, action) => {
                    let mut call = self;
                    call.step = step;
                    Progress::Pending(call, action)
                },
                Progress::Done(_) => {
                    let mut call = self.advance();
                    call.result = tracee.registers.rax;
                    call.begin(tracee)
                },
                Progress::Failed(error) => Progress::Failed(error),
            },
            Some(Move::Enter) => match self.step.resume(tracee, reply) {
                Progress::Pending(step, action) => {
                    let mut call = self;
                    call.step = step;
                    Progress::Pending(call, action)
                },
                Progress::Done(_) => self.advance().begin(tracee),
                Progress::Failed(error) => Progress::Failed(error),
            },
        }
    }
}

impl Tracee {
    /// An injection of system call `number` starts from the handle's
    /// position and registers, with the first move of the script.
    pub open spec fn send_syscall_spec(tracee: TraceeView, number: u64, args: [u64; 6]) -> Progress<
        SendSyscall,
        u64,
    > {
        (SendSyscall {
            origin: tracee.state,
            saved: tracee.registers,
            loaded: tracee.registers.for_syscall_spec(number, args),
            opcodes: 0,
            result: 0,
            at: 0,
            step: Step { goal: StepGoal::Boundary, phase: StepPhase::Resuming },
        }).begin_spec(tracee)
    }

    /// Runs a system call inside the task, and puts the task back where it
    /// was.
    pub fn send_syscall(
        &self,
        syscall: SysNum,
        arg1: u64,
        arg2: u64,
        arg3: u64,
        arg4: u64,
        arg5: u64,
        arg6: u64,
    ) -> (progress: Progress<SendSyscall, u64>)
        ensures
            progress == Self::send_syscall_spec(
                self@,
                syscall.number(),
                [arg1, arg2, arg3, arg4, arg5, arg6],
            ),
    {
        let call = SendSyscall {
            origin: self.state,
            saved: self.registers,
            loaded: self.registers.for_syscall(
                u64::from(syscall),
                [arg1, arg2, arg3, arg4, arg5, arg6],
            ),
            opcodes: 0,
            result: 0,
            at: 0,
            step: Step { goal: StepGoal::Boundary, phase: StepPhase::Resuming },
        };
        call.begin(self)
    }
}

impl SendSyscall {
    /// What holds between an injection in progress and the tracee that it
    /// runs in: the script has a move at `at`; a step in progress has the
    /// goal of its move; and once the task has been taken back to where the
    /// injection started, it is there, with the registers that the last
    /// `Restore` wrote.
    pub open spec fn inv(self, tracee: TraceeView) -> bool {
        &&& move_at_spec(self.origin, self.at) is Some
        &&& move_at_spec(self.origin, self.at) == Some(Move::Run) ==> self.step.goal
            == StepGoal::Exit
        &&& move_at_spec(self.origin, self.at) == Some(Move::Enter) ==> self.step.goal
            == StepGoal::Entry
        &&& self.origin == State::BeforeSyscall && self.at >= 6 ==> tracee.state
            == State::BeforeSyscall
        &&& self.origin == State::AfterSyscall && self.at >= 5 ==> tracee.state
            != State::BeforeSyscall
        &&& self.origin == State::AfterSyscall && self.at >= 6 ==> tracee.registers == self.saved
    }
}

/// An injection starts by reading the word at the instruction pointer, and
/// the registers that it will install hold the call's number in `rax` and in
/// `orig_rax` and its arguments in the six argument registers.
pub proof fn lemma_injection_starts(tracee: TraceeView, number: u64, args: [u64; 6])
    ensures
        Tracee::send_syscall_spec(tracee, number, args) matches Progress::Pending(call, action)
            && call.inv(tracee) && call.origin == tracee.state && call.saved == tracee.registers
            && call.loaded.rax == number && call.loaded.orig_rax == number && call.loaded.rdi
            == args[0] && call.loaded.rsi == args[1] && call.loaded.rdx == args[2]
            && call.loaded.r10 == args[3] && call.loaded.r8 == args[4] && call.loaded.r9
            == args[5] && call.loaded.rip == tracee.registers.rip && action == (Action::Peek {
            pid: tracee.pid,
            addr: tracee.registers.rip,
        }),
{
}

/// An injection keeps its invariant while it goes on, never touches the
/// scratch regions, and when it completes the task is back where it was:
/// the handle holds the registers from before the injection, an injection
/// from an entry ends at an entry, and one from an exit does not. What it
/// hands back is what the call returned, and is not negative.
pub proof fn lemma_injection_restores(call: SendSyscall, tracee: TraceeView, reply: Reply)
    requires
        call.inv(tracee),
    ensures
        call.next(tracee, reply).0.pid == tracee.pid,
        call.next(tracee, reply).0.allocations == tracee.allocations,
        call.next(tracee, reply).1 matches Progress::Pending(following, _) ==> following.inv(
            call.next(tracee, reply).0,
        ) && following.origin == call.origin && following.saved == call.saved && following.loaded
            == call.loaded,
        call.next(tracee, reply).1 matches Progress::Done(value) ==> {
            &&& call.next(tracee, reply).0.registers == call.saved
            &&& call.origin == State::BeforeSyscall ==> call.next(tracee, reply).0.state
                == State::BeforeSyscall
            &&& call.origin == State::AfterSyscall ==> call.next(tracee, reply).0.state
                != State::BeforeSyscall
            &&& call.origin != State::Exited
            &&& !SendSyscall::is_negative(value)
        },
{
}

/// A mapping of scratch memory inside the tracee, in progress.
#[derive(Copy, Clone, Debug, PartialEq, Eq, Structural)]
pub struct ReserveMemory {
    pub len: usize,
    pub call: SendSyscall,
}

impl ReserveMemory {
    /// A mapping goes on as its injection does.
    pub open spec fn mapping_spec(len: usize, progress: Progress<SendSyscall, u64>) -> Progress<
        ReserveMemory,
        u64,
    > {
        match progress {
            Progress::Pending(call, action) => Progress::Pending(
                ReserveMemory { len, call },
                action,
            ),
            Progress::Done(_) => Progress::Failed(Error::ProtocolViolation),
            Progress::Failed(error) => Progress::Failed(error),
        }
    }

    /// Where the injected call completes, the region that it mapped joins
    /// the handle's scratch regions, and its address is handed back.
    pub open spec fn next(self, tracee: TraceeView, reply: Reply) -> (
        TraceeView,
        Progress<ReserveMemory, u64>,
    ) {
        let (after, progress) = self.call.next(tracee, reply);
        match progress {
            Progress::Pending(call, action) => (
                after,
                Progress::Pending(ReserveMemory { call, ..self }, action),
            ),
            Progress::Done(addr) => (
                TraceeView {
                    allocations: after.allocations.push(Memory { addr, len: self.len }),
                    ..after
                },
                Progress::Done(addr),
            ),
            Progress::Failed(error) => (after, Progress::Failed(error)),
        }
    }

    /// Takes the answer to the mapping's last request.
    pub fn resume(self, tracee: &mut Tracee, reply: Reply) -> (progress: Progress<
        ReserveMemory,
        u64,
    >)
        ensures
            (final(tracee)@, progress) == self.next(old(tracee)@, reply),
    {
        match self.call.resume(tracee, reply) {
            Progress::Pending(call, action) => Progress::Pending(
                ReserveMemory { len: self.len, call },
                action,
            ),
            Progress::Done(addr) => {
                tracee.allocations.push(Memory { addr, len: self.len });
                Progress::Done(addr)
            },
            Progress::Failed(error) => Progress::Failed(error),
        }
    }
}

/// The release of one scratch region, in progress.
#[derive(Copy, Clone, Debug, PartialEq, Eq, Structural)]
pub struct FreeMemory {
    pub call: SendSyscall,
}

impl FreeMemory {
    /// An unmapping goes on as its injection does.
    pub open spec fn unmapping_spec(progress: Progress<SendSyscall, u64>) -> Progress<
        FreeMemory,
        (),
    > {
        match progress {
            Progress::Pending(call, action) => Progress::Pending(FreeMemory { call }, action),
            Progress::Done(_) => Progress::Done(()),
            Progress::Failed(error) => Progress::Failed(error),
        }
    }

    pub open spec fn next(self, tracee: TraceeView, reply: Reply) -> (
        TraceeView,
        Progress<FreeMemory, ()>,
    ) {
        let (after, progress) = self.call.next(tracee, reply);
        (after, Self::unmapping_spec(progress))
    }

    fn unmapping(progress: Progress<SendSyscall, u64>) -> (unmapping: Progress<FreeMemory, ()>)
        ensures
            unmapping == Self::unmapping_spec(progress),
    {
        match progress {
            Progress::Pending(call, action) => Progress::Pending(FreeMemory { call }, action),
            Progress::Done(_) => Progress::Done(()),
            Progress::Failed(error) => Progress::Failed(error),
        }
    }

    /// Takes the answer to the unmapping's last request.
    pub fn resume(self, tracee: &mut Tracee, reply: Reply) -> (progress: Progress<FreeMemory, ()>)
        ensures
            (final(tracee)@, progress) == self.next(old(tracee)@, reply),
    {
        Self::unmapping(self.call.resume(tracee, reply))
    }
}

impl Tracee {
    /// Scratch memory is an anonymous private mapping that can be read and
    /// written, placed by the kernel.
    pub open spec fn reserve_memory_spec(tracee: TraceeView, len: usize) -> Progress<
        ReserveMemory,
        u64,
    > {
        ReserveMemory::mapping_spec(
            len,
            Self::send_syscall_spec(
                tracee,
                SysNum::Mmap.number(),
                [0, len as u64, PROT_READ | PROT_WRITE, MAP_ANONYMOUS | MAP_PRIVATE, 0, 0],
            ),
        )
    }

    /// A region is released by unmapping its address and length.
    pub open spec fn free_memory_spec(tracee: TraceeView, mem: Memory) -> Progress<
        FreeMemory,
        (),
    > {
        FreeMemory::unmapping_spec(
            Self::send_syscall_spec(
                tracee,
                SysNum::Munmap.number(),
                [mem.addr, mem.len as u64, 0, 0, 0, 0],
            ),
        )
    }

    /// Maps `len` bytes of scratch memory inside the task.
    pub fn reserve_memory(&self, len: usize) -> (progress: Progress<ReserveMemory, u64>)
        ensures
            progress == Self::reserve_memory_spec(self@, len),
    {
        match self.send_syscall(
            SysNum::Mmap,
            0,
            len as u64,
            PROT_READ | PROT_WRITE,
            MAP_ANONYMOUS | MAP_PRIVATE,
            0,
            0,
        ) {
            Progress::Pending(call, action) => Progress::Pending(
                ReserveMemory { len, call },
                action,
            ),
            Progress::Done(_) => Progress::Failed(Error::ProtocolViolation),
            Progress::Failed(error) => Progress::Failed(error),
        }
    }

    /// Unmaps a scratch region.
    pub fn free_memory(&self, mem: &Memory) -> (progress: Progress<FreeMemory, ()>)
        ensures
            progress == Self::free_memory_spec(self@, *mem),
    {
        FreeMemory::unmapping(
            self.send_syscall(SysNum::Munmap, mem.addr, mem.len as u64, 0, 0, 0, 0),
        )
    }
}

/// The end of a handle, in progress: its scratch regions are unmapped,
/// newest first, and then the task is let go.
#[derive(Copy, Clone, Debug, PartialEq, Eq, Structural)]
pub enum Release {
    /// The newest region that is left is being unmapped.
    Freeing(FreeMemory),
    /// No region is left, and the task was told to run.
    Resuming,
}

impl Release {
    /// What is next for a handle that is being released: the unmapping of
    /// its newest scratch region, or, where it has none, the request that
    /// lets the task run.
    pub open spec fn begin_spec(tracee: TraceeView) -> Progress<Release, ()> {
        if tracee.allocations.len() > 0 {
            match Tracee::free_memory_spec(tracee, tracee.allocations.last()) {
                Progress::Pending(call, action) => Progress::Pending(
                    Release::Freeing(call),
                    action,
                ),
                Progress::Done(_) => Progress::Failed(Error::ProtocolViolation),
                Progress::Failed(error) => Progress::Failed(error),
            }
        } else {
            Progress::Pending(Release::Resuming, Action::Syscall { pid: tracee.pid })
        }
    }

    /// The handle without its newest scratch region.
    pub open spec fn without_newest(tracee: TraceeView) -> TraceeView {
        if tracee.allocations.len() > 0 {
            TraceeView { allocations: tracee.allocations.drop_last(), ..tracee }
        } else {
            tracee
        }
    }

    /// The release after an answer. A region whose unmapping has completed
    /// leaves the handle, and the next is taken up. An unmapping that fails
    /// ends the release. Letting the task run completes it, also where the
    /// task was gone already.
    pub open spec fn next(self, tracee: TraceeView, reply: Reply) -> (
        TraceeView,
        Progress<Release, ()>,
    ) {
        match self {
            Release::Freeing(call) => {
                let (after, progress) = call.next(tracee, reply);
                match progress {
                    Progress::Pending(call, action) => (
                        after,
                        Progress::Pending(Release::Freeing(call), action),
                    ),
                    Progress::Done(_) => (
                        Self::without_newest(after),
                        Self::begin_spec(Self::without_newest(after)),
                    ),
                    Progress::Failed(error) => (after, Progress::Failed(error)),
                }
            },
            Release::Resuming => if reply.resumed_spec() {
                (tracee, Progress::Done(()))
            } else {
                (tracee, Progress::Failed(reply.unexpected_spec()))
            },
        }
    }

    fn begin(tracee: &Tracee) -> (progress: Progress<Release, ()>)
        ensures
            progress == Self::begin_spec(tracee@),
    {
        let count = tracee.allocations.len();
        if count > 0 {
            let newest = tracee.allocations[count - 1];
            match tracee.free_memory(&newest) {
                Progress::Pending(call, action) => Progress::Pending(
                    Release::Freeing(call),
                    action,
                ),
                Progress::Done(_) => Progress::Failed(Error::ProtocolViolation),
                Progress::Failed(error) => Progress::Failed(error),
            }
        } else {
            Progress::Pending(Release::Resuming, Action::Syscall { pid: tracee.pid })
        }
    }

    /// Takes the answer to the release's last request.
    pub fn resume(self, tracee: &mut Tracee, reply: Reply) -> (progress: Progress<Release, ()>)
        ensures
            (final(tracee)@, progress) == self.next(old(tracee)@, reply),
    {
        match self {
            Release::Freeing(call) => match call.resume(tracee, reply) {
                Progress::Pending(call, action) => Progress::Pending(
                    Release::Freeing(call),
                    action,
                ),
                Progress::Done(_) => {
                    tracee.allocations.pop();
                    Self::begin(tracee)
                },
                Progress::Failed(error) => Progress::Failed(error),
            },
            Release::Resuming => {
                if reply.resumed() {
                    Progress::Done(())
                } else {
                    Progress::Failed(reply.unexpected())
                }
            },
        }
    }

    /// What holds between a release in progress and the handle: while a
    /// region is being unmapped it is the handle's newest, and the injected
    /// call is `munmap` of its address and length; once the task is let go
    /// the handle has no region left.
    pub open spec fn inv(self, tracee: TraceeView) -> bool {
        match self {
            Release::Freeing(free) => {
                &&& tracee.allocations.len() > 0
                &&& free.call.inv(tracee)
                &&& free.call.loaded.orig_rax == SysNum::Munmap.number()
                &&& free.call.loaded.rdi == tracee.allocations.last().addr
                &&& free.call.loaded.rsi == tracee.allocations.last().len
            },
            Release::Resuming => tracee.allocations.len() == 0,
        }
    }
}

impl Tracee {
    /// Ends the handle: unmaps the scratch regions that were mapped through
    /// it and lets the task run.
    pub fn release(&self) -> (progress: Progress<Release, ()>)
        ensures
            progress == Release::begin_spec(self@),
    {
        Release::begin(self)
    }
}

/// A release starts within its invariant.
pub proof fn lemma_release_starts(tracee: TraceeView)
    ensures
        Release::begin_spec(tracee) matches Progress::Pending(release, _) && release.inv(tracee),
{
    lemma_injection_starts(
        tracee,
        SysNum::Munmap.number(),
        [tracee.allocations.last().addr, tracee.allocations.last().len as u64, 0, 0, 0, 0],
    );
}

/// A release that completes leaves the handle without scratch regions: each
/// was unmapped before the task was let go. While it goes on, the regions
/// that are left are the oldest of those that the handle had, in their
/// order, and the invariant holds.
pub proof fn lemma_release_frees_all(release: Release, tracee: TraceeView, reply: Reply)
    requires
        release.inv(tracee),
    ensures
        release.next(tracee, reply).1 is Done ==> release.next(tracee, reply).0.allocations.len()
            == 0,
        release.next(tracee, reply).1 matches Progress::Pending(following, _) ==> following.inv(
            release.next(tracee, reply).0,
        ),
        release.next(tracee, reply).0.allocations.len() <= tracee.allocations.len(),
        release.next(tracee, reply).0.allocations =~= tracee.allocations.take(
            release.next(tracee, reply).0.allocations.len() as int,
        ),
        release.next(tracee, reply).0.pid == tracee.pid,
{
    match release {
        Release::Freeing(free) => {
            lemma_injection_restores(free.call, tracee, reply);
            let (after, progress) = free.next(tracee, reply);
            if progress is Done {
                lemma_release_starts(Release::without_newest(after));
            }
        },
        Release::Resuming => {},
    }
}

impl SendSyscall {
    /// Where an injection stands after a run of answers, each given to the
    /// request before it: answers that come after the injection has ended
    /// count for nothing.
    pub open spec fn drive(
        tracee: TraceeView,
        progress: Progress<SendSyscall, u64>,
        replies: Seq<Reply>,
    ) -> (TraceeView, Progress<SendSyscall, u64>)
        decreases replies.len(),
    {
        if replies.len() > 0 && progress is Pending {
            let (after, following) = progress->Pending_0.next(tracee, replies.first());
            Self::drive(after, following, replies.drop_first())
        } else {
            (tracee, progress)
        }
    }
}

impl Release {
    /// Where a release stands after a run of answers, each given to the
    /// request before it.
    pub open spec fn drive(
        tracee: TraceeView,
        progress: Progress<Release, ()>,
        replies: Seq<Reply>,
    ) -> (TraceeView, Progress<Release, ()>)
        decreases replies.len(),
    {
        if replies.len() > 0 && progress is Pending {
            let (after, following) = progress->Pending_0.next(tracee, replies.first());
            Self::drive(after, following, replies.drop_first())
        } else {
            (tracee, progress)
        }
    }
}

proof fn lemma_injection_drive(
    origin: TraceeView,
    tracee: TraceeView,
    progress: Progress<SendSyscall, u64>,
    replies: Seq<Reply>,
)
    requires
        progress matches Progress::Pending(call, _) && call.inv(tracee) && call.origin
            == origin.state && call.saved == origin.registers,
        tracee.pid == origin.pid,
        tracee.allocations == origin.allocations,
    ensures
        SendSyscall::drive(tracee, progress, replies).1 is Done ==> {
            let ended = SendSyscall::drive(tracee, progress, replies).0;
            &&& ended.registers == origin.registers
            &&& ended.pid == origin.pid
            &&& ended.allocations == origin.allocations
            &&& origin.state == State::BeforeSyscall ==> ended.state == State::BeforeSyscall
            &&& origin.state == State::AfterSyscall ==> ended.state != State::BeforeSyscall
            &&& origin.state != State::Exited
        },
    decreases replies.len(),
{
    if replies.len() > 0 {
        let call = progress->Pending_0;
        lemma_injection_restores(call, tracee, replies.first());
        let (after, following) = call.next(tracee, replies.first());
        assert(SendSyscall::drive(tracee, progress, replies) == SendSyscall::drive(
            after,
            following,
            replies.drop_first(),
        ));
        if following is Pending {
            lemma_injection_drive(origin, after, following, replies.drop_first());
        } else {
            assert(SendSyscall::drive(after, following, replies.drop_first()) == (after, following));
        }
    }
}

/// However the kernel answers, an injection that completes leaves the task
/// as it found it: the handle holds the registers from before, with the
/// same scratch regions; an injection that started at the entry of a call
/// ends at an entry, and one that started at an exit does not. Nothing is
/// ever injected into a task that is gone.
pub proof fn lemma_injection_leaves_no_trace(
    tracee: TraceeView,
    number: u64,
    args: [u64; 6],
    replies: Seq<Reply>,
)
    ensures
        SendSyscall::drive(tracee, Tracee::send_syscall_spec(tracee, number, args), replies).1
            is Done ==> {
            let ended = SendSyscall::drive(
                tracee,
                Tracee::send_syscall_spec(tracee, number, args),
                replies,
            ).0;
            &&& ended.registers == tracee.registers
            &&& ended.pid == tracee.pid
            &&& ended.allocations == tracee.allocations
            &&& tracee.state == State::BeforeSyscall ==> ended.state == State::BeforeSyscall
            &&& tracee.state == State::AfterSyscall ==> ended.state != State::BeforeSyscall
            &&& tracee.state != State::Exited
        },
{
    lemma_injection_starts(tracee, number, args);
    lemma_injection_drive(tracee, tracee, Tracee::send_syscall_spec(tracee, number, args), replies);
}

proof fn lemma_release_drive(tracee: TraceeView, progress: Progress<Release, ()>, replies: Seq<Reply>)
    requires
        progress matches Progress::Pending(release, _) && release.inv(tracee),
    ensures
        Release::drive(tracee, progress, replies).1 is Done ==> Release::drive(
            tracee,
            progress,
            replies,
        ).0.allocations.len() == 0,
    decreases replies.len(),
{
    if replies.len() > 0 {
        let release = progress->Pending_0;
        lemma_release_frees_all(release, tracee, replies.first());
        let (after, following) = release.next(tracee, replies.first());
        assert(Release::drive(tracee, progress, replies) == Release::drive(
            after,
            following,
            replies.drop_first(),
        ));
        if following is Pending {
            lemma_release_drive(after, following, replies.drop_first());
        } else {
            assert(Release::drive(after, following, replies.drop_first()) == (after, following));
        }
    }
}

/// However the kernel answers, a handle whose release completes owns no
/// scratch memory any more: every region that was mapped through it has
/// been unmapped before its task is let go.
pub proof fn lemma_release_leaves_no_memory(tracee: TraceeView, replies: Seq<Reply>)
    ensures
        Release::drive(tracee, Release::begin_spec(tracee), replies).1 is Done ==> Release::drive(
            tracee,
            Release::begin_spec(tracee),
            replies,
        ).0.allocations.len() == 0,
{
    lemma_release_starts(tracee);
    lemma_release_drive(tracee, Release::begin_spec(tracee), replies);
}

/// An injection asks for nothing but to step the task of its handle, and
/// so do the mapping or the unmapping that it is part of.
pub proof fn lemma_injection_requests(call: SendSyscall, tracee: TraceeView, reply: Reply)
    ensures
        call.begin_spec(tracee).steps(tracee.pid),
        call.next(tracee, reply).1.steps(tracee.pid),
        call.next(tracee, reply).0.pid == tracee.pid,
        forall|len: usize| #[trigger]
            ReserveMemory::mapping_spec(len, call.next(tracee, reply).1).steps(tracee.pid),
        FreeMemory::unmapping_spec(call.next(tracee, reply).1).steps(tracee.pid),
{
    crate::tracer::tracee::lemma_handle_requests(tracee);
    crate::tracer::tracee::lemma_step_requests(call.step, tracee, reply);
    let after = call.next(tracee, reply).0;
    crate::tracer::tracee::lemma_handle_requests(after);
}

/// Injections, mappings, unmappings and releases start with nothing but a
/// request that steps the task of their handle.
pub proof fn lemma_scratch_requests(tracee: TraceeView)
    ensures
        forall|number: u64, args: [u64; 6]| #[trigger]
            Tracee::send_syscall_spec(tracee, number, args).steps(tracee.pid),
        forall|len: usize| #[trigger] Tracee::reserve_memory_spec(tracee, len).steps(tracee.pid),
        forall|mem: Memory| #[trigger] Tracee::free_memory_spec(tracee, mem).steps(tracee.pid),
        Release::begin_spec(tracee).steps(tracee.pid),
{
    crate::tracer::tracee::lemma_handle_requests(tracee);
}

/// A release asks for nothing but to step the task of its handle.
pub proof fn lemma_release_requests(release: Release, tracee: TraceeView, reply: Reply)
    ensures
        release.next(tracee, reply).1.steps(tracee.pid),
        release.next(tracee, reply).0.pid == tracee.pid,
{
    match release {
        Release::Freeing(free) => {
            lemma_injection_requests(free.call, tracee, reply);
            let after = free.call.next(tracee, reply).0;
            lemma_scratch_requests(Release::without_newest(after));
        },
        Release::Resuming => {},
    }
}

/// A return value that encodes an errno refuses the injection with the
/// errno that a handler would read from it.
pub proof fn lemma_refusal_decodes_errno(result: u64)
    requires
        Operation::result_spec(result as i64) is Error,
    ensures
        SendSyscall::is_negative(result),
        Operation::result_spec(result as i64) == OperationResult::Error(
            SendSyscall::errno_spec(result),
        ),
{
    let retval = result as i64;
    assert(retval < 0 ==> result >= 0x8000_0000_0000_0000u64 && (0xffff_ffff_ffff_ffffu64 - result
        + 1) as u64 == (-retval) as u64) by (bit_vector)
        requires
            retval == result as i64,
    ;
}

} // verus!

use crate::error::Error;
use crate::kernel::{Action, Progress, Reply, WaitStatus};
use crate::registers::Registers;
use crate::tracer::operation::{Operation, OperationResult};
use vstd::prelude::*;

verus! {

/// Where a task stands relative to the system call that it is in.
#[derive(Copy, Clone, Debug, PartialEq, Eq, Structural)]
pub enum State {
    /// Stopped at the entry: the kernel has not run the call yet.
    BeforeSyscall,
    /// Stopped at the exit: `rax` holds what the call returned.
    AfterSyscall,
    /// The task is gone.
    Exited,
}

impl State {
    /// The position that registers read at a system call stop show: the
    /// entry exactly when `rax` holds the entry marker.
    pub open spec fn observed_spec(registers: Registers) -> State {
        if registers.at_entry() {
            State::BeforeSyscall
        } else {
            State::AfterSyscall
        }
    }

    /// Tells the entry of a system call from its exit.
    pub fn observed(registers: &Registers) -> (state: State)
        ensures
            state == Self::observed_spec(*registers),
    {
        if registers.rax == crate::registers::ENTRY_MARKER {
            State::BeforeSyscall
        } else {
            State::AfterSyscall
        }
    }
}

/// A region of the tracee's memory that the engine has mapped for its own
/// use.
#[derive(Debug, Clone, Copy, PartialEq, Eq, Structural)]
pub struct Memory {
    pub addr: u64,
    pub len: usize,
}

/// One task at one system call stop: what the engine knows of it.
#[derive(Debug, PartialEq, Eq)]
pub struct Tracee {
    pub pid: i32,
    pub state: State,
    /// The registers as last read or written.
    pub registers: Registers,
    /// The scratch regions mapped through this handle, oldest first.
    pub allocations: Vec<Memory>,
}

/// A tracee as the contracts speak of it.
pub struct TraceeView {
    pub pid: i32,
    pub state: State,
    pub registers: Registers,
    pub allocations: Seq<Memory>,
}

impl View for Tracee {
    type V = TraceeView;

    open spec fn view(&self) -> TraceeView {
        TraceeView {
            pid: self.pid,
            state: self.state,
            registers: self.registers,
            allocations: self.allocations@,
        }
    }
}

/// What a step has to arrive at.
#[derive(Copy, Clone, Debug, PartialEq, Eq, Structural)]
pub enum StepGoal {
    /// Any stop.
    Boundary,
    /// The exit of the system call that the task is in, or the task's end.
    Exit,
    /// The entry of the next system call.
    Entry,
}

/// How far a step has come.
#[derive(Copy, Clone, Debug, PartialEq, Eq, Structural)]
pub enum StepPhase {
    /// The task was told to run.
    Resuming,
    /// The task is being waited for.
    Waiting,
    /// The task stopped at a system call, and its registers are being read.
    Reading,
}

/// A step of a task across one system call boundary, in progress.
#[derive(Copy, Clone, Debug, PartialEq, Eq, Structural)]
pub struct Step {
    pub goal: StepGoal,
    pub phase: StepPhase,
}

impl Step {
    /// The position that a system call stop takes the task to. A step to
    /// the exit of a call arrives there, whatever the call returned; at any
    /// other stop the registers tell.
    pub open spec fn landed_spec(self, registers: Registers) -> State {
        if self.goal == StepGoal::Exit {
            State::AfterSyscall
        } else {
            State::observed_spec(registers)
        }
    }

    /// How a step ends once the task's new position is known: a step to an
    /// entry that arrives elsewhere has failed.
    pub open spec fn arrived_spec(self, state: State) -> Progress<Step, ()> {
        if self.goal == StepGoal::Entry && state != State::BeforeSyscall {
            Progress::Failed(Error::ProtocolViolation)
        } else {
            Progress::Done(())
        }
    }

    /// The step after an answer: the tracee as it is then known, and how the
    /// step goes on.
    ///
    /// Told to run, the task is waited for, also where it was gone already.
    /// A system call stop has the registers read, and the position is the
    /// one that the stop takes the task to. An exit makes the position
    /// `Exited`. A stop that reports a fork, an
    /// exec or an exit is passed over: the task is told to run again. Any
    /// other status ends the step as a protocol violation.
    pub open spec fn next(self, tracee: TraceeView, reply: Reply) -> (
        TraceeView,
        Progress<Step, ()>,
    ) {
        match self.phase {
            StepPhase::Resuming => if reply.resumed_spec() {
                (
                    tracee,
                    Progress::Pending(
                        Step { phase: StepPhase::Waiting, ..self },
                        Action::Wait { pid: tracee.pid },
                    ),
                )
            } else {
                (tracee, Progress::Failed(reply.unexpected_spec()))
            },
            StepPhase::Waiting => match reply {
                Reply::Status(WaitStatus::PtraceSyscall { .. }) => (
                    tracee,
                    Progress::Pending(
                        Step { phase: StepPhase::Reading, ..self },
                        Action::GetRegisters { pid: tracee.pid },
                    ),
                ),
                Reply::Status(WaitStatus::Exited { .. }) => (
                    TraceeView { state: State::Exited, ..tracee },
                    self.arrived_spec(State::Exited),
                ),
                Reply::Status(WaitStatus::PtraceEvent { .. }) => (
                    tracee,
                    Progress::Pending(
                        Step { phase: StepPhase::Resuming, ..self },
                        Action::Syscall { pid: tracee.pid },
                    ),
                ),
                _ => (tracee, Progress::Failed(reply.unexpected_spec())),
            },
            StepPhase::Reading => match reply {
                Reply::Registers(registers) => (
                    TraceeView { registers, state: self.landed_spec(registers), ..tracee },
                    self.arrived_spec(self.landed_spec(registers)),
                ),
                _ => (tracee, Progress::Failed(reply.unexpected_spec())),
            },
        }
    }

    fn arrived(self, state: State) -> (progress: Progress<Step, ()>)
        ensures
            progress == self.arrived_spec(state),
    {
        match (self.goal, state) {
            (StepGoal::Entry, State::BeforeSyscall) => Progress::Done(()),
            (StepGoal::Entry, _) => Progress::Failed(Error::ProtocolViolation),
            _ => Progress::Done(()),
        }
    }

    fn landed(self, registers: &Registers) -> (state: State)
        ensures
            state == self.landed_spec(*registers),
    {
        match self.goal {
            StepGoal::Exit => State::AfterSyscall,
            _ => State::observed(registers),
        }
    }

    /// Takes the answer to the step's last request.
    pub fn resume(self, tracee: &mut Tracee, reply: Reply) -> (progress: Progress<Step, ()>)
        ensures
            (final(tracee)@, progress) == self.next(old(tracee)@, reply),
    {
        match self.phase {
            StepPhase::Resuming => {
                if reply.resumed() {
                    Progress::Pending(
                        Step { goal: self.goal, phase: StepPhase::Waiting },
                        Action::Wait { pid: tracee.pid },
                    )
                } else {
                    Progress::Failed(reply.unexpected())
                }
            },
            StepPhase::Waiting => match reply {
                Reply::Status(WaitStatus::PtraceSyscall { .. }) => Progress::Pending(
                    Step { goal: self.goal, phase: StepPhase::Reading },
                    Action::GetRegisters { pid: tracee.pid },
                ),
                Reply::Status(WaitStatus::Exited { .. }) => {
                    tracee.state = State::Exited;
                    self.arrived(State::Exited)
                },
                Reply::Status(WaitStatus::PtraceEvent { .. }) => Progress::Pending(
                    Step { goal: self.goal, phase: StepPhase::Resuming },
                    Action::Syscall { pid: tracee.pid },
                ),
                other => Progress::Failed(other.unexpected()),
            },
            StepPhase::Reading => match reply {
                Reply::Registers(registers) => {
                    let state = self.landed(&registers);
                    tracee.registers = registers;
                    tracee.state = state;
                    self.arrived(state)
                },
                other => Progress::Failed(other.unexpected()),
            },
        }
    }
}

impl Tracee {
    /// A handle on a task that has stopped at a system call with these
    /// registers. It starts at the entry exactly when `rax` holds the entry
    /// marker, and owns no scratch memory.
    pub fn new(pid: i32, registers: Registers) -> (tracee: Tracee)
        ensures
            tracee.pid == pid,
            tracee.registers == registers,
            tracee.state == State::observed_spec(registers),
            tracee.state == State::BeforeSyscall <==> registers.rax == crate::registers::ENTRY_MARKER,
            tracee.allocations@ == Seq::<Memory>::empty(),
    {
        Tracee { pid, registers, state: State::observed(&registers), allocations: Vec::new() }
    }

    /// The task that the handle is bound to.
    pub fn pid(&self) -> (pid: i32)
        ensures
            pid == self.pid,
    {
        self.pid
    }

    /// The registers as last read or written.
    pub fn registers(&self) -> (registers: Registers)
        ensures
            registers == self.registers,
    {
        self.registers
    }

    /// How a step towards `goal` starts: by telling the task to run. A step
    /// to the exit starts only at the entry, and a step to the entry only
    /// at the exit.
    pub open spec fn step_spec(tracee: TraceeView, goal: StepGoal) -> Progress<Step, ()> {
        if (goal == StepGoal::Exit && tracee.state != State::BeforeSyscall) || (goal
            == StepGoal::Entry && tracee.state != State::AfterSyscall) {
            Progress::Failed(Error::ProtocolViolation)
        } else {
            Progress::Pending(
                Step { goal, phase: StepPhase::Resuming },
                Action::Syscall { pid: tracee.pid },
            )
        }
    }

    /// Lets the task run to its next stop, whatever the position.
    pub fn step_syscall_and_wait(&self) -> (progress: Progress<Step, ()>)
        ensures
            progress == Self::step_spec(self@, StepGoal::Boundary),
    {
        Progress::Pending(
            Step { goal: StepGoal::Boundary, phase: StepPhase::Resuming },
            Action::Syscall { pid: self.pid },
        )
    }

    /// Lets the kernel run the system call that the task has entered.
    pub fn step_over_syscall(&self) -> (progress: Progress<Step, ()>)
        ensures
            progress == Self::step_spec(self@, StepGoal::Exit),
    {
        match self.state {
            State::BeforeSyscall => Progress::Pending(
                Step { goal: StepGoal::Exit, phase: StepPhase::Resuming },
                Action::Syscall { pid: self.pid },
            ),
            _ => Progress::Failed(Error::ProtocolViolation),
        }
    }

    /// Lets the task run from the exit of a system call to the entry of the
    /// next.
    pub fn step_to_syscall(&self) -> (progress: Progress<Step, ()>)
        ensures
            progress == Self::step_spec(self@, StepGoal::Entry),
    {
        match self.state {
            State::AfterSyscall => Progress::Pending(
                Step { goal: StepGoal::Entry, phase: StepPhase::Resuming },
                Action::Syscall { pid: self.pid },
            ),
            _ => Progress::Failed(Error::ProtocolViolation),
        }
    }
}

/// A write of the task's registers, in progress.
#[derive(Copy, Clone, Debug, PartialEq, Eq, Structural)]
pub struct SetRegisters {
    pub registers: Registers,
}

impl SetRegisters {
    /// Once the kernel has taken the registers, the handle holds them too;
    /// where it has not, the handle is unchanged.
    pub open spec fn next(self, tracee: TraceeView, reply: Reply) -> (
        TraceeView,
        Progress<SetRegisters, ()>,
    ) {
        match reply {
            Reply::Done => (TraceeView { registers: self.registers, ..tracee }, Progress::Done(())),
            _ => (tracee, Progress::Failed(reply.unexpected_spec())),
        }
    }

    /// Takes the answer to the write.
    pub fn resume(self, tracee: &mut Tracee, reply: Reply) -> (progress: Progress<
        SetRegisters,
        (),
    >)
        ensures
            (final(tracee)@, progress) == self.next(old(tracee)@, reply),
    {
        match reply {
            Reply::Done => {
                tracee.registers = self.registers;
                Progress::Done(())
            },
            other => Progress::Failed(other.unexpected()),
        }
    }
}

/// A read of what the system call returned, in progress: the task is being
/// stepped to the exit of the call.
#[derive(Copy, Clone, Debug, PartialEq, Eq, Structural)]
pub struct GetResult {
    pub step: Step,
}

impl GetResult {
    /// What `rax` holds, read as a return value.
    pub open spec fn outcome(tracee: TraceeView) -> OperationResult {
        Operation::result_spec(tracee.registers.rax as i64)
    }

    /// The step goes on; when it ends, the result is read from the
    /// registers as the handle then holds them.
    pub open spec fn next(self, tracee: TraceeView, reply: Reply) -> (
        TraceeView,
        Progress<GetResult, OperationResult>,
    ) {
        let (after, progress) = self.step.next(tracee, reply);
        match progress {
            Progress::Pending(step, action) => (
                after,
                Progress::Pending(GetResult { step }, action),
            ),
            Progress::Done(_) => (after, Progress::Done(Self::outcome(after))),
            Progress::Failed(error) => (after, Progress::Failed(error)),
        }
    }

    /// Takes the answer to the last request.
    pub fn resume(self, tracee: &mut Tracee, reply: Reply) -> (progress: Progress<
        GetResult,
        OperationResult,
    >)
        ensures
            (final(tracee)@, progress) == self.next(old(tracee)@, reply),
    {
        match self.step.resume(tracee, reply) {
            Progress::Pending(step, action) => Progress::Pending(GetResult { step }, action),
            Progress::Done(_) => Progress::Done(tracee.result()),
            Progress::Failed(error) => Progress::Failed(error),
        }
    }
}

impl Tracee {
    fn result(&self) -> (result: OperationResult)
        ensures
            result == GetResult::outcome(self@),
    {
        let retval: i64 = #[verifier::truncate]
        (self.registers.rax as i64);
        Operation::result(retval)
    }

    /// A write of registers starts with the request to the kernel.
    pub open spec fn set_registers_spec(tracee: TraceeView, registers: Registers) -> Progress<
        SetRegisters,
        (),
    > {
        Progress::Pending(
            SetRegisters { registers },
            Action::SetRegisters { pid: tracee.pid, registers },
        )
    }

    /// Replacing an argument writes the registers with that argument
    /// replaced; there are six arguments.
    pub open spec fn set_arg_spec(tracee: TraceeView, index: u8, value: u64) -> Progress<
        SetRegisters,
        (),
    > {
        if 1 <= index <= 6 {
            Self::set_registers_spec(tracee, tracee.registers.with_arg_spec(index, value))
        } else {
            Progress::Failed(Error::InvalidInput)
        }
    }

    /// Reading the result: at the exit it is at hand; at the entry the
    /// task is stepped over the call first; of a task that is gone there is
    /// none.
    pub open spec fn get_result_spec(tracee: TraceeView) -> Progress<GetResult, OperationResult> {
        match tracee.state {
            State::BeforeSyscall => Progress::Pending(
                GetResult { step: Step { goal: StepGoal::Exit, phase: StepPhase::Resuming } },
                Action::Syscall { pid: tracee.pid },
            ),
            State::AfterSyscall => Progress::Done(GetResult::outcome(tracee)),
            State::Exited => Progress::Failed(Error::ProtocolViolation),
        }
    }

    /// Writes the task's registers.
    pub fn set_registers(&self, registers: Registers) -> (progress: Progress<SetRegisters, ()>)
        ensures
            progress == Self::set_registers_spec(self@, registers),
    {
        Progress::Pending(
            SetRegisters { registers },
            Action::SetRegisters { pid: self.pid, registers },
        )
    }

    /// Replaces the `index`-th argument of the system call, counted from 1.
    pub fn set_arg(&self, index: u8, value: u64) -> (progress: Progress<SetRegisters, ()>)
        ensures
            progress == Self::set_arg_spec(self@, index, value),
    {
        match self.registers.with_arg(index, value) {
            Some(registers) => self.set_registers(registers),
            None => Progress::Failed(Error::InvalidInput),
        }
    }

    /// Replaces what the system call returns.
    pub fn set_result(&self, result: u64) -> (progress: Progress<SetRegisters, ()>)
        ensures
            progress == Self::set_registers_spec(self@, self@.registers.with_result_spec(result)),
    {
        self.set_registers(self.registers.with_result(result))
    }

    /// Reads what the system call returned, after letting the kernel run
    /// it where it has not yet.
    pub fn get_result(&self) -> (progress: Progress<GetResult, OperationResult>)
        ensures
            progress == Self::get_result_spec(self@),
    {
        match self.state {
            State::BeforeSyscall => Progress::Pending(
                GetResult { step: Step { goal: StepGoal::Exit, phase: StepPhase::Resuming } },
                Action::Syscall { pid: self.pid },
            ),
            State::AfterSyscall => Progress::Done(self.result()),
            State::Exited => Progress::Failed(Error::ProtocolViolation),
        }
    }
}

/// Whenever a step ends at the entry of a system call, `rax` holds the entry
/// marker; a stop that is not the exit of the call that was stepped over is
/// an entry exactly when `rax` holds the marker. A step to the exit never
/// ends at an entry, and a step to the entry ends nowhere else.
pub proof fn lemma_step_position(step: Step, tracee: TraceeView, reply: Reply)
    requires
        step.next(tracee, reply).1 is Done,
    ensures
        step.next(tracee, reply).0.state == State::BeforeSyscall ==> step.next(
            tracee,
            reply,
        ).0.registers.rax == crate::registers::ENTRY_MARKER,
        step.phase == StepPhase::Reading && step.goal != StepGoal::Exit && step.next(
            tracee,
            reply,
        ).0.registers.rax == crate::registers::ENTRY_MARKER ==> step.next(tracee, reply).0.state
            == State::BeforeSyscall,
        step.goal == StepGoal::Exit ==> step.next(tracee, reply).0.state != State::BeforeSyscall,
        step.goal == StepGoal::Entry ==> step.next(tracee, reply).0.state == State::BeforeSyscall,
{
}

/// A step and a read of a result ask for nothing but to step the task of
/// their handle, and the handle stays with its task and its scratch
/// regions.
pub proof fn lemma_step_requests(step: Step, tracee: TraceeView, reply: Reply)
    ensures
        step.next(tracee, reply).1.steps(tracee.pid),
        step.next(tracee, reply).0.pid == tracee.pid,
        step.next(tracee, reply).0.allocations == tracee.allocations,
        (GetResult { step }).next(tracee, reply).1.steps(tracee.pid),
        (GetResult { step }).next(tracee, reply).0 == step.next(tracee, reply).0,
{
}

/// Steps, reads of results and writes of registers start with nothing but
/// a request that steps the task of their handle.
pub proof fn lemma_handle_requests(tracee: TraceeView)
    ensures
        forall|goal: StepGoal| #[trigger] Tracee::step_spec(tracee, goal).steps(tracee.pid),
        Tracee::get_result_spec(tracee).steps(tracee.pid),
        forall|registers: Registers| #[trigger]
            Tracee::set_registers_spec(tracee, registers).steps(tracee.pid),
        forall|index: u8, value: u64| #[trigger]
            Tracee::set_arg_spec(tracee, index, value).steps(tracee.pid),
{
}

} // verus!

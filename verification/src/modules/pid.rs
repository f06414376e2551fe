use crate::error::Error;
use crate::kernel::{Action, Progress, Reply};
use crate::recorder::PIDRecord;
use crate::syscall::SysNum;
use crate::tracer::operation::OperationResult;
use crate::tracer::tracee::{GetResult, SetRegisters, Tracee, TraceeView};
use vstd::prelude::*;

verus! {

/// What the tracee is told of who it is.
#[derive(Copy, Clone, Debug, PartialEq, Eq, Structural)]
pub struct PIDManager {
    pid: Option<u32>,
}

/// Where the handling of one identity query stands.
#[derive(Copy, Clone, Debug, PartialEq, Eq, Structural)]
pub enum PidStage {
    /// The result is being read.
    Observing(GetResult),
    /// The result is being replaced; `value` is what the kernel answered.
    Setting { set: SetRegisters, value: i32 },
}

/// The handling of one identity query, in progress.
#[derive(Copy, Clone, Debug, PartialEq, Eq, Structural)]
pub struct PidTask {
    /// The process id to report, if one is configured.
    pub pid: Option<u32>,
    /// The query.
    pub num: SysNum,
    pub stage: PidStage,
}

impl PidTask {
    /// The record of a query: what the kernel answered.
    pub open spec fn record_spec(value: i32) -> PIDRecord {
        PIDRecord { pid: value as u32 }
    }

    /// What follows once the kernel's answer is known. An errno ends the
    /// handling as a violation: these queries do not fail. Where a process
    /// id is configured and the query is `getpid`, the answer is replaced by
    /// it; no other query is touched. The record holds the kernel's answer
    /// either way.
    pub open spec fn answer_spec(
        configured: Option<u32>,
        num: SysNum,
        tracee: TraceeView,
        result: OperationResult,
    ) -> Progress<PidTask, PIDRecord> {
        match result {
            OperationResult::Error(_) => Progress::Failed(Error::ProtocolViolation),
            OperationResult::Success(value) => match configured {
                Some(pid) if num == SysNum::GetPID => Progress::Pending(
                    PidTask {
                        pid: configured,
                        num,
                        stage: PidStage::Setting {
                            set: SetRegisters {
                                registers: tracee.registers.with_result_spec(pid as u64),
                            },
                            value,
                        },
                    },
                    Action::SetRegisters {
                        pid: tracee.pid,
                        registers: tracee.registers.with_result_spec(pid as u64),
                    },
                ),
                _ => Progress::Done(Self::record_spec(value)),
            },
        }
    }

    /// The handling after an answer.
    pub open spec fn next(self, tracee: TraceeView, reply: Reply) -> (
        TraceeView,
        Progress<PidTask, PIDRecord>,
    ) {
        match self.stage {
            PidStage::Observing(get) => {
                let (after, progress) = get.next(tracee, reply);
                match progress {
                    Progress::Pending(get, action) => (
                        after,
                        Progress::Pending(
                            PidTask { stage: PidStage::Observing(get), ..self },
                            action,
                        ),
                    ),
                    Progress::Done(result) => (
                        after,
                        Self::answer_spec(self.pid, self.num, after, result),
                    ),
                    Progress::Failed(error) => (after, Progress::Failed(error)),
                }
            },
            PidStage::Setting { set, value } => {
                let (after, progress) = set.next(tracee, reply);
                match progress {
                    Progress::Done(_) => (after, Progress::Done(Self::record_spec(value))),
                    Progress::Failed(error) => (after, Progress::Failed(error)),
                    Progress::Pending(_, _) => (after, Progress::Failed(Error::ProtocolViolation)),
                }
            },
        }
    }

    fn record(value: i32) -> (record: PIDRecord)
        ensures
            record == Self::record_spec(value),
    {
        PIDRecord {
            pid: #[verifier::truncate]
            (value as u32),
        }
    }

    fn answer(configured: Option<u32>, num: SysNum, tracee: &Tracee, result: OperationResult) -> (progress:
        Progress<PidTask, PIDRecord>)
        ensures
            progress == Self::answer_spec(configured, num, tracee@, result),
    {
        match result {
            OperationResult::Error(_) => Progress::Failed(Error::ProtocolViolation),
            OperationResult::Success(value) => {
                match configured {
                    Some(pid) => {
                        if num == SysNum::GetPID {
                            let registers = tracee.registers.with_result(pid as u64);
                            return Progress::Pending(
                                PidTask {
                                    pid: configured,
                                    num,
                                    stage: PidStage::Setting {
                                        set: SetRegisters { registers },
                                        value,
                                    },
                                },
                                Action::SetRegisters { pid: tracee.pid, registers },
                            );
                        }
                    },
                    None => {},
                }
                Progress::Done(Self::record(value))
            },
        }
    }

    /// Takes the answer to the last request.
    pub fn resume(self, tracee: &mut Tracee, reply: Reply) -> (progress: Progress<
        PidTask,
        PIDRecord,
    >)
        ensures
            (final(tracee)@, progress) == self.next(old(tracee)@, reply),
    {
        match self.stage {
            PidStage::Observing(get) => match get.resume(tracee, reply) {
                Progress::Pending(get, action) => Progress::Pending(
                    PidTask { pid: self.pid, num: self.num, stage: PidStage::Observing(get) },
                    action,
                ),
                Progress::Done(result) => Self::answer(self.pid, self.num, tracee, result),
                Progress::Failed(error) => Progress::Failed(error),
            },
            PidStage::Setting { set, value } => match set.resume(tracee, reply) {
                Progress::Done(_) => Progress::Done(Self::record(value)),
                Progress::Failed(error) => Progress::Failed(error),
                Progress::Pending(_, _) => Progress::Failed(Error::ProtocolViolation),
            },
        }
    }
}

impl PIDManager {
    /// The process id to report, if one is configured.
    pub closed spec fn pid(&self) -> Option<u32> {
        self.pid
    }

    /// How the handling of a query starts: with the read of its result.
    pub open spec fn process_spec(pid: Option<u32>, tracee: TraceeView, num: SysNum) -> Progress<
        PidTask,
        PIDRecord,
    > {
        match Tracee::get_result_spec(tracee) {
            Progress::Pending(get, action) => Progress::Pending(
                PidTask { pid, num, stage: PidStage::Observing(get) },
                action,
            ),
            Progress::Done(result) => PidTask::answer_spec(pid, num, tracee, result),
            Progress::Failed(error) => Progress::Failed(error),
        }
    }

    /// A handler that reports `pid` for the process id, where one is given.
    pub fn new(pid: Option<u32>) -> (manager: PIDManager)
        ensures
            manager.pid() == pid,
    {
        PIDManager { pid }
    }

    /// Handles an identity query of the task.
    pub fn process(&self, tracee: &Tracee, num: SysNum) -> (progress: Progress<PidTask, PIDRecord>)
        ensures
            progress == Self::process_spec(self.pid(), tracee@, num),
    {
        match tracee.get_result() {
            Progress::Pending(get, action) => Progress::Pending(
                PidTask { pid: self.pid, num, stage: PidStage::Observing(get) },
                action,
            ),
            Progress::Done(result) => PidTask::answer(self.pid, num, tracee, result),
            Progress::Failed(error) => Progress::Failed(error),
        }
    }
}

/// Only `getpid` is ever answered for, and only where a process id is
/// configured: the handling of any other query, and all handling without a
/// configured id, writes no registers. What is written then is the
/// configured id in `rax`, with every other register as it was. The record
/// holds what the kernel answered.
pub proof fn lemma_pid_override(
    configured: Option<u32>,
    num: SysNum,
    tracee: TraceeView,
    result: OperationResult,
)
    ensures
        PidTask::answer_spec(configured, num, tracee, result) is Pending <==> result is Success
            && configured is Some && num == SysNum::GetPID,
        PidTask::answer_spec(configured, num, tracee, result) matches Progress::Pending(_, action)
            ==> action == (Action::SetRegisters {
            pid: tracee.pid,
            registers: crate::registers::Registers {
                rax: configured->0 as u64,
                ..tracee.registers
            },
        }),
        PidTask::answer_spec(configured, num, tracee, result) matches Progress::Done(record)
            ==> result matches OperationResult::Success(value) && record.pid == value as u32,
{
}

/// The handling of an identity query asks for nothing but to step the
/// task.
pub proof fn lemma_pid_requests(task: PidTask, tracee: TraceeView, reply: Reply)
    ensures
        task.next(tracee, reply).0.pid == tracee.pid,
        task.next(tracee, reply).1.steps(tracee.pid),
{
    match task.stage {
        PidStage::Observing(get) => {
            crate::tracer::tracee::lemma_step_requests(get.step, tracee, reply);
        },
        PidStage::Setting { .. } => {},
    }
}

} // verus!

use intercept::kernel::{Action, Progress, Reply, WaitStatus, ESRCH};
use intercept::registers::{Registers, ENTRY_MARKER};
use intercept::tracer::tracee::{
    GetResult, SetRegisters, State, Step, StepGoal, StepPhase, Tracee,
};
use intercept::tracer::OperationResult;
use intercept::Error;
use nix::libc;

fn at_entry() -> Registers {
    Registers { rax: ENTRY_MARKER, orig_rax: 39, rip: 0x4000, ..Registers::zeroed() }
}

fn at_exit(result: u64) -> Registers {
    Registers { rax: result, orig_rax: 39, rip: 0x4000, ..Registers::zeroed() }
}

fn pending_step(progress: Progress<Step, ()>) -> (Step, Action) {
    match progress {
        Progress::Pending(step, action) => (step, action),
        other => panic!("the step ended: {:?}", other),
    }
}

#[test]
fn esrch_agrees_with_libc() {
    assert_eq!(ESRCH, libc::ESRCH);
}

#[test]
fn a_handle_starts_at_the_entry_exactly_on_the_marker() {
    let before = Tracee::new(7, at_entry());
    assert_eq!(before.state, State::BeforeSyscall);
    assert_eq!(before.pid(), 7);
    assert_eq!(before.registers(), at_entry());
    assert!(before.allocations.is_empty());
    assert_eq!(Tracee::new(7, at_exit(0)).state, State::AfterSyscall);
    assert_eq!(Tracee::new(7, at_exit(ENTRY_MARKER + 1)).state, State::AfterSyscall);
    assert_eq!(Tracee::new(7, at_exit(0xffff_ffda)).state, State::AfterSyscall);
}

#[test]
fn a_step_runs_waits_and_reads_registers() {
    let mut tracee = Tracee::new(7, at_entry());
    let (step, action) = pending_step(tracee.step_over_syscall());
    assert_eq!(action, Action::Syscall { pid: 7 });
    assert_eq!(step, Step { goal: StepGoal::Exit, phase: StepPhase::Resuming });
    let (step, action) = pending_step(step.resume(&mut tracee, Reply::Done));
    assert_eq!(action, Action::Wait { pid: 7 });
    let (step, action) =
        pending_step(step.resume(&mut tracee, Reply::Status(WaitStatus::PtraceSyscall { pid: 7 })));
    assert_eq!(action, Action::GetRegisters { pid: 7 });
    assert_eq!(tracee.state, State::BeforeSyscall);
    let done = step.resume(&mut tracee, Reply::Registers(at_exit(1234)));
    assert_eq!(done, Progress::Done(()));
    assert_eq!(tracee.state, State::AfterSyscall);
    assert_eq!(tracee.registers, at_exit(1234));
}

#[test]
fn a_step_to_the_entry_ends_on_the_marker() {
    let mut tracee = Tracee::new(7, at_exit(0));
    let (step, _) = pending_step(tracee.step_to_syscall());
    let (step, _) = pending_step(step.resume(&mut tracee, Reply::Done));
    let (step, _) =
        pending_step(step.resume(&mut tracee, Reply::Status(WaitStatus::PtraceSyscall { pid: 7 })));
    assert_eq!(step.resume(&mut tracee, Reply::Registers(at_entry())), Progress::Done(()));
    assert_eq!(tracee.state, State::BeforeSyscall);
    assert_eq!(tracee.registers.rax, ENTRY_MARKER);
}

#[test]
fn a_step_from_the_wrong_position_is_a_violation() {
    let before = Tracee::new(7, at_entry());
    let after = Tracee::new(7, at_exit(0));
    assert_eq!(after.step_over_syscall(), Progress::Failed(Error::ProtocolViolation));
    assert_eq!(before.step_to_syscall(), Progress::Failed(Error::ProtocolViolation));
    let gone = Tracee { state: State::Exited, ..Tracee::new(7, at_exit(0)) };
    assert_eq!(gone.step_over_syscall(), Progress::Failed(Error::ProtocolViolation));
    assert_eq!(gone.step_to_syscall(), Progress::Failed(Error::ProtocolViolation));
    let (step, _) = pending_step(gone.step_syscall_and_wait());
    assert_eq!(step.goal, StepGoal::Boundary);
}

#[test]
fn a_call_may_return_the_errno_of_the_marker() {
    let mut tracee = Tracee::new(7, at_entry());
    let step = Step { goal: StepGoal::Exit, phase: StepPhase::Reading };
    assert_eq!(step.resume(&mut tracee, Reply::Registers(at_entry())), Progress::Done(()));
    assert_eq!(tracee.state, State::AfterSyscall);
    assert_eq!(tracee.get_result(), Progress::Done(OperationResult::Error(libc::ENOSYS)));
}

#[test]
fn a_step_to_an_entry_that_arrives_elsewhere_is_a_violation() {
    let mut tracee = Tracee::new(7, at_exit(0));
    let step = Step { goal: StepGoal::Entry, phase: StepPhase::Reading };
    assert_eq!(
        step.resume(&mut tracee, Reply::Registers(at_exit(5))),
        Progress::Failed(Error::ProtocolViolation)
    );
    assert_eq!(tracee.registers, at_exit(5));
    let step = Step { goal: StepGoal::Boundary, phase: StepPhase::Reading };
    assert_eq!(step.resume(&mut tracee, Reply::Registers(at_exit(6))), Progress::Done(()));
}

#[test]
fn a_task_that_is_gone_may_still_be_waited_for() {
    let mut tracee = Tracee::new(7, at_entry());
    let (step, _) = pending_step(tracee.step_over_syscall());
    let (step, action) = pending_step(step.resume(&mut tracee, Reply::Failed(ESRCH)));
    assert_eq!(action, Action::Wait { pid: 7 });
    let done = step.resume(&mut tracee, Reply::Status(WaitStatus::Exited { pid: 7, code: 0 }));
    assert_eq!(done, Progress::Done(()));
    assert_eq!(tracee.state, State::Exited);
}

#[test]
fn an_exit_does_not_end_a_step_to_an_entry() {
    let mut tracee = Tracee::new(7, at_exit(0));
    let step = Step { goal: StepGoal::Entry, phase: StepPhase::Waiting };
    let done = step.resume(&mut tracee, Reply::Status(WaitStatus::Exited { pid: 7, code: 1 }));
    assert_eq!(done, Progress::Failed(Error::ProtocolViolation));
    assert_eq!(tracee.state, State::Exited);
}

#[test]
fn a_failed_resume_ends_the_step() {
    let mut tracee = Tracee::new(7, at_entry());
    let (step, _) = pending_step(tracee.step_over_syscall());
    assert_eq!(
        step.resume(&mut tracee, Reply::Failed(libc::EPERM)),
        Progress::Failed(Error::Io(libc::EPERM))
    );
    assert_eq!(step.resume(&mut tracee, Reply::Word(0)), Progress::Failed(Error::ProtocolViolation));
}

#[test]
fn events_are_passed_over() {
    let mut tracee = Tracee::new(7, at_entry());
    let step = Step { goal: StepGoal::Exit, phase: StepPhase::Waiting };
    let (step, action) = pending_step(
        step.resume(&mut tracee, Reply::Status(WaitStatus::PtraceEvent { pid: 7, event: 4 })),
    );
    assert_eq!(action, Action::Syscall { pid: 7 });
    assert_eq!(step, Step { goal: StepGoal::Exit, phase: StepPhase::Resuming });
    assert_eq!(tracee.state, State::BeforeSyscall);
}

#[test]
fn any_other_status_is_a_violation() {
    let mut tracee = Tracee::new(7, at_entry());
    let step = Step { goal: StepGoal::Exit, phase: StepPhase::Waiting };
    assert_eq!(
        step.resume(&mut tracee, Reply::Status(WaitStatus::Stopped { pid: 7 })),
        Progress::Failed(Error::ProtocolViolation)
    );
    assert_eq!(
        step.resume(&mut tracee, Reply::Status(WaitStatus::Other)),
        Progress::Failed(Error::ProtocolViolation)
    );
    assert_eq!(
        step.resume(&mut tracee, Reply::Failed(libc::ECHILD)),
        Progress::Failed(Error::Io(libc::ECHILD))
    );
    assert_eq!(step.resume(&mut tracee, Reply::Done), Progress::Failed(Error::ProtocolViolation));
}

#[test]
fn registers_are_held_once_the_kernel_has_them() {
    let mut tracee = Tracee::new(7, at_entry());
    let wanted = Registers { rdi: 99, ..at_entry() };
    let (set, action) = match tracee.set_registers(wanted) {
        Progress::Pending(set, action) => (set, action),
        other => panic!("{:?}", other),
    };
    assert_eq!(action, Action::SetRegisters { pid: 7, registers: wanted });
    assert_eq!(tracee.registers, at_entry());
    assert_eq!(set.resume(&mut tracee, Reply::Failed(libc::ESRCH)), Progress::Failed(Error::Io(3)));
    assert_eq!(tracee.registers, at_entry());
    assert_eq!(set.resume(&mut tracee, Reply::Done), Progress::Done(()));
    assert_eq!(tracee.registers, wanted);
}

#[test]
fn set_arg_writes_the_abi_register() {
    let tracee = Tracee::new(7, at_entry());
    for (index, expected) in [
        (1u8, Registers { rdi: 5, ..at_entry() }),
        (2, Registers { rsi: 5, ..at_entry() }),
        (3, Registers { rdx: 5, ..at_entry() }),
        (4, Registers { r10: 5, ..at_entry() }),
        (5, Registers { r8: 5, ..at_entry() }),
        (6, Registers { r9: 5, ..at_entry() }),
    ] {
        assert_eq!(
            tracee.set_arg(index, 5),
            Progress::Pending(
                SetRegisters { registers: expected },
                Action::SetRegisters { pid: 7, registers: expected }
            )
        );
    }
}

#[test]
fn set_arg_refuses_other_indices() {
    let tracee = Tracee::new(7, at_entry());
    assert_eq!(tracee.set_arg(0, 5), Progress::Failed(Error::InvalidInput));
    assert_eq!(tracee.set_arg(7, 5), Progress::Failed(Error::InvalidInput));
}

#[test]
fn set_result_writes_rax() {
    let tracee = Tracee::new(7, at_exit(3));
    let expected = Registers { rax: 16, ..at_exit(3) };
    assert_eq!(
        tracee.set_result(16),
        Progress::Pending(
            SetRegisters { registers: expected },
            Action::SetRegisters { pid: 7, registers: expected }
        )
    );
}

#[test]
fn the_result_is_at_hand_at_the_exit() {
    assert_eq!(
        Tracee::new(7, at_exit(3)).get_result(),
        Progress::Done(OperationResult::Success(3))
    );
    assert_eq!(
        Tracee::new(7, at_exit((-2i64) as u64)).get_result(),
        Progress::Done(OperationResult::Error(libc::ENOENT))
    );
}

#[test]
fn the_result_of_a_task_that_is_gone_is_a_violation() {
    let gone = Tracee { state: State::Exited, ..Tracee::new(7, at_exit(0)) };
    assert_eq!(gone.get_result(), Progress::Failed(Error::ProtocolViolation));
}

#[test]
fn at_the_entry_the_result_needs_a_step() {
    let mut tracee = Tracee::new(7, at_entry());
    let (get, action) = match tracee.get_result() {
        Progress::Pending(get, action) => (get, action),
        other => panic!("{:?}", other),
    };
    assert_eq!(action, Action::Syscall { pid: 7 });
    assert_eq!(get, GetResult { step: Step { goal: StepGoal::Exit, phase: StepPhase::Resuming } });
    let get = match get.resume(&mut tracee, Reply::Done) {
        Progress::Pending(get, Action::Wait { pid: 7 }) => get,
        other => panic!("{:?}", other),
    };
    let get = match get.resume(&mut tracee, Reply::Status(WaitStatus::PtraceSyscall { pid: 7 })) {
        Progress::Pending(get, Action::GetRegisters { pid: 7 }) => get,
        other => panic!("{:?}", other),
    };
    assert_eq!(
        get.resume(&mut tracee, Reply::Registers(at_exit((-13i64) as u64))),
        Progress::Done(OperationResult::Error(libc::EACCES))
    );
    assert_eq!(tracee.state, State::AfterSyscall);
}

#[test]
fn a_task_that_exits_in_the_call_leaves_the_old_registers() {
    let mut tracee = Tracee::new(7, at_entry());
    let get = GetResult { step: Step { goal: StepGoal::Exit, phase: StepPhase::Waiting } };
    assert_eq!(
        get.resume(&mut tracee, Reply::Status(WaitStatus::Exited { pid: 7, code: 0 })),
        Progress::Done(OperationResult::Error(libc::ENOSYS))
    );
    assert_eq!(tracee.state, State::Exited);
}

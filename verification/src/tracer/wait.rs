use crate::error::Error;
use crate::kernel::{Action, Progress, Reply, WaitStatus, CHUNK};
use crate::registers::Registers;
use crate::tracer::inject::Release;
use crate::tracer::memory::{ReadOutcome, ReadString};
use crate::tracer::operation::Operation;
use crate::tracer::tracee::{Memory, State, Tracee, TraceeView};
use crate::tracer::vdso::DisableVdso;
use vstd::prelude::*;

verus! {

/// Where the wait for the next system call to act on stands.
#[derive(Debug, PartialEq, Eq)]
pub enum WaitStage {
    /// Any task of the session is being waited for.
    Waiting,
    /// A task stopped at a system call, and its registers are being read.
    Fetching { pid: i32 },
    /// The task has entered an open, and the path is being read.
    Decoding { pid: i32, registers: Registers, read: ReadString },
    /// A handle that is not passed on is being released. Then the wait goes
    /// on, or ends with `error`.
    Releasing { pid: i32, registers: Registers, release: Release, error: Option<Error> },
    /// A task that reported an event, or a new task, was told to run.
    Passing,
    /// A new task is being set up for tracing.
    Configuring { pid: i32 },
    /// The registers of a new task are being read, for its stack pointer.
    Inspecting { pid: i32 },
    /// The vDSO of a new task is being taken out of its sight.
    Suppressing { pid: i32, registers: Registers, search: DisableVdso },
}

/// The wait for the next system call that the engine acts on, in progress.
#[derive(Debug, PartialEq, Eq)]
pub struct Wait {
    /// The task that the trace started with.
    pub parent: i32,
    /// Whether new tasks are kept from answering time queries without the
    /// kernel.
    pub disable_vdso: bool,
    pub stage: WaitStage,
}

impl Wait {
    /// A handle as it is when it is made for a stop.
    pub open spec fn fresh(pid: i32, registers: Registers) -> TraceeView {
        TraceeView {
            pid,
            registers,
            state: State::observed_spec(registers),
            allocations: Seq::<Memory>::empty(),
        }
    }

    /// The wait goes on for the next stop.
    pub open spec fn again_spec(self) -> Progress<Wait, Option<(Tracee, Operation)>> {
        Progress::Pending(
            Wait { stage: WaitStage::Waiting, ..self },
            Action::WaitSession { parent: self.parent },
        )
    }

    /// A handle that is not passed on is released, which lets its task
    /// run.
    pub open spec fn drop_spec(self, pid: i32, registers: Registers, error: Option<Error>) -> Progress<
        Wait,
        Option<(Tracee, Operation)>,
    > {
        match Release::begin_spec(Self::fresh(pid, registers)) {
            Progress::Pending(release, action) => Progress::Pending(
                Wait { stage: WaitStage::Releasing { pid, registers, release, error }, ..self },
                action,
            ),
            Progress::Done(_) => Progress::Failed(Error::ProtocolViolation),
            Progress::Failed(failure) => Progress::Failed(failure),
        }
    }

    /// The path of a decoded open, where the wait ends with one.
    pub open spec fn path_of(progress: Progress<Wait, Option<(Tracee, Operation)>>) -> String {
        match progress {
            Progress::Done(Some((_, Operation::Open { path, .. }))) => path,
            _ => arbitrary(),
        }
    }

    /// Whether `progress` is what follows once the system call of a stop is
    /// decoded, with `text` for the path where it is an open. A call that
    /// the engine acts on ends the wait: the handle and the operation are
    /// handed out. A fork, a wait, an exit and every call that the engine
    /// does not know are passed over.
    pub open spec fn decoded(
        self,
        pid: i32,
        registers: Registers,
        text: Seq<char>,
        progress: Progress<Wait, Option<(Tracee, Operation)>>,
    ) -> bool {
        let operation = Operation::parse_spec(registers, Self::path_of(progress));
        if operation is Some && operation->0.dispatched_spec() {
            &&& progress matches Progress::Done(Some((tracee, found)))
            &&& tracee@ == Self::fresh(pid, registers)
            &&& Some(found) == operation
            &&& found matches Operation::Open { path, .. } ==> path@ == text
        } else {
            progress == self.drop_spec(pid, registers, None)
        }
    }

    /// Whether `progress` is what follows once the registers of a stop are
    /// known. A stop at an exit belongs to a call whose entry was passed
    /// over, and is passed over too. At an entry, the path of an open is
    /// read first, and any other call is decoded at once. An `openat` that
    /// does not resolve against the current directory ends the wait as a
    /// violation.
    pub open spec fn fetched(
        self,
        pid: i32,
        registers: Registers,
        progress: Progress<Wait, Option<(Tracee, Operation)>>,
    ) -> bool {
        if State::observed_spec(registers) == State::AfterSyscall {
            progress == self.drop_spec(pid, registers, None)
        } else if !Operation::supported(registers) {
            progress == self.drop_spec(pid, registers, Some(Error::ProtocolViolation))
        } else {
            match Operation::pathname_spec(registers) {
                Some(addr) => {
                    &&& progress matches Progress::Pending(
                        Wait {
                            parent,
                            disable_vdso,
                            stage: WaitStage::Decoding { pid: task, registers: kept, read },
                        },
                        action,
                    )
                    &&& parent == self.parent
                    &&& disable_vdso == self.disable_vdso
                    &&& task == pid
                    &&& kept == registers
                    &&& read.addr == addr
                    &&& read.text@ == Seq::<char>::empty()
                    &&& action == (Action::ReadSome { pid, addr, len: CHUNK })
                },
                None => self.decoded(pid, registers, Seq::empty(), progress),
            }
        }
    }

    /// Whether `progress` is what follows a chunk of the path.
    pub open spec fn read(
        self,
        pid: i32,
        registers: Registers,
        outcome: ReadOutcome,
        progress: Progress<Wait, Option<(Tracee, Operation)>>,
    ) -> bool {
        match outcome {
            ReadOutcome::More { addr, text } => {
                &&& progress matches Progress::Pending(
                    Wait {
                        parent,
                        disable_vdso,
                        stage: WaitStage::Decoding { pid: task, registers: kept, read },
                    },
                    action,
                )
                &&& parent == self.parent
                &&& disable_vdso == self.disable_vdso
                &&& task == pid
                &&& kept == registers
                &&& read.addr == addr
                &&& read.text@ == text
                &&& action == (Action::ReadSome { pid, addr, len: CHUNK })
            },
            ReadOutcome::Complete { text } => self.decoded(pid, registers, text, progress),
            ReadOutcome::Failure { error } => progress == self.drop_spec(
                pid,
                registers,
                Some(error),
            ),
        }
    }

    /// Whether `progress` is what follows an answer.
    ///
    /// The exit of the task that the trace started with ends the wait with
    /// nothing; the exit of any other task is passed over. A task that
    /// reports an event is told to run. A task that stops on a signal is
    /// new: it is set up for tracing, its vDSO is taken out of its sight
    /// where that is asked for, and it is told to run. Any other status ends
    /// the wait as a violation, and a request that fails ends it with the
    /// errno.
    pub open spec fn accepts(
        self,
        reply: Reply,
        progress: Progress<Wait, Option<(Tracee, Operation)>>,
    ) -> bool {
        match self.stage {
            WaitStage::Waiting => match reply {
                Reply::Status(WaitStatus::Exited { pid, .. }) => if pid == self.parent {
                    progress == Progress::<Wait, Option<(Tracee, Operation)>>::Done(None)
                } else {
                    progress == self.again_spec()
                },
                Reply::Status(WaitStatus::PtraceSyscall { pid }) => progress == Progress::<
                    Wait,
                    Option<(Tracee, Operation)>,
                >::Pending(
                    Wait { stage: WaitStage::Fetching { pid }, ..self },
                    Action::GetRegisters { pid },
                ),
                Reply::Status(WaitStatus::PtraceEvent { pid, .. }) => progress == Progress::<
                    Wait,
                    Option<(Tracee, Operation)>,
                >::Pending(Wait { stage: WaitStage::Passing, ..self }, Action::Syscall { pid }),
                Reply::Status(WaitStatus::Stopped { pid }) => progress == Progress::<
                    Wait,
                    Option<(Tracee, Operation)>,
                >::Pending(
                    Wait { stage: WaitStage::Configuring { pid }, ..self },
                    Action::SetOptions { pid },
                ),
                _ => progress == Progress::<Wait, Option<(Tracee, Operation)>>::Failed(
                    reply.unexpected_spec(),
                ),
            },
            WaitStage::Fetching { pid } => match reply {
                Reply::Registers(registers) => self.fetched(pid, registers, progress),
                _ => progress == Progress::<Wait, Option<(Tracee, Operation)>>::Failed(
                    reply.unexpected_spec(),
                ),
            },
            WaitStage::Decoding { pid, registers, read } => if Operation::supported(registers) {
                self.read(
                    pid,
                    registers,
                    ReadString::outcome(read.addr, read.text@, reply),
                    progress,
                )
            } else {
                progress == self.drop_spec(pid, registers, Some(Error::ProtocolViolation))
            },
            WaitStage::Releasing { pid, registers, release, error } => match release.next(
                Self::fresh(pid, registers),
                reply,
            ).1 {
                Progress::Pending(release, action) => progress == Progress::<
                    Wait,
                    Option<(Tracee, Operation)>,
                >::Pending(
                    Wait { stage: WaitStage::Releasing { pid, registers, release, error }, ..self },
                    action,
                ),
                Progress::Done(_) => match error {
                    None => progress == self.again_spec(),
                    Some(error) => progress == Progress::<
                        Wait,
                        Option<(Tracee, Operation)>,
                    >::Failed(error),
                },
                Progress::Failed(failure) => progress == Progress::<
                    Wait,
                    Option<(Tracee, Operation)>,
                >::Failed(failure),
            },
            WaitStage::Passing => match reply {
                Reply::Done => progress == self.again_spec(),
                _ => progress == Progress::<Wait, Option<(Tracee, Operation)>>::Failed(
                    reply.unexpected_spec(),
                ),
            },
            WaitStage::Configuring { pid } => match reply {
                Reply::Done => if self.disable_vdso {
                    progress == Progress::<Wait, Option<(Tracee, Operation)>>::Pending(
                        Wait { stage: WaitStage::Inspecting { pid }, ..self },
                        Action::GetRegisters { pid },
                    )
                } else {
                    progress == Progress::<Wait, Option<(Tracee, Operation)>>::Pending(
                        Wait { stage: WaitStage::Passing, ..self },
                        Action::Syscall { pid },
                    )
                },
                _ => progress == Progress::<Wait, Option<(Tracee, Operation)>>::Failed(
                    reply.unexpected_spec(),
                ),
            },
            WaitStage::Inspecting { pid } => match reply {
                Reply::Registers(registers) => match Tracee::disable_vdso_spec(
                    Self::fresh(pid, registers),
                ) {
                    Progress::Pending(search, action) => progress == Progress::<
                        Wait,
                        Option<(Tracee, Operation)>,
                    >::Pending(
                        Wait { stage: WaitStage::Suppressing { pid, registers, search }, ..self },
                        action,
                    ),
                    Progress::Done(_) => progress == self.drop_spec(pid, registers, None),
                    Progress::Failed(error) => progress == self.drop_spec(
                        pid,
                        registers,
                        Some(error),
                    ),
                },
                _ => progress == Progress::<Wait, Option<(Tracee, Operation)>>::Failed(
                    reply.unexpected_spec(),
                ),
            },
            WaitStage::Suppressing { pid, registers, search } => match search.next(
                Self::fresh(pid, registers),
                reply,
            ) {
                Progress::Pending(search, action) => progress == Progress::<
                    Wait,
                    Option<(Tracee, Operation)>,
                >::Pending(
                    Wait { stage: WaitStage::Suppressing { pid, registers, search }, ..self },
                    action,
                ),
                Progress::Done(_) => progress == self.drop_spec(pid, registers, None),
                Progress::Failed(error) => progress == self.drop_spec(pid, registers, Some(error)),
            },
        }
    }

    fn again(parent: i32, disable_vdso: bool) -> (progress: Progress<
        Wait,
        Option<(Tracee, Operation)>,
    >)
        ensures
            progress == (Wait { parent, disable_vdso, stage: WaitStage::Waiting }).again_spec(),
    {
        Progress::Pending(
            Wait { parent, disable_vdso, stage: WaitStage::Waiting },
            Action::WaitSession { parent },
        )
    }

    fn drop_handle(
        parent: i32,
        disable_vdso: bool,
        pid: i32,
        registers: Registers,
        error: Option<Error>,
    ) -> (progress: Progress<Wait, Option<(Tracee, Operation)>>)
        ensures
            progress == (Wait { parent, disable_vdso, stage: WaitStage::Waiting }).drop_spec(
                pid,
                registers,
                error,
            ),
    {
        let tracee = Tracee::new(pid, registers);
        match tracee.release() {
            Progress::Pending(release, action) => Progress::Pending(
                Wait {
                    parent,
                    disable_vdso,
                    stage: WaitStage::Releasing { pid, registers, release, error },
                },
                action,
            ),
            Progress::Done(_) => Progress::Failed(Error::ProtocolViolation),
            Progress::Failed(failure) => Progress::Failed(failure),
        }
    }

    fn decode(parent: i32, disable_vdso: bool, pid: i32, registers: Registers, path: String) -> (progress:
        Progress<Wait, Option<(Tracee, Operation)>>)
        requires
            Operation::supported(registers),
        ensures
            (Wait { parent, disable_vdso, stage: WaitStage::Waiting }).decoded(
                pid,
                registers,
                path@,
                progress,
            ),
    {
        match Operation::parse(&registers, path) {
            Some(operation) => {
                if operation.dispatched() {
                    Progress::Done(Some((Tracee::new(pid, registers), operation)))
                } else {
                    Self::drop_handle(parent, disable_vdso, pid, registers, None)
                }
            },
            None => Self::drop_handle(parent, disable_vdso, pid, registers, None),
        }
    }

    /// Takes the answer to the wait's last request.
    pub fn resume(self, reply: Reply) -> (progress: Progress<Wait, Option<(Tracee, Operation)>>)
        ensures
            self.accepts(reply, progress),
    {
        let parent = self.parent;
        let disable_vdso = self.disable_vdso;
        match self.stage {
            WaitStage::Waiting => match reply {
                Reply::Status(WaitStatus::Exited { pid, .. }) => {
                    if pid == parent {
                        Progress::Done(None)
                    } else {
                        Self::again(parent, disable_vdso)
                    }
                },
                Reply::Status(WaitStatus::PtraceSyscall { pid }) => Progress::Pending(
                    Wait { parent, disable_vdso, stage: WaitStage::Fetching { pid } },
                    Action::GetRegisters { pid },
                ),
                Reply::Status(WaitStatus::PtraceEvent { pid, .. }) => Progress::Pending(
                    Wait { parent, disable_vdso, stage: WaitStage::Passing },
                    Action::Syscall { pid },
                ),
                Reply::Status(WaitStatus::Stopped { pid }) => Progress::Pending(
                    Wait { parent, disable_vdso, stage: WaitStage::Configuring { pid } },
                    Action::SetOptions { pid },
                ),
                other => Progress::Failed(other.unexpected()),
            },
            WaitStage::Fetching { pid } => match reply {
                Reply::Registers(registers) => {
                    match State::observed(&registers) {
                        State::BeforeSyscall => {},
                        _ => {
                            return Self::drop_handle(parent, disable_vdso, pid, registers, None);
                        },
                    }
                    if !Operation::is_supported(&registers) {
                        return Self::drop_handle(
                            parent,
                            disable_vdso,
                            pid,
                            registers,
                            Some(Error::ProtocolViolation),
                        );
                    }
                    match Operation::pathname(&registers) {
                        Some(addr) => Progress::Pending(
                            Wait {
                                parent,
                                disable_vdso,
                                stage: WaitStage::Decoding {
                                    pid,
                                    registers,
                                    read: ReadString { addr, text: String::new() },
                                },
                            },
                            Action::ReadSome { pid, addr, len: CHUNK },
                        ),
                        None => Self::decode(parent, disable_vdso, pid, registers, String::new()),
                    }
                },
                other => Progress::Failed(other.unexpected()),
            },
            WaitStage::Decoding { pid, registers, read } => {
                if !Operation::is_supported(&registers) {
                    return Self::drop_handle(
                        parent,
                        disable_vdso,
                        pid,
                        registers,
                        Some(Error::ProtocolViolation),
                    );
                }
                match read.resume(pid, reply) {
                    Progress::Pending(read, action) => Progress::Pending(
                        Wait {
                            parent,
                            disable_vdso,
                            stage: WaitStage::Decoding { pid, registers, read },
                        },
                        action,
                    ),
                    Progress::Done(path) => Self::decode(
                        parent,
                        disable_vdso,
                        pid,
                        registers,
                        path,
                    ),
                    Progress::Failed(error) => Self::drop_handle(
                        parent,
                        disable_vdso,
                        pid,
                        registers,
                        Some(error),
                    ),
                }
            },
            WaitStage::Releasing { pid, registers, release, error } => {
                let mut tracee = Tracee::new(pid, registers);
                match release.resume(&mut tracee, reply) {
                    Progress::Pending(release, action) => Progress::Pending(
                        Wait {
                            parent,
                            disable_vdso,
                            stage: WaitStage::Releasing { pid, registers, release, error },
                        },
                        action,
                    ),
                    Progress::Done(_) => match error {
                        None => Self::again(parent, disable_vdso),
                        Some(error) => Progress::Failed(error),
                    },
                    Progress::Failed(failure) => Progress::Failed(failure),
                }
            },
            WaitStage::Passing => match reply {
                Reply::Done => Self::again(parent, disable_vdso),
                other => Progress::Failed(other.unexpected()),
            },
            WaitStage::Configuring { pid } => match reply {
                Reply::Done => {
                    if disable_vdso {
                        Progress::Pending(
                            Wait { parent, disable_vdso, stage: WaitStage::Inspecting { pid } },
                            Action::GetRegisters { pid },
                        )
                    } else {
                        Progress::Pending(
                            Wait { parent, disable_vdso, stage: WaitStage::Passing },
                            Action::Syscall { pid },
                        )
                    }
                },
                other => Progress::Failed(other.unexpected()),
            },
            WaitStage::Inspecting { pid } => match reply {
                Reply::Registers(registers) => {
                    let tracee = Tracee::new(pid, registers);
                    match tracee.disable_vdso() {
                        Progress::Pending(search, action) => Progress::Pending(
                            Wait {
                                parent,
                                disable_vdso,
                                stage: WaitStage::Suppressing { pid, registers, search },
                            },
                            action,
                        ),
                        Progress::Done(_) => Self::drop_handle(
                            parent,
                            disable_vdso,
                            pid,
                            registers,
                            None,
                        ),
                        Progress::Failed(error) => Self::drop_handle(
                            parent,
                            disable_vdso,
                            pid,
                            registers,
                            Some(error),
                        ),
                    }
                },
                other => Progress::Failed(other.unexpected()),
            },
            WaitStage::Suppressing { pid, registers, search } => {
                let tracee = Tracee::new(pid, registers);
                match search.resume(&tracee, reply) {
                    Progress::Pending(search, action) => Progress::Pending(
                        Wait {
                            parent,
                            disable_vdso,
                            stage: WaitStage::Suppressing { pid, registers, search },
                        },
                        action,
                    ),
                    Progress::Done(_) => Self::drop_handle(
                        parent,
                        disable_vdso,
                        pid,
                        registers,
                        None,
                    ),
                    Progress::Failed(error) => Self::drop_handle(
                        parent,
                        disable_vdso,
                        pid,
                        registers,
                        Some(error),
                    ),
                }
            },
        }
    }
}

impl Tracee {
    /// The wait starts by waiting for any task of the session.
    pub open spec fn wait_spec(parent: i32, disable_vdso: bool) -> Progress<
        Wait,
        Option<(Tracee, Operation)>,
    > {
        Progress::Pending(
            Wait { parent, disable_vdso, stage: WaitStage::Waiting },
            Action::WaitSession { parent },
        )
    }

    /// Waits for the next system call that the engine acts on, in the
    /// session of the task `parent`. The result is the handle of the task
    /// that entered the call, with the operation; or nothing, once `parent`
    /// has exited.
    pub fn wait(parent: i32, disable_vdso: bool) -> (progress: Progress<
        Wait,
        Option<(Tracee, Operation)>,
    >)
        ensures
            progress == Self::wait_spec(parent, disable_vdso),
    {
        Wait::again(parent, disable_vdso)
    }
}

/// The wait ends at the answer that reports the exit of the task that the
/// trace started with: no request follows it. Until then every answer but a
/// decoded call or a failure is followed by another request.
pub proof fn lemma_wait_ends_with_parent(
    wait: Wait,
    code: i32,
    progress: Progress<Wait, Option<(Tracee, Operation)>>,
)
    requires
        wait.stage is Waiting,
        wait.accepts(Reply::Status(WaitStatus::Exited { pid: wait.parent, code }), progress),
    ensures
        progress == Progress::<Wait, Option<(Tracee, Operation)>>::Done(None),
{
}

impl Wait {
    /// What holds of a wait in progress: a path is read only for a task that
    /// stands at the entry of an open.
    pub open spec fn inv(self) -> bool {
        self.stage matches WaitStage::Decoding { registers, .. } ==> State::observed_spec(registers)
            == State::BeforeSyscall && Operation::supported(registers)
            && Operation::pathname_spec(registers) is Some
    }
}

/// Whatever the wait hands out is a call that a handler takes: never a
/// fork, a wait or an exit. The handle stands at the entry of the call,
/// where `rax` holds the entry marker, and owns no scratch memory. And the
/// wait stays within its invariant.
pub proof fn lemma_wait_hands_out_entries(
    wait: Wait,
    reply: Reply,
    progress: Progress<Wait, Option<(Tracee, Operation)>>,
)
    requires
        wait.inv(),
        wait.accepts(reply, progress),
    ensures
        progress matches Progress::Done(Some((tracee, operation)))
            ==> operation.dispatched_spec() && tracee@.state == State::BeforeSyscall
            && tracee@.registers.rax == crate::registers::ENTRY_MARKER && tracee@.allocations.len()
            == 0,
        progress matches Progress::Pending(following, _) ==> following.inv()
            && following.parent == wait.parent && following.disable_vdso == wait.disable_vdso,
{
}

} // verus!

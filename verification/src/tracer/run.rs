use crate::config::Config;
use crate::error::Error;
use crate::kernel::{Action, Progress, Reply, WaitStatus};
use crate::modules::file::{FileManager, FileTask};
use crate::modules::pid::{PIDManager, PidTask};
use crate::modules::random::{RandomManager, RandomTask};
use crate::modules::time::{encode_spec, TimeManager, TimeTask};
use crate::recorder::{FileRecord, PIDRecord, RandomRecord, Record, Recorder, TimeRecord};
use crate::tracer::inject::Release;
use crate::tracer::operation::Operation;
use crate::tracer::tracee::{Tracee, TraceeView};
use crate::tracer::wait::{Wait, WaitStage};
use vstd::prelude::*;
use vstd::utf8::encode_utf8;

verus! {

/// The trace of one command: the task that it started with.
#[derive(Debug, Clone, Copy, PartialEq, Eq, Structural)]
pub struct Tracer {
    pid: i32,
}

/// The handling of one operation, in progress.
#[derive(Debug, PartialEq, Eq)]
pub enum Task {
    File(FileTask),
    Random(RandomTask),
    Time(TimeTask),
    Pid(PidTask),
}

/// Where a trace stands.
#[derive(Debug, PartialEq, Eq)]
pub enum RunStage {
    /// The next system call to act on is being waited for.
    Waiting(Wait),
    /// The handler of an operation is at work on the task of `tracee`.
    Handling { tracee: Tracee, task: Task },
    /// The record of an operation is being appended to the stream.
    Emitting { tracee: Tracee },
    /// The handle of the task is being released. Then the trace goes on,
    /// or ends with `error`.
    Releasing { tracee: Tracee, release: Release, error: Option<Error> },
}

/// A trace in progress.
pub struct Run {
    /// The task that the trace started with.
    pub parent: i32,
    pub disable_vdso: bool,
    pub recorder: Recorder,
    pub files: FileManager,
    pub random: RandomManager,
    pub time: TimeManager,
    pub pids: PIDManager,
    /// How many operations have gone to a handler.
    pub dispatched: Ghost<nat>,
    /// How many records the handlers have handed to the recorder.
    pub recorded: Ghost<nat>,
    pub stage: RunStage,
}

impl Run {
    /// Whether `following` is this trace a step later, but for its stage
    /// and for what the generator has served.
    pub open spec fn keeps(self, following: Run) -> bool {
        &&& following.parent == self.parent
        &&& following.disable_vdso == self.disable_vdso
        &&& following.recorder == self.recorder
        &&& following.files == self.files
        &&& following.time == self.time
        &&& following.pids == self.pids
        &&& following.random.active() == self.random.active()
    }

    /// Whether `progress` is the trace going on with the request `action`,
    /// after the generator has served the requests `fills`.
    pub open spec fn goes_on(
        self,
        progress: Progress<Run, ()>,
        fills: Seq<nat>,
        action: Action,
    ) -> bool {
        &&& progress matches Progress::Pending(following, asked)
        &&& self.keeps(following)
        &&& following.random.fills() == fills
        &&& asked == action
    }

    /// Whether `progress` is the release of the handle `tracee`, after
    /// which the trace goes on, or ends with `error`.
    pub open spec fn released(
        self,
        tracee: TraceeView,
        error: Option<Error>,
        fills: Seq<nat>,
        progress: Progress<Run, ()>,
    ) -> bool {
        match Release::begin_spec(tracee) {
            Progress::Pending(release, action) => {
                &&& self.goes_on(progress, fills, action)
                &&& progress->Pending_0.stage matches RunStage::Releasing {
                    tracee: handle,
                    release: begun,
                    error: kept,
                }
                &&& handle@ == tracee
                &&& begun == release
                &&& kept == error
            },
            Progress::Done(_) => progress == Progress::<Run, ()>::Failed(Error::ProtocolViolation),
            Progress::Failed(failure) => progress == Progress::<Run, ()>::Failed(failure),
        }
    }

    /// Whether `progress` is what follows the record of an operation: the
    /// record is appended to the stream where records of its kind are
    /// asked for; where they are not, it is dropped and the handle
    /// released.
    pub open spec fn recorded(
        self,
        tracee: TraceeView,
        record: Record,
        fills: Seq<nat>,
        progress: Progress<Run, ()>,
    ) -> bool {
        if Recorder::wanted(self.recorder.config(), record) {
            &&& self.goes_on(progress, fills, Action::Emit { record })
            &&& progress->Pending_0.stage matches RunStage::Emitting { tracee: handle }
            &&& handle@ == tracee
        } else {
            self.released(tracee, None, fills, progress)
        }
    }

    /// Whether `progress` is what follows a step `inner` of a handler: the
    /// handler goes on, or its record is recorded, or its failure ends the
    /// trace once the handle is released.
    pub open spec fn handled(
        self,
        tracee: TraceeView,
        inner: Progress<Task, Record>,
        fills: Seq<nat>,
        progress: Progress<Run, ()>,
    ) -> bool {
        match inner {
            Progress::Pending(task, action) => {
                &&& self.goes_on(progress, fills, action)
                &&& progress->Pending_0.stage matches RunStage::Handling {
                    tracee: handle,
                    task: going,
                }
                &&& handle@ == tracee
                &&& going == task
            },
            Progress::Done(record) => self.recorded(tracee, record, fills, progress),
            Progress::Failed(error) => self.released(tracee, Some(error), fills, progress),
        }
    }

    /// A step of the file handler, as a step of a handler.
    pub open spec fn of_file(inner: Progress<FileTask, FileRecord>) -> Progress<Task, Record> {
        match inner {
            Progress::Pending(task, action) => Progress::Pending(Task::File(task), action),
            Progress::Done(record) => Progress::Done(Record::File(record)),
            Progress::Failed(error) => Progress::Failed(error),
        }
    }

    pub open spec fn of_random(inner: Progress<RandomTask, RandomRecord>) -> Progress<
        Task,
        Record,
    > {
        match inner {
            Progress::Pending(task, action) => Progress::Pending(Task::Random(task), action),
            Progress::Done(record) => Progress::Done(Record::Random(record)),
            Progress::Failed(error) => Progress::Failed(error),
        }
    }

    pub open spec fn of_time(inner: Progress<TimeTask, TimeRecord>) -> Progress<Task, Record> {
        match inner {
            Progress::Pending(task, action) => Progress::Pending(Task::Time(task), action),
            Progress::Done(record) => Progress::Done(Record::Time(record)),
            Progress::Failed(error) => Progress::Failed(error),
        }
    }

    pub open spec fn of_pid(inner: Progress<PidTask, PIDRecord>) -> Progress<Task, Record> {
        match inner {
            Progress::Pending(task, action) => Progress::Pending(Task::Pid(task), action),
            Progress::Done(record) => Progress::Done(Record::PID(record)),
            Progress::Failed(error) => Progress::Failed(error),
        }
    }

    /// The bytes that the file handler in `progress` has staged for the
    /// task.
    pub open spec fn staged(progress: Progress<Run, ()>) -> Vec<u8> {
        match progress {
            Progress::Pending(following, action) => match following.stage {
                RunStage::Handling { task: Task::File(task), .. } => FileTask::staged(
                    Progress::Pending(task, action),
                ),
                _ => arbitrary(),
            },
            _ => arbitrary(),
        }
    }

    /// Whether `progress` is the start of the handling of `operation` for
    /// the task of `tracee`: an open goes to the file handler, a request
    /// for random bytes to the generator, a time query to the time handler
    /// and an identity query to the identity handler. No other operation is
    /// handled.
    pub open spec fn dispatched(
        self,
        tracee: TraceeView,
        operation: Operation,
        progress: Progress<Run, ()>,
    ) -> bool {
        match operation {
            Operation::Open { num, path, read, write } => {
                &&& progress matches Progress::Pending(
                    Run { stage: RunStage::Handling { tracee: handle, task: Task::File(task) }, .. },
                    Action::Canonicalize { path: asked },
                )
                &&& self.keeps(progress->Pending_0)
                &&& progress->Pending_0.random.fills() == self.random.fills()
                &&& handle@ == tracee
                &&& task.path == path
                &&& task.num == num
                &&& task.read == read
                &&& task.write == write
                &&& task.stage is Resolving
                &&& asked == path
            },
            Operation::Rand { len, addr } => {
                &&& self.handled(
                    tracee,
                    Self::of_random(
                        RandomManager::process_spec(
                            self.random.active(),
                            tracee,
                            len,
                            addr,
                            progress.payload(),
                        ),
                    ),
                    if RandomManager::draws_at_start(self.random.active(), tracee, len) {
                        self.random.fills().push(len as nat)
                    } else {
                        self.random.fills()
                    },
                    progress,
                )
                &&& RandomManager::draws_at_start(self.random.active(), tracee, len)
                    ==> progress.payload()@ == RandomManager::served(self.random.fills(), len as nat)
            },
            Operation::Time { num, clock, addr } => self.handled(
                tracee,
                Self::of_time(TimeManager::process_spec(self.time.time(), tracee, num, clock, addr)),
                self.random.fills(),
                progress,
            ),
            Operation::Pid { num } => self.handled(
                tracee,
                Self::of_pid(PIDManager::process_spec(self.pids.pid(), tracee, num)),
                self.random.fills(),
                progress,
            ),
            _ => self.released(tracee, Some(Error::ProtocolViolation), self.random.fills(), progress),
        }
    }

    /// Whether `progress` is what follows a step `inner` of the wait. A
    /// wait that ends with nothing ends the trace: the task that it
    /// started with has exited.
    pub open spec fn waited(
        self,
        inner: Progress<Wait, Option<(Tracee, Operation)>>,
        progress: Progress<Run, ()>,
    ) -> bool {
        match inner {
            Progress::Pending(wait, action) => {
                &&& self.goes_on(progress, self.random.fills(), action)
                &&& progress->Pending_0.stage matches RunStage::Waiting(going)
                &&& going == wait
            },
            Progress::Done(None) => progress == Progress::<Run, ()>::Done(()),
            Progress::Done(Some((tracee, operation))) => self.dispatched(
                tracee@,
                operation,
                progress,
            ),
            Progress::Failed(error) => progress == Progress::<Run, ()>::Failed(error),
        }
    }

    /// Whether a stage is one that a trace comes to by handing a record to
    /// the recorder: the record is being appended, or it was dropped and
    /// the handle is being released.
    pub open spec fn records(stage: RunStage) -> bool {
        stage is Emitting || stage matches RunStage::Releasing { error: None, .. }
    }

    /// Whether `following` counts as the trace a step later must: an
    /// operation more has gone to a handler exactly when the step leaves
    /// the wait, and a record more has been handed to the recorder exactly
    /// when a handler's step ends with one.
    pub open spec fn counts(self, following: Run) -> bool {
        &&& following.dispatched@ == self.dispatched@ + if self.stage is Waiting && !(
        following.stage is Waiting) {
            1nat
        } else {
            0nat
        }
        &&& following.recorded@ == self.recorded@ + if (self.stage is Waiting
            || self.stage is Handling) && Self::records(following.stage) {
            1nat
        } else {
            0nat
        }
    }

    /// Whether `progress` is what follows an answer, with the counts kept.
    pub open spec fn accepts(self, reply: Reply, progress: Progress<Run, ()>) -> bool {
        &&& self.steps(reply, progress)
        &&& progress matches Progress::Pending(following, _) ==> self.counts(following)
    }

    /// Whether `progress` is what follows an answer.
    ///
    /// The trace waits for a system call to act on, hands it to its
    /// handler, records what the handler reports, releases the handle of
    /// the task, which frees its scratch memory and lets it run, and waits
    /// again. A failure of a handler or of the record stream ends the trace
    /// after the handle has been released.
    pub open spec fn steps(self, reply: Reply, progress: Progress<Run, ()>) -> bool {
        match self.stage {
            RunStage::Waiting(wait) => exists|inner: Progress<Wait, Option<(Tracee, Operation)>>|
                #[trigger] wait.accepts(reply, inner) && self.waited(inner, progress),
            RunStage::Handling { tracee, task } => match task {
                Task::File(task) => {
                    let (after, inner) = task.next(
                        self.files.table(),
                        tracee@,
                        reply,
                        Self::staged(progress),
                    );
                    &&& self.handled(after, Self::of_file(inner), self.random.fills(), progress)
                    &&& task.redirects_to(self.files.table(), reply) is Some && inner is Pending
                        ==> Self::staged(progress)@ == encode_utf8(
                        task.redirects_to(self.files.table(), reply)->0,
                    ).push(0)
                },
                Task::Random(task) => {
                    let (after, inner) = task.next(tracee@, reply, progress.payload());
                    &&& self.handled(
                        after,
                        Self::of_random(inner),
                        if task.draws(tracee@, reply) {
                            self.random.fills().push(task.len as nat)
                        } else {
                            self.random.fills()
                        },
                        progress,
                    )
                    &&& task.draws(tracee@, reply) ==> progress.payload()@ == RandomManager::served(self.random.fills(), task.len as nat)
                },
                Task::Time(task) => {
                    let (after, inner) = task.next(tracee@, reply, progress.payload());
                    &&& self.handled(after, Self::of_time(inner), self.random.fills(), progress)
                    &&& task.writes(reply) ==> progress.payload()@ == encode_spec(task.time->0)
                },
                Task::Pid(task) => {
                    let (after, inner) = task.next(tracee@, reply);
                    self.handled(after, Self::of_pid(inner), self.random.fills(), progress)
                },
            },
            RunStage::Emitting { tracee } => match reply {
                Reply::Done => self.released(tracee@, None, self.random.fills(), progress),
                _ => self.released(
                    tracee@,
                    Some(reply.unexpected_spec()),
                    self.random.fills(),
                    progress,
                ),
            },
            RunStage::Releasing { tracee, release, error } => {
                let (after, inner) = release.next(tracee@, reply);
                match inner {
                    Progress::Pending(release, action) => {
                        &&& self.goes_on(progress, self.random.fills(), action)
                        &&& progress->Pending_0.stage matches RunStage::Releasing {
                            tracee: handle,
                            release: going,
                            error: kept,
                        }
                        &&& handle@ == after
                        &&& going == release
                        &&& kept == error
                    },
                    Progress::Done(_) => match error {
                        None => self.waited(
                            Tracee::wait_spec(self.parent, self.disable_vdso),
                            progress,
                        ),
                        Some(error) => progress == Progress::<Run, ()>::Failed(error),
                    },
                    Progress::Failed(failure) => progress == Progress::<Run, ()>::Failed(failure),
                }
            },
        }
    }
}

impl Run {
    fn of_file_step(inner: Progress<FileTask, FileRecord>) -> (step: Progress<Task, Record>)
        ensures
            step == Self::of_file(inner),
    {
        match inner {
            Progress::Pending(task, action) => Progress::Pending(Task::File(task), action),
            Progress::Done(record) => Progress::Done(Record::File(record)),
            Progress::Failed(error) => Progress::Failed(error),
        }
    }

    fn of_random_step(inner: Progress<RandomTask, RandomRecord>) -> (step: Progress<Task, Record>)
        ensures
            step == Self::of_random(inner),
    {
        match inner {
            Progress::Pending(task, action) => Progress::Pending(Task::Random(task), action),
            Progress::Done(record) => Progress::Done(Record::Random(record)),
            Progress::Failed(error) => Progress::Failed(error),
        }
    }

    fn of_time_step(inner: Progress<TimeTask, TimeRecord>) -> (step: Progress<Task, Record>)
        ensures
            step == Self::of_time(inner),
    {
        match inner {
            Progress::Pending(task, action) => Progress::Pending(Task::Time(task), action),
            Progress::Done(record) => Progress::Done(Record::Time(record)),
            Progress::Failed(error) => Progress::Failed(error),
        }
    }

    fn of_pid_step(inner: Progress<PidTask, PIDRecord>) -> (step: Progress<Task, Record>)
        ensures
            step == Self::of_pid(inner),
    {
        match inner {
            Progress::Pending(task, action) => Progress::Pending(Task::Pid(task), action),
            Progress::Done(record) => Progress::Done(Record::PID(record)),
            Progress::Failed(error) => Progress::Failed(error),
        }
    }

    fn release(self, tracee: Tracee, error: Option<Error>) -> (progress: Progress<Run, ()>)
        ensures
            self.released(tracee@, error, self.random.fills(), progress),
            progress matches Progress::Pending(following, _) ==> following.dispatched@
                == self.dispatched@ && following.recorded@ == self.recorded@,
    {
        match tracee.release() {
            Progress::Pending(release, action) => Progress::Pending(
                Run { stage: RunStage::Releasing { tracee, release, error }, ..self },
                action,
            ),
            Progress::Done(_) => Progress::Failed(Error::ProtocolViolation),
            Progress::Failed(failure) => Progress::Failed(failure),
        }
    }

    fn record(self, tracee: Tracee, record: Record) -> (progress: Progress<Run, ()>)
        ensures
            self.recorded(tracee@, record, self.random.fills(), progress),
            progress matches Progress::Pending(following, _) ==> following.dispatched@
                == self.dispatched@ && following.recorded@ == self.recorded@ + 1,
    {
        let mut run = self;
        run.recorded = Ghost(run.recorded@ + 1);
        match run.recorder.record(record) {
            Some(record) => Progress::Pending(
                Run { stage: RunStage::Emitting { tracee }, ..run },
                Action::Emit { record },
            ),
            None => run.release(tracee, None),
        }
    }

    fn handle(self, tracee: Tracee, inner: Progress<Task, Record>) -> (progress: Progress<Run, ()>)
        ensures
            self.handled(tracee@, inner, self.random.fills(), progress),
            progress matches Progress::Pending(following, _) ==> following.dispatched@
                == self.dispatched@ && following.recorded@ == self.recorded@ + if Self::records(
                following.stage,
            ) {
                1nat
            } else {
                0nat
            },
    {
        match inner {
            Progress::Pending(task, action) => Progress::Pending(
                Run { stage: RunStage::Handling { tracee, task }, ..self },
                action,
            ),
            Progress::Done(record) => self.record(tracee, record),
            Progress::Failed(error) => self.release(tracee, Some(error)),
        }
    }

    fn dispatch(self, tracee: Tracee, operation: Operation) -> (progress: Progress<Run, ()>)
        ensures
            self.dispatched(tracee@, operation, progress),
            progress matches Progress::Pending(following, _) ==> !(following.stage is Waiting)
                && following.dispatched@ == self.dispatched@ + 1 && following.recorded@
                == self.recorded@ + if Self::records(following.stage) {
                1nat
            } else {
                0nat
            },
    {
        let mut run = self;
        run.dispatched = Ghost(run.dispatched@ + 1);
        match operation {
            Operation::Open { num, path, read, write } => {
                let inner = run.files.process(path, num, read, write);
                match inner {
                    Progress::Pending(task, action) => Progress::Pending(
                        Run { stage: RunStage::Handling { tracee, task: Task::File(task) }, ..run },
                        action,
                    ),
                    Progress::Done(_) => Progress::Failed(Error::ProtocolViolation),
                    Progress::Failed(error) => Progress::Failed(error),
                }
            },
            Operation::Rand { len, addr } => {
                let inner = run.random.process(&tracee, len, addr);
                let step = Self::of_random_step(inner);
                run.handle(tracee, step)
            },
            Operation::Time { num, clock, addr } => {
                let inner = run.time.process(&tracee, num, clock, addr);
                let step = Self::of_time_step(inner);
                run.handle(tracee, step)
            },
            Operation::Pid { num } => {
                let inner = run.pids.process(&tracee, num);
                let step = Self::of_pid_step(inner);
                run.handle(tracee, step)
            },
            _ => run.release(tracee, Some(Error::ProtocolViolation)),
        }
    }

    fn wait(self, inner: Progress<Wait, Option<(Tracee, Operation)>>) -> (progress: Progress<Run, ()>)
        ensures
            self.waited(inner, progress),
            progress matches Progress::Pending(following, _) ==> following.dispatched@
                == self.dispatched@ + if following.stage is Waiting {
                0nat
            } else {
                1nat
            } && following.recorded@ == self.recorded@ + if Self::records(following.stage) {
                1nat
            } else {
                0nat
            },
    {
        match inner {
            Progress::Pending(wait, action) => Progress::Pending(
                Run { stage: RunStage::Waiting(wait), ..self },
                action,
            ),
            Progress::Done(None) => Progress::Done(()),
            Progress::Done(Some((tracee, operation))) => self.dispatch(tracee, operation),
            Progress::Failed(error) => Progress::Failed(error),
        }
    }

    /// This trace with a placeholder for its stage, and the stage.
    fn split(self) -> (parts: (Run, RunStage))
        ensures
            parts.1 == self.stage,
            self.keeps(parts.0),
            parts.0.keeps(self),
            parts.0.random == self.random,
            parts.0.dispatched == self.dispatched,
            parts.0.recorded == self.recorded,
            parts.0.recorder == self.recorder,
    {
        let Run {
            parent,
            disable_vdso,
            recorder,
            files,
            random,
            time,
            pids,
            dispatched,
            recorded,
            stage,
        } = self;
        (
            Run {
                parent,
                disable_vdso,
                recorder,
                files,
                random,
                time,
                pids,
                dispatched,
                recorded,
                stage: RunStage::Waiting(Wait { parent, disable_vdso, stage: WaitStage::Waiting }),
            },
            stage,
        )
    }

    fn resume_waiting(self, reply: Reply) -> (progress: Progress<Run, ()>)
        requires
            self.stage is Waiting,
        ensures
            self.accepts(reply, progress),
    {
        let (run, stage) = self.split();
        match stage {
            RunStage::Waiting(wait) => {
                let inner = wait.resume(reply);
                run.wait(inner)
            },
            _ => Progress::Failed(Error::ProtocolViolation),
        }
    }

    fn resume_file(self, reply: Reply) -> (progress: Progress<Run, ()>)
        requires
            self.stage matches RunStage::Handling { task: Task::File(_), .. },
        ensures
            self.accepts(reply, progress),
    {
        let (run, stage) = self.split();
        match stage {
            RunStage::Handling { tracee, task: Task::File(task) } => {
                let mut tracee = tracee;
                let inner = task.resume(&run.files, &mut tracee, reply);
                let step = Self::of_file_step(inner);
                run.handle(tracee, step)
            },
            _ => Progress::Failed(Error::ProtocolViolation),
        }
    }

    fn resume_random(self, reply: Reply) -> (progress: Progress<Run, ()>)
        requires
            self.stage matches RunStage::Handling { task: Task::Random(_), .. },
        ensures
            self.accepts(reply, progress),
    {
        let (run, stage) = self.split();
        let mut run = run;
        match stage {
            RunStage::Handling { tracee, task: Task::Random(task) } => {
                let mut tracee = tracee;
                let inner = task.resume(&mut run.random, &mut tracee, reply);
                let step = Self::of_random_step(inner);
                run.handle(tracee, step)
            },
            _ => Progress::Failed(Error::ProtocolViolation),
        }
    }

    fn resume_time(self, reply: Reply) -> (progress: Progress<Run, ()>)
        requires
            self.stage matches RunStage::Handling { task: Task::Time(_), .. },
        ensures
            self.accepts(reply, progress),
    {
        let (run, stage) = self.split();
        match stage {
            RunStage::Handling { tracee, task: Task::Time(task) } => {
                let mut tracee = tracee;
                let inner = task.resume(&mut tracee, reply);
                let step = Self::of_time_step(inner);
                run.handle(tracee, step)
            },
            _ => Progress::Failed(Error::ProtocolViolation),
        }
    }

    fn resume_pid(self, reply: Reply) -> (progress: Progress<Run, ()>)
        requires
            self.stage matches RunStage::Handling { task: Task::Pid(_), .. },
        ensures
            self.accepts(reply, progress),
    {
        let (run, stage) = self.split();
        match stage {
            RunStage::Handling { tracee, task: Task::Pid(task) } => {
                let mut tracee = tracee;
                let inner = task.resume(&mut tracee, reply);
                let step = Self::of_pid_step(inner);
                run.handle(tracee, step)
            },
            _ => Progress::Failed(Error::ProtocolViolation),
        }
    }

    fn resume_emitting(self, reply: Reply) -> (progress: Progress<Run, ()>)
        requires
            self.stage is Emitting,
        ensures
            self.accepts(reply, progress),
    {
        let (run, stage) = self.split();
        match stage {
            RunStage::Emitting { tracee } => match reply {
                Reply::Done => run.release(tracee, None),
                other => {
                    let error = other.unexpected();
                    run.release(tracee, Some(error))
                },
            },
            _ => Progress::Failed(Error::ProtocolViolation),
        }
    }

    fn resume_releasing(self, reply: Reply) -> (progress: Progress<Run, ()>)
        requires
            self.stage is Releasing,
        ensures
            self.accepts(reply, progress),
    {
        let (run, stage) = self.split();
        match stage {
            RunStage::Releasing { tracee, release, error } => {
                let mut tracee = tracee;
                match release.resume(&mut tracee, reply) {
                    Progress::Pending(release, action) => Progress::Pending(
                        Run { stage: RunStage::Releasing { tracee, release, error }, ..run },
                        action,
                    ),
                    Progress::Done(_) => match error {
                        None => {
                            let inner = Tracee::wait(run.parent, run.disable_vdso);
                            run.wait(inner)
                        },
                        Some(error) => Progress::Failed(error),
                    },
                    Progress::Failed(failure) => Progress::Failed(failure),
                }
            },
            _ => Progress::Failed(Error::ProtocolViolation),
        }
    }

    /// Takes the answer to the trace's last request.
    pub fn resume(self, reply: Reply) -> (progress: Progress<Run, ()>)
        ensures
            self.accepts(reply, progress),
    {
        match &self.stage {
            RunStage::Waiting(_) => self.resume_waiting(reply),
            RunStage::Handling { task: Task::File(_), .. } => self.resume_file(reply),
            RunStage::Handling { task: Task::Random(_), .. } => self.resume_random(reply),
            RunStage::Handling { task: Task::Time(_), .. } => self.resume_time(reply),
            RunStage::Handling { task: Task::Pid(_), .. } => self.resume_pid(reply),
            RunStage::Emitting { .. } => self.resume_emitting(reply),
            RunStage::Releasing { .. } => self.resume_releasing(reply),
        }
    }
}

impl Tracer {
    /// The task that the trace started with.
    pub closed spec fn parent(&self) -> int {
        self.pid as int
    }

    /// The trace of the command whose first task is `pid`.
    pub fn new(pid: i32) -> (tracer: Tracer)
        ensures
            tracer.parent() == pid,
    {
        Tracer { pid }
    }

    /// The task that the trace started with.
    pub fn pid(&self) -> (pid: i32)
        ensures
            pid == self.parent(),
    {
        self.pid
    }

    /// Starts the trace with given settings: the handlers are made from
    /// the settings, the generator is fresh, and the first request is the
    /// wait for a system call to act on.
    pub fn run(&self, cfg: &Config) -> (progress: Progress<Run, ()>)
        ensures
            progress matches Progress::Pending(run, action) && {
                &&& action == (Action::WaitSession { parent: self.parent() as i32 })
                &&& run.parent == self.parent()
                &&& run.disable_vdso == cfg.wants_time_syscalls()
                &&& run.stage == RunStage::Waiting(
                    Wait {
                        parent: run.parent,
                        disable_vdso: run.disable_vdso,
                        stage: WaitStage::Waiting,
                    },
                )
                &&& run.inv()
                &&& run.dispatched@ == 0
                &&& run.recorded@ == 0
                &&& run.recorder.config() == cfg.record
                &&& run.random.active() == cfg.redirect.random
                &&& run.random.fills() == Seq::<nat>::empty()
                &&& run.time.time() == TimeManager::configured(cfg.redirect.time)
                &&& run.pids.pid() == cfg.redirect.pid
                &&& forall|key: Seq<char>|
                    FileManager::destination_spec(run.files.table(), key) == FileManager::configured(
                        cfg.redirect,
                        key,
                    )
            },
    {
        let disable_vdso = cfg.needs_time_syscalls();
        let run = Run {
            parent: self.pid,
            disable_vdso,
            recorder: Recorder::new(&cfg.record),
            files: FileManager::from_config(&cfg.redirect),
            random: RandomManager::new(cfg.redirect.random),
            time: TimeManager::new(cfg.redirect.time),
            pids: PIDManager::new(cfg.redirect.pid),
            dispatched: Ghost(0),
            recorded: Ghost(0),
            stage: RunStage::Waiting(
                Wait { parent: self.pid, disable_vdso, stage: WaitStage::Waiting },
            ),
        };
        Progress::Pending(run, Action::WaitSession { parent: self.pid })
    }

    /// Whether the answer to the request that lets go of the command at the
    /// end of a trace is one to accept: it was carried out, or the command
    /// is gone already.
    pub fn detached(reply: &Reply) -> (outcome: Result<(), Error>)
        ensures
            outcome == if reply.resumed_spec() {
                Ok::<(), Error>(())
            } else {
                Err::<(), Error>(reply.unexpected_spec())
            },
    {
        if reply.resumed() {
            Ok(())
        } else {
            Err(reply.unexpected())
        }
    }
}

/// The trace ends at the answer that reports the exit of the task that it
/// started with: while it waits for the session, that answer completes it,
/// and no request follows.
pub proof fn lemma_run_ends_with_parent(run: Run, code: i32, progress: Progress<Run, ()>)
    requires
        run.stage matches RunStage::Waiting(wait) && wait.stage is Waiting && wait.parent
            == run.parent,
        run.accepts(Reply::Status(WaitStatus::Exited { pid: run.parent, code }), progress),
    ensures
        progress == Progress::<Run, ()>::Done(()),
{
}

/// A trace waits again only after the handle of the task that it acted on
/// has been released: every step that takes a trace from handling,
/// recording or releasing back to the wait is the end of a release, and at
/// that end the handle owns no scratch memory.
pub proof fn lemma_run_releases_before_waiting(run: Run, reply: Reply, progress: Progress<Run, ()>)
    requires
        run.inv(),
        !(run.stage is Waiting),
        run.accepts(reply, progress),
        progress matches Progress::Pending(following, _) && following.stage is Waiting,
    ensures
        run.stage matches RunStage::Releasing { tracee, release, error } && error is None
            && release.next(tracee@, reply).1 is Done && release.next(
            tracee@,
            reply,
        ).0.allocations.len() == 0,
{
    match run.stage {
        RunStage::Releasing { tracee, release, error } => {
            crate::tracer::inject::lemma_release_frees_all(release, tracee@, reply);
        },
        _ => {},
    }
}

impl Run {
    /// Whether the wait of a trace is for its own session and within the
    /// wait's invariant, and a release in progress within the invariant of
    /// releases.
    pub open spec fn sound(self) -> bool {
        match self.stage {
            RunStage::Waiting(wait) => wait.inv() && wait.parent == self.parent
                && wait.disable_vdso == self.disable_vdso,
            RunStage::Releasing { tracee, release, .. } => release.inv(tracee@),
            _ => true,
        }
    }

    /// Whether the counts of a trace fit its stage: while the trace waits,
    /// appends a record or releases a handle after one, every operation
    /// that has gone to a handler has had its record handed to the
    /// recorder; while a handler is at work, one is outstanding.
    pub open spec fn balanced(self) -> bool {
        match self.stage {
            RunStage::Waiting(_) => self.recorded@ == self.dispatched@,
            RunStage::Handling { .. } => self.recorded@ + 1 == self.dispatched@,
            RunStage::Emitting { .. } => self.recorded@ == self.dispatched@,
            RunStage::Releasing { error, .. } => error is None ==> self.recorded@
                == self.dispatched@,
        }
    }

    /// What holds of a trace in progress.
    pub open spec fn inv(self) -> bool {
        self.sound() && self.balanced()
    }
}

proof fn lemma_released_inv(
    run: Run,
    tracee: TraceeView,
    error: Option<Error>,
    fills: Seq<nat>,
    progress: Progress<Run, ()>,
)
    requires
        run.released(tracee, error, fills, progress),
    ensures
        progress matches Progress::Pending(following, _) ==> following.sound(),
{
    crate::tracer::inject::lemma_release_starts(tracee);
}

proof fn lemma_handled_inv(
    run: Run,
    tracee: TraceeView,
    inner: Progress<Task, Record>,
    fills: Seq<nat>,
    progress: Progress<Run, ()>,
)
    requires
        run.handled(tracee, inner, fills, progress),
    ensures
        progress matches Progress::Pending(following, _) ==> following.sound(),
{
    match inner {
        Progress::Pending(_, _) => {},
        Progress::Done(record) => {
            if !Recorder::wanted(run.recorder.config(), record) {
                lemma_released_inv(run, tracee, None, fills, progress);
            }
        },
        Progress::Failed(error) => {
            lemma_released_inv(run, tracee, Some(error), fills, progress);
        },
    }
}

proof fn lemma_waited_inv(
    run: Run,
    inner: Progress<Wait, Option<(Tracee, Operation)>>,
    progress: Progress<Run, ()>,
)
    requires
        run.waited(inner, progress),
        inner matches Progress::Pending(wait, _) ==> wait.inv() && wait.parent == run.parent
            && wait.disable_vdso == run.disable_vdso,
    ensures
        progress matches Progress::Pending(following, _) ==> following.sound(),
{
    match inner {
        Progress::Done(Some((tracee, operation))) => {
            match operation {
                Operation::Open { .. } => {},
                Operation::Rand { len, addr } => {
                    lemma_handled_inv(
                        run,
                        tracee@,
                        Run::of_random(
                            RandomManager::process_spec(
                                run.random.active(),
                                tracee@,
                                len,
                                addr,
                                progress.payload(),
                            ),
                        ),
                        if RandomManager::draws_at_start(run.random.active(), tracee@, len) {
                            run.random.fills().push(len as nat)
                        } else {
                            run.random.fills()
                        },
                        progress,
                    );
                },
                Operation::Time { num, clock, addr } => {
                    lemma_handled_inv(
                        run,
                        tracee@,
                        Run::of_time(
                            TimeManager::process_spec(run.time.time(), tracee@, num, clock, addr),
                        ),
                        run.random.fills(),
                        progress,
                    );
                },
                Operation::Pid { num } => {
                    lemma_handled_inv(
                        run,
                        tracee@,
                        Run::of_pid(PIDManager::process_spec(run.pids.pid(), tracee@, num)),
                        run.random.fills(),
                        progress,
                    );
                },
                _ => {
                    lemma_released_inv(
                        run,
                        tracee@,
                        Some(Error::ProtocolViolation),
                        run.random.fills(),
                        progress,
                    );
                },
            }
        },
        _ => {},
    }
}

/// A trace stays within its invariant.
pub proof fn lemma_run_invariant(run: Run, reply: Reply, progress: Progress<Run, ()>)
    requires
        run.inv(),
        run.accepts(reply, progress),
    ensures
        progress matches Progress::Pending(following, _) ==> following.inv(),
{
    lemma_run_sound(run, reply, progress);
}

/// A trace keeps its wait and its releases within their invariants.
proof fn lemma_run_sound(run: Run, reply: Reply, progress: Progress<Run, ()>)
    requires
        run.sound(),
        run.steps(reply, progress),
    ensures
        progress matches Progress::Pending(following, _) ==> following.sound(),
        progress matches Progress::Pending(following, _) ==> (match run.stage {
            RunStage::Waiting(_) => true,
            RunStage::Handling { .. } => !(following.stage is Waiting),
            RunStage::Emitting { .. } => following.stage is Releasing,
            RunStage::Releasing { error, .. } => (following.stage matches RunStage::Releasing {
                error: kept,
                ..
            } && kept == error) || (following.stage is Waiting && error is None),
        }),
{
    match run.stage {
        RunStage::Waiting(wait) => {
            let inner = choose|inner: Progress<Wait, Option<(Tracee, Operation)>>|
                #[trigger] wait.accepts(reply, inner) && run.waited(inner, progress);
            crate::tracer::wait::lemma_wait_hands_out_entries(wait, reply, inner);
            lemma_waited_inv(run, inner, progress);
        },
        RunStage::Handling { tracee, task } => {
            match task {
                Task::File(task) => {
                    let (after, inner) = task.next(
                        run.files.table(),
                        tracee@,
                        reply,
                        Run::staged(progress),
                    );
                    lemma_handled_inv(
                        run,
                        after,
                        Run::of_file(inner),
                        run.random.fills(),
                        progress,
                    );
                },
                Task::Random(task) => {
                    let (after, inner) = task.next(tracee@, reply, progress.payload());
                    lemma_handled_inv(
                        run,
                        after,
                        Run::of_random(inner),
                        if task.draws(tracee@, reply) {
                            run.random.fills().push(task.len as nat)
                        } else {
                            run.random.fills()
                        },
                        progress,
                    );
                },
                Task::Time(task) => {
                    let (after, inner) = task.next(tracee@, reply, progress.payload());
                    lemma_handled_inv(
                        run,
                        after,
                        Run::of_time(inner),
                        run.random.fills(),
                        progress,
                    );
                },
                Task::Pid(task) => {
                    let (after, inner) = task.next(tracee@, reply);
                    lemma_handled_inv(run, after, Run::of_pid(inner), run.random.fills(), progress);
                },
            }
        },
        RunStage::Emitting { tracee } => {
            match reply {
                Reply::Done => {
                    lemma_released_inv(run, tracee@, None, run.random.fills(), progress);
                },
                _ => {
                    lemma_released_inv(
                        run,
                        tracee@,
                        Some(reply.unexpected_spec()),
                        run.random.fills(),
                        progress,
                    );
                },
            }
        },
        RunStage::Releasing { tracee, release, error } => {
            crate::tracer::inject::lemma_release_frees_all(release, tracee@, reply);
            let inner = release.next(tracee@, reply).1;
            if inner is Done && error is None {
                lemma_waited_inv(run, Tracee::wait_spec(run.parent, run.disable_vdso), progress);
            }
        },
    }
}

/// Every file record that a trace appends to the stream holds the path
/// that the task asked for, as it was read from the task when the open was
/// decoded, whether or not the open was redirected.
pub proof fn lemma_run_records_requested_path(
    run: Run,
    task: FileTask,
    reply: Reply,
    progress: Progress<Run, ()>,
)
    requires
        run.stage matches RunStage::Handling { task: Task::File(handled), .. } && handled == task,
        run.accepts(reply, progress),
        progress matches Progress::Pending(_, Action::Emit { .. }),
    ensures
        progress matches Progress::Pending(_, Action::Emit { record: Record::File(file) })
            && file.path == task.path && file.read == task.read && file.write == task.write,
{
    let tracee = run.stage->Handling_tracee;
    let data = Run::staged(progress);
    let (after, inner) = task.next(run.files.table(), tracee@, reply, data);
    crate::modules::file::lemma_file_requests(task, run.files.table(), tracee@, reply, data);
    crate::modules::file::lemma_record_keeps_path(task, run.files.table(), tracee@, reply, data);
    crate::tracer::inject::lemma_scratch_requests(after);
}

/// What a trace writes into a task while it serves a request for random
/// bytes is what the seeded generator writes next, and the generator has
/// then served that request too; and what it writes while it answers a time
/// query is the configured time in the kernel's layout.
pub proof fn lemma_run_writes(run: Run, reply: Reply, progress: Progress<Run, ()>)
    requires
        run.accepts(reply, progress),
        progress matches Progress::Pending(_, Action::Write { .. }),
    ensures
        run.stage matches RunStage::Handling { tracee, task: Task::Random(task) } ==> task.draws(
            tracee@,
            reply,
        ) && progress.payload()@ == RandomManager::served(run.random.fills(), task.len as nat)
            && progress->Pending_0.random.fills() == run.random.fills().push(task.len as nat),
        run.stage matches RunStage::Handling { task: Task::Time(task), .. } ==> task.writes(reply)
            && progress.payload()@ == encode_spec(task.time->0),
{
    match run.stage {
        RunStage::Handling { tracee, task: Task::Random(task) } => {
            let data = progress.payload();
            let after = task.next(tracee@, reply, data).0;
            crate::modules::random::lemma_random_requests(task, tracee@, reply, data);
            crate::tracer::inject::lemma_scratch_requests(after);
        },
        RunStage::Handling { tracee, task: Task::Time(task) } => {
            let data = progress.payload();
            let after = task.next(tracee@, reply, data).0;
            crate::modules::time::lemma_time_requests(task, tracee@, reply, data);
            crate::tracer::inject::lemma_scratch_requests(after);
        },
        _ => {},
    }
}

impl Run {
    /// Whether a trace went through the states `runs`, one for each of the
    /// answers `replies`, asked `actions` in between, and came to `ended`
    /// with the last answer.
    pub open spec fn trace(
        runs: Seq<Run>,
        replies: Seq<Reply>,
        actions: Seq<Action>,
        ended: Progress<Run, ()>,
    ) -> bool {
        &&& runs.len() >= 1
        &&& replies.len() == runs.len()
        &&& actions.len() == runs.len()
        &&& forall|at: int|
            0 <= at < runs.len() - 1 ==> (#[trigger] runs[at]).accepts(
                replies[at],
                Progress::Pending(runs[at + 1], actions[at]),
            )
        &&& runs.last().accepts(replies.last(), ended)
    }

    /// How many of the first `steps` steps of a trace left the wait: how
    /// many times the wait handed out an operation.
    pub open spec fn handed_out(runs: Seq<Run>, steps: int) -> nat
        decreases steps,
    {
        if steps <= 0 {
            0
        } else {
            Self::handed_out(runs, steps - 1) + if runs[steps - 1].stage is Waiting && !(
            runs[steps].stage is Waiting) {
                1nat
            } else {
                0nat
            }
        }
    }
}

/// A step of a trace leaves the wait exactly when the wait hands out an
/// operation, and that operation has then gone to its handler.
pub proof fn lemma_run_dispatches_what_the_wait_hands_out(
    run: Run,
    wait: Wait,
    reply: Reply,
    inner: Progress<Wait, Option<(Tracee, Operation)>>,
    progress: Progress<Run, ()>,
)
    requires
        run.stage == RunStage::Waiting(wait),
        wait.inv(),
        wait.accepts(reply, inner),
        run.waited(inner, progress),
    ensures
        inner matches Progress::Done(Some(_)) <==> (progress matches Progress::Pending(
            following,
            _,
        ) && !(following.stage is Waiting)),
        inner matches Progress::Done(None) <==> progress is Done,
        inner is Failed <==> progress is Failed,
{
    crate::tracer::wait::lemma_wait_hands_out_entries(wait, reply, inner);
    if let Progress::Done(Some((tracee, _))) = inner {
        crate::tracer::inject::lemma_release_starts(tracee@);
    }
}

/// A trace completes only at the answer that reports the exit of the task
/// that it started with, while it waits for its session; and by then every
/// operation that has gone to a handler has had its record handed to the
/// recorder.
pub proof fn lemma_run_completes_at_parent_exit(run: Run, reply: Reply, progress: Progress<Run, ()>)
    requires
        run.inv(),
        run.accepts(reply, progress),
        progress is Done,
    ensures
        run.stage matches RunStage::Waiting(wait) && wait.stage is Waiting,
        reply matches Reply::Status(WaitStatus::Exited { pid, .. }) && pid == run.parent,
        run.recorded@ == run.dispatched@,
{
    match run.stage {
        RunStage::Waiting(wait) => {
            let inner = choose|inner: Progress<Wait, Option<(Tracee, Operation)>>|
                #[trigger] wait.accepts(reply, inner) && run.waited(inner, progress);
            lemma_run_dispatches_what_the_wait_hands_out(run, wait, reply, inner, progress);
        },
        RunStage::Handling { tracee, task } => {
            lemma_run_sound(run, reply, progress);
            match task {
                Task::File(task) => {
                    let (after, _) = task.next(
                        run.files.table(),
                        tracee@,
                        reply,
                        Run::staged(progress),
                    );
                    crate::tracer::inject::lemma_release_starts(after);
                },
                Task::Random(task) => {
                    crate::tracer::inject::lemma_release_starts(
                        task.next(tracee@, reply, progress.payload()).0,
                    );
                },
                Task::Time(task) => {
                    crate::tracer::inject::lemma_release_starts(
                        task.next(tracee@, reply, progress.payload()).0,
                    );
                },
                Task::Pid(task) => {
                    crate::tracer::inject::lemma_release_starts(task.next(tracee@, reply).0);
                },
            }
        },
        RunStage::Emitting { tracee } => {
            crate::tracer::inject::lemma_release_starts(tracee@);
        },
        RunStage::Releasing { .. } => {},
    }
}

/// Over a whole trace, the operations that have gone to a handler are as
/// many as the wait has handed out; and when the trace completes, as many
/// records have been handed to the recorder. The trace completes at the
/// exit of the task that it started with, and no request follows it.
pub proof fn lemma_trace_counts(
    runs: Seq<Run>,
    replies: Seq<Reply>,
    actions: Seq<Action>,
    ended: Progress<Run, ()>,
    step: int,
)
    requires
        Run::trace(runs, replies, actions, ended),
        runs[0].inv(),
        0 <= step < runs.len(),
    ensures
        runs[step].inv(),
        runs[step].dispatched@ == runs[0].dispatched@ + Run::handed_out(runs, step),
        step == runs.len() - 1 && ended is Done ==> runs[step].recorded@
            == runs[step].dispatched@,
        step == runs.len() - 1 && ended is Done ==> (replies[step] matches Reply::Status(
            WaitStatus::Exited { pid, .. },
        ) && pid == runs[step].parent),
    decreases step,
{
    if step > 0 {
        lemma_trace_counts(runs, replies, actions, ended, step - 1);
        let before = runs[step - 1];
        assert(before.accepts(replies[step - 1], Progress::Pending(runs[step], actions[step - 1])));
        lemma_run_invariant(before, replies[step - 1], Progress::Pending(runs[step], actions[step - 1]));
    }
    if step == runs.len() - 1 && ended is Done {
        lemma_run_completes_at_parent_exit(runs[step], replies[step], ended);
    }
}

} // verus!

use crate::config::{Redirect, RedirectConfig};
use crate::error::Error;
use crate::kernel::{Action, Progress, Reply};
use crate::recorder::FileRecord;
use crate::syscall::SysNum;
use crate::tracer::memory::WriteString;
use crate::tracer::operation::OperationResult;
use crate::tracer::tracee::{GetResult, SetRegisters, Tracee, TraceeView};
use vstd::prelude::*;
use vstd::utf8::encode_utf8;

verus! {

/// The table of paths that the tracee opens in place of others.
#[derive(Debug, PartialEq, Eq)]
pub struct FileManager {
    redirects: Vec<Redirect>,
}

impl FileManager {
    /// The entries of the table, in the order in which they were given.
    pub closed spec fn table(&self) -> Seq<Redirect> {
        self.redirects@
    }

    /// The place of the entry that decides for a path: of those that name
    /// it, the one given last.
    pub open spec fn find(table: Seq<Redirect>, key: Seq<char>) -> Option<int>
        decreases table.len(),
    {
        if table.len() == 0 {
            None
        } else if table.last().from@ == key {
            Some(table.len() - 1)
        } else {
            Self::find(table.drop_last(), key)
        }
    }

    /// The entry that decides for a path, if the table names the path.
    pub open spec fn entry(table: Seq<Redirect>, key: Seq<char>) -> Option<Redirect> {
        match Self::find(table, key) {
            Some(at) => Some(table[at]),
            None => None,
        }
    }

    /// The path that is opened in place of `key`, if the table names `key`.
    pub open spec fn destination_spec(table: Seq<Redirect>, key: Seq<char>) -> Option<Seq<char>> {
        match Self::entry(table, key) {
            Some(entry) => Some(entry.to@),
            None => None,
        }
    }

    /// The paths that random bytes are read from.
    pub open spec fn is_random_device(key: Seq<char>) -> bool {
        key == "/dev/urandom"@ || key == "/dev/random"@
    }

    /// What a table made from the settings answers for a path: what the
    /// listed pairs answer; and, where random bytes are replaced, the device
    /// of zero bytes for a random device that no pair names.
    pub open spec fn configured(config: RedirectConfig, key: Seq<char>) -> Option<Seq<char>> {
        match Self::destination_spec(config.files@, key) {
            Some(to) => Some(to),
            None => if config.random && Self::is_random_device(key) {
                Some("/dev/zero"@)
            } else {
                None
            },
        }
    }

    /// A table of the given pairs.
    pub fn new(redirects: Vec<Redirect>) -> (manager: FileManager)
        ensures
            manager.table() == redirects@,
    {
        FileManager { redirects }
    }

    /// The entry that decides for a path.
    pub fn lookup(&self, key: &String) -> (found: Option<&Redirect>)
        ensures
            match Self::entry(self.table(), key@) {
                Some(entry) => found == Some(&entry),
                None => found is None,
            },
    {
        let mut at = self.redirects.len();
        proof {
            assert(self.redirects@.take(at as int) =~= self.redirects@);
        }
        while at > 0
            invariant
                at <= self.redirects@.len(),
                Self::find(self.redirects@, key@) == Self::find(
                    self.redirects@.take(at as int),
                    key@,
                ),
            decreases at,
        {
            at -= 1;
            proof {
                let shorter = self.redirects@.take(at + 1);
                assert(shorter.last() == self.redirects@[at as int]);
                assert(shorter.drop_last() =~= self.redirects@.take(at as int));
            }
            if self.redirects[at].from == *key {
                return Some(&self.redirects[at]);
            }
        }
        None
    }

    /// The path that is opened in place of `key`, if the table names `key`.
    pub fn destination(&self, key: &String) -> (to: Option<&String>)
        ensures
            match Self::entry(self.table(), key@) {
                Some(entry) => to == Some(&entry.to),
                None => to is None,
            },
            to matches Some(path) ==> Self::destination_spec(self.table(), key@) == Some(path@),
            to is None ==> Self::destination_spec(self.table(), key@) is None,
    {
        match self.lookup(key) {
            Some(entry) => Some(&entry.to),
            None => None,
        }
    }

    fn add_default(&mut self, device: &str)
        ensures
            forall|key: Seq<char>|
                Self::destination_spec(final(self).table(), key) == (match Self::destination_spec(
                    old(self).table(),
                    key,
                ) {
                    Some(to) => Some(to),
                    None => if key == device@ {
                        Some("/dev/zero"@)
                    } else {
                        None
                    },
                }),
    {
        let from = String::from_str(device);
        if self.lookup(&from).is_none() {
            let to = String::from_str("/dev/zero");
            let ghost before = self.redirects@;
            self.redirects.push(Redirect { from, to });
            proof {
                assert(self.redirects@.drop_last() =~= before);
                assert forall|key: Seq<char>|
                    Self::destination_spec(self.redirects@, key) == (match Self::destination_spec(
                        before,
                        key,
                    ) {
                        Some(to) => Some(to),
                        None => if key == device@ {
                            Some("/dev/zero"@)
                        } else {
                            None
                        },
                    }) by {
                    if key != device@ {
                        assert(Self::find(self.redirects@, key) == Self::find(before, key));
                        if Self::find(before, key) is Some {
                            Self::lemma_find_in_range(before, key);
                        }
                    }
                }
            }
        }
    }

    /// An entry that is found lies in the table and names the path.
    pub proof fn lemma_find_in_range(table: Seq<Redirect>, key: Seq<char>)
        ensures
            Self::find(table, key) matches Some(at) ==> 0 <= at < table.len() && table[at].from@
                == key,
        decreases table.len(),
    {
        if table.len() > 0 && table.last().from@ != key {
            Self::lemma_find_in_range(table.drop_last(), key);
        }
    }

    /// The table for given settings.
    pub fn from_config(config: &RedirectConfig) -> (manager: FileManager)
        ensures
            forall|key: Seq<char>|
                Self::destination_spec(manager.table(), key) == Self::configured(*config, key),
    {
        let mut redirects: Vec<Redirect> = Vec::new();
        let mut at: usize = 0;
        while at < config.files.len()
            invariant
                at <= config.files@.len(),
                redirects@ == config.files@.take(at as int),
            decreases config.files@.len() - at,
        {
            redirects.push(config.files[at].clone());
            at += 1;
            proof {
                assert(redirects@ =~= config.files@.take(at as int));
            }
        }
        proof {
            assert(config.files@.take(at as int) =~= config.files@);
        }
        let mut manager = FileManager { redirects };
        if config.random {
            manager.add_default("/dev/urandom");
            manager.add_default("/dev/random");
        }
        manager
    }
}

/// Where the handling of one open stands.
#[derive(Debug, PartialEq, Eq)]
pub enum FileStage {
    /// The path is being resolved.
    Resolving,
    /// The path to open instead is being written into the task.
    Redirecting(WriteString),
    /// The call's path argument is being pointed at what was written.
    Rewriting(SetRegisters),
    /// The result is being read.
    Observing(GetResult),
}

/// The handling of one open, in progress.
#[derive(Debug, PartialEq, Eq)]
pub struct FileTask {
    /// The path that the task asked for.
    pub path: String,
    /// `open` or `openat`.
    pub num: SysNum,
    pub read: bool,
    pub write: bool,
    pub stage: FileStage,
}

impl FileTask {
    /// The record of an open: the path that the task asked for, whether
    /// the call succeeded, and the access that it asked for.
    pub open spec fn record_spec(self, result: OperationResult) -> FileRecord {
        FileRecord {
            path: self.path,
            success: result is Success,
            read: self.read,
            write: self.write,
        }
    }

    /// The last part of the handling: the result is read, and the record
    /// made.
    pub open spec fn observe_spec(self, tracee: TraceeView) -> Progress<FileTask, FileRecord> {
        match Tracee::get_result_spec(tracee) {
            Progress::Pending(get, action) => Progress::Pending(
                FileTask { stage: FileStage::Observing(get), ..self },
                action,
            ),
            Progress::Done(result) => Progress::Done(self.record_spec(result)),
            Progress::Failed(error) => Progress::Failed(error),
        }
    }

    /// The start of a redirection to the path `to`: scratch memory is
    /// mapped for its bytes and a zero byte, which `data` stands for.
    pub open spec fn redirect_spec(self, tracee: TraceeView, to: Seq<char>, data: Vec<u8>) -> Progress<
        FileTask,
        FileRecord,
    > {
        if encode_utf8(to).len() >= usize::MAX {
            Progress::Failed(Error::InvalidInput)
        } else {
            match Tracee::reserve_memory_spec(tracee, (encode_utf8(to).len() + 1) as usize) {
                Progress::Pending(reserve, action) => Progress::Pending(
                    FileTask {
                        stage: FileStage::Redirecting(WriteString::Reserving { reserve, data }),
                        ..self
                    },
                    action,
                ),
                Progress::Done(_) => Progress::Failed(Error::InvalidInput),
                Progress::Failed(error) => Progress::Failed(error),
            }
        }
    }

    /// The argument of the call that holds the path: the first of `open`,
    /// the second of `openat`.
    pub open spec fn path_argument(num: SysNum) -> Option<u8> {
        match num {
            SysNum::Open => Some(1),
            SysNum::OpenAt => Some(2),
            _ => None,
        }
    }

    /// The path argument is pointed at `mem`, where the new path stands.
    pub open spec fn rewrite_spec(self, tracee: TraceeView, mem: u64) -> Progress<
        FileTask,
        FileRecord,
    > {
        match Self::path_argument(self.num) {
            Some(index) => match Tracee::set_arg_spec(tracee, index, mem) {
                Progress::Pending(set, action) => Progress::Pending(
                    FileTask { stage: FileStage::Rewriting(set), ..self },
                    action,
                ),
                Progress::Done(_) => Progress::Failed(Error::InvalidInput),
                Progress::Failed(error) => Progress::Failed(error),
            },
            None => Progress::Failed(Error::InvalidInput),
        }
    }

    /// The path that the table is asked about: the resolved path, or the
    /// path as the task gave it where resolving failed.
    pub open spec fn key(self, reply: Reply) -> Option<Seq<char>> {
        match reply {
            Reply::Path(absolute) => Some(absolute@),
            Reply::Failed(_) => Some(self.path@),
            _ => None,
        }
    }

    /// Whether an answer starts a redirection, and to which path.
    pub open spec fn redirects_to(self, table: Seq<Redirect>, reply: Reply) -> Option<Seq<char>> {
        if self.stage is Resolving && self.key(reply) is Some {
            FileManager::destination_spec(table, self.key(reply)->0)
        } else {
            None
        }
    }

    /// The handling after an answer, where `data` stands for the bytes to
    /// write if the answer starts a redirection.
    ///
    /// Once the path is resolved, the table is asked about it. Where the
    /// table names it, the path to open instead is written into scratch
    /// memory of the task and the call's path argument pointed there. Then
    /// the kernel runs the call and the result is recorded.
    pub open spec fn next(
        self,
        table: Seq<Redirect>,
        tracee: TraceeView,
        reply: Reply,
        data: Vec<u8>,
    ) -> (TraceeView, Progress<FileTask, FileRecord>) {
        match self.stage {
            FileStage::Resolving => match self.key(reply) {
                Some(key) => match FileManager::destination_spec(table, key) {
                    Some(to) => (tracee, self.redirect_spec(tracee, to, data)),
                    None => (tracee, self.observe_spec(tracee)),
                },
                None => (tracee, Progress::Failed(Error::ProtocolViolation)),
            },
            FileStage::Redirecting(write) => {
                let (after, progress) = write.next(tracee, reply);
                match progress {
                    Progress::Pending(write, action) => (
                        after,
                        Progress::Pending(
                            FileTask { stage: FileStage::Redirecting(write), ..self },
                            action,
                        ),
                    ),
                    Progress::Done(mem) => (after, self.rewrite_spec(after, mem)),
                    Progress::Failed(error) => (after, Progress::Failed(error)),
                }
            },
            FileStage::Rewriting(set) => {
                let (after, progress) = set.next(tracee, reply);
                match progress {
                    Progress::Done(_) => (after, self.observe_spec(after)),
                    Progress::Failed(error) => (after, Progress::Failed(error)),
                    Progress::Pending(_, _) => (after, Progress::Failed(Error::ProtocolViolation)),
                }
            },
            FileStage::Observing(get) => {
                let (after, progress) = get.next(tracee, reply);
                match progress {
                    Progress::Pending(get, action) => (
                        after,
                        Progress::Pending(
                            FileTask { stage: FileStage::Observing(get), ..self },
                            action,
                        ),
                    ),
                    Progress::Done(result) => (after, Progress::Done(self.record_spec(result))),
                    Progress::Failed(error) => (after, Progress::Failed(error)),
                }
            },
        }
    }

    /// The bytes that a redirection in its first stage will write.
    pub open spec fn staged(progress: Progress<FileTask, FileRecord>) -> Vec<u8> {
        match progress {
            Progress::Pending(
                FileTask { stage: FileStage::Redirecting(WriteString::Reserving { data, .. }), .. },
                _,
            ) => data,
            _ => arbitrary(),
        }
    }

    fn observe(self, tracee: &Tracee) -> (progress: Progress<FileTask, FileRecord>)
        ensures
            progress == self.observe_spec(tracee@),
    {
        match tracee.get_result() {
            Progress::Pending(get, action) => Progress::Pending(
                FileTask {
                    path: self.path,
                    num: self.num,
                    read: self.read,
                    write: self.write,
                    stage: FileStage::Observing(get),
                },
                action,
            ),
            Progress::Done(result) => Progress::Done(self.record(result)),
            Progress::Failed(error) => Progress::Failed(error),
        }
    }

    fn record(self, result: OperationResult) -> (record: FileRecord)
        ensures
            record == self.record_spec(result),
    {
        let success = match result {
            OperationResult::Success(_) => true,
            OperationResult::Error(_) => false,
        };
        FileRecord { path: self.path, success, read: self.read, write: self.write }
    }

    fn redirect(self, tracee: &Tracee, to: &String) -> (progress: Progress<FileTask, FileRecord>)
        ensures
            progress == self.redirect_spec(tracee@, to@, Self::staged(progress)),
            progress is Pending ==> Self::staged(progress)@ == encode_utf8(to@).push(0),
    {
        match tracee.write_string(to.as_str()) {
            Progress::Pending(write, action) => Progress::Pending(
                FileTask {
                    path: self.path,
                    num: self.num,
                    read: self.read,
                    write: self.write,
                    stage: FileStage::Redirecting(write),
                },
                action,
            ),
            Progress::Done(_) => Progress::Failed(Error::InvalidInput),
            Progress::Failed(error) => Progress::Failed(error),
        }
    }

    fn rewrite(self, tracee: &Tracee, mem: u64) -> (progress: Progress<FileTask, FileRecord>)
        ensures
            progress == self.rewrite_spec(tracee@, mem),
    {
        let index: u8 = match self.num {
            SysNum::Open => 1,
            SysNum::OpenAt => 2,
            _ => {
                return Progress::Failed(Error::InvalidInput);
            },
        };
        match tracee.set_arg(index, mem) {
            Progress::Pending(set, action) => Progress::Pending(
                FileTask {
                    path: self.path,
                    num: self.num,
                    read: self.read,
                    write: self.write,
                    stage: FileStage::Rewriting(set),
                },
                action,
            ),
            Progress::Done(_) => Progress::Failed(Error::InvalidInput),
            Progress::Failed(error) => Progress::Failed(error),
        }
    }

    /// Takes the answer to the last request. What a redirection writes
    /// into the task is the path that the table gives, as its bytes with a
    /// zero byte behind them.
    pub fn resume(self, manager: &FileManager, tracee: &mut Tracee, reply: Reply) -> (progress:
        Progress<FileTask, FileRecord>)
        ensures
            (final(tracee)@, progress) == self.next(
                manager.table(),
                old(tracee)@,
                reply,
                Self::staged(progress),
            ),
            self.redirects_to(manager.table(), reply) is Some && progress is Pending
                ==> Self::staged(progress)@ == encode_utf8(
                self.redirects_to(manager.table(), reply)->0,
            ).push(0),
    {
        let FileTask { path, num, read, write, stage } = self;
        let task = FileTask { path, num, read, write, stage: FileStage::Resolving };
        match stage {
            FileStage::Resolving => {
                let found = match &reply {
                    Reply::Path(absolute) => manager.destination(absolute),
                    Reply::Failed(_) => manager.destination(&task.path),
                    _ => {
                        return Progress::Failed(Error::ProtocolViolation);
                    },
                };
                match found {
                    Some(to) => task.redirect(tracee, to),
                    None => task.observe(tracee),
                }
            },
            FileStage::Redirecting(writing) => match writing.resume(tracee, reply) {
                Progress::Pending(writing, action) => Progress::Pending(
                    FileTask { stage: FileStage::Redirecting(writing), ..task },
                    action,
                ),
                Progress::Done(mem) => task.rewrite(tracee, mem),
                Progress::Failed(error) => Progress::Failed(error),
            },
            FileStage::Rewriting(set) => match set.resume(tracee, reply) {
                Progress::Done(_) => task.observe(tracee),
                Progress::Failed(error) => Progress::Failed(error),
                Progress::Pending(_, _) => Progress::Failed(Error::ProtocolViolation),
            },
            FileStage::Observing(get) => match get.resume(tracee, reply) {
                Progress::Pending(get, action) => Progress::Pending(
                    FileTask { stage: FileStage::Observing(get), ..task },
                    action,
                ),
                Progress::Done(result) => Progress::Done(task.record(result)),
                Progress::Failed(error) => Progress::Failed(error),
            },
        }
    }
}

impl FileManager {
    /// Handles an open by the task of `path`: the handling starts by having
    /// the path resolved.
    pub fn process(&self, path: String, num: SysNum, read: bool, write: bool) -> (progress: Progress<
        FileTask,
        FileRecord,
    >)
        ensures
            progress matches Progress::Pending(task, Action::Canonicalize { path: asked })
                && task.path == path && task.num == num && task.read == read && task.write
                == write && task.stage is Resolving && asked == path,
    {
        let asked = path.clone();
        Progress::Pending(
            FileTask { path, num, read, write, stage: FileStage::Resolving },
            Action::Canonicalize { path: asked },
        )
    }
}

/// The record of an open holds the path that the task asked for, whether or
/// not the open was redirected: the handling carries the path through every
/// stage unchanged and hands it out in the record.
pub proof fn lemma_record_keeps_path(
    task: FileTask,
    table: Seq<Redirect>,
    tracee: TraceeView,
    reply: Reply,
    data: Vec<u8>,
)
    ensures
        task.next(table, tracee, reply, data).1 matches Progress::Done(record) ==> record.path
            == task.path && record.read == task.read && record.write == task.write,
        task.next(table, tracee, reply, data).1 matches Progress::Pending(following, _)
            ==> following.path == task.path && following.num == task.num && following.read
            == task.read && following.write == task.write,
{
}

/// The handling of an open asks for nothing but to step the task and to
/// write into it: once the path is resolved, no path is resolved again, and
/// no record is appended by the handler itself.
pub proof fn lemma_file_requests(
    task: FileTask,
    table: Seq<Redirect>,
    tracee: TraceeView,
    reply: Reply,
    data: Vec<u8>,
)
    ensures
        task.next(table, tracee, reply, data).0.pid == tracee.pid,
        task.next(table, tracee, reply, data).1 matches Progress::Pending(_, action)
            ==> action.steps(tracee.pid) || (action is Write && action.target() == Some(
            tracee.pid,
        )),
{
    crate::tracer::tracee::lemma_handle_requests(tracee);
    match task.stage {
        FileStage::Resolving => {
            crate::tracer::inject::lemma_scratch_requests(tracee);
        },
        FileStage::Redirecting(write) => {
            crate::tracer::memory::lemma_write_string_requests(write, tracee, reply);
            crate::tracer::tracee::lemma_handle_requests(write.next(tracee, reply).0);
        },
        FileStage::Rewriting(set) => {
            crate::tracer::tracee::lemma_handle_requests(set.next(tracee, reply).0);
        },
        FileStage::Observing(get) => {
            crate::tracer::tracee::lemma_step_requests(get.step, tracee, reply);
        },
    }
}

/// Of the pairs that name a path, the one given last decides: a pair that is
/// added to a table answers for its own path from then on, and changes the
/// answer for no other.
pub proof fn lemma_last_pair_decides(table: Seq<Redirect>, pair: Redirect, key: Seq<char>)
    ensures
        FileManager::destination_spec(table.push(pair), key) == if key == pair.from@ {
            Some(pair.to@)
        } else {
            FileManager::destination_spec(table, key)
        },
        FileManager::destination_spec(Seq::<Redirect>::empty(), key) is None,
{
    assert(table.push(pair).drop_last() =~= table);
    if key != pair.from@ && FileManager::find(table, key) is Some {
        FileManager::lemma_find_in_range(table, key);
    }
}

} // verus!

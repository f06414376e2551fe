use crate::error::Error;
use crate::kernel::{Action, Progress, Reply};
use crate::recorder::{TimeRecord, Timestamp};
use crate::syscall::{Clock, SysNum};
use crate::tracer::memory::{ReadMemory, WriteBytes};
use crate::tracer::operation::OperationResult;
use crate::tracer::tracee::{GetResult, Tracee, TraceeView};
use vstd::bytes::{
    lemma_auto_spec_u64_to_from_le_bytes, spec_u64_from_le_bytes, spec_u64_to_le_bytes,
    u64_from_le_bytes, u64_to_le_bytes,
};
use vstd::prelude::*;
use vstd::slice::slice_subrange;

verus! {

/// The size of the structure that the kernel answers a time query with: two
/// 64-bit fields, seconds and nanoseconds, low byte first.
pub const TIMESPEC_LEN: usize = 16;

/// The bytes of a point in time in the kernel's layout.
pub open spec fn encode_spec(time: Timestamp) -> Seq<u8> {
    spec_u64_to_le_bytes(time.seconds) + spec_u64_to_le_bytes(time.nanoseconds)
}

/// The point in time that 16 bytes in the kernel's layout hold.
pub open spec fn decode_spec(bytes: Seq<u8>) -> Timestamp {
    Timestamp {
        seconds: spec_u64_from_le_bytes(bytes.subrange(0, 8)),
        nanoseconds: spec_u64_from_le_bytes(bytes.subrange(8, 16)),
    }
}

/// Encoding gives 16 bytes, and decoding them gives the time back.
pub proof fn lemma_encode_decode(time: Timestamp)
    ensures
        encode_spec(time).len() == TIMESPEC_LEN,
        decode_spec(encode_spec(time)) == time,
{
    lemma_auto_spec_u64_to_from_le_bytes();
    let low = spec_u64_to_le_bytes(time.seconds);
    let high = spec_u64_to_le_bytes(time.nanoseconds);
    assert(encode_spec(time).subrange(0, 8) =~= low);
    assert(encode_spec(time).subrange(8, 16) =~= high);
}

/// Decoding gives a time whose encoding is the 16 bytes that were decoded.
pub proof fn lemma_decode_encode(bytes: Seq<u8>)
    requires
        bytes.len() == TIMESPEC_LEN,
    ensures
        encode_spec(decode_spec(bytes)) == bytes,
{
    lemma_auto_spec_u64_to_from_le_bytes();
    let low = bytes.subrange(0, 8);
    let high = bytes.subrange(8, 16);
    assert(spec_u64_to_le_bytes(spec_u64_from_le_bytes(low)) == low);
    assert(spec_u64_to_le_bytes(spec_u64_from_le_bytes(high)) == high);
    assert(low + high =~= bytes);
}

/// Lays a point in time out as the kernel does.
pub fn encode(time: &Timestamp) -> (bytes: Vec<u8>)
    ensures
        bytes@ == encode_spec(*time),
        bytes@.len() == TIMESPEC_LEN,
{
    let mut bytes = u64_to_le_bytes(time.seconds);
    let mut high = u64_to_le_bytes(time.nanoseconds);
    bytes.append(&mut high);
    bytes
}

/// Reads a point in time from the kernel's layout.
pub fn decode(bytes: &Vec<u8>) -> (time: Timestamp)
    requires
        bytes@.len() == TIMESPEC_LEN,
    ensures
        time == decode_spec(bytes@),
{
    let seconds = u64_from_le_bytes(slice_subrange(bytes.as_slice(), 0, 8));
    let nanoseconds = u64_from_le_bytes(slice_subrange(bytes.as_slice(), 8, 16));
    Timestamp { seconds, nanoseconds }
}

/// The time that the tracee is told, where one is configured.
#[derive(Copy, Clone, Debug, PartialEq, Eq, Structural)]
pub struct TimeManager {
    time: Option<Timestamp>,
}

/// Where the handling of one time query stands.
#[derive(Copy, Clone, Debug, PartialEq, Eq, Structural)]
pub enum TimeStage {
    /// The result is being read.
    Observing(GetResult),
    /// The time that the kernel answered is being read from the task.
    Reading(ReadMemory),
    /// The configured time is being written over the time `observed`.
    Writing { write: WriteBytes, observed: Timestamp },
}

/// The handling of one time query, in progress.
#[derive(Copy, Clone, Debug, PartialEq, Eq, Structural)]
pub struct TimeTask {
    /// The time to report, if one is configured.
    pub time: Option<Timestamp>,
    pub num: SysNum,
    pub clock: Clock,
    /// Where the task wants the answer.
    pub addr: u64,
    pub stage: TimeStage,
}

impl TimeTask {
    /// The record of a query: the clock, and the time that the kernel
    /// answered where it did.
    pub open spec fn record_spec(self, observed: Option<Timestamp>) -> TimeRecord {
        TimeRecord { clock: self.clock, time: observed }
    }

    /// What follows once the result is known. A query that failed is
    /// recorded without a time. The answer of one that succeeded is read
    /// from the task; that is defined for `clock_gettime` returning 0.
    pub open spec fn answer_spec(self, tracee: TraceeView, result: OperationResult) -> Progress<
        TimeTask,
        TimeRecord,
    > {
        match result {
            OperationResult::Error(_) => Progress::Done(self.record_spec(None)),
            OperationResult::Success(code) => if code == 0 && self.num == SysNum::ClockGetTime {
                Progress::Pending(
                    TimeTask {
                        stage: TimeStage::Reading(ReadMemory::Block { len: TIMESPEC_LEN }),
                        ..self
                    },
                    Action::Read { pid: tracee.pid, addr: self.addr, len: TIMESPEC_LEN },
                )
            } else {
                Progress::Failed(Error::ProtocolViolation)
            },
        }
    }

    /// Whether the answer of the kernel is replaced: where a time is
    /// configured and the clock is a wall clock.
    pub open spec fn overrides(self) -> bool {
        self.time is Some && self.clock.is_realtime()
    }

    /// What follows once the kernel's answer has been read: where it is
    /// replaced, the write of `data` in its place; the record otherwise.
    pub open spec fn settle_spec(self, tracee: TraceeView, observed: Timestamp, data: Vec<u8>) -> Progress<
        TimeTask,
        TimeRecord,
    > {
        if self.overrides() {
            Progress::Pending(
                TimeTask { stage: TimeStage::Writing { write: WriteBytes, observed }, ..self },
                Action::Write { pid: tracee.pid, addr: self.addr, data },
            )
        } else {
            Progress::Done(self.record_spec(Some(observed)))
        }
    }

    /// Whether an answer makes the handling write the configured time.
    pub open spec fn writes(self, reply: Reply) -> bool {
        self.stage matches TimeStage::Reading(read) && read.bytes(reply) matches Some(bytes)
            && bytes.len() == TIMESPEC_LEN && self.overrides()
    }

    /// The handling after an answer, where `data` stands for the bytes
    /// written if the answer makes it write any.
    pub open spec fn next(self, tracee: TraceeView, reply: Reply, data: Vec<u8>) -> (
        TraceeView,
        Progress<TimeTask, TimeRecord>,
    ) {
        match self.stage {
            TimeStage::Observing(get) => {
                let (after, progress) = get.next(tracee, reply);
                match progress {
                    Progress::Pending(get, action) => (
                        after,
                        Progress::Pending(
                            TimeTask { stage: TimeStage::Observing(get), ..self },
                            action,
                        ),
                    ),
                    Progress::Done(result) => (after, self.answer_spec(after, result)),
                    Progress::Failed(error) => (after, Progress::Failed(error)),
                }
            },
            TimeStage::Reading(read) => match read.bytes(reply) {
                Some(bytes) => if bytes.len() == TIMESPEC_LEN {
                    (tracee, self.settle_spec(tracee, decode_spec(bytes), data))
                } else {
                    (tracee, Progress::Failed(Error::ProtocolViolation))
                },
                None => (tracee, Progress::Failed(read.failure(reply))),
            },
            TimeStage::Writing { write, observed } => match write.next(reply) {
                Progress::Done(_) => (tracee, Progress::Done(self.record_spec(Some(observed)))),
                Progress::Failed(error) => (tracee, Progress::Failed(error)),
                Progress::Pending(_, _) => (tracee, Progress::Failed(Error::ProtocolViolation)),
            },
        }
    }

    fn answer(self, tracee: &Tracee, result: OperationResult) -> (progress: Progress<
        TimeTask,
        TimeRecord,
    >)
        ensures
            progress == self.answer_spec(tracee@, result),
    {
        match result {
            OperationResult::Error(_) => Progress::Done(
                TimeRecord { clock: self.clock, time: None },
            ),
            OperationResult::Success(code) => {
                if code == 0 && self.num == SysNum::ClockGetTime {
                    Progress::Pending(
                        TimeTask {
                            time: self.time,
                            num: self.num,
                            clock: self.clock,
                            addr: self.addr,
                            stage: TimeStage::Reading(ReadMemory::Block { len: TIMESPEC_LEN }),
                        },
                        Action::Read { pid: tracee.pid, addr: self.addr, len: TIMESPEC_LEN },
                    )
                } else {
                    Progress::Failed(Error::ProtocolViolation)
                }
            },
        }
    }

    fn settle(self, tracee: &Tracee, observed: Timestamp) -> (progress: Progress<
        TimeTask,
        TimeRecord,
    >)
        ensures
            progress == self.settle_spec(tracee@, observed, progress.payload()),
            self.overrides() ==> progress.payload()@ == encode_spec(self.time->0),
    {
        match self.time {
            Some(time) => match self.clock {
                Clock::Realtime(_) => {
                    return Progress::Pending(
                        TimeTask {
                            time: self.time,
                            num: self.num,
                            clock: self.clock,
                            addr: self.addr,
                            stage: TimeStage::Writing { write: WriteBytes, observed },
                        },
                        Action::Write { pid: tracee.pid, addr: self.addr, data: encode(&time) },
                    );
                },
                _ => {},
            },
            None => {},
        }
        Progress::Done(TimeRecord { clock: self.clock, time: Some(observed) })
    }

    /// Takes the answer to the last request. What is written over the
    /// kernel's answer is the configured time in the kernel's layout.
    pub fn resume(self, tracee: &mut Tracee, reply: Reply) -> (progress: Progress<
        TimeTask,
        TimeRecord,
    >)
        ensures
            (final(tracee)@, progress) == self.next(old(tracee)@, reply, progress.payload()),
            self.writes(reply) ==> progress.payload()@ == encode_spec(self.time->0),
    {
        match self.stage {
            TimeStage::Observing(get) => match get.resume(tracee, reply) {
                Progress::Pending(get, action) => Progress::Pending(
                    TimeTask {
                        time: self.time,
                        num: self.num,
                        clock: self.clock,
                        addr: self.addr,
                        stage: TimeStage::Observing(get),
                    },
                    action,
                ),
                Progress::Done(result) => self.answer(tracee, result),
                Progress::Failed(error) => Progress::Failed(error),
            },
            TimeStage::Reading(read) => match read.resume(reply) {
                Progress::Done(bytes) => {
                    if bytes.len() == TIMESPEC_LEN {
                        let observed = decode(&bytes);
                        self.settle(tracee, observed)
                    } else {
                        Progress::Failed(Error::ProtocolViolation)
                    }
                },
                Progress::Failed(error) => Progress::Failed(error),
                Progress::Pending(_, _) => Progress::Failed(Error::ProtocolViolation),
            },
            TimeStage::Writing { write, observed } => match write.resume(reply) {
                Progress::Done(_) => Progress::Done(
                    TimeRecord { clock: self.clock, time: Some(observed) },
                ),
                Progress::Failed(error) => Progress::Failed(error),
                Progress::Pending(_, _) => Progress::Failed(Error::ProtocolViolation),
            },
        }
    }
}

impl TimeManager {
    /// The time to report, if one is configured.
    pub closed spec fn time(&self) -> Option<Timestamp> {
        self.time
    }

    /// A configured time is a number of whole seconds since the epoch.
    pub open spec fn configured(timestamp: Option<u64>) -> Option<Timestamp> {
        match timestamp {
            Some(seconds) => Some(Timestamp { seconds, nanoseconds: 0 }),
            None => None,
        }
    }

    /// How the handling of a query starts: with the read of its result.
    pub open spec fn process_spec(
        time: Option<Timestamp>,
        tracee: TraceeView,
        num: SysNum,
        clock: Clock,
        addr: u64,
    ) -> Progress<TimeTask, TimeRecord> {
        let task = TimeTask {
            time,
            num,
            clock,
            addr,
            stage: TimeStage::Reading(ReadMemory::Block { len: TIMESPEC_LEN }),
        };
        match Tracee::get_result_spec(tracee) {
            Progress::Pending(get, action) => Progress::Pending(
                TimeTask { stage: TimeStage::Observing(get), ..task },
                action,
            ),
            Progress::Done(result) => task.answer_spec(tracee, result),
            Progress::Failed(error) => Progress::Failed(error),
        }
    }

    /// A handler that reports `timestamp` seconds since the epoch on wall
    /// clocks, where a timestamp is given.
    pub fn new(timestamp: Option<u64>) -> (manager: TimeManager)
        ensures
            manager.time() == Self::configured(timestamp),
    {
        let time = match timestamp {
            Some(seconds) => Some(Timestamp { seconds, nanoseconds: 0 }),
            None => None,
        };
        TimeManager { time }
    }

    /// Handles a time query of the task: `clock` is the clock that it
    /// reads, and `addr` is where it wants the answer.
    pub fn process(&self, tracee: &Tracee, num: SysNum, clock: Clock, addr: u64) -> (progress:
        Progress<TimeTask, TimeRecord>)
        ensures
            progress == Self::process_spec(self.time(), tracee@, num, clock, addr),
    {
        let task = TimeTask {
            time: self.time,
            num,
            clock,
            addr,
            stage: TimeStage::Reading(ReadMemory::Block { len: TIMESPEC_LEN }),
        };
        match tracee.get_result() {
            Progress::Pending(get, action) => Progress::Pending(
                TimeTask { time: self.time, num, clock, addr, stage: TimeStage::Observing(get) },
                action,
            ),
            Progress::Done(result) => task.answer(tracee, result),
            Progress::Failed(error) => Progress::Failed(error),
        }
    }
}

/// Where a time of `seconds` whole seconds is configured and the task reads
/// a wall clock, what is written into the task decodes to exactly `seconds`
/// seconds and no nanoseconds, whatever the kernel answered; and the record
/// holds what the kernel answered. The answer for any other clock is left
/// alone.
pub proof fn lemma_time_override(
    task: TimeTask,
    tracee: TraceeView,
    observed: Timestamp,
    data: Vec<u8>,
    seconds: u64,
)
    requires
        task.time == TimeManager::configured(Some(seconds)),
        data@ == encode_spec(task.time->0),
    ensures
        task.clock.is_realtime() ==> (task.settle_spec(tracee, observed, data) matches Progress::Pending(
            TimeTask { stage: TimeStage::Writing { observed: kept, .. }, .. },
            Action::Write { pid, addr, data: written },
        ) && kept == observed && pid == tracee.pid && addr == task.addr && decode_spec(written@) == (
        Timestamp { seconds, nanoseconds: 0 })),
        !task.clock.is_realtime() ==> task.settle_spec(tracee, observed, data) == Progress::<
            TimeTask,
            TimeRecord,
        >::Done(TimeRecord { clock: task.clock, time: Some(observed) }),
{
    lemma_encode_decode(task.time->0);
}

/// The handling of a time query steps the task, but for two requests: the
/// read of the kernel's answer where the task wants it, and the write of
/// the configured time in its place.
pub proof fn lemma_time_requests(task: TimeTask, tracee: TraceeView, reply: Reply, data: Vec<u8>)
    ensures
        task.next(tracee, reply, data).0.pid == tracee.pid,
        task.next(tracee, reply, data).1 matches Progress::Pending(_, action) ==> action.steps(
            tracee.pid,
        ) || action == (Action::Read { pid: tracee.pid, addr: task.addr, len: TIMESPEC_LEN }) || (
        task.writes(reply) && action == (Action::Write { pid: tracee.pid, addr: task.addr, data })),
{
    match task.stage {
        TimeStage::Observing(get) => {
            crate::tracer::tracee::lemma_step_requests(get.step, tracee, reply);
        },
        _ => {},
    }
}

} // verus!

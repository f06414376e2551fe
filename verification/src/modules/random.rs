use crate::error::Error;
use crate::kernel::{Action, Progress, Reply};
use crate::recorder::RandomRecord;
use crate::tracer::memory::WriteBytes;
use crate::tracer::tracee::{GetResult, SetRegisters, Tracee, TraceeView};
use rand::rngs::StdRng;
use rand::{RngCore, SeedableRng};
use vstd::prelude::*;

verus! {

/// The seed of the generator that stands in for the kernel's.
pub const SEED: u64 = 0xdeadbeef;

/// The number of 32-bit words after which the generator's output starts
/// over: 16 words for each value of its 64-bit block counter.
pub const PERIOD: u128 = 0x10_0000_0000_0000_0000;

/// `rand::rngs::StdRng`, the generator; nothing inside it is visible here.
#[verifier::external_type_specification]
#[verifier::external_body]
pub struct ExStdRng(rand::rngs::StdRng);

/// The 32-byte key that a generator holds.
pub uninterp spec fn generator_key(rng: StdRng) -> Seq<u8>;

/// The number of the stream that a generator is in.
pub uninterp spec fn generator_stream(rng: StdRng) -> u64;

/// Where a generator stands in its stream: the offset from the start, in
/// 32-bit words. It is less than `PERIOD`.
pub uninterp spec fn generator_position(rng: StdRng) -> nat;

/// The key that a generator gets when it is made from a 64-bit seed.
pub uninterp spec fn seed_key(seed: u64) -> Seq<u8>;

/// The bytes that a generator with the given key, in the given stream and
/// at the given position, writes into a buffer of `len` bytes.
pub uninterp spec fn generator_output(key: Seq<u8>, stream: u64, position: nat, len: nat) -> Seq<
    u8,
>;

/// Where a generator stands after a fill of `len` bytes from `position`: it
/// moves on by the length in words, rounded up, and starts over at the end
/// of the period.
pub open spec fn advanced(position: nat, len: nat) -> nat {
    (position + (len + 3) / 4) % (PERIOD as nat)
}

/// Makes a generator with `StdRng::seed_from_u64`. The seed is expanded
/// into the key, and the generator stands at the start of stream 0.
#[verifier::external_body]
fn seeded_generator(seed: u64) -> (rng: StdRng)
    ensures
        generator_key(rng) == seed_key(seed),
        generator_stream(rng) == 0,
        generator_position(rng) == 0,
{
    StdRng::seed_from_u64(seed)
}

/// Fills a new buffer of `len` bytes with `RngCore::fill_bytes`. What the
/// generator writes is fixed by its key, its stream and its position. It
/// takes whole 32-bit words, low byte first, and leaves the rest of the
/// last word unused, so it moves on by the length in words, rounded up,
/// and starts over at the end of the period; a fill of no bytes leaves it
/// where it was. Key and stream stay. A buffer can be made where its length
/// fits `isize`, and the fill itself cannot fail.
#[verifier::external_body]
fn fill_buffer(rng: &mut StdRng, len: usize) -> (buf: Vec<u8>)
    requires
        len <= isize::MAX,
    ensures
        buf@.len() == len,
        buf@ == generator_output(
            generator_key(*old(rng)),
            generator_stream(*old(rng)),
            generator_position(*old(rng)),
            len as nat,
        ),
        generator_key(*final(rng)) == generator_key(*old(rng)),
        generator_stream(*final(rng)) == generator_stream(*old(rng)),
        generator_position(*final(rng)) == advanced(generator_position(*old(rng)), len as nat),
    no_unwind
{
    let mut buf = vec![0u8; len];
    rng.fill_bytes(&mut buf);
    buf
}

/// The source of the bytes that the tracee gets for random ones.
pub struct RandomManager {
    rng: StdRng,
    active: bool,
    /// The lengths of the requests served so far, oldest first.
    fills: Ghost<Seq<nat>>,
}

impl RandomManager {
    /// Where the generator stands after it has served requests of the
    /// given lengths.
    pub open spec fn position_after(fills: Seq<nat>) -> nat
        decreases fills.len(),
    {
        if fills.len() == 0 {
            0
        } else {
            advanced(Self::position_after(fills.drop_last()), fills.last())
        }
    }

    /// The bytes that a request of `len` bytes gets after requests of the
    /// lengths `fills`: what a generator made from the fixed seed writes
    /// where it then stands.
    pub open spec fn served(fills: Seq<nat>, len: nat) -> Seq<u8> {
        generator_output(seed_key(SEED), 0, Self::position_after(fills), len)
    }

    /// The generator is the one made from the fixed seed, and stands where
    /// the requests served so far have taken it.
    #[verifier::type_invariant]
    spec fn seeded(&self) -> bool {
        Self::tracks(self.rng, self.fills@)
    }

    /// Whether a generator is the one made from the fixed seed, after
    /// requests of the lengths `fills`.
    spec fn tracks(rng: StdRng, fills: Seq<nat>) -> bool {
        &&& generator_key(rng) == seed_key(SEED)
        &&& generator_stream(rng) == 0
        &&& generator_position(rng) == Self::position_after(fills)
    }

    /// Whether the tracee's random bytes are replaced.
    pub closed spec fn active(&self) -> bool {
        self.active
    }

    /// The lengths of the requests served so far, oldest first.
    pub closed spec fn fills(&self) -> Seq<nat> {
        self.fills@
    }

    /// All bytes served over requests of the given lengths, in the order of
    /// the requests.
    pub open spec fn stream(fills: Seq<nat>) -> Seq<u8>
        decreases fills.len(),
    {
        if fills.len() == 0 {
            Seq::empty()
        } else {
            Self::stream(fills.drop_last()) + Self::served(fills.drop_last(), fills.last())
        }
    }

    /// A fresh generator made from the fixed seed, and whether the
    /// tracee's random bytes are to come from it.
    pub fn new(active: bool) -> (manager: RandomManager)
        ensures
            manager.active() == active,
            manager.fills() == Seq::<nat>::empty(),
    {
        RandomManager { active, rng: seeded_generator(SEED), fills: Ghost(Seq::empty()) }
    }

    /// Whether the tracee's random bytes are replaced.
    pub fn is_active(&self) -> (active: bool)
        ensures
            active == self.active(),
    {
        self.active
    }

    /// Takes the next `len` bytes from the generator and notes the request.
    fn draw(rng: &mut StdRng, fills: &mut Ghost<Seq<nat>>, len: usize) -> (buf: Vec<u8>)
        requires
            len <= isize::MAX,
            Self::tracks(*old(rng), old(fills)@),
        ensures
            buf@.len() == len,
            buf@ == Self::served(old(fills)@, len as nat),
            final(fills)@ == old(fills)@.push(len as nat),
            Self::tracks(*final(rng), final(fills)@),
        no_unwind
    {
        let buf = fill_buffer(rng, len);
        proof {
            let before = fills@;
            *fills = Ghost(before.push(len as nat));
            assert(fills@.drop_last() =~= before);
        }
        buf
    }

    /// Whether a manager that was `before` serves `buf` to a request of
    /// `len` bytes, and is `after` then: the bytes are those that the
    /// seeded generator writes after the requests before, and the request
    /// is then one of them.
    pub open spec fn serves(
        before: RandomManager,
        len: usize,
        buf: Seq<u8>,
        after: RandomManager,
    ) -> bool {
        &&& buf.len() == len
        &&& buf == Self::served(before.fills(), len as nat)
        &&& after.fills() == before.fills().push(len as nat)
        &&& after.active() == before.active()
    }

    /// Whether a manager that was fresh as `states[0]` has served requests
    /// of the lengths `lens` one after the other, with `bufs` for what it
    /// served and `states` for what it was in between.
    pub open spec fn run_of(
        states: Seq<RandomManager>,
        lens: Seq<usize>,
        bufs: Seq<Seq<u8>>,
    ) -> bool {
        &&& states.len() == lens.len() + 1
        &&& bufs.len() == lens.len()
        &&& states[0].fills() == Seq::<nat>::empty()
        &&& forall|at: int|
            0 <= at < lens.len() ==> Self::serves(
                states[at],
                lens[at],
                #[trigger] bufs[at],
                states[at + 1],
            )
    }

    /// The lengths of the first `count` of a run of requests.
    pub open spec fn asked(lens: Seq<usize>, count: int) -> Seq<nat> {
        Seq::new(count as nat, |at: int| lens[at] as nat)
    }

    /// The next `len` bytes of the seeded generator.
    pub fn getrandom(&mut self, len: usize) -> (buf: Vec<u8>)
        requires
            len <= isize::MAX,
        ensures
            Self::serves(*old(self), len, buf@, *final(self)),
            buf@.len() == len,
            buf@ == Self::served(old(self).fills(), len as nat),
            final(self).fills() == old(self).fills().push(len as nat),
            final(self).active() == old(self).active(),
            Self::stream(final(self).fills()) == Self::stream(old(self).fills()) + buf@,
    {
        proof {
            use_type_invariant(&*self);
        }
        let buf = Self::draw(&mut self.rng, &mut self.fills, len);
        proof {
            assert(self.fills@.drop_last() =~= old(self).fills@);
        }
        buf
    }
}

/// Where the handling of one request for random bytes stands.
#[derive(Copy, Clone, Debug, PartialEq, Eq, Structural)]
pub enum RandomStage {
    /// The task is being stepped over the call, before its result is
    /// replaced.
    Stepping(GetResult),
    /// The bytes are being written into the task's buffer.
    Writing(WriteBytes),
    /// The return value is being replaced by the length.
    Setting(SetRegisters),
    /// The result is being read.
    Observing(GetResult),
}

/// The handling of one request for random bytes, in progress.
#[derive(Copy, Clone, Debug, PartialEq, Eq, Structural)]
pub struct RandomTask {
    /// How many bytes the task asked for.
    pub len: usize,
    /// Where the task's buffer is.
    pub addr: u64,
    pub stage: RandomStage,
}

impl RandomTask {
    /// The record of the request: the length that was asked for.
    pub open spec fn record_spec(self) -> RandomRecord {
        RandomRecord { length: self.len }
    }

    /// The last part of the handling: the result is read, and the record
    /// made.
    pub open spec fn observe_spec(self, tracee: TraceeView) -> Progress<RandomTask, RandomRecord> {
        match Tracee::get_result_spec(tracee) {
            Progress::Pending(get, action) => Progress::Pending(
                RandomTask { stage: RandomStage::Observing(get), ..self },
                action,
            ),
            Progress::Done(_) => Progress::Done(self.record_spec()),
            Progress::Failed(error) => Progress::Failed(error),
        }
    }

    /// Whether the bytes for the request can be held in one buffer.
    pub open spec fn servable(self) -> bool {
        self.len <= isize::MAX
    }

    /// The write of the bytes `data` into the task's buffer.
    pub open spec fn deliver_spec(self, tracee: TraceeView, data: Vec<u8>) -> Progress<
        RandomTask,
        RandomRecord,
    > {
        if self.servable() {
            Progress::Pending(
                RandomTask { stage: RandomStage::Writing(WriteBytes), ..self },
                Action::Write { pid: tracee.pid, addr: self.addr, data },
            )
        } else {
            Progress::Failed(Error::InvalidInput)
        }
    }

    /// The replacement of the return value by the length.
    pub open spec fn settle_spec(self, tracee: TraceeView) -> Progress<RandomTask, RandomRecord> {
        Progress::Pending(
            RandomTask {
                stage: RandomStage::Setting(
                    SetRegisters { registers: tracee.registers.with_result_spec(self.len as u64) },
                ),
                ..self
            },
            Action::SetRegisters {
                pid: tracee.pid,
                registers: tracee.registers.with_result_spec(self.len as u64),
            },
        )
    }

    /// Whether an answer makes the handling take bytes from the generator:
    /// when it ends the step over the call.
    pub open spec fn draws(self, tracee: TraceeView, reply: Reply) -> bool {
        self.stage matches RandomStage::Stepping(get) && get.next(tracee, reply).1 is Done
            && self.servable()
    }

    /// The handling after an answer, where `data` stands for the bytes
    /// taken from the generator if the answer makes it take any. Once the
    /// task is over the call the bytes are written to its buffer, then the
    /// return value is replaced by the length, then the result is read.
    pub open spec fn next(self, tracee: TraceeView, reply: Reply, data: Vec<u8>) -> (
        TraceeView,
        Progress<RandomTask, RandomRecord>,
    ) {
        match self.stage {
            RandomStage::Stepping(get) => {
                let (after, progress) = get.next(tracee, reply);
                match progress {
                    Progress::Pending(get, action) => (
                        after,
                        Progress::Pending(
                            RandomTask { stage: RandomStage::Stepping(get), ..self },
                            action,
                        ),
                    ),
                    Progress::Done(_) => (after, self.deliver_spec(after, data)),
                    Progress::Failed(error) => (after, Progress::Failed(error)),
                }
            },
            RandomStage::Writing(write) => match write.next(reply) {
                Progress::Done(_) => (tracee, self.settle_spec(tracee)),
                Progress::Failed(error) => (tracee, Progress::Failed(error)),
                Progress::Pending(_, _) => (tracee, Progress::Failed(Error::ProtocolViolation)),
            },
            RandomStage::Setting(set) => {
                let (after, progress) = set.next(tracee, reply);
                match progress {
                    Progress::Done(_) => (after, self.observe_spec(after)),
                    Progress::Failed(error) => (after, Progress::Failed(error)),
                    Progress::Pending(_, _) => (after, Progress::Failed(Error::ProtocolViolation)),
                }
            },
            RandomStage::Observing(get) => {
                let (after, progress) = get.next(tracee, reply);
                match progress {
                    Progress::Pending(get, action) => (
                        after,
                        Progress::Pending(
                            RandomTask { stage: RandomStage::Observing(get), ..self },
                            action,
                        ),
                    ),
                    Progress::Done(_) => (after, Progress::Done(self.record_spec())),
                    Progress::Failed(error) => (after, Progress::Failed(error)),
                }
            },
        }
    }

    fn observe(self, tracee: &Tracee) -> (progress: Progress<RandomTask, RandomRecord>)
        ensures
            progress == self.observe_spec(tracee@),
    {
        match tracee.get_result() {
            Progress::Pending(get, action) => Progress::Pending(
                RandomTask { len: self.len, addr: self.addr, stage: RandomStage::Observing(get) },
                action,
            ),
            Progress::Done(_) => Progress::Done(RandomRecord { length: self.len }),
            Progress::Failed(error) => Progress::Failed(error),
        }
    }

    fn deliver(self, manager: &mut RandomManager, tracee: &Tracee) -> (progress: Progress<
        RandomTask,
        RandomRecord,
    >)
        ensures
            progress == self.deliver_spec(tracee@, progress.payload()),
            final(manager).active() == old(manager).active(),
            self.servable() ==> progress.payload()@ == RandomManager::served(old(manager).fills(), self.len as nat) && final(manager).fills() == old(manager).fills().push(self.len as nat),
            !self.servable() ==> final(manager).fills() == old(manager).fills(),
    {
        if self.len <= isize::MAX as usize {
            let data = manager.getrandom(self.len);
            Progress::Pending(
                RandomTask {
                    len: self.len,
                    addr: self.addr,
                    stage: RandomStage::Writing(WriteBytes),
                },
                Action::Write { pid: tracee.pid, addr: self.addr, data },
            )
        } else {
            Progress::Failed(Error::InvalidInput)
        }
    }

    /// Takes the answer to the last request. Bytes come from the generator
    /// only when the answer ends the step over the call, and then they are
    /// the next `len` bytes of the seeded generator.
    pub fn resume(self, manager: &mut RandomManager, tracee: &mut Tracee, reply: Reply) -> (progress:
        Progress<RandomTask, RandomRecord>)
        ensures
            (final(tracee)@, progress) == self.next(old(tracee)@, reply, progress.payload()),
            final(manager).active() == old(manager).active(),
            self.draws(old(tracee)@, reply) ==> progress.payload()@ == RandomManager::served(old(manager).fills(), self.len as nat) && final(manager).fills() == old(manager).fills().push(self.len as nat),
            !self.draws(old(tracee)@, reply) ==> final(manager).fills() == old(manager).fills(),
    {
        match self.stage {
            RandomStage::Stepping(get) => match get.resume(tracee, reply) {
                Progress::Pending(get, action) => Progress::Pending(
                    RandomTask { len: self.len, addr: self.addr, stage: RandomStage::Stepping(get) },
                    action,
                ),
                Progress::Done(_) => self.deliver(manager, tracee),
                Progress::Failed(error) => Progress::Failed(error),
            },
            RandomStage::Writing(write) => match write.resume(reply) {
                Progress::Done(_) => {
                    let registers = tracee.registers.with_result(self.len as u64);
                    Progress::Pending(
                        RandomTask {
                            len: self.len,
                            addr: self.addr,
                            stage: RandomStage::Setting(SetRegisters { registers }),
                        },
                        Action::SetRegisters { pid: tracee.pid, registers },
                    )
                },
                Progress::Failed(error) => Progress::Failed(error),
                Progress::Pending(_, _) => Progress::Failed(Error::ProtocolViolation),
            },
            RandomStage::Setting(set) => match set.resume(tracee, reply) {
                Progress::Done(_) => self.observe(tracee),
                Progress::Failed(error) => Progress::Failed(error),
                Progress::Pending(_, _) => Progress::Failed(Error::ProtocolViolation),
            },
            RandomStage::Observing(get) => match get.resume(tracee, reply) {
                Progress::Pending(get, action) => Progress::Pending(
                    RandomTask {
                        len: self.len,
                        addr: self.addr,
                        stage: RandomStage::Observing(get),
                    },
                    action,
                ),
                Progress::Done(_) => Progress::Done(RandomRecord { length: self.len }),
                Progress::Failed(error) => Progress::Failed(error),
            },
        }
    }
}

impl RandomManager {
    /// How the handling of a request starts. Where bytes are replaced, the
    /// task is first taken over the call, and the bytes are written once it
    /// is; where they are not, the result is read and recorded.
    pub open spec fn process_spec(
        active: bool,
        tracee: TraceeView,
        len: usize,
        addr: u64,
        data: Vec<u8>,
    ) -> Progress<RandomTask, RandomRecord> {
        let task = RandomTask { len, addr, stage: RandomStage::Writing(WriteBytes) };
        if active {
            match Tracee::get_result_spec(tracee) {
                Progress::Pending(get, action) => Progress::Pending(
                    RandomTask { stage: RandomStage::Stepping(get), ..task },
                    action,
                ),
                Progress::Done(_) => task.deliver_spec(tracee, data),
                Progress::Failed(error) => Progress::Failed(error),
            }
        } else {
            task.observe_spec(tracee)
        }
    }

    /// Whether the handling takes bytes from the generator at its start:
    /// when the task is over the call already.
    pub open spec fn draws_at_start(active: bool, tracee: TraceeView, len: usize) -> bool {
        active && Tracee::get_result_spec(tracee) is Done && len <= isize::MAX
    }

    /// Handles a request of the task for `len` random bytes at `addr`.
    pub fn process(&mut self, tracee: &Tracee, len: usize, addr: u64) -> (progress: Progress<
        RandomTask,
        RandomRecord,
    >)
        ensures
            progress == Self::process_spec(
                old(self).active(),
                tracee@,
                len,
                addr,
                progress.payload(),
            ),
            final(self).active() == old(self).active(),
            Self::draws_at_start(old(self).active(), tracee@, len) ==> progress.payload()@
                == RandomManager::served(old(self).fills(), len as nat) && final(self).fills()
                == old(self).fills().push(len as nat),
            !Self::draws_at_start(old(self).active(), tracee@, len) ==> final(self).fills() == old(
                self,
            ).fills(),
    {
        let task = RandomTask { len, addr, stage: RandomStage::Writing(WriteBytes) };
        if self.active {
            match tracee.get_result() {
                Progress::Pending(get, action) => Progress::Pending(
                    RandomTask { len, addr, stage: RandomStage::Stepping(get) },
                    action,
                ),
                Progress::Done(_) => task.deliver(self, tracee),
                Progress::Failed(error) => Progress::Failed(error),
            }
        } else {
            task.observe(tracee)
        }
    }
}

/// What is served over a run of requests is what a generator made from the
/// fixed seed writes for them, request after request: nothing before the
/// first, and with every request the bytes that the generator writes where
/// it stands after the requests before it.
pub proof fn lemma_stream_in_call_order(fills: Seq<nat>, len: nat)
    ensures
        RandomManager::stream(Seq::<nat>::empty()) == Seq::<u8>::empty(),
        RandomManager::stream(fills.push(len)) == RandomManager::stream(fills)
            + RandomManager::served(fills, len),
{
    assert(fills.push(len).drop_last() =~= fills);
}

/// A request that asks for no bytes leaves the generator where it stands,
/// and requests move it on by whole words: two requests of four bytes
/// leave it where one of eight does.
pub proof fn lemma_position_counts_words(fills: Seq<nat>)
    ensures
        RandomManager::position_after(fills.push(0)) == RandomManager::position_after(fills),
        RandomManager::position_after(fills.push(4).push(4)) == RandomManager::position_after(
            fills.push(8),
        ),
        RandomManager::position_after(fills) < PERIOD,
    decreases fills.len(),
{
    let here = RandomManager::position_after(fills);
    if fills.len() > 0 {
        lemma_position_counts_words(fills.drop_last());
    }
    assert(fills.push(0).drop_last() =~= fills);
    assert(fills.push(8).drop_last() =~= fills);
    assert(fills.push(4).drop_last() =~= fills);
    assert(fills.push(4).push(4).drop_last() =~= fills.push(4));
    assert(advanced(here, 0) == here);
    assert(RandomManager::position_after(fills.push(4)) == advanced(here, 4));
    assert(RandomManager::position_after(fills.push(8)) == advanced(here, 8));
    assert(RandomManager::position_after(fills.push(4).push(4)) == advanced(
        RandomManager::position_after(fills.push(4)),
        4,
    ));
    assert(advanced(advanced(here, 4), 4) == advanced(here, 8)) by {
        let period = PERIOD as nat;
        assert(((here + 1) % period + 1) % period == (here + 2) % period) by {
            vstd::arithmetic::div_mod::lemma_add_mod_noop((here + 1) as int, 1, period as int);
            vstd::arithmetic::div_mod::lemma_small_mod(1, period);
        }
    }
}

/// Whatever a fresh manager is asked, the bytes that it serves to a request
/// depend on the lengths asked so far and on nothing else: not on whether
/// the tracee's bytes are replaced, and not on the manager.
pub proof fn lemma_run_serves(states: Seq<RandomManager>, lens: Seq<usize>, bufs: Seq<Seq<u8>>, at: int)
    requires
        RandomManager::run_of(states, lens, bufs),
        0 <= at <= lens.len(),
    ensures
        states[at].fills() == RandomManager::asked(lens, at),
        at < lens.len() ==> bufs[at] == RandomManager::served(
            RandomManager::asked(lens, at),
            lens[at] as nat,
        ),
    decreases at,
{
    if at > 0 {
        lemma_run_serves(states, lens, bufs, at - 1);
        assert(RandomManager::serves(states[at - 1], lens[at - 1], bufs[at - 1], states[at]));
        assert(RandomManager::asked(lens, at - 1).push(lens[at - 1] as nat) =~= RandomManager::asked(
            lens,
            at,
        ));
    } else {
        assert(RandomManager::asked(lens, 0) =~= Seq::<nat>::empty());
    }
    if at < lens.len() {
        assert(RandomManager::serves(states[at], lens[at], bufs[at], states[at + 1]));
    }
}

/// Two fresh managers that are asked for the same lengths serve the same
/// bytes, request for request.
pub proof fn lemma_runs_agree(
    first: Seq<RandomManager>,
    second: Seq<RandomManager>,
    lens: Seq<usize>,
    served_first: Seq<Seq<u8>>,
    served_second: Seq<Seq<u8>>,
)
    requires
        RandomManager::run_of(first, lens, served_first),
        RandomManager::run_of(second, lens, served_second),
    ensures
        served_first == served_second,
{
    assert forall|at: int| 0 <= at < lens.len() implies served_first[at] == served_second[at] by {
        lemma_run_serves(first, lens, served_first, at);
        lemma_run_serves(second, lens, served_second, at);
    }
    assert(served_first =~= served_second);
}

/// The handling of a request for random bytes steps the task, but for one
/// request: the write of the bytes that it takes from the generator, into
/// the buffer of the task.
pub proof fn lemma_random_requests(task: RandomTask, tracee: TraceeView, reply: Reply, data: Vec<u8>)
    ensures
        task.next(tracee, reply, data).0.pid == tracee.pid,
        task.next(tracee, reply, data).1 matches Progress::Pending(_, action) ==> action.steps(
            tracee.pid,
        ) || (task.draws(tracee, reply) && action == (Action::Write {
            pid: tracee.pid,
            addr: task.addr,
            data,
        })),
{
    match task.stage {
        RandomStage::Stepping(get) => {
            crate::tracer::tracee::lemma_step_requests(get.step, tracee, reply);
        },
        RandomStage::Writing(_) => {},
        RandomStage::Setting(set) => {
            crate::tracer::tracee::lemma_handle_requests(set.next(tracee, reply).0);
        },
        RandomStage::Observing(get) => {
            crate::tracer::tracee::lemma_step_requests(get.step, tracee, reply);
        },
    }
}

impl RandomTask {
    /// Where the handling of a request stands after a run of answers, each
    /// given to the request before it, with `data` for the bytes that it
    /// takes from the generator. Answers that come after its end count for
    /// nothing.
    pub open spec fn drive(
        tracee: TraceeView,
        progress: Progress<RandomTask, RandomRecord>,
        replies: Seq<Reply>,
        data: Vec<u8>,
    ) -> (TraceeView, Progress<RandomTask, RandomRecord>)
        decreases replies.len(),
    {
        if replies.len() > 0 && progress is Pending {
            let (after, following) = progress->Pending_0.next(tracee, replies.first(), data);
            Self::drive(after, following, replies.drop_first(), data)
        } else {
            (tracee, progress)
        }
    }

    /// How many writes into the task's memory the handling asks for over a
    /// run of answers, from its pending request on.
    pub open spec fn writes(
        tracee: TraceeView,
        progress: Progress<RandomTask, RandomRecord>,
        replies: Seq<Reply>,
        data: Vec<u8>,
    ) -> nat
        decreases replies.len(),
    {
        let pending: nat = if progress matches Progress::Pending(_, action) && action is Write {
            1
        } else {
            0
        };
        if replies.len() > 0 && progress is Pending {
            let (after, following) = progress->Pending_0.next(tracee, replies.first(), data);
            pending + Self::writes(after, following, replies.drop_first(), data)
        } else {
            pending
        }
    }
}

proof fn lemma_random_drive(
    tracee: TraceeView,
    progress: Progress<RandomTask, RandomRecord>,
    replies: Seq<Reply>,
    data: Vec<u8>,
)
    requires
        progress matches Progress::Pending(task, action) ==> (task.stage is Writing
            <==> action is Write),
    ensures
        RandomTask::drive(tracee, progress, replies, data).1 matches Progress::Done(record) ==> (
        progress matches Progress::Pending(task, _) ==> record.length == task.len
            && RandomTask::writes(tracee, progress, replies, data) == if task.stage is Stepping
            || task.stage is Writing {
            1nat
        } else {
            0nat
        }),
    decreases replies.len(),
{
    if replies.len() > 0 && progress is Pending {
        let task = progress->Pending_0;
        let (after, following) = task.next(tracee, replies.first(), data);
        lemma_random_requests(task, tracee, replies.first(), data);
        crate::tracer::tracee::lemma_handle_requests(after);
        lemma_random_drive(after, following, replies.drop_first(), data);
        assert(RandomTask::drive(tracee, progress, replies, data) == RandomTask::drive(
            after,
            following,
            replies.drop_first(),
            data,
        ));
        if !(following is Pending) {
            assert(RandomTask::drive(after, following, replies.drop_first(), data) == (
                after,
                following,
            ));
            assert(RandomTask::writes(after, following, replies.drop_first(), data) == 0);
        }
    }
}

/// However the kernel answers, whatever stops come in between, the handling
/// of a request that completes has asked for exactly one write where the
/// tracee's bytes are replaced, and for none where they are not; and its
/// record holds the length that was asked for. That one write puts the bytes
/// taken from the generator into the task's buffer.
pub proof fn lemma_random_writes_once(
    active: bool,
    tracee: TraceeView,
    len: usize,
    addr: u64,
    replies: Seq<Reply>,
    data: Vec<u8>,
)
    ensures
        RandomTask::drive(
            tracee,
            RandomManager::process_spec(active, tracee, len, addr, data),
            replies,
            data,
        ).1 matches Progress::Done(record) ==> record.length == len && RandomTask::writes(
            tracee,
            RandomManager::process_spec(active, tracee, len, addr, data),
            replies,
            data,
        ) == if active {
            1nat
        } else {
            0nat
        },
{
    let start = RandomManager::process_spec(active, tracee, len, addr, data);
    crate::tracer::tracee::lemma_handle_requests(tracee);
    lemma_random_drive(tracee, start, replies, data);
    if !(start is Pending) {
        assert(RandomTask::drive(tracee, start, replies, data) == (tracee, start));
        assert(RandomTask::writes(tracee, start, replies, data) == 0);
    }
}

} // verus!

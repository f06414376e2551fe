use crate::error::Error;
use crate::kernel::{Action, Progress, Reply, CHUNK};
use crate::tracer::inject::ReserveMemory;
use crate::tracer::tracee::{Memory, Tracee, TraceeView};
use vstd::bytes::{spec_u64_to_le_bytes, u64_to_le_bytes};
use vstd::prelude::*;
use vstd::string::StringSliceAdditionalSpecFns;
use vstd::utf8::{
    decode_utf8, decode_utf8_split, is_char_boundary, length_of_first_scalar, pop_first_scalar,
    valid_utf8, valid_utf8_concat,
};

verus! {

/// The place of the first zero byte, or the length where there is none.
pub open spec fn terminator(data: Seq<u8>) -> nat
    decreases data.len(),
{
    if data.len() == 0 || data.first() == 0 {
        0
    } else {
        1 + terminator(data.drop_first())
    }
}

/// The terminator is the one place that has no zero byte before it and is
/// either the end or a zero byte.
pub proof fn lemma_terminator(data: Seq<u8>, cut: nat)
    requires
        cut <= data.len(),
        forall|i: int| 0 <= i < cut ==> data[i] != 0,
        cut < data.len() ==> data[cut as int] == 0,
    ensures
        terminator(data) == cut,
    decreases cut,
{
    if cut > 0 {
        let rest = data.drop_first();
        assert forall|i: int| 0 <= i < cut - 1 implies rest[i] != 0 by {
            assert(rest[i] == data[i + 1]);
        }
        lemma_terminator(rest, (cut - 1) as nat);
    }
}

/// Finds the first zero byte.
pub fn find_terminator(data: &Vec<u8>) -> (cut: usize)
    ensures
        cut == terminator(data@),
        cut <= data@.len(),
{
    let mut cut: usize = 0;
    while cut < data.len() && data[cut] != 0
        invariant
            cut <= data@.len(),
            forall|i: int| 0 <= i < cut ==> data@[i] != 0,
        decreases data@.len() - cut,
    {
        cut += 1;
    }
    proof {
        lemma_terminator(data@, cut as nat);
    }
    cut
}

/// Decodes bytes as UTF-8 with `String::from_utf8`: there is a string
/// exactly when the bytes are valid UTF-8, and it holds the characters that
/// they encode.
#[verifier::external_body]
fn string_from_utf8(bytes: Vec<u8>) -> (text: Option<String>)
    ensures
        text is Some <==> valid_utf8(bytes@),
        text matches Some(string) ==> string@ == decode_utf8(bytes@),
{
    match String::from_utf8(bytes) {
        Ok(string) => Some(string),
        Err(_) => None,
    }
}

/// A write into the task's memory, in progress.
#[derive(Copy, Clone, Debug, PartialEq, Eq, Structural)]
pub struct WriteBytes;

impl WriteBytes {
    pub open spec fn next(self, reply: Reply) -> Progress<WriteBytes, ()> {
        match reply {
            Reply::Done => Progress::Done(()),
            _ => Progress::Failed(reply.unexpected_spec()),
        }
    }

    /// Takes the answer to the write.
    pub fn resume(self, reply: Reply) -> (progress: Progress<WriteBytes, ()>)
        ensures
            progress == self.next(reply),
    {
        match reply {
            Reply::Done => Progress::Done(()),
            other => Progress::Failed(other.unexpected()),
        }
    }
}

/// A read of a few bytes of the task's memory, in progress.
#[derive(Copy, Clone, Debug, PartialEq, Eq, Structural)]
pub enum ReadMemory {
    /// At most a word was asked for, and the word at the address is being
    /// read.
    Word { len: usize },
    /// More than a word was asked for.
    Block { len: usize },
}

impl ReadMemory {
    /// What a read hands back for an answer that fits it: the low `len`
    /// bytes of the word, lowest first, or the block where it has the
    /// length asked for.
    pub open spec fn bytes(self, reply: Reply) -> Option<Seq<u8>> {
        match (self, reply) {
            (ReadMemory::Word { len }, Reply::Word(word)) => if len <= 8 {
                Some(spec_u64_to_le_bytes(word).take(len as int))
            } else {
                None
            },
            (ReadMemory::Block { len }, Reply::Data(block)) => if block@.len() == len {
                Some(block@)
            } else {
                None
            },
            _ => None,
        }
    }

    /// How a read fails on an answer that does not fit it: an answer of
    /// the right kind and the wrong size is a protocol violation.
    pub open spec fn failure(self, reply: Reply) -> Error {
        match (self, reply) {
            (ReadMemory::Word { .. }, Reply::Word(_)) => Error::ProtocolViolation,
            (ReadMemory::Block { .. }, Reply::Data(_)) => Error::ProtocolViolation,
            _ => reply.unexpected_spec(),
        }
    }

    /// Takes the answer to the read.
    pub fn resume(self, reply: Reply) -> (progress: Progress<ReadMemory, Vec<u8>>)
        ensures
            match self.bytes(reply) {
                Some(bytes) => progress matches Progress::Done(data) && data@ == bytes,
                None => progress == Progress::<ReadMemory, Vec<u8>>::Failed(self.failure(reply)),
            },
    {
        match self {
            ReadMemory::Word { len } => match reply {
                Reply::Word(word) => {
                    if len <= 8 {
                        let mut data = u64_to_le_bytes(word);
                        data.truncate(len);
                        Progress::Done(data)
                    } else {
                        Progress::Failed(Error::ProtocolViolation)
                    }
                },
                other => Progress::Failed(other.unexpected()),
            },
            ReadMemory::Block { len } => match reply {
                Reply::Data(block) => {
                    if block.len() == len {
                        Progress::Done(block)
                    } else {
                        Progress::Failed(Error::ProtocolViolation)
                    }
                },
                other => Progress::Failed(other.unexpected()),
            },
        }
    }
}

/// A write of a string into fresh scratch memory of the task, in progress.
#[derive(Debug, PartialEq, Eq)]
pub enum WriteString {
    /// The memory is being mapped; `data` is what will be written.
    Reserving { reserve: ReserveMemory, data: Vec<u8> },
    /// The bytes are being written at `addr`.
    Writing { addr: u64 },
}

impl WriteString {
    /// The write after an answer: once the memory is mapped, the bytes are
    /// written at its address; once they are written, the address is handed
    /// back.
    pub open spec fn next(self, tracee: TraceeView, reply: Reply) -> (
        TraceeView,
        Progress<WriteString, u64>,
    ) {
        match self {
            WriteString::Reserving { reserve, data } => {
                let (after, progress) = reserve.next(tracee, reply);
                match progress {
                    Progress::Pending(reserve, action) => (
                        after,
                        Progress::Pending(WriteString::Reserving { reserve, data }, action),
                    ),
                    Progress::Done(addr) => (
                        after,
                        Progress::Pending(
                            WriteString::Writing { addr },
                            Action::Write { pid: after.pid, addr, data },
                        ),
                    ),
                    Progress::Failed(error) => (after, Progress::Failed(error)),
                }
            },
            WriteString::Writing { addr } => match reply {
                Reply::Done => (tracee, Progress::Done(addr)),
                _ => (tracee, Progress::Failed(reply.unexpected_spec())),
            },
        }
    }

    /// Takes the answer to the write's last request.
    pub fn resume(self, tracee: &mut Tracee, reply: Reply) -> (progress: Progress<
        WriteString,
        u64,
    >)
        ensures
            (final(tracee)@, progress) == self.next(old(tracee)@, reply),
    {
        match self {
            WriteString::Reserving { reserve, data } => match reserve.resume(tracee, reply) {
                Progress::Pending(reserve, action) => Progress::Pending(
                    WriteString::Reserving { reserve, data },
                    action,
                ),
                Progress::Done(addr) => Progress::Pending(
                    WriteString::Writing { addr },
                    Action::Write { pid: tracee.pid, addr, data },
                ),
                Progress::Failed(error) => Progress::Failed(error),
            },
            WriteString::Writing { addr } => match reply {
                Reply::Done => Progress::Done(addr),
                other => Progress::Failed(other.unexpected()),
            },
        }
    }
}

/// A read of a zero-terminated string from the task's memory, in progress.
#[derive(Debug, PartialEq, Eq)]
pub struct ReadString {
    /// Where the chunk that was asked for starts.
    pub addr: u64,
    /// What has been read so far.
    pub text: String,
}

/// What an answer does to a read of a string.
pub enum ReadOutcome {
    /// The string goes on: the chunk at `addr` is asked for, and `text` has
    /// been read.
    More { addr: u64, text: Seq<char> },
    /// The string has ended, and this is it.
    Complete { text: Seq<char> },
    /// The read has failed.
    Failure { error: Error },
}

impl ReadString {
    /// The part of a chunk that belongs to the string: what stands before
    /// its first zero byte.
    pub open spec fn piece(data: Seq<u8>) -> Seq<u8> {
        data.take(terminator(data) as int)
    }

    /// Whether the string ends within a chunk: at a zero byte, or because
    /// the read gave less than was asked for.
    pub open spec fn ends_in(data: Seq<u8>) -> bool {
        terminator(data) < data.len() || data.len() < CHUNK
    }

    /// What a chunk does to a read that has read `text` and asked for the
    /// chunk at `addr`. The part of the chunk before its first zero byte
    /// must be UTF-8 and is added to the text. Where the string ends in the
    /// chunk the text is complete; where it does not, the next chunk is
    /// asked for. A chunk longer than was asked for is a protocol
    /// violation, and a string that runs to the end of the address space
    /// without an end is not decoded.
    pub open spec fn chunk_outcome(addr: u64, text: Seq<char>, data: Seq<u8>) -> ReadOutcome {
        if data.len() > CHUNK {
            ReadOutcome::Failure { error: Error::ProtocolViolation }
        } else if !valid_utf8(Self::piece(data)) {
            ReadOutcome::Failure { error: Error::Decode }
        } else if Self::ends_in(data) {
            ReadOutcome::Complete { text: text + decode_utf8(Self::piece(data)) }
        } else if addr + CHUNK > u64::MAX {
            ReadOutcome::Failure { error: Error::Decode }
        } else {
            ReadOutcome::More {
                addr: (addr + CHUNK) as u64,
                text: text + decode_utf8(Self::piece(data)),
            }
        }
    }

    /// What an answer does to a read that has read `text` and asked for the
    /// chunk at `addr`.
    pub open spec fn outcome(addr: u64, text: Seq<char>, reply: Reply) -> ReadOutcome {
        match reply {
            Reply::Data(data) => Self::chunk_outcome(addr, text, data@),
            _ => ReadOutcome::Failure { error: reply.unexpected_spec() },
        }
    }

    /// Whether a step of a read of the task `pid` is the one that an
    /// outcome describes.
    pub open spec fn shows(progress: Progress<ReadString, String>, pid: i32, outcome: ReadOutcome) -> bool {
        match outcome {
            ReadOutcome::More { addr, text } => progress matches Progress::Pending(rest, action)
                && rest.addr == addr && rest.text@ == text && action == (Action::ReadSome {
                pid,
                addr,
                len: CHUNK,
            }),
            ReadOutcome::Complete { text } => progress matches Progress::Done(read) && read@
                == text,
            ReadOutcome::Failure { error } => progress == Progress::<ReadString, String>::Failed(
                error,
            ),
        }
    }

    /// Takes the chunk that was read.
    pub fn resume(self, pid: i32, reply: Reply) -> (progress: Progress<ReadString, String>)
        ensures
            Self::shows(progress, pid, Self::outcome(self.addr, self.text@, reply)),
    {
        match reply {
            Reply::Data(data) => {
                let len = data.len();
                if len > CHUNK {
                    return Progress::Failed(Error::ProtocolViolation);
                }
                let cut = find_terminator(&data);
                let mut data = data;
                data.truncate(cut);
                let piece = match string_from_utf8(data) {
                    Some(piece) => piece,
                    None => {
                        return Progress::Failed(Error::Decode);
                    },
                };
                let mut text = self.text;
                text.append(piece.as_str());
                if cut < len || len < CHUNK {
                    Progress::Done(text)
                } else if self.addr > u64::MAX - (CHUNK as u64) {
                    Progress::Failed(Error::Decode)
                } else {
                    let addr = self.addr + (CHUNK as u64);
                    Progress::Pending(
                        ReadString { addr, text },
                        Action::ReadSome { pid, addr, len: CHUNK },
                    )
                }
            },
            other => Progress::Failed(other.unexpected()),
        }
    }
}

impl Tracee {
    /// A write of bytes is one request.
    pub open spec fn write_bytes_spec(tracee: TraceeView, addr: u64, data: Vec<u8>) -> Progress<
        WriteBytes,
        (),
    > {
        Progress::Pending(WriteBytes, Action::Write { pid: tracee.pid, addr, data })
    }

    /// A read of at most eight bytes reads the word at the address; a
    /// longer one reads the bytes themselves.
    pub open spec fn read_memory_spec(tracee: TraceeView, addr: u64, len: usize) -> Progress<
        ReadMemory,
        Vec<u8>,
    > {
        if len <= 8 {
            Progress::Pending(ReadMemory::Word { len }, Action::Peek { pid: tracee.pid, addr })
        } else {
            Progress::Pending(
                ReadMemory::Block { len },
                Action::Read { pid: tracee.pid, addr, len },
            )
        }
    }

    /// Writes bytes into the task's memory.
    pub fn write_bytes(&self, addr: u64, data: Vec<u8>) -> (progress: Progress<WriteBytes, ()>)
        ensures
            progress == Self::write_bytes_spec(self@, addr, data),
    {
        Progress::Pending(WriteBytes, Action::Write { pid: self.pid, addr, data })
    }

    /// Reads `len` bytes of the task's memory.
    pub fn read_memory(&self, addr: u64, len: usize) -> (progress: Progress<ReadMemory, Vec<u8>>)
        ensures
            progress == Self::read_memory_spec(self@, addr, len),
    {
        if len <= 8 {
            Progress::Pending(ReadMemory::Word { len }, Action::Peek { pid: self.pid, addr })
        } else {
            Progress::Pending(
                ReadMemory::Block { len },
                Action::Read { pid: self.pid, addr, len },
            )
        }
    }

    /// Writes a string and a terminating zero byte into fresh scratch
    /// memory of the task; the result will be the address. The memory that
    /// is mapped is as long as what is written into it. A string so long
    /// that the zero byte does not fit is refused.
    pub fn write_string(&self, string: &str) -> (progress: Progress<WriteString, u64>)
        ensures
            match progress {
                Progress::Pending(WriteString::Reserving { reserve, data }, action) => {
                    &&& data@ == string.spec_bytes().push(0)
                    &&& data@.len() <= usize::MAX
                    &&& Self::reserve_memory_spec(self@, data@.len() as usize) == Progress::<
                        ReserveMemory,
                        u64,
                    >::Pending(reserve, action)
                },
                Progress::Failed(error) => error == Error::InvalidInput
                    && string.spec_bytes().len() >= usize::MAX,
                _ => false,
            },
    {
        let bytes = string.as_bytes();
        if bytes.len() == usize::MAX {
            return Progress::Failed(Error::InvalidInput);
        }
        let mut data = vstd::slice::slice_to_vec(bytes);
        data.push(0);
        match self.reserve_memory(data.len()) {
            Progress::Pending(reserve, action) => Progress::Pending(
                WriteString::Reserving { reserve, data },
                action,
            ),
            Progress::Done(_) => Progress::Failed(Error::InvalidInput),
            Progress::Failed(error) => Progress::Failed(error),
        }
    }

    /// Reads the string at an address of the task's memory, up to its first
    /// zero byte, a chunk at a time.
    pub fn read_string(&self, addr: u64) -> (progress: Progress<ReadString, String>)
        ensures
            progress matches Progress::Pending(read, action) && read.addr == addr && read.text@
                == Seq::<char>::empty() && action == (Action::ReadSome {
                pid: self.pid,
                addr,
                len: CHUNK,
            }),
    {
        Progress::Pending(
            ReadString { addr, text: String::new() },
            Action::ReadSome { pid: self.pid, addr, len: CHUNK },
        )
    }
}

/// A write of a string steps the task of its handle, but for one request:
/// the write of the bytes that it was started with, at the address that was
/// mapped for them.
pub proof fn lemma_write_string_requests(write: WriteString, tracee: TraceeView, reply: Reply)
    ensures
        write.next(tracee, reply).0.pid == tracee.pid,
        write.next(tracee, reply).1 matches Progress::Pending(following, action) ==> action.steps(
            tracee.pid,
        ) || (write matches WriteString::Reserving { data, .. } && following matches WriteString::Writing {
            addr,
        } && action == (Action::Write { pid: tracee.pid, addr, data })),
{
    match write {
        WriteString::Reserving { reserve, data } => {
            crate::tracer::inject::lemma_injection_requests(reserve.call, tracee, reply);
        },
        WriteString::Writing { .. } => {},
    }
}

impl ReadString {
    /// What a read of a chunk at an address gives, in a memory that starts
    /// at address 0 and can be read throughout: the bytes from the address
    /// on, as far as the chunk and the memory go.
    pub open spec fn chunk_at(memory: Seq<u8>, addr: int) -> Seq<u8> {
        if 0 <= addr <= memory.len() {
            memory.subrange(
                addr,
                if addr + CHUNK <= memory.len() {
                    addr + CHUNK
                } else {
                    memory.len() as int
                },
            )
        } else {
            Seq::empty()
        }
    }

    /// How a read that has read `text` and asks for the chunk at `addr`
    /// ends, where every chunk is read from `memory`.
    pub open spec fn through(memory: Seq<u8>, addr: u64, text: Seq<char>) -> ReadOutcome
        decreases memory.len() - addr,
    {
        match Self::chunk_outcome(addr, text, Self::chunk_at(memory, addr as int)) {
            ReadOutcome::More { addr: next, text: more } => Self::through(memory, next, more),
            ended => ended,
        }
    }

    /// Whether the bytes of `memory` from `addr` up to `end` are UTF-8
    /// chunk by chunk, as a read takes them.
    pub open spec fn decodable(memory: Seq<u8>, addr: int, end: int) -> bool
        decreases end - addr,
    {
        if end - addr < CHUNK {
            valid_utf8(memory.subrange(addr, end))
        } else {
            valid_utf8(memory.subrange(addr, addr + CHUNK)) && Self::decodable(
                memory,
                addr + CHUNK,
                end,
            )
        }
    }
}

/// Bytes that are UTF-8 in two parts are UTF-8 as a whole, and the whole
/// ends a character where the first part ends.
proof fn lemma_boundary_of_concat(first: Seq<u8>, second: Seq<u8>)
    requires
        valid_utf8(first),
        valid_utf8(second),
    ensures
        valid_utf8(first + second),
        is_char_boundary(first + second, first.len() as int),
    decreases first.len(),
{
    valid_utf8_concat(first, second);
    if first.len() > 0 {
        let rest = pop_first_scalar(first);
        assert(rest.len() < first.len()) by {
            reveal_with_fuel(valid_utf8, 2);
        }
        lemma_boundary_of_concat(rest, second);
        assert(pop_first_scalar(first + second) =~= rest + second);
        assert(length_of_first_scalar(first + second) == length_of_first_scalar(first));
        assert(first.len() - length_of_first_scalar(first) == rest.len());
    }
}

/// Decoding bytes that are UTF-8 in two parts gives the characters of the
/// first part followed by those of the second.
pub proof fn lemma_decode_concat(first: Seq<u8>, second: Seq<u8>)
    requires
        valid_utf8(first),
        valid_utf8(second),
    ensures
        valid_utf8(first + second),
        decode_utf8(first + second) == decode_utf8(first) + decode_utf8(second),
{
    let whole = first + second;
    lemma_boundary_of_concat(first, second);
    assert(whole.subrange(0, first.len() as int) =~= first);
    assert(whole.subrange(first.len() as int, whole.len() as int) =~= second);
    decode_utf8_split(whole, first.len() as int);
}

/// Reading the string at `addr` from a memory gives the characters that
/// its bytes up to the first zero byte encode, added to what was read
/// before: here the first zero byte at or behind `addr` stands at `end`,
/// and the bytes before it are UTF-8 chunk by chunk.
pub proof fn lemma_read_through(memory: Seq<u8>, addr: u64, end: int, text: Seq<char>)
    requires
        addr <= end < memory.len(),
        memory.len() <= u64::MAX,
        memory[end] == 0,
        forall|at: int| addr <= at < end ==> memory[at] != 0,
        ReadString::decodable(memory, addr as int, end),
    ensures
        valid_utf8(memory.subrange(addr as int, end)),
        ReadString::through(memory, addr, text) == (ReadOutcome::Complete {
            text: text + decode_utf8(memory.subrange(addr as int, end)),
        }),
    decreases end - addr,
{
    let data = ReadString::chunk_at(memory, addr as int);
    if end - addr < CHUNK {
        lemma_terminator(data, (end - addr) as nat);
        assert(ReadString::piece(data) =~= memory.subrange(addr as int, end));
    } else {
        let next = (addr + CHUNK) as u64;
        let first = memory.subrange(addr as int, addr + CHUNK);
        let rest = memory.subrange(next as int, end);
        lemma_terminator(data, CHUNK as nat);
        assert(ReadString::piece(data) =~= first);
        lemma_read_through(memory, next, end, text + decode_utf8(first));
        lemma_decode_concat(first, rest);
        assert(first + rest =~= memory.subrange(addr as int, end));
        assert((text + decode_utf8(first)) + decode_utf8(rest) =~= text + (decode_utf8(first)
            + decode_utf8(rest)));
    }
}

/// A string is written into memory that was mapped for it and is as long
/// as what is written: when the mapping completes, the new region is the
/// handle's newest, the bytes are written at its address, and they fill it.
pub proof fn lemma_write_string_fits(write: WriteString, tracee: TraceeView, reply: Reply)
    requires
        write matches WriteString::Reserving { reserve, data } && reserve.len == data@.len(),
    ensures
        write.next(tracee, reply).1 matches Progress::Pending(WriteString::Writing { addr }, action)
            ==> {
            let after = write.next(tracee, reply).0;
            &&& after.allocations.len() > 0
            &&& after.allocations.last() == (Memory { addr, len: write->Reserving_data@.len() as usize })
            &&& after.allocations.drop_last() == write->Reserving_reserve.call.next(
                tracee,
                reply,
            ).0.allocations
            &&& action == (Action::Write { pid: after.pid, addr, data: write->Reserving_data })
        },
        write.next(tracee, reply).1 matches Progress::Pending(
            WriteString::Reserving { reserve, data },
            _,
        ) ==> reserve.len == data@.len() && data == write->Reserving_data,
{
    let reserve = write->Reserving_reserve;
    let after = reserve.call.next(tracee, reply).0;
    if let Progress::Done(addr) = reserve.call.next(tracee, reply).1 {
        assert(after.allocations.push(Memory { addr, len: reserve.len }).drop_last()
            =~= after.allocations);
    }
}

} // verus!

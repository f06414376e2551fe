use crate::error::Error;
use crate::kernel::{Action, Progress, Reply};
use crate::tracer::tracee::{Tracee, TraceeView};
use vstd::prelude::*;

verus! {

/// The tag that ends a vector on the initial stack.
pub const AT_NULL: u64 = 0;

/// The tag of an entry that the dynamic linker passes over.
pub const AT_IGNORE: u64 = 1;

/// The tag of the entry that holds the address of the vDSO.
pub const AT_SYSINFO_EHDR: u64 = 33;

/// The size of a word of the initial stack.
pub const WORD: u64 = 8;

/// The size of an entry of the auxiliary vector: a tag and a value.
pub const ENTRY: u64 = 16;

/// The search for the vDSO's entry in the auxiliary vector of a task that
/// has just started, in progress.
#[derive(Copy, Clone, Debug, PartialEq, Eq, Structural)]
pub enum DisableVdso {
    /// Walking the arguments and the environment, which come first on the
    /// stack and end in a zero word each: `left` of the two zero words have
    /// not been seen, and the word at `addr` is being read.
    Skipping { addr: u64, left: u8 },
    /// Walking the auxiliary vector: the tag at `addr` is being read.
    Scanning { addr: u64 },
    /// The tag of the vDSO's entry is being overwritten.
    Patching,
}

impl DisableVdso {
    /// The search after an answer.
    ///
    /// While skipping, every word is read in turn, and the second zero word
    /// ends the skipping: the auxiliary vector starts behind it. There,
    /// every second word is a tag. The end tag ends the search with nothing
    /// done. The tag of the vDSO's entry is overwritten with the tag that
    /// makes the entry count for nothing, and that ends the search. Any
    /// other tag leads on to the next entry.
    pub open spec fn next(self, tracee: TraceeView, reply: Reply) -> Progress<DisableVdso, ()> {
        match (self, reply) {
            (DisableVdso::Skipping { addr, left }, Reply::Word(word)) => {
                let left = if word == AT_NULL && left > 0 {
                    (left - 1) as u8
                } else {
                    left
                };
                if addr + WORD > u64::MAX {
                    Progress::Failed(Error::ProtocolViolation)
                } else if left > 0 {
                    Progress::Pending(
                        DisableVdso::Skipping { addr: (addr + WORD) as u64, left },
                        Action::Peek { pid: tracee.pid, addr: (addr + WORD) as u64 },
                    )
                } else {
                    Progress::Pending(
                        DisableVdso::Scanning { addr: (addr + WORD) as u64 },
                        Action::Peek { pid: tracee.pid, addr: (addr + WORD) as u64 },
                    )
                }
            },
            (DisableVdso::Scanning { addr }, Reply::Word(word)) => {
                if word == AT_NULL {
                    Progress::Done(())
                } else if word == AT_SYSINFO_EHDR {
                    Progress::Pending(
                        DisableVdso::Patching,
                        Action::Poke { pid: tracee.pid, addr, word: AT_IGNORE },
                    )
                } else if addr + ENTRY > u64::MAX {
                    Progress::Failed(Error::ProtocolViolation)
                } else {
                    Progress::Pending(
                        DisableVdso::Scanning { addr: (addr + ENTRY) as u64 },
                        Action::Peek { pid: tracee.pid, addr: (addr + ENTRY) as u64 },
                    )
                }
            },
            (DisableVdso::Patching, Reply::Done) => Progress::Done(()),
            _ => Progress::Failed(reply.unexpected_spec()),
        }
    }

    /// Takes the answer to the search's last request.
    pub fn resume(self, tracee: &Tracee, reply: Reply) -> (progress: Progress<DisableVdso, ()>)
        ensures
            progress == self.next(tracee@, reply),
    {
        match self {
            DisableVdso::Skipping { addr, left } => match reply {
                Reply::Word(word) => {
                    let left: u8 = if word == AT_NULL && left > 0 {
                        left - 1
                    } else {
                        left
                    };
                    if addr > u64::MAX - WORD {
                        Progress::Failed(Error::ProtocolViolation)
                    } else if left > 0 {
                        Progress::Pending(
                            DisableVdso::Skipping { addr: addr + WORD, left },
                            Action::Peek { pid: tracee.pid, addr: addr + WORD },
                        )
                    } else {
                        Progress::Pending(
                            DisableVdso::Scanning { addr: addr + WORD },
                            Action::Peek { pid: tracee.pid, addr: addr + WORD },
                        )
                    }
                },
                other => Progress::Failed(other.unexpected()),
            },
            DisableVdso::Scanning { addr } => match reply {
                Reply::Word(word) => {
                    if word == AT_NULL {
                        Progress::Done(())
                    } else if word == AT_SYSINFO_EHDR {
                        Progress::Pending(
                            DisableVdso::Patching,
                            Action::Poke { pid: tracee.pid, addr, word: AT_IGNORE },
                        )
                    } else if addr > u64::MAX - ENTRY {
                        Progress::Failed(Error::ProtocolViolation)
                    } else {
                        Progress::Pending(
                            DisableVdso::Scanning { addr: addr + ENTRY },
                            Action::Peek { pid: tracee.pid, addr: addr + ENTRY },
                        )
                    }
                },
                other => Progress::Failed(other.unexpected()),
            },
            DisableVdso::Patching => match reply {
                Reply::Done => Progress::Done(()),
                other => Progress::Failed(other.unexpected()),
            },
        }
    }
}

impl Tracee {
    /// The search starts at the stack pointer, with both zero words ahead.
    pub open spec fn disable_vdso_spec(tracee: TraceeView) -> Progress<DisableVdso, ()> {
        Progress::Pending(
            DisableVdso::Skipping { addr: tracee.registers.rsp, left: 2 },
            Action::Peek { pid: tracee.pid, addr: tracee.registers.rsp },
        )
    }

    /// Makes the task's dynamic linker pass over the vDSO, so that the
    /// task's time queries reach the kernel as system calls.
    pub fn disable_vdso(&self) -> (progress: Progress<DisableVdso, ()>)
        ensures
            progress == Self::disable_vdso_spec(self@),
    {
        Progress::Pending(
            DisableVdso::Skipping { addr: self.registers.rsp, left: 2 },
            Action::Peek { pid: self.pid, addr: self.registers.rsp },
        )
    }
}

/// The search writes at most once, and only the ignore tag over the tag of
/// the vDSO's entry, at the address that the tag was read from.
pub proof fn lemma_vdso_patch(search: DisableVdso, tracee: TraceeView, reply: Reply)
    ensures
        search.next(tracee, reply) matches Progress::Pending(_, Action::Poke { pid, addr, word })
            ==> {
            &&& search == (DisableVdso::Scanning { addr })
            &&& reply == Reply::Word(AT_SYSINFO_EHDR)
            &&& word == AT_IGNORE
            &&& pid == tracee.pid
        },
        search.next(tracee, reply) matches Progress::Pending(following, _) ==> (following
            is Patching <==> search is Scanning && reply == Reply::Word(AT_SYSINFO_EHDR)),
{
}

impl DisableVdso {
    /// Whether an address is that of a word of a stack whose lowest word
    /// stands at `base`.
    pub open spec fn holds(stack: Seq<u64>, base: u64, addr: u64) -> bool {
        base <= addr && (addr - base) % 8 == 0 && (addr - base) / 8 < stack.len()
    }

    /// The address of a word of the stack.
    pub open spec fn address(base: u64, at: int) -> u64 {
        (base + 8 * at) as u64
    }

    /// How many zero words the stack holds from `from` up to `to`.
    pub open spec fn zeros(stack: Seq<u64>, from: int, to: int) -> nat
        decreases to - from,
    {
        if from >= to {
            0
        } else if stack[from] == 0 {
            1 + Self::zeros(stack, from + 1, to)
        } else {
            Self::zeros(stack, from + 1, to)
        }
    }

    /// A bound on the requests that a search can still make over a stack
    /// once it has made the request `action`.
    pub open spec fn ahead(action: Action, stack: Seq<u64>, base: u64) -> nat {
        match action {
            Action::Peek { addr, .. } => if addr < base + 8 * stack.len() {
                (2 * (base + 8 * stack.len() - addr) + 1) as nat
            } else {
                0
            },
            Action::Poke { addr, .. } => if addr < base + 8 * stack.len() {
                (2 * (base + 8 * stack.len() - addr)) as nat
            } else {
                0
            },
            _ => 0,
        }
    }

    /// Whether `action` is the request that the search waits on.
    pub open spec fn asks(self, action: Action) -> bool {
        match self {
            DisableVdso::Skipping { addr, .. } => action matches Action::Peek { addr: at, .. }
                && at == addr,
            DisableVdso::Scanning { addr } => action matches Action::Peek { addr: at, .. } && at
                == addr,
            DisableVdso::Patching => action is Poke,
        }
    }

    /// The stack as a search leaves it that waits for the answer to
    /// `action`, where every request is carried out on the stack: nothing
    /// where the search fails or a request misses the stack.
    pub open spec fn runs(self, tracee: TraceeView, action: Action, stack: Seq<u64>, base: u64) -> Option<
        Seq<u64>,
    >
        decreases Self::ahead(action, stack, base),
    {
        if !self.asks(action) {
            None
        } else {
            match action {
                Action::Peek { addr, .. } => if Self::holds(stack, base, addr) {
                    match self.next(tracee, Reply::Word(stack[(addr - base) / 8])) {
                        Progress::Pending(following, asked) => {
                            proof {
                                assert(asked matches Action::Poke { addr: at, .. } ==> at == addr);
                                assert(asked matches Action::Peek { addr: at, .. } ==> at > addr);
                                assert(asked is Poke || asked is Peek);
                                assert(addr < base + 8 * stack.len());
                                assert(Self::ahead(asked, stack, base) < Self::ahead(
                                    action,
                                    stack,
                                    base,
                                ));
                            }
                            following.runs(tracee, asked, stack, base)
                        },
                        Progress::Done(_) => Some(stack),
                        Progress::Failed(_) => None,
                    }
                } else {
                    None
                },
                Action::Poke { addr, word, .. } => if Self::holds(stack, base, addr) {
                    match self.next(tracee, Reply::Done) {
                        Progress::Done(_) => Some(stack.update((addr - base) / 8, word)),
                        _ => None,
                    }
                } else {
                    None
                },
                _ => None,
            }
        }
    }
}

proof fn lemma_skipping(
    tracee: TraceeView,
    stack: Seq<u64>,
    base: u64,
    at: int,
    left: u8,
    auxv: int,
)
    requires
        base + 8 * stack.len() <= u64::MAX,
        0 <= at < auxv < stack.len(),
        1 <= left,
        DisableVdso::zeros(stack, at, auxv) == left,
        stack[auxv - 1] == 0,
    ensures
        (DisableVdso::Skipping { addr: DisableVdso::address(base, at), left }).runs(
            tracee,
            Action::Peek { pid: tracee.pid, addr: DisableVdso::address(base, at) },
            stack,
            base,
        ) == (DisableVdso::Scanning { addr: DisableVdso::address(base, auxv) }).runs(
            tracee,
            Action::Peek { pid: tracee.pid, addr: DisableVdso::address(base, auxv) },
            stack,
            base,
        ),
    decreases auxv - at,
{
    let addr = DisableVdso::address(base, at);
    assert((addr - base) / 8 == at && (addr - base) % 8 == 0);
    assert(DisableVdso::address(base, at + 1) == addr + WORD);
    if at + 1 == auxv {
        assert(DisableVdso::zeros(stack, at + 1, auxv) == 0);
    } else {
        let fewer: u8 = if stack[at] == 0 {
            (left - 1) as u8
        } else {
            left
        };
        if fewer == 0 {
            lemma_zeros_end(stack, at + 1, auxv);
        }
        lemma_skipping(tracee, stack, base, at + 1, fewer, auxv);
    }
}

/// A stretch of the stack that ends in a zero word holds a zero word.
proof fn lemma_zeros_end(stack: Seq<u64>, from: int, to: int)
    requires
        from < to,
        stack[to - 1] == 0,
    ensures
        DisableVdso::zeros(stack, from, to) >= 1,
    decreases to - from,
{
    if from + 1 < to {
        lemma_zeros_end(stack, from + 1, to);
    }
}

proof fn lemma_scanning(tracee: TraceeView, stack: Seq<u64>, base: u64, at: int, entry: int)
    requires
        base + 8 * stack.len() <= u64::MAX,
        0 <= at <= entry < stack.len(),
        (entry - at) % 2 == 0,
        forall|tag: int|
            at <= tag < entry && (tag - at) % 2 == 0 ==> stack[tag] != AT_NULL && stack[tag]
                != AT_SYSINFO_EHDR,
        stack[entry] == AT_NULL || stack[entry] == AT_SYSINFO_EHDR,
    ensures
        (DisableVdso::Scanning { addr: DisableVdso::address(base, at) }).runs(
            tracee,
            Action::Peek { pid: tracee.pid, addr: DisableVdso::address(base, at) },
            stack,
            base,
        ) == Some(
            if stack[entry] == AT_SYSINFO_EHDR {
                stack.update(entry, AT_IGNORE)
            } else {
                stack
            },
        ),
    decreases entry - at,
{
    let addr = DisableVdso::address(base, at);
    assert((addr - base) / 8 == at && (addr - base) % 8 == 0);
    if at < entry {
        assert(stack[at] != AT_NULL && stack[at] != AT_SYSINFO_EHDR);
        assert(DisableVdso::address(base, at + 2) == addr + ENTRY);
        assert forall|tag: int| at + 2 <= tag < entry && (tag - (at + 2)) % 2 == 0 implies stack[tag]
            != AT_NULL && stack[tag] != AT_SYSINFO_EHDR by {
            assert((tag - at) % 2 == 0);
        }
        lemma_scanning(tracee, stack, base, at + 2, entry);
    } else if stack[entry] == AT_SYSINFO_EHDR {
        let patching = DisableVdso::Patching;
        let poke = Action::Poke { pid: tracee.pid, addr, word: AT_IGNORE };
        assert(patching.runs(tracee, poke, stack, base) == Some(stack.update(entry, AT_IGNORE)));
    }
}

/// Over a stack as a task starts with, the search overwrites one word at
/// most: the tag of the first entry of the auxiliary vector that holds the
/// vDSO, if the vector has one before its end, becomes the tag of an entry
/// that counts for nothing. Here the stack's lowest word stands at the
/// stack pointer, the auxiliary vector starts at word `auxv`, behind the
/// second zero word, and the entry at word `entry` is the first in it that
/// holds the vDSO or ends the vector.
pub proof fn lemma_search_patches_vdso_entry(
    tracee: TraceeView,
    stack: Seq<u64>,
    auxv: int,
    entry: int,
)
    requires
        tracee.registers.rsp + 8 * stack.len() <= u64::MAX,
        0 < auxv <= entry < stack.len(),
        DisableVdso::zeros(stack, 0, auxv) == 2,
        stack[auxv - 1] == 0,
        (entry - auxv) % 2 == 0,
        forall|tag: int|
            auxv <= tag < entry && (tag - auxv) % 2 == 0 ==> stack[tag] != AT_NULL && stack[tag]
                != AT_SYSINFO_EHDR,
        stack[entry] == AT_NULL || stack[entry] == AT_SYSINFO_EHDR,
    ensures
        Tracee::disable_vdso_spec(tracee) matches Progress::Pending(search, action) && search.runs(
            tracee,
            action,
            stack,
            tracee.registers.rsp,
        ) == Some(
            if stack[entry] == AT_SYSINFO_EHDR {
                stack.update(entry, AT_IGNORE)
            } else {
                stack
            },
        ),
{
    let base = tracee.registers.rsp;
    assert(DisableVdso::address(base, 0) == base);
    lemma_skipping(tracee, stack, base, 0, 2, auxv);
    lemma_scanning(tracee, stack, base, auxv, entry);
}

} // verus!

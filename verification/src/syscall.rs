use vstd::prelude::*;
use vstd::std_specs::convert::FromSpecImpl;

verus! {

/// A system call of x86-64 Linux, by name where the engine knows one.
#[derive(Copy, Clone, Debug, PartialEq, Eq, Structural)]
pub enum SysNum {
    Read,
    Write,
    Open,
    Close,
    Stat,
    FStat,
    LStat,
    LSeek,
    Mmap,
    Mprotect,
    Munmap,
    Brk,
    RTSigAction,
    RTSigProcmask,
    RTSigReturn,
    IOCtl,
    PRead,
    PWrite,
    Access,
    MAdvise,
    Dup,
    Dup2,
    Nanosleep,
    GetPID,
    Socket,
    Connect,
    GetPeerName,
    Clone,
    Fork,
    VFork,
    Execve,
    Exit,
    Wait,
    Kill,
    Uname,
    Fcntl,
    GetCWD,
    Chdir,
    Creat,
    ReadLink,
    GetRLimit,
    SysInfo,
    GetUID,
    GetGID,
    SetUID,
    SetGID,
    GetEUID,
    GetEGID,
    SetPGID,
    GetPPID,
    GetPGRP,
    SigAltStack,
    StatFS,
    FStatFS,
    ArchPRCTL,
    GetTID,
    GetXAttr,
    LGetXAttr,
    Time,
    Futex,
    SchedSetAffinity,
    SchedGetAffinity,
    GetDEnts,
    SetTIDAddress,
    FAdvise,
    ClockGetTime,
    ExitGroup,
    OpenAt,
    NewFstatAt,
    SetRobustList,
    UTimeNsAt,
    Pipe2,
    PRLimit,
    GetRandom,
    StatX,
    Rseq,
    FAccessAt2,
    /// A number that the table has no name for.
    Other(u64),
}

impl SysNum {
    /// The number by which the kernel knows this system call.
    pub open spec fn number(self) -> u64 {
        match self {
            SysNum::Read => 0,
            SysNum::Write => 1,
            SysNum::Open => 2,
            SysNum::Close => 3,
            SysNum::Stat => 4,
            SysNum::FStat => 5,
            SysNum::LStat => 6,
            SysNum::LSeek => 8,
            SysNum::Mmap => 9,
            SysNum::Mprotect => 10,
            SysNum::Munmap => 11,
            SysNum::Brk => 12,
            SysNum::RTSigAction => 13,
            SysNum::RTSigProcmask => 14,
            SysNum::RTSigReturn => 15,
            SysNum::IOCtl => 16,
            SysNum::PRead => 17,
            SysNum::PWrite => 18,
            SysNum::Access => 21,
            SysNum::MAdvise => 28,
            SysNum::Dup => 32,
            SysNum::Dup2 => 33,
            SysNum::Nanosleep => 35,
            SysNum::GetPID => 39,
            SysNum::Socket => 41,
            SysNum::Connect => 42,
            SysNum::GetPeerName => 52,
            SysNum::Clone => 56,
            SysNum::Fork => 57,
            SysNum::VFork => 58,
            SysNum::Execve => 59,
            SysNum::Exit => 60,
            SysNum::Wait => 61,
            SysNum::Kill => 62,
            SysNum::Uname => 63,
            SysNum::Fcntl => 72,
            SysNum::GetCWD => 79,
            SysNum::Chdir => 80,
            SysNum::Creat => 85,
            SysNum::ReadLink => 89,
            SysNum::GetRLimit => 97,
            SysNum::SysInfo => 99,
            SysNum::GetUID => 102,
            SysNum::GetGID => 104,
            SysNum::SetUID => 105,
            SysNum::SetGID => 106,
            SysNum::GetEUID => 107,
            SysNum::GetEGID => 108,
            SysNum::SetPGID => 109,
            SysNum::GetPPID => 110,
            SysNum::GetPGRP => 111,
            SysNum::SigAltStack => 131,
            SysNum::StatFS => 137,
            SysNum::FStatFS => 138,
            SysNum::ArchPRCTL => 158,
            SysNum::GetTID => 186,
            SysNum::GetXAttr => 191,
            SysNum::LGetXAttr => 192,
            SysNum::Time => 201,
            SysNum::Futex => 202,
            SysNum::SchedSetAffinity => 203,
            SysNum::SchedGetAffinity => 204,
            SysNum::GetDEnts => 217,
            SysNum::SetTIDAddress => 218,
            SysNum::FAdvise => 221,
            SysNum::ClockGetTime => 228,
            SysNum::ExitGroup => 231,
            SysNum::OpenAt => 257,
            SysNum::NewFstatAt => 262,
            SysNum::SetRobustList => 273,
            SysNum::UTimeNsAt => 280,
            SysNum::Pipe2 => 293,
            SysNum::PRLimit => 302,
            SysNum::GetRandom => 318,
            SysNum::StatX => 332,
            SysNum::Rseq => 334,
            SysNum::FAccessAt2 => 439,
            SysNum::Other(num) => num,
        }
    }

    /// The entry of the table for a number: its name, or `Other` where it has none.
    pub open spec fn named(num: u64) -> SysNum {
        match num {
            0 => SysNum::Read,
            1 => SysNum::Write,
            2 => SysNum::Open,
            3 => SysNum::Close,
            4 => SysNum::Stat,
            5 => SysNum::FStat,
            6 => SysNum::LStat,
            8 => SysNum::LSeek,
            9 => SysNum::Mmap,
            10 => SysNum::Mprotect,
            11 => SysNum::Munmap,
            12 => SysNum::Brk,
            13 => SysNum::RTSigAction,
            14 => SysNum::RTSigProcmask,
            15 => SysNum::RTSigReturn,
            16 => SysNum::IOCtl,
            17 => SysNum::PRead,
            18 => SysNum::PWrite,
            21 => SysNum::Access,
            28 => SysNum::MAdvise,
            32 => SysNum::Dup,
            33 => SysNum::Dup2,
            35 => SysNum::Nanosleep,
            39 => SysNum::GetPID,
            41 => SysNum::Socket,
            42 => SysNum::Connect,
            52 => SysNum::GetPeerName,
            56 => SysNum::Clone,
            57 => SysNum::Fork,
            58 => SysNum::VFork,
            59 => SysNum::Execve,
            60 => SysNum::Exit,
            61 => SysNum::Wait,
            62 => SysNum::Kill,
            63 => SysNum::Uname,
            72 => SysNum::Fcntl,
            79 => SysNum::GetCWD,
            80 => SysNum::Chdir,
            85 => SysNum::Creat,
            89 => SysNum::ReadLink,
            97 => SysNum::GetRLimit,
            99 => SysNum::SysInfo,
            102 => SysNum::GetUID,
            104 => SysNum::GetGID,
            105 => SysNum::SetUID,
            106 => SysNum::SetGID,
            107 => SysNum::GetEUID,
            108 => SysNum::GetEGID,
            109 => SysNum::SetPGID,
            110 => SysNum::GetPPID,
            111 => SysNum::GetPGRP,
            131 => SysNum::SigAltStack,
            137 => SysNum::StatFS,
            138 => SysNum::FStatFS,
            158 => SysNum::ArchPRCTL,
            186 => SysNum::GetTID,
            191 => SysNum::GetXAttr,
            192 => SysNum::LGetXAttr,
            201 => SysNum::Time,
            202 => SysNum::Futex,
            203 => SysNum::SchedSetAffinity,
            204 => SysNum::SchedGetAffinity,
            217 => SysNum::GetDEnts,
            218 => SysNum::SetTIDAddress,
            221 => SysNum::FAdvise,
            228 => SysNum::ClockGetTime,
            231 => SysNum::ExitGroup,
            257 => SysNum::OpenAt,
            262 => SysNum::NewFstatAt,
            273 => SysNum::SetRobustList,
            280 => SysNum::UTimeNsAt,
            293 => SysNum::Pipe2,
            302 => SysNum::PRLimit,
            318 => SysNum::GetRandom,
            332 => SysNum::StatX,
            334 => SysNum::Rseq,
            439 => SysNum::FAccessAt2,
            _ => SysNum::Other(num),
        }
    }

    /// A value is canonical unless it is `Other` of a number that has a name.
    pub open spec fn canonical(self) -> bool {
        self matches SysNum::Other(num) ==> SysNum::named(num) == self
    }
}

impl From<u64> for SysNum {
    fn from(num: u64) -> (sys: SysNum) {
        match num {
            0 => SysNum::Read,
            1 => SysNum::Write,
            2 => SysNum::Open,
            3 => SysNum::Close,
            4 => SysNum::Stat,
            5 => SysNum::FStat,
            6 => SysNum::LStat,
            8 => SysNum::LSeek,
            9 => SysNum::Mmap,
            10 => SysNum::Mprotect,
            11 => SysNum::Munmap,
            12 => SysNum::Brk,
            13 => SysNum::RTSigAction,
            14 => SysNum::RTSigProcmask,
            15 => SysNum::RTSigReturn,
            16 => SysNum::IOCtl,
            17 => SysNum::PRead,
            18 => SysNum::PWrite,
            21 => SysNum::Access,
            28 => SysNum::MAdvise,
            32 => SysNum::Dup,
            33 => SysNum::Dup2,
            35 => SysNum::Nanosleep,
            39 => SysNum::GetPID,
            41 => SysNum::Socket,
            42 => SysNum::Connect,
            52 => SysNum::GetPeerName,
            56 => SysNum::Clone,
            57 => SysNum::Fork,
            58 => SysNum::VFork,
            59 => SysNum::Execve,
            60 => SysNum::Exit,
            61 => SysNum::Wait,
            62 => SysNum::Kill,
            63 => SysNum::Uname,
            72 => SysNum::Fcntl,
            79 => SysNum::GetCWD,
            80 => SysNum::Chdir,
            85 => SysNum::Creat,
            89 => SysNum::ReadLink,
            97 => SysNum::GetRLimit,
            99 => SysNum::SysInfo,
            102 => SysNum::GetUID,
            104 => SysNum::GetGID,
            105 => SysNum::SetUID,
            106 => SysNum::SetGID,
            107 => SysNum::GetEUID,
            108 => SysNum::GetEGID,
            109 => SysNum::SetPGID,
            110 => SysNum::GetPPID,
            111 => SysNum::GetPGRP,
            131 => SysNum::SigAltStack,
            137 => SysNum::StatFS,
            138 => SysNum::FStatFS,
            158 => SysNum::ArchPRCTL,
            186 => SysNum::GetTID,
            191 => SysNum::GetXAttr,
            192 => SysNum::LGetXAttr,
            201 => SysNum::Time,
            202 => SysNum::Futex,
            203 => SysNum::SchedSetAffinity,
            204 => SysNum::SchedGetAffinity,
            217 => SysNum::GetDEnts,
            218 => SysNum::SetTIDAddress,
            221 => SysNum::FAdvise,
            228 => SysNum::ClockGetTime,
            231 => SysNum::ExitGroup,
            257 => SysNum::OpenAt,
            262 => SysNum::NewFstatAt,
            273 => SysNum::SetRobustList,
            280 => SysNum::UTimeNsAt,
            293 => SysNum::Pipe2,
            302 => SysNum::PRLimit,
            318 => SysNum::GetRandom,
            332 => SysNum::StatX,
            334 => SysNum::Rseq,
            439 => SysNum::FAccessAt2,
            _ => SysNum::Other(num),
        }
    }
}

impl FromSpecImpl<u64> for SysNum {
    open spec fn obeys_from_spec() -> bool {
        true
    }

    open spec fn from_spec(num: u64) -> SysNum {
        SysNum::named(num)
    }
}

impl From<SysNum> for u64 {
    fn from(sys: SysNum) -> (num: u64) {
        match sys {
            SysNum::Read => 0,
            SysNum::Write => 1,
            SysNum::Open => 2,
            SysNum::Close => 3,
            SysNum::Stat => 4,
            SysNum::FStat => 5,
            SysNum::LStat => 6,
            SysNum::LSeek => 8,
            SysNum::Mmap => 9,
            SysNum::Mprotect => 10,
            SysNum::Munmap => 11,
            SysNum::Brk => 12,
            SysNum::RTSigAction => 13,
            SysNum::RTSigProcmask => 14,
            SysNum::RTSigReturn => 15,
            SysNum::IOCtl => 16,
            SysNum::PRead => 17,
            SysNum::PWrite => 18,
            SysNum::Access => 21,
            SysNum::MAdvise => 28,
            SysNum::Dup => 32,
            SysNum::Dup2 => 33,
            SysNum::Nanosleep => 35,
            SysNum::GetPID => 39,
            SysNum::Socket => 41,
            SysNum::Connect => 42,
            SysNum::GetPeerName => 52,
            SysNum::Clone => 56,
            SysNum::Fork => 57,
            SysNum::VFork => 58,
            SysNum::Execve => 59,
            SysNum::Exit => 60,
            SysNum::Wait => 61,
            SysNum::Kill => 62,
            SysNum::Uname => 63,
            SysNum::Fcntl => 72,
            SysNum::GetCWD => 79,
            SysNum::Chdir => 80,
            SysNum::Creat => 85,
            SysNum::ReadLink => 89,
            SysNum::GetRLimit => 97,
            SysNum::SysInfo => 99,
            SysNum::GetUID => 102,
            SysNum::GetGID => 104,
            SysNum::SetUID => 105,
            SysNum::SetGID => 106,
            SysNum::GetEUID => 107,
            SysNum::GetEGID => 108,
            SysNum::SetPGID => 109,
            SysNum::GetPPID => 110,
            SysNum::GetPGRP => 111,
            SysNum::SigAltStack => 131,
            SysNum::StatFS => 137,
            SysNum::FStatFS => 138,
            SysNum::ArchPRCTL => 158,
            SysNum::GetTID => 186,
            SysNum::GetXAttr => 191,
            SysNum::LGetXAttr => 192,
            SysNum::Time => 201,
            SysNum::Futex => 202,
            SysNum::SchedSetAffinity => 203,
            SysNum::SchedGetAffinity => 204,
            SysNum::GetDEnts => 217,
            SysNum::SetTIDAddress => 218,
            SysNum::FAdvise => 221,
            SysNum::ClockGetTime => 228,
            SysNum::ExitGroup => 231,
            SysNum::OpenAt => 257,
            SysNum::NewFstatAt => 262,
            SysNum::SetRobustList => 273,
            SysNum::UTimeNsAt => 280,
            SysNum::Pipe2 => 293,
            SysNum::PRLimit => 302,
            SysNum::GetRandom => 318,
            SysNum::StatX => 332,
            SysNum::Rseq => 334,
            SysNum::FAccessAt2 => 439,
            SysNum::Other(num) => num,
        }
    }
}

impl FromSpecImpl<SysNum> for u64 {
    open spec fn obeys_from_spec() -> bool {
        true
    }

    open spec fn from_spec(sys: SysNum) -> u64 {
        sys.number()
    }
}

/// Naming a number and asking for the number again gives the number back,
/// and the name is canonical.
pub proof fn lemma_number_of_named(num: u64)
    ensures
        SysNum::named(num).number() == num,
        SysNum::named(num).canonical(),
{
}

/// Numbering a system call and naming the number gives the system call back
/// exactly when it is canonical.
pub proof fn lemma_named_of_number(sys: SysNum)
    ensures
        SysNum::named(sys.number()) == sys <==> sys.canonical(),
{
}

/// Clock ids of `clock_gettime`.
pub const CLOCK_REALTIME: i32 = 0;

pub const CLOCK_MONOTONIC: i32 = 1;

pub const CLOCK_PROCESS_CPUTIME_ID: i32 = 2;

pub const CLOCK_THREAD_CPUTIME_ID: i32 = 3;

pub const CLOCK_MONOTONIC_RAW: i32 = 4;

pub const CLOCK_REALTIME_COARSE: i32 = 5;

pub const CLOCK_MONOTONIC_COARSE: i32 = 6;

pub const CLOCK_BOOTTIME: i32 = 7;

pub const CLOCK_REALTIME_ALARM: i32 = 8;

pub const CLOCK_BOOTTIME_ALARM: i32 = 9;

/// The kind of clock that a time query reads, with the id where the kind
/// covers several.
#[derive(Clone, Copy, Debug, PartialEq, Eq, Structural)]
pub enum Clock {
    Realtime(i32),
    Monotonic(i32),
    ProcessCPUTime,
    ThreadCPUTime,
    Other(i32),
}

impl Clock {
    /// Wall-clock ids: the only clocks whose readings may be replaced.
    pub open spec fn is_wall_clock_id(id: i32) -> bool {
        id == CLOCK_REALTIME || id == CLOCK_REALTIME_COARSE || id == CLOCK_REALTIME_ALARM
    }

    /// Ids of clocks that only move forward, boot time included.
    pub open spec fn is_monotonic_id(id: i32) -> bool {
        id == CLOCK_MONOTONIC || id == CLOCK_MONOTONIC_COARSE || id == CLOCK_MONOTONIC_RAW
            || id == CLOCK_BOOTTIME || id == CLOCK_BOOTTIME_ALARM
    }

    /// The kind of the clock with a given id.
    pub open spec fn classify(id: i32) -> Clock {
        if Self::is_wall_clock_id(id) {
            Clock::Realtime(id)
        } else if Self::is_monotonic_id(id) {
            Clock::Monotonic(id)
        } else if id == CLOCK_PROCESS_CPUTIME_ID {
            Clock::ProcessCPUTime
        } else if id == CLOCK_THREAD_CPUTIME_ID {
            Clock::ThreadCPUTime
        } else {
            Clock::Other(id)
        }
    }

    /// Whether readings of this clock may be replaced by a configured time.
    pub open spec fn is_realtime(self) -> bool {
        self is Realtime
    }
}

impl From<u64> for Clock {
    /// Classifies the clock id that a register holds; the id is the low 32
    /// bits of the register.
    fn from(num: u64) -> (clock: Clock) {
        let id: i32 = #[verifier::truncate]
        (num as i32);
        if id == CLOCK_REALTIME || id == CLOCK_REALTIME_COARSE || id == CLOCK_REALTIME_ALARM {
            Clock::Realtime(id)
        } else if id == CLOCK_MONOTONIC || id == CLOCK_MONOTONIC_COARSE || id
            == CLOCK_MONOTONIC_RAW || id == CLOCK_BOOTTIME || id == CLOCK_BOOTTIME_ALARM {
            Clock::Monotonic(id)
        } else if id == CLOCK_PROCESS_CPUTIME_ID {
            Clock::ProcessCPUTime
        } else if id == CLOCK_THREAD_CPUTIME_ID {
            Clock::ThreadCPUTime
        } else {
            Clock::Other(id)
        }
    }
}

impl FromSpecImpl<u64> for Clock {
    open spec fn obeys_from_spec() -> bool {
        true
    }

    open spec fn from_spec(num: u64) -> Clock {
        Clock::classify(num as i32)
    }
}

/// A clock is a wall clock exactly when its id is one of the three wall-clock
/// ids, and the kind keeps the id.
pub proof fn lemma_classify_realtime(id: i32)
    ensures
        Clock::classify(id).is_realtime() <==> Clock::is_wall_clock_id(id),
        Clock::classify(id) matches Clock::Realtime(kept) ==> kept == id,
        Clock::classify(id) matches Clock::Monotonic(kept) ==> kept == id,
        Clock::classify(id) matches Clock::Other(kept) ==> kept == id,
{
}

} // verus!

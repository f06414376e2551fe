use intercept::kernel::{Action, Progress, Reply, WaitStatus, CHUNK};
use intercept::registers::{Registers, ENTRY_MARKER};
use intercept::tracer::memory::{find_terminator, ReadMemory, ReadString, WriteBytes, WriteString};
use intercept::tracer::tracee::{Memory, State, Tracee};
use intercept::Error;
use nix::libc;

const PID: i32 = 21;

fn tracee() -> Tracee {
    Tracee::new(
        PID,
        Registers { rax: ENTRY_MARKER, orig_rax: 257, rip: 0x40_0000, ..Registers::zeroed() },
    )
}

fn read_all(memory: &[u8], addr: u64, short: bool) -> Progress<ReadString, String> {
    let mut progress = tracee().read_string(addr);
    loop {
        match progress {
            Progress::Pending(read, Action::ReadSome { pid: PID, addr, len }) => {
                assert_eq!(len, CHUNK);
                let from = addr as usize;
                let to = if short { memory.len() } else { (from + len).min(memory.len()) };
                progress = read.resume(PID, Reply::Data(memory[from.min(to)..to].to_vec()));
            }
            Progress::Pending(_, other) => panic!("unexpected request {:?}", other),
            ended => return ended,
        }
    }
}

#[test]
fn the_terminator_is_the_first_zero_byte() {
    assert_eq!(find_terminator(&vec![]), 0);
    assert_eq!(find_terminator(&vec![0]), 0);
    assert_eq!(find_terminator(&vec![1, 2, 3]), 3);
    assert_eq!(find_terminator(&vec![1, 0, 3, 0]), 1);
    assert_eq!(find_terminator(&vec![1, 2, 0]), 2);
}

#[test]
fn a_string_is_read_up_to_its_zero_byte() {
    let mut memory = vec![0u8; 64];
    memory[8..19].copy_from_slice(b"/etc/passwd");
    memory[20] = b'x';
    assert_eq!(read_all(&memory, 8, false), Progress::Done("/etc/passwd".to_string()));
    assert_eq!(read_all(&memory, 12, false), Progress::Done("/passwd".to_string()));
    assert_eq!(read_all(&memory, 19, false), Progress::Done(String::new()));
}

#[test]
fn a_short_read_ends_the_string() {
    let memory = b"abc".to_vec();
    assert_eq!(read_all(&memory, 0, true), Progress::Done("abc".to_string()));
    assert_eq!(read_all(&memory, 3, true), Progress::Done(String::new()));
}

#[test]
fn a_long_string_is_read_chunk_by_chunk() {
    let mut memory = vec![b'a'; 2 * CHUNK + 10];
    memory.push(0);
    memory.extend_from_slice(b"tail");
    let read = match read_all(&memory, 0, false) {
        Progress::Done(read) => read,
        other => panic!("{:?}", other),
    };
    assert_eq!(read.len(), 2 * CHUNK + 10);
    assert!(read.bytes().all(|byte| byte == b'a'));
    let first = ReadString { addr: 0x1000, text: "ab".to_string() };
    assert_eq!(
        first.resume(PID, Reply::Data(vec![b'c'; CHUNK])),
        Progress::Pending(
            ReadString { addr: 0x2000, text: format!("ab{}", "c".repeat(CHUNK)) },
            Action::ReadSome { pid: PID, addr: 0x2000, len: CHUNK }
        )
    );
}

#[test]
fn characters_of_several_bytes_are_decoded() {
    let mut memory = "/tmp/übung/文件".as_bytes().to_vec();
    memory.push(0);
    assert_eq!(read_all(&memory, 0, false), Progress::Done("/tmp/übung/文件".to_string()));
}

#[test]
fn bytes_that_are_not_utf8_fail_the_read() {
    let memory = vec![b'a', 0xff, b'b', 0];
    assert_eq!(read_all(&memory, 0, false), Progress::Failed(Error::Decode));
    let behind_the_end = vec![b'a', 0, 0xff, 0xfe];
    assert_eq!(read_all(&behind_the_end, 0, false), Progress::Done("a".to_string()));
    let cut_in_two = vec![0xc3];
    assert_eq!(read_all(&cut_in_two, 0, true), Progress::Failed(Error::Decode));
}

#[test]
fn a_chunk_that_is_too_long_is_a_violation() {
    let read = ReadString { addr: 0, text: String::new() };
    assert_eq!(
        read.resume(PID, Reply::Data(vec![b'a'; CHUNK + 1])),
        Progress::Failed(Error::ProtocolViolation)
    );
}

#[test]
fn a_string_does_not_run_past_the_address_space() {
    let read = ReadString { addr: u64::MAX - 100, text: String::new() };
    assert_eq!(read.resume(PID, Reply::Data(vec![b'a'; CHUNK])), Progress::Failed(Error::Decode));
    let last = ReadString { addr: u64::MAX - CHUNK as u64, text: String::new() };
    assert_eq!(
        last.resume(PID, Reply::Data(vec![b'a'; CHUNK])),
        Progress::Pending(
            ReadString { addr: u64::MAX, text: "a".repeat(CHUNK) },
            Action::ReadSome { pid: PID, addr: u64::MAX, len: CHUNK }
        )
    );
}

#[test]
fn a_failed_read_fails_the_string() {
    let read = ReadString { addr: 0, text: String::new() };
    assert_eq!(read.resume(PID, Reply::Failed(libc::EIO)), Progress::Failed(Error::Io(libc::EIO)));
    let read = ReadString { addr: 0, text: String::new() };
    assert_eq!(read.resume(PID, Reply::Done), Progress::Failed(Error::ProtocolViolation));
}

#[test]
fn a_write_is_one_request() {
    let progress = tracee().write_bytes(0x5000, vec![1, 2, 3]);
    assert_eq!(
        progress,
        Progress::Pending(WriteBytes, Action::Write { pid: PID, addr: 0x5000, data: vec![1, 2, 3] })
    );
    assert_eq!(WriteBytes.resume(Reply::Done), Progress::Done(()));
    assert_eq!(WriteBytes.resume(Reply::Failed(libc::EFAULT)), Progress::Failed(Error::Io(14)));
    assert_eq!(WriteBytes.resume(Reply::Word(1)), Progress::Failed(Error::ProtocolViolation));
}

#[test]
fn a_short_read_of_memory_peeks_a_word() {
    assert_eq!(
        tracee().read_memory(0x5000, 8),
        Progress::Pending(ReadMemory::Word { len: 8 }, Action::Peek { pid: PID, addr: 0x5000 })
    );
    assert_eq!(
        tracee().read_memory(0x5000, 0),
        Progress::Pending(ReadMemory::Word { len: 0 }, Action::Peek { pid: PID, addr: 0x5000 })
    );
    let word = 0x0807_0605_0403_0201;
    assert_eq!(
        ReadMemory::Word { len: 8 }.resume(Reply::Word(word)),
        Progress::Done(vec![1, 2, 3, 4, 5, 6, 7, 8])
    );
    assert_eq!(ReadMemory::Word { len: 3 }.resume(Reply::Word(word)), Progress::Done(vec![1, 2, 3]));
    assert_eq!(ReadMemory::Word { len: 0 }.resume(Reply::Word(word)), Progress::Done(vec![]));
    assert_eq!(
        ReadMemory::Word { len: 9 }.resume(Reply::Word(word)),
        Progress::Failed(Error::ProtocolViolation)
    );
}

#[test]
fn a_long_read_of_memory_reads_the_bytes() {
    assert_eq!(
        tracee().read_memory(0x5000, 9),
        Progress::Pending(
            ReadMemory::Block { len: 9 },
            Action::Read { pid: PID, addr: 0x5000, len: 9 }
        )
    );
    let block: Vec<u8> = (1..=9).collect();
    assert_eq!(
        ReadMemory::Block { len: 9 }.resume(Reply::Data(block.clone())),
        Progress::Done(block.clone())
    );
    assert_eq!(
        ReadMemory::Block { len: 10 }.resume(Reply::Data(block)),
        Progress::Failed(Error::ProtocolViolation)
    );
    assert_eq!(
        ReadMemory::Block { len: 9 }.resume(Reply::Failed(libc::EIO)),
        Progress::Failed(Error::Io(libc::EIO))
    );
    assert_eq!(
        ReadMemory::Block { len: 9 }.resume(Reply::Word(1)),
        Progress::Failed(Error::ProtocolViolation)
    );
}

fn answer(action: &Action, held: &mut Registers, position: &mut State, written: &mut Vec<u8>) -> Reply {
    match action {
        Action::Peek { .. } => Reply::Word(0),
        Action::Poke { .. } => Reply::Done,
        Action::SetRegisters { registers, .. } => {
            *held = *registers;
            Reply::Done
        }
        Action::Syscall { .. } => {
            match position {
                State::BeforeSyscall => {
                    assert_eq!(held.orig_rax, 9);
                    held.rax = 0x7000_0000;
                    *position = State::AfterSyscall;
                }
                _ => {
                    held.orig_rax = held.rax;
                    held.rax = ENTRY_MARKER;
                    *position = State::BeforeSyscall;
                }
            }
            Reply::Done
        }
        Action::Wait { pid } => Reply::Status(WaitStatus::PtraceSyscall { pid: *pid }),
        Action::GetRegisters { .. } => Reply::Registers(*held),
        Action::Write { addr, data, .. } => {
            assert_eq!(*addr, 0x7000_0000);
            written.extend_from_slice(data);
            Reply::Done
        }
        other => panic!("unexpected request {:?}", other),
    }
}

#[test]
fn a_string_is_written_with_a_zero_byte_into_memory_of_its_size() {
    let mut tracee = tracee();
    let before = tracee.registers;
    let mut held = tracee.registers;
    let mut position = tracee.state;
    let mut written = Vec::new();
    let mut progress = tracee.write_string("/dev/null");
    match &progress {
        Progress::Pending(WriteString::Reserving { reserve, data }, _) => {
            assert_eq!(data.as_slice(), b"/dev/null\0");
            assert_eq!(reserve.len, 10);
            assert_eq!(reserve.call.loaded.rsi, 10);
        }
        other => panic!("{:?}", other),
    }
    let addr = loop {
        match progress {
            Progress::Pending(write, action) => {
                let reply = answer(&action, &mut held, &mut position, &mut written);
                progress = write.resume(&mut tracee, reply);
            }
            Progress::Done(addr) => break addr,
            Progress::Failed(error) => panic!("{:?}", error),
        }
    };
    assert_eq!(addr, 0x7000_0000);
    assert_eq!(written, b"/dev/null\0");
    assert_eq!(tracee.allocations, vec![Memory { addr: 0x7000_0000, len: 10 }]);
    assert_eq!(tracee.registers, before);
    assert_eq!(tracee.state, State::BeforeSyscall);
}

#[test]
fn an_empty_string_is_a_zero_byte() {
    match tracee().write_string("") {
        Progress::Pending(WriteString::Reserving { reserve, data }, _) => {
            assert_eq!(data, vec![0]);
            assert_eq!(reserve.len, 1);
        }
        other => panic!("{:?}", other),
    }
}

#[test]
fn a_failed_write_of_the_string_keeps_the_region() {
    let mut tracee = tracee();
    let writing = WriteString::Writing { addr: 0x7000_0000 };
    assert_eq!(
        writing.resume(&mut tracee, Reply::Failed(libc::EIO)),
        Progress::Failed(Error::Io(libc::EIO))
    );
    let writing = WriteString::Writing { addr: 0x7000_0000 };
    assert_eq!(writing.resume(&mut tracee, Reply::Done), Progress::Done(0x7000_0000));
}

use intercept::config::{Redirect, RedirectConfig};
use intercept::kernel::{Action, Progress, Reply, WaitStatus};
use intercept::modules::file::{FileManager, FileStage, FileTask};
use intercept::modules::pid::{PidStage, PidTask};
use intercept::modules::random::{RandomStage, RandomTask, SEED};
use intercept::modules::time::{decode, encode, TimeStage, TimeTask, TIMESPEC_LEN};
use intercept::modules::{PIDManager, RandomManager, TimeManager};
use intercept::recorder::{FileRecord, PIDRecord, RandomRecord, TimeRecord, Timestamp};
use intercept::registers::{Registers, ENTRY_MARKER};
use intercept::syscall::Clock;
use intercept::tracer::tracee::{Memory, State, Tracee};
use intercept::{Error, SysNum};
use nix::libc;
use rand::rngs::StdRng;
use rand::{RngCore, SeedableRng};

const PID: i32 = 41;
const SCRATCH: u64 = 0x7000_0000;

fn at_entry(number: u64) -> Registers {
    Registers {
        rax: ENTRY_MARKER,
        orig_rax: number,
        rdi: 0x100,
        rsi: 0x200,
        rdx: 0x300,
        rip: 0x40_0000,
        ..Registers::zeroed()
    }
}

/// A task at a system call, and what the kernel would do with it: the call
/// that the task is in returns `result`, injected mappings return
/// `SCRATCH`.
struct Kernel {
    registers: Registers,
    position: State,
    result: u64,
    written: Vec<(u64, Vec<u8>)>,
    memory: Vec<u8>,
    asked: Vec<Action>,
    ran: Vec<Registers>,
}

impl Kernel {
    fn new(registers: Registers, result: u64) -> Kernel {
        Kernel {
            registers,
            position: State::BeforeSyscall,
            result,
            written: Vec::new(),
            memory: Vec::new(),
            asked: Vec::new(),
            ran: Vec::new(),
        }
    }

    fn answer(&mut self, action: Action) -> Reply {
        let reply = match &action {
            Action::Peek { .. } => Reply::Word(0x9090),
            Action::Poke { .. } => Reply::Done,
            Action::SetRegisters { registers, .. } => {
                self.registers = *registers;
                Reply::Done
            }
            Action::Syscall { .. } => {
                match self.position {
                    State::BeforeSyscall => {
                        self.ran.push(self.registers);
                        self.registers.rax = match self.registers.orig_rax {
                            9 => SCRATCH,
                            11 => 0,
                            _ => self.result,
                        };
                        self.position = State::AfterSyscall;
                    }
                    _ => {
                        self.registers.orig_rax = self.registers.rax;
                        self.registers.rax = ENTRY_MARKER;
                        self.position = State::BeforeSyscall;
                    }
                }
                Reply::Done
            }
            Action::Wait { pid } => Reply::Status(WaitStatus::PtraceSyscall { pid: *pid }),
            Action::GetRegisters { .. } => Reply::Registers(self.registers),
            Action::Write { addr, data, .. } => {
                self.written.push((*addr, data.clone()));
                Reply::Done
            }
            Action::Read { len, .. } => Reply::Data(self.memory[..*len].to_vec()),
            Action::Canonicalize { path } => {
                if path.starts_with('/') {
                    Reply::Path(path.clone())
                } else if path == "link" {
                    Reply::Path("/etc/passwd".to_string())
                } else {
                    Reply::Failed(libc::ENOENT)
                }
            }
            other => panic!("unexpected request {:?}", other),
        };
        self.asked.push(action);
        reply
    }
}

fn passwd_to_null() -> FileManager {
    FileManager::new(vec![Redirect { from: "/etc/passwd".to_string(), to: "/dev/null".to_string() }])
}

fn open(
    manager: &FileManager,
    kernel: &mut Kernel,
    tracee: &mut Tracee,
    path: &str,
    num: SysNum,
) -> Progress<FileTask, FileRecord> {
    let mut progress = manager.process(path.to_string(), num, true, false);
    loop {
        match progress {
            Progress::Pending(task, action) => {
                let reply = kernel.answer(action);
                progress = task.resume(manager, tracee, reply);
            }
            ended => return ended,
        }
    }
}

#[test]
fn the_last_pair_for_a_path_decides() {
    let manager = FileManager::new(vec![
        Redirect { from: "/a".to_string(), to: "/first".to_string() },
        Redirect { from: "/b".to_string(), to: "/other".to_string() },
        Redirect { from: "/a".to_string(), to: "/second".to_string() },
    ]);
    assert_eq!(manager.destination(&"/a".to_string()), Some(&"/second".to_string()));
    assert_eq!(manager.destination(&"/b".to_string()), Some(&"/other".to_string()));
    assert_eq!(manager.destination(&"/c".to_string()), None);
    assert_eq!(manager.destination(&"".to_string()), None);
    assert_eq!(
        manager.lookup(&"/a".to_string()),
        Some(&Redirect { from: "/a".to_string(), to: "/second".to_string() })
    );
    assert_eq!(FileManager::new(vec![]).destination(&"/a".to_string()), None);
}

fn settings(files: Vec<Redirect>, random: bool) -> RedirectConfig {
    RedirectConfig { files, random, time: None, pid: None, stdout: None, stderr: None }
}

#[test]
fn random_devices_read_zeros_where_random_bytes_are_replaced() {
    let manager = FileManager::from_config(&settings(vec![], true));
    assert_eq!(manager.destination(&"/dev/urandom".to_string()), Some(&"/dev/zero".to_string()));
    assert_eq!(manager.destination(&"/dev/random".to_string()), Some(&"/dev/zero".to_string()));
    assert_eq!(manager.destination(&"/dev/zero".to_string()), None);
    let manager = FileManager::from_config(&settings(vec![], false));
    assert_eq!(manager.destination(&"/dev/urandom".to_string()), None);
    assert_eq!(manager.destination(&"/dev/random".to_string()), None);
}

#[test]
fn a_listed_pair_goes_before_the_default() {
    let files = vec![
        Redirect { from: "/dev/urandom".to_string(), to: "/tmp/bytes".to_string() },
        Redirect { from: "/etc/passwd".to_string(), to: "/dev/null".to_string() },
    ];
    let manager = FileManager::from_config(&settings(files, true));
    assert_eq!(manager.destination(&"/dev/urandom".to_string()), Some(&"/tmp/bytes".to_string()));
    assert_eq!(manager.destination(&"/dev/random".to_string()), Some(&"/dev/zero".to_string()));
    assert_eq!(manager.destination(&"/etc/passwd".to_string()), Some(&"/dev/null".to_string()));
}

#[test]
fn an_open_that_is_not_redirected_is_observed() {
    let manager = passwd_to_null();
    let mut kernel = Kernel::new(at_entry(257), 3);
    let mut tracee = Tracee::new(PID, kernel.registers);
    let ended = open(&manager, &mut kernel, &mut tracee, "/etc/hosts", SysNum::OpenAt);
    assert_eq!(
        ended,
        Progress::Done(FileRecord {
            path: "/etc/hosts".to_string(),
            success: true,
            read: true,
            write: false
        })
    );
    assert_eq!(kernel.ran, vec![at_entry(257)]);
    assert!(kernel.written.is_empty());
    assert!(tracee.allocations.is_empty());
    assert_eq!(kernel.asked[0], Action::Canonicalize { path: "/etc/hosts".to_string() });
}

#[test]
fn a_redirected_openat_opens_the_other_path() {
    let manager = passwd_to_null();
    let mut kernel = Kernel::new(at_entry(257), 3);
    let mut tracee = Tracee::new(PID, kernel.registers);
    let ended = open(&manager, &mut kernel, &mut tracee, "/etc/passwd", SysNum::OpenAt);
    assert_eq!(
        ended,
        Progress::Done(FileRecord {
            path: "/etc/passwd".to_string(),
            success: true,
            read: true,
            write: false
        })
    );
    assert_eq!(kernel.written, vec![(SCRATCH, b"/dev/null\0".to_vec())]);
    assert_eq!(tracee.allocations, vec![Memory { addr: SCRATCH, len: 10 }]);
    let last = kernel.ran.last().unwrap();
    assert_eq!(*last, Registers { rsi: SCRATCH, ..at_entry(257) });
    assert_eq!(tracee.state, State::AfterSyscall);
}

#[test]
fn a_redirected_open_rewrites_its_first_argument() {
    let manager = passwd_to_null();
    let mut kernel = Kernel::new(at_entry(2), 3);
    let mut tracee = Tracee::new(PID, kernel.registers);
    let ended = open(&manager, &mut kernel, &mut tracee, "/etc/passwd", SysNum::Open);
    assert!(matches!(ended, Progress::Done(_)));
    let last = kernel.ran.last().unwrap();
    assert_eq!(*last, Registers { rdi: SCRATCH, ..at_entry(2) });
}

#[test]
fn the_table_is_asked_about_the_resolved_path() {
    let manager = passwd_to_null();
    let mut kernel = Kernel::new(at_entry(257), 3);
    let mut tracee = Tracee::new(PID, kernel.registers);
    let ended = open(&manager, &mut kernel, &mut tracee, "link", SysNum::OpenAt);
    assert_eq!(
        ended,
        Progress::Done(FileRecord {
            path: "link".to_string(),
            success: true,
            read: true,
            write: false
        })
    );
    assert_eq!(kernel.written, vec![(SCRATCH, b"/dev/null\0".to_vec())]);
}

#[test]
fn a_path_that_does_not_resolve_is_looked_up_as_it_is() {
    let manager = FileManager::new(vec![Redirect {
        from: "missing".to_string(),
        to: "/dev/null".to_string(),
    }]);
    let mut kernel = Kernel::new(at_entry(257), 3);
    let mut tracee = Tracee::new(PID, kernel.registers);
    let ended = open(&manager, &mut kernel, &mut tracee, "missing", SysNum::OpenAt);
    assert!(matches!(ended, Progress::Done(_)));
    assert_eq!(kernel.written, vec![(SCRATCH, b"/dev/null\0".to_vec())]);
    let mut kernel = Kernel::new(at_entry(257), 3);
    let mut tracee = Tracee::new(PID, kernel.registers);
    let ended = open(&manager, &mut kernel, &mut tracee, "absent", SysNum::OpenAt);
    assert!(matches!(ended, Progress::Done(_)));
    assert!(kernel.written.is_empty());
}

#[test]
fn an_open_that_fails_is_recorded_as_failed() {
    let manager = passwd_to_null();
    let mut kernel = Kernel::new(at_entry(257), (-(libc::ENOENT as i64)) as u64);
    let mut tracee = Tracee::new(PID, kernel.registers);
    let ended = open(&manager, &mut kernel, &mut tracee, "/nowhere", SysNum::OpenAt);
    assert_eq!(
        ended,
        Progress::Done(FileRecord {
            path: "/nowhere".to_string(),
            success: false,
            read: true,
            write: false
        })
    );
    assert_eq!(tracee.registers.rax, (-(libc::ENOENT as i64)) as u64);
    assert_eq!(kernel.registers.rax, (-(libc::ENOENT as i64)) as u64);
}

#[test]
fn a_redirection_of_another_call_is_refused() {
    let manager = passwd_to_null();
    let mut kernel = Kernel::new(at_entry(85), 3);
    let mut tracee = Tracee::new(PID, kernel.registers);
    let ended = open(&manager, &mut kernel, &mut tracee, "/etc/passwd", SysNum::Creat);
    assert_eq!(ended, Progress::Failed(Error::InvalidInput));
    assert_eq!(kernel.written, vec![(SCRATCH, b"/dev/null\0".to_vec())]);
}

#[test]
fn an_answer_of_the_wrong_kind_ends_the_open() {
    let manager = passwd_to_null();
    let mut tracee = Tracee::new(PID, at_entry(257));
    let task = FileTask {
        path: "/etc/passwd".to_string(),
        num: SysNum::OpenAt,
        read: true,
        write: false,
        stage: FileStage::Resolving,
    };
    assert_eq!(
        task.resume(&manager, &mut tracee, Reply::Done),
        Progress::Failed(Error::ProtocolViolation)
    );
}

fn reference(lengths: &[usize]) -> Vec<Vec<u8>> {
    let mut rng = StdRng::seed_from_u64(0xdeadbeef);
    lengths
        .iter()
        .map(|len| {
            let mut buf = vec![0u8; *len];
            rng.fill_bytes(&mut buf);
            buf
        })
        .collect()
}

#[test]
fn the_seed_is_fixed() {
    assert_eq!(SEED, 0xdeadbeef);
}

#[test]
fn bytes_come_from_the_seeded_generator_in_call_order() {
    let lengths = [16usize, 16, 1, 0, 3, 4096, 5];
    let expected = reference(&lengths);
    let mut manager = RandomManager::new(true);
    for (len, bytes) in lengths.iter().zip(expected.iter()) {
        assert_eq!(&manager.getrandom(*len), bytes);
    }
    assert_ne!(expected[0], vec![0u8; 16]);
    assert_ne!(expected[0], expected[1]);
}

#[test]
fn a_request_for_nothing_leaves_the_generator_where_it_stands() {
    let mut asked = RandomManager::new(true);
    let mut spared = RandomManager::new(true);
    assert_eq!(asked.getrandom(0), Vec::<u8>::new());
    assert_eq!(asked.getrandom(0), Vec::<u8>::new());
    assert_eq!(asked.getrandom(9), spared.getrandom(9));
    assert_eq!(asked.getrandom(0), Vec::<u8>::new());
    assert_eq!(asked.getrandom(16), spared.getrandom(16));
}

#[test]
fn the_generator_moves_on_by_whole_words() {
    let mut halves = RandomManager::new(true);
    let mut whole = RandomManager::new(true);
    let mut first = halves.getrandom(4);
    first.extend(halves.getrandom(4));
    assert_eq!(first, whole.getrandom(8));
    assert_eq!(halves.getrandom(5), whole.getrandom(5));
    let mut ragged = RandomManager::new(true);
    let mut even = RandomManager::new(true);
    let one = ragged.getrandom(1);
    let four = even.getrandom(4);
    assert_eq!(one[..], four[..1]);
    assert_eq!(ragged.getrandom(8), even.getrandom(8));
    let mut bytes = RandomManager::new(true);
    let mut words = RandomManager::new(true);
    let single: Vec<u8> = (0..3).map(|_| bytes.getrandom(1)[0]).collect();
    let spread = words.getrandom(12);
    assert_eq!(single, vec![spread[0], spread[4], spread[8]]);
}

#[test]
fn two_managers_serve_the_same_bytes() {
    let mut first = RandomManager::new(true);
    let mut second = RandomManager::new(false);
    assert!(first.is_active());
    assert!(!second.is_active());
    assert_eq!(first.getrandom(32), second.getrandom(32));
    assert_eq!(first.getrandom(7), second.getrandom(7));
}

fn getrandom(
    manager: &mut RandomManager,
    kernel: &mut Kernel,
    tracee: &mut Tracee,
    len: usize,
    addr: u64,
) -> Progress<RandomTask, RandomRecord> {
    let mut progress = manager.process(tracee, len, addr);
    loop {
        match progress {
            Progress::Pending(task, action) => {
                let reply = kernel.answer(action);
                progress = task.resume(manager, tracee, reply);
            }
            ended => return ended,
        }
    }
}

#[test]
fn replaced_random_bytes_are_written_and_the_length_returned() {
    let expected = reference(&[16, 16]);
    let mut manager = RandomManager::new(true);
    for round in 0..2 {
        let mut kernel = Kernel::new(Registers { rdi: 0x5000, rsi: 16, ..at_entry(318) }, 8);
        let mut tracee = Tracee::new(PID, kernel.registers);
        let ended = getrandom(&mut manager, &mut kernel, &mut tracee, 16, 0x5000);
        assert_eq!(ended, Progress::Done(RandomRecord { length: 16 }));
        assert_eq!(kernel.written, vec![(0x5000, expected[round].clone())]);
        assert_eq!(kernel.registers.rax, 16);
        assert_eq!(tracee.registers.rax, 16);
        assert_eq!(kernel.ran.len(), 1);
        let kinds: Vec<bool> =
            kernel.asked.iter().map(|action| matches!(action, Action::Write { .. })).collect();
        assert_eq!(kinds, vec![false, false, false, true, false]);
        assert!(matches!(kernel.asked[4], Action::SetRegisters { .. }));
    }
}

#[test]
fn random_bytes_that_are_not_replaced_are_observed() {
    let mut manager = RandomManager::new(false);
    let mut kernel = Kernel::new(Registers { rdi: 0x5000, rsi: 16, ..at_entry(318) }, 16);
    let mut tracee = Tracee::new(PID, kernel.registers);
    let ended = getrandom(&mut manager, &mut kernel, &mut tracee, 16, 0x5000);
    assert_eq!(ended, Progress::Done(RandomRecord { length: 16 }));
    assert!(kernel.written.is_empty());
    assert_eq!(kernel.registers.rax, 16);
    let mut fresh = RandomManager::new(true);
    assert_eq!(manager.getrandom(4), fresh.getrandom(4));
}

#[test]
fn a_kernel_without_the_call_is_observed() {
    let mut manager = RandomManager::new(false);
    let missing = (-(libc::ENOSYS as i64)) as u64;
    let mut kernel = Kernel::new(Registers { rdi: 0x5000, rsi: 16, ..at_entry(318) }, missing);
    let mut tracee = Tracee::new(PID, kernel.registers);
    let ended = getrandom(&mut manager, &mut kernel, &mut tracee, 16, 0x5000);
    assert_eq!(ended, Progress::Done(RandomRecord { length: 16 }));
    assert_eq!(tracee.state, State::AfterSyscall);
    assert_eq!(kernel.registers.rax, missing);
    let mut replacing = RandomManager::new(true);
    let mut kernel = Kernel::new(Registers { rdi: 0x5000, rsi: 16, ..at_entry(318) }, missing);
    let mut tracee = Tracee::new(PID, kernel.registers);
    let ended = getrandom(&mut replacing, &mut kernel, &mut tracee, 16, 0x5000);
    assert_eq!(ended, Progress::Done(RandomRecord { length: 16 }));
    assert_eq!(kernel.registers.rax, 16);
    assert_eq!(kernel.written.len(), 1);
}

#[test]
fn a_request_that_no_buffer_can_hold_is_refused() {
    let mut manager = RandomManager::new(true);
    let tracee = Tracee::new(PID, Registers { rax: 0, ..at_entry(318) });
    assert_eq!(
        manager.process(&tracee, usize::MAX, 0x5000),
        Progress::Failed(Error::InvalidInput)
    );
    let mut fresh = RandomManager::new(true);
    assert_eq!(manager.getrandom(4), fresh.getrandom(4));
}

#[test]
fn a_failed_write_of_random_bytes_ends_the_handling() {
    let mut manager = RandomManager::new(true);
    let mut tracee = Tracee::new(PID, Registers { rax: 5, ..at_entry(318) });
    let task = match manager.process(&tracee, 4, 0x5000) {
        Progress::Pending(task, Action::Write { pid: PID, addr: 0x5000, data }) => {
            assert_eq!(data.len(), 4);
            task
        }
        other => panic!("{:?}", other),
    };
    assert!(matches!(task.stage, RandomStage::Writing(_)));
    assert_eq!(
        task.resume(&mut manager, &mut tracee, Reply::Failed(libc::EFAULT)),
        Progress::Failed(Error::Io(libc::EFAULT))
    );
}

#[test]
fn a_time_is_sixteen_bytes_low_byte_first() {
    assert_eq!(TIMESPEC_LEN, 16);
    let time = Timestamp { seconds: 1_700_000_000, nanoseconds: 0x0102_0304 };
    let bytes = encode(&time);
    let mut expected = 1_700_000_000u64.to_le_bytes().to_vec();
    expected.extend_from_slice(&0x0102_0304u64.to_le_bytes());
    assert_eq!(bytes, expected);
    assert_eq!(bytes, vec![0x00, 0xf1, 0x53, 0x65, 0, 0, 0, 0, 4, 3, 2, 1, 0, 0, 0, 0]);
    assert_eq!(decode(&bytes), time);
    let spec = libc::timespec { tv_sec: 1_700_000_000, tv_nsec: 0x0102_0304 };
    let native: [u8; 16] = unsafe_free_bytes(spec.tv_sec, spec.tv_nsec);
    assert_eq!(bytes, native.to_vec());
}

fn unsafe_free_bytes(seconds: i64, nanoseconds: i64) -> [u8; 16] {
    let mut bytes = [0u8; 16];
    bytes[..8].copy_from_slice(&seconds.to_ne_bytes());
    bytes[8..].copy_from_slice(&nanoseconds.to_ne_bytes());
    bytes
}

#[test]
fn every_time_survives_encoding() {
    for time in [
        Timestamp { seconds: 0, nanoseconds: 0 },
        Timestamp { seconds: u64::MAX, nanoseconds: u64::MAX },
        Timestamp { seconds: 1, nanoseconds: 999_999_999 },
        Timestamp { seconds: 0x0123_4567_89ab_cdef, nanoseconds: 0xfedc_ba98_7654_3210 },
    ] {
        assert_eq!(decode(&encode(&time)), time);
    }
}

fn clock_gettime(
    manager: &TimeManager,
    kernel: &mut Kernel,
    tracee: &mut Tracee,
    num: SysNum,
    clock: Clock,
) -> Progress<TimeTask, TimeRecord> {
    let mut progress = manager.process(tracee, num, clock, 0x6000);
    loop {
        match progress {
            Progress::Pending(task, action) => {
                let reply = kernel.answer(action);
                progress = task.resume(tracee, reply);
            }
            ended => return ended,
        }
    }
}

fn kernel_time() -> Timestamp {
    Timestamp { seconds: 1_234_567, nanoseconds: 89 }
}

fn time_kernel(result: u64) -> Kernel {
    let mut kernel = Kernel::new(Registers { rdi: 0, rsi: 0x6000, ..at_entry(228) }, result);
    kernel.memory = encode(&kernel_time());
    kernel
}

#[test]
fn a_configured_time_replaces_the_wall_clock() {
    let manager = TimeManager::new(Some(1_700_000_000));
    let mut kernel = time_kernel(0);
    let mut tracee = Tracee::new(PID, kernel.registers);
    let ended =
        clock_gettime(&manager, &mut kernel, &mut tracee, SysNum::ClockGetTime, Clock::Realtime(0));
    assert_eq!(
        ended,
        Progress::Done(TimeRecord { clock: Clock::Realtime(0), time: Some(kernel_time()) })
    );
    assert_eq!(kernel.written.len(), 1);
    assert_eq!(kernel.written[0].0, 0x6000);
    assert_eq!(
        decode(&kernel.written[0].1),
        Timestamp { seconds: 1_700_000_000, nanoseconds: 0 }
    );
    assert!(kernel.asked.contains(&Action::Read { pid: PID, addr: 0x6000, len: 16 }));
}

#[test]
fn other_clocks_are_never_replaced() {
    let manager = TimeManager::new(Some(1_700_000_000));
    for clock in [
        Clock::Monotonic(1),
        Clock::Monotonic(7),
        Clock::ProcessCPUTime,
        Clock::ThreadCPUTime,
        Clock::Other(11),
    ] {
        let mut kernel = time_kernel(0);
        let mut tracee = Tracee::new(PID, kernel.registers);
        let ended = clock_gettime(&manager, &mut kernel, &mut tracee, SysNum::ClockGetTime, clock);
        assert_eq!(ended, Progress::Done(TimeRecord { clock, time: Some(kernel_time()) }));
        assert!(kernel.written.is_empty());
    }
}

#[test]
fn without_a_configured_time_the_wall_clock_is_observed() {
    let manager = TimeManager::new(None);
    let mut kernel = time_kernel(0);
    let mut tracee = Tracee::new(PID, kernel.registers);
    let ended =
        clock_gettime(&manager, &mut kernel, &mut tracee, SysNum::ClockGetTime, Clock::Realtime(5));
    assert_eq!(
        ended,
        Progress::Done(TimeRecord { clock: Clock::Realtime(5), time: Some(kernel_time()) })
    );
    assert!(kernel.written.is_empty());
}

#[test]
fn a_time_query_that_fails_has_no_time() {
    let manager = TimeManager::new(Some(1_700_000_000));
    let mut kernel = time_kernel((-(libc::EFAULT as i64)) as u64);
    let mut tracee = Tracee::new(PID, kernel.registers);
    let ended =
        clock_gettime(&manager, &mut kernel, &mut tracee, SysNum::ClockGetTime, Clock::Realtime(0));
    assert_eq!(ended, Progress::Done(TimeRecord { clock: Clock::Realtime(0), time: None }));
    assert!(kernel.written.is_empty());
    assert_eq!(kernel.asked.len(), 3);
}

#[test]
fn the_answer_of_the_legacy_call_is_not_read() {
    let manager = TimeManager::new(None);
    let mut kernel = time_kernel(1_234_567);
    let mut tracee = Tracee::new(PID, kernel.registers);
    let ended = clock_gettime(&manager, &mut kernel, &mut tracee, SysNum::Time, Clock::Realtime(0));
    assert_eq!(ended, Progress::Failed(Error::ProtocolViolation));
    let mut kernel = time_kernel(0);
    let mut tracee = Tracee::new(PID, kernel.registers);
    let ended = clock_gettime(&manager, &mut kernel, &mut tracee, SysNum::Time, Clock::Realtime(0));
    assert_eq!(ended, Progress::Failed(Error::ProtocolViolation));
    let mut kernel = time_kernel(1);
    let mut tracee = Tracee::new(PID, kernel.registers);
    let ended =
        clock_gettime(&manager, &mut kernel, &mut tracee, SysNum::ClockGetTime, Clock::Realtime(0));
    assert_eq!(ended, Progress::Failed(Error::ProtocolViolation));
}

#[test]
fn a_time_of_the_wrong_size_is_a_violation() {
    let manager = TimeManager::new(None);
    let mut tracee = Tracee::new(PID, Registers { rax: 0, ..at_entry(228) });
    let task = match manager.process(&tracee, SysNum::ClockGetTime, Clock::Realtime(0), 0x6000) {
        Progress::Pending(task, Action::Read { pid: PID, addr: 0x6000, len: 16 }) => task,
        other => panic!("{:?}", other),
    };
    assert!(matches!(task.stage, TimeStage::Reading(_)));
    assert_eq!(
        task.resume(&mut tracee, Reply::Data(vec![0; 12])),
        Progress::Failed(Error::ProtocolViolation)
    );
    assert_eq!(
        task.resume(&mut tracee, Reply::Failed(libc::EIO)),
        Progress::Failed(Error::Io(libc::EIO))
    );
}

fn identity(
    manager: &PIDManager,
    kernel: &mut Kernel,
    tracee: &mut Tracee,
    num: SysNum,
) -> Progress<PidTask, PIDRecord> {
    let mut progress = manager.process(tracee, num);
    loop {
        match progress {
            Progress::Pending(task, action) => {
                let reply = kernel.answer(action);
                progress = task.resume(tracee, reply);
            }
            ended => return ended,
        }
    }
}

#[test]
fn a_configured_pid_replaces_the_answer_of_getpid() {
    let manager = PIDManager::new(Some(4242));
    let mut kernel = Kernel::new(at_entry(39), 1000);
    let mut tracee = Tracee::new(PID, kernel.registers);
    let ended = identity(&manager, &mut kernel, &mut tracee, SysNum::GetPID);
    assert_eq!(ended, Progress::Done(PIDRecord { pid: 1000 }));
    assert_eq!(kernel.registers.rax, 4242);
    assert_eq!(tracee.registers, Registers { rax: 4242, ..at_entry(39) });
}

#[test]
fn other_identity_queries_are_left_alone() {
    let manager = PIDManager::new(Some(4242));
    for (number, num) in [
        (110, SysNum::GetPPID),
        (102, SysNum::GetUID),
        (104, SysNum::GetGID),
        (107, SysNum::GetEUID),
        (108, SysNum::GetEGID),
    ] {
        let mut kernel = Kernel::new(at_entry(number), 1000);
        let mut tracee = Tracee::new(PID, kernel.registers);
        let ended = identity(&manager, &mut kernel, &mut tracee, num);
        assert_eq!(ended, Progress::Done(PIDRecord { pid: 1000 }));
        assert_eq!(kernel.registers.rax, 1000);
        assert_eq!(kernel.asked.len(), 3);
    }
}

#[test]
fn without_a_configured_pid_getpid_is_observed() {
    let manager = PIDManager::new(None);
    let mut kernel = Kernel::new(at_entry(39), 1000);
    let mut tracee = Tracee::new(PID, kernel.registers);
    let ended = identity(&manager, &mut kernel, &mut tracee, SysNum::GetPID);
    assert_eq!(ended, Progress::Done(PIDRecord { pid: 1000 }));
    assert_eq!(kernel.registers.rax, 1000);
}

#[test]
fn an_identity_query_that_fails_is_a_violation() {
    let manager = PIDManager::new(Some(4242));
    let mut kernel = Kernel::new(at_entry(39), (-(libc::EPERM as i64)) as u64);
    let mut tracee = Tracee::new(PID, kernel.registers);
    let ended = identity(&manager, &mut kernel, &mut tracee, SysNum::GetPID);
    assert_eq!(ended, Progress::Failed(Error::ProtocolViolation));
    assert_eq!(kernel.registers.rax, (-(libc::EPERM as i64)) as u64);
}

#[test]
fn a_failed_write_of_the_pid_ends_the_handling() {
    let manager = PIDManager::new(Some(4242));
    let mut tracee = Tracee::new(PID, Registers { rax: 1000, ..at_entry(39) });
    let task = match manager.process(&tracee, SysNum::GetPID) {
        Progress::Pending(task, Action::SetRegisters { pid: PID, registers }) => {
            assert_eq!(registers.rax, 4242);
            task
        }
        other => panic!("{:?}", other),
    };
    assert!(matches!(task.stage, PidStage::Setting { value: 1000, .. }));
    assert_eq!(
        task.resume(&mut tracee, Reply::Failed(libc::ESRCH)),
        Progress::Failed(Error::Io(libc::ESRCH))
    );
    assert_eq!(tracee.registers.rax, 1000);
}

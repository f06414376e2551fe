use intercept::config::{Config, LogConfig, LogLevel, RecordConfig, Redirect, RedirectConfig};
use intercept::kernel::{Action, Progress, Reply, WaitStatus};
use intercept::modules::time::{decode, encode};
use intercept::recorder::{FileRecord, PIDRecord, RandomRecord, Record, TimeRecord, Timestamp};
use intercept::registers::{Registers, ENTRY_MARKER};
use intercept::syscall::Clock;
use intercept::tracer::Tracer;
use intercept::Error;
use nix::libc;
use rand::rngs::StdRng;
use rand::{RngCore, SeedableRng};
use std::collections::{BTreeMap, VecDeque};

const PARENT: i32 = 100;
const CODE: u64 = 0x40_0000;
const DATA: u64 = 0x60_0000;
const BUFFER: u64 = 0x61_0000;
const STACK: u64 = 0x7ffc_0000;
const SCRATCH: u64 = 0x7000_0000;
const VDSO: u64 = 0x7fff_f000;

fn test_config() -> Config {
    Config {
        log: LogConfig { level: LogLevel::INFO },
        record: RecordConfig {
            path: "/dev/null".into(),
            files: false,
            random: false,
            time: false,
            pid: false,
        },
        redirect: RedirectConfig {
            files: vec![],
            random: false,
            time: None,
            pid: None,
            stdout: None,
            stderr: None,
        },
    }
}

/// What a task does between two system calls: the call that it makes next.
#[derive(Clone)]
enum Call {
    /// `write(1, text)`.
    Say(&'static str),
    /// `openat(AT_FDCWD, path, O_RDONLY)`.
    Open(&'static str),
    /// `open(path, O_WRONLY)`.
    OpenOld(&'static str),
    /// `read(3, BUFFER, 4096)`.
    Read,
    /// `write(1, BUFFER, n)` for the `n` that the last call returned.
    Echo,
    /// `getrandom(BUFFER, len, 0)`.
    Random(u64),
    /// `clock_gettime(clock, BUFFER)`.
    Clock(u64),
    /// `getpid()`.
    GetPid,
    /// `getppid()`.
    GetPpid,
    /// `clone()`, with what the child does.
    Clone(Vec<Call>),
    /// `wait4()`.
    Wait,
    /// `brk(0)`.
    Brk,
    /// A call that no table names.
    Unknown,
    /// `exit_group(0)`.
    Exit,
}

#[derive(Clone, Copy, PartialEq, Debug)]
enum Position {
    New,
    Entry,
    Event,
    Exit,
    Gone,
}

struct Task {
    program: Vec<Call>,
    next: usize,
    registers: Registers,
    position: Position,
    pending: Option<WaitStatus>,
    memory: BTreeMap<u64, u8>,
    opened: Option<String>,
    unread: Vec<u8>,
    mapped: Vec<(u64, u64)>,
    mappings: u64,
    observed: Vec<(u64, Vec<u8>)>,
    child: Option<i32>,
}

/// A kernel with a few files and the tasks of one command.
struct Machine {
    tasks: BTreeMap<i32, Task>,
    order: VecDeque<i32>,
    files: BTreeMap<&'static str, &'static [u8]>,
    stdout: Vec<u8>,
    records: Vec<Record>,
    opened: Vec<String>,
    options: Vec<i32>,
    spawned: i32,
    kernel_time: Timestamp,
}

impl Task {
    fn new(program: Vec<Call>) -> Task {
        let mut task = Task {
            program,
            next: 0,
            registers: Registers { rip: CODE, rsp: STACK, ..Registers::zeroed() },
            position: Position::New,
            pending: None,
            memory: BTreeMap::new(),
            opened: None,
            unread: Vec::new(),
            mapped: Vec::new(),
            mappings: 0,
            observed: Vec::new(),
            child: None,
        };
        task.store(CODE, &[0x48, 0x89, 0xc7, 0x31, 0xc0, 0xc3, 0x90, 0x90, 0xcc, 0xcc]);
        let stack: [u64; 12] = [1, DATA, 0, DATA, 0, 3, 0x40, 33, VDSO, 6, 4096, 0];
        for (at, word) in stack.iter().enumerate() {
            task.store(STACK + 8 * at as u64, &word.to_le_bytes());
        }
        task
    }

    fn store(&mut self, addr: u64, bytes: &[u8]) {
        for (at, byte) in bytes.iter().enumerate() {
            self.memory.insert(addr + at as u64, *byte);
        }
    }

    fn load(&self, addr: u64, len: usize) -> Vec<u8> {
        (0..len as u64).map(|at| *self.memory.get(&(addr + at)).unwrap_or(&0)).collect()
    }

    fn word(&self, addr: u64) -> u64 {
        let mut bytes = [0u8; 8];
        bytes.copy_from_slice(&self.load(addr, 8));
        u64::from_le_bytes(bytes)
    }

    fn string(&self, addr: u64) -> String {
        let mut bytes = Vec::new();
        let mut at = addr;
        while let Some(byte) = self.memory.get(&at) {
            if *byte == 0 {
                break;
            }
            bytes.push(*byte);
            at += 1;
        }
        String::from_utf8(bytes).unwrap()
    }

    /// The registers with which the task enters its next call.
    fn enter(&mut self) {
        let call = self.program[self.next].clone();
        self.next += 1;
        let last = self.registers.rax;
        let (number, args): (u64, [u64; 3]) = match call {
            Call::Say(text) => {
                self.store(DATA, text.as_bytes());
                (1, [1, DATA, text.len() as u64])
            }
            Call::Open(path) => {
                self.store(DATA, path.as_bytes());
                self.store(DATA + path.len() as u64, &[0]);
                (257, [(-100i64) as u64, DATA, 0])
            }
            Call::OpenOld(path) => {
                self.store(DATA, path.as_bytes());
                self.store(DATA + path.len() as u64, &[0]);
                (2, [DATA, 1, 0])
            }
            Call::Read => (0, [3, BUFFER, 4096]),
            Call::Echo => (1, [1, BUFFER, last]),
            Call::Random(len) => (318, [BUFFER, len, 0]),
            Call::Clock(clock) => (228, [clock, BUFFER, 0]),
            Call::GetPid => (39, [0, 0, 0]),
            Call::GetPpid => (110, [0, 0, 0]),
            Call::Clone(_) => (56, [0, 0, 0]),
            Call::Wait => (61, [0, 0, 0]),
            Call::Brk => (12, [0, 0, 0]),
            Call::Unknown => (999, [0, 0, 0]),
            Call::Exit => (231, [0, 0, 0]),
        };
        self.registers = Registers {
            rax: ENTRY_MARKER,
            orig_rax: number,
            rdi: args[0],
            rsi: args[1],
            rdx: args[2],
            rip: CODE + 2,
            rsp: STACK,
            ..Registers::zeroed()
        };
        self.position = Position::Entry;
    }
}

impl Machine {
    fn new(program: Vec<Call>) -> Machine {
        let mut tasks = BTreeMap::new();
        let mut first = Task::new(program);
        first.pending = Some(WaitStatus::Stopped { pid: PARENT });
        tasks.insert(PARENT, first);
        let mut files: BTreeMap<&'static str, &'static [u8]> = BTreeMap::new();
        files.insert("/etc/passwd", b"root:x:0:0:root:/root:/bin/sh\n");
        files.insert("/dev/null", b"");
        files.insert("/dev/zero", b"\0\0\0\0");
        files.insert("/dev/urandom", b"\x17\x2a\x99\x03");
        Machine {
            tasks,
            order: VecDeque::from(vec![PARENT]),
            files,
            stdout: Vec::new(),
            records: Vec::new(),
            opened: Vec::new(),
            options: Vec::new(),
            spawned: PARENT,
            kernel_time: Timestamp { seconds: 1_234_567, nanoseconds: 89 },
        }
    }

    /// The kernel runs the call that the task has entered.
    fn execute(&mut self, pid: i32) {
        let registers = self.tasks[&pid].registers;
        let failed = |errno: i32| (-(errno as i64)) as u64;
        let result = match registers.orig_rax {
            0 => {
                let task = self.tasks.get_mut(&pid).unwrap();
                let given: Vec<u8> = task.unread.drain(..).collect();
                task.store(registers.rsi, &given);
                given.len() as u64
            }
            1 => {
                let bytes = self.tasks[&pid].load(registers.rsi, registers.rdx as usize);
                if registers.rdi == 1 {
                    self.stdout.extend_from_slice(&bytes);
                }
                registers.rdx
            }
            2 | 257 => {
                let at = if registers.orig_rax == 2 { registers.rdi } else { registers.rsi };
                let path = self.tasks[&pid].string(at);
                match self.files.get(path.as_str()) {
                    Some(content) => {
                        let task = self.tasks.get_mut(&pid).unwrap();
                        task.unread = content.to_vec();
                        task.opened = Some(path.clone());
                        self.opened.push(path);
                        3
                    }
                    None => failed(libc::ENOENT),
                }
            }
            9 => {
                let task = self.tasks.get_mut(&pid).unwrap();
                let addr = SCRATCH + 0x1000 * task.mappings;
                task.mappings += 1;
                task.mapped.push((addr, registers.rsi));
                assert_eq!(registers.rdx, 3);
                assert_eq!(registers.r10, 0x22);
                addr
            }
            11 => {
                let task = self.tasks.get_mut(&pid).unwrap();
                let before = task.mapped.len();
                task.mapped.retain(|region| *region != (registers.rdi, registers.rsi));
                if task.mapped.len() < before {
                    0
                } else {
                    failed(libc::EINVAL)
                }
            }
            12 => 0x80_0000,
            39 => pid as u64,
            110 => 1,
            56 => {
                let program = match &self.tasks[&pid].program[self.tasks[&pid].next - 1] {
                    Call::Clone(program) => program.clone(),
                    _ => panic!("a clone that the program does not hold"),
                };
                self.spawned += 1;
                let child = self.spawned;
                let mut task = Task::new(program);
                task.pending = Some(WaitStatus::Stopped { pid: child });
                self.tasks.insert(child, task);
                self.order.push_back(child);
                self.tasks.get_mut(&pid).unwrap().child = Some(child);
                child as u64
            }
            61 => self.tasks[&pid].child.unwrap_or(0) as u64,
            228 => {
                let bytes = encode(&self.kernel_time);
                self.tasks.get_mut(&pid).unwrap().store(registers.rsi, &bytes);
                0
            }
            318 => {
                let bytes = vec![0xaa; registers.rsi as usize];
                self.tasks.get_mut(&pid).unwrap().store(registers.rdi, &bytes);
                registers.rsi
            }
            _ => failed(libc::ENOSYS),
        };
        self.tasks.get_mut(&pid).unwrap().registers.rax = result;
    }

    /// The task runs until it stops again.
    fn resume(&mut self, pid: i32) -> Reply {
        let position = match self.tasks.get(&pid) {
            Some(task) => task.position,
            None => return Reply::Failed(libc::ESRCH),
        };
        assert!(self.tasks[&pid].pending.is_none(), "a task that was not waited for was resumed");
        match position {
            Position::Gone => return Reply::Failed(libc::ESRCH),
            Position::New => {
                let task = self.tasks.get_mut(&pid).unwrap();
                task.enter();
                task.pending = Some(WaitStatus::PtraceSyscall { pid });
            }
            Position::Entry => {
                let number = self.tasks[&pid].registers.orig_rax;
                if number == 231 {
                    let task = self.tasks.get_mut(&pid).unwrap();
                    assert!(task.mapped.is_empty(), "scratch memory outlived the task");
                    task.position = Position::Gone;
                    task.pending = Some(WaitStatus::Exited { pid, code: 0 });
                } else {
                    self.execute(pid);
                    let task = self.tasks.get_mut(&pid).unwrap();
                    if number == 56 {
                        task.position = Position::Event;
                        task.pending = Some(WaitStatus::PtraceEvent { pid, event: 3 });
                    } else {
                        task.position = Position::Exit;
                        task.pending = Some(WaitStatus::PtraceSyscall { pid });
                    }
                }
            }
            Position::Event => {
                let task = self.tasks.get_mut(&pid).unwrap();
                task.position = Position::Exit;
                task.pending = Some(WaitStatus::PtraceSyscall { pid });
            }
            Position::Exit => {
                let task = self.tasks.get_mut(&pid).unwrap();
                let rip = task.registers.rip;
                if task.word(rip) & 0xffff == 0x050f {
                    task.registers.orig_rax = task.registers.rax;
                    task.registers.rax = ENTRY_MARKER;
                    task.registers.rip = rip + 2;
                    task.position = Position::Entry;
                } else {
                    let buffer = task.load(BUFFER, 16);
                    task.observed.push((task.registers.rax, buffer));
                    task.enter();
                }
                task.pending = Some(WaitStatus::PtraceSyscall { pid });
            }
        }
        if !self.order.contains(&pid) {
            self.order.push_back(pid);
        }
        Reply::Done
    }

    fn answer(&mut self, action: Action) -> Reply {
        match action {
            Action::WaitSession { parent } => {
                assert_eq!(parent, PARENT);
                while let Some(pid) = self.order.pop_front() {
                    if let Some(status) = self.tasks.get_mut(&pid).unwrap().pending.take() {
                        return Reply::Status(status);
                    }
                }
                Reply::Failed(libc::ECHILD)
            }
            Action::Wait { pid } => match self.tasks.get_mut(&pid).unwrap().pending.take() {
                Some(status) => {
                    self.order.retain(|queued| *queued != pid);
                    Reply::Status(status)
                }
                None => Reply::Failed(libc::ECHILD),
            },
            Action::Syscall { pid } => self.resume(pid),
            Action::GetRegisters { pid } => Reply::Registers(self.tasks[&pid].registers),
            Action::SetRegisters { pid, registers } => {
                self.tasks.get_mut(&pid).unwrap().registers = registers;
                Reply::Done
            }
            Action::SetOptions { pid } => {
                self.options.push(pid);
                Reply::Done
            }
            Action::Peek { pid, addr } => Reply::Word(self.tasks[&pid].word(addr)),
            Action::Poke { pid, addr, word } => {
                self.tasks.get_mut(&pid).unwrap().store(addr, &word.to_le_bytes());
                Reply::Done
            }
            Action::Read { pid, addr, len } => Reply::Data(self.tasks[&pid].load(addr, len)),
            Action::ReadSome { pid, addr, len } => Reply::Data(self.tasks[&pid].load(addr, len)),
            Action::Write { pid, addr, data } => {
                self.tasks.get_mut(&pid).unwrap().store(addr, &data);
                Reply::Done
            }
            Action::Canonicalize { path } => {
                if self.files.contains_key(path.as_str()) {
                    Reply::Path(path)
                } else {
                    Reply::Failed(libc::ENOENT)
                }
            }
            Action::Emit { record } => {
                self.records.push(record);
                Reply::Done
            }
        }
    }
}

/// Traces a command on the kernel above, to its end.
fn run_command(conf: &Config, program: Vec<Call>) -> Result<Machine, Error> {
    let mut machine = Machine::new(program);
    let tracer = Tracer::new(PARENT);
    let mut progress = tracer.run(conf);
    let mut steps = 0;
    loop {
        steps += 1;
        assert!(steps < 100_000, "the trace does not end");
        match progress {
            Progress::Pending(run, action) => {
                let reply = machine.answer(action);
                progress = run.resume(reply);
            }
            Progress::Done(()) => return Ok(machine),
            Progress::Failed(error) => return Err(error),
        }
    }
}

fn output(machine: &Machine) -> String {
    String::from_utf8(machine.stdout.clone()).unwrap()
}

fn code_is_intact(machine: &Machine) -> bool {
    machine
        .tasks
        .values()
        .all(|task| task.load(CODE, 10) == [0x48, 0x89, 0xc7, 0x31, 0xc0, 0xc3, 0x90, 0x90, 0xcc, 0xcc])
}

fn cat_of(path: &'static str) -> Vec<Call> {
    vec![Call::Brk, Call::Open(path), Call::Read, Call::Echo, Call::Read, Call::Exit]
}

#[test]
fn echo() {
    let conf = test_config();
    let result = run_command(&conf, vec![Call::Say("foo\n"), Call::Exit]);
    assert!(result.is_ok());
    let machine = result.unwrap();
    assert_eq!("foo", output(&machine).trim());
    assert_eq!(machine.options, vec![PARENT]);
    assert!(machine.records.is_empty());
    assert!(code_is_intact(&machine));
}

#[test]
fn cat() {
    let conf = test_config();
    let result = run_command(&conf, cat_of("/etc/passwd"));
    assert!(result.is_ok());
    let machine = result.unwrap();
    assert!(!output(&machine).trim().is_empty());
    assert_eq!(output(&machine), "root:x:0:0:root:/root:/bin/sh\n");
    assert_eq!(machine.opened, vec!["/etc/passwd".to_string()]);
}

#[test]
fn intercepted_cat() {
    let mut conf = test_config();
    conf.redirect.files.push(Redirect {
        from: "/etc/passwd".to_string(),
        to: "/dev/null".to_string(),
    });
    conf.record.files = true;
    let result = run_command(&conf, cat_of("/etc/passwd"));
    assert!(result.is_ok());
    let machine = result.unwrap();
    assert!(output(&machine).trim().is_empty());
    assert_eq!(machine.opened, vec!["/dev/null".to_string()]);
    assert_eq!(
        machine.records,
        vec![Record::File(FileRecord {
            path: "/etc/passwd".to_string(),
            success: true,
            read: true,
            write: false
        })]
    );
    let task = &machine.tasks[&PARENT];
    assert_eq!(task.mappings, 1);
    assert!(task.mapped.is_empty());
    assert_eq!(task.string(DATA), "/etc/passwd");
    assert_eq!(task.string(SCRATCH), "/dev/null");
    assert!(code_is_intact(&machine));
}

#[test]
fn subcommand() {
    let conf = test_config();
    let child = vec![Call::Say("hello\n"), Call::Exit];
    let result = run_command(&conf, vec![Call::Clone(child), Call::Wait, Call::Exit]);
    assert!(result.is_ok());
    let machine = result.unwrap();
    assert_eq!("hello", output(&machine).trim());
    assert_eq!(machine.options, vec![PARENT, PARENT + 1]);
    assert_eq!(machine.tasks[&(PARENT + 1)].position, Position::Gone);
    assert_eq!(machine.tasks[&PARENT].position, Position::Gone);
}

#[test]
fn python3() {
    let conf = test_config();
    let program = vec![
        Call::Brk,
        Call::Open("/usr/lib/python3/site.py"),
        Call::Open("/etc/passwd"),
        Call::Read,
        Call::GetPid,
        Call::Unknown,
        Call::Random(24),
        Call::Clock(1),
        Call::Say("hello\n"),
        Call::Exit,
    ];
    let result = run_command(&conf, program);
    assert!(result.is_ok());
    assert_eq!("hello", output(&result.unwrap()).trim());
}

#[test]
fn random_bytes_come_from_the_seeded_generator() {
    let mut conf = test_config();
    conf.redirect.random = true;
    conf.record.random = true;
    let program = vec![Call::Random(16), Call::Random(16), Call::Brk, Call::Exit];
    let machine = run_command(&conf, program).unwrap();
    let mut generator = StdRng::seed_from_u64(0xdeadbeef);
    let mut first = vec![0u8; 16];
    let mut second = vec![0u8; 16];
    generator.fill_bytes(&mut first);
    generator.fill_bytes(&mut second);
    let observed = &machine.tasks[&PARENT].observed;
    assert_eq!(observed[0], (16, first));
    assert_eq!(observed[1], (16, second));
    assert_eq!(
        machine.records,
        vec![
            Record::Random(RandomRecord { length: 16 }),
            Record::Random(RandomRecord { length: 16 })
        ]
    );
}

#[test]
fn random_bytes_of_the_kernel_are_left_alone() {
    let mut conf = test_config();
    conf.record.random = true;
    let machine = run_command(&conf, vec![Call::Random(16), Call::Brk, Call::Exit]).unwrap();
    assert_eq!(machine.tasks[&PARENT].observed[0], (16, vec![0xaa; 16]));
    assert_eq!(machine.records, vec![Record::Random(RandomRecord { length: 16 })]);
}

#[test]
fn random_devices_read_zeros_during_a_trace() {
    let mut conf = test_config();
    conf.redirect.random = true;
    let machine = run_command(&conf, cat_of("/dev/urandom")).unwrap();
    assert_eq!(machine.opened, vec!["/dev/zero".to_string()]);
    assert_eq!(machine.stdout, vec![0, 0, 0, 0]);
}

#[test]
fn the_wall_clock_shows_the_configured_time() {
    let mut conf = test_config();
    conf.redirect.time = Some(1_700_000_000);
    conf.record.time = true;
    let program = vec![Call::Clock(0), Call::Clock(1), Call::Brk, Call::Exit];
    let machine = run_command(&conf, program).unwrap();
    let observed = &machine.tasks[&PARENT].observed;
    assert_eq!(observed[0].0, 0);
    assert_eq!(decode(&observed[0].1), Timestamp { seconds: 1_700_000_000, nanoseconds: 0 });
    assert_eq!(decode(&observed[1].1), machine.kernel_time);
    assert_eq!(
        machine.records,
        vec![
            Record::Time(TimeRecord { clock: Clock::Realtime(0), time: Some(machine.kernel_time) }),
            Record::Time(TimeRecord { clock: Clock::Monotonic(1), time: Some(machine.kernel_time) }),
        ]
    );
    assert_eq!(machine.tasks[&PARENT].word(STACK + 7 * 8), 1);
    assert_eq!(machine.tasks[&PARENT].word(STACK + 8 * 8), VDSO);
}

#[test]
fn the_vdso_stays_where_time_is_of_no_interest() {
    let machine = run_command(&test_config(), vec![Call::Clock(0), Call::Exit]).unwrap();
    assert_eq!(machine.tasks[&PARENT].word(STACK + 7 * 8), 33);
}

#[test]
fn a_missing_file_is_recorded_and_its_errno_observed() {
    let mut conf = test_config();
    conf.record.files = true;
    let program = vec![Call::Open("/no/such/file"), Call::OpenOld("/dev/null"), Call::Brk, Call::Exit];
    let machine = run_command(&conf, program).unwrap();
    assert_eq!(machine.tasks[&PARENT].observed[0].0, (-(libc::ENOENT as i64)) as u64);
    assert_eq!(machine.tasks[&PARENT].observed[1].0, 3);
    assert_eq!(
        machine.records,
        vec![
            Record::File(FileRecord {
                path: "/no/such/file".to_string(),
                success: false,
                read: true,
                write: false
            }),
            Record::File(FileRecord {
                path: "/dev/null".to_string(),
                success: true,
                read: false,
                write: true
            }),
        ]
    );
}

#[test]
fn the_configured_pid_is_what_getpid_returns() {
    let mut conf = test_config();
    conf.redirect.pid = Some(4242);
    conf.record.pid = true;
    let program = vec![Call::GetPid, Call::GetPpid, Call::Brk, Call::Exit];
    let machine = run_command(&conf, program).unwrap();
    let observed = &machine.tasks[&PARENT].observed;
    assert_eq!(observed[0].0, 4242);
    assert_eq!(observed[1].0, 1);
    assert_eq!(
        machine.records,
        vec![Record::PID(PIDRecord { pid: PARENT as u32 }), Record::PID(PIDRecord { pid: 1 })]
    );
}

#[test]
fn records_of_kinds_that_are_not_asked_for_are_dropped() {
    let mut conf = test_config();
    conf.record.pid = true;
    let program = vec![Call::GetPid, Call::Random(4), Call::Open("/dev/null"), Call::Exit];
    let machine = run_command(&conf, program).unwrap();
    assert_eq!(machine.records, vec![Record::PID(PIDRecord { pid: PARENT as u32 })]);
}

#[test]
fn many_redirected_opens_leave_no_scratch_memory() {
    let mut conf = test_config();
    conf.redirect.files.push(Redirect {
        from: "/etc/passwd".to_string(),
        to: "/dev/null".to_string(),
    });
    let mut program = Vec::new();
    for _ in 0..50 {
        program.push(Call::Open("/etc/passwd"));
    }
    program.push(Call::Exit);
    let machine = run_command(&conf, program).unwrap();
    let task = &machine.tasks[&PARENT];
    assert_eq!(task.mappings, 50);
    assert!(task.mapped.is_empty());
    assert_eq!(machine.opened.len(), 50);
    assert!(machine.opened.iter().all(|path| path == "/dev/null"));
    assert!(code_is_intact(&machine));
}

#[test]
fn an_openat_against_a_directory_ends_the_trace() {
    let mut machine = Machine::new(vec![Call::Open("/etc/passwd"), Call::Exit]);
    let tracer = Tracer::new(PARENT);
    let mut progress = tracer.run(&test_config());
    let ended = loop {
        match progress {
            Progress::Pending(run, action) => {
                let mut reply = machine.answer(action);
                if let Reply::Registers(registers) = &mut reply {
                    if registers.orig_rax == 257 {
                        registers.rdi = 5;
                    }
                }
                progress = run.resume(reply);
            }
            ended => break ended,
        }
    };
    assert!(matches!(ended, Progress::Failed(Error::ProtocolViolation)));
}

#[test]
fn a_failing_record_stream_ends_the_trace_after_the_release() {
    let mut conf = test_config();
    conf.record.pid = true;
    let mut machine = Machine::new(vec![Call::GetPid, Call::Exit]);
    let tracer = Tracer::new(PARENT);
    let mut progress = tracer.run(&conf);
    let mut resumed_after_failure = false;
    let mut failed = false;
    let ended = loop {
        match progress {
            Progress::Pending(run, action) => {
                let reply = match action {
                    Action::Emit { .. } => {
                        failed = true;
                        Reply::Failed(libc::ENOSPC)
                    }
                    other => {
                        if failed && other == (Action::Syscall { pid: PARENT }) {
                            resumed_after_failure = true;
                        }
                        machine.answer(other)
                    }
                };
                progress = run.resume(reply);
            }
            ended => break ended,
        }
    };
    assert!(matches!(ended, Progress::Failed(Error::Io(libc::ENOSPC))));
    assert!(resumed_after_failure);
}

#[test]
fn a_wait_that_fails_ends_the_trace() {
    let tracer = Tracer::new(PARENT);
    assert_eq!(tracer.pid(), PARENT);
    let run = match tracer.run(&test_config()) {
        Progress::Pending(run, Action::WaitSession { parent: PARENT }) => run,
        _ => panic!("the trace does not start with a wait"),
    };
    assert!(matches!(
        run.resume(Reply::Failed(libc::ECHILD)),
        Progress::Failed(Error::Io(libc::ECHILD))
    ));
}

#[test]
fn the_exit_of_the_command_ends_the_trace_at_once() {
    let tracer = Tracer::new(PARENT);
    let run = match tracer.run(&test_config()) {
        Progress::Pending(run, _) => run,
        _ => panic!("the trace does not start with a wait"),
    };
    let run = match run.resume(Reply::Status(WaitStatus::Exited { pid: PARENT + 1, code: 0 })) {
        Progress::Pending(run, Action::WaitSession { parent: PARENT }) => run,
        _ => panic!("the exit of another task ended the trace"),
    };
    assert!(matches!(
        run.resume(Reply::Status(WaitStatus::Exited { pid: PARENT, code: 3 })),
        Progress::Done(())
    ));
}

#[test]
fn letting_go_of_a_command_that_is_gone_is_no_error() {
    assert_eq!(Tracer::detached(&Reply::Done), Ok(()));
    assert_eq!(Tracer::detached(&Reply::Failed(libc::ESRCH)), Ok(()));
    assert_eq!(Tracer::detached(&Reply::Failed(libc::EPERM)), Err(Error::Io(libc::EPERM)));
    assert_eq!(Tracer::detached(&Reply::Word(0)), Err(Error::ProtocolViolation));
}

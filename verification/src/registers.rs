use vstd::prelude::*;

verus! {

/// The errno that stands in `rax`, negated, while a system call has been
/// entered and not yet run.
pub const ENOSYS: i32 = 38;

/// `-ENOSYS` as the 64-bit register holds it.
pub const ENTRY_MARKER: u64 = 0xffff_ffff_ffff_ffda;

/// The general-purpose register file of an x86-64 task, in the kernel's
/// layout.
#[derive(Clone, Copy, Debug, PartialEq, Eq, Structural)]
pub struct Registers {
    pub r15: u64,
    pub r14: u64,
    pub r13: u64,
    pub r12: u64,
    pub rbp: u64,
    pub rbx: u64,
    pub r11: u64,
    pub r10: u64,
    pub r9: u64,
    pub r8: u64,
    pub rax: u64,
    pub rcx: u64,
    pub rdx: u64,
    pub rsi: u64,
    pub rdi: u64,
    pub orig_rax: u64,
    pub rip: u64,
    pub cs: u64,
    pub eflags: u64,
    pub rsp: u64,
    pub ss: u64,
    pub fs_base: u64,
    pub gs_base: u64,
    pub ds: u64,
    pub es: u64,
    pub fs: u64,
    pub gs: u64,
}

impl Registers {
    /// Whether the registers were read at the entry of a system call.
    pub open spec fn at_entry(self) -> bool {
        self.rax == ENTRY_MARKER
    }

    /// The `index`-th argument of the system call, counted from 1.
    pub open spec fn arg_spec(self, index: u8) -> u64
        recommends
            1 <= index <= 6,
    {
        if index == 1 {
            self.rdi
        } else if index == 2 {
            self.rsi
        } else if index == 3 {
            self.rdx
        } else if index == 4 {
            self.r10
        } else if index == 5 {
            self.r8
        } else {
            self.r9
        }
    }

    /// The registers with the `index`-th argument replaced.
    pub open spec fn with_arg_spec(self, index: u8, value: u64) -> Registers
        recommends
            1 <= index <= 6,
    {
        if index == 1 {
            Registers { rdi: value, ..self }
        } else if index == 2 {
            Registers { rsi: value, ..self }
        } else if index == 3 {
            Registers { rdx: value, ..self }
        } else if index == 4 {
            Registers { r10: value, ..self }
        } else if index == 5 {
            Registers { r8: value, ..self }
        } else {
            Registers { r9: value, ..self }
        }
    }

    /// The registers with the return value replaced.
    pub open spec fn with_result_spec(self, value: u64) -> Registers {
        Registers { rax: value, ..self }
    }

    /// The registers that make the task run system call `number` with the
    /// given arguments: `rax` and `orig_rax` hold the number, the six
    /// argument registers the arguments, and the rest is kept.
    pub open spec fn for_syscall_spec(self, number: u64, args: [u64; 6]) -> Registers {
        Registers {
            rax: number,
            orig_rax: number,
            rdi: args[0],
            rsi: args[1],
            rdx: args[2],
            r10: args[3],
            r8: args[4],
            r9: args[5],
            ..self
        }
    }

    /// A register file of zeros.
    pub fn zeroed() -> (registers: Registers)
        ensures
            registers == (Registers {
                r15: 0,
                r14: 0,
                r13: 0,
                r12: 0,
                rbp: 0,
                rbx: 0,
                r11: 0,
                r10: 0,
                r9: 0,
                r8: 0,
                rax: 0,
                rcx: 0,
                rdx: 0,
                rsi: 0,
                rdi: 0,
                orig_rax: 0,
                rip: 0,
                cs: 0,
                eflags: 0,
                rsp: 0,
                ss: 0,
                fs_base: 0,
                gs_base: 0,
                ds: 0,
                es: 0,
                fs: 0,
                gs: 0,
            }),
    {
        Registers {
            r15: 0,
            r14: 0,
            r13: 0,
            r12: 0,
            rbp: 0,
            rbx: 0,
            r11: 0,
            r10: 0,
            r9: 0,
            r8: 0,
            rax: 0,
            rcx: 0,
            rdx: 0,
            rsi: 0,
            rdi: 0,
            orig_rax: 0,
            rip: 0,
            cs: 0,
            eflags: 0,
            rsp: 0,
            ss: 0,
            fs_base: 0,
            gs_base: 0,
            ds: 0,
            es: 0,
            fs: 0,
            gs: 0,
        }
    }

    /// Reads the `index`-th argument; there are six.
    pub fn arg(&self, index: u8) -> (value: Option<u64>)
        ensures
            value == if 1 <= index <= 6 {
                Some(self.arg_spec(index))
            } else {
                None
            },
    {
        match index {
            1 => Some(self.rdi),
            2 => Some(self.rsi),
            3 => Some(self.rdx),
            4 => Some(self.r10),
            5 => Some(self.r8),
            6 => Some(self.r9),
            _ => None,
        }
    }

    /// Replaces the `index`-th argument; there are six.
    pub fn with_arg(self, index: u8, value: u64) -> (registers: Option<Registers>)
        ensures
            registers == if 1 <= index <= 6 {
                Some(self.with_arg_spec(index, value))
            } else {
                None
            },
    {
        let mut registers = self;
        match index {
            1 => registers.rdi = value,
            2 => registers.rsi = value,
            3 => registers.rdx = value,
            4 => registers.r10 = value,
            5 => registers.r8 = value,
            6 => registers.r9 = value,
            _ => {
                return None;
            },
        }
        Some(registers)
    }

    /// Replaces the return value.
    pub fn with_result(self, value: u64) -> (registers: Registers)
        ensures
            registers == self.with_result_spec(value),
    {
        let mut registers = self;
        registers.rax = value;
        registers
    }

    /// Loads a system call and its arguments.
    pub fn for_syscall(self, number: u64, args: [u64; 6]) -> (registers: Registers)
        ensures
            registers == self.for_syscall_spec(number, args),
    {
        let mut registers = self;
        registers.rax = number;
        registers.orig_rax = number;
        registers.rdi = args[0];
        registers.rsi = args[1];
        registers.rdx = args[2];
        registers.r10 = args[3];
        registers.r8 = args[4];
        registers.r9 = args[5];
        registers
    }
}

/// The entry marker is `-ENOSYS`, read as a signed register.
pub proof fn lemma_entry_marker_is_negated_errno()
    ensures
        ENTRY_MARKER as i64 == -(ENOSYS as i64),
{
    assert(0xffff_ffff_ffff_ffdau64 as i64 == -38i64) by (bit_vector);
}

/// Replacing an argument changes that argument and nothing else: the other
/// five, the system call number and the return value stay.
pub proof fn lemma_with_arg(registers: Registers, index: u8, value: u64)
    requires
        1 <= index <= 6,
    ensures
        registers.with_arg_spec(index, value).arg_spec(index) == value,
        forall|other: u8|
            1 <= other <= 6 && other != index ==> registers.with_arg_spec(index, value).arg_spec(
                other,
            ) == registers.arg_spec(other),
        registers.with_arg_spec(index, value).rax == registers.rax,
        registers.with_arg_spec(index, value).orig_rax == registers.orig_rax,
        registers.with_arg_spec(index, value).rip == registers.rip,
{
}

} // verus!

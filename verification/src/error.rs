use vstd::prelude::*;

verus! {

/// Why an operation of the engine did not complete.
#[derive(Clone, Copy, Debug, PartialEq, Eq, Structural)]
pub enum Error {
    /// The kernel, or the caller, broke the tracing protocol: a wait status
    /// that has no place where it came, a step from the wrong position, or an
    /// answer of the wrong kind.
    ProtocolViolation,
    /// A system call run on behalf of the engine inside the tracee returned
    /// this errno.
    KernelRefused(i32),
    /// A request to the kernel failed with this errno (0 where it had none).
    Io(i32),
    /// Bytes read from the tracee are not UTF-8.
    Decode,
    /// An argument outside the range that the operation is defined on.
    InvalidInput,
}

} // verus!

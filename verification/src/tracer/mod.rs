pub mod inject;
pub mod memory;
pub mod operation;
pub mod run;
pub mod tracee;
pub mod vdso;
pub mod wait;

pub use operation::{Operation, OperationResult};
pub use run::Tracer;
pub use tracee::Tracee;

pub mod config;
pub mod error;
pub mod kernel;
pub mod modules;
pub mod recorder;
pub mod registers;
pub mod syscall;
pub mod tracer;

pub use config::Config;
pub use error::Error;
pub use recorder::{Record, Recorder};
pub use registers::Registers;
pub use syscall::SysNum;
pub use tracer::Tracer;

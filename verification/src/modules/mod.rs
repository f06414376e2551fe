pub mod file;
pub mod pid;
pub mod random;
pub mod time;

pub use file::FileManager;
pub use pid::PIDManager;
pub use random::RandomManager;
pub use time::TimeManager;

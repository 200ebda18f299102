//! hyperV service manager library.
//!
//! The verified core of a single-host process supervisor: the task registry
//! and its invariants, binary validation and diagnosis, the table of live
//! process handles and the reaping of terminated ones, the signal
//! escalation that stops a process, the restart controller, and the rules
//! by which logs are rotated, tailed and followed. Whatever touches the
//! operating system is done by the caller, which hands the outcomes back to
//! the functions here.

pub mod binary;
pub mod config;
pub mod constants;
pub mod env;
pub mod error;
pub mod logs;
pub mod manager;
pub mod process;
pub mod stop;
pub mod task;
pub mod text;

pub use error::HyperVError;
pub use manager::TaskManager;
pub use task::{Task, TaskStatus};

use vstd::prelude::*;

verus! {

/// Size in bytes above which a log file is rotated when its task starts.
pub const MAX_LOG_SIZE: u64 = 10485760;

/// Highest restart count at which a failed task is still restarted automatically.
pub const MAX_RESTART_ATTEMPTS: u32 = 5;

/// Pause before an automatic restart attempt, in milliseconds.
pub const RESTART_DELAY_MS: u64 = 1000;

/// Poll interval while following a log, in milliseconds.
pub const LOG_FOLLOW_INTERVAL_MS: u64 = 100;

/// Grace period between the graceful and the forceful signal, in milliseconds.
pub const SHUTDOWN_TIMEOUT_MS: u64 = 2000;

/// Pause after the forceful signal, in milliseconds.
pub const KILL_SETTLE_MS: u64 = 500;

/// Interval between two ticks of the daemon loop, in milliseconds.
pub const MAIN_LOOP_INTERVAL_MS: u64 = 5000;

/// Default number of log lines to show.
pub const DEFAULT_LOG_LINES: usize = 50;

} // verus!

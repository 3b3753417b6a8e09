pub mod launcher;
pub mod logwriter;
pub mod messages;
pub mod mount;
pub mod orchestrator;
pub mod shutdown;
pub mod supervisor;
pub mod timestamp;

use vstd::prelude::*;

verus! {

/// Maximum size in bytes a service log file may reach before it is
/// truncated to zero and rewritten from the start.
pub const LOG_SIZE_CAP: u64 = 30000000;

/// Seconds a supervisor sleeps between two spawn attempts for its service.
pub const RESTART_INTERVAL_SECS: u64 = 30;

} // verus!

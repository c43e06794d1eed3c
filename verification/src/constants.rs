use vstd::prelude::*;

verus! {

/// Longest accepted username, counted in UTF-8 bytes.
pub const USERNAME_MAX_LENGTH: usize = 30;

/// How long an idle connection is kept open, in milliseconds.
pub const MAX_IDLE_TIMEOUT_MILLIS: u32 = 10000;

/// How many bidirectional streams a client may keep open at once.
pub const MAX_BI_STREAMS: u32 = 50;

/// What one round of work pays.
pub const MONEY_PER_WORK: i64 = 10;

/// How long a user has to wait between two rounds of work, in seconds.
pub const WORK_INTERVAL_SECS: u64 = 10;

/// Largest payload a frame may announce, in bytes.
pub const MAX_MESSAGE_SIZE: u32 = 2048;

} // verus!

//! Numeric limits and defaults shared across the crate.

use vstd::prelude::*;

verus! {

/// Interval between persisted last-seen updates, in seconds.
pub const LAST_SEEN_THROTTLE_SECONDS: u64 = 30;

/// Idle-loop backoff base delay, in milliseconds.
pub const WORKER_IDLE_BACKOFF_BASE_MS: u64 = 10;

/// Idle-loop backoff maximum delay, in milliseconds.
pub const WORKER_IDLE_BACKOFF_MAX_MS: u64 = 50;

/// Idle cycles before the loop backoff rises.
pub const WORKER_IDLE_CYCLES_THRESHOLD: u32 = 10;

/// How long the supervisor waits for a worker to stop, in seconds.
pub const WORKER_SHUTDOWN_TIMEOUT_SECONDS: u64 = 5;

/// Reconnection attempts before a worker gives up.
pub const CLIENT_MAX_RECONNECT_ATTEMPTS: u32 = 5;

/// First reconnection delay, in milliseconds.
pub const CLIENT_RECONNECT_DELAY_BASE_MS: u64 = 1000;

/// Largest reconnection delay, in milliseconds.
pub const CLIENT_RECONNECT_DELAY_MAX_MS: u64 = 30000;

/// Reconnection delay growth factor per attempt.
pub const CLIENT_RECONNECT_BACKOFF_MULTIPLIER: u64 = 2;

/// Subprocess request timeout, in milliseconds.
pub const CLIENT_REQUEST_TIMEOUT_MS: u64 = 15000;

/// Default cap on join attempts per game.
pub const DEFAULT_JOIN_MAX_ATTEMPTS: i32 = 5;

/// Default cooldown between join attempts, in seconds.
pub const DEFAULT_JOIN_COOLDOWN_SECONDS: i32 = 5;

/// Default lower bound of the pre-click delay, in seconds.
pub const DEFAULT_DELAY_MIN_SECONDS: i32 = 2;

/// Default upper bound of the pre-click delay, in seconds.
pub const DEFAULT_DELAY_MAX_SECONDS: i32 = 8;

/// Longest accepted pattern text.
pub const MAX_PATTERN_LENGTH: usize = 1000;

/// Longest accepted account name.
pub const MAX_ACCOUNT_NAME_LENGTH: usize = 100;

/// Longest accepted action name.
pub const MAX_ACTION_NAME_LENGTH: usize = 100;

/// Longest accepted display name.
pub const MAX_DISPLAY_NAME_LENGTH: usize = 200;

/// Longest accepted phone number.
pub const MAX_PHONE_LENGTH: usize = 20;

/// Largest accepted target list per action.
pub const MAX_TARGET_LIST_SIZE: usize = 100;

/// Largest accepted blacklist per account and action.
pub const MAX_BLACKLIST_SIZE: usize = 100;

/// Largest accepted pair list per account and action.
pub const MAX_TARGET_PAIRS: usize = 50;

/// Smallest accepted delay, in seconds.
pub const MIN_DELAY_SECONDS: i32 = 0;

/// Largest accepted delay, in seconds.
pub const MAX_DELAY_SECONDS: i32 = 3600;

/// Largest accepted pattern priority.
pub const MAX_PRIORITY: i32 = 10000;

/// Smallest accepted pattern priority.
pub const MIN_PRIORITY: i32 = -10000;

} // verus!

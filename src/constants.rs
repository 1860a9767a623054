use vstd::prelude::*;

verus! {

/// Request timeout, in milliseconds.
pub const DEFAULT_TIMEOUT: u64 = 30_000;

pub const DEFAULT_RETRY_ATTEMPTS: u32 = 3;

/// Wait before the first retry, in milliseconds.
pub const DEFAULT_RETRY_DELAY: u64 = 1_000;

/// Longest wait between retries, in milliseconds.
pub const MAX_RETRY_DELAY: u64 = 10_000;

pub const DEFAULT_PAGE_SIZE: u32 = 20;

pub const MAX_PAGE_SIZE: u32 = 100;

pub const API_VERSION: &'static str = "v1";

pub const DEFAULT_BASE_URL: &'static str = "https://api.forestprotocols.com";

pub const RATE_LIMIT_HEADER: &'static str = "X-RateLimit-Limit";

pub const RATE_LIMIT_REMAINING_HEADER: &'static str = "X-RateLimit-Remaining";

pub const RATE_LIMIT_RESET_HEADER: &'static str = "X-RateLimit-Reset";

} // verus!

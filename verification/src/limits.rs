use vstd::prelude::*;

verus! {

/// The only wire schema this transport speaks.
pub const SCHEMA_VERSION: u64 = 2;

/// Longest time, in milliseconds, that a request may wait for its handler;
/// also the socket read and write deadline.
pub const DEFAULT_TIMEOUT_MS: u64 = 5000;

/// Longest single wait for the handler, in nanoseconds, between two checks of
/// the stop flag.
pub const STOP_POLL_INTERVAL_NS: u128 = 20_000_000u128;

/// Largest request line, newline included, that is read and parsed.
pub const MAX_REQUEST_BYTES: usize = 64 * 1024;

/// Responses are kept strictly below this many bytes before the newline.
pub const MAX_RESPONSE_BYTES: usize = 64 * 1024;

/// Largest request identifier, in UTF-8 bytes.
pub const MAX_REQUEST_ID_BYTES: usize = 256;

} // verus!

//! Error kinds for the client's fallible operations.
use vstd::prelude::*;

verus! {

/// One variant per failure kind; every fallible operation returns a
/// `Result` carrying one of these, and nothing here panics or retries.
#[derive(Debug, Clone, Copy, PartialEq, Eq, Structural)]
pub enum VeSyncError {
    /// The HTTP exchange itself failed (connection, timeout, TLS, DNS).
    Transport,
    /// A response body does not match the expected shape.
    Decode,
    /// The login exchange failed.
    Auth,
    /// A read operation failed.
    Fetch,
    /// A write operation failed; cached device state is unchanged.
    Command,
}

} // verus!

use vstd::prelude::*;

verus! {

/// Offset added to a status code to form the close code of a connection;
/// the results lie in the range that the WebSocket protocol leaves to applications.
pub const WEBSOCKET_BASE: u16 = 4000;

/// Status code of a failure on the host's side: the worker could not be
/// spawned, fed or awaited.
pub const INTERNAL_ERROR: u8 = 0;

/// Status code reported for a worker that failed without an exit code
/// (on Unix, one that a signal ended).
pub const UNKNOWN_EXIT: u8 = 11;

/// Largest inbound frame, in bytes, that a connection takes (64 KiB).
pub const MAX_REQUEST_SIZE: usize = 65536;

/// Name of the worker executable, looked up on the host's search path.
pub const WORKER_NAME: &'static str = "ATO_invoke";

} // verus!

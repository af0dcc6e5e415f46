//! Error taxonomy of the transfer engine.

use vstd::prelude::*;

verus! {

/// Why planning a transfer failed, before any network work was done.
#[derive(Clone, Copy, Debug, PartialEq, Eq, Structural)]
pub enum PlanError {
    /// The object has size zero; zero-size objects are rejected, not
    /// silently completed.
    EmptyObject,
    /// The chunk count would exceed the configured ceiling; the caller
    /// should raise the chunk size.
    TooManyChunks,
}

/// How a single chunk attempt failed.
#[derive(Clone, Copy, Debug, PartialEq, Eq, Structural)]
pub enum ChunkError {
    /// A network or server error worth retrying.
    Transient,
    /// An error that no retry can cure.
    Permanent,
}

/// The single terminal failure of a whole transfer.
#[derive(Clone, Copy, Debug, PartialEq, Eq, Structural)]
pub enum TransferError {
    /// Planning failed; nothing was sent.
    Plan(PlanError),
    /// The multipart session could not be opened or committed.
    Session,
    /// A chunk exhausted its retries; the transfer is failed as a whole.
    Chunk { index: u32, cause: ChunkError, attempts_made: u32 },
    /// All chunks succeeded but the destination reports a different size.
    IntegrityMismatch { expected: u64, actual: u64 },
}

} // verus!

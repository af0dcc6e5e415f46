//! A chunked-transfer engine for moving large objects to and from an object
//! store: chunk planning, bounded concurrent dispatch, per-chunk retry,
//! ordered reassembly and post-transfer integrity verification.
//!
//! The engine itself is pure: it decides, and the surrounding program
//! performs the network calls and feeds the results back in.

pub mod aggregator;
pub mod errors;
pub mod gate;
pub mod listing;
pub mod orchestrator;
pub mod planner;
pub mod s3path;
pub mod worker;

pub use aggregator::{PartRecord, ResultAggregator, SuccessEntry, TransferResult};
pub use errors::{ChunkError, PlanError, TransferError};
pub use gate::ConcurrencyGate;
pub use listing::filter_file_keys;
pub use orchestrator::{Action, Phase, TransferKind, TransferOrchestrator};
pub use planner::{
    chunk_count_of, plan, valid_plan, ChunkRange, TransferSpec, CHUNKS_MAX_RETRY, CHUNKS_WORKERS,
    CHUNK_SIZE, MAX_CHUNKS,
};
pub use s3path::{S3Path, S3PathError};
pub use worker::{
    backoff_delay_ms, transfer, AttemptResult, ChunkOutcome, RetryDecision, RetryState,
};

//! Counters of the embedding indexer, shared with the threads that update
//! them, and their point-in-time snapshot.

use vstd::prelude::*;

use std::sync::atomic::{AtomicBool, AtomicU64, Ordering};

verus! {

/// Counters of the embedding indexer.
pub struct IndexerMetrics {
    /// Documents embedded.
    pub documents_embedded: AtomicU64,
    /// Documents waiting to be embedded.
    pub documents_pending: AtomicU64,
    /// Embedding errors met.
    pub embedding_errors: AtomicU64,
    /// Batches processed.
    pub batches_processed: AtomicU64,
    /// Whether a batch is being processed.
    pub is_processing: AtomicBool,
}

/// The values of the indexer counters at one moment.
#[derive(Debug, Clone, Copy, PartialEq, Eq, Structural)]
pub struct MetricsSnapshot {
    pub documents_embedded: u64,
    pub documents_pending: u64,
    pub embedding_errors: u64,
    pub batches_processed: u64,
    pub is_processing: bool,
}

impl IndexerMetrics {
    /// All counters at zero, not processing. The values inside std's atomics
    /// have no model in Verus, so they are not stated.
    pub fn new() -> (r: Self) {
        IndexerMetrics {
            documents_embedded: AtomicU64::new(0),
            documents_pending: AtomicU64::new(0),
            embedding_errors: AtomicU64::new(0),
            batches_processed: AtomicU64::new(0),
            is_processing: AtomicBool::new(false),
        }
    }

    /// Reads every counter once (relaxed). The values are whatever the
    /// other threads last stored, so nothing is promised of them.
    pub fn snapshot(&self) -> (r: MetricsSnapshot) {
        MetricsSnapshot {
            documents_embedded: self.documents_embedded.load(Ordering::Relaxed),
            documents_pending: self.documents_pending.load(Ordering::Relaxed),
            embedding_errors: self.embedding_errors.load(Ordering::Relaxed),
            batches_processed: self.batches_processed.load(Ordering::Relaxed),
            is_processing: self.is_processing.load(Ordering::Relaxed),
        }
    }
}

} // verus!

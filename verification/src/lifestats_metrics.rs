//! Counters of the lifetime statistics writer and their snapshot, with the
//! average write latency per flush.

use vstd::prelude::*;

use std::sync::atomic::{AtomicU64, Ordering};

verus! {

/// Counters of the lifetime statistics writer.
pub struct LifestatsMetrics {
    /// Events stored.
    pub events_stored: AtomicU64,
    /// Events dropped because the channel was full.
    pub events_dropped: AtomicU64,
    /// Events whose storage failed.
    pub events_store_failed: AtomicU64,
    /// Events waiting in the current batch.
    pub batch_pending: AtomicU64,
    /// Total write latency in microseconds.
    pub write_latency_us: AtomicU64,
    /// Number of batch flushes.
    pub flush_count: AtomicU64,
}

/// The values of the writer counters at one moment.
#[derive(Debug, Clone, Copy, PartialEq, Eq, Structural)]
pub struct MetricsSnapshot {
    pub events_stored: u64,
    pub events_dropped: u64,
    pub events_store_failed: u64,
    pub batch_pending: u64,
    /// Average write latency per flush, in microseconds (0 before any flush).
    pub avg_write_latency_us: u64,
}

/// The average latency per flush: total over count, or 0 without flushes.
pub open spec fn average_latency(total: u64, count: u64) -> u64 {
    if count > 0 {
        total / count
    } else {
        0
    }
}

impl MetricsSnapshot {
    /// The snapshot of the given counter values.
    pub fn from_counters(
        events_stored: u64,
        events_dropped: u64,
        events_store_failed: u64,
        batch_pending: u64,
        write_latency_us: u64,
        flush_count: u64,
    ) -> (r: Self)
        ensures
            r.events_stored == events_stored,
            r.events_dropped == events_dropped,
            r.events_store_failed == events_store_failed,
            r.batch_pending == batch_pending,
            r.avg_write_latency_us == average_latency(write_latency_us, flush_count),
    {
        MetricsSnapshot {
            events_stored,
            events_dropped,
            events_store_failed,
            batch_pending,
            avg_write_latency_us: if flush_count > 0 {
                write_latency_us / flush_count
            } else {
                0
            },
        }
    }
}

impl LifestatsMetrics {
    /// All counters at zero. The values inside std's atomics have no model
    /// in Verus, so the zeros are not stated.
    pub fn new() -> (r: Self) {
        LifestatsMetrics {
            events_stored: AtomicU64::new(0),
            events_dropped: AtomicU64::new(0),
            events_store_failed: AtomicU64::new(0),
            batch_pending: AtomicU64::new(0),
            write_latency_us: AtomicU64::new(0),
            flush_count: AtomicU64::new(0),
        }
    }

    /// Reads every counter once (relaxed) and forms the snapshot with
    /// `MetricsSnapshot::from_counters`. The values read are whatever the
    /// writer thread last stored, so nothing is promised of them.
    pub fn snapshot(&self) -> (r: MetricsSnapshot) {
        let stored = self.events_stored.load(Ordering::Relaxed);
        let dropped = self.events_dropped.load(Ordering::Relaxed);
        let failed = self.events_store_failed.load(Ordering::Relaxed);
        let pending = self.batch_pending.load(Ordering::Relaxed);
        let latency = self.write_latency_us.load(Ordering::Relaxed);
        let flushes = self.flush_count.load(Ordering::Relaxed);
        MetricsSnapshot::from_counters(stored, dropped, failed, pending, latency, flushes)
    }
}

} // verus!

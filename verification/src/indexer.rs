//! The embedding indexer: its settings, the handle through which the rest
//! of the program asks it to poll or re-index, and the decisions of its
//! loop (when to embed a batch, when to re-index, when to stop, and what to
//! do with the embedding settings stored in the database).

use vstd::prelude::*;

use std::sync::mpsc::SyncSender;
use std::sync::Arc;

use crate::indexer_metrics::{IndexerMetrics, MetricsSnapshot};
use crate::text::{owned, str_eq};

verus! {

#[verifier::external_type_specification]
#[verifier::external_body]
#[verifier::reject_recursive_types(T)]
pub struct ExSyncSender<T>(SyncSender<T>);

/// `Clone` of `SyncSender`: another sender on the same channel. The type is
/// opaque here, so nothing is stated of the copy.
pub assume_specification<T>[<SyncSender<T> as Clone>::clone](sender: &SyncSender<T>) -> (r: SyncSender<T>);

/// Settings of the embedding indexer (durations in whole seconds or
/// milliseconds).
#[derive(Debug, Clone)]
pub struct IndexerConfig {
    /// Path of the database.
    pub db_path: String,
    /// How often to look for new content, in seconds.
    pub poll_interval_secs: u64,
    /// Documents per embedding request.
    pub batch_size: usize,
    /// Pause between batches, in milliseconds.
    pub batch_delay_ms: u64,
    /// Longest content embedded, in bytes (longer content is cut).
    pub max_content_length: usize,
}

impl Default for IndexerConfig {
    fn default() -> (r: Self)
        ensures
            r.db_path@ == "./data/lifestats.db"@,
            r.poll_interval_secs == 30,
            r.batch_size == 32,
            r.batch_delay_ms == 100,
            r.max_content_length == 8000,
    {
        IndexerConfig {
            db_path: owned("./data/lifestats.db"),
            poll_interval_secs: 30,
            batch_size: 32,
            batch_delay_ms: 100,
            max_content_length: 8000,
        }
    }
}

/// A request to the indexer thread.
#[derive(Debug, Clone, Copy, PartialEq, Eq, Structural)]
pub enum IndexerCommand {
    /// Look for new content and embed it.
    Poll,
    /// Drop every embedding and embed everything again.
    Reindex,
    /// Stop the indexer.
    Shutdown,
}

/// `SyncSender::try_send`: hands the command to the channel when it has
/// room and returns at once; whether it was delivered is not reported, and
/// nothing is stated of it.
#[verifier::external_body]
fn offer_command(tx: &SyncSender<IndexerCommand>, command: IndexerCommand) {
    let _ = tx.try_send(command);
}

/// `SyncSender::send`: hands the command to the channel, waiting for room
/// while the receiver lives; a closed channel is not reported, and nothing
/// is stated of it.
#[verifier::external_body]
fn send_command(tx: &SyncSender<IndexerCommand>, command: IndexerCommand) {
    let _ = tx.send(command);
}

/// Which embedding provider the indexer uses.
#[derive(Debug, Clone, Copy, PartialEq, Eq, Structural)]
pub enum ProviderKind {
    /// No provider: embedding is off.
    Disabled,
    Local,
    Remote,
}

/// The provider kind a configured provider name selects: `local`,
/// `remote`, anything else none.
pub open spec fn provider_named(name: Seq<char>) -> ProviderKind {
    if name == "local"@ {
        ProviderKind::Local
    } else if name == "remote"@ {
        ProviderKind::Remote
    } else {
        ProviderKind::Disabled
    }
}

/// The provider kind of a configured provider name.
pub fn provider_kind(name: &str) -> (r: ProviderKind)
    ensures
        r == provider_named(name@),
{
    if str_eq(name, "local") {
        ProviderKind::Local
    } else if str_eq(name, "remote") {
        ProviderKind::Remote
    } else {
        ProviderKind::Disabled
    }
}

/// The indexer's status: its provider, model and vector size, whether it
/// can embed, and its document counters. The progress percentage (a float)
/// is computed from the counters by the caller.
#[derive(Debug, Clone)]
pub struct IndexerStatus {
    pub provider: ProviderKind,
    pub model: String,
    pub dimensions: usize,
    pub is_ready: bool,
    pub documents_indexed: u64,
    pub documents_pending: u64,
}

/// A clonable handle on a running indexer: its command channel, its
/// counters, and the provider, model and vector size it embeds with.
#[derive(Clone)]
pub struct IndexerHandle {
    tx: SyncSender<IndexerCommand>,
    metrics: Arc<IndexerMetrics>,
    provider: ProviderKind,
    model: String,
    dimensions: usize,
}

impl IndexerHandle {
    /// The channel the handle sends commands on.
    pub closed spec fn channel(&self) -> SyncSender<IndexerCommand> {
        self.tx
    }

    /// The counters the handle reads.
    pub closed spec fn counters(&self) -> Arc<IndexerMetrics> {
        self.metrics
    }

    /// The provider the indexer embeds with.
    pub closed spec fn provider_of(&self) -> ProviderKind {
        self.provider
    }

    /// The model the indexer embeds with.
    pub closed spec fn model_of(&self) -> Seq<char> {
        self.model@
    }

    /// The size of the vectors the indexer makes.
    pub closed spec fn dimensions_of(&self) -> usize {
        self.dimensions
    }

    /// The handle on the indexer that listens on the other end of `tx`,
    /// updates `metrics`, and embeds with the given provider and model.
    pub fn new(
        tx: SyncSender<IndexerCommand>,
        metrics: Arc<IndexerMetrics>,
        provider: ProviderKind,
        model: String,
        dimensions: usize,
    ) -> (r: Self)
        ensures
            r.channel() == tx,
            r.counters() == metrics,
            r.provider_of() == provider,
            r.model_of() == model@,
            r.dimensions_of() == dimensions,
    {
        IndexerHandle { tx, metrics, provider, model, dimensions }
    }

    /// The indexer's counters at this moment.
    pub fn metrics(&self) -> (r: MetricsSnapshot) {
        self.metrics.snapshot()
    }

    /// The indexer's status given a snapshot of its counters: its provider,
    /// model and vector size, ready when it has a provider, and the
    /// snapshot's embedded and pending document counts.
    pub fn status_of(&self, m: MetricsSnapshot) -> (r: IndexerStatus)
        ensures
            r.provider == self.provider_of(),
            r.model@ == self.model_of(),
            r.dimensions == self.dimensions_of(),
            r.is_ready == (self.provider_of() != ProviderKind::Disabled),
            r.documents_indexed == m.documents_embedded,
            r.documents_pending == m.documents_pending,
    {
        IndexerStatus {
            provider: self.provider,
            model: self.model.clone(),
            dimensions: self.dimensions,
            is_ready: !matches!(self.provider, ProviderKind::Disabled),
            documents_indexed: m.documents_embedded,
            documents_pending: m.documents_pending,
        }
    }

    /// The indexer's status now: `status_of` the counters as `metrics`
    /// reads them (relaxed loads of atomics whose values Verus does not
    /// model, so the counts are those of some snapshot).
    pub fn status(&self) -> (r: IndexerStatus)
        ensures
            r.provider == self.provider_of(),
            r.model@ == self.model_of(),
            r.dimensions == self.dimensions_of(),
            r.is_ready == (self.provider_of() != ProviderKind::Disabled),
    {
        let m = self.metrics.snapshot();
        self.status_of(m)
    }

    /// Asks for a poll, unless the channel is full (a poll is then already
    /// waiting).
    pub fn trigger_poll(&self) {
        offer_command(&self.tx, IndexerCommand::Poll);
    }

    /// Asks for a full re-index.
    pub fn trigger_reindex(&self) {
        send_command(&self.tx, IndexerCommand::Reindex);
    }
}

// ─────────────────────────────────────────────────────────────────────────────
// The indexer loop's decisions
// ─────────────────────────────────────────────────────────────────────────────

/// What the indexer loop received: a command, nothing within the poll
/// interval, or the end of the channel.
#[derive(Debug, Clone, Copy, PartialEq, Eq, Structural)]
pub enum IndexerEvent {
    Command(IndexerCommand),
    Timeout,
    Disconnected,
}

/// What the indexer loop does next.
#[derive(Debug, Clone, Copy, PartialEq, Eq, Structural)]
pub enum IndexerAction {
    /// Embed the next batch of pending documents, then restart the poll
    /// clock.
    ProcessBatch,
    /// Drop every embedding and count the pending documents again.
    Reindex,
    /// Do nothing until the next event.
    Wait,
    /// Leave the loop.
    Stop,
}

/// The indexer's decision: on a poll or a timeout it embeds a batch when
/// the provider is ready and the poll interval has passed; it re-indexes on
/// request when the provider is ready; it stops on shutdown or when the
/// channel closes; otherwise it waits.
pub open spec fn indexer_decision(event: IndexerEvent, provider_ready: bool, since_poll_ms: u64, poll_interval_secs: u64) -> IndexerAction {
    match event {
        IndexerEvent::Command(IndexerCommand::Poll) | IndexerEvent::Timeout => {
            if provider_ready && since_poll_ms >= poll_interval_secs * 1000 {
                IndexerAction::ProcessBatch
            } else {
                IndexerAction::Wait
            }
        },
        IndexerEvent::Command(IndexerCommand::Reindex) => {
            if provider_ready {
                IndexerAction::Reindex
            } else {
                IndexerAction::Wait
            }
        },
        IndexerEvent::Command(IndexerCommand::Shutdown) | IndexerEvent::Disconnected => IndexerAction::Stop,
    }
}

/// The indexer loop's next action, given whether the embedding provider is
/// ready and the milliseconds since the last batch.
pub fn indexer_step(event: IndexerEvent, provider_ready: bool, since_poll_ms: u64, config: &IndexerConfig) -> (r: IndexerAction)
    ensures
        r == indexer_decision(event, provider_ready, since_poll_ms, config.poll_interval_secs),
{
    match event {
        IndexerEvent::Command(IndexerCommand::Poll) | IndexerEvent::Timeout => {
            let passed = (since_poll_ms as u128) >= (config.poll_interval_secs as u128) * 1000;
            if provider_ready && passed {
                IndexerAction::ProcessBatch
            } else {
                IndexerAction::Wait
            }
        },
        IndexerEvent::Command(IndexerCommand::Reindex) => {
            if provider_ready {
                IndexerAction::Reindex
            } else {
                IndexerAction::Wait
            }
        },
        IndexerEvent::Command(IndexerCommand::Shutdown) | IndexerEvent::Disconnected => IndexerAction::Stop,
    }
}

/// An indexer whose provider is not ready never embeds or re-indexes, and
/// only a shutdown or a closed channel stops it.
pub proof fn lemma_idle_without_provider(event: IndexerEvent, since_poll_ms: u64, poll_interval_secs: u64)
    ensures
        indexer_decision(event, false, since_poll_ms, poll_interval_secs) == (match event {
            IndexerEvent::Command(IndexerCommand::Shutdown) | IndexerEvent::Disconnected => IndexerAction::Stop,
            _ => IndexerAction::Wait,
        }),
{
}

/// What to do with the embedding settings stored in the database.
#[derive(Debug, Clone, Copy, PartialEq, Eq, Structural)]
pub enum ConfigSync {
    /// None are stored: store the current ones.
    Insert,
    /// Other settings are stored: drop every embedding, store the current
    /// settings.
    ClearAndUpdate,
    /// The current settings are stored already.
    Keep,
}

/// The action on the stored embedding settings (provider, model,
/// dimensions): insert when none are stored, clear and update when any of
/// the three differs, keep otherwise.
pub open spec fn config_sync(stored: Option<(Seq<char>, Seq<char>, i64)>, provider: Seq<char>, model: Seq<char>, dimensions: usize) -> ConfigSync {
    match stored {
        None => ConfigSync::Insert,
        Some((p, m, d)) => if p != provider || m != model || d != dimensions as i64 {
            ConfigSync::ClearAndUpdate
        } else {
            ConfigSync::Keep
        },
    }
}

/// The action on the stored embedding settings, given what was read from
/// the database and the current provider name, model and dimensions.
pub fn plan_config_sync(stored: &Option<(String, String, i64)>, provider: &str, model: &str, dimensions: usize) -> (r: ConfigSync)
    ensures
        r == config_sync(
            match stored {
                None => None,
                Some(t) => Some((t.0@, t.1@, t.2)),
            },
            provider@,
            model@,
            dimensions,
        ),
{
    match stored {
        None => ConfigSync::Insert,
        Some((p, m, d)) => {
            #[verifier::truncate]
            let dims = dimensions as i64;
            if !str_eq(p.as_str(), provider) || !str_eq(m.as_str(), model) || *d != dims {
                ConfigSync::ClearAndUpdate
            } else {
                ConfigSync::Keep
            }
        },
    }
}

} // verus!

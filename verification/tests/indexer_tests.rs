use std::sync::mpsc::sync_channel;
use std::sync::Arc;

use aspy::indexer::{
    indexer_step, plan_config_sync, ConfigSync, IndexerAction, IndexerCommand, IndexerConfig, IndexerEvent,
    IndexerHandle, provider_kind, ProviderKind,
};
use aspy::indexer_metrics::IndexerMetrics;

#[test]
fn indexer_config_defaults() {
    let c = IndexerConfig::default();
    assert_eq!(c.db_path, "./data/lifestats.db");
    assert_eq!(c.poll_interval_secs, 30);
    assert_eq!(c.batch_size, 32);
    assert_eq!(c.batch_delay_ms, 100);
    assert_eq!(c.max_content_length, 8000);
}

#[test]
fn indexer_polls_only_when_ready_and_due() {
    let c = IndexerConfig::default();
    let poll = IndexerEvent::Command(IndexerCommand::Poll);
    assert_eq!(indexer_step(poll, true, 30_000, &c), IndexerAction::ProcessBatch);
    assert_eq!(indexer_step(poll, true, 29_999, &c), IndexerAction::Wait);
    assert_eq!(indexer_step(IndexerEvent::Timeout, true, 45_000, &c), IndexerAction::ProcessBatch);
    assert_eq!(indexer_step(IndexerEvent::Timeout, false, 45_000, &c), IndexerAction::Wait);
    let reindex = IndexerEvent::Command(IndexerCommand::Reindex);
    assert_eq!(indexer_step(reindex, true, 0, &c), IndexerAction::Reindex);
    assert_eq!(indexer_step(reindex, false, 0, &c), IndexerAction::Wait);
    let stop = IndexerEvent::Command(IndexerCommand::Shutdown);
    assert_eq!(indexer_step(stop, false, 0, &c), IndexerAction::Stop);
    assert_eq!(indexer_step(IndexerEvent::Disconnected, true, 99_999, &c), IndexerAction::Stop);
}

#[test]
fn embedding_settings_sync() {
    assert_eq!(plan_config_sync(&None, "openai", "m", 1536), ConfigSync::Insert);
    let stored = Some(("openai".to_string(), "m".to_string(), 1536i64));
    assert_eq!(plan_config_sync(&stored, "openai", "m", 1536), ConfigSync::Keep);
    assert_eq!(plan_config_sync(&stored, "local", "m", 1536), ConfigSync::ClearAndUpdate);
    assert_eq!(plan_config_sync(&stored, "openai", "n", 1536), ConfigSync::ClearAndUpdate);
    assert_eq!(plan_config_sync(&stored, "openai", "m", 384), ConfigSync::ClearAndUpdate);
}

#[test]
fn handle_sends_commands() {
    let (tx, rx) = sync_channel::<IndexerCommand>(1);
    let handle = IndexerHandle::new(tx, Arc::new(IndexerMetrics::new()), provider_kind("local"), "all-MiniLM-L6-v2".to_string(), 384);
    let copy = handle.clone();
    handle.trigger_poll();
    copy.trigger_poll();
    assert_eq!(rx.try_recv(), Ok(IndexerCommand::Poll));
    assert!(rx.try_recv().is_err());
    handle.trigger_reindex();
    assert_eq!(rx.try_recv(), Ok(IndexerCommand::Reindex));
    let m = handle.metrics();
    assert_eq!(m.documents_embedded, 0);
    assert!(!m.is_processing);
}

#[test]
fn handle_reports_status() {
    let (tx, _rx) = sync_channel::<IndexerCommand>(1);
    assert_eq!(provider_kind("remote"), ProviderKind::Remote);
    assert_eq!(provider_kind("none"), ProviderKind::Disabled);
    let h = IndexerHandle::new(tx.clone(), Arc::new(IndexerMetrics::new()), provider_kind("local"), "m".to_string(), 384);
    let st = h.status();
    assert_eq!(st.provider, ProviderKind::Local);
    assert_eq!(st.model, "m");
    assert_eq!(st.dimensions, 384);
    assert!(st.is_ready);
    assert_eq!(st.documents_indexed, 0);
    let off = IndexerHandle::new(tx, Arc::new(IndexerMetrics::new()), provider_kind("bogus"), String::new(), 0);
    assert!(!off.status().is_ready);
}

#[test]
fn status_takes_the_counts_of_the_snapshot() {
    let (tx, _rx) = sync_channel::<IndexerCommand>(1);
    let h = IndexerHandle::new(tx, Arc::new(IndexerMetrics::new()), provider_kind("remote"), "m".to_string(), 1536);
    let snap = aspy::indexer_metrics::MetricsSnapshot {
        documents_embedded: 7,
        documents_pending: 3,
        embedding_errors: 1,
        batches_processed: 2,
        is_processing: false,
    };
    let st = h.status_of(snap);
    assert_eq!(st.documents_indexed, 7);
    assert_eq!(st.documents_pending, 3);
    assert_eq!(st.provider, ProviderKind::Remote);
    assert!(st.is_ready);
}

use std::sync::atomic::{AtomicU32, Ordering};
use std::sync::Arc;

use aspy::logging::{EventKind, LoggingProcessor, ProcessContext};
use aspy::pipeline::{apply_result, EventPipeline, EventProcessor, ProcessResult};

// The relation `processed` is read only by the verifier; these test
// processors run unverified, so it says nothing of them.

struct AddOne;
impl EventProcessor<u64> for AddOne {
    fn processed(&self, _event: u64, _ctx: ProcessContext, _result: ProcessResult<u64>) -> bool {
        true
    }
    fn name(&self) -> &'static str {
        "add-one"
    }
    fn process(&self, event: &u64, _ctx: &ProcessContext) -> ProcessResult<u64> {
        ProcessResult::Transform(Box::new(*event + 1))
    }
}

struct DropOdd;
impl EventProcessor<u64> for DropOdd {
    fn processed(&self, _event: u64, _ctx: ProcessContext, _result: ProcessResult<u64>) -> bool {
        true
    }
    fn name(&self) -> &'static str {
        "drop-odd"
    }
    fn process(&self, event: &u64, _ctx: &ProcessContext) -> ProcessResult<u64> {
        if *event % 2 == 1 {
            ProcessResult::Drop
        } else {
            ProcessResult::Continue
        }
    }
}

struct Failing;
impl EventProcessor<u64> for Failing {
    fn processed(&self, _event: u64, _ctx: ProcessContext, _result: ProcessResult<u64>) -> bool {
        true
    }
    fn name(&self) -> &'static str {
        "failing"
    }
    fn process(&self, _event: &u64, _ctx: &ProcessContext) -> ProcessResult<u64> {
        ProcessResult::Error("boom".to_string())
    }
    fn shutdown(&self) -> Result<(), String> {
        Err("cannot stop".to_string())
    }
}

struct Counting(Arc<AtomicU32>);
impl EventProcessor<u64> for Counting {
    fn processed(&self, _event: u64, _ctx: ProcessContext, _result: ProcessResult<u64>) -> bool {
        true
    }
    fn name(&self) -> &'static str {
        "counting"
    }
    fn process(&self, _event: &u64, _ctx: &ProcessContext) -> ProcessResult<u64> {
        self.0.fetch_add(1, Ordering::SeqCst);
        ProcessResult::Continue
    }
}

fn ctx() -> ProcessContext {
    ProcessContext::new(Some("s1"), None, false)
}

#[test]
fn empty_pipeline_passes_events_through() {
    let p: EventPipeline<u64> = EventPipeline::new();
    assert!(p.is_empty());
    assert_eq!(p.process(7, &ctx()), Some(7));
    assert!(p.processor_names().is_empty());
}

#[test]
fn processors_run_in_registration_order() {
    let mut p = EventPipeline::new();
    p.register(AddOne);
    p.register(DropOdd);
    assert_eq!(p.processor_names(), vec!["add-one", "drop-odd"]);
    assert_eq!(p.process(1, &ctx()), Some(2));
    assert_eq!(p.process(2, &ctx()), None);

    let mut q = EventPipeline::new();
    q.register(DropOdd);
    q.register(AddOne);
    assert_eq!(q.process(1, &ctx()), None);
    assert_eq!(q.process(2, &ctx()), Some(3));
}

#[test]
fn a_drop_stops_the_run_and_errors_pass_the_event_on() {
    let calls = Arc::new(AtomicU32::new(0));
    let mut p = EventPipeline::new();
    p.register(Failing);
    p.register(DropOdd);
    p.register(Counting(calls.clone()));
    assert_eq!(p.process(4, &ctx()), Some(4));
    assert_eq!(calls.load(Ordering::SeqCst), 1);
    assert_eq!(p.process(5, &ctx()), None);
    assert_eq!(calls.load(Ordering::SeqCst), 1);
    assert!(p.shutdown().is_ok());
}

#[test]
fn single_results_and_the_logging_processor() {
    assert_eq!(apply_result(3u64, ProcessResult::Continue), Some(3));
    assert_eq!(apply_result(3u64, ProcessResult::Transform(Box::new(9))), Some(9));
    assert_eq!(apply_result(3u64, ProcessResult::Drop), None);
    assert_eq!(apply_result(3u64, ProcessResult::Error("x".to_string())), Some(3));

    let mut p = EventPipeline::new();
    p.register(LoggingProcessor::new());
    assert_eq!(p.processor_names(), vec!["logging"]);
    assert_eq!(p.process(EventKind::ToolCall, &ctx()), Some(EventKind::ToolCall));
}

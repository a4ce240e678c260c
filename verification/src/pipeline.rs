//! The event pipeline: processors, called in registration order, each see
//! the event as the previous ones left it, and each passes it on unchanged,
//! replaces it, drops it, or reports an error (the event then goes on
//! unchanged). Processors are written by the users of the library.

use vstd::prelude::*;

use crate::logging::{EventKind, LoggingProcessor, ProcessContext};

verus! {

/// What a processor did with an event.
pub enum ProcessResult<E> {
    /// The event goes on unchanged.
    Continue,
    /// The event goes on as this new event.
    Transform(Box<E>),
    /// The event is filtered out.
    Drop,
    /// The processor failed (with this message); the event goes on
    /// unchanged.
    Error(String),
}

/// A processor of events, implemented by the users of the pipeline.
pub trait EventProcessor<E>: Send + Sync {
    /// A name for logs.
    fn name(&self) -> &'static str;

    /// What the processor may return for an event in a context: the
    /// implementation says what it does here.
    spec fn processed(&self, event: E, ctx: ProcessContext, result: ProcessResult<E>) -> bool;

    /// Processes an event.
    fn process(&self, event: &E, ctx: &ProcessContext) -> (r: ProcessResult<E>)
        ensures
            self.processed(*event, *ctx, r),
    ;

    /// Releases what the processor holds; by default there is nothing to do.
    fn shutdown(&self) -> (r: Result<(), String>)
        default_ensures
            r is Ok,
    {
        Ok(())
    }
}

/// The event after one processor's result, `None` once it was dropped.
pub open spec fn after_result<E>(current: Option<E>, result: ProcessResult<E>) -> Option<E> {
    match current {
        None => None,
        Some(e) => match result {
            ProcessResult::Continue => Some(e),
            ProcessResult::Transform(b) => Some(*b),
            ProcessResult::Drop => None,
            ProcessResult::Error(_) => Some(e),
        },
    }
}

/// The event after the processors gave `results`, in order.
pub open spec fn after_results<E>(event: E, results: Seq<ProcessResult<E>>) -> Option<E>
    decreases results.len(),
{
    if results.len() == 0 {
        Some(event)
    } else {
        after_result(after_results(event, results.drop_last()), results.last())
    }
}

/// The event after one processor's result.
pub fn apply_result<E>(current: E, result: ProcessResult<E>) -> (r: Option<E>)
    ensures
        r == after_result(Some(current), result),
{
    match result {
        ProcessResult::Continue => Some(current),
        ProcessResult::Transform(b) => Some(*b),
        ProcessResult::Drop => None,
        ProcessResult::Error(_) => Some(current),
    }
}

/// Once an event is dropped, no later result brings it back.
pub proof fn lemma_dropped_stays_dropped<E>(event: E, results: Seq<ProcessResult<E>>, k: int)
    requires
        0 <= k <= results.len(),
        after_results(event, results.take(k)) is None,
    ensures
        after_results(event, results) is None,
    decreases results.len() - k,
{
    if k < results.len() {
        assert(results.take(k + 1).drop_last() =~= results.take(k));
        lemma_dropped_stays_dropped(event, results, k + 1);
    } else {
        assert(results.take(k) =~= results);
    }
}

/// Side-effect processors leave the event as it is: results that are all
/// `Continue` or `Error` give back the event.
pub proof fn lemma_side_effects_pass_through<E>(event: E, results: Seq<ProcessResult<E>>)
    requires
        forall|i: int| 0 <= i < results.len() ==> (#[trigger] results[i] is Continue || results[i] is Error),
    ensures
        after_results(event, results) == Some(event),
    decreases results.len(),
{
    if results.len() > 0 {
        lemma_side_effects_pass_through(event, results.drop_last());
    }
}

/// A registered processor.
#[verifier::reject_recursive_types(E)]
pub struct Registered<E> {
    processor: Box<dyn EventProcessor<E>>,
}

impl<E> Registered<E> {
    fn new(processor: Box<dyn EventProcessor<E>>) -> (r: Self)
        ensures
            r == (Registered { processor }),
    {
        Registered { processor }
    }
}

/// The processors, in registration order.
#[verifier::reject_recursive_types(E)]
pub struct EventPipeline<E> {
    processors: Vec<Registered<E>>,
}

impl<E> EventPipeline<E> {
    /// The registered processors, in order.
    pub closed spec fn entries(&self) -> Seq<Registered<E>> {
        self.processors@
    }

    /// The number of registered processors.
    pub open spec fn count(&self) -> nat {
        self.entries().len()
    }

    /// Whether the processor registered at position `i` may return
    /// `result` for `event` in `ctx` (its `processed` relation).
    pub closed spec fn allows(&self, i: int, event: E, ctx: ProcessContext, result: ProcessResult<E>) -> bool {
        self.processors@[i].processor.processed(event, ctx, result)
    }

    /// Result `i` of a run is one that processor `i` may return for the
    /// event as the processors before it left it, in the run's context.
    pub open spec fn step_follows(&self, event: E, ctx: ProcessContext, results: Seq<ProcessResult<E>>, i: int) -> bool {
        after_results(event, results.take(i)) matches Some(e) && self.allows(i, e, ctx, results[i])
    }

    /// The results of a run tie to the processors, each as `step_follows`
    /// says.
    pub open spec fn run_follows(&self, event: E, ctx: ProcessContext, results: Seq<ProcessResult<E>>) -> bool {
        forall|i: int| 0 <= i < results.len() ==> #[trigger] self.step_follows(event, ctx, results, i)
    }

    /// An empty pipeline, which passes events through.
    pub fn new() -> (r: Self)
        ensures
            r.count() == 0,
    {
        EventPipeline { processors: Vec::new() }
    }

    /// Adds a processor after those already registered.
    pub fn register<P: EventProcessor<E> + 'static>(&mut self, processor: P)
        ensures
            final(self).count() == old(self).count() + 1,
            final(self).entries().take(old(self).count() as int) == old(self).entries(),
            forall|i: int, e: E, c: ProcessContext, res: ProcessResult<E>|
                0 <= i < old(self).count() ==> (#[trigger] final(self).allows(i, e, c, res) == old(self).allows(i, e, c, res)),
    {
        let ghost before = self.processors@;
        let boxed: Box<dyn EventProcessor<E>> = Box::new(processor);
        let entry = Registered::new(boxed);
        self.processors.push(entry);
        assert(self.processors@.take(before.len() as int) =~= before);
    }

    /// Whether no processor is registered.
    pub fn is_empty(&self) -> (r: bool)
        ensures
            r == (self.count() == 0),
    {
        self.processors.len() == 0
    }

    /// The names of the processors, in registration order.
    pub fn processor_names(&self) -> (r: Vec<&'static str>)
        ensures
            r@.len() == self.count(),
    {
        let mut names: Vec<&'static str> = Vec::new();
        let mut i: usize = 0;
        while i < self.processors.len()
            invariant
                i <= self.processors@.len(),
                names@.len() == i,
            decreases self.processors@.len() - i,
        {
            names.push(self.processors[i].processor.name());
            i = i + 1;
        }
        names
    }

    proof fn lemma_run_extends(&self, event: E, ctx: ProcessContext, prev: Seq<ProcessResult<E>>, res: ProcessResult<E>, current: E)
        requires
            self.run_follows(event, ctx, prev),
            after_results(event, prev) == Some(current),
            self.allows(prev.len() as int, current, ctx, res),
        ensures
            self.run_follows(event, ctx, prev.push(res)),
    {
        let results = prev.push(res);
        assert forall|k: int| 0 <= k < results.len() implies #[trigger] self.step_follows(event, ctx, results, k) by {
            if k < prev.len() {
                assert(self.step_follows(event, ctx, prev, k));
                assert(results.take(k) =~= prev.take(k));
                assert(results[k] == prev[k]);
            } else {
                assert(results.take(k) =~= prev);
                assert(results[k] == res);
            }
        }
    }

    /// Runs an event through the processors in order: each gets the event
    /// as the previous ones left it, with the same context, and the first
    /// that drops it ends the run. The outcome is what the results, one per
    /// processor called, make of the event; result `i` is one that processor
    /// `i` may return (its `processed` relation) for the event as processors
    /// `0..i` left it; fewer processors are called only when the event was
    /// dropped, and without processors the event comes back as it is.
    pub fn process(&self, event: E, ctx: &ProcessContext) -> (r: Option<E>)
        ensures
            self.count() == 0 ==> r == Some(event),
            exists|results: Seq<ProcessResult<E>>|
                #![trigger after_results(event, results)]
                results.len() <= self.count() && r == after_results(event, results) && (results.len()
                    < self.count() ==> r is None) && self.run_follows(event, *ctx, results),
    {
        let ghost results: Seq<ProcessResult<E>> = Seq::empty();
        let mut current = event;
        let mut i: usize = 0;
        while i < self.processors.len()
            invariant
                i <= self.processors@.len(),
                results.len() == i,
                after_results(event, results) == Some(current),
                self.run_follows(event, *ctx, results),
            decreases self.processors@.len() - i,
        {
            let res = self.processors[i].processor.process(&current, ctx);
            proof {
                let prev = results;
                results = results.push(res);
                assert(results.drop_last() =~= prev);
                assert(self.allows(i as int, current, *ctx, res));
                self.lemma_run_extends(event, *ctx, prev, res, current);
            }
            match apply_result(current, res) {
                Some(next) => {
                    current = next;
                },
                None => {
                    assert(after_results(event, results) is None);
                    return None;
                },
            }
            i = i + 1;
        }
        proof {
            if self.processors@.len() == 0 {
                assert(results =~= Seq::<ProcessResult<E>>::empty());
            }
        }
        Some(current)
    }

    /// Shuts the processors down, the last registered first. A processor's
    /// failure does not stop the others; the pipeline reports success.
    pub fn shutdown(&self) -> (r: Result<(), String>)
        ensures
            r is Ok,
    {
        let mut i: usize = self.processors.len();
        while i > 0
            invariant
                i <= self.processors@.len(),
            decreases i,
        {
            i = i - 1;
            let _ = self.processors[i].processor.shutdown();
        }
        Ok(())
    }
}

impl<E> Default for EventPipeline<E> {
    fn default() -> (r: Self)
        ensures
            r.count() == 0,
    {
        Self::new()
    }
}

/// The logging processor sees the kind of each event and passes every
/// event on unchanged.
impl EventProcessor<EventKind> for LoggingProcessor {
    fn name(&self) -> (r: &'static str)
        ensures
            r@ == "logging"@,
    {
        "logging"
    }

    open spec fn processed(&self, event: EventKind, ctx: ProcessContext, result: ProcessResult<EventKind>) -> bool {
        result is Continue
    }

    fn process(&self, event: &EventKind, ctx: &ProcessContext) -> (r: ProcessResult<EventKind>) {
        ProcessResult::Continue
    }
}

} // verus!

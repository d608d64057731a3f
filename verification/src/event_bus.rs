//! Typed cross-widget event bus.
//!
//! Events are dispatched between widgets inside the core; the host layer
//! only sees render-ready data after event processing.

use vstd::prelude::*;

verus! {

/// Generic PolyKit events shared across all apps.
#[derive(Debug, Clone)]
pub enum PolykitEvent {
    /// Deviation clicked in the feed; highlights related widgets. The
    /// z-score travels as its IEEE-754 bit pattern.
    DeviationSelect { metric: String, circuit: String, z_score_bits: u64, timestamp_ms: u64 },
    /// Classification tag selected; filters governance and observability.
    ClassificationFilter { tag: Option<String> },
    /// Time range changed; propagates to all widgets.
    TimeRange { from_ms: u64, to_ms: u64 },
    /// Reset all cross-widget filters.
    FilterReset,
    /// Drill into observability from a recommendation.
    InvestigateMetric {
        metric: String,
        circuit: Option<String>,
        category: String,
        recommendation_id: String,
    },
    /// Human review completed; refreshes accuracy and feedback widgets.
    ReviewCompleted { action: ReviewAction, sample_hash: String, classification: String },
}

/// The outcome of a human review.
#[derive(Debug, Clone, Copy, PartialEq, Eq, Structural)]
pub enum ReviewAction {
    Accept,
    Override,
    Flag,
}

/// Event bus: holds pending events until widget processors drain them.
pub struct EventBus {
    app: String,
    pending: Vec<PolykitEvent>,
}

impl EventBus {
    /// The app namespace the bus was created for.
    pub closed spec fn spec_app(self) -> Seq<char> {
        self.app@
    }

    /// The events emitted and not yet drained, oldest first.
    pub closed spec fn spec_pending(self) -> Seq<PolykitEvent> {
        self.pending@
    }

    pub fn new(app: &str) -> (r: Self)
        ensures
            r.spec_app() == app@,
            r.spec_pending() == Seq::<PolykitEvent>::empty(),
    {
        EventBus { app: app.to_owned(), pending: Vec::new() }
    }

    /// Emit an event; widget processors pick it up on the next cycle.
    pub fn emit(&mut self, event: PolykitEvent)
        ensures
            final(self).spec_pending() == old(self).spec_pending().push(event),
            final(self).spec_app() == old(self).spec_app(),
    {
        self.pending.push(event);
    }

    /// Take all pending events, leaving the bus empty.
    pub fn drain(&mut self) -> (r: Vec<PolykitEvent>)
        ensures
            r@ == old(self).spec_pending(),
            final(self).spec_pending() == Seq::<PolykitEvent>::empty(),
            final(self).spec_app() == old(self).spec_app(),
    {
        let mut drained: Vec<PolykitEvent> = Vec::new();
        core::mem::swap(&mut drained, &mut self.pending);
        drained
    }

    /// The app namespace, for lex topic formatting.
    pub fn app(&self) -> (r: &str)
        ensures
            r@ == self.spec_app(),
    {
        self.app.as_str()
    }
}

} // verus!

//! Governance widget data processors.
//!
//! Processors for the four reusable governance widgets, parameterized by
//! app and lex namespace. Each takes the raw stream data and the pending
//! events and produces a render-ready payload whose data is the stream data
//! with the relevant events folded in, oldest first.

use vstd::prelude::*;
use vstd::string::StringExecFns;
use crate::event_bus::{PolykitEvent, ReviewAction};
use crate::json::{with_field, JsonValue, JsonView};
use crate::widget_data::{apply_tag_filters, tag_filter_fold, WidgetPayload};

verus! {

broadcast use crate::json::lemma_entry_views_of;

/// Review queue processor; subscribes to `{namespace}/eslm/classification`.
#[derive(Debug, Clone)]
pub struct EslmReviewQueueProcessor {
    pub app: String,
    pub namespace: String,
}

/// Sanitization log processor; subscribes to `{namespace}/eslm/sanitization`.
#[derive(Debug, Clone)]
pub struct SanitizationLogProcessor {
    pub app: String,
    pub namespace: String,
}

/// Feedback dashboard processor; subscribes to `{namespace}/eslm/classification`.
#[derive(Debug, Clone)]
pub struct EslmFeedbackProcessor {
    pub app: String,
    pub namespace: String,
}

/// Recommendations processor; subscribes to `{namespace}/eslm/recommendation`.
#[derive(Debug, Clone)]
pub struct EsnAiRecommendationsProcessor {
    pub app: String,
    pub namespace: String,
}

/// The name of a review action, as the review widgets record it.
pub open spec fn review_action_name(action: ReviewAction) -> Seq<char> {
    match action {
        ReviewAction::Accept => "Accept"@,
        ReviewAction::Override => "Override"@,
        ReviewAction::Flag => "Flag"@,
    }
}

/// A completed review as a JSON shape: its action name and classification.
pub open spec fn last_review_view(action: ReviewAction, classification: Seq<char>) -> JsonView {
    JsonView::Object(
        seq![
            ("action"@, JsonView::Str(review_action_name(action))),
            ("classification"@, JsonView::Str(classification)),
        ],
    )
}

/// Data after every completed review has set the `last_review` field,
/// oldest event first.
pub open spec fn last_review_fold(data: JsonView, events: Seq<PolykitEvent>) -> JsonView
    decreases events.len(),
{
    if events.len() == 0 {
        data
    } else {
        let next = match events[0] {
            PolykitEvent::ReviewCompleted { action, classification, .. } => with_field(
                data,
                "last_review"@,
                last_review_view(action, classification@),
            ),
            _ => data,
        };
        last_review_fold(next, events.skip(1))
    }
}

/// Data after every deviation selection has set the correlated metric and
/// circuit fields, oldest event first.
pub open spec fn correlated_fold(data: JsonView, events: Seq<PolykitEvent>) -> JsonView
    decreases events.len(),
{
    if events.len() == 0 {
        data
    } else {
        let next = match events[0] {
            PolykitEvent::DeviationSelect { metric, circuit, .. } => with_field(
                with_field(data, "correlated_metric"@, JsonView::Str(metric@)),
                "correlated_circuit"@,
                JsonView::Str(circuit@),
            ),
            _ => data,
        };
        correlated_fold(next, events.skip(1))
    }
}

fn review_action_str(action: &ReviewAction) -> (r: &'static str)
    ensures
        r@ == review_action_name(*action),
{
    match action {
        ReviewAction::Accept => "Accept",
        ReviewAction::Override => "Override",
        ReviewAction::Flag => "Flag",
    }
}

fn last_review_value(action: &ReviewAction, classification: &String) -> (r: JsonValue)
    ensures
        r@ == last_review_view(*action, classification@),
{
    let name = review_action_str(action);
    let mut entries: Vec<(String, JsonValue)> = Vec::new();
    entries.push(("action".to_owned(), JsonValue::Str(name.to_owned())));
    entries.push(("classification".to_owned(), JsonValue::Str(classification.clone())));
    proof {
        assert(crate::json::entry_views_of(entries@) =~= seq![
            ("action"@, JsonView::Str(review_action_name(*action))),
            ("classification"@, JsonView::Str(classification@)),
        ]);
    }
    JsonValue::Object(entries)
}

impl EslmReviewQueueProcessor {
    pub fn widget_type(&self) -> (r: &'static str)
        ensures
            r@ == "polykit-eslm-review-queue"@,
    {
        "polykit-eslm-review-queue"
    }

    /// Fold the pending classification filters into the stream data.
    pub fn process(&mut self, stream_data: &JsonValue, events: &[PolykitEvent]) -> (r:
        WidgetPayload)
        ensures
            r.widget_id@ == old(self).app@ + "-eslm-review-queue"@,
            r.data@ == tag_filter_fold(stream_data@, events@, "classification_filter"@),
            r.dirty,
            *final(self) == *old(self),
    {
        let mut data = stream_data.clone();
        apply_tag_filters(&mut data, events, "classification_filter");
        let mut widget_id = self.app.clone();
        widget_id.append("-eslm-review-queue");
        WidgetPayload { widget_id, data, dirty: true }
    }
}

impl SanitizationLogProcessor {
    pub fn widget_type(&self) -> (r: &'static str)
        ensures
            r@ == "polykit-sanitization-log"@,
    {
        "polykit-sanitization-log"
    }

    /// Fold the pending time-range changes into the stream data.
    pub fn process(&mut self, stream_data: &JsonValue, events: &[PolykitEvent]) -> (r:
        WidgetPayload)
        ensures
            r.widget_id@ == old(self).app@ + "-sanitization-log"@,
            r.data@ == crate::widget_data::time_filter_fold(stream_data@, events@),
            r.dirty,
            *final(self) == *old(self),
    {
        let mut data = stream_data.clone();
        crate::widget_data::apply_time_filters(&mut data, events);
        let mut widget_id = self.app.clone();
        widget_id.append("-sanitization-log");
        WidgetPayload { widget_id, data, dirty: true }
    }
}

impl EslmFeedbackProcessor {
    pub fn widget_type(&self) -> (r: &'static str)
        ensures
            r@ == "polykit-eslm-feedback"@,
    {
        "polykit-eslm-feedback"
    }

    /// Fold the pending completed reviews into the stream data.
    #[verifier::loop_isolation(false)]
    pub fn process(&mut self, stream_data: &JsonValue, events: &[PolykitEvent]) -> (r:
        WidgetPayload)
        ensures
            r.widget_id@ == old(self).app@ + "-eslm-feedback"@,
            r.data@ == last_review_fold(stream_data@, events@),
            r.dirty,
            *final(self) == *old(self),
    {
        let mut data = stream_data.clone();
        let n = events.len();
        let mut i: usize = 0;
        proof {
            assert(events@.skip(0) =~= events@);
        }
        while i < n
            invariant
                i <= n,
                last_review_fold(stream_data@, events@) == last_review_fold(
                    data@,
                    events@.skip(i as int),
                ),
            decreases n - i,
        {
            proof {
                assert(events@.skip(i as int)[0] == events@[i as int]);
                assert(events@.skip(i as int).skip(1) =~= events@.skip(i as int + 1));
            }
            match &events[i] {
                PolykitEvent::ReviewCompleted { action, classification, .. } => {
                    let value = last_review_value(action, classification);
                    data.set_field("last_review", value);
                },
                _ => {},
            }
            i += 1;
        }
        proof {
            assert(events@.skip(n as int) =~= Seq::<PolykitEvent>::empty());
        }
        let mut widget_id = self.app.clone();
        widget_id.append("-eslm-feedback");
        WidgetPayload { widget_id, data, dirty: true }
    }
}

impl EsnAiRecommendationsProcessor {
    pub fn widget_type(&self) -> (r: &'static str)
        ensures
            r@ == "polykit-esn-ai-recommendations"@,
    {
        "polykit-esn-ai-recommendations"
    }

    /// Highlight the recommendations correlated with the selected deviation.
    #[verifier::loop_isolation(false)]
    pub fn process(&mut self, stream_data: &JsonValue, events: &[PolykitEvent]) -> (r:
        WidgetPayload)
        ensures
            r.widget_id@ == old(self).app@ + "-esn-ai-recommendations"@,
            r.data@ == correlated_fold(stream_data@, events@),
            r.dirty,
            *final(self) == *old(self),
    {
        let mut data = stream_data.clone();
        let n = events.len();
        let mut i: usize = 0;
        proof {
            assert(events@.skip(0) =~= events@);
        }
        while i < n
            invariant
                i <= n,
                correlated_fold(stream_data@, events@) == correlated_fold(
                    data@,
                    events@.skip(i as int),
                ),
            decreases n - i,
        {
            proof {
                assert(events@.skip(i as int)[0] == events@[i as int]);
                assert(events@.skip(i as int).skip(1) =~= events@.skip(i as int + 1));
            }
            match &events[i] {
                PolykitEvent::DeviationSelect { metric, circuit, .. } => {
                    data.set_field("correlated_metric", JsonValue::Str(metric.clone()));
                    data.set_field("correlated_circuit", JsonValue::Str(circuit.clone()));
                },
                _ => {},
            }
            i += 1;
        }
        proof {
            assert(events@.skip(n as int) =~= Seq::<PolykitEvent>::empty());
        }
        let mut widget_id = self.app.clone();
        widget_id.append("-esn-ai-recommendations");
        WidgetPayload { widget_id, data, dirty: true }
    }
}

} // verus!

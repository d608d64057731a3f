//! Observability widget data processors.
//!
//! Processors for the five reusable observability widgets, parameterized by
//! app and lex namespace, so they work for any Poly app.

use vstd::prelude::*;
use vstd::string::StringExecFns;
use crate::event_bus::PolykitEvent;
use crate::json::{with_field, JsonValue, JsonView};
use crate::widget_data::{
    apply_tag_filters, apply_time_filters, opt_str_view, tag_filter_fold, time_filter_fold,
    WidgetPayload,
};

verus! {

/// Deviation feed processor; subscribes to `{namespace}/metrics/deviations`.
#[derive(Debug, Clone)]
pub struct DeviationFeedProcessor {
    pub app: String,
    pub namespace: String,
}

/// Capacity forecast processor; subscribes to `{namespace}/capacity`.
#[derive(Debug, Clone)]
pub struct CapacityForecastProcessor {
    pub app: String,
    pub namespace: String,
}

/// SLI dashboard processor; subscribes to `{namespace}/telemetry/sli`.
#[derive(Debug, Clone)]
pub struct SliDashboardProcessor {
    pub app: String,
    pub namespace: String,
}

/// Circuit health processor; subscribes to `{namespace}/telemetry`.
#[derive(Debug, Clone)]
pub struct CircuitHealthProcessor {
    pub app: String,
    pub namespace: String,
}

/// Incident timeline processor; subscribes to `{namespace}/incidents`.
#[derive(Debug, Clone)]
pub struct IncidentTimelineProcessor {
    pub app: String,
    pub namespace: String,
}

/// Data after every investigate event has set the `focused_circuit` field,
/// oldest event first.
pub open spec fn focused_circuit_fold(data: JsonView, events: Seq<PolykitEvent>) -> JsonView
    decreases events.len(),
{
    if events.len() == 0 {
        data
    } else {
        let next = match events[0] {
            PolykitEvent::InvestigateMetric { circuit, .. } => with_field(
                data,
                "focused_circuit"@,
                opt_str_view(circuit),
            ),
            _ => data,
        };
        focused_circuit_fold(next, events.skip(1))
    }
}

impl DeviationFeedProcessor {
    pub fn widget_type(&self) -> (r: &'static str)
        ensures
            r@ == "polykit-deviation-feed"@,
    {
        "polykit-deviation-feed"
    }

    /// Pass the deviation feed through; filtering the feed by the selected
    /// classification happens in the host store, not in this core.
    pub fn process(&mut self, stream_data: &JsonValue, events: &[PolykitEvent]) -> (r:
        WidgetPayload)
        ensures
            r.widget_id@ == old(self).app@ + "-deviation-feed"@,
            r.data@ == stream_data@,
            r.dirty,
            *final(self) == *old(self),
    {
        let _ = events;
        let data = stream_data.clone();
        let mut widget_id = self.app.clone();
        widget_id.append("-deviation-feed");
        WidgetPayload { widget_id, data, dirty: true }
    }
}

impl CapacityForecastProcessor {
    pub fn widget_type(&self) -> (r: &'static str)
        ensures
            r@ == "polykit-capacity-forecast"@,
    {
        "polykit-capacity-forecast"
    }

    /// Highlight the tier selected by classification-filter events.
    pub fn process(&mut self, stream_data: &JsonValue, events: &[PolykitEvent]) -> (r:
        WidgetPayload)
        ensures
            r.widget_id@ == old(self).app@ + "-capacity-forecast"@,
            r.data@ == tag_filter_fold(stream_data@, events@, "highlighted_tier"@),
            r.dirty,
            *final(self) == *old(self),
    {
        let mut data = stream_data.clone();
        apply_tag_filters(&mut data, events, "highlighted_tier");
        let mut widget_id = self.app.clone();
        widget_id.append("-capacity-forecast");
        WidgetPayload { widget_id, data, dirty: true }
    }
}

impl SliDashboardProcessor {
    pub fn widget_type(&self) -> (r: &'static str)
        ensures
            r@ == "polykit-sli-dashboard"@,
    {
        "polykit-sli-dashboard"
    }

    /// Pass the SLI data through unchanged.
    pub fn process(&mut self, stream_data: &JsonValue, _events: &[PolykitEvent]) -> (r:
        WidgetPayload)
        ensures
            r.widget_id@ == old(self).app@ + "-sli-dashboard"@,
            r.data@ == stream_data@,
            r.dirty,
            *final(self) == *old(self),
    {
        let data = stream_data.clone();
        let mut widget_id = self.app.clone();
        widget_id.append("-sli-dashboard");
        WidgetPayload { widget_id, data, dirty: true }
    }
}

impl CircuitHealthProcessor {
    pub fn widget_type(&self) -> (r: &'static str)
        ensures
            r@ == "polykit-circuit-health"@,
    {
        "polykit-circuit-health"
    }

    /// Focus the circuit named by investigate events.
    #[verifier::loop_isolation(false)]
    pub fn process(&mut self, stream_data: &JsonValue, events: &[PolykitEvent]) -> (r:
        WidgetPayload)
        ensures
            r.widget_id@ == old(self).app@ + "-circuit-health"@,
            r.data@ == focused_circuit_fold(stream_data@, events@),
            r.dirty,
            *final(self) == *old(self),
    {
        let mut data = stream_data.clone();
        let n = events.len();
        let mut i: usize = 0;
        proof {
            assert(events@.skip(0) =~= events@);
        }
        while i < n
            invariant
                i <= n,
                focused_circuit_fold(stream_data@, events@) == focused_circuit_fold(
                    data@,
                    events@.skip(i as int),
                ),
            decreases n - i,
        {
            proof {
                assert(events@.skip(i as int)[0] == events@[i as int]);
                assert(events@.skip(i as int).skip(1) =~= events@.skip(i as int + 1));
            }
            match &events[i] {
                PolykitEvent::InvestigateMetric { circuit, .. } => {
                    let value = crate::widget_data::opt_str_value(circuit);
                    data.set_field("focused_circuit", value);
                },
                _ => {},
            }
            i += 1;
        }
        proof {
            assert(events@.skip(n as int) =~= Seq::<PolykitEvent>::empty());
        }
        let mut widget_id = self.app.clone();
        widget_id.append("-circuit-health");
        WidgetPayload { widget_id, data, dirty: true }
    }
}

impl IncidentTimelineProcessor {
    pub fn widget_type(&self) -> (r: &'static str)
        ensures
            r@ == "polykit-incident-timeline"@,
    {
        "polykit-incident-timeline"
    }

    /// Fold the pending time-range changes into the incident data.
    pub fn process(&mut self, stream_data: &JsonValue, events: &[PolykitEvent]) -> (r:
        WidgetPayload)
        ensures
            r.widget_id@ == old(self).app@ + "-incident-timeline"@,
            r.data@ == time_filter_fold(stream_data@, events@),
            r.dirty,
            *final(self) == *old(self),
    {
        let mut data = stream_data.clone();
        apply_time_filters(&mut data, events);
        let mut widget_id = self.app.clone();
        widget_id.append("-incident-timeline");
        WidgetPayload { widget_id, data, dirty: true }
    }
}

} // verus!

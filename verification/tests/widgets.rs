use polykit::event_bus::{PolykitEvent, ReviewAction};
use polykit::governance::{
    EslmFeedbackProcessor, EslmReviewQueueProcessor, EsnAiRecommendationsProcessor,
    SanitizationLogProcessor,
};
use polykit::json::JsonValue;
use polykit::observability::{
    CapacityForecastProcessor, CircuitHealthProcessor, DeviationFeedProcessor,
    IncidentTimelineProcessor, SliDashboardProcessor,
};

fn obj(entries: Vec<(&str, JsonValue)>) -> JsonValue {
    JsonValue::Object(entries.into_iter().map(|(k, v)| (k.to_string(), v)).collect())
}

fn str_val(s: &str) -> JsonValue {
    JsonValue::Str(s.to_string())
}

#[test]
fn review_queue_applies_classification_filter() {
    let mut p = EslmReviewQueueProcessor { app: "polydata".to_string(), namespace: "ns".to_string() };
    assert_eq!(p.widget_type(), "polykit-eslm-review-queue");
    let data = obj(vec![("items", JsonValue::Array(vec![]))]);
    let events = vec![PolykitEvent::ClassificationFilter { tag: Some("pii".to_string()) }];
    let payload = p.process(&data, &events);
    assert_eq!(payload.widget_id, "polydata-eslm-review-queue");
    assert!(payload.dirty);
    assert_eq!(
        payload.data,
        obj(vec![
            ("items", JsonValue::Array(vec![])),
            ("classification_filter", str_val("pii")),
        ])
    );
}

#[test]
fn review_queue_clears_filter_with_none_tag() {
    let mut p = EslmReviewQueueProcessor { app: "a".to_string(), namespace: "ns".to_string() };
    let payload = p.process(
        &obj(vec![]),
        &[PolykitEvent::ClassificationFilter { tag: None }],
    );
    assert_eq!(payload.data, obj(vec![("classification_filter", JsonValue::Null)]));
}

#[test]
fn sanitization_log_applies_time_filter() {
    let mut p = SanitizationLogProcessor { app: "a".to_string(), namespace: "ns".to_string() };
    assert_eq!(p.widget_type(), "polykit-sanitization-log");
    let payload = p.process(&obj(vec![]), &[PolykitEvent::TimeRange { from_ms: 10, to_ms: 20 }]);
    assert_eq!(payload.widget_id, "a-sanitization-log");
    assert_eq!(
        payload.data,
        obj(vec![(
            "time_filter",
            obj(vec![("from", JsonValue::UInt(10)), ("to", JsonValue::UInt(20))]),
        )])
    );
}

#[test]
fn feedback_records_the_last_review() {
    let mut p = EslmFeedbackProcessor { app: "a".to_string(), namespace: "ns".to_string() };
    assert_eq!(p.widget_type(), "polykit-eslm-feedback");
    let payload = p.process(
        &obj(vec![]),
        &[PolykitEvent::ReviewCompleted {
            action: ReviewAction::Accept,
            sample_hash: "h".to_string(),
            classification: "CONFIDENTIAL".to_string(),
        }],
    );
    assert_eq!(
        payload.data,
        obj(vec![(
            "last_review",
            obj(vec![
                ("action", str_val("Accept")),
                ("classification", str_val("CONFIDENTIAL")),
            ]),
        )])
    );
}

#[test]
fn recommendations_highlight_the_selected_deviation() {
    let mut p = EsnAiRecommendationsProcessor { app: "a".to_string(), namespace: "ns".to_string() };
    assert_eq!(p.widget_type(), "polykit-esn-ai-recommendations");
    let payload = p.process(
        &obj(vec![]),
        &[PolykitEvent::DeviationSelect {
            metric: "latency".to_string(),
            circuit: "ingest".to_string(),
            z_score_bits: 0,
            timestamp_ms: 1,
        }],
    );
    assert_eq!(
        payload.data,
        obj(vec![
            ("correlated_metric", str_val("latency")),
            ("correlated_circuit", str_val("ingest")),
        ])
    );
}

#[test]
fn capacity_forecast_highlights_the_tier() {
    let mut p = CapacityForecastProcessor { app: "a".to_string(), namespace: "ns".to_string() };
    assert_eq!(p.widget_type(), "polykit-capacity-forecast");
    let payload = p.process(
        &obj(vec![]),
        &[PolykitEvent::ClassificationFilter { tag: Some("RESTRICTED".to_string()) }],
    );
    assert_eq!(payload.data, obj(vec![("highlighted_tier", str_val("RESTRICTED"))]));
}

#[test]
fn circuit_health_focuses_the_circuit() {
    let mut p = CircuitHealthProcessor { app: "a".to_string(), namespace: "ns".to_string() };
    assert_eq!(p.widget_type(), "polykit-circuit-health");
    let payload = p.process(
        &obj(vec![]),
        &[PolykitEvent::InvestigateMetric {
            metric: "m".to_string(),
            circuit: Some("c1".to_string()),
            category: "latency".to_string(),
            recommendation_id: "r1".to_string(),
        }],
    );
    assert_eq!(payload.data, obj(vec![("focused_circuit", str_val("c1"))]));
}

#[test]
fn incident_timeline_applies_time_filter() {
    let mut p = IncidentTimelineProcessor { app: "a".to_string(), namespace: "ns".to_string() };
    assert_eq!(p.widget_type(), "polykit-incident-timeline");
    let payload = p.process(&obj(vec![]), &[PolykitEvent::TimeRange { from_ms: 3, to_ms: 4 }]);
    assert_eq!(payload.widget_id, "a-incident-timeline");
    assert!(matches!(payload.data, JsonValue::Object(_)));
}

#[test]
fn passthrough_processors_leave_data_unchanged() {
    let data = obj(vec![("metric", JsonValue::Int(5))]);
    let events = vec![PolykitEvent::FilterReset];
    let mut sli = SliDashboardProcessor { app: "a".to_string(), namespace: "ns".to_string() };
    assert_eq!(sli.widget_type(), "polykit-sli-dashboard");
    let p1 = sli.process(&data, &events);
    assert_eq!(p1.data, data);
    assert_eq!(p1.widget_id, "a-sli-dashboard");
    let mut feed = DeviationFeedProcessor { app: "a".to_string(), namespace: "ns".to_string() };
    assert_eq!(feed.widget_type(), "polykit-deviation-feed");
    let p2 = feed.process(&data, &events);
    assert_eq!(p2.data, data);
    assert_eq!(p2.widget_id, "a-deviation-feed");
}

#[test]
fn later_events_override_earlier_ones() {
    let mut p = EslmReviewQueueProcessor { app: "a".to_string(), namespace: "ns".to_string() };
    let payload = p.process(
        &obj(vec![]),
        &[
            PolykitEvent::ClassificationFilter { tag: Some("first".to_string()) },
            PolykitEvent::ClassificationFilter { tag: Some("second".to_string()) },
        ],
    );
    assert_eq!(payload.data, obj(vec![("classification_filter", str_val("second"))]));
}

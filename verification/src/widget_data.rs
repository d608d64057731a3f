//! Widget data pipeline.
//!
//! A widget processor turns raw stream data plus the pending events into a
//! render-ready payload for the host layer. This module holds the payload
//! type and the event folds the processors share; the processors for the
//! governance and observability widget families live in their own modules,
//! and the host wires them into its render loop.

use vstd::prelude::*;
use crate::event_bus::PolykitEvent;
use crate::json::{with_field, JsonValue, JsonView};

verus! {

broadcast use crate::json::lemma_entry_views_of;

/// Render-ready payload for one widget instance.
#[derive(Debug, Clone)]
pub struct WidgetPayload {
    pub widget_id: String,
    pub data: JsonValue,
    /// The widget should re-render.
    pub dirty: bool,
}

/// An optional string as a JSON shape: the string, or null.
pub open spec fn opt_str_view(tag: Option<String>) -> JsonView {
    match tag {
        Some(s) => JsonView::Str(s@),
        None => JsonView::Null,
    }
}

/// A time-range filter as a JSON shape: `{"from": from_ms, "to": to_ms}`.
pub open spec fn time_filter_view(from_ms: u64, to_ms: u64) -> JsonView {
    JsonView::Object(
        seq![("from"@, JsonView::UInt(from_ms)), ("to"@, JsonView::UInt(to_ms))],
    )
}

/// Data after every classification-filter event has set the tag under this
/// key, oldest event first.
pub open spec fn tag_filter_fold(
    data: JsonView,
    events: Seq<PolykitEvent>,
    key: Seq<char>,
) -> JsonView
    decreases events.len(),
{
    if events.len() == 0 {
        data
    } else {
        let next = match events[0] {
            PolykitEvent::ClassificationFilter { tag } => with_field(
                data,
                key,
                opt_str_view(tag),
            ),
            _ => data,
        };
        tag_filter_fold(next, events.skip(1), key)
    }
}

/// Data after every time-range event has set the `time_filter` field,
/// oldest event first.
pub open spec fn time_filter_fold(data: JsonView, events: Seq<PolykitEvent>) -> JsonView
    decreases events.len(),
{
    if events.len() == 0 {
        data
    } else {
        let next = match events[0] {
            PolykitEvent::TimeRange { from_ms, to_ms } => with_field(
                data,
                "time_filter"@,
                time_filter_view(from_ms, to_ms),
            ),
            _ => data,
        };
        time_filter_fold(next, events.skip(1))
    }
}

/// An optional string as a JSON value.
pub fn opt_str_value(tag: &Option<String>) -> (r: JsonValue)
    ensures
        r@ == opt_str_view(*tag),
{
    match tag {
        Some(s) => JsonValue::Str(s.clone()),
        None => JsonValue::Null,
    }
}

/// A time-range filter as a JSON value.
pub fn time_filter_value(from_ms: u64, to_ms: u64) -> (r: JsonValue)
    ensures
        r@ == time_filter_view(from_ms, to_ms),
{
    let mut entries: Vec<(String, JsonValue)> = Vec::new();
    entries.push(("from".to_owned(), JsonValue::UInt(from_ms)));
    entries.push(("to".to_owned(), JsonValue::UInt(to_ms)));
    proof {
        assert(crate::json::entry_views_of(entries@) =~= seq![
            ("from"@, JsonView::UInt(from_ms)),
            ("to"@, JsonView::UInt(to_ms)),
        ]);
    }
    JsonValue::Object(entries)
}

/// Apply every classification-filter event to the data under this key.
#[verifier::loop_isolation(false)]
pub fn apply_tag_filters(data: &mut JsonValue, events: &[PolykitEvent], key: &str)
    ensures
        final(data)@ == tag_filter_fold(old(data)@, events@, key@),
{
    let n = events.len();
    let mut i: usize = 0;
    proof {
        assert(events@.skip(0) =~= events@);
    }
    while i < n
        invariant
            i <= n,
            tag_filter_fold(old(data)@, events@, key@) == tag_filter_fold(
                data@,
                events@.skip(i as int),
                key@,
            ),
        decreases n - i,
    {
        proof {
            assert(events@.skip(i as int)[0] == events@[i as int]);
            assert(events@.skip(i as int).skip(1) =~= events@.skip(i as int + 1));
        }
        match &events[i] {
            PolykitEvent::ClassificationFilter { tag } => {
                let value = opt_str_value(tag);
                data.set_field(key, value);
            },
            _ => {},
        }
        i += 1;
    }
    proof {
        assert(events@.skip(n as int) =~= Seq::<PolykitEvent>::empty());
    }
}

/// Apply every time-range event to the data's `time_filter` field.
#[verifier::loop_isolation(false)]
pub fn apply_time_filters(data: &mut JsonValue, events: &[PolykitEvent])
    ensures
        final(data)@ == time_filter_fold(old(data)@, events@),
{
    let n = events.len();
    let mut i: usize = 0;
    proof {
        assert(events@.skip(0) =~= events@);
    }
    while i < n
        invariant
            i <= n,
            time_filter_fold(old(data)@, events@) == time_filter_fold(
                data@,
                events@.skip(i as int),
            ),
        decreases n - i,
    {
        proof {
            assert(events@.skip(i as int)[0] == events@[i as int]);
            assert(events@.skip(i as int).skip(1) =~= events@.skip(i as int + 1));
        }
        match &events[i] {
            PolykitEvent::TimeRange { from_ms, to_ms } => {
                let value = time_filter_value(*from_ms, *to_ms);
                data.set_field("time_filter", value);
            },
            _ => {},
        }
        i += 1;
    }
    proof {
        assert(events@.skip(n as int) =~= Seq::<PolykitEvent>::empty());
    }
}

} // verus!

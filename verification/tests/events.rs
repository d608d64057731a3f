use polykit::event_bus::{EventBus, PolykitEvent, ReviewAction};

#[test]
fn emit_then_drain_empties_the_bus() {
    let mut bus = EventBus::new("polydata");
    assert_eq!(bus.app(), "polydata");
    bus.emit(PolykitEvent::FilterReset);
    bus.emit(PolykitEvent::TimeRange { from_ms: 1, to_ms: 2 });
    let drained = bus.drain();
    assert_eq!(drained.len(), 2);
    assert!(matches!(drained[0], PolykitEvent::FilterReset));
    assert!(matches!(drained[1], PolykitEvent::TimeRange { from_ms: 1, to_ms: 2 }));
    assert_eq!(bus.drain().len(), 0);
    assert_eq!(bus.app(), "polydata");
}

#[test]
fn review_actions_compare() {
    assert_eq!(ReviewAction::Accept, ReviewAction::Accept);
    assert_ne!(ReviewAction::Accept, ReviewAction::Flag);
}

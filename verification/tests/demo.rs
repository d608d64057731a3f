use polykit::demo::{is_demo_mode, FixtureRegistry};
use polykit::json::JsonValue;

#[test]
fn demo_mode_is_off_by_default() {
    assert!(!is_demo_mode());
}

#[test]
fn fixtures_are_served_only_in_demo_mode() {
    let mut off = FixtureRegistry::new(false);
    off.register("w1", JsonValue::Int(1));
    assert!(!off.is_demo());
    assert!(off.get("w1").is_none());

    let mut on = FixtureRegistry::new(true);
    on.register("w1", JsonValue::Int(1));
    assert!(on.is_demo());
    assert_eq!(on.get("w1"), Some(&JsonValue::Int(1)));
    assert!(on.get("w2").is_none());

    // Re-registration replaces the fixture.
    on.register("w1", JsonValue::Bool(false));
    assert_eq!(on.get("w1"), Some(&JsonValue::Bool(false)));
}

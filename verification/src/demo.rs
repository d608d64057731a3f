//! Demo fixture engine.
//!
//! Provides mock data for widgets when an app runs in demo mode. Fixtures
//! are registered at init time in the same shape as live data.

use vstd::prelude::*;
use crate::json::JsonValue;
use crate::strmap::StrMap;

verus! {

/// Demo mode detection; off unless the host bridge enables it at init.
pub fn is_demo_mode() -> (r: bool)
    ensures
        !r,
{
    false
}

/// A demo fixture for one widget.
#[derive(Debug, Clone)]
pub struct Fixture {
    pub widget_id: String,
    pub data: JsonValue,
}

/// Fixture registry; apps register fixtures at init time.
pub struct FixtureRegistry {
    fixtures: StrMap<JsonValue>,
    demo_mode: bool,
}

impl FixtureRegistry {
    /// Whether the registry serves fixtures at all.
    pub closed spec fn spec_demo(self) -> bool {
        self.demo_mode
    }

    /// The registered fixture data by widget id.
    pub closed spec fn spec_fixtures(self) -> Map<Seq<char>, JsonValue> {
        self.fixtures@
    }

    pub fn new(demo_mode: bool) -> (r: Self)
        ensures
            r.spec_demo() == demo_mode,
            r.spec_fixtures() == Map::<Seq<char>, JsonValue>::empty(),
    {
        FixtureRegistry { fixtures: StrMap::new(), demo_mode }
    }

    /// Register fixture data for a widget.
    pub fn register(&mut self, widget_id: &str, data: JsonValue)
        ensures
            final(self).spec_fixtures() == old(self).spec_fixtures().insert(widget_id@, data),
            final(self).spec_demo() == old(self).spec_demo(),
    {
        self.fixtures.set(widget_id, data);
    }

    /// Fixture data for a widget: `None` outside demo mode or when no
    /// fixture was registered.
    pub fn get(&self, widget_id: &str) -> (r: Option<&JsonValue>)
        ensures
            match r {
                Some(d) => self.spec_demo() && self.spec_fixtures().contains_key(widget_id@)
                    && *d == self.spec_fixtures()[widget_id@],
                None => !self.spec_demo() || !self.spec_fixtures().contains_key(widget_id@),
            },
    {
        if !self.demo_mode {
            return None;
        }
        self.fixtures.get(widget_id)
    }

    pub fn is_demo(&self) -> (r: bool)
        ensures
            r == self.spec_demo(),
    {
        self.demo_mode
    }
}

} // verus!

//! A JSON-shaped value tree.
//!
//! Widget payloads, demo fixtures, query rows and the sanitization pipeline
//! all move JSON-shaped data around. This model holds such data as plain
//! values the verifier can reason about: objects are ordered key/value
//! lists, and a number that is not an integer is carried as its IEEE-754
//! bit pattern, which the logic never interprets. The host bridge converts
//! between this tree and its serialized form at the boundary.

use vstd::prelude::*;

verus! {

broadcast use vstd::seq::axiom_seq_index_decreases, vstd::std_specs::vec::axiom_vec_index_decreases, vstd::std_specs::vec::axiom_vec_decreases_to_view;

/// A JSON-shaped value.
#[derive(Debug, PartialEq)]
pub enum JsonValue {
    Null,
    Bool(bool),
    Int(i64),
    /// A non-negative number beyond the signed range.
    UInt(u64),
    /// IEEE-754 bit pattern of a non-integral number, carried uninterpreted.
    Float(u64),
    Str(String),
    Array(Vec<JsonValue>),
    Object(Vec<(String, JsonValue)>),
}

/// The mathematical shape of a [`JsonValue`].
pub enum JsonView {
    Null,
    Bool(bool),
    Int(i64),
    UInt(u64),
    Float(u64),
    Str(Seq<char>),
    Array(Seq<JsonView>),
    Object(Seq<(Seq<char>, JsonView)>),
}

/// The mathematical shape of a value tree.
pub open spec fn view_of(v: JsonValue) -> JsonView
    decreases v,
    via view_of_decreases
{
    match v {
        JsonValue::Null => JsonView::Null,
        JsonValue::Bool(b) => JsonView::Bool(b),
        JsonValue::Int(n) => JsonView::Int(n),
        JsonValue::UInt(n) => JsonView::UInt(n),
        JsonValue::Float(bits) => JsonView::Float(bits),
        JsonValue::Str(s) => JsonView::Str(s@),
        JsonValue::Array(items) => JsonView::Array(views_of(items@)),
        JsonValue::Object(entries) => JsonView::Object(entry_views_of(entries@)),
    }
}

/// The shapes of a sequence of values, in order.
pub open spec fn views_of(s: Seq<JsonValue>) -> Seq<JsonView>
    decreases s,
    via views_of_decreases
{
    if s.len() == 0 {
        Seq::empty()
    } else {
        seq![view_of(s[0])] + views_of(s.skip(1))
    }
}

/// The shapes of an object's entries, in order.
pub open spec fn entry_views_of(s: Seq<(String, JsonValue)>) -> Seq<(Seq<char>, JsonView)>
    decreases s,
    via entry_views_of_decreases
{
    if s.len() == 0 {
        Seq::empty()
    } else {
        seq![(s[0].0@, view_of(s[0].1))] + entry_views_of(s.skip(1))
    }
}

#[via_fn]
proof fn view_of_decreases(v: JsonValue) {
    match v {
        JsonValue::Array(items) => {
            assert(decreases_to!(v => items));
            assert(decreases_to!(items => items@));
        },
        JsonValue::Object(entries) => {
            assert(decreases_to!(v => entries));
            assert(decreases_to!(entries => entries@));
        },
        _ => {},
    }
}

#[via_fn]
proof fn views_of_decreases(s: Seq<JsonValue>) {
    if s.len() > 0 {
        assert(decreases_to!(s => s[0]));
        assert(decreases_to!(s => s.subrange(1, s.len() as int)));
        assert(s.skip(1) == s.subrange(1, s.len() as int));
    }
}

#[via_fn]
proof fn entry_views_of_decreases(s: Seq<(String, JsonValue)>) {
    if s.len() > 0 {
        assert(decreases_to!(s => s[0]));
        assert(decreases_to!(s[0] => s[0].1));
        assert(decreases_to!(s => s.subrange(1, s.len() as int)));
        assert(s.skip(1) == s.subrange(1, s.len() as int));
    }
}

/// The shape sequence has one shape per value, in place.
pub broadcast proof fn lemma_views_of(s: Seq<JsonValue>)
    ensures
        (#[trigger] views_of(s)).len() == s.len(),
        forall|i: int| 0 <= i < s.len() ==> views_of(s)[i] == view_of(s[i]),
    decreases s.len(),
{
    if s.len() > 0 {
        lemma_views_of(s.skip(1));
    }
}

/// The entry-shape sequence has one pair per entry, in place.
pub broadcast proof fn lemma_entry_views_of(s: Seq<(String, JsonValue)>)
    ensures
        (#[trigger] entry_views_of(s)).len() == s.len(),
        forall|i: int|
            0 <= i < s.len() ==> entry_views_of(s)[i] == (s[i].0@, view_of(s[i].1)),
    decreases s.len(),
{
    if s.len() > 0 {
        lemma_entry_views_of(s.skip(1));
    }
}

impl View for JsonValue {
    type V = JsonView;

    open spec fn view(&self) -> JsonView {
        view_of(*self)
    }
}

/// The value an object's entry list binds to a key: the first entry with
/// that key wins.
pub open spec fn obj_get(entries: Seq<(Seq<char>, JsonView)>, key: Seq<char>) -> Option<
    JsonView,
>
    decreases entries.len(),
{
    if entries.len() == 0 {
        None
    } else if entries[0].0 == key {
        Some(entries[0].1)
    } else {
        obj_get(entries.skip(1), key)
    }
}

/// An entry list with a key bound to a value: the first entry with that key
/// is replaced, or the binding is appended when the key is new.
pub open spec fn obj_put(
    entries: Seq<(Seq<char>, JsonView)>,
    key: Seq<char>,
    value: JsonView,
) -> Seq<(Seq<char>, JsonView)>
    decreases entries.len(),
{
    if entries.len() == 0 {
        seq![(key, value)]
    } else if entries[0].0 == key {
        seq![(key, value)] + entries.skip(1)
    } else {
        seq![entries[0]] + obj_put(entries.skip(1), key, value)
    }
}

/// What setting a top-level field leaves behind: objects gain or replace
/// the binding, `Null` becomes a one-entry object, anything else is
/// untouched.
pub open spec fn with_field(v: JsonView, key: Seq<char>, value: JsonView) -> JsonView {
    match v {
        JsonView::Object(entries) => JsonView::Object(obj_put(entries, key, value)),
        JsonView::Null => JsonView::Object(seq![(key, value)]),
        _ => v,
    }
}

/// Where the key is first bound, `obj_put` replaces exactly that entry.
pub proof fn lemma_obj_put_at(s: Seq<(Seq<char>, JsonView)>, i: int, key: Seq<char>, value: JsonView)
    requires
        0 <= i < s.len(),
        s[i].0 == key,
        forall|a: int| 0 <= a < i ==> s[a].0 != key,
    ensures
        obj_put(s, key, value) == s.update(i, (key, value)),
    decreases i,
{
    if i == 0 {
        assert(obj_put(s, key, value) =~= s.update(0, (key, value)));
    } else {
        assert(forall|a: int| 0 <= a < i - 1 ==> s.skip(1)[a].0 != key);
        lemma_obj_put_at(s.skip(1), i - 1, key, value);
        assert(obj_put(s, key, value) =~= s.update(i, (key, value)));
    }
}

/// Where no entry carries the key, `obj_put` appends the binding.
pub proof fn lemma_obj_put_absent(s: Seq<(Seq<char>, JsonView)>, key: Seq<char>, value: JsonView)
    requires
        forall|a: int| 0 <= a < s.len() ==> s[a].0 != key,
    ensures
        obj_put(s, key, value) == s.push((key, value)),
    decreases s.len(),
{
    if s.len() == 0 {
        assert(obj_put(s, key, value) =~= s.push((key, value)));
    } else {
        assert(forall|a: int| 0 <= a < s.skip(1).len() ==> s.skip(1)[a].0 != key);
        lemma_obj_put_absent(s.skip(1), key, value);
        assert(obj_put(s, key, value) =~= s.push((key, value)));
    }
}

/// Where the key is first bound, `obj_get` returns that entry's value.
pub proof fn lemma_obj_get_at(s: Seq<(Seq<char>, JsonView)>, i: int, key: Seq<char>)
    requires
        0 <= i < s.len(),
        s[i].0 == key,
        forall|a: int| 0 <= a < i ==> s[a].0 != key,
    ensures
        obj_get(s, key) == Some(s[i].1),
    decreases i,
{
    if i > 0 {
        assert(forall|a: int| 0 <= a < i - 1 ==> s.skip(1)[a].0 != key);
        lemma_obj_get_at(s.skip(1), i - 1, key);
    }
}

/// Where no entry carries the key, `obj_get` returns nothing.
pub proof fn lemma_obj_get_absent(s: Seq<(Seq<char>, JsonView)>, key: Seq<char>)
    requires
        forall|a: int| 0 <= a < s.len() ==> s[a].0 != key,
    ensures
        obj_get(s, key) is None,
    decreases s.len(),
{
    if s.len() > 0 {
        assert(forall|a: int| 0 <= a < s.skip(1).len() ==> s.skip(1)[a].0 != key);
        lemma_obj_get_absent(s.skip(1), key);
    }
}

/// Deep copy of a value tree; the copy has the same shape.
#[verifier::loop_isolation(false)]
fn deep_copy(v: &JsonValue) -> (r: JsonValue)
    ensures
        r@ == v@,
    decreases v,
{
    broadcast use lemma_views_of, lemma_entry_views_of;

    match v {
        JsonValue::Null => JsonValue::Null,
        JsonValue::Bool(b) => JsonValue::Bool(*b),
        JsonValue::Int(n) => JsonValue::Int(*n),
        JsonValue::UInt(n) => JsonValue::UInt(*n),
        JsonValue::Float(bits) => JsonValue::Float(*bits),
        JsonValue::Str(s) => JsonValue::Str(s.clone()),
        JsonValue::Array(items) => {
            let mut out: Vec<JsonValue> = Vec::new();
            let n = items.len();
            let mut i: usize = 0;
            while i < n
                invariant
                    i <= n,
                    out@.len() == i,
                    forall|a: int| 0 <= a < i ==> out@[a]@ == items@[a]@,
                decreases n - i,
            {
                proof {
                    assert(decreases_to!(*v => *items));
                    assert(decreases_to!(*items => items@));
                    assert(decreases_to!(items@ => items@[i as int]));
                }
                out.push(deep_copy(&items[i]));
                i += 1;
            }
            proof {
                assert(views_of(out@) =~= views_of(items@));
            }
            JsonValue::Array(out)
        },
        JsonValue::Object(entries) => {
            let mut out: Vec<(String, JsonValue)> = Vec::new();
            let n = entries.len();
            let mut i: usize = 0;
            while i < n
                invariant
                    i <= n,
                    out@.len() == i,
                    forall|a: int|
                        0 <= a < i ==> out@[a].0@ == entries@[a].0@ && out@[a].1@
                            == entries@[a].1@,
                decreases n - i,
            {
                proof {
                    assert(decreases_to!(*v => *entries));
                    assert(decreases_to!(*entries => entries@));
                    assert(decreases_to!(entries@ => entries@[i as int]));
                    assert(decreases_to!(entries@[i as int] => entries@[i as int].1));
                }
                let key = entries[i].0.clone();
                let val = deep_copy(&entries[i].1);
                out.push((key, val));
                i += 1;
            }
            proof {
                assert(entry_views_of(out@) =~= entry_views_of(entries@));
            }
            JsonValue::Object(out)
        },
    }
}

impl Clone for JsonValue {
    /// The clone has the same shape as the original.
    fn clone(&self) -> (r: Self)
        ensures
            r@ == self@,
    {
        deep_copy(self)
    }
}

impl JsonValue {
    /// Set a top-level field: objects gain or replace the binding, `Null`
    /// becomes a one-entry object, any other value stays as it is.
    #[verifier::loop_isolation(false)]
    pub fn set_field(&mut self, key: &str, value: JsonValue)
        ensures
            final(self)@ == with_field(old(self)@, key@, value@),
    {
        broadcast use lemma_entry_views_of;

        match self {
            JsonValue::Null => {
                let mut entries: Vec<(String, JsonValue)> = Vec::new();
                entries.push((key.to_owned(), value));
                let obj = JsonValue::Object(entries);
                proof {
                    assert(entry_views_of(entries@) =~= seq![(key@, value@)]);
                }
                *self = obj;
            },
            JsonValue::Object(entries) => {
                let ghost es0 = entries@;
                let ghost vs0 = entry_views_of(es0);
                let k: String = key.to_owned();
                let n = entries.len();
                let mut i: usize = 0;
                while i < n
                    invariant
                        entries@ == es0,
                        i <= n,
                        n == es0.len(),
                        k@ == key@,
                        forall|a: int| 0 <= a < i ==> es0[a].0@ != key@,
                    decreases n - i,
                {
                    if entries[i].0 == k {
                        entries[i] = (k, value);
                        proof {
                            assert(entries@ == es0.update(i as int, entries@[i as int]));
                            assert(forall|a: int| 0 <= a < i ==> vs0[a].0 != key@);
                            assert(vs0[i as int].0 == key@);
                            lemma_obj_put_at(vs0, i as int, key@, value@);
                            assert(entry_views_of(entries@) =~= vs0.update(
                                i as int,
                                (key@, value@),
                            ));
                        }
                        return;
                    }
                    i += 1;
                }
                entries.push((k, value));
                proof {
                    assert(forall|a: int| 0 <= a < vs0.len() ==> vs0[a].0 != key@);
                    lemma_obj_put_absent(vs0, key@, value@);
                    assert(entry_views_of(entries@) =~= vs0.push((key@, value@)));
                }
            },
            _ => {},
        }
    }
}

} // verus!

//! The nesting bound: whether a value can be written from a given depth
//! without the depth counter running over.

use crate::value::map::{FieldMap, ValueMap};
use crate::value::ser::{fields_fit, fits};
use crate::value::{value_views, Fields, Struct, Value, ValueView};
use vstd::prelude::*;

verus! {

/// Whether every value of `items` [`fits`] at nesting `depth`.
fn items_fit(items: &Vec<Value>, depth: usize) -> (r: bool)
    ensures
        r == (forall|i: int| 0 <= i < items.len() ==> fits(#[trigger] value_views(items@)[i], depth as nat)),
    decreases value_views(items@), 0nat,
{
    let ghost views = value_views(items@);
    let mut i: usize = 0;
    while i < items.len()
        invariant
            i <= items.len(),
            views == value_views(items@),
            forall|j: int| 0 <= j < i ==> fits(#[trigger] views[j], depth as nat),
        decreases items.len() - i,
    {
        proof {
            assert(views[i as int] == items[i as int]@);
            vstd::seq::axiom_seq_index_decreases(views, i as int);
        }
        if !items[i].fits_at(depth) {
            return false;
        }
        i = i + 1;
    }
    true
}

/// Whether every key and value of `map` [`fits`] at nesting `depth`.
fn entries_fit(map: &ValueMap, depth: usize) -> (r: bool)
    ensures
        r == (forall|i: int|
            0 <= i < map@.len() ==> fits((#[trigger] map@[i]).0, depth as nat) && fits(
                map@[i].1,
                depth as nat,
            )),
    decreases map@, 0nat,
{
    let n = map.len();
    let mut i: usize = 0;
    while i < n
        invariant
            i <= n,
            n == map@.len(),
            forall|j: int|
                0 <= j < i ==> fits((#[trigger] map@[j]).0, depth as nat) && fits(
                    map@[j].1,
                    depth as nat,
                ),
        decreases n - i,
    {
        let (key, value) = map.entry(i);
        proof {
            vstd::seq::axiom_seq_index_decreases(map@, i as int);
            assert(decreases_to!(map@[i as int] => map@[i as int].0));
            assert(decreases_to!(map@[i as int] => map@[i as int].1));
        }
        if !key.fits_at(depth) || !value.fits_at(depth) {
            return false;
        }
        i = i + 1;
    }
    true
}

/// Whether every value among the named fields [`fits`] at nesting `depth`.
fn named_fit(map: &FieldMap, depth: usize) -> (r: bool)
    ensures
        r == (forall|i: int| 0 <= i < map@.len() ==> fits((#[trigger] map@[i]).1, depth as nat)),
    decreases map@, 0nat,
{
    let n = map.len();
    let mut i: usize = 0;
    while i < n
        invariant
            i <= n,
            n == map@.len(),
            forall|j: int| 0 <= j < i ==> fits((#[trigger] map@[j]).1, depth as nat),
        decreases n - i,
    {
        let (_, value) = map.entry(i);
        proof {
            vstd::seq::axiom_seq_index_decreases(map@, i as int);
            assert(decreases_to!(map@[i as int] => map@[i as int].1));
        }
        if !value.fits_at(depth) {
            return false;
        }
        i = i + 1;
    }
    true
}

impl Value {
    /// Whether the value can be written from nesting `depth`: whether
    /// every bracket that it opens starts below `usize::MAX`. A caller that
    /// cannot know how deep a value nests asks this before it writes.
    pub fn fits_at(&self, depth: usize) -> (r: bool)
        ensures
            r == fits(self@, depth as nat),
        decreases self@, 1nat,
    {
        match self {
            Value::Struct(record) => {
                assert(self@->Struct_0 == record@);
                assert(decreases_to!(self@ => self@->Struct_0));
                record.fits_at(depth)
            },
            Value::Dict(map) => {
                assert(self@->Dict_0 == map@);
                assert(decreases_to!(self@ => self@->Dict_0));
                depth < usize::MAX && entries_fit(map, depth + 1)
            },
            Value::Array(items) => {
                assert(self@->Array_0 == value_views(items@));
                assert(decreases_to!(self@ => self@->Array_0));
                depth < usize::MAX && items_fit(items, depth + 1)
            },
            _ => true,
        }
    }
}

impl Struct {
    /// Whether the record can be written from nesting `depth`: see
    /// [`Value::fits_at`].
    pub fn fits_at(&self, depth: usize) -> (r: bool)
        ensures
            r == fits(ValueView::Struct(self@), depth as nat),
        decreases self@, 0nat,
    {
        assert(ValueView::Struct(self@)->Struct_0 == self@);
        match &self.fields {
            None => true,
            Some(fields) => {
                assert(self@.fields->Some_0 == fields@);
                assert(decreases_to!(self@ => self@.fields->Some_0));
                if depth == usize::MAX {
                    return false;
                }
                match &**fields {
                    Fields::Named(map) => {
                        assert(fields@->Named_0 == map@);
                        assert(decreases_to!(fields@ => fields@->Named_0));
                        let r = named_fit(map, depth + 1);
                        assert(r == fields_fit(fields@, (depth + 1) as nat));
                        r
                    },
                    Fields::Unnamed(items) => {
                        assert(fields@->Unnamed_0 == value_views(items@));
                        assert(decreases_to!(fields@ => fields@->Unnamed_0));
                        let r = items_fit(items, depth + 1);
                        assert(r == fields_fit(fields@, (depth + 1) as nat));
                        r
                    },
                }
            },
        }
    }
}

} // verus!

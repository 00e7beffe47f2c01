//! Ordered maps: the entries of a map value and the named fields of a struct.
//!
//! Both keep their entries in insertion order, and the order is part of what
//! a map is: two maps with the same entries in another order are different.
//! A key occurs once; inserting it again replaces the value where it stands.
//! The storage is `indexmap::IndexMap`, reached through the trusted
//! functions of this file. Equality of maps is not among them: it compares
//! the entries one by one, in order, and is proved with that of values.

use crate::value::{Value, ValueView};
use std::hash::{Hash, Hasher};
use vstd::prelude::*;

verus! {

/// The index of the first entry of `entries` whose key is `key`, or `-1`.
pub open spec fn key_position<K, V>(entries: Seq<(K, V)>, key: K) -> int
    decreases entries.len(),
{
    if entries.len() == 0 {
        -1
    } else {
        let before = key_position(entries.drop_last(), key);
        if before >= 0 {
            before
        } else if entries.last().0 == key {
            entries.len() - 1
        } else {
            -1
        }
    }
}

/// The entries after `key` is given `value`: the value replaces the old one
/// where the key already stands, else the pair goes last.
pub open spec fn inserted<K, V>(entries: Seq<(K, V)>, key: K, value: V) -> Seq<(K, V)> {
    let at = key_position(entries, key);
    if at >= 0 {
        entries.update(at, (entries[at].0, value))
    } else {
        entries.push((key, value))
    }
}

/// The entries after the pairs are inserted one by one, in order.
pub open spec fn collected<K, V>(pairs: Seq<(K, V)>) -> Seq<(K, V)>
    decreases pairs.len(),
{
    if pairs.len() == 0 {
        Seq::empty()
    } else {
        inserted(collected(pairs.drop_last()), pairs.last().0, pairs.last().1)
    }
}

/// The views of a sequence of key-value pairs.
pub open spec fn pair_views(pairs: Seq<(Value, Value)>) -> Seq<(ValueView, ValueView)> {
    Seq::new(pairs.len(), |i: int| (pairs[i].0@, pairs[i].1@))
}

/// The views of a sequence of named values.
pub open spec fn field_views(pairs: Seq<(&'static str, Value)>) -> Seq<(Seq<char>, ValueView)> {
    Seq::new(pairs.len(), |i: int| (pairs[i].0@, pairs[i].1@))
}

/// The entries of a map value, in insertion order. Holds an
/// `indexmap::IndexMap`, which Verus cannot look into: what it contains is
/// [`value_map_entries`].
#[verifier::external_body]
#[derive(Debug)]
pub struct ValueMap {
    raw: Box<indexmap::IndexMap<Value, Value>>,
}

/// The named fields of a struct, in insertion order. Holds an
/// `indexmap::IndexMap`, which Verus cannot look into: what it contains is
/// [`field_map_entries`].
#[verifier::external_body]
#[derive(Debug)]
pub struct FieldMap {
    raw: Box<indexmap::IndexMap<&'static str, Value>>,
}

/// The entries that the map holds, in order, each key and value by its view.
pub uninterp spec fn value_map_entries(m: ValueMap) -> Seq<(ValueView, ValueView)>;

/// The fields that the map holds, in order, each name by its characters and
/// each value by its view.
pub uninterp spec fn field_map_entries(m: FieldMap) -> Seq<(Seq<char>, ValueView)>;

impl View for ValueMap {
    type V = Seq<(ValueView, ValueView)>;

    open spec fn view(&self) -> Seq<(ValueView, ValueView)> {
        value_map_entries(*self)
    }
}

impl View for FieldMap {
    type V = Seq<(Seq<char>, ValueView)>;

    open spec fn view(&self) -> Seq<(Seq<char>, ValueView)> {
        field_map_entries(*self)
    }
}

impl Hash for ValueMap {
    /// Feeds every entry of the `IndexMap` to the hasher, in order.
    #[verifier::external_body]
    fn hash<H: Hasher>(&self, state: &mut H) {
        self.raw.iter().for_each(|x| x.hash(state))
    }
}

impl Clone for ValueMap {
    /// Calls `IndexMap::clone`. Assumed: the copy holds the same entries in
    /// the same order.
    #[verifier::external_body]
    fn clone(&self) -> (r: ValueMap)
        ensures
            value_map_entries(r) == value_map_entries(*self),
    {
        ValueMap { raw: self.raw.clone() }
    }
}

impl ValueMap {
    /// Calls `IndexMap::new`. Assumed: the new map holds nothing.
    #[verifier::external_body]
    pub fn new() -> (r: ValueMap)
        ensures
            value_map_entries(r) == Seq::<(ValueView, ValueView)>::empty(),
    {
        ValueMap { raw: Box::new(indexmap::IndexMap::new()) }
    }

    /// Calls `IndexMap::len`. Assumed: it is the number of entries.
    #[verifier::external_body]
    pub fn len(&self) -> (r: usize)
        ensures
            r == value_map_entries(*self).len(),
    {
        self.raw.len()
    }

    /// Whether the map holds no entry.
    pub fn is_empty(&self) -> (r: bool)
        ensures
            r == (self@.len() == 0),
    {
        self.len() == 0
    }

    /// Calls `IndexMap::insert`. Assumed: where an equal key is present its
    /// value is replaced in place, else the pair is added last. The map
    /// finds a key by the `==` and the `Hash` of [`Value`]; that these tell
    /// two keys apart exactly when their views differ is assumed of the
    /// derived `Hash`, and proved of `==`.
    #[verifier::external_body]
    pub(crate) fn insert(&mut self, key: Value, value: Value)
        ensures
            value_map_entries(*final(self)) == inserted(value_map_entries(*old(self)), key@, value@),
    {
        self.raw.insert(key, value);
    }

    /// Calls `IndexMap::get_index`. Assumed: it hands out the entry at
    /// position `i` of the insertion order.
    #[verifier::external_body]
    pub(crate) fn entry(&self, i: usize) -> (r: (&Value, &Value))
        requires
            i < value_map_entries(*self).len(),
        ensures
            (r.0@, r.1@) == value_map_entries(*self)[i as int],
    {
        self.raw.get_index(i).unwrap()
    }

    /// The entry at position `i` of the insertion order, if there is one.
    pub fn get(&self, i: usize) -> (r: Option<(&Value, &Value)>)
        ensures
            r is Some <==> i < self@.len(),
            r matches Some(e) ==> (e.0@, e.1@) == self@[i as int],
    {
        if i < self.len() {
            Some(self.entry(i))
        } else {
            None
        }
    }
}

impl Hash for FieldMap {
    /// Feeds every field of the `IndexMap` to the hasher, in order.
    #[verifier::external_body]
    fn hash<H: Hasher>(&self, state: &mut H) {
        self.raw.iter().for_each(|x| x.hash(state))
    }
}

impl Clone for FieldMap {
    /// Calls `IndexMap::clone`. Assumed: the copy holds the same fields in
    /// the same order.
    #[verifier::external_body]
    fn clone(&self) -> (r: FieldMap)
        ensures
            field_map_entries(r) == field_map_entries(*self),
    {
        FieldMap { raw: self.raw.clone() }
    }
}

impl FieldMap {
    /// Calls `IndexMap::new`. Assumed: the new map holds nothing.
    #[verifier::external_body]
    pub fn new() -> (r: FieldMap)
        ensures
            field_map_entries(r) == Seq::<(Seq<char>, ValueView)>::empty(),
    {
        FieldMap { raw: Box::new(indexmap::IndexMap::new()) }
    }

    /// Calls `IndexMap::len`. Assumed: it is the number of fields.
    #[verifier::external_body]
    pub fn len(&self) -> (r: usize)
        ensures
            r == field_map_entries(*self).len(),
    {
        self.raw.len()
    }

    /// Whether the map holds no field.
    pub fn is_empty(&self) -> (r: bool)
        ensures
            r == (self@.len() == 0),
    {
        self.len() == 0
    }

    /// Calls `IndexMap::insert`. Assumed: where the name is present its
    /// value is replaced in place, else the field is added last. The map
    /// finds a name by the `==` and the `Hash` of `str`, which go by the
    /// characters.
    #[verifier::external_body]
    pub(crate) fn insert(&mut self, key: &'static str, value: Value)
        ensures
            field_map_entries(*final(self)) == inserted(field_map_entries(*old(self)), key@, value@),
    {
        self.raw.insert(key, value);
    }

    /// Calls `IndexMap::get_index`. Assumed: it hands out the field at
    /// position `i` of the insertion order.
    #[verifier::external_body]
    pub(crate) fn entry(&self, i: usize) -> (r: (&'static str, &Value))
        requires
            i < field_map_entries(*self).len(),
        ensures
            (r.0@, r.1@) == field_map_entries(*self)[i as int],
    {
        let (key, value) = self.raw.get_index(i).unwrap();
        (*key, value)
    }

    /// The field at position `i` of the insertion order, if there is one.
    pub fn get(&self, i: usize) -> (r: Option<(&'static str, &Value)>)
        ensures
            r is Some <==> i < self@.len(),
            r matches Some(e) ==> (e.0@, e.1@) == self@[i as int],
    {
        if i < self.len() {
            Some(self.entry(i))
        } else {
            None
        }
    }
}

/// The elements of `v` in reverse order.
pub(crate) fn reversed<T>(v: Vec<T>) -> (r: Vec<T>)
    ensures
        r.len() == v.len(),
        forall|j: int| 0 <= j < r.len() ==> r[j] == v[v.len() - 1 - j],
{
    let ghost all = v@;
    let mut rest = v;
    let mut out: Vec<T> = Vec::new();
    while rest.len() > 0
        invariant
            rest.len() + out.len() == all.len(),
            forall|j: int| 0 <= j < rest.len() ==> rest[j] == all[j],
            forall|j: int| 0 <= j < out.len() ==> out[j] == all[all.len() - 1 - j],
        decreases rest.len(),
    {
        let item = rest.pop().unwrap();
        out.push(item);
    }
    out
}

impl ValueMap {
    /// The map that results from inserting the pairs one by one, in order:
    /// a key that comes again keeps its first place and takes the later value.
    pub fn from_iter(pairs: Vec<(Value, Value)>) -> (r: ValueMap)
        ensures
            r@ == collected(pair_views(pairs@)),
    {
        let ghost all = pair_views(pairs@);
        let n = pairs.len();
        let mut rest = reversed(pairs);
        let mut map = ValueMap::new();
        while rest.len() > 0
            invariant
                rest.len() <= n,
                all.len() == n,
                forall|j: int| 0 <= j < rest.len() ==> (rest[j].0@, rest[j].1@) == all[n - 1 - j],
                map@ == collected(all.subrange(0, n - rest.len())),
            decreases rest.len(),
        {
            let ghost done = n - rest.len();
            let (key, value) = rest.pop().unwrap();
            assert(all.subrange(0, done + 1).drop_last() =~= all.subrange(0, done));
            map.insert(key, value);
        }
        assert(all.subrange(0, n as int) =~= all);
        map
    }
}

impl FieldMap {
    /// The map that results from inserting the fields one by one, in order:
    /// a name that comes again keeps its first place and takes the later value.
    pub fn from_iter(pairs: Vec<(&'static str, Value)>) -> (r: FieldMap)
        ensures
            r@ == collected(field_views(pairs@)),
    {
        let ghost all = field_views(pairs@);
        let n = pairs.len();
        let mut rest = reversed(pairs);
        let mut map = FieldMap::new();
        while rest.len() > 0
            invariant
                rest.len() <= n,
                all.len() == n,
                forall|j: int| 0 <= j < rest.len() ==> (rest[j].0@, rest[j].1@) == all[n - 1 - j],
                map@ == collected(all.subrange(0, n - rest.len())),
            decreases rest.len(),
        {
            let ghost done = n - rest.len();
            let (key, value) = rest.pop().unwrap();
            assert(all.subrange(0, done + 1).drop_last() =~= all.subrange(0, done));
            map.insert(key, value);
        }
        assert(all.subrange(0, n as int) =~= all);
        map
    }
}

/// The order of insertion is part of a map: the same two entries, under
/// different keys, inserted in the two possible orders give different maps.
pub proof fn lemma_order_matters<K, V>(k1: K, v1: V, k2: K, v2: V)
    requires
        k1 != k2,
    ensures
        collected(seq![(k1, v1), (k2, v2)]) == seq![(k1, v1), (k2, v2)],
        collected(seq![(k2, v2), (k1, v1)]) == seq![(k2, v2), (k1, v1)],
        collected(seq![(k1, v1), (k2, v2)]) != collected(seq![(k2, v2), (k1, v1)]),
{
    lemma_collected_two(k1, v1, k2, v2);
    lemma_collected_two(k2, v2, k1, v1);
    assert(seq![(k1, v1), (k2, v2)][0] != seq![(k2, v2), (k1, v1)][0]);
}

/// Insertion order tells maps apart. Two maps built from the same two
/// entries under different keys, once in each order, are not equal: `==`
/// on them is false, and the values that hold them have different views.
pub proof fn lemma_maps_differ_by_order(
    a: ValueMap,
    b: ValueMap,
    k1: ValueView,
    v1: ValueView,
    k2: ValueView,
    v2: ValueView,
    same: bool,
)
    requires
        k1 != k2,
        a@ == collected(seq![(k1, v1), (k2, v2)]),
        b@ == collected(seq![(k2, v2), (k1, v1)]),
        call_ensures(<ValueMap as PartialEq>::eq, (&a, &b), same),
    ensures
        !same,
        ValueView::Dict(a@) != ValueView::Dict(b@),
{
    lemma_order_matters(k1, v1, k2, v2);
}

/// Two entries under different keys are collected as they come.
proof fn lemma_collected_two<K, V>(k1: K, v1: V, k2: K, v2: V)
    requires
        k1 != k2,
    ensures
        collected(seq![(k1, v1), (k2, v2)]) == seq![(k1, v1), (k2, v2)],
{
    let both = seq![(k1, v1), (k2, v2)];
    let first = seq![(k1, v1)];
    let none = Seq::<(K, V)>::empty();
    assert(both.drop_last() =~= first);
    assert(first.drop_last() =~= none);
    assert(collected(none) =~= none);
    assert(key_position(none, k1) == -1);
    assert(collected(first) =~= first);
    assert(key_position(first.drop_last(), k2) == -1);
    assert(key_position(first, k2) == -1);
    assert(collected(both) =~= both);
}

/// Inserting a key that is already there keeps the number and the order of
/// the keys and replaces the value; inserting a new key adds it last.
pub proof fn lemma_inserted<K, V>(entries: Seq<(K, V)>, key: K, value: V)
    ensures
        key_position(entries, key) >= 0 ==> {
            &&& key_position(entries, key) < entries.len()
            &&& entries[key_position(entries, key)].0 == key
            &&& inserted(entries, key, value).len() == entries.len()
            &&& inserted(entries, key, value)[key_position(entries, key)] == (key, value)
        },
        key_position(entries, key) < 0 ==> {
            &&& forall|i: int| 0 <= i < entries.len() ==> (#[trigger] entries[i]).0 != key
            &&& inserted(entries, key, value) == entries.push((key, value))
        },
    decreases entries.len(),
{
    if entries.len() > 0 {
        lemma_inserted(entries.drop_last(), key, value);
        assert forall|i: int| 0 <= i < entries.len() - 1 implies entries.drop_last()[i]
            == entries[i] by {}
        if key_position(entries, key) < 0 {
            assert forall|i: int| 0 <= i < entries.len() implies (#[trigger] entries[i]).0
                != key by {
                if i < entries.len() - 1 {
                    assert(entries.drop_last()[i].0 != key);
                }
            }
        }
    }
}

} // verus!

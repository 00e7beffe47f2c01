//! Equality of values and of maps: two are equal exactly when their views
//! are. For maps that means the same entries in the same order.

use crate::value::map::{FieldMap, ValueMap};
use crate::value::{name_view, value_views, Fields, Struct, Value};
use vstd::prelude::*;

verus! {

/// Calls `==` on two `str`. Assumed: the result is true exactly when both
/// hold the same characters.
#[verifier::external_body]
fn same_text(a: &str, b: &str) -> (r: bool)
    ensures
        r == (a@ == b@),
{
    a == b
}

/// Whether both names are absent, or both present and the same.
fn same_name(a: Option<&'static str>, b: Option<&'static str>) -> (r: bool)
    ensures
        r == (name_view(a) == name_view(b)),
{
    match (a, b) {
        (Some(x), Some(y)) => same_text(x, y),
        (None, None) => true,
        _ => false,
    }
}

/// Whether both sequences hold equal values in the same order.
fn same_items(a: &Vec<Value>, b: &Vec<Value>) -> (r: bool)
    ensures
        r == (value_views(a@) == value_views(b@)),
    decreases value_views(a@),
{
    if a.len() != b.len() {
        assert(value_views(a@).len() != value_views(b@).len());
        return false;
    }
    let mut i: usize = 0;
    while i < a.len()
        invariant
            i <= a.len(),
            a.len() == b.len(),
            forall|j: int| 0 <= j < i ==> a[j]@ == b[j]@,
        decreases a.len() - i,
    {
        proof {
            assert(value_views(a@)[i as int] == a[i as int]@);
            assert(value_views(b@)[i as int] == b[i as int]@);
            vstd::seq::axiom_seq_index_decreases(value_views(a@), i as int);
        }
        if !a[i].same(&b[i]) {
            return false;
        }
        i = i + 1;
    }
    assert(value_views(a@) =~= value_views(b@));
    true
}

/// Whether both maps hold equal entries in the same order.
pub(crate) fn same_entries(a: &ValueMap, b: &ValueMap) -> (r: bool)
    ensures
        r == (a@ == b@),
    decreases a@,
{
    let n = a.len();
    if n != b.len() {
        return false;
    }
    let mut i: usize = 0;
    while i < n
        invariant
            i <= n,
            n == a@.len(),
            n == b@.len(),
            forall|j: int| 0 <= j < i ==> a@[j] == b@[j],
        decreases n - i,
    {
        let (key, value) = a.entry(i);
        let (other_key, other_value) = b.entry(i);
        proof {
            vstd::seq::axiom_seq_index_decreases(a@, i as int);
            assert(decreases_to!(a@[i as int] => a@[i as int].0));
            assert(decreases_to!(a@[i as int] => a@[i as int].1));
        }
        if !key.same(other_key) || !value.same(other_value) {
            assert(a@[i as int] != b@[i as int]);
            return false;
        }
        i = i + 1;
    }
    assert(a@ =~= b@);
    true
}

/// Whether both maps hold the same names with equal values in the same order.
pub(crate) fn same_fields(a: &FieldMap, b: &FieldMap) -> (r: bool)
    ensures
        r == (a@ == b@),
    decreases a@,
{
    let n = a.len();
    if n != b.len() {
        return false;
    }
    let mut i: usize = 0;
    while i < n
        invariant
            i <= n,
            n == a@.len(),
            n == b@.len(),
            forall|j: int| 0 <= j < i ==> a@[j] == b@[j],
        decreases n - i,
    {
        let (name, value) = a.entry(i);
        let (other_name, other_value) = b.entry(i);
        proof {
            vstd::seq::axiom_seq_index_decreases(a@, i as int);
            assert(decreases_to!(a@[i as int] => a@[i as int].1));
        }
        if !same_text(name, other_name) || !value.same(other_value) {
            assert(a@[i as int] != b@[i as int]);
            return false;
        }
        i = i + 1;
    }
    assert(a@ =~= b@);
    true
}

impl Value {
    /// Whether the two values are equal: same variant, equal contents.
    /// Floats are compared by their bits and maps entry by entry, in order.
    pub fn same(&self, other: &Value) -> (r: bool)
        ensures
            r == (self@ == other@),
        decreases self@,
    {
        match (self, other) {
            (Value::Struct(a), Value::Struct(b)) => {
                assert(self@->Struct_0 == a@ && other@->Struct_0 == b@);
                assert(decreases_to!(self@ => self@->Struct_0));
                a.same(b)
            },
            (Value::Dict(a), Value::Dict(b)) => {
                assert(self@->Dict_0 == a@ && other@->Dict_0 == b@);
                assert(decreases_to!(self@ => self@->Dict_0));
                same_entries(a, b)
            },
            (Value::Array(a), Value::Array(b)) => {
                assert(self@->Array_0 == value_views(a@) && other@->Array_0 == value_views(b@));
                assert(decreases_to!(self@ => self@->Array_0));
                same_items(a, b)
            },
            (Value::String(a), Value::String(b)) => {
                assert(self@->String_0 == a@ && other@->String_0 == b@);
                *a == *b
            },
            (Value::Bytes(a), Value::Bytes(b)) => {
                assert(self@->Bytes_0 == a@ && other@->Bytes_0 == b@);
                let r = *a == *b;
                assert(r == (a@ =~= b@));
                r
            },
            (Value::Bool(a), Value::Bool(b)) => *a == *b,
            (Value::Signed(s, a), Value::Signed(t, b)) => *s == *t && a.raw == b.raw,
            (Value::Unsigned(a), Value::Unsigned(b)) => a.raw == b.raw,
            (Value::Float(a), Value::Float(b)) => a.bits == b.bits,
            (Value::Char(a), Value::Char(b)) => *a == *b,
            _ => false,
        }
    }
}

impl Struct {
    /// Whether the two records are equal: same name, equal fields.
    pub fn same(&self, other: &Struct) -> (r: bool)
        ensures
            r == (self@ == other@),
        decreases self@,
    {
        if !same_name(self.name, other.name) {
            return false;
        }
        match (&self.fields, &other.fields) {
            (Some(a), Some(b)) => {
                assert(self@.fields->Some_0 == a@ && other@.fields->Some_0 == b@);
                assert(decreases_to!(self@ => self@.fields->Some_0));
                a.same(b)
            },
            (None, None) => true,
            _ => false,
        }
    }
}

impl Fields {
    /// Whether both are named or both unnamed, with equal contents in the
    /// same order.
    pub fn same(&self, other: &Fields) -> (r: bool)
        ensures
            r == (self@ == other@),
        decreases self@,
    {
        match (self, other) {
            (Fields::Named(a), Fields::Named(b)) => {
                assert(self@->Named_0 == a@ && other@->Named_0 == b@);
                assert(decreases_to!(self@ => self@->Named_0));
                same_fields(a, b)
            },
            (Fields::Unnamed(a), Fields::Unnamed(b)) => {
                assert(self@->Unnamed_0 == value_views(a@) && other@->Unnamed_0 == value_views(
                    b@,
                ));
                assert(decreases_to!(self@ => self@->Unnamed_0));
                same_items(a, b)
            },
            _ => false,
        }
    }
}

impl PartialEq for Value {
    fn eq(&self, other: &Value) -> (r: bool) {
        self.same(other)
    }
}

impl vstd::std_specs::cmp::PartialEqSpecImpl for Value {
    open spec fn obeys_eq_spec() -> bool {
        true
    }

    open spec fn eq_spec(&self, other: &Value) -> bool {
        self@ == other@
    }
}

impl Eq for Value {

}

impl PartialEq for Struct {
    fn eq(&self, other: &Struct) -> (r: bool) {
        self.same(other)
    }
}

impl vstd::std_specs::cmp::PartialEqSpecImpl for Struct {
    open spec fn obeys_eq_spec() -> bool {
        true
    }

    open spec fn eq_spec(&self, other: &Struct) -> bool {
        self@ == other@
    }
}

impl Eq for Struct {

}

impl PartialEq for Fields {
    fn eq(&self, other: &Fields) -> (r: bool) {
        self.same(other)
    }
}

impl vstd::std_specs::cmp::PartialEqSpecImpl for Fields {
    open spec fn obeys_eq_spec() -> bool {
        true
    }

    open spec fn eq_spec(&self, other: &Fields) -> bool {
        self@ == other@
    }
}

impl Eq for Fields {

}

impl PartialEq for ValueMap {
    fn eq(&self, other: &ValueMap) -> (r: bool) {
        same_entries(self, other)
    }
}

impl vstd::std_specs::cmp::PartialEqSpecImpl for ValueMap {
    open spec fn obeys_eq_spec() -> bool {
        true
    }

    open spec fn eq_spec(&self, other: &ValueMap) -> bool {
        self@ == other@
    }
}

impl Eq for ValueMap {

}

impl PartialEq for FieldMap {
    fn eq(&self, other: &FieldMap) -> (r: bool) {
        same_fields(self, other)
    }
}

impl vstd::std_specs::cmp::PartialEqSpecImpl for FieldMap {
    open spec fn obeys_eq_spec() -> bool {
        true
    }

    open spec fn eq_spec(&self, other: &FieldMap) -> bool {
        self@ == other@
    }
}

impl Eq for FieldMap {

}

} // verus!

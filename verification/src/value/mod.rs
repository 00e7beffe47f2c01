//! The dynamic value tree: a loosely typed holder for any value of the notation.

pub mod de;
pub mod depth;
pub mod eq;
pub mod float;
pub mod layout;
pub mod map;
pub mod number;
pub mod ser;
pub mod transcode;
pub mod transcode_ser;

use crate::value::float::Float;
use crate::value::map::{FieldMap, ValueMap};
use crate::value::number::{Integer, Sign};
use vstd::prelude::*;

verus! {

/// A value, with every text as a sequence of characters, every list as a
/// sequence and every number as a natural number: what contracts speak of.
pub enum ValueView {
    Struct(StructView),
    Dict(Seq<(ValueView, ValueView)>),
    Array(Seq<ValueView>),
    String(Seq<char>),
    Bytes(Seq<u8>),
    Bool(bool),
    Signed(Sign, nat),
    Unsigned(nat),
    Float(Float),
    Char(char),
}

/// The view of a [`Struct`].
pub struct StructView {
    pub name: Option<Seq<char>>,
    pub fields: Option<FieldsView>,
}

/// The view of a [`Fields`].
pub enum FieldsView {
    Named(Seq<(Seq<char>, ValueView)>),
    Unnamed(Seq<ValueView>),
}

/// Any value of the notation.
#[derive(Debug, Hash)]
pub enum Value {
    /// A record, written `Name( ... )`, `( ... )`, `Name` or `()`.
    Struct(Struct),
    /// A map, written `{ ... }`.
    Dict(ValueMap),
    /// A sequence, written `[ ... ]`.
    Array(Vec<Value>),
    /// A text, written `" ... "`.
    String(String),
    /// A byte string, written `b" ... "` in base64.
    Bytes(Vec<u8>),
    /// `true` or `false`.
    Bool(bool),
    /// A signed integer: a sign and a magnitude.
    Signed(Sign, Integer),
    /// An unsigned integer.
    Unsigned(Integer),
    /// A floating-point number.
    Float(Float),
    /// A single character, written `' ... '`.
    Char(char),
}

/// A record: an optional name and optional fields. With neither, it is the
/// unit value `()`.
#[derive(Debug, Hash)]
pub struct Struct {
    pub name: Option<&'static str>,
    pub fields: Option<Box<Fields>>,
}

/// The fields of a record: all named or all unnamed.
#[derive(Debug, Hash)]
pub enum Fields {
    Named(FieldMap),
    Unnamed(Vec<Value>),
}

/// The view of a value.
pub open spec fn value_view(v: Value) -> ValueView
    decreases v,
{
    match v {
        Value::Struct(s) => ValueView::Struct(struct_view(s)),
        Value::Dict(m) => ValueView::Dict(m@),
        Value::Array(items) => ValueView::Array(value_views(items@)),
        Value::String(s) => ValueView::String(s@),
        Value::Bytes(b) => ValueView::Bytes(b@),
        Value::Bool(b) => ValueView::Bool(b),
        Value::Signed(sign, magnitude) => ValueView::Signed(sign, magnitude@),
        Value::Unsigned(magnitude) => ValueView::Unsigned(magnitude@),
        Value::Float(f) => ValueView::Float(f),
        Value::Char(c) => ValueView::Char(c),
    }
}

/// The views of the values of a sequence.
pub open spec fn value_views(items: Seq<Value>) -> Seq<ValueView>
    decreases items,
{
    Seq::new(
        items.len(),
        |i: int|
            if 0 <= i < items.len() {
                value_view(items[i])
            } else {
                ValueView::Bool(false)
            },
    )
}

/// The view of an optional name.
pub open spec fn name_view(name: Option<&'static str>) -> Option<Seq<char>> {
    match name {
        Some(n) => Some(n@),
        None => None,
    }
}

/// The view of a record.
pub open spec fn struct_view(s: Struct) -> StructView
    decreases s,
{
    StructView {
        name: name_view(s.name),
        fields: match s.fields {
            Some(f) => Some(fields_view(*f)),
            None => None,
        },
    }
}

/// The view of the fields of a record.
pub open spec fn fields_view(f: Fields) -> FieldsView
    decreases f,
{
    match f {
        Fields::Named(m) => FieldsView::Named(m@),
        Fields::Unnamed(items) => FieldsView::Unnamed(value_views(items@)),
    }
}

impl View for Value {
    type V = ValueView;

    open spec fn view(&self) -> ValueView {
        value_view(*self)
    }
}

impl View for Struct {
    type V = StructView;

    open spec fn view(&self) -> StructView {
        struct_view(*self)
    }
}

impl View for Fields {
    type V = FieldsView;

    open spec fn view(&self) -> FieldsView {
        fields_view(*self)
    }
}

/// A copy of each value of `items`, in order.
fn duplicate_items(items: &Vec<Value>) -> (r: Vec<Value>)
    ensures
        value_views(r@) == value_views(items@),
    decreases value_views(items@),
{
    let mut out: Vec<Value> = Vec::new();
    let mut i: usize = 0;
    while i < items.len()
        invariant
            i <= items.len(),
            out.len() == i,
            forall|j: int| 0 <= j < i ==> out[j]@ == items[j]@,
        decreases items.len() - i,
    {
        proof {
            assert(value_views(items@)[i as int] == items[i as int]@);
            vstd::seq::axiom_seq_index_decreases(value_views(items@), i as int);
        }
        let item = items[i].duplicate();
        out.push(item);
        i = i + 1;
    }
    assert(value_views(out@) =~= value_views(items@));
    out
}

impl Value {
    /// A copy of the whole tree.
    pub fn duplicate(&self) -> (r: Value)
        ensures
            r@ == self@,
        decreases self@,
    {
        match self {
            Value::Struct(s) => {
                assert(self@ == ValueView::Struct(s@));
                assert(self@->Struct_0 == s@);
                assert(decreases_to!(self@ => self@->Struct_0));
                Value::Struct(s.duplicate())
            },
            Value::Dict(m) => Value::Dict(m.clone()),
            Value::Array(items) => {
                assert(self@ == ValueView::Array(value_views(items@)));
                assert(self@->Array_0 == value_views(items@));
                assert(decreases_to!(self@ => self@->Array_0));
                Value::Array(duplicate_items(items))
            },
            Value::String(s) => Value::String(s.clone()),
            Value::Bytes(b) => Value::Bytes(b.clone()),
            Value::Bool(b) => Value::Bool(*b),
            Value::Signed(sign, magnitude) => Value::Signed(*sign, *magnitude),
            Value::Unsigned(magnitude) => Value::Unsigned(*magnitude),
            Value::Float(f) => Value::Float(*f),
            Value::Char(c) => Value::Char(*c),
        }
    }
}

impl Struct {
    /// A copy of the record and of all that it holds.
    pub fn duplicate(&self) -> (r: Struct)
        ensures
            r@ == self@,
        decreases self@,
    {
        let fields = match &self.fields {
            Some(f) => {
                assert(self@.fields->Some_0 == f@);
                assert(decreases_to!(self@ => self@.fields->Some_0));
                Some(Box::new(f.duplicate()))
            },
            None => None,
        };
        Struct { name: self.name, fields }
    }
}

impl Fields {
    /// A copy of the fields and of all that they hold.
    pub fn duplicate(&self) -> (r: Fields)
        ensures
            r@ == self@,
        decreases self@,
    {
        match self {
            Fields::Named(m) => Fields::Named(m.clone()),
            Fields::Unnamed(items) => {
                assert(self@->Unnamed_0 == value_views(items@));
                assert(decreases_to!(self@ => self@->Unnamed_0));
                Fields::Unnamed(duplicate_items(items))
            },
        }
    }
}

impl Clone for Value {
    fn clone(&self) -> (r: Value)
        ensures
            r@ == self@,
    {
        self.duplicate()
    }
}

impl Clone for Struct {
    fn clone(&self) -> (r: Struct)
        ensures
            r@ == self@,
    {
        self.duplicate()
    }
}

impl Clone for Fields {
    fn clone(&self) -> (r: Fields)
        ensures
            r@ == self@,
    {
        self.duplicate()
    }
}

/// The number that a sign and a magnitude stand for.
pub open spec fn signed_number(sign: Sign, magnitude: nat) -> int {
    match sign {
        Sign::Positive => magnitude as int,
        Sign::Negative => -(magnitude as int),
    }
}

impl ValueView {
    /// The integer that the value holds, if it is one and is not negative:
    /// the magnitude of an unsigned or of a positively signed integer.
    pub open spec fn natural(self) -> Option<nat> {
        match self {
            ValueView::Signed(Sign::Positive, magnitude) => Some(magnitude),
            ValueView::Unsigned(magnitude) => Some(magnitude),
            _ => None,
        }
    }

    /// The integer that the value holds, if it is one.
    pub open spec fn integer(self) -> Option<int> {
        match self {
            ValueView::Signed(sign, magnitude) => Some(signed_number(sign, magnitude)),
            ValueView::Unsigned(magnitude) => Some(magnitude as int),
            _ => None,
        }
    }
}

impl Value {
    /// The record, if the value is one.
    pub fn as_struct(&self) -> (r: Option<&Struct>)
        ensures
            r == (match self {
                Value::Struct(s) => Some(s),
                _ => None,
            }),
    {
        match self {
            Value::Struct(this) => Some(this),
            _ => None,
        }
    }

    /// The map, if the value is one.
    pub fn as_map(&self) -> (r: Option<&ValueMap>)
        ensures
            r == (match self {
                Value::Dict(m) => Some(m),
                _ => None,
            }),
    {
        match self {
            Value::Dict(this) => Some(this),
            _ => None,
        }
    }

    /// The elements, if the value is a sequence.
    pub fn as_array(&self) -> (r: Option<&[Value]>)
        ensures
            match self {
                Value::Array(items) => r matches Some(slice) && slice@ == items@,
                _ => r is None,
            },
    {
        match self {
            Value::Array(this) => Some(this.as_slice()),
            _ => None,
        }
    }

    /// The text, if the value is one.
    pub fn as_str(&self) -> (r: Option<&str>)
        ensures
            match self {
                Value::String(s) => r matches Some(text) && text@ == s@,
                _ => r is None,
            },
    {
        match self {
            Value::String(this) => Some(this.as_str()),
            _ => None,
        }
    }

    /// The bytes, if the value is a byte string.
    pub fn as_bytes(&self) -> (r: Option<&[u8]>)
        ensures
            match self {
                Value::Bytes(b) => r matches Some(slice) && slice@ == b@,
                _ => r is None,
            },
    {
        match self {
            Value::Bytes(this) => Some(this.as_slice()),
            _ => None,
        }
    }

    /// The boolean, if the value is one.
    pub fn as_bool(&self) -> (r: Option<bool>)
        ensures
            r == (match self {
                Value::Bool(b) => Some(*b),
                _ => None,
            }),
    {
        match *self {
            Value::Bool(this) => Some(this),
            _ => None,
        }
    }

    /// The float, if the value is one.
    pub fn as_float(&self) -> (r: Option<Float>)
        ensures
            r == (match self {
                Value::Float(f) => Some(*f),
                _ => None,
            }),
    {
        match *self {
            Value::Float(this) => Some(this),
            _ => None,
        }
    }

    /// The integer as a `u64`: `Some` exactly for an unsigned or positively
    /// signed integer that is at most `u64::MAX`.
    pub fn as_u64(&self) -> (r: Option<u64>)
        ensures
            r == (match self@.natural() {
                Some(n) if n <= u64::MAX => Some(n as u64),
                _ => None,
            }),
    {
        match *self {
            Value::Signed(Sign::Positive, magnitude) => magnitude.as_u64(),
            Value::Unsigned(magnitude) => magnitude.as_u64(),
            _ => None,
        }
    }

    /// The integer as an `i64`: `Some` exactly for an integer between
    /// `i64::MIN` and `i64::MAX`.
    pub fn as_i64(&self) -> (r: Option<i64>)
        ensures
            r == (match self@.integer() {
                Some(n) if i64::MIN <= n <= i64::MAX => Some(n as i64),
                _ => None,
            }),
    {
        match *self {
            Value::Signed(Sign::Positive, magnitude) => Value::narrow_i64(magnitude),
            Value::Unsigned(magnitude) => Value::narrow_i64(magnitude),
            Value::Signed(Sign::Negative, magnitude) => {
                match magnitude.as_u64() {
                    Some(u) => {
                        if u <= 0x7fff_ffff_ffff_ffff {
                            Some(-(u as i64))
                        } else if u == 0x8000_0000_0000_0000 {
                            Some(i64::MIN)
                        } else {
                            None
                        }
                    },
                    None => None,
                }
            },
            _ => None,
        }
    }

    /// A magnitude as a non-negative `i64`, if it fits.
    fn narrow_i64(magnitude: Integer) -> (r: Option<i64>)
        ensures
            r == (if magnitude@ <= i64::MAX {
                Some(magnitude@ as i64)
            } else {
                None
            }),
    {
        match magnitude.as_u64() {
            Some(u) => {
                if u <= 0x7fff_ffff_ffff_ffff {
                    Some(u as i64)
                } else {
                    None
                }
            },
            None => None,
        }
    }

    /// The integer as a `u128`: `Some` exactly for an unsigned or positively
    /// signed integer.
    pub fn as_u128(&self) -> (r: Option<u128>)
        ensures
            r == (match self@.natural() {
                Some(n) => Some(n as u128),
                None => None,
            }),
    {
        match *self {
            Value::Signed(Sign::Positive, magnitude) => magnitude.as_u128(),
            Value::Unsigned(magnitude) => magnitude.as_u128(),
            _ => None,
        }
    }

    /// The integer as an `i128`: `Some` exactly for an integer between
    /// `i128::MIN` and `i128::MAX`.
    pub fn as_i128(&self) -> (r: Option<i128>)
        ensures
            r == (match self@.integer() {
                Some(n) if i128::MIN <= n <= i128::MAX => Some(n as i128),
                _ => None,
            }),
    {
        match *self {
            Value::Signed(Sign::Positive, magnitude) => Value::narrow_i128(magnitude),
            Value::Unsigned(magnitude) => Value::narrow_i128(magnitude),
            Value::Signed(Sign::Negative, magnitude) => {
                let u = magnitude.raw;
                if u <= 0x7fff_ffff_ffff_ffff_ffff_ffff_ffff_ffff {
                    Some(-(u as i128))
                } else if u == 0x8000_0000_0000_0000_0000_0000_0000_0000 {
                    Some(i128::MIN)
                } else {
                    None
                }
            },
            _ => None,
        }
    }

    /// A magnitude as a non-negative `i128`, if it fits.
    fn narrow_i128(magnitude: Integer) -> (r: Option<i128>)
        ensures
            r == (if magnitude@ <= i128::MAX {
                Some(magnitude@ as i128)
            } else {
                None
            }),
    {
        let u = magnitude.raw;
        if u <= 0x7fff_ffff_ffff_ffff_ffff_ffff_ffff_ffff {
            Some(u as i128)
        } else {
            None
        }
    }
}

} // verus!

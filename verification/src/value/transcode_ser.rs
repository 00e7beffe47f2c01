//! The transcoder: the calls of the data model, gathered into a [`Value`]
//! instead of text.
//!
//! A call that carries a nested value takes that value already transcoded.
//! Sequences, maps and records are gathered by [`SeqSerializer`],
//! [`MapSerializer`] and [`RecSerializer`].

use crate::error::Error;
use crate::ser::{split_i128, wrapped};
use crate::value::float::Float;
use crate::value::map::{collected, field_views, reversed, FieldMap, ValueMap};
use crate::value::number::{Integer, Sign};
use crate::value::{value_views, Fields, FieldsView, Struct, StructView, Value, ValueView};
use vstd::prelude::*;
use vstd::slice::slice_to_vec;
use vstd::string::StringExecFns;

verus! {

/// The view of a signed integer: its sign, positive for zero, and its magnitude.
pub open spec fn signed_view(v: int) -> ValueView {
    if v >= 0 {
        ValueView::Signed(Sign::Positive, v as nat)
    } else {
        ValueView::Signed(Sign::Negative, (-v) as nat)
    }
}

/// The view of a record without fields.
pub open spec fn unit_view(name: Option<Seq<char>>) -> ValueView {
    ValueView::Struct(StructView { name, fields: None })
}

/// The views of the pairs of a map under construction, each of which has its value.
pub open spec fn pending_views(buf: Seq<(Value, Option<Value>)>) -> Seq<(ValueView, ValueView)> {
    Seq::new(buf.len(), |i: int| (buf[i].0@, buf[i].1->Some_0@))
}

/// A vector with room for `len` elements where the allocator grants it.
fn sized<T>(len: usize) -> (r: Vec<T>)
    ensures
        r@ == Seq::<T>::empty(),
{
    let mut buf: Vec<T> = Vec::new();
    match buf.try_reserve(len) {
        Ok(()) => {},
        Err(_) => {},
    }
    buf
}

/// The transcoder. It has no state: every call returns what it built.
#[derive(Debug, Copy, Clone)]
pub struct Serializer;

/// The elements of a sequence, or the unnamed fields of a record, gathered so far.
#[derive(Debug)]
pub struct SeqSerializer {
    pub name: Option<&'static str>,
    pub buf: Vec<Value>,
}

/// The pairs of a map gathered so far. The last pair may still lack its value.
#[derive(Debug)]
pub struct MapSerializer {
    pub buf: Vec<(Value, Option<Value>)>,
}

/// The named fields of a record gathered so far.
#[derive(Debug)]
pub struct RecSerializer {
    pub name: &'static str,
    pub buf: Vec<(&'static str, Value)>,
}

impl Serializer {
    pub fn serialize_bool(self, v: bool) -> (r: Result<Value, Error>)
        ensures
            r matches Ok(value) && value@ == ValueView::Bool(v),
    {
        Ok(Value::Bool(v))
    }

    pub fn serialize_i8(self, v: i8) -> (r: Result<Value, Error>)
        ensures
            r matches Ok(value) && value@ == signed_view(v as int),
    {
        self.serialize_i64(v as i64)
    }

    pub fn serialize_i16(self, v: i16) -> (r: Result<Value, Error>)
        ensures
            r matches Ok(value) && value@ == signed_view(v as int),
    {
        self.serialize_i64(v as i64)
    }

    pub fn serialize_i32(self, v: i32) -> (r: Result<Value, Error>)
        ensures
            r matches Ok(value) && value@ == signed_view(v as int),
    {
        self.serialize_i64(v as i64)
    }

    /// A signed integer becomes its sign, positive for zero, and its
    /// magnitude; the most negative value keeps its full magnitude.
    pub fn serialize_i64(self, v: i64) -> (r: Result<Value, Error>)
        ensures
            r matches Ok(value) && value@ == signed_view(v as int),
    {
        let (sign, magnitude) = split_i128(v as i128);
        Ok(Value::Signed(sign, magnitude))
    }

    /// A signed integer becomes its sign, positive for zero, and its
    /// magnitude; the most negative value keeps its full magnitude.
    pub fn serialize_i128(self, v: i128) -> (r: Result<Value, Error>)
        ensures
            r matches Ok(value) && value@ == signed_view(v as int),
    {
        let (sign, magnitude) = split_i128(v);
        Ok(Value::Signed(sign, magnitude))
    }

    pub fn serialize_u8(self, v: u8) -> (r: Result<Value, Error>)
        ensures
            r matches Ok(value) && value@ == ValueView::Unsigned(v as nat),
    {
        self.serialize_u64(v as u64)
    }

    pub fn serialize_u16(self, v: u16) -> (r: Result<Value, Error>)
        ensures
            r matches Ok(value) && value@ == ValueView::Unsigned(v as nat),
    {
        self.serialize_u64(v as u64)
    }

    pub fn serialize_u32(self, v: u32) -> (r: Result<Value, Error>)
        ensures
            r matches Ok(value) && value@ == ValueView::Unsigned(v as nat),
    {
        self.serialize_u64(v as u64)
    }

    pub fn serialize_u64(self, v: u64) -> (r: Result<Value, Error>)
        ensures
            r matches Ok(value) && value@ == ValueView::Unsigned(v as nat),
    {
        Ok(Value::Unsigned(Integer { raw: v as u128 }))
    }

    pub fn serialize_u128(self, v: u128) -> (r: Result<Value, Error>)
        ensures
            r matches Ok(value) && value@ == ValueView::Unsigned(v as nat),
    {
        Ok(Value::Unsigned(Integer { raw: v }))
    }

    pub fn serialize_f64(self, v: Float) -> (r: Result<Value, Error>)
        ensures
            r matches Ok(value) && value@ == ValueView::Float(v),
    {
        Ok(Value::Float(v))
    }

    pub fn serialize_char(self, v: char) -> (r: Result<Value, Error>)
        ensures
            r matches Ok(value) && value@ == ValueView::Char(v),
    {
        Ok(Value::Char(v))
    }

    pub fn serialize_str(self, v: &str) -> (r: Result<Value, Error>)
        ensures
            r matches Ok(value) && value@ == ValueView::String(v@),
    {
        Ok(Value::String(String::from_str(v)))
    }

    pub fn serialize_bytes(self, v: &[u8]) -> (r: Result<Value, Error>)
        ensures
            r matches Ok(value) && value@ == ValueView::Bytes(v@),
    {
        Ok(Value::Bytes(slice_to_vec(v)))
    }

    /// An absent optional value becomes the record `None` without fields.
    pub fn serialize_none(self) -> (r: Result<Value, Error>)
        ensures
            r matches Ok(value) && value@ == unit_view(Some("None"@)),
    {
        self.serialize_unit_variant("Option", 0, "None")
    }

    /// A present optional value becomes the record `Some` with the value as
    /// its one unnamed field.
    pub fn serialize_some(self, value: Value) -> (r: Result<Value, Error>)
        ensures
            r matches Ok(out) && out@ == wrapped("Some"@, value@),
    {
        self.serialize_newtype_variant("Option", 1, "Some", value)
    }

    /// The unit value becomes the record without name and fields.
    pub fn serialize_unit(self) -> (r: Result<Value, Error>)
        ensures
            r matches Ok(value) && value@ == unit_view(None),
    {
        Ok(Value::Struct(Struct { name: None, fields: None }))
    }

    /// A unit struct becomes a record with its name and no fields.
    pub fn serialize_unit_struct(self, name: &'static str) -> (r: Result<Value, Error>)
        ensures
            r matches Ok(value) && value@ == unit_view(Some(name@)),
    {
        Ok(Value::Struct(Struct { name: Some(name), fields: None }))
    }

    /// A unit variant becomes a record with the name of the variant and no
    /// fields; the name of the enum and the index play no part.
    pub fn serialize_unit_variant(
        self,
        name: &'static str,
        variant_index: u32,
        variant: &'static str,
    ) -> (r: Result<Value, Error>)
        ensures
            r matches Ok(value) && value@ == unit_view(Some(variant@)),
    {
        self.serialize_unit_struct(variant)
    }

    /// A newtype struct becomes the value inside it: the wrapper and its
    /// name leave no trace.
    pub fn serialize_newtype_struct(self, name: &'static str, value: Value) -> (r: Result<
        Value,
        Error,
    >)
        ensures
            r matches Ok(out) && out == value,
    {
        Ok(value)
    }

    /// A newtype variant becomes a record with the name of the variant and
    /// the value as its one unnamed field.
    pub fn serialize_newtype_variant(
        self,
        name: &'static str,
        variant_index: u32,
        variant: &'static str,
        value: Value,
    ) -> (r: Result<Value, Error>)
        ensures
            r matches Ok(out) && out@ == wrapped(variant@, value@),
    {
        let ghost inner = value@;
        let tuple_struct = match self.serialize_tuple_struct(variant, 1) {
            Ok(gathered) => gathered,
            Err(e) => {
                return Err(e);
            },
        };
        let mut tuple_struct = tuple_struct;
        tuple_struct.serialize_field(value);
        assert(value_views(tuple_struct.buf@) =~= seq![inner]);
        tuple_struct.end_tuple()
    }

    /// Starts a sequence, with room for `len` elements if the length is given.
    pub fn serialize_seq(self, len: Option<usize>) -> (r: Result<SeqSerializer, Error>)
        ensures
            r matches Ok(s) && s.name is None && s.buf@.len() == 0,
    {
        let room = match len {
            Some(n) => n,
            None => 0,
        };
        Ok(SeqSerializer { name: None, buf: sized(room) })
    }

    /// Starts a tuple: a record without a name, with unnamed fields.
    pub fn serialize_tuple(self, len: usize) -> (r: Result<SeqSerializer, Error>)
        ensures
            r matches Ok(s) && s.name is None && s.buf@.len() == 0,
    {
        Ok(SeqSerializer { name: None, buf: sized(len) })
    }

    /// Starts a tuple struct: a record with a name and unnamed fields.
    pub fn serialize_tuple_struct(self, name: &'static str, len: usize) -> (r: Result<
        SeqSerializer,
        Error,
    >)
        ensures
            r matches Ok(s) && s.name == Some(name) && s.buf@.len() == 0,
    {
        Ok(SeqSerializer { name: Some(name), buf: sized(len) })
    }

    /// Starts a tuple variant: a record with the name of the variant and
    /// unnamed fields.
    pub fn serialize_tuple_variant(
        self,
        name: &'static str,
        variant_index: u32,
        variant: &'static str,
        len: usize,
    ) -> (r: Result<SeqSerializer, Error>)
        ensures
            r matches Ok(s) && s.name == Some(variant) && s.buf@.len() == 0,
    {
        Ok(SeqSerializer { name: Some(variant), buf: sized(len) })
    }

    /// Starts a map, with room for `len` pairs if the length is given.
    pub fn serialize_map(self, len: Option<usize>) -> (r: Result<MapSerializer, Error>)
        ensures
            r matches Ok(s) && s.buf@.len() == 0,
    {
        let room = match len {
            Some(n) => n,
            None => 0,
        };
        Ok(MapSerializer { buf: sized(room) })
    }

    /// Starts a struct: a record with a name and named fields.
    pub fn serialize_struct(self, name: &'static str, len: usize) -> (r: Result<
        RecSerializer,
        Error,
    >)
        ensures
            r matches Ok(s) && s.name == name && s.buf@.len() == 0,
    {
        Ok(RecSerializer { name, buf: sized(len) })
    }

    /// Starts a struct variant: a record with the name of the variant and
    /// named fields.
    pub fn serialize_struct_variant(
        self,
        name: &'static str,
        variant_index: u32,
        variant: &'static str,
        len: usize,
    ) -> (r: Result<RecSerializer, Error>)
        ensures
            r matches Ok(s) && s.name == variant && s.buf@.len() == 0,
    {
        Ok(RecSerializer { name: variant, buf: sized(len) })
    }
}

impl SeqSerializer {
    /// Takes the next element of a sequence or of a tuple.
    pub fn serialize_element(&mut self, value: Value)
        ensures
            final(self).name == old(self).name,
            final(self).buf@ == old(self).buf@.push(value),
    {
        self.buf.push(value);
    }

    /// Takes the next field of a tuple struct or of a tuple variant.
    pub fn serialize_field(&mut self, value: Value)
        ensures
            final(self).name == old(self).name,
            final(self).buf@ == old(self).buf@.push(value),
    {
        self.buf.push(value);
    }

    /// Ends a sequence: the elements, in order, as an array.
    pub fn end(self) -> (r: Result<Value, Error>)
        requires
            self.name is None,
        ensures
            r matches Ok(value) && value@ == ValueView::Array(value_views(self.buf@)),
    {
        Ok(Value::Array(self.buf))
    }

    /// Ends a tuple, a tuple struct or a tuple variant: a record with the
    /// name, if any, and the fields, in order, unnamed.
    pub fn end_tuple(self) -> (r: Result<Value, Error>)
        ensures
            r matches Ok(value) && value@ == ValueView::Struct(
                StructView {
                    name: crate::value::name_view(self.name),
                    fields: Some(FieldsView::Unnamed(value_views(self.buf@))),
                },
            ),
    {
        let fields = Fields::Unnamed(self.buf);
        assert(fields@ == FieldsView::Unnamed(value_views(self.buf@)));
        let record = Struct { name: self.name, fields: Some(Box::new(fields)) };
        assert(record@.fields == Some(fields@));
        Ok(Value::Struct(record))
    }
}

impl MapSerializer {
    /// Whether the last pair has its value, or there is no pair yet.
    pub open spec fn settled(self) -> bool {
        self.buf@.len() > 0 ==> self.buf@.last().1 is Some
    }

    /// Whether every pair has its value.
    pub open spec fn complete(self) -> bool {
        forall|i: int| 0 <= i < self.buf@.len() ==> (#[trigger] self.buf@[i]).1 is Some
    }

    /// Takes a key: a new pair that waits for its value.
    pub fn serialize_key(&mut self, key: Value)
        ensures
            final(self).buf@ == old(self).buf@.push((key, None)),
    {
        self.buf.push((key, None));
    }

    /// Takes the value of the last key. There must be a last key, and it
    /// must still wait for its value.
    pub fn serialize_value(&mut self, value: Value)
        requires
            old(self).buf@.len() > 0,
            old(self).buf@.last().1 is None,
        ensures
            final(self).buf@ == old(self).buf@.drop_last().push(
                (old(self).buf@.last().0, Some(value)),
            ),
    {
        let (key, _) = self.buf.pop().unwrap();
        self.buf.push((key, Some(value)));
    }

    /// Takes a key and its value at once.
    pub fn serialize_entry(&mut self, key: Value, value: Value)
        ensures
            final(self).buf@ == old(self).buf@.push((key, Some(value))),
    {
        self.buf.push((key, Some(value)));
    }

    /// Ends the map: the pairs inserted one by one, in order, so that a key
    /// that came twice keeps its first place and its last value. Every key
    /// must have received its value.
    pub fn end(self) -> (r: Result<Value, Error>)
        requires
            self.complete(),
        ensures
            r matches Ok(value) && value@ == ValueView::Dict(collected(pending_views(self.buf@))),
    {
        let ghost all = self.buf@;
        let n = self.buf.len();
        let mut rest = reversed(self.buf);
        let mut pairs: Vec<(Value, Value)> = Vec::new();
        while rest.len() > 0
            invariant
                rest.len() + pairs.len() == n,
                all.len() == n,
                forall|j: int| 0 <= j < all.len() ==> (#[trigger] all[j]).1 is Some,
                forall|j: int| 0 <= j < rest.len() ==> rest[j] == all[n - 1 - j],
                forall|j: int|
                    0 <= j < pairs.len() ==> (#[trigger] pairs[j]).0 == all[j].0 && pairs[j].1
                        == all[j].1->Some_0,
            decreases rest.len(),
        {
            let ghost at = pairs.len() as int;
            let (key, value) = rest.pop().unwrap();
            assert((key, value) == all[at]);
            pairs.push((key, value.unwrap()));
        }
        assert(crate::value::map::pair_views(pairs@) =~= pending_views(all));
        Ok(Value::Dict(ValueMap::from_iter(pairs)))
    }
}

impl RecSerializer {
    /// Takes the next named field.
    pub fn serialize_field(&mut self, key: &'static str, value: Value)
        ensures
            final(self).name == old(self).name,
            final(self).buf@ == old(self).buf@.push((key, value)),
    {
        self.buf.push((key, value));
    }

    /// Ends a struct or a struct variant: a record with the name and the
    /// fields inserted one by one, in order, so that a name that came twice
    /// keeps its first place and its last value.
    pub fn end(self) -> (r: Result<Value, Error>)
        ensures
            r matches Ok(value) && value@ == ValueView::Struct(
                StructView {
                    name: Some(self.name@),
                    fields: Some(FieldsView::Named(collected(field_views(self.buf@)))),
                },
            ),
    {
        let fields = Fields::Named(FieldMap::from_iter(self.buf));
        assert(fields@ == FieldsView::Named(collected(field_views(self.buf@))));
        let record = Struct { name: Some(self.name), fields: Some(Box::new(fields)) };
        assert(record@.fields == Some(fields@));
        Ok(Value::Struct(record))
    }
}

} // verus!

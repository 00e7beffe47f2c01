//! The schemaless constructor: what each visit of a self-describing source
//! becomes when no target type is known.
//!
//! Every scalar visit becomes the scalar of the same kind. An optional
//! value becomes the record `None` or `Some`, a unit the empty record, a
//! newtype a nameless record with one field. A sequence visit hands over
//! its elements and a map visit its entries, each already built. An enum
//! cannot be built: its shape is not known from the visits alone.

use crate::error::{plain_message, Error};
use crate::ser::{split_i128, wrapped};
use crate::value::float::Float;
use crate::value::map::{collected, pair_views, ValueMap};
use crate::value::number::Integer;
use crate::value::transcode_ser::{signed_view, unit_view};
use crate::value::{value_views, Fields, FieldsView, Struct, StructView, Value, ValueView};
use vstd::prelude::*;
use vstd::slice::slice_to_vec;
use vstd::string::StringExecFns;

verus! {

/// The view of a nameless record with `inner` as its one unnamed field.
pub open spec fn newtype_view(inner: ValueView) -> ValueView {
    ValueView::Struct(StructView { name: None, fields: Some(FieldsView::Unnamed(seq![inner])) })
}

/// The error for an enum visit.
pub open spec fn enum_unsupported() -> crate::error::ErrorView {
    plain_message("cannot deserialize_any an enum"@)
}

/// The visitor that builds a [`Value`] from whatever it is shown.
#[derive(Debug, Copy, Clone)]
pub struct Visitor;

impl Visitor {
    /// An empty buffer for the elements of a sequence or the entries of a
    /// map, with room for as many as the source announces, where the
    /// allocator grants it.
    pub fn buffer<T>(self, size_hint: Option<usize>) -> (r: Vec<T>)
        ensures
            r@ == Seq::<T>::empty(),
    {
        let mut buf: Vec<T> = Vec::new();
        match size_hint {
            Some(n) => {
                match buf.try_reserve(n) {
                    Ok(()) => {},
                    Err(_) => {},
                }
            },
            None => {},
        }
        buf
    }

    pub fn visit_bool(self, v: bool) -> (r: Result<Value, Error>)
        ensures
            r matches Ok(value) && value@ == ValueView::Bool(v),
    {
        Ok(Value::Bool(v))
    }

    /// A signed integer becomes its sign, positive for zero, and its magnitude.
    pub fn visit_i64(self, v: i64) -> (r: Result<Value, Error>)
        ensures
            r matches Ok(value) && value@ == signed_view(v as int),
    {
        let (sign, magnitude) = split_i128(v as i128);
        Ok(Value::Signed(sign, magnitude))
    }

    /// A signed integer becomes its sign, positive for zero, and its magnitude.
    pub fn visit_i128(self, v: i128) -> (r: Result<Value, Error>)
        ensures
            r matches Ok(value) && value@ == signed_view(v as int),
    {
        let (sign, magnitude) = split_i128(v);
        Ok(Value::Signed(sign, magnitude))
    }

    pub fn visit_u64(self, v: u64) -> (r: Result<Value, Error>)
        ensures
            r matches Ok(value) && value@ == ValueView::Unsigned(v as nat),
    {
        Ok(Value::Unsigned(Integer { raw: v as u128 }))
    }

    pub fn visit_u128(self, v: u128) -> (r: Result<Value, Error>)
        ensures
            r matches Ok(value) && value@ == ValueView::Unsigned(v as nat),
    {
        Ok(Value::Unsigned(Integer { raw: v }))
    }

    pub fn visit_f64(self, v: Float) -> (r: Result<Value, Error>)
        ensures
            r matches Ok(value) && value@ == ValueView::Float(v),
    {
        Ok(Value::Float(v))
    }

    pub fn visit_char(self, v: char) -> (r: Result<Value, Error>)
        ensures
            r matches Ok(value) && value@ == ValueView::Char(v),
    {
        Ok(Value::Char(v))
    }

    pub fn visit_str(self, v: &str) -> (r: Result<Value, Error>)
        ensures
            r matches Ok(value) && value@ == ValueView::String(v@),
    {
        self.visit_string(String::from_str(v))
    }

    pub fn visit_string(self, v: String) -> (r: Result<Value, Error>)
        ensures
            r matches Ok(value) && value@ == ValueView::String(v@),
    {
        Ok(Value::String(v))
    }

    pub fn visit_bytes(self, v: &[u8]) -> (r: Result<Value, Error>)
        ensures
            r matches Ok(value) && value@ == ValueView::Bytes(v@),
    {
        self.visit_byte_buf(slice_to_vec(v))
    }

    pub fn visit_byte_buf(self, v: Vec<u8>) -> (r: Result<Value, Error>)
        ensures
            r matches Ok(value) && value@ == ValueView::Bytes(v@),
    {
        Ok(Value::Bytes(v))
    }

    /// An absent optional value becomes the record `None` without fields.
    pub fn visit_none(self) -> (r: Result<Value, Error>)
        ensures
            r matches Ok(value) && value@ == unit_view(Some("None"@)),
    {
        Ok(Value::Struct(Struct { name: Some("None"), fields: None }))
    }

    /// A present optional value becomes the record `Some` with the value,
    /// already built, as its one unnamed field.
    pub fn visit_some(self, inner: Value) -> (r: Result<Value, Error>)
        ensures
            r matches Ok(value) && value@ == wrapped("Some"@, inner@),
    {
        let ghost view = inner@;
        let mut items: Vec<Value> = Vec::new();
        items.push(inner);
        assert(value_views(items@) =~= seq![view]);
        let fields = Fields::Unnamed(items);
        assert(fields@ == FieldsView::Unnamed(seq![view]));
        let record = Struct { name: Some("Some"), fields: Some(Box::new(fields)) };
        assert(record@.fields == Some(fields@));
        Ok(Value::Struct(record))
    }

    /// The unit value becomes the record without name and fields.
    pub fn visit_unit(self) -> (r: Result<Value, Error>)
        ensures
            r matches Ok(value) && value@ == unit_view(None),
    {
        Ok(Value::Struct(Struct { name: None, fields: None }))
    }

    /// A newtype becomes a nameless record with the value, already built,
    /// as its one unnamed field: the visits do not tell the name.
    pub fn visit_newtype_struct(self, inner: Value) -> (r: Result<Value, Error>)
        ensures
            r matches Ok(value) && value@ == newtype_view(inner@),
    {
        let ghost view = inner@;
        let mut items: Vec<Value> = Vec::new();
        items.push(inner);
        assert(value_views(items@) =~= seq![view]);
        let fields = Fields::Unnamed(items);
        assert(fields@ == FieldsView::Unnamed(seq![view]));
        let record = Struct { name: None, fields: Some(Box::new(fields)) };
        assert(record@.fields == Some(fields@));
        Ok(Value::Struct(record))
    }

    /// A sequence becomes the array of its elements, in order.
    pub fn visit_seq(self, elements: Vec<Value>) -> (r: Result<Value, Error>)
        ensures
            r matches Ok(value) && value@ == ValueView::Array(value_views(elements@)),
    {
        Ok(Value::Array(elements))
    }

    /// A map becomes the map of its entries inserted one by one, in order:
    /// a key that comes twice keeps its first place and its last value.
    pub fn visit_map(self, entries: Vec<(Value, Value)>) -> (r: Result<Value, Error>)
        ensures
            r matches Ok(value) && value@ == ValueView::Dict(collected(pair_views(entries@))),
    {
        Ok(Value::Dict(ValueMap::from_iter(entries)))
    }

    /// An enum is refused, always.
    pub fn visit_enum(self) -> (r: Result<Value, Error>)
        ensures
            r matches Err(e) && e@ == enum_unsupported(),
    {
        Err(Error::message(String::from_str("cannot deserialize_any an enum")))
    }
}

} // verus!

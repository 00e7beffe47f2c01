//! Values as a source for the transcoder: a value, taken apart call by call
//! and gathered again.
//!
//! What comes out is the value in the form in which the transcoder builds
//! every value: a zero is positive, a record with named fields has a name,
//! and a key occurs once.

use crate::error::Error;
use crate::value::map::{collected, FieldMap, ValueMap};
use crate::value::ser::{head_text, out_of_range, out_of_range_error, renderable, renderable_fields};
use crate::value::transcode_ser::{pending_views, signed_view, Serializer};
use crate::value::{
    signed_number, value_views, Fields, FieldsView, Struct, StructView, Value, ValueView,
};
use vstd::prelude::*;

verus! {

/// What transcoding makes of `v`.
pub open spec fn transcoded(v: ValueView) -> ValueView
    decreases v,
{
    match v {
        ValueView::Struct(s) => ValueView::Struct(transcoded_struct(s)),
        ValueView::Dict(entries) => ValueView::Dict(collected(transcoded_entries(entries))),
        ValueView::Array(items) => ValueView::Array(transcoded_items(items)),
        ValueView::Signed(sign, magnitude) => signed_view(signed_number(sign, magnitude)),
        _ => v,
    }
}

/// What transcoding makes of a record: one with named fields and no name
/// gets the empty name.
pub open spec fn transcoded_struct(s: StructView) -> StructView
    decreases s,
{
    match s.fields {
        None => s,
        Some(FieldsView::Unnamed(items)) => StructView {
            name: s.name,
            fields: Some(FieldsView::Unnamed(transcoded_items(items))),
        },
        Some(FieldsView::Named(named)) => StructView {
            name: Some(head_text(s.name)),
            fields: Some(FieldsView::Named(collected(transcoded_fields(named)))),
        },
    }
}

/// Each value of a sequence, transcoded.
pub open spec fn transcoded_items(items: Seq<ValueView>) -> Seq<ValueView>
    decreases items,
{
    Seq::new(
        items.len(),
        |i: int|
            if 0 <= i < items.len() {
                transcoded(items[i])
            } else {
                ValueView::Bool(false)
            },
    )
}

/// Each key and each value of the entries of a map, transcoded.
pub open spec fn transcoded_entries(entries: Seq<(ValueView, ValueView)>) -> Seq<
    (ValueView, ValueView),
>
    decreases entries,
{
    Seq::new(
        entries.len(),
        |i: int|
            if 0 <= i < entries.len() {
                (transcoded(entries[i].0), transcoded(entries[i].1))
            } else {
                (ValueView::Bool(false), ValueView::Bool(false))
            },
    )
}

/// Each value of named fields, transcoded.
pub open spec fn transcoded_fields(named: Seq<(Seq<char>, ValueView)>) -> Seq<
    (Seq<char>, ValueView),
>
    decreases named,
{
    Seq::new(
        named.len(),
        |i: int|
            if 0 <= i < named.len() {
                (named[i].0, transcoded(named[i].1))
            } else {
                (Seq::empty(), ValueView::Bool(false))
            },
    )
}

/// Transcodes `value`: hands it to the transcoder call by call and returns
/// what the transcoder gathers. It fails exactly when `value` holds a signed
/// integer beyond the 128-bit range.
pub fn to_value(value: &Value) -> (r: Result<Value, Error>)
    ensures
        r is Ok <==> renderable(value@),
        r matches Ok(out) ==> out@ == transcoded(value@),
        r matches Err(e) ==> e@ == out_of_range(),
    decreases value@, 1nat,
{
    match value {
        Value::Struct(record) => {
            assert(value@->Struct_0 == record@);
            assert(decreases_to!(value@ => value@->Struct_0));
            transcode_struct(record)
        },
        Value::Dict(map) => {
            assert(value@->Dict_0 == map@);
            assert(decreases_to!(value@ => value@->Dict_0));
            transcode_entries(map)
        },
        Value::Array(items) => {
            assert(value@->Array_0 == value_views(items@));
            assert(decreases_to!(value@ => value@->Array_0));
            let gathered = match transcode_items(items) {
                Ok(gathered) => gathered,
                Err(e) => {
                    return Err(e);
                },
            };
            let mut seq = match Serializer.serialize_seq(Some(items.len())) {
                Ok(seq) => seq,
                Err(e) => {
                    return Err(e);
                },
            };
            seq.buf = gathered;
            seq.end()
        },
        Value::String(text) => Serializer.serialize_str(text.as_str()),
        Value::Bytes(bytes) => Serializer.serialize_bytes(bytes.as_slice()),
        Value::Bool(b) => Serializer.serialize_bool(*b),
        Value::Signed(..) => {
            if let Some(number) = value.as_i64() {
                Serializer.serialize_i64(number)
            } else if let Some(number) = value.as_i128() {
                Serializer.serialize_i128(number)
            } else {
                Err(out_of_range_error())
            }
        },
        Value::Unsigned(..) => {
            if let Some(number) = value.as_u64() {
                Serializer.serialize_u64(number)
            } else if let Some(number) = value.as_u128() {
                Serializer.serialize_u128(number)
            } else {
                Err(out_of_range_error())
            }
        },
        Value::Float(x) => Serializer.serialize_f64(*x),
        Value::Char(c) => Serializer.serialize_char(*c),
    }
}

/// Transcodes each value of `items`, in order.
fn transcode_items(items: &Vec<Value>) -> (r: Result<Vec<Value>, Error>)
    ensures
        r is Ok <==> (forall|i: int|
            0 <= i < items.len() ==> renderable(#[trigger] value_views(items@)[i])),
        r matches Ok(out) ==> value_views(out@) == transcoded_items(value_views(items@)),
        r matches Err(e) ==> e@ == out_of_range(),
    decreases value_views(items@), 0nat,
{
    let ghost views = value_views(items@);
    let mut out: Vec<Value> = Vec::new();
    let mut i: usize = 0;
    while i < items.len()
        invariant
            i <= items.len(),
            views == value_views(items@),
            out.len() == i,
            forall|j: int| 0 <= j < i ==> renderable(#[trigger] views[j]),
            forall|j: int| 0 <= j < i ==> (#[trigger] out[j])@ == transcoded(views[j]),
        decreases items.len() - i,
    {
        proof {
            assert(views[i as int] == items[i as int]@);
            vstd::seq::axiom_seq_index_decreases(views, i as int);
        }
        match to_value(&items[i]) {
            Ok(item) => {
                out.push(item);
            },
            Err(e) => {
                return Err(e);
            },
        }
        i = i + 1;
    }
    assert(value_views(out@) =~= transcoded_items(views));
    Ok(out)
}

/// Transcodes a map: every entry goes to the transcoder as a key and its value.
fn transcode_entries(map: &ValueMap) -> (r: Result<Value, Error>)
    ensures
        r is Ok <==> renderable(ValueView::Dict(map@)),
        r matches Ok(out) ==> out@ == ValueView::Dict(collected(transcoded_entries(map@))),
        r matches Err(e) ==> e@ == out_of_range(),
    decreases map@, 0nat,
{
    let ghost views = map@;
    assert(ValueView::Dict(views)->Dict_0 == views);
    let n = map.len();
    let mut gathered = match Serializer.serialize_map(Some(n)) {
        Ok(gathered) => gathered,
        Err(e) => {
            return Err(e);
        },
    };
    let mut i: usize = 0;
    while i < n
        invariant
            i <= n,
            n == views.len(),
            views == map@,
            gathered.buf.len() == i,
            forall|j: int|
                0 <= j < i ==> renderable((#[trigger] views[j]).0) && renderable(views[j].1),
            forall|j: int|
                0 <= j < i ==> {
                    &&& (#[trigger] gathered.buf[j]).0@ == transcoded(views[j].0)
                    &&& gathered.buf[j].1 matches Some(x) && x@ == transcoded(views[j].1)
                },
        decreases n - i,
    {
        let (key, value) = map.entry(i);
        proof {
            vstd::seq::axiom_seq_index_decreases(views, i as int);
            assert(decreases_to!(views[i as int] => views[i as int].0));
            assert(decreases_to!(views[i as int] => views[i as int].1));
            assert(ValueView::Dict(views)->Dict_0 == views);
        }
        let key = match to_value(key) {
            Ok(key) => key,
            Err(e) => {
                return Err(e);
            },
        };
        let value = match to_value(value) {
            Ok(value) => value,
            Err(e) => {
                return Err(e);
            },
        };
        gathered.serialize_entry(key, value);
        i = i + 1;
    }
    assert(pending_views(gathered.buf@) =~= transcoded_entries(views));
    assert(ValueView::Dict(views)->Dict_0 == views);
    gathered.end()
}

/// Transcodes a record.
fn transcode_struct(record: &Struct) -> (r: Result<Value, Error>)
    ensures
        r is Ok <==> renderable(ValueView::Struct(record@)),
        r matches Ok(out) ==> out@ == ValueView::Struct(transcoded_struct(record@)),
        r matches Err(e) ==> e@ == out_of_range(),
    decreases record@, 0nat,
{
    assert(ValueView::Struct(record@)->Struct_0 == record@);
    match &record.fields {
        None => {
            match record.name {
                Some(name) => Serializer.serialize_unit_struct(name),
                None => Serializer.serialize_unit(),
            }
        },
        Some(fields) => {
            assert(record@.fields->Some_0 == fields@);
            assert(decreases_to!(record@ => record@.fields->Some_0));
            assert(renderable(ValueView::Struct(record@)) == renderable_fields(fields@));
            match &**fields {
                Fields::Named(map) => {
                    assert(fields@->Named_0 == map@);
                    assert(decreases_to!(fields@ => fields@->Named_0));
                    transcode_named(record.name, map)
                },
                Fields::Unnamed(items) => {
                    assert(fields@->Unnamed_0 == value_views(items@));
                    assert(decreases_to!(fields@ => fields@->Unnamed_0));
                    let gathered = match transcode_items(items) {
                        Ok(gathered) => gathered,
                        Err(e) => {
                            return Err(e);
                        },
                    };
                    let opened = match record.name {
                        Some(name) => Serializer.serialize_tuple_struct(name, items.len()),
                        None => Serializer.serialize_tuple(items.len()),
                    };
                    let mut tuple = match opened {
                        Ok(tuple) => tuple,
                        Err(e) => {
                            return Err(e);
                        },
                    };
                    tuple.buf = gathered;
                    tuple.end_tuple()
                },
            }
        },
    }
}

/// Transcodes a record with named fields.
fn transcode_named(name: Option<&'static str>, map: &FieldMap) -> (r: Result<Value, Error>)
    ensures
        r is Ok <==> (forall|i: int| 0 <= i < map@.len() ==> renderable((#[trigger] map@[i]).1)),
        r matches Ok(out) ==> out@ == ValueView::Struct(
            StructView {
                name: Some(head_text(crate::value::name_view(name))),
                fields: Some(FieldsView::Named(collected(transcoded_fields(map@)))),
            },
        ),
        r matches Err(e) ==> e@ == out_of_range(),
    decreases map@, 0nat,
{
    let ghost views = map@;
    let n = map.len();
    let opened = match name {
        Some(name) => Serializer.serialize_struct(name, n),
        None => {
            proof {
                reveal_strlit("");
                assert(""@ =~= Seq::<char>::empty());
            }
            Serializer.serialize_struct("", n)
        },
    };
    let mut gathered = match opened {
        Ok(gathered) => gathered,
        Err(e) => {
            return Err(e);
        },
    };
    let mut i: usize = 0;
    while i < n
        invariant
            i <= n,
            n == views.len(),
            views == map@,
            gathered.name@ == head_text(crate::value::name_view(name)),
            gathered.buf.len() == i,
            forall|j: int| 0 <= j < i ==> renderable((#[trigger] views[j]).1),
            forall|j: int|
                0 <= j < i ==> {
                    &&& (#[trigger] gathered.buf[j]).0@ == views[j].0
                    &&& gathered.buf[j].1@ == transcoded(views[j].1)
                },
        decreases n - i,
    {
        let (key, value) = map.entry(i);
        proof {
            vstd::seq::axiom_seq_index_decreases(views, i as int);
            assert(decreases_to!(views[i as int] => views[i as int].1));
        }
        let value = match to_value(value) {
            Ok(value) => value,
            Err(e) => {
                return Err(e);
            },
        };
        gathered.serialize_field(key, value);
        i = i + 1;
    }
    assert(crate::value::map::field_views(gathered.buf@) =~= transcoded_fields(views));
    gathered.end()
}

} // verus!

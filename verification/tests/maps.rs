use ron_codec::value::de::Visitor;
use ron_codec::value::map::{FieldMap, ValueMap};
use ron_codec::value::transcode_ser::Serializer;
use ron_codec::value::{Fields, Struct};
use ron_codec::{Code, Float, Integer, Sign, Value};
use std::collections::hash_map::DefaultHasher;
use std::hash::{Hash, Hasher};

fn hash_of<T: Hash>(value: &T) -> u64 {
    let mut hasher = DefaultHasher::new();
    value.hash(&mut hasher);
    hasher.finish()
}

fn text(s: &str) -> Value {
    Value::String(s.to_string())
}

fn number(n: u128) -> Value {
    Value::Unsigned(Integer { raw: n })
}

#[test]
fn value_map_keeps_insertion_order() {
    let map = ValueMap::from_iter(vec![(text("b"), number(2)), (text("a"), number(1))]);
    assert_eq!(map.len(), 2);
    assert!(!map.is_empty());
    assert_eq!(map.get(0), Some((&text("b"), &number(2))));
    assert_eq!(map.get(1), Some((&text("a"), &number(1))));
    assert_eq!(map.get(2), None);
}

#[test]
fn value_map_repeated_key_keeps_place_and_takes_last_value() {
    let map = ValueMap::from_iter(vec![
        (text("a"), number(1)),
        (text("b"), number(2)),
        (text("a"), number(3)),
    ]);
    assert_eq!(map.len(), 2);
    assert_eq!(map.get(0), Some((&text("a"), &number(3))));
    assert_eq!(map.get(1), Some((&text("b"), &number(2))));
}

#[test]
fn value_map_equality_clone_and_hash() {
    let forward = ValueMap::from_iter(vec![(text("a"), number(1)), (text("b"), number(2))]);
    let backward = ValueMap::from_iter(vec![(text("b"), number(2)), (text("a"), number(1))]);
    let again = ValueMap::from_iter(vec![(text("a"), number(1)), (text("b"), number(2))]);
    assert!(forward == again);
    assert!(forward != backward);
    assert!(forward.clone() == forward);
    assert_eq!(hash_of(&forward), hash_of(&again));
    assert_ne!(hash_of(&forward), hash_of(&backward));
    assert!(ValueMap::new().is_empty());
    assert_eq!(ValueMap::new().len(), 0);
    assert!(ValueMap::new() == ValueMap::from_iter(vec![]));
}

#[test]
fn value_map_tells_keys_apart_by_content() {
    let nan = Value::Float(Float::from_bits(0x7ff8_0000_0000_0000));
    let other_nan = Value::Float(Float::from_bits(0x7ff8_0000_0000_0001));
    let map = ValueMap::from_iter(vec![
        (nan.clone(), number(1)),
        (other_nan.clone(), number(2)),
        (nan.clone(), number(3)),
        (Value::Signed(Sign::Positive, Integer { raw: 1 }), number(4)),
        (number(1), number(5)),
    ]);
    assert_eq!(map.len(), 4);
    assert_eq!(map.get(0), Some((&nan, &number(3))));
    assert_eq!(map.get(1), Some((&other_nan, &number(2))));
    assert_eq!(map.get(3), Some((&number(1), &number(5))));
}

#[test]
fn field_map_keeps_order_and_last_value() {
    let map = FieldMap::from_iter(vec![("x", number(1)), ("y", number(2)), ("x", number(3))]);
    assert_eq!(map.len(), 2);
    assert!(!map.is_empty());
    assert_eq!(map.get(0), Some(("x", &number(3))));
    assert_eq!(map.get(1), Some(("y", &number(2))));
    assert_eq!(map.get(2), None);
    let other = FieldMap::from_iter(vec![("y", number(2)), ("x", number(3))]);
    assert!(map != other);
    assert!(map.clone() == map);
    assert_eq!(hash_of(&map), hash_of(&map.clone()));
    assert_ne!(hash_of(&map), hash_of(&other));
    assert!(FieldMap::new().is_empty());
    assert_eq!(FieldMap::new().len(), 0);
}

#[test]
fn transcoder_scalars() {
    assert_eq!(Serializer.serialize_bool(true).unwrap(), Value::Bool(true));
    assert_eq!(
        Serializer.serialize_i16(-300).unwrap(),
        Value::Signed(Sign::Negative, Integer { raw: 300 })
    );
    assert_eq!(
        Serializer.serialize_i64(i64::MIN).unwrap(),
        Value::Signed(Sign::Negative, Integer { raw: 1u128 << 63 })
    );
    assert_eq!(
        Serializer.serialize_i128(i128::MIN).unwrap(),
        Value::Signed(Sign::Negative, Integer { raw: 1u128 << 127 })
    );
    assert_eq!(
        Serializer.serialize_i32(0).unwrap(),
        Value::Signed(Sign::Positive, Integer { raw: 0 })
    );
    assert_eq!(Serializer.serialize_u8(9).unwrap(), number(9));
    assert_eq!(Serializer.serialize_u16(9).unwrap(), number(9));
    assert_eq!(Serializer.serialize_u64(u64::MAX).unwrap(), number(u64::MAX as u128));
    assert_eq!(Serializer.serialize_u128(u128::MAX).unwrap(), number(u128::MAX));
    assert_eq!(Serializer.serialize_char('x').unwrap(), Value::Char('x'));
    assert_eq!(Serializer.serialize_str("abc").unwrap(), text("abc"));
    assert_eq!(Serializer.serialize_bytes(&[1, 2]).unwrap(), Value::Bytes(vec![1, 2]));
    let half = Float::from_bits(0.5f64.to_bits());
    assert_eq!(Serializer.serialize_f64(half).unwrap(), Value::Float(half));
}

#[test]
fn transcoder_records() {
    let unit = Value::Struct(Struct { name: None, fields: None });
    assert_eq!(Serializer.serialize_unit().unwrap(), unit);
    let named = Value::Struct(Struct { name: Some("Unit"), fields: None });
    assert_eq!(Serializer.serialize_unit_struct("Unit").unwrap(), named);
    assert_eq!(Serializer.serialize_unit_variant("Enum", 3, "Unit").unwrap(), named);
    assert_eq!(
        Serializer.serialize_none().unwrap(),
        Value::Struct(Struct { name: Some("None"), fields: None })
    );
    assert_eq!(Serializer.serialize_newtype_struct("Wrapper", number(4)).unwrap(), number(4));
    let some = Value::Struct(Struct {
        name: Some("Some"),
        fields: Some(Box::new(Fields::Unnamed(vec![number(4)]))),
    });
    assert_eq!(Serializer.serialize_some(number(4)).unwrap(), some);
    assert_eq!(Serializer.serialize_newtype_variant("Option", 1, "Some", number(4)).unwrap(), some);

    let mut tuple = Serializer.serialize_tuple(2).unwrap();
    tuple.serialize_element(number(1));
    tuple.serialize_element(text("two"));
    assert_eq!(
        tuple.end_tuple().unwrap(),
        Value::Struct(Struct {
            name: None,
            fields: Some(Box::new(Fields::Unnamed(vec![number(1), text("two")]))),
        })
    );

    let mut variant = Serializer.serialize_tuple_variant("Enum", 0, "Pair", 2).unwrap();
    variant.serialize_field(number(1));
    variant.serialize_field(number(2));
    assert_eq!(
        variant.end_tuple().unwrap(),
        Value::Struct(Struct {
            name: Some("Pair"),
            fields: Some(Box::new(Fields::Unnamed(vec![number(1), number(2)]))),
        })
    );

    let mut seq = Serializer.serialize_seq(None).unwrap();
    seq.serialize_element(number(1));
    assert_eq!(seq.end().unwrap(), Value::Array(vec![number(1)]));

    let mut rec = Serializer.serialize_struct_variant("Enum", 1, "Rec", 2).unwrap();
    rec.serialize_field("a", number(1));
    rec.serialize_field("b", number(2));
    rec.serialize_field("a", number(3));
    assert_eq!(
        rec.end().unwrap(),
        Value::Struct(Struct {
            name: Some("Rec"),
            fields: Some(Box::new(Fields::Named(FieldMap::from_iter(vec![
                ("a", number(3)),
                ("b", number(2)),
            ])))),
        })
    );
}

#[test]
fn transcoder_map_by_entries_and_by_halves() {
    let mut map = Serializer.serialize_map(None).unwrap();
    map.serialize_entry(text("k"), number(1));
    map.serialize_key(text("l"));
    map.serialize_value(number(2));
    map.serialize_entry(text("k"), number(3));
    assert_eq!(
        map.end().unwrap(),
        Value::Dict(ValueMap::from_iter(vec![(text("k"), number(3)), (text("l"), number(2))]))
    );
}

#[test]
fn visitor_scalars_and_records() {
    assert_eq!(Visitor.visit_bool(false).unwrap(), Value::Bool(false));
    assert_eq!(
        Visitor.visit_i64(-9).unwrap(),
        Value::Signed(Sign::Negative, Integer { raw: 9 })
    );
    assert_eq!(
        Visitor.visit_i128(i128::MIN).unwrap(),
        Value::Signed(Sign::Negative, Integer { raw: 1u128 << 127 })
    );
    assert_eq!(Visitor.visit_u64(9).unwrap(), number(9));
    assert_eq!(Visitor.visit_u128(u128::MAX).unwrap(), number(u128::MAX));
    let half = Float::from_bits(0.5f64.to_bits());
    assert_eq!(Visitor.visit_f64(half).unwrap(), Value::Float(half));
    assert_eq!(Visitor.visit_char('c').unwrap(), Value::Char('c'));
    assert_eq!(Visitor.visit_str("s").unwrap(), text("s"));
    assert_eq!(Visitor.visit_string("s".to_string()).unwrap(), text("s"));
    assert_eq!(Visitor.visit_bytes(&[7]).unwrap(), Value::Bytes(vec![7]));
    assert_eq!(Visitor.visit_byte_buf(vec![7]).unwrap(), Value::Bytes(vec![7]));
    assert_eq!(
        Visitor.visit_none().unwrap(),
        Value::Struct(Struct { name: Some("None"), fields: None })
    );
    assert_eq!(
        Visitor.visit_some(number(1)).unwrap(),
        Value::Struct(Struct {
            name: Some("Some"),
            fields: Some(Box::new(Fields::Unnamed(vec![number(1)]))),
        })
    );
    assert_eq!(Visitor.visit_unit().unwrap(), Value::Struct(Struct { name: None, fields: None }));
    assert_eq!(
        Visitor.visit_newtype_struct(number(1)).unwrap(),
        Value::Struct(Struct {
            name: None,
            fields: Some(Box::new(Fields::Unnamed(vec![number(1)]))),
        })
    );
    let entries = vec![(text("a"), number(1)), (text("b"), number(2)), (text("a"), number(3))];
    assert_eq!(
        Visitor.visit_map(entries).unwrap(),
        Value::Dict(ValueMap::from_iter(vec![(text("a"), number(3)), (text("b"), number(2))]))
    );
    let empty: Vec<Value> = Visitor.buffer(None);
    assert_eq!(Visitor.visit_seq(empty).unwrap(), Value::Array(vec![]));
    match Visitor.visit_enum() {
        Err(e) => assert!(matches!(e.code(), Code::Message(_))),
        Ok(_) => panic!("an enum visit must fail"),
    }
}

#[test]
fn value_transcoded_into_value() {
    let source = Value::Array(vec![
        Value::Signed(Sign::Negative, Integer { raw: 0 }),
        Value::Signed(Sign::Negative, Integer { raw: 4 }),
        Value::Struct(Struct {
            name: None,
            fields: Some(Box::new(Fields::Named(FieldMap::from_iter(vec![("a", number(1))])))),
        }),
        Value::Struct(Struct {
            name: Some("T"),
            fields: Some(Box::new(Fields::Unnamed(vec![text("x"), Value::Bytes(vec![1])]))),
        }),
        Value::Struct(Struct { name: None, fields: None }),
        Value::Struct(Struct { name: Some("U"), fields: None }),
        Value::Struct(Struct { name: None, fields: Some(Box::new(Fields::Unnamed(vec![]))) }),
        Value::Dict(ValueMap::from_iter(vec![
            (Value::Signed(Sign::Negative, Integer { raw: 0 }), text("first")),
            (Value::Signed(Sign::Positive, Integer { raw: 0 }), text("second")),
            (Value::Char('c'), Value::Bool(true)),
        ])),
    ]);
    let expected = Value::Array(vec![
        Value::Signed(Sign::Positive, Integer { raw: 0 }),
        Value::Signed(Sign::Negative, Integer { raw: 4 }),
        Value::Struct(Struct {
            name: Some(""),
            fields: Some(Box::new(Fields::Named(FieldMap::from_iter(vec![("a", number(1))])))),
        }),
        Value::Struct(Struct {
            name: Some("T"),
            fields: Some(Box::new(Fields::Unnamed(vec![text("x"), Value::Bytes(vec![1])]))),
        }),
        Value::Struct(Struct { name: None, fields: None }),
        Value::Struct(Struct { name: Some("U"), fields: None }),
        Value::Struct(Struct { name: None, fields: Some(Box::new(Fields::Unnamed(vec![]))) }),
        Value::Dict(ValueMap::from_iter(vec![
            (Value::Signed(Sign::Positive, Integer { raw: 0 }), text("second")),
            (Value::Char('c'), Value::Bool(true)),
        ])),
    ]);
    assert_eq!(ron_codec::to_value(&source).unwrap(), expected);
    assert_eq!(ron_codec::to_value(&expected).unwrap(), expected);
}

#[test]
fn value_beyond_128_bits_is_not_transcoded() {
    let source = Value::Array(vec![
        number(1),
        Value::Signed(Sign::Negative, Integer { raw: (1u128 << 127) + 1 }),
    ]);
    let err = ron_codec::to_value(&source).unwrap_err();
    assert_eq!(err.code(), &Code::Message("signed integer outside i128 range".to_string()));
    let edge = Value::Signed(Sign::Negative, Integer { raw: 1u128 << 127 });
    assert_eq!(ron_codec::to_value(&edge).unwrap(), edge);
}

use ron_codec::pretty::{Config, Indent};
use ron_codec::ser::{to_string, to_vec, to_writer};
use ron_codec::value::de::Visitor;
use ron_codec::value::transcode_ser::Serializer;
use ron_codec::{Code, Error, Float, Integer, Position, Sign, Value};

fn printer(bits: u64) -> String {
    lexical::to_string(f64::from_bits(bits))
}

fn point() -> Value {
    let mut rec = Serializer.serialize_struct("Point", 2).unwrap();
    rec.serialize_field("x", Serializer.serialize_i32(1).unwrap());
    rec.serialize_field("y", Serializer.serialize_i32(-2).unwrap());
    rec.end().unwrap()
}

fn letters(first: &str, second: &str) -> Value {
    let number = |key: &str| if key == "a" { 1u32 } else { 2u32 };
    let mut map = Serializer.serialize_map(Some(2)).unwrap();
    map.serialize_key(Serializer.serialize_str(first).unwrap());
    map.serialize_value(Serializer.serialize_u32(number(first)).unwrap());
    map.serialize_key(Serializer.serialize_str(second).unwrap());
    map.serialize_value(Serializer.serialize_u32(number(second)).unwrap());
    map.end().unwrap()
}

#[test]
fn named_struct_with_default_config() {
    let text = to_string(&point(), Config::default(), printer).unwrap();
    assert_eq!(text, "Point(\n    x: +1,\n    y: -2,\n)");
}

#[test]
fn none_is_a_bare_name() {
    let none = Serializer.serialize_none().unwrap();
    assert_eq!(to_string(&none, Config::default(), printer).unwrap(), "None");
}

#[test]
fn some_is_a_tuple_struct_of_one_field() {
    let some = Serializer.serialize_some(Serializer.serialize_i32(5).unwrap()).unwrap();
    assert_eq!(to_string(&some, Config::default(), printer).unwrap(), "Some(\n    +5,\n)");
    let flat = Config { depth_limit: 0, indent: Indent::Spaces(4) };
    assert_eq!(to_string(&some, flat, printer).unwrap(), "Some( +5 )");
}

#[test]
fn map_with_default_config() {
    let text = to_string(&letters("a", "b"), Config::default(), printer).unwrap();
    assert_eq!(text, "{\n    \"a\": 1,\n    \"b\": 2,\n}");
}

#[test]
fn map_order_is_part_of_the_value() {
    let forward = letters("a", "b");
    let backward = letters("b", "a");
    assert_ne!(forward, backward);
    assert_eq!(forward, letters("a", "b"));
    let text = to_string(&backward, Config::default(), printer).unwrap();
    assert_eq!(text, "{\n    \"b\": 2,\n    \"a\": 1,\n}");
}

#[test]
fn enum_visit_fails_with_a_message() {
    let err = Visitor.visit_enum().unwrap_err();
    assert_eq!(err.position(), Position { line: 0, col: 0 });
    assert_eq!(err.code(), &Code::Message("cannot deserialize_any an enum".to_string()));
}

#[test]
fn sequence_visit_of_two_integers() {
    let mut elements: Vec<Value> = Visitor.buffer(Some(2));
    elements.push(Visitor.visit_u64(1).unwrap());
    elements.push(Visitor.visit_u64(2).unwrap());
    let value = Visitor.visit_seq(elements).unwrap();
    assert_eq!(
        value,
        Value::Array(vec![
            Value::Unsigned(Integer { raw: 1 }),
            Value::Unsigned(Integer { raw: 2 }),
        ])
    );
}

#[test]
fn error_position_survives_display() {
    let err = Error::at(Position { line: 3, col: 7 }, "bad token".to_string());
    let shown = err.to_string();
    assert_eq!(shown, "3:7: bad token");
    let back = Error::custom(shown);
    assert_eq!(back.position(), Position { line: 3, col: 7 });
    assert_eq!(back.code(), &Code::Message(" bad token".to_string()));
}

#[test]
fn rendering_twice_gives_the_same_text() {
    let value = point();
    let first = to_string(&value, Config::default(), printer).unwrap();
    let second = to_string(&value, Config::default(), printer).unwrap();
    assert_eq!(first, second);
    assert_eq!(to_vec(&value, Config::default(), printer).unwrap(), first.into_bytes());
}

#[test]
fn every_signed_width_keeps_sign_and_digits() {
    let cases: Vec<(i128, &str)> = vec![
        (0, "+0"),
        (7, "+7"),
        (-7, "-7"),
        (i64::MAX as i128, "+9223372036854775807"),
        (i64::MIN as i128, "-9223372036854775808"),
        (i128::MAX, "+170141183460469231731687303715884105727"),
        (i128::MIN, "-170141183460469231731687303715884105728"),
    ];
    for (number, expected) in cases {
        let value = Serializer.serialize_i128(number).unwrap();
        assert_eq!(to_string(&value, Config::default(), printer).unwrap(), expected);
    }
    let narrow = Serializer.serialize_i8(i8::MIN).unwrap();
    assert_eq!(narrow, Value::Signed(Sign::Negative, Integer { raw: 128 }));
    assert_eq!(to_string(&narrow, Config::default(), printer).unwrap(), "-128");
}

#[test]
fn signed_beyond_128_bits_is_refused() {
    let too_big = Value::Signed(Sign::Positive, Integer { raw: 1u128 << 127 });
    let err = to_string(&too_big, Config::default(), printer).unwrap_err();
    assert_eq!(err.code(), &Code::Message("signed integer outside i128 range".to_string()));
    assert_eq!(err.position(), Position { line: 0, col: 0 });
    let too_small = Value::Signed(Sign::Negative, Integer { raw: (1u128 << 127) + 1 });
    assert!(to_string(&too_small, Config::default(), printer).is_err());
    let mut sink = String::from("kept:");
    assert!(to_writer(&mut sink, &too_big, Config::default(), printer).is_err());
    assert_eq!(sink, "kept:");
    let inside = Value::Array(vec![Value::Bool(true), too_big]);
    assert!(to_writer(&mut sink, &inside, Config::default(), printer).is_err());
    assert_eq!(sink, "kept:[\n    true,\n    ");
}

#[test]
fn negative_zero_is_written_as_positive() {
    let value = Value::Signed(Sign::Negative, Integer { raw: 0 });
    assert_eq!(to_string(&value, Config::default(), printer).unwrap(), "+0");
}

#[test]
fn depth_limit_zero_breaks_no_line() {
    let flat = Config { depth_limit: 0, indent: Indent::Spaces(4) };
    let nested = Value::Array(vec![point(), letters("a", "b"), Value::Array(vec![])]);
    let text = to_string(&nested, flat, printer).unwrap();
    assert_eq!(text, "[ Point( x:+1, y:-2 ), { \"a\":1, \"b\":2 }, [] ]");
    assert!(!text.contains('\n'));
}

#[test]
fn depth_limit_one_keeps_deeper_levels_on_one_line() {
    let shallow = Config { depth_limit: 1, indent: Indent::Tabs(1) };
    let nested = Value::Array(vec![point(), Value::Bool(false)]);
    let text = to_string(&nested, shallow, printer).unwrap();
    assert_eq!(text, "[\n\tPoint( x: +1, y: -2\n\t),\n\tfalse,\n]");
}

#[test]
fn floats_are_written_by_the_printer() {
    let value = Value::Array(vec![
        Value::Float(Float::from_bits(1.5f64.to_bits())),
        Value::Float(Float::from_bits((-0.25f64).to_bits())),
    ]);
    let flat = Config { depth_limit: 0, indent: Indent::Spaces(0) };
    assert_eq!(to_string(&value, flat, printer).unwrap(), "[ 1.5, -0.25 ]");
}

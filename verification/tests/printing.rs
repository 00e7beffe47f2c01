use ron_codec::pretty::{Config, Formatter, Indent};
use ron_codec::ser::{split_i128, Serializer};
use ron_codec::value::map::{FieldMap, ValueMap};
use ron_codec::value::{Fields, Struct};
use ron_codec::{to_string, Code, Error, Float, Integer, Position, Sign, Value};

fn printer(bits: u64) -> String {
    lexical::to_string(f64::from_bits(bits))
}

fn flat() -> Config {
    Config { depth_limit: 0, indent: Indent::Spaces(4) }
}

fn number(n: u128) -> Value {
    Value::Unsigned(Integer { raw: n })
}

#[test]
fn defaults() {
    assert_eq!(Indent::default(), Indent::Spaces(4));
    assert_eq!(Config::default(), Config { depth_limit: usize::MAX, indent: Indent::Spaces(4) });
    assert_eq!(
        Formatter::default(),
        Formatter { config: Config::default(), depth: 0, not_first: false }
    );
    assert_eq!(Formatter::new(flat()), Formatter { config: flat(), depth: 0, not_first: false });
    assert_eq!(Position::default(), Position { line: 0, col: 0 });
    assert!(!Position::default().is_known());
    assert!(Position { line: 0, col: 1 }.is_known());
}

#[test]
fn indent_steps() {
    assert_eq!(Indent::Spaces(0).to_string(), "");
    assert_eq!(Indent::Spaces(3).to_string(), "   ");
    assert_eq!(Indent::Tabs(2).to_string(), "\t\t");
    assert_eq!(Indent::Spaces(255).to_string(), " ".repeat(255));
    assert_eq!(Indent::Tabs(255).to_string().len(), 255);
}

#[test]
fn space_and_indent_follow_the_depth_limit() {
    let deep = Config { depth_limit: 2, indent: Indent::Spaces(2) };
    let mut w = String::new();
    deep.write_space(&mut w);
    assert_eq!(w, " ");
    w.clear();
    flat().write_space(&mut w);
    assert_eq!(w, "");
    deep.write_indent(&mut w, 0);
    assert_eq!(w, "\n");
    w.clear();
    deep.write_indent(&mut w, 2);
    assert_eq!(w, "\n    ");
    w.clear();
    deep.write_indent(&mut w, 3);
    assert_eq!(w, " ");
    w.clear();
    flat().write_indent(&mut w, 1);
    assert_eq!(w, " ");
    w.clear();
    flat().write_indent(&mut w, 0);
    assert_eq!(w, " ");
    w.clear();
    flat().write_indent(&mut w, usize::MAX);
    assert_eq!(w, " ");
    w.clear();
    flat().write_close(&mut w, 0, true);
    assert_eq!(w, " ");
    w.clear();
    deep.write_close(&mut w, 1, true);
    assert_eq!(w, ",\n  ");
    w.clear();
    deep.write_close(&mut w, 2, true);
    assert_eq!(w, "\n    ");
    w.clear();
    deep.write_close(&mut w, 1, false);
    assert_eq!(w, "");
}

#[test]
fn primitive_tokens() {
    let mut f = Formatter::default();
    let mut w = String::new();
    f.write_bool(&mut w, true);
    w.push(' ');
    f.write_bool(&mut w, false);
    w.push(' ');
    f.write_signed(&mut w, (Sign::Positive, Integer { raw: 12 }));
    w.push(' ');
    f.write_signed(&mut w, (Sign::Negative, Integer { raw: 0 }));
    w.push(' ');
    f.write_unsigned(&mut w, Integer { raw: u128::MAX });
    w.push(' ');
    f.write_unit(&mut w, None);
    w.push(' ');
    f.write_unit(&mut w, Some("Name"));
    w.push(' ');
    f.write_float(&mut w, "1.5");
    assert_eq!(w, "true false +12 -0 340282366920938463463374607431768211455 () Name 1.5");
    assert_eq!(f, Formatter::default());
}

#[test]
fn escaped_tokens() {
    let mut f = Formatter::default();
    let mut w = String::new();
    f.write_string(&mut w, "a\"b\\c\nd\te'");
    assert_eq!(w, "\"a\\\"b\\\\c\\nd\\te\\'\"");
    w.clear();
    f.write_string(&mut w, "");
    assert_eq!(w, "\"\"");
    w.clear();
    f.write_char(&mut w, '\'');
    f.write_char(&mut w, '\n');
    f.write_char(&mut w, 'x');
    f.write_char(&mut w, '"');
    assert_eq!(w, "'\\'''\\n''x''\\\"'");
    w.clear();
    f.write_bytes(&mut w, b"hello");
    assert_eq!(w, "b\"aGVsbG8=\"");
    w.clear();
    f.write_bytes(&mut w, &[]);
    assert_eq!(w, "b\"\"");
    w.clear();
    f.write_bytes(&mut w, &[0xfb, 0xff]);
    assert_eq!(w, "b\"+/8=\"");
}

#[test]
fn brackets_step_by_step() {
    let mut f = Formatter::new(Config { depth_limit: 8, indent: Indent::Spaces(1) });
    let mut w = String::new();
    f.begin_struct(&mut w, Some("S"));
    assert_eq!((f.depth, f.not_first), (1, false));
    f.begin_struct_field(&mut w, Some("a"));
    f.begin_array(&mut w);
    assert_eq!((f.depth, f.not_first), (2, false));
    f.end_array(&mut w);
    assert_eq!((f.depth, f.not_first), (1, true));
    f.end_struct_field(&mut w);
    f.begin_struct_field(&mut w, None);
    f.begin_map(&mut w);
    f.begin_map_key(&mut w);
    f.write_bool(&mut w, true);
    f.end_map_key(&mut w);
    f.begin_map_value(&mut w);
    f.write_bool(&mut w, false);
    f.end_map_value(&mut w);
    f.end_map(&mut w);
    f.end_struct_field(&mut w);
    f.end_struct(&mut w);
    assert_eq!((f.depth, f.not_first), (0, true));
    assert_eq!(w, "S(\n a: [],\n {\n  true: false,\n },\n)");
}

#[test]
fn array_members_step_by_step() {
    let mut f = Formatter::new(flat());
    let mut w = String::new();
    f.begin_array(&mut w);
    f.begin_array_member(&mut w);
    f.write_unit(&mut w, None);
    f.end_array_member(&mut w);
    f.begin_array_member(&mut w);
    f.begin_struct(&mut w, None);
    f.end_struct(&mut w);
    f.end_array_member(&mut w);
    f.end_array(&mut w);
    assert_eq!(w, "[ (), () ]");
}

#[test]
fn serializer_calls() {
    let mut s = Serializer::new(flat(), printer);
    s.serialize_i8(-1);
    s.serialize_i16(2);
    s.serialize_i32(-3);
    s.serialize_i64(4);
    s.serialize_i128(i128::MIN);
    s.serialize_u8(5);
    s.serialize_u16(6);
    s.serialize_u32(7);
    s.serialize_u64(8);
    s.serialize_u128(9);
    s.serialize_bool(true);
    s.serialize_char('c');
    s.serialize_str("s");
    s.serialize_bytes(&[0]);
    s.serialize_none();
    s.serialize_unit();
    s.serialize_unit_struct("U");
    s.serialize_unit_variant("E", 0, "V");
    s.serialize_f64(Float::from_bits(2.5f64.to_bits()));
    assert_eq!(
        s.into_inner(),
        "-1+2-3+4-17014118346046923173168730371588410572856789true'c'\"s\"b\"AA==\"None()UV2.5"
    );
}

#[test]
fn serializer_openers_and_nested_values() {
    let mut s = Serializer::new(flat(), printer);
    s.serialize_seq(Some(0));
    s.serialize_tuple(0);
    s.serialize_tuple_struct("T", 0);
    s.serialize_tuple_variant("E", 1, "V", 0);
    s.serialize_map(None);
    s.serialize_struct("S", 0);
    s.serialize_struct_variant("E", 2, "W", 0);
    assert_eq!(s.formatter.depth, 7);
    assert_eq!(s.writer, "[(T(V({S(W(");

    let mut s = Serializer::new(Config::default(), printer);
    s.serialize_newtype_struct("Wrapper", &number(1)).unwrap();
    s.serialize_some(&number(2)).unwrap();
    s.serialize_newtype_variant("E", 0, "V", &number(3)).unwrap();
    assert_eq!(s.into_inner(), "1Some(\n    2,\n)V(\n    3,\n)");
}

#[test]
fn split_keeps_the_whole_magnitude() {
    assert_eq!(split_i128(0), (Sign::Positive, Integer { raw: 0 }));
    assert_eq!(split_i128(-1), (Sign::Negative, Integer { raw: 1 }));
    assert_eq!(split_i128(i128::MAX), (Sign::Positive, Integer { raw: i128::MAX as u128 }));
    assert_eq!(split_i128(i128::MIN), (Sign::Negative, Integer { raw: 1u128 << 127 }));
}

#[test]
fn records_of_every_shape() {
    let unit = Value::Struct(Struct { name: None, fields: None });
    assert_eq!(to_string(&unit, Config::default(), printer).unwrap(), "()");
    let bare = Value::Struct(Struct { name: Some("Bare"), fields: None });
    assert_eq!(to_string(&bare, Config::default(), printer).unwrap(), "Bare");
    let empty_tuple =
        Value::Struct(Struct { name: None, fields: Some(Box::new(Fields::Unnamed(vec![]))) });
    assert_eq!(to_string(&empty_tuple, Config::default(), printer).unwrap(), "()");
    let empty_named = Value::Struct(Struct {
        name: Some("E"),
        fields: Some(Box::new(Fields::Named(FieldMap::new()))),
    });
    assert_eq!(to_string(&empty_named, Config::default(), printer).unwrap(), "E()");
    let nameless = Value::Struct(Struct {
        name: None,
        fields: Some(Box::new(Fields::Named(FieldMap::from_iter(vec![("a", number(1))])))),
    });
    assert_eq!(to_string(&nameless, Config::default(), printer).unwrap(), "(\n    a: 1,\n)");
    let tuple = Value::Struct(Struct {
        name: Some("T"),
        fields: Some(Box::new(Fields::Unnamed(vec![number(1), Value::Char('\t')]))),
    });
    assert_eq!(to_string(&tuple, Config::default(), printer).unwrap(), "T(\n    1,\n    '\\t',\n)");
}

#[test]
fn containers_empty_and_nested() {
    assert_eq!(to_string(&Value::Array(vec![]), Config::default(), printer).unwrap(), "[]");
    assert_eq!(to_string(&Value::Dict(ValueMap::new()), Config::default(), printer).unwrap(), "{}");
    let nested = Value::Array(vec![
        Value::Array(vec![number(1)]),
        Value::Dict(ValueMap::from_iter(vec![(number(2), Value::Bytes(vec![255]))])),
    ]);
    assert_eq!(
        to_string(&nested, Config::default(), printer).unwrap(),
        "[\n    [\n        1,\n    ],\n    {\n        2: b\"/w==\",\n    },\n]"
    );
    let two = Config { depth_limit: 2, indent: Indent::Spaces(2) };
    let deep = Value::Array(vec![Value::Array(vec![Value::Array(vec![number(1), number(2)])])]);
    assert_eq!(to_string(&deep, two, printer).unwrap(), "[\n  [\n    [ 1, 2\n    ],\n  ],\n]");
}

#[test]
fn errors_of_every_kind() {
    let plain = Error::message("went wrong".to_string());
    assert_eq!(plain.position(), Position { line: 0, col: 0 });
    assert_eq!(plain.code(), &Code::Message("went wrong".to_string()));
    assert_eq!(plain.to_string(), "went wrong");
    let io = Error::io("disk full".to_string());
    assert_eq!(io.code(), &Code::Io("disk full".to_string()));
    assert_eq!(io.code().text(), "disk full");
    assert_eq!(io.to_string(), "disk full");
    let b64 = Error::base64("Invalid byte 61, offset 1.".to_string());
    assert_eq!(b64.code(), &Code::Base64("Invalid byte 61, offset 1.".to_string()));
    assert_eq!(b64.to_string(), "Invalid byte 61, offset 1.");
    let placed = Error::at(Position { line: 12, col: 0 }, "here".to_string());
    assert_eq!(placed.to_string(), "12:0: here");
    let column_only = Error::at(Position { line: 0, col: 5 }, "there".to_string());
    assert_eq!(column_only.to_string(), "0:5: there");
}

#[test]
fn custom_reads_a_position_prefix() {
    let e = Error::custom("3:7:msg".to_string());
    assert_eq!(e.position(), Position { line: 3, col: 7 });
    assert_eq!(e.code(), &Code::Message("msg".to_string()));
    let e = Error::custom("10:200:".to_string());
    assert_eq!(e.position(), Position { line: 10, col: 200 });
    assert_eq!(e.code(), &Code::Message(String::new()));
    let e = Error::custom("0:0:zero".to_string());
    assert_eq!(e.position(), Position { line: 0, col: 0 });
    assert_eq!(e.code(), &Code::Message("zero".to_string()));
    let e = Error::custom("1:2:a:b".to_string());
    assert_eq!(e.position(), Position { line: 1, col: 2 });
    assert_eq!(e.code(), &Code::Message("a:b".to_string()));
    let e = Error::custom("007:08: é".to_string());
    assert_eq!(e.position(), Position { line: 7, col: 8 });
    assert_eq!(e.code(), &Code::Message(" é".to_string()));
}

#[test]
fn custom_keeps_text_without_a_prefix() {
    for whole in [
        "",
        "plain",
        "1:2",
        "a:b:c",
        ":1:x",
        "1::x",
        "+1:2:x",
        "1:-2:x",
        " 1:2:x",
        "1 :2:x",
        "é1:2:x",
        "99999999999999999999999999:1:x",
        "1:99999999999999999999999999:x",
        "x: 1:2:3",
    ] {
        let e = Error::custom(whole.to_string());
        assert_eq!(e.position(), Position { line: 0, col: 0 }, "{}", whole);
        assert_eq!(e.code(), &Code::Message(whole.to_string()), "{}", whole);
    }
    let limit = format!("{}:{}:x", usize::MAX, usize::MAX);
    let e = Error::custom(limit);
    assert_eq!(e.position(), Position { line: usize::MAX, col: usize::MAX });
}

#[test]
fn nesting_bound() {
    let scalar = number(1);
    let unit = Value::Struct(Struct { name: Some("U"), fields: None });
    let empty = Value::Array(vec![]);
    let nested = Value::Array(vec![Value::Array(vec![])]);
    let record = Value::Struct(Struct {
        name: None,
        fields: Some(Box::new(Fields::Named(FieldMap::from_iter(vec![("a", Value::Array(vec![]))])))),
    });
    let dict = Value::Dict(ValueMap::from_iter(vec![(number(1), Value::Array(vec![]))]));
    for value in [&scalar, &unit, &empty, &nested, &record, &dict] {
        assert!(value.fits_at(0));
        assert!(value.fits_at(usize::MAX - 2));
    }
    assert!(scalar.fits_at(usize::MAX));
    assert!(unit.fits_at(usize::MAX));
    assert!(empty.fits_at(usize::MAX - 1));
    assert!(!empty.fits_at(usize::MAX));
    assert!(!nested.fits_at(usize::MAX - 1));
    assert!(!record.fits_at(usize::MAX - 1));
    assert!(!dict.fits_at(usize::MAX - 1));
    assert!(!record.fits_at(usize::MAX));
}

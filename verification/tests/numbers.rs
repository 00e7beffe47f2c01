use ron_codec::value::map::ValueMap;
use ron_codec::value::number::uint;
use ron_codec::value::{Fields, Struct};
use ron_codec::{Float, Integer, Sign, Value};
use std::cmp::Ordering;
use std::collections::hash_map::DefaultHasher;
use std::hash::{Hash, Hasher};

fn hash_of<T: Hash>(value: &T) -> u64 {
    let mut hasher = DefaultHasher::new();
    value.hash(&mut hasher);
    hasher.finish()
}

fn float(x: f64) -> Float {
    Float::from_bits(x.to_bits())
}

#[test]
fn integer_widens_from_every_unsigned_width() {
    assert_eq!(Integer::from(200u8), Integer { raw: 200 });
    assert_eq!(Integer::from(60_000u16), Integer { raw: 60_000 });
    assert_eq!(Integer::from(u32::MAX), Integer { raw: u32::MAX as u128 });
    assert_eq!(Integer::from(u64::MAX), Integer { raw: u64::MAX as u128 });
    assert_eq!(Integer::from(u128::MAX), Integer { raw: u128::MAX });
    assert_eq!(<u16 as uint>::make_opaque(7), Integer { raw: 7 });
}

#[test]
fn integer_narrows_only_when_it_fits() {
    let small = Integer { raw: 255 };
    let wide = Integer { raw: 256 };
    assert_eq!(small.as_int::<u8>(), Some(255u8));
    assert_eq!(wide.as_int::<u8>(), None);
    assert_eq!(wide.as_int::<u16>(), Some(256u16));
    assert_eq!(Integer { raw: u32::MAX as u128 + 1 }.as_int::<u32>(), None);
    assert_eq!(Integer { raw: u64::MAX as u128 }.as_u64(), Some(u64::MAX));
    assert_eq!(Integer { raw: u64::MAX as u128 + 1 }.as_u64(), None);
    assert_eq!(Integer { raw: u128::MAX }.as_u128(), Some(u128::MAX));
    assert_eq!(<u64 as uint>::from_opaque(Integer { raw: 9 }), Some(9u64));
}

#[test]
fn value_as_unsigned() {
    let big = u64::MAX as u128 + 1;
    assert_eq!(Value::Unsigned(Integer { raw: 5 }).as_u64(), Some(5));
    assert_eq!(Value::Signed(Sign::Positive, Integer { raw: 5 }).as_u64(), Some(5));
    assert_eq!(Value::Signed(Sign::Negative, Integer { raw: 5 }).as_u64(), None);
    assert_eq!(Value::Signed(Sign::Negative, Integer { raw: 0 }).as_u64(), None);
    assert_eq!(Value::Unsigned(Integer { raw: big }).as_u64(), None);
    assert_eq!(Value::Unsigned(Integer { raw: big }).as_u128(), Some(big));
    assert_eq!(Value::Signed(Sign::Positive, Integer { raw: big }).as_u128(), Some(big));
    assert_eq!(Value::Signed(Sign::Negative, Integer { raw: 1 }).as_u128(), None);
    assert_eq!(Value::Bool(true).as_u64(), None);
    assert_eq!(Value::Bool(true).as_u128(), None);
}

#[test]
fn value_as_signed_at_the_edges() {
    let min64 = 1u128 << 63;
    let min128 = 1u128 << 127;
    assert_eq!(Value::Signed(Sign::Negative, Integer { raw: min64 }).as_i64(), Some(i64::MIN));
    assert_eq!(Value::Signed(Sign::Negative, Integer { raw: min64 + 1 }).as_i64(), None);
    assert_eq!(Value::Signed(Sign::Positive, Integer { raw: min64 }).as_i64(), None);
    assert_eq!(Value::Signed(Sign::Positive, Integer { raw: min64 - 1 }).as_i64(), Some(i64::MAX));
    assert_eq!(Value::Signed(Sign::Negative, Integer { raw: 12 }).as_i64(), Some(-12));
    assert_eq!(Value::Signed(Sign::Negative, Integer { raw: 0 }).as_i64(), Some(0));
    assert_eq!(Value::Unsigned(Integer { raw: 12 }).as_i64(), Some(12));
    assert_eq!(Value::Unsigned(Integer { raw: min64 }).as_i64(), None);
    assert_eq!(Value::Char('x').as_i64(), None);
    assert_eq!(Value::Signed(Sign::Negative, Integer { raw: min128 }).as_i128(), Some(i128::MIN));
    assert_eq!(Value::Signed(Sign::Negative, Integer { raw: min128 + 1 }).as_i128(), None);
    assert_eq!(Value::Signed(Sign::Positive, Integer { raw: min128 }).as_i128(), None);
    assert_eq!(
        Value::Signed(Sign::Positive, Integer { raw: min128 - 1 }).as_i128(),
        Some(i128::MAX)
    );
    assert_eq!(Value::Unsigned(Integer { raw: min128 }).as_i128(), None);
    assert_eq!(Value::Unsigned(Integer { raw: 3 }).as_i128(), Some(3));
    assert_eq!(Value::Signed(Sign::Negative, Integer { raw: 3 }).as_i128(), Some(-3));
}

#[test]
fn float_equality_is_by_bits() {
    let nan = Float::from_bits(0x7ff8_0000_0000_0000);
    let other_nan = Float::from_bits(0x7ff8_0000_0000_0001);
    assert_eq!(nan, nan);
    assert_ne!(nan, other_nan);
    assert_eq!(hash_of(&nan), hash_of(&Float::from_bits(0x7ff8_0000_0000_0000)));
    assert_ne!(float(0.0), float(-0.0));
    assert_eq!(float(1.5), float(1.5));
    assert_eq!(hash_of(&float(1.5)), hash_of(&float(1.5)));
    assert_eq!(float(1.5).to_bits(), 1.5f64.to_bits());
    assert_eq!(f64::from_bits(float(-2.75).to_bits()), -2.75);
}

#[test]
fn float_order_is_that_of_the_signed_bits() {
    assert_eq!(float(1.0).partial_cmp(&float(2.0)), Some(Ordering::Less));
    assert_eq!(float(2.0).partial_cmp(&float(1.0)), Some(Ordering::Greater));
    assert_eq!(float(2.0).partial_cmp(&float(2.0)), Some(Ordering::Equal));
    assert_eq!(float(-1.0).partial_cmp(&float(1.0)), Some(Ordering::Less));
    assert_eq!(float(-0.0).partial_cmp(&float(0.0)), Some(Ordering::Less));
    assert!(float(1.0) < float(2.0));
    let nan = Float::from_bits(0x7ff8_0000_0000_0000);
    let other_nan = Float::from_bits(0x7ff8_0000_0000_0001);
    assert_eq!(nan.total_order(&nan), Ordering::Equal);
    assert_eq!(nan.total_order(&other_nan), Ordering::Less);
    assert_eq!(other_nan.total_order(&nan), Ordering::Greater);
    assert_eq!(float(f64::INFINITY).total_order(&nan), Ordering::Less);
    assert_eq!(Float::from_bits(u64::MAX).signed_bits(), -1);
    assert_eq!(Float::from_bits(1u64 << 63).signed_bits(), i64::MIN);
    assert_eq!(Float::from_bits((1u64 << 63) - 1).signed_bits(), i64::MAX);
}

#[test]
fn value_accessors_pick_their_variant() {
    let text = Value::String("hi".to_string());
    assert_eq!(text.as_str(), Some("hi"));
    assert_eq!(text.as_bytes(), None);
    assert_eq!(text.as_bool(), None);
    assert!(text.as_struct().is_none());
    assert!(text.as_map().is_none());
    assert!(text.as_array().is_none());
    assert_eq!(text.as_float(), None);
    let bytes = Value::Bytes(vec![1, 2, 3]);
    assert_eq!(bytes.as_bytes(), Some(&[1u8, 2, 3][..]));
    assert_eq!(bytes.as_str(), None);
    assert_eq!(Value::Bool(true).as_bool(), Some(true));
    assert_eq!(Value::Float(float(0.5)).as_float(), Some(float(0.5)));
    let array = Value::Array(vec![Value::Bool(false)]);
    assert_eq!(array.as_array(), Some(&[Value::Bool(false)][..]));
    assert_eq!(array.clone(), array);
    assert_eq!(array.duplicate(), array);
}

#[test]
fn value_equality_goes_by_content() {
    let record = |name: Option<&'static str>, items: Vec<Value>| {
        Value::Struct(Struct { name, fields: Some(Box::new(Fields::Unnamed(items))) })
    };
    let one = Value::Unsigned(Integer { raw: 1 });
    assert_eq!(record(Some("A"), vec![one.clone()]), record(Some("A"), vec![one.clone()]));
    assert_ne!(record(Some("A"), vec![one.clone()]), record(Some("B"), vec![one.clone()]));
    assert_ne!(record(Some("A"), vec![one.clone()]), record(None, vec![one.clone()]));
    assert_ne!(record(Some("A"), vec![one.clone()]), record(Some("A"), vec![]));
    assert_ne!(
        record(Some("A"), vec![one.clone()]),
        Value::Struct(Struct { name: Some("A"), fields: None })
    );
    assert_ne!(one, Value::Signed(Sign::Positive, Integer { raw: 1 }));
    assert_ne!(
        Value::Signed(Sign::Negative, Integer { raw: 1 }),
        Value::Signed(Sign::Positive, Integer { raw: 1 })
    );
    assert_ne!(Value::Array(vec![one.clone()]), Value::Array(vec![one.clone(), one.clone()]));
    assert_ne!(Value::Array(vec![]), Value::Bytes(vec![]));
    assert_eq!(Value::Bytes(vec![1, 2]), Value::Bytes(vec![1, 2]));
    assert_ne!(Value::Bytes(vec![1, 2]), Value::Bytes(vec![2, 1]));
    assert_eq!(Value::String("é".to_string()), Value::String("é".to_string()));
    assert_ne!(Value::String("a".to_string()), Value::String("b".to_string()));
    assert_ne!(Value::Char('a'), Value::Char('b'));
    assert_ne!(Value::Bool(true), Value::Bool(false));
    assert!(one.same(&one.duplicate()));
    assert_eq!(hash_of(&record(Some("A"), vec![one.clone()])), hash_of(&record(Some("A"), vec![one])));
}

#[test]
fn value_value_structure_sizes() {
    assert_eq!(std::mem::size_of::<Value>(), 32);
    assert_eq!(std::mem::size_of::<Struct>(), 24);
    assert_eq!(std::mem::size_of::<ValueMap>(), 8);
    assert_eq!(std::mem::size_of::<Fields>(), 24);
    assert_eq!(std::mem::size_of::<Integer>(), 16);
    assert_eq!(std::mem::size_of::<Float>(), 8);
}

#[test]
fn mod_value_structure_sizes() {
    assert_eq!(std::mem::size_of::<Value>(), 32);
    assert_eq!(std::mem::size_of::<Struct>(), 24);
    assert_eq!(std::mem::size_of::<ValueMap>(), 8);
    assert_eq!(std::mem::size_of::<Fields>(), 24);
    assert_eq!(std::mem::size_of::<Integer>(), 16);
    assert_eq!(std::mem::size_of::<Float>(), 8);
}

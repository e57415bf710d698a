//! Typed extraction over heterogeneous records: widening, the string-tagged
//! 64-bit path, and the two failure kinds.

use cirg::errors::ExtractError;
use cirg::value::{Field, Record, Value};

fn record(fields: Vec<(&str, Value)>) -> Record {
    Record {
        fields: fields
            .into_iter()
            .map(|(k, v)| Field { key: String::from(k), val: v })
            .collect(),
    }
}

#[test]
fn get_u64_accepts_numeric_string() {
    let r = record(vec![("Size", Value::Str(String::from("12345")))]);
    assert_eq!(r.get_u64("Size"), Ok(12345));
}

#[test]
fn get_u64_rejects_boolean_as_mismatch() {
    let r = record(vec![("Size", Value::Bool(true))]);
    assert_eq!(r.get_u64("Size"), Err(ExtractError::TypeMismatch));
}

#[test]
fn get_u64_missing_key() {
    let r = record(vec![]);
    assert_eq!(r.get_u64("Size"), Err(ExtractError::KeyMissing));
}

#[test]
fn get_u64_widens_narrow_tags() {
    let r = record(vec![
        ("A", Value::UI1(7)),
        ("B", Value::UI2(300)),
        ("C", Value::UI4(70000)),
        ("D", Value::UI8(1 << 40)),
        ("E", Value::I8(-1)),
    ]);
    assert_eq!(r.get_u64("A"), Ok(7));
    assert_eq!(r.get_u64("B"), Ok(300));
    assert_eq!(r.get_u64("C"), Ok(70000));
    assert_eq!(r.get_u64("D"), Ok(1 << 40));
    assert_eq!(r.get_u64("E"), Ok(u64::MAX));
}

#[test]
fn get_u64_string_with_plus_and_rejections() {
    let r = record(vec![
        ("P", Value::Str(String::from("+42"))),
        ("X", Value::Str(String::from("12x"))),
        ("E", Value::Str(String::from(""))),
        ("N", Value::Str(String::from("-3"))),
        ("M", Value::Str(String::from("18446744073709551615"))),
        ("O", Value::Str(String::from("18446744073709551616"))),
    ]);
    assert_eq!(r.get_u64("P"), Ok(42));
    assert_eq!(r.get_u64("X"), Err(ExtractError::TypeMismatch));
    assert_eq!(r.get_u64("E"), Err(ExtractError::TypeMismatch));
    assert_eq!(r.get_u64("N"), Err(ExtractError::TypeMismatch));
    assert_eq!(r.get_u64("M"), Ok(u64::MAX));
    assert_eq!(r.get_u64("O"), Err(ExtractError::TypeMismatch));
}

#[test]
fn get_u32_and_u16_widening() {
    let r = record(vec![
        ("A", Value::UI1(9)),
        ("B", Value::UI2(900)),
        ("C", Value::UI4(90000)),
        ("D", Value::I4(-1)),
        ("E", Value::I2(-1)),
        ("S", Value::Str(String::from("5"))),
    ]);
    assert_eq!(r.get_u32("A"), Ok(9));
    assert_eq!(r.get_u32("B"), Ok(900));
    assert_eq!(r.get_u32("C"), Ok(90000));
    assert_eq!(r.get_u32("D"), Ok(u32::MAX));
    assert_eq!(r.get_u16("A"), Ok(9));
    assert_eq!(r.get_u16("B"), Ok(900));
    assert_eq!(r.get_u16("E"), Ok(u16::MAX));
    // only the 64-bit request accepts a string tag
    assert_eq!(r.get_u32("S"), Err(ExtractError::TypeMismatch));
    assert_eq!(r.get_u16("S"), Err(ExtractError::TypeMismatch));
}

#[test]
fn get_string_and_bool() {
    let r = record(vec![
        ("S", Value::Str(String::from("hello"))),
        ("B", Value::Bool(false)),
    ]);
    assert_eq!(r.get_string("S"), Ok(String::from("hello")));
    assert_eq!(r.get_string("B"), Err(ExtractError::TypeMismatch));
    assert_eq!(r.get_bool("B"), Ok(false));
    assert_eq!(r.get_bool("S"), Err(ExtractError::TypeMismatch));
    assert_eq!(r.get_bool("Z"), Err(ExtractError::KeyMissing));
}

#[test]
fn string_array_and_byte_decode() {
    let arr = Value::Array(vec![
        Value::Str(String::from("10.0.0.1")),
        Value::UI4(4),
        Value::Str(String::from("fe80::1")),
    ]);
    let got = cirg::value::extract_string_array(&arr);
    assert_eq!(got, vec![String::from("10.0.0.1"), String::from("fe80::1")]);

    let bytes = Value::Array(vec![
        Value::UI2(68),
        Value::UI1(69),
        Value::I2(76),
        Value::UI1(0),
        Value::UI1(88),
    ]);
    let decoded: String = cirg::text::chars_string(&cirg::value::decode_byte_array(&bytes));
    assert_eq!(decoded, "DEL");
}

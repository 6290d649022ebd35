use sqlx_odbc::types::{
    bool_compatible, bytes_compatible, decode_bool, decode_bytes, decode_i16, decode_i32,
    decode_i64, decode_i8, decode_string, encode_bool, encode_bytes, encode_i16, encode_i32,
    encode_i64, encode_i8, encode_str, string_compatible, IsNull,
};
use sqlx_odbc::error::OdbcError;
use sqlx_odbc::type_info::{DataType, OdbcTypeInfo};
use sqlx_odbc::value::{OdbcArgumentValue, OdbcValueData};

fn text(s: &str) -> OdbcValueData {
    OdbcValueData::Text(s.to_string())
}

fn last_as_value(buf: &Vec<OdbcArgumentValue>) -> OdbcValueData {
    OdbcValueData::from_argument(buf.last().unwrap())
}

#[test]
fn bool_from_text_true() {
    assert_eq!(decode_bool(&text("true")).unwrap(), true);
}

#[test]
fn bool_from_text_zero() {
    assert_eq!(decode_bool(&text("0")).unwrap(), false);
}

#[test]
fn bool_from_text_maybe_fails() {
    assert!(matches!(decode_bool(&text("maybe")), Err(OdbcError::Decode(_))));
}

#[test]
fn bool_textual_forms_ignore_case() {
    for t in ["TRUE", "Yes", "on", "1"] {
        assert_eq!(decode_bool(&text(t)).unwrap(), true, "{}", t);
    }
    for f in ["False", "NO", "Off", "0"] {
        assert_eq!(decode_bool(&text(f)).unwrap(), false, "{}", f);
    }
    assert!(decode_bool(&text("")).is_err());
    assert!(decode_bool(&text("truee")).is_err());
}

#[test]
fn bool_from_integers_and_other_cells() {
    assert_eq!(decode_bool(&OdbcValueData::TinyInt(0)).unwrap(), false);
    assert_eq!(decode_bool(&OdbcValueData::Int(7)).unwrap(), true);
    assert_eq!(decode_bool(&OdbcValueData::BigInt(-1)).unwrap(), true);
    assert!(matches!(decode_bool(&OdbcValueData::Null), Err(OdbcError::Decode(_))));
    assert!(decode_bool(&OdbcValueData::Binary(vec![1])).is_err());
}

#[test]
fn integers_narrow_by_truncation() {
    assert_eq!(decode_i8(&OdbcValueData::BigInt(300)).unwrap(), 44);
    assert_eq!(decode_i8(&OdbcValueData::Int(-129)).unwrap(), 127);
    assert_eq!(decode_i16(&OdbcValueData::Int(70000)).unwrap(), 4464);
    assert_eq!(decode_i32(&OdbcValueData::BigInt(1i64 << 32 | 5)).unwrap(), 5);
    assert_eq!(decode_i64(&OdbcValueData::TinyInt(-3)).unwrap(), -3);
    assert_eq!(decode_i64(&OdbcValueData::SmallInt(-300)).unwrap(), -300);
}

#[test]
fn integers_parse_text() {
    assert_eq!(decode_i32(&text("42")).unwrap(), 42);
    assert_eq!(decode_i32(&text("-17")).unwrap(), -17);
    assert_eq!(decode_i32(&text("+8")).unwrap(), 8);
    assert_eq!(decode_i64(&text("9223372036854775807")).unwrap(), i64::MAX);
    assert_eq!(decode_i8(&text("-128")).unwrap(), -128);
    assert!(matches!(decode_i8(&text("128")), Err(OdbcError::Decode(_))));
    assert!(decode_i16(&text("abc")).is_err());
    assert!(decode_i32(&text(" 1")).is_err());
    assert!(decode_i32(&text("")).is_err());
    assert!(decode_i32(&text("-")).is_err());
    assert!(decode_i64(&text("9223372036854775808")).is_err());
}

#[test]
fn integers_refuse_other_cells() {
    assert!(decode_i32(&OdbcValueData::Null).is_err());
    assert!(decode_i64(&OdbcValueData::Bool(true)).is_err());
    assert!(decode_i16(&OdbcValueData::Binary(vec![1, 2])).is_err());
}

#[test]
fn string_from_cells() {
    assert_eq!(decode_string(&text("hello")).unwrap(), "hello");
    assert_eq!(decode_string(&OdbcValueData::Int(-5)).unwrap(), "-5");
    assert_eq!(decode_string(&OdbcValueData::BigInt(1234567890123)).unwrap(), "1234567890123");
    assert_eq!(decode_string(&OdbcValueData::Bool(true)).unwrap(), "true");
    assert_eq!(decode_string(&OdbcValueData::Bool(false)).unwrap(), "false");
    assert!(matches!(decode_string(&OdbcValueData::Null), Err(OdbcError::Decode(_))));
    assert!(decode_string(&OdbcValueData::Binary(vec![104])).is_err());
}

#[test]
fn bytes_from_cells() {
    assert_eq!(decode_bytes(&OdbcValueData::Binary(vec![0, 255])).unwrap(), vec![0, 255]);
    assert_eq!(decode_bytes(&text("hé")).unwrap(), "hé".as_bytes().to_vec());
    assert!(decode_bytes(&OdbcValueData::Int(1)).is_err());
}

#[test]
fn encode_appends_without_touching_earlier_arguments() {
    let mut buf = Vec::new();
    assert_eq!(encode_i32(7, &mut buf), IsNull::No);
    assert_eq!(encode_str("x", &mut buf), IsNull::No);
    assert_eq!(buf.len(), 2);
    assert!(matches!(buf[0], OdbcArgumentValue::Int(7)));
    assert!(matches!(&buf[1], OdbcArgumentValue::Text(s) if s == "x"));
}

#[test]
fn round_trip_every_supported_type() {
    let mut buf = Vec::new();
    encode_bool(true, &mut buf);
    assert_eq!(decode_bool(&last_as_value(&buf)).unwrap(), true);
    encode_bool(false, &mut buf);
    assert_eq!(decode_bool(&last_as_value(&buf)).unwrap(), false);
    encode_i8(-100, &mut buf);
    assert_eq!(decode_i8(&last_as_value(&buf)).unwrap(), -100);
    encode_i16(i16::MIN, &mut buf);
    assert_eq!(decode_i16(&last_as_value(&buf)).unwrap(), i16::MIN);
    encode_i32(123456, &mut buf);
    assert_eq!(decode_i32(&last_as_value(&buf)).unwrap(), 123456);
    encode_i64(i64::MAX, &mut buf);
    assert_eq!(decode_i64(&last_as_value(&buf)).unwrap(), i64::MAX);
    encode_str("Hello 世界", &mut buf);
    assert_eq!(decode_string(&last_as_value(&buf)).unwrap(), "Hello 世界");
    encode_bytes(&[1, 2, 3], &mut buf);
    assert_eq!(decode_bytes(&last_as_value(&buf)).unwrap(), vec![1, 2, 3]);
    assert_eq!(buf.len(), 8);
}

#[test]
fn compatibility_by_category() {
    assert!(bool_compatible(&OdbcTypeInfo::bit()));
    assert!(!bool_compatible(&OdbcTypeInfo::integer()));
    assert!(string_compatible(&OdbcTypeInfo::new(DataType::WVarchar { length: None })));
    assert!(!string_compatible(&OdbcTypeInfo::varbinary(3)));
    assert!(bytes_compatible(&OdbcTypeInfo::new(DataType::LongVarbinary { length: Some(9) })));
}

#[test]
fn integer_text_edges() {
    assert_eq!(decode_i64(&text("-9223372036854775808")).unwrap(), i64::MIN);
    assert_eq!(decode_i64(&text("00012")).unwrap(), 12);
    assert_eq!(decode_i64(&text("-0")).unwrap(), 0);
    assert!(decode_i64(&text("+")).is_err());
    assert!(decode_i64(&text("99999999999999999999999")).is_err());
    assert!(decode_i64(&text("12a")).is_err());
    assert!(decode_i16(&text("٣")).is_err());
    assert_eq!(decode_string(&OdbcValueData::BigInt(i64::MIN)).unwrap(), "-9223372036854775808");
    assert_eq!(decode_string(&OdbcValueData::TinyInt(0)).unwrap(), "0");
    assert_eq!(decode_string(&OdbcValueData::SmallInt(-700)).unwrap(), "-700");
}

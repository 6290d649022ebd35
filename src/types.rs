//! Encode and decode rules for each supported application type.
//!
//! Encoding appends one argument to a parameter buffer and never touches the
//! entries already there. Decoding is permissive: integer cells of any width
//! convert with two's-complement narrowing or widening, text is parsed when
//! the target is numeric, and booleans accept the usual textual forms in any
//! ASCII case. Floating-point targets are decoded outside the library.

use vstd::prelude::*;
use crate::error::OdbcError;
use crate::text::{eq_ignore_ascii_case, same_text_ignore_ascii_case};
use crate::type_info::{DataType, OdbcTypeInfo, category};
use crate::value::{OdbcArgumentValue, OdbcValueData, ValueView, copy_bytes, copy_string};

verus! {

/// Whether an encoded argument is NULL.
#[derive(Debug, Clone, Copy, PartialEq, Eq)]
pub enum IsNull {
    Yes,
    No,
}

// ---------------------------------------------------------------------------
// Decimal text
// ---------------------------------------------------------------------------

pub open spec fn is_digit(c: char) -> bool {
    '0' <= c && c <= '9'
}

/// The value of a run of decimal digits.
pub open spec fn digits_value(d: Seq<char>) -> int
    decreases d.len(),
{
    if d.len() == 0 {
        0
    } else {
        digits_value(d.drop_last()) * 10 + (d.last() as int - '0' as int)
    }
}

pub open spec fn all_digits(d: Seq<char>) -> bool {
    d.len() > 0 && forall|i: int| 0 <= i < d.len() ==> is_digit(#[trigger] d[i])
}

/// The integer written by `s` in base ten, with an optional `+` or `-`
/// sign and nothing else around the digits.
pub open spec fn integer_text_value(s: Seq<char>) -> Option<int> {
    if s.len() > 0 && s[0] == '-' && all_digits(s.drop_first()) {
        Some(-digits_value(s.drop_first()))
    } else if s.len() > 0 && s[0] == '+' && all_digits(s.drop_first()) {
        Some(digits_value(s.drop_first()))
    } else if all_digits(s) {
        Some(digits_value(s))
    } else {
        None
    }
}

/// The integer `s` denotes, when it is written as above and lies in
/// `[lo, hi]`.
pub open spec fn parsed_in(s: Seq<char>, lo: int, hi: int) -> Option<int> {
    match integer_text_value(s) {
        Some(v) => if lo <= v && v <= hi {
            Some(v)
        } else {
            None
        },
        None => None,
    }
}

pub open spec fn digit_char(d: nat) -> char {
    (('0' as u32) + d) as char
}

/// The decimal digits of a natural number, without leading zeros.
pub open spec fn nat_text(n: nat) -> Seq<char>
    decreases n,
{
    if n < 10 {
        seq![digit_char(n)]
    } else {
        nat_text(n / 10).push(digit_char(n % 10))
    }
}

/// The decimal text of an integer, with a leading `-` when negative.
pub open spec fn int_text(i: int) -> Seq<char> {
    if i < 0 {
        seq!['-'] + nat_text((-i) as nat)
    } else {
        nat_text(i as nat)
    }
}

proof fn lemma_digits_value_nonneg(d: Seq<char>)
    requires
        forall|i: int| 0 <= i < d.len() ==> is_digit(#[trigger] d[i]),
    ensures
        digits_value(d) >= 0,
    decreases d.len(),
{
    if d.len() > 0 {
        lemma_digits_value_nonneg(d.drop_last());
    }
}

/// A prefix of a run of digits has at most the value of the whole run.
proof fn lemma_digits_value_prefix(d: Seq<char>, k: int)
    requires
        0 <= k <= d.len(),
        forall|i: int| 0 <= i < d.len() ==> is_digit(#[trigger] d[i]),
    ensures
        digits_value(d.subrange(0, k)) <= digits_value(d),
    decreases d.len(),
{
    if k < d.len() {
        lemma_digits_value_prefix(d.drop_last(), k);
        assert(d.drop_last().subrange(0, k) =~= d.subrange(0, k));
        lemma_digits_value_nonneg(d.drop_last());
    } else {
        assert(d.subrange(0, k) =~= d);
    }
}

/// Parses decimal text into an integer of the range `[lo, hi]`: an optional
/// sign, then one or more ASCII digits, and nothing else.
pub(crate) fn parse_in_range(s: &str, lo: i64, hi: i64) -> (r: Option<i64>)
    requires
        lo <= hi,
    ensures
        match r {
            Some(v) => parsed_in(s@, lo as int, hi as int) == Some(v as int),
            None => parsed_in(s@, lo as int, hi as int) is None,
        },
{
    let n = s.unicode_len();
    if n == 0 {
        return None;
    }
    let c0 = s.get_char(0);
    let negative = c0 == '-';
    let start: usize = if c0 == '-' || c0 == '+' { 1 } else { 0 };
    let ghost digits = s@.subrange(start as int, n as int);
    proof {
        if start == 1 {
            assert(digits =~= s@.drop_first());
            assert(!is_digit(s@[0]));
        } else {
            assert(digits =~= s@);
        }
    }
    if start == n {
        return None;
    }
    let bound: u128 = 0x1_0000_0000_0000_0000;
    let mut acc: u128 = 0;
    let mut i: usize = start;
    while i < n
        invariant
            start <= i <= n,
            n == s@.len(),
            digits == s@.subrange(start as int, n as int),
            acc as int == digits_value(digits.subrange(0, i - start)),
            acc <= bound,
            bound == 0x1_0000_0000_0000_0000u128,
            forall|j: int| 0 <= j < i - start ==> is_digit(#[trigger] digits[j]),
            start <= 1,
            n > 0,
            negative == (s@[0] == '-'),
            start == 1 <==> (s@[0] == '-' || s@[0] == '+'),
            start == 0 ==> digits == s@,
            start == 1 ==> digits == s@.drop_first(),
        decreases n - i,
    {
        let c = s.get_char(i);
        if !('0' <= c && c <= '9') {
            proof {
                assert(digits[i - start] == s@[i as int]);
                assert(!is_digit(digits[i - start]));
                assert(!all_digits(digits));
                assert(!all_digits(s@)) by {
                    if start == 0 {
                        assert(digits == s@);
                    } else {
                        assert(!is_digit(s@[0]));
                    }
                }
                assert(integer_text_value(s@) is None);
            }
            return None;
        }
        proof {
            assert(digits.subrange(0, i + 1 - start).drop_last() =~= digits.subrange(0, i - start));
        }
        assert(acc * 10 + 9 < 0x1_0000_0000_0000_0000_0000) by (nonlinear_arith)
            requires
                acc <= 0x1_0000_0000_0000_0000u128,
        ;
        acc = acc * 10 + (c as u32 - '0' as u32) as u128;
        i = i + 1;
        if acc > bound {
            proof {
                if all_digits(digits) {
                    lemma_digits_value_prefix(digits, i - start);
                }
            }
            return None;
        }
    }
    proof {
        assert(digits.subrange(0, i - start) =~= digits);
    }
    let value: i128 = if negative { -(acc as i128) } else { acc as i128 };
    if (lo as i128) <= value && value <= (hi as i128) {
        Some(value as i64)
    } else {
        None
    }
}

/// Appends the decimal digits of `n`.
fn append_nat(out: &mut String, n: u64)
    ensures
        final(out)@ == old(out)@ + nat_text(n as nat),
    decreases n,
{
    if n >= 10 {
        append_nat(out, n / 10);
    }
    out.append(crate::datetime::digit_str((n % 10) as u32));
    assert(final(out)@ =~= old(out)@ + nat_text(n as nat));
}

/// The decimal text of an integer.
pub fn int_to_text(i: i64) -> (r: String)
    ensures
        r@ == int_text(i as int),
{
    let mut out = String::new();
    if i < 0 {
        out.append("-");
        proof {
            reveal_strlit("-");
        }
        append_nat(&mut out, (-(i as i128)) as u64);
    } else {
        append_nat(&mut out, i as u64);
    }
    assert(out@ =~= int_text(i as int));
    out
}

// ---------------------------------------------------------------------------
// Decoding, stated over the view of a cell
// ---------------------------------------------------------------------------

pub open spec fn text_true(s: Seq<char>) -> bool {
    eq_ignore_ascii_case(s, "true"@) || eq_ignore_ascii_case(s, "1"@) || eq_ignore_ascii_case(
        s,
        "yes"@,
    ) || eq_ignore_ascii_case(s, "on"@)
}

pub open spec fn text_false(s: Seq<char>) -> bool {
    eq_ignore_ascii_case(s, "false"@) || eq_ignore_ascii_case(s, "0"@) || eq_ignore_ascii_case(
        s,
        "no"@,
    ) || eq_ignore_ascii_case(s, "off"@)
}

/// The boolean a text stands for, if it is one of the accepted forms.
pub open spec fn text_bool(s: Seq<char>) -> Option<bool> {
    if text_true(s) {
        Some(true)
    } else if text_false(s) {
        Some(false)
    } else {
        None
    }
}

/// Reads one of the accepted textual forms of a boolean, in any ASCII case.
pub fn bool_text(s: &str) -> (r: Option<bool>)
    ensures
        r == text_bool(s@),
{
    if same_text_ignore_ascii_case(s, "true") || same_text_ignore_ascii_case(s, "1")
        || same_text_ignore_ascii_case(s, "yes") || same_text_ignore_ascii_case(s, "on") {
        Some(true)
    } else if same_text_ignore_ascii_case(s, "false") || same_text_ignore_ascii_case(s, "0")
        || same_text_ignore_ascii_case(s, "no") || same_text_ignore_ascii_case(s, "off") {
        Some(false)
    } else {
        None
    }
}

pub open spec fn decoded_bool(v: ValueView) -> Option<bool> {
    match v {
        ValueView::Bool(b) => Some(b),
        ValueView::TinyInt(i) => Some(i != 0),
        ValueView::SmallInt(i) => Some(i != 0),
        ValueView::Int(i) => Some(i != 0),
        ValueView::BigInt(i) => Some(i != 0),
        ValueView::Text(s) => text_bool(s),
        _ => None,
    }
}

pub open spec fn decoded_i8(v: ValueView) -> Option<i8> {
    match v {
        ValueView::TinyInt(i) => Some(i),
        ValueView::SmallInt(i) => Some(i as i8),
        ValueView::Int(i) => Some(i as i8),
        ValueView::BigInt(i) => Some(i as i8),
        ValueView::Text(s) => match parsed_in(s, i8::MIN as int, i8::MAX as int) {
            Some(x) => Some(x as i8),
            None => None,
        },
        _ => None,
    }
}

pub open spec fn decoded_i16(v: ValueView) -> Option<i16> {
    match v {
        ValueView::TinyInt(i) => Some(i as i16),
        ValueView::SmallInt(i) => Some(i),
        ValueView::Int(i) => Some(i as i16),
        ValueView::BigInt(i) => Some(i as i16),
        ValueView::Text(s) => match parsed_in(s, i16::MIN as int, i16::MAX as int) {
            Some(x) => Some(x as i16),
            None => None,
        },
        _ => None,
    }
}

pub open spec fn decoded_i32(v: ValueView) -> Option<i32> {
    match v {
        ValueView::TinyInt(i) => Some(i as i32),
        ValueView::SmallInt(i) => Some(i as i32),
        ValueView::Int(i) => Some(i),
        ValueView::BigInt(i) => Some(i as i32),
        ValueView::Text(s) => match parsed_in(s, i32::MIN as int, i32::MAX as int) {
            Some(x) => Some(x as i32),
            None => None,
        },
        _ => None,
    }
}

pub open spec fn decoded_i64(v: ValueView) -> Option<i64> {
    match v {
        ValueView::TinyInt(i) => Some(i as i64),
        ValueView::SmallInt(i) => Some(i as i64),
        ValueView::Int(i) => Some(i as i64),
        ValueView::BigInt(i) => Some(i),
        ValueView::Text(s) => match parsed_in(s, i64::MIN as int, i64::MAX as int) {
            Some(x) => Some(x as i64),
            None => None,
        },
        _ => None,
    }
}

/// Text decoding. Dates and times give their canonical text. Floating-point
/// cells are left to the caller, which formats them itself; here they do not
/// decode.
pub open spec fn decoded_text(v: ValueView) -> Option<Seq<char>> {
    match v {
        ValueView::Text(s) => Some(s),
        ValueView::TinyInt(i) => Some(int_text(i as int)),
        ValueView::SmallInt(i) => Some(int_text(i as int)),
        ValueView::Int(i) => Some(int_text(i as int)),
        ValueView::BigInt(i) => Some(int_text(i as int)),
        ValueView::Bool(b) => Some(if b { "true"@ } else { "false"@ }),
        ValueView::Date(d) => Some(crate::datetime::date_text(d)),
        ValueView::Time(t) => Some(crate::datetime::time_text(t)),
        ValueView::Timestamp(t) => Some(crate::datetime::timestamp_text(t)),
        _ => None,
    }
}

pub open spec fn decoded_bytes(v: ValueView) -> Option<Seq<u8>> {
    match v {
        ValueView::Binary(b) => Some(b),
        ValueView::Text(s) => Some(vstd::utf8::encode_utf8(s)),
        _ => None,
    }
}

fn decode_error(target: &str) -> (r: OdbcError)
    ensures
        r is Decode,
{
    let mut msg = String::from_str("cannot decode value as ");
    msg.append(target);
    OdbcError::Decode(msg)
}

/// Decodes a cell as a boolean.
pub fn decode_bool(value: &OdbcValueData) -> (r: Result<bool, OdbcError>)
    ensures
        match r {
            Ok(b) => decoded_bool(value@) == Some(b),
            Err(e) => decoded_bool(value@) is None && e is Decode,
        },
{
    match value {
        OdbcValueData::Bool(b) => Ok(*b),
        OdbcValueData::TinyInt(i) => Ok(*i != 0),
        OdbcValueData::SmallInt(i) => Ok(*i != 0),
        OdbcValueData::Int(i) => Ok(*i != 0),
        OdbcValueData::BigInt(i) => Ok(*i != 0),
        OdbcValueData::Text(s) => match bool_text(s.as_str()) {
            Some(b) => Ok(b),
            None => Err(decode_error("bool")),
        },
        _ => Err(decode_error("bool")),
    }
}

/// Decodes a cell as an 8-bit integer.
pub fn decode_i8(value: &OdbcValueData) -> (r: Result<i8, OdbcError>)
    ensures
        match r {
            Ok(x) => decoded_i8(value@) == Some(x),
            Err(e) => decoded_i8(value@) is None && e is Decode,
        },
{
    match value {
        OdbcValueData::TinyInt(i) => Ok(*i),
        OdbcValueData::SmallInt(i) => Ok(#[verifier::truncate] (*i as i8)),
        OdbcValueData::Int(i) => Ok(#[verifier::truncate] (*i as i8)),
        OdbcValueData::BigInt(i) => Ok(#[verifier::truncate] (*i as i8)),
        OdbcValueData::Text(s) => match parse_in_range(s.as_str(), -128, 127) {
            Some(x) => Ok(x as i8),
            None => Err(decode_error("i8")),
        },
        _ => Err(decode_error("i8")),
    }
}

/// Decodes a cell as a 16-bit integer.
pub fn decode_i16(value: &OdbcValueData) -> (r: Result<i16, OdbcError>)
    ensures
        match r {
            Ok(x) => decoded_i16(value@) == Some(x),
            Err(e) => decoded_i16(value@) is None && e is Decode,
        },
{
    match value {
        OdbcValueData::TinyInt(i) => Ok(*i as i16),
        OdbcValueData::SmallInt(i) => Ok(*i),
        OdbcValueData::Int(i) => Ok(#[verifier::truncate] (*i as i16)),
        OdbcValueData::BigInt(i) => Ok(#[verifier::truncate] (*i as i16)),
        OdbcValueData::Text(s) => match parse_in_range(s.as_str(), -32768, 32767) {
            Some(x) => Ok(x as i16),
            None => Err(decode_error("i16")),
        },
        _ => Err(decode_error("i16")),
    }
}

/// Decodes a cell as a 32-bit integer.
pub fn decode_i32(value: &OdbcValueData) -> (r: Result<i32, OdbcError>)
    ensures
        match r {
            Ok(x) => decoded_i32(value@) == Some(x),
            Err(e) => decoded_i32(value@) is None && e is Decode,
        },
{
    match value {
        OdbcValueData::TinyInt(i) => Ok(*i as i32),
        OdbcValueData::SmallInt(i) => Ok(*i as i32),
        OdbcValueData::Int(i) => Ok(*i),
        OdbcValueData::BigInt(i) => Ok(#[verifier::truncate] (*i as i32)),
        OdbcValueData::Text(s) => match parse_in_range(s.as_str(), -2147483648, 2147483647) {
            Some(x) => Ok(x as i32),
            None => Err(decode_error("i32")),
        },
        _ => Err(decode_error("i32")),
    }
}

/// Decodes a cell as a 64-bit integer.
pub fn decode_i64(value: &OdbcValueData) -> (r: Result<i64, OdbcError>)
    ensures
        match r {
            Ok(x) => decoded_i64(value@) == Some(x),
            Err(e) => decoded_i64(value@) is None && e is Decode,
        },
{
    match value {
        OdbcValueData::TinyInt(i) => Ok(*i as i64),
        OdbcValueData::SmallInt(i) => Ok(*i as i64),
        OdbcValueData::Int(i) => Ok(*i as i64),
        OdbcValueData::BigInt(i) => Ok(*i),
        OdbcValueData::Text(s) => match parse_in_range(s.as_str(), i64::MIN, i64::MAX) {
            Some(x) => Ok(x),
            None => Err(decode_error("i64")),
        },
        _ => Err(decode_error("i64")),
    }
}

/// Decodes a cell as text.
pub fn decode_string(value: &OdbcValueData) -> (r: Result<String, OdbcError>)
    ensures
        match r {
            Ok(s) => decoded_text(value@) == Some(s@),
            Err(e) => decoded_text(value@) is None && e is Decode,
        },
{
    match value {
        OdbcValueData::Text(s) => Ok(copy_string(s)),
        OdbcValueData::TinyInt(i) => Ok(int_to_text(*i as i64)),
        OdbcValueData::SmallInt(i) => Ok(int_to_text(*i as i64)),
        OdbcValueData::Int(i) => Ok(int_to_text(*i as i64)),
        OdbcValueData::BigInt(i) => Ok(int_to_text(*i)),
        OdbcValueData::Bool(b) => Ok(
            if *b {
                String::from_str("true")
            } else {
                String::from_str("false")
            },
        ),
        OdbcValueData::Date(d) => Ok(crate::datetime::format_date(*d)),
        OdbcValueData::Time(t) => Ok(crate::datetime::format_time(*t)),
        OdbcValueData::Timestamp(t) => Ok(crate::datetime::format_timestamp(*t)),
        _ => Err(decode_error("String")),
    }
}

/// Decodes a cell as a byte sequence; text gives its UTF-8 encoding.
pub fn decode_bytes(value: &OdbcValueData) -> (r: Result<Vec<u8>, OdbcError>)
    ensures
        match r {
            Ok(b) => decoded_bytes(value@) == Some(b@),
            Err(e) => decoded_bytes(value@) is None && e is Decode,
        },
{
    match value {
        OdbcValueData::Binary(b) => Ok(copy_bytes(b)),
        OdbcValueData::Text(s) => Ok(s.as_str().as_bytes_vec()),
        _ => Err(decode_error("Vec<u8>")),
    }
}

// ---------------------------------------------------------------------------
// Encoding
// ---------------------------------------------------------------------------

pub fn encode_bool(value: bool, buf: &mut Vec<OdbcArgumentValue>) -> (r: IsNull)
    ensures
        final(buf)@ == old(buf)@.push(OdbcArgumentValue::Bool(value)),
        r == IsNull::No,
{
    buf.push(OdbcArgumentValue::Bool(value));
    IsNull::No
}

pub fn encode_i8(value: i8, buf: &mut Vec<OdbcArgumentValue>) -> (r: IsNull)
    ensures
        final(buf)@ == old(buf)@.push(OdbcArgumentValue::TinyInt(value)),
        r == IsNull::No,
{
    buf.push(OdbcArgumentValue::TinyInt(value));
    IsNull::No
}

pub fn encode_i16(value: i16, buf: &mut Vec<OdbcArgumentValue>) -> (r: IsNull)
    ensures
        final(buf)@ == old(buf)@.push(OdbcArgumentValue::SmallInt(value)),
        r == IsNull::No,
{
    buf.push(OdbcArgumentValue::SmallInt(value));
    IsNull::No
}

pub fn encode_i32(value: i32, buf: &mut Vec<OdbcArgumentValue>) -> (r: IsNull)
    ensures
        final(buf)@ == old(buf)@.push(OdbcArgumentValue::Int(value)),
        r == IsNull::No,
{
    buf.push(OdbcArgumentValue::Int(value));
    IsNull::No
}

pub fn encode_i64(value: i64, buf: &mut Vec<OdbcArgumentValue>) -> (r: IsNull)
    ensures
        final(buf)@ == old(buf)@.push(OdbcArgumentValue::BigInt(value)),
        r == IsNull::No,
{
    buf.push(OdbcArgumentValue::BigInt(value));
    IsNull::No
}

/// Appends a text argument holding a copy of `value`.
pub fn encode_str(value: &str, buf: &mut Vec<OdbcArgumentValue>) -> (r: IsNull)
    ensures
        final(buf)@.len() == old(buf)@.len() + 1,
        final(buf)@.subrange(0, old(buf)@.len() as int) == old(buf)@,
        final(buf)@.last()@ == ValueView::Text(value@),
        r == IsNull::No,
{
    buf.push(OdbcArgumentValue::Text(String::from_str(value)));
    proof {
        assert(final(buf)@.subrange(0, old(buf)@.len() as int) =~= old(buf)@);
    }
    IsNull::No
}

/// Appends a binary argument holding a copy of `value`.
pub fn encode_bytes(value: &[u8], buf: &mut Vec<OdbcArgumentValue>) -> (r: IsNull)
    ensures
        final(buf)@.len() == old(buf)@.len() + 1,
        final(buf)@.subrange(0, old(buf)@.len() as int) == old(buf)@,
        final(buf)@.last()@ == ValueView::Binary(value@),
        r == IsNull::No,
{
    buf.push(OdbcArgumentValue::Binary(vstd::slice::slice_to_vec(value)));
    proof {
        assert(final(buf)@.subrange(0, old(buf)@.len() as int) =~= old(buf)@);
    }
    IsNull::No
}

// ---------------------------------------------------------------------------
// Declared types
// ---------------------------------------------------------------------------

/// The type descriptor each application type declares for its arguments.
pub fn bool_type_info() -> (r: OdbcTypeInfo)
    ensures
        r.data_type == DataType::Bit,
{
    OdbcTypeInfo::bit()
}

pub fn i8_type_info() -> (r: OdbcTypeInfo)
    ensures
        r.data_type == DataType::TinyInt,
{
    OdbcTypeInfo::tiny_int()
}

pub fn i16_type_info() -> (r: OdbcTypeInfo)
    ensures
        r.data_type == DataType::SmallInt,
{
    OdbcTypeInfo::small_int()
}

pub fn i32_type_info() -> (r: OdbcTypeInfo)
    ensures
        r.data_type == DataType::Integer,
{
    OdbcTypeInfo::integer()
}

pub fn i64_type_info() -> (r: OdbcTypeInfo)
    ensures
        r.data_type == DataType::BigInt,
{
    OdbcTypeInfo::big_int()
}

pub fn string_type_info() -> (r: OdbcTypeInfo)
    ensures
        r.data_type == (DataType::Varchar { length: Some(255) }),
{
    OdbcTypeInfo::varchar(255)
}

pub fn bytes_type_info() -> (r: OdbcTypeInfo)
    ensures
        r.data_type == (DataType::Varbinary { length: Some(255) }),
{
    OdbcTypeInfo::varbinary(255)
}

/// Whether a boolean can be read from a column of this type.
pub fn bool_compatible(ty: &OdbcTypeInfo) -> (r: bool)
    ensures
        r == (ty.data_type is Bit),
{
    matches!(ty.data_type, DataType::Bit)
}

/// Whether text can be read from a column of this type.
pub fn string_compatible(ty: &OdbcTypeInfo) -> (r: bool)
    ensures
        r == crate::type_info::is_character(ty.data_type),
{
    matches!(
        ty.data_type,
        DataType::Char { .. } | DataType::Varchar { .. } | DataType::LongVarchar { .. }
            | DataType::WChar { .. } | DataType::WVarchar { .. } | DataType::WLongVarchar { .. }
    )
}

/// Whether bytes can be read from a column of this type.
pub fn bytes_compatible(ty: &OdbcTypeInfo) -> (r: bool)
    ensures
        r == crate::type_info::is_binary(ty.data_type),
{
    matches!(
        ty.data_type,
        DataType::Binary { .. } | DataType::Varbinary { .. } | DataType::LongVarbinary { .. }
    )
}

/// Whether a value of a type that declares `declared` can be read from a
/// column of type `ty`: the two fall in the same category.
pub fn same_category_compatible(declared: &OdbcTypeInfo, ty: &OdbcTypeInfo) -> (r: bool)
    ensures
        r == (category(declared.data_type) == category(ty.data_type)),
{
    declared.data_type.category() == ty.data_type.category()
}

} // verus!

verus! {

// ---------------------------------------------------------------------------
// Round trips
// ---------------------------------------------------------------------------

/// Encoding a boolean and decoding the cell that holds the appended argument
/// gives the boolean back; the earlier arguments are untouched.
pub proof fn lemma_round_trip_bool(v: bool, before: Seq<OdbcArgumentValue>, after: Seq<OdbcArgumentValue>)
    requires
        after == before.push(OdbcArgumentValue::Bool(v)),
    ensures
        decoded_bool(after.last()@) == Some(v),
        after.subrange(0, before.len() as int) == before,
{
    assert(after.subrange(0, before.len() as int) =~= before);
}

/// Encoding an 8-bit integer and decoding the appended argument gives it back.
pub proof fn lemma_round_trip_i8(v: i8, before: Seq<OdbcArgumentValue>, after: Seq<OdbcArgumentValue>)
    requires
        after == before.push(OdbcArgumentValue::TinyInt(v)),
    ensures
        decoded_i8(after.last()@) == Some(v),
        after.subrange(0, before.len() as int) == before,
{
    assert(after.subrange(0, before.len() as int) =~= before);
}

/// Encoding a 16-bit integer and decoding the appended argument gives it back.
pub proof fn lemma_round_trip_i16(v: i16, before: Seq<OdbcArgumentValue>, after: Seq<OdbcArgumentValue>)
    requires
        after == before.push(OdbcArgumentValue::SmallInt(v)),
    ensures
        decoded_i16(after.last()@) == Some(v),
        after.subrange(0, before.len() as int) == before,
{
    assert(after.subrange(0, before.len() as int) =~= before);
}

/// Encoding a 32-bit integer and decoding the appended argument gives it back.
pub proof fn lemma_round_trip_i32(v: i32, before: Seq<OdbcArgumentValue>, after: Seq<OdbcArgumentValue>)
    requires
        after == before.push(OdbcArgumentValue::Int(v)),
    ensures
        decoded_i32(after.last()@) == Some(v),
        after.subrange(0, before.len() as int) == before,
{
    assert(after.subrange(0, before.len() as int) =~= before);
}

/// Encoding a 64-bit integer and decoding the appended argument gives it back.
pub proof fn lemma_round_trip_i64(v: i64, before: Seq<OdbcArgumentValue>, after: Seq<OdbcArgumentValue>)
    requires
        after == before.push(OdbcArgumentValue::BigInt(v)),
    ensures
        decoded_i64(after.last()@) == Some(v),
        after.subrange(0, before.len() as int) == before,
{
    assert(after.subrange(0, before.len() as int) =~= before);
}

/// Encoding a text and decoding the appended argument gives the same
/// characters back.
pub proof fn lemma_round_trip_text(v: Seq<char>, before: Seq<OdbcArgumentValue>, after: Seq<OdbcArgumentValue>)
    requires
        after.len() == before.len() + 1,
        after.subrange(0, before.len() as int) == before,
        after.last()@ == ValueView::Text(v),
    ensures
        decoded_text(after.last()@) == Some(v),
{
}

/// Encoding a byte sequence and decoding the appended argument gives the same
/// bytes back.
pub proof fn lemma_round_trip_bytes(v: Seq<u8>, before: Seq<OdbcArgumentValue>, after: Seq<OdbcArgumentValue>)
    requires
        after.len() == before.len() + 1,
        after.subrange(0, before.len() as int) == before,
        after.last()@ == ValueView::Binary(v),
    ensures
        decoded_bytes(after.last()@) == Some(v),
{
}

} // verus!

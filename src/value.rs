//! Typed values: the cells of a result row and the arguments of a query.

use vstd::prelude::*;
use crate::type_info::{DataType, OdbcTypeInfo};

verus! {

/// A calendar date.
#[derive(Debug, Clone, Copy, PartialEq, Eq)]
pub struct Date {
    pub year: i16,
    pub month: u16,
    pub day: u16,
}

/// A time of day.
#[derive(Debug, Clone, Copy, PartialEq, Eq)]
pub struct Time {
    pub hour: u16,
    pub minute: u16,
    pub second: u16,
}

/// A date and time of day, with a fraction of a second in nanoseconds.
#[derive(Debug, Clone, Copy, PartialEq, Eq)]
pub struct Timestamp {
    pub year: i16,
    pub month: u16,
    pub day: u16,
    pub hour: u16,
    pub minute: u16,
    pub second: u16,
    pub fraction: u32,
}

/// The mathematical content of a cell or an argument. Floating-point
/// numbers are held as their IEEE 754 bit patterns.
pub enum ValueView {
    Null,
    Bool(bool),
    TinyInt(i8),
    SmallInt(i16),
    Int(i32),
    BigInt(i64),
    Float(u32),
    Double(u64),
    Text(Seq<char>),
    Binary(Seq<u8>),
    Date(Date),
    Time(Time),
    Timestamp(Timestamp),
}

/// An owned cell of a result row. Exactly one variant is active; text and
/// bytes are owned copies. `Float` and `Double` hold IEEE 754 bit patterns.
#[derive(Debug, Clone)]
pub enum OdbcValueData {
    Null,
    Bool(bool),
    TinyInt(i8),
    SmallInt(i16),
    Int(i32),
    BigInt(i64),
    Float(u32),
    Double(u64),
    Text(String),
    Binary(Vec<u8>),
    Date(Date),
    Time(Time),
    Timestamp(Timestamp),
}

impl View for OdbcValueData {
    type V = ValueView;

    open spec fn view(&self) -> ValueView {
        match self {
            OdbcValueData::Null => ValueView::Null,
            OdbcValueData::Bool(b) => ValueView::Bool(*b),
            OdbcValueData::TinyInt(i) => ValueView::TinyInt(*i),
            OdbcValueData::SmallInt(i) => ValueView::SmallInt(*i),
            OdbcValueData::Int(i) => ValueView::Int(*i),
            OdbcValueData::BigInt(i) => ValueView::BigInt(*i),
            OdbcValueData::Float(f) => ValueView::Float(*f),
            OdbcValueData::Double(f) => ValueView::Double(*f),
            OdbcValueData::Text(s) => ValueView::Text(s@),
            OdbcValueData::Binary(b) => ValueView::Binary(b@),
            OdbcValueData::Date(d) => ValueView::Date(*d),
            OdbcValueData::Time(t) => ValueView::Time(*t),
            OdbcValueData::Timestamp(t) => ValueView::Timestamp(*t),
        }
    }
}

/// One argument bound to a `?` placeholder of a query. It has the same
/// shapes as a cell.
#[derive(Debug, Clone)]
pub enum OdbcArgumentValue {
    Null,
    Bool(bool),
    TinyInt(i8),
    SmallInt(i16),
    Int(i32),
    BigInt(i64),
    Float(u32),
    Double(u64),
    Text(String),
    Binary(Vec<u8>),
    Date(Date),
    Time(Time),
    Timestamp(Timestamp),
}

impl View for OdbcArgumentValue {
    type V = ValueView;

    open spec fn view(&self) -> ValueView {
        match self {
            OdbcArgumentValue::Null => ValueView::Null,
            OdbcArgumentValue::Bool(b) => ValueView::Bool(*b),
            OdbcArgumentValue::TinyInt(i) => ValueView::TinyInt(*i),
            OdbcArgumentValue::SmallInt(i) => ValueView::SmallInt(*i),
            OdbcArgumentValue::Int(i) => ValueView::Int(*i),
            OdbcArgumentValue::BigInt(i) => ValueView::BigInt(*i),
            OdbcArgumentValue::Float(f) => ValueView::Float(*f),
            OdbcArgumentValue::Double(f) => ValueView::Double(*f),
            OdbcArgumentValue::Text(s) => ValueView::Text(s@),
            OdbcArgumentValue::Binary(b) => ValueView::Binary(b@),
            OdbcArgumentValue::Date(d) => ValueView::Date(*d),
            OdbcArgumentValue::Time(t) => ValueView::Time(*t),
            OdbcArgumentValue::Timestamp(t) => ValueView::Timestamp(*t),
        }
    }
}

/// Copies a text.
pub fn copy_string(s: &String) -> (r: String)
    ensures
        r@ == s@,
{
    String::from_str(s.as_str())
}

/// Copies a byte sequence.
pub fn copy_bytes(b: &Vec<u8>) -> (r: Vec<u8>)
    ensures
        r@ == b@,
{
    vstd::slice::slice_to_vec(b.as_slice())
}

impl OdbcValueData {
    /// The cell that holds what an argument holds.
    pub fn from_argument(arg: &OdbcArgumentValue) -> (r: Self)
        ensures
            r@ == arg@,
    {
        match arg {
            OdbcArgumentValue::Null => OdbcValueData::Null,
            OdbcArgumentValue::Bool(b) => OdbcValueData::Bool(*b),
            OdbcArgumentValue::TinyInt(i) => OdbcValueData::TinyInt(*i),
            OdbcArgumentValue::SmallInt(i) => OdbcValueData::SmallInt(*i),
            OdbcArgumentValue::Int(i) => OdbcValueData::Int(*i),
            OdbcArgumentValue::BigInt(i) => OdbcValueData::BigInt(*i),
            OdbcArgumentValue::Float(f) => OdbcValueData::Float(*f),
            OdbcArgumentValue::Double(f) => OdbcValueData::Double(*f),
            OdbcArgumentValue::Text(s) => OdbcValueData::Text(copy_string(s)),
            OdbcArgumentValue::Binary(b) => OdbcValueData::Binary(copy_bytes(b)),
            OdbcArgumentValue::Date(d) => OdbcValueData::Date(*d),
            OdbcArgumentValue::Time(t) => OdbcValueData::Time(*t),
            OdbcArgumentValue::Timestamp(t) => OdbcValueData::Timestamp(*t),
        }
    }

    /// A copy of this cell.
    pub fn copy(&self) -> (r: Self)
        ensures
            r@ == self@,
    {
        match self {
            OdbcValueData::Null => OdbcValueData::Null,
            OdbcValueData::Bool(b) => OdbcValueData::Bool(*b),
            OdbcValueData::TinyInt(i) => OdbcValueData::TinyInt(*i),
            OdbcValueData::SmallInt(i) => OdbcValueData::SmallInt(*i),
            OdbcValueData::Int(i) => OdbcValueData::Int(*i),
            OdbcValueData::BigInt(i) => OdbcValueData::BigInt(*i),
            OdbcValueData::Float(f) => OdbcValueData::Float(*f),
            OdbcValueData::Double(f) => OdbcValueData::Double(*f),
            OdbcValueData::Text(s) => OdbcValueData::Text(copy_string(s)),
            OdbcValueData::Binary(b) => OdbcValueData::Binary(copy_bytes(b)),
            OdbcValueData::Date(d) => OdbcValueData::Date(*d),
            OdbcValueData::Time(t) => OdbcValueData::Time(*t),
            OdbcValueData::Timestamp(t) => OdbcValueData::Timestamp(*t),
        }
    }

    /// Whether this is the NULL cell.
    pub fn is_null(&self) -> (r: bool)
        ensures
            r == (self@ is Null),
    {
        matches!(self, OdbcValueData::Null)
    }
}

/// A borrowed cell together with the type of its column.
#[derive(Debug, Clone)]
pub struct OdbcValueRef<'r> {
    pub data: &'r OdbcValueData,
    pub type_info: OdbcTypeInfo,
}

impl<'r> OdbcValueRef<'r> {
    pub fn new(data: &'r OdbcValueData, type_info: OdbcTypeInfo) -> (r: Self)
        ensures
            r.data == data,
            r.type_info == type_info,
    {
        OdbcValueRef { data, type_info }
    }

    /// The borrowed cell.
    pub fn data(&self) -> (r: &'r OdbcValueData)
        ensures
            r == self.data,
    {
        self.data
    }

    /// An owned copy of the cell and its type.
    pub fn to_owned(&self) -> (r: OdbcValue)
        ensures
            r.data@ == self.data@,
            r.type_info == self.type_info,
    {
        OdbcValue { data: self.data.copy(), type_info: self.type_info }
    }

    /// The type of the column the cell came from.
    pub fn type_info(&self) -> (r: OdbcTypeInfo)
        ensures
            r == self.type_info,
    {
        self.type_info
    }

    pub fn is_null(&self) -> (r: bool)
        ensures
            r == (self.data@ is Null),
    {
        self.data.is_null()
    }
}

/// An owned cell together with the type of its column.
#[derive(Debug, Clone)]
pub struct OdbcValue {
    pub data: OdbcValueData,
    pub type_info: OdbcTypeInfo,
}

impl OdbcValue {
    pub fn new(data: OdbcValueData, type_info: OdbcTypeInfo) -> (r: Self)
        ensures
            r.data == data,
            r.type_info == type_info,
    {
        OdbcValue { data, type_info }
    }

    /// The NULL value, of unknown type.
    pub fn null() -> (r: Self)
        ensures
            r.data@ is Null,
            r.type_info.data_type == DataType::Unknown,
    {
        OdbcValue { data: OdbcValueData::Null, type_info: OdbcTypeInfo::null() }
    }

    /// The cell.
    pub fn data(&self) -> (r: &OdbcValueData)
        ensures
            r == &self.data,
    {
        &self.data
    }

    /// Gives up the type and keeps the cell.
    pub fn into_data(self) -> (r: OdbcValueData)
        ensures
            r == self.data,
    {
        self.data
    }

    /// A borrowed view of this value.
    pub fn as_ref(&self) -> (r: OdbcValueRef<'_>)
        ensures
            r.data == &self.data,
            r.type_info == self.type_info,
    {
        OdbcValueRef { data: &self.data, type_info: self.type_info }
    }

    pub fn type_info(&self) -> (r: OdbcTypeInfo)
        ensures
            r == self.type_info,
    {
        self.type_info
    }

    pub fn is_null(&self) -> (r: bool)
        ensures
            r == (self.data@ is Null),
    {
        self.data.is_null()
    }
}

} // verus!

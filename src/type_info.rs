//! Native column type tags and the type descriptor built on them.

use vstd::prelude::*;

verus! {

/// A native column type as the driver manager reports it. Lengths and
/// precisions are carried as plain numbers; `None` means "not declared".
#[derive(Debug, Clone, Copy, PartialEq, Eq)]
pub enum DataType {
    Unknown,
    Char { length: Option<usize> },
    Numeric { precision: usize, scale: i16 },
    Decimal { precision: usize, scale: i16 },
    Integer,
    SmallInt,
    Float { precision: usize },
    Real,
    Double,
    Varchar { length: Option<usize> },
    WChar { length: Option<usize> },
    WVarchar { length: Option<usize> },
    WLongVarchar { length: Option<usize> },
    LongVarchar { length: Option<usize> },
    Date,
    Time { precision: i16 },
    Timestamp { precision: i16 },
    BigInt,
    TinyInt,
    Bit,
    Varbinary { length: Option<usize> },
    Binary { length: Option<usize> },
    LongVarbinary { length: Option<usize> },
    Other { data_type: i16, column_size: Option<usize>, decimal_digits: i16 },
}

/// The category of a type: which variant it is, parameters left aside.
pub open spec fn category(dt: DataType) -> int {
    match dt {
        DataType::Unknown => 0,
        DataType::Char { .. } => 1,
        DataType::Numeric { .. } => 2,
        DataType::Decimal { .. } => 3,
        DataType::Integer => 4,
        DataType::SmallInt => 5,
        DataType::Float { .. } => 6,
        DataType::Real => 7,
        DataType::Double => 8,
        DataType::Varchar { .. } => 9,
        DataType::WChar { .. } => 10,
        DataType::WVarchar { .. } => 11,
        DataType::WLongVarchar { .. } => 12,
        DataType::LongVarchar { .. } => 13,
        DataType::Date => 14,
        DataType::Time { .. } => 15,
        DataType::Timestamp { .. } => 16,
        DataType::BigInt => 17,
        DataType::TinyInt => 18,
        DataType::Bit => 19,
        DataType::Varbinary { .. } => 20,
        DataType::Binary { .. } => 21,
        DataType::LongVarbinary { .. } => 22,
        DataType::Other { .. } => 23,
    }
}

/// Character and national-character types.
pub open spec fn is_character(dt: DataType) -> bool {
    dt is Char || dt is Varchar || dt is LongVarchar || dt is WChar || dt is WVarchar
        || dt is WLongVarchar
}

/// Binary types.
pub open spec fn is_binary(dt: DataType) -> bool {
    dt is Binary || dt is Varbinary || dt is LongVarbinary
}

/// Exact and approximate numeric types.
pub open spec fn is_numeric(dt: DataType) -> bool {
    dt is TinyInt || dt is SmallInt || dt is Integer || dt is BigInt || dt is Real
        || dt is Float || dt is Double || dt is Decimal || dt is Numeric
}

/// Date and time types.
pub open spec fn is_datetime(dt: DataType) -> bool {
    dt is Date || dt is Time || dt is Timestamp
}

/// The display name of each type.
pub open spec fn display_name(dt: DataType) -> Seq<char> {
    match dt {
        DataType::BigInt => "BIGINT"@,
        DataType::Binary { .. } => "BINARY"@,
        DataType::Bit => "BIT"@,
        DataType::Char { .. } => "CHAR"@,
        DataType::Date => "DATE"@,
        DataType::Decimal { .. } => "DECIMAL"@,
        DataType::Double => "DOUBLE"@,
        DataType::Float { .. } => "FLOAT"@,
        DataType::Integer => "INTEGER"@,
        DataType::LongVarbinary { .. } => "LONGVARBINARY"@,
        DataType::LongVarchar { .. } => "LONGVARCHAR"@,
        DataType::Numeric { .. } => "NUMERIC"@,
        DataType::Real => "REAL"@,
        DataType::SmallInt => "SMALLINT"@,
        DataType::Time { .. } => "TIME"@,
        DataType::Timestamp { .. } => "TIMESTAMP"@,
        DataType::TinyInt => "TINYINT"@,
        DataType::Varbinary { .. } => "VARBINARY"@,
        DataType::Varchar { .. } => "VARCHAR"@,
        DataType::WChar { .. } => "WCHAR"@,
        DataType::WLongVarchar { .. } => "WLONGVARCHAR"@,
        DataType::WVarchar { .. } => "WVARCHAR"@,
        DataType::Unknown => "UNKNOWN"@,
        DataType::Other { .. } => "OTHER"@,
    }
}

impl DataType {
    /// The category number of this type (see `category`).
    pub fn category(&self) -> (r: u8)
        ensures
            r as int == category(*self),
    {
        match self {
            DataType::Unknown => 0,
            DataType::Char { .. } => 1,
            DataType::Numeric { .. } => 2,
            DataType::Decimal { .. } => 3,
            DataType::Integer => 4,
            DataType::SmallInt => 5,
            DataType::Float { .. } => 6,
            DataType::Real => 7,
            DataType::Double => 8,
            DataType::Varchar { .. } => 9,
            DataType::WChar { .. } => 10,
            DataType::WVarchar { .. } => 11,
            DataType::WLongVarchar { .. } => 12,
            DataType::LongVarchar { .. } => 13,
            DataType::Date => 14,
            DataType::Time { .. } => 15,
            DataType::Timestamp { .. } => 16,
            DataType::BigInt => 17,
            DataType::TinyInt => 18,
            DataType::Bit => 19,
            DataType::Varbinary { .. } => 20,
            DataType::Binary { .. } => 21,
            DataType::LongVarbinary { .. } => 22,
            DataType::Other { .. } => 23,
        }
    }
}

/// The display name of a native type.
pub fn data_type_name(dt: DataType) -> (r: &'static str)
    ensures
        r@ == display_name(dt),
{
    match dt {
        DataType::BigInt => "BIGINT",
        DataType::Binary { .. } => "BINARY",
        DataType::Bit => "BIT",
        DataType::Char { .. } => "CHAR",
        DataType::Date => "DATE",
        DataType::Decimal { .. } => "DECIMAL",
        DataType::Double => "DOUBLE",
        DataType::Float { .. } => "FLOAT",
        DataType::Integer => "INTEGER",
        DataType::LongVarbinary { .. } => "LONGVARBINARY",
        DataType::LongVarchar { .. } => "LONGVARCHAR",
        DataType::Numeric { .. } => "NUMERIC",
        DataType::Real => "REAL",
        DataType::SmallInt => "SMALLINT",
        DataType::Time { .. } => "TIME",
        DataType::Timestamp { .. } => "TIMESTAMP",
        DataType::TinyInt => "TINYINT",
        DataType::Varbinary { .. } => "VARBINARY",
        DataType::Varchar { .. } => "VARCHAR",
        DataType::WChar { .. } => "WCHAR",
        DataType::WLongVarchar { .. } => "WLONGVARCHAR",
        DataType::WVarchar { .. } => "WVARCHAR",
        DataType::Unknown => "UNKNOWN",
        DataType::Other { .. } => "OTHER",
    }
}

/// Questions about the kind of data a native type holds.
pub trait DataTypeExt: Sized {
    spec fn spec_character(self) -> bool;

    spec fn spec_binary(self) -> bool;

    spec fn spec_numeric(self) -> bool;

    spec fn spec_datetime(self) -> bool;

    /// Whether this is a character or national-character type.
    fn accepts_character_data(self) -> (r: bool)
        ensures
            r == self.spec_character(),
    ;

    /// Whether this is a binary type.
    fn accepts_binary_data(self) -> (r: bool)
        ensures
            r == self.spec_binary(),
    ;

    /// Whether this is a numeric type.
    fn accepts_numeric_data(self) -> (r: bool)
        ensures
            r == self.spec_numeric(),
    ;

    /// Whether this is a date or time type.
    fn accepts_datetime_data(self) -> (r: bool)
        ensures
            r == self.spec_datetime(),
    ;
}

impl DataTypeExt for DataType {
    open spec fn spec_character(self) -> bool {
        is_character(self)
    }

    open spec fn spec_binary(self) -> bool {
        is_binary(self)
    }

    open spec fn spec_numeric(self) -> bool {
        is_numeric(self)
    }

    open spec fn spec_datetime(self) -> bool {
        is_datetime(self)
    }

    fn accepts_character_data(self) -> (r: bool) {
        matches!(
            self,
            DataType::Char { .. } | DataType::Varchar { .. } | DataType::LongVarchar { .. }
                | DataType::WChar { .. } | DataType::WVarchar { .. } | DataType::WLongVarchar {
                .. }
        )
    }

    fn accepts_binary_data(self) -> (r: bool) {
        matches!(
            self,
            DataType::Binary { .. } | DataType::Varbinary { .. } | DataType::LongVarbinary { .. }
        )
    }

    fn accepts_numeric_data(self) -> (r: bool) {
        matches!(
            self,
            DataType::TinyInt | DataType::SmallInt | DataType::Integer | DataType::BigInt
                | DataType::Real | DataType::Float { .. } | DataType::Double | DataType::Decimal {
                .. } | DataType::Numeric { .. }
        )
    }

    fn accepts_datetime_data(self) -> (r: bool) {
        matches!(self, DataType::Date | DataType::Time { .. } | DataType::Timestamp { .. })
    }
}

/// Describes the type of a column, a parameter or a value. Two descriptors
/// are equal when their types fall in the same category, whatever their
/// declared lengths or precisions.
#[derive(Debug, Clone, Copy)]
pub struct OdbcTypeInfo {
    pub data_type: DataType,
}

impl PartialEq for OdbcTypeInfo {
    fn eq(&self, other: &OdbcTypeInfo) -> (r: bool) {
        self.data_type.category() == other.data_type.category()
    }
}

impl vstd::std_specs::cmp::PartialEqSpecImpl for OdbcTypeInfo {
    open spec fn obeys_eq_spec() -> bool {
        true
    }

    open spec fn eq_spec(&self, other: &OdbcTypeInfo) -> bool {
        category(self.data_type) == category(other.data_type)
    }
}

impl Eq for OdbcTypeInfo {}

impl OdbcTypeInfo {
    /// A descriptor for the given native type.
    pub fn new(data_type: DataType) -> (r: Self)
        ensures
            r.data_type == data_type,
    {
        OdbcTypeInfo { data_type }
    }

    /// The native type.
    pub fn data_type(&self) -> (r: DataType)
        ensures
            r == self.data_type,
    {
        self.data_type
    }

    /// The descriptor of a value whose type is not known (a NULL literal).
    pub fn null() -> (r: Self)
        ensures
            r.data_type == DataType::Unknown,
    {
        OdbcTypeInfo { data_type: DataType::Unknown }
    }

    pub fn bit() -> (r: Self)
        ensures
            r.data_type == DataType::Bit,
    {
        OdbcTypeInfo { data_type: DataType::Bit }
    }

    pub fn tiny_int() -> (r: Self)
        ensures
            r.data_type == DataType::TinyInt,
    {
        OdbcTypeInfo { data_type: DataType::TinyInt }
    }

    pub fn small_int() -> (r: Self)
        ensures
            r.data_type == DataType::SmallInt,
    {
        OdbcTypeInfo { data_type: DataType::SmallInt }
    }

    pub fn integer() -> (r: Self)
        ensures
            r.data_type == DataType::Integer,
    {
        OdbcTypeInfo { data_type: DataType::Integer }
    }

    pub fn big_int() -> (r: Self)
        ensures
            r.data_type == DataType::BigInt,
    {
        OdbcTypeInfo { data_type: DataType::BigInt }
    }

    pub fn real_type() -> (r: Self)
        ensures
            r.data_type == DataType::Real,
    {
        OdbcTypeInfo { data_type: DataType::Real }
    }

    pub fn double() -> (r: Self)
        ensures
            r.data_type == DataType::Double,
    {
        OdbcTypeInfo { data_type: DataType::Double }
    }

    pub fn date() -> (r: Self)
        ensures
            r.data_type == DataType::Date,
    {
        OdbcTypeInfo { data_type: DataType::Date }
    }

    /// A variable-length character type; a length of zero means undeclared.
    pub fn varchar(length: usize) -> (r: Self)
        ensures
            r.data_type == (DataType::Varchar {
                length: if length == 0 { None } else { Some(length) },
            }),
    {
        let length = if length == 0 { None } else { Some(length) };
        OdbcTypeInfo { data_type: DataType::Varchar { length } }
    }

    /// A variable-length binary type; a length of zero means undeclared.
    pub fn varbinary(length: usize) -> (r: Self)
        ensures
            r.data_type == (DataType::Varbinary {
                length: if length == 0 { None } else { Some(length) },
            }),
    {
        let length = if length == 0 { None } else { Some(length) };
        OdbcTypeInfo { data_type: DataType::Varbinary { length } }
    }

    /// Whether this describes a value of unknown type.
    pub fn is_null(&self) -> (r: bool)
        ensures
            r == (self.data_type is Unknown),
    {
        matches!(self.data_type, DataType::Unknown)
    }

    /// The display name of the type.
    pub fn name(&self) -> (r: &'static str)
        ensures
            r@ == display_name(self.data_type),
    {
        data_type_name(self.data_type)
    }
}

} // verus!

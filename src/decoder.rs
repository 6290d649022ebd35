//! Turning what the native driver reported about a result set into columns,
//! typed rows, and the stream of items a fetch yields.
//!
//! The caller reads the result set natively: the name and type of each
//! column, then each row's cells (as text, or as bytes for binary columns),
//! stopping at the first native failure. Everything decided from those
//! plain values happens here.

use vstd::prelude::*;
use crate::column::OdbcColumn;
use crate::error::OdbcError;
use crate::row::OdbcRow;
use crate::type_info::{DataType, OdbcTypeInfo};
use crate::datetime::{parse_date, parse_time, parse_timestamp, parsed_date, parsed_time, parsed_timestamp};
use crate::types::{bool_text, parsed_in, text_bool};
use crate::value::{OdbcValue, OdbcValueData, ValueView, copy_bytes, copy_string};

verus! {

/// A cell as the driver handed it over.
#[derive(Debug, Clone)]
pub enum RawCell {
    /// The NULL indicator was set.
    Null,
    /// The cell read as text.
    Text(String),
    /// The cell of a binary column, read as bytes.
    Bytes(Vec<u8>),
}

/// A column as the driver described it.
#[derive(Debug, Clone)]
pub struct ColumnDescription {
    pub name: String,
    pub data_type: DataType,
}

/// The typed value of a cell of a column of type `dt`. Integer columns give
/// integers of their width, bit columns booleans, and date, time and
/// timestamp columns dates, times and timestamps, when the text is in the
/// driver's canonical form for them. Text that is not, character columns,
/// and columns of a type the library does not model (unknown, other,
/// decimal and floating-point types) keep the text as it came: a lossy but
/// usable fallback, which `keeps_text` reports.
pub open spec fn cell_view(dt: DataType, cell: RawCell) -> ValueView {
    match cell {
        RawCell::Null => ValueView::Null,
        RawCell::Bytes(b) => ValueView::Binary(b@),
        RawCell::Text(s) => match dt {
            DataType::TinyInt => match parsed_in(s@, i8::MIN as int, i8::MAX as int) {
                Some(v) => ValueView::TinyInt(v as i8),
                None => ValueView::Text(s@),
            },
            DataType::SmallInt => match parsed_in(s@, i16::MIN as int, i16::MAX as int) {
                Some(v) => ValueView::SmallInt(v as i16),
                None => ValueView::Text(s@),
            },
            DataType::Integer => match parsed_in(s@, i32::MIN as int, i32::MAX as int) {
                Some(v) => ValueView::Int(v as i32),
                None => ValueView::Text(s@),
            },
            DataType::BigInt => match parsed_in(s@, i64::MIN as int, i64::MAX as int) {
                Some(v) => ValueView::BigInt(v as i64),
                None => ValueView::Text(s@),
            },
            DataType::Bit => match text_bool(s@) {
                Some(b) => ValueView::Bool(b),
                None => ValueView::Text(s@),
            },
            DataType::Date => match parsed_date(s@) {
                Some(d) => ValueView::Date(d),
                None => ValueView::Text(s@),
            },
            DataType::Time { .. } => match parsed_time(s@) {
                Some(t) => ValueView::Time(t),
                None => ValueView::Text(s@),
            },
            DataType::Timestamp { .. } => match parsed_timestamp(s@) {
                Some(t) => ValueView::Timestamp(t),
                None => ValueView::Text(s@),
            },
            _ => ValueView::Text(s@),
        },
    }
}

/// Whether the cells of a column of this type are always kept as text.
pub open spec fn text_column(dt: DataType) -> bool {
    !(dt is TinyInt || dt is SmallInt || dt is Integer || dt is BigInt || dt is Bit || dt is Date
        || dt is Time || dt is Timestamp)
}

/// Whether cells of a column of type `dt` are handed over as text rather
/// than as a typed value: character columns, and the fallback for types the
/// library does not model.
pub fn keeps_text(dt: DataType) -> (r: bool)
    ensures
        r == text_column(dt),
{
    !matches!(
        dt,
        DataType::TinyInt | DataType::SmallInt | DataType::Integer | DataType::BigInt
            | DataType::Bit | DataType::Date | DataType::Time { .. } | DataType::Timestamp { .. }
    )
}

/// The value of one cell.
pub fn cell_value(dt: DataType, cell: &RawCell) -> (r: OdbcValueData)
    ensures
        r@ == cell_view(dt, *cell),
{
    match cell {
        RawCell::Null => OdbcValueData::Null,
        RawCell::Bytes(b) => OdbcValueData::Binary(copy_bytes(b)),
        RawCell::Text(s) => {
            let text = s.as_str();
            match dt {
                DataType::TinyInt => match crate::types::parse_in_range(text, -128, 127) {
                    Some(v) => OdbcValueData::TinyInt(v as i8),
                    None => OdbcValueData::Text(copy_string(s)),
                },
                DataType::SmallInt => match crate::types::parse_in_range(text, -32768, 32767) {
                    Some(v) => OdbcValueData::SmallInt(v as i16),
                    None => OdbcValueData::Text(copy_string(s)),
                },
                DataType::Integer => match crate::types::parse_in_range(
                    text,
                    -2147483648,
                    2147483647,
                ) {
                    Some(v) => OdbcValueData::Int(v as i32),
                    None => OdbcValueData::Text(copy_string(s)),
                },
                DataType::BigInt => match crate::types::parse_in_range(text, i64::MIN, i64::MAX) {
                    Some(v) => OdbcValueData::BigInt(v),
                    None => OdbcValueData::Text(copy_string(s)),
                },
                DataType::Bit => match bool_text(text) {
                    Some(b) => OdbcValueData::Bool(b),
                    None => OdbcValueData::Text(copy_string(s)),
                },
                DataType::Date => match parse_date(text) {
                    Some(d) => OdbcValueData::Date(d),
                    None => OdbcValueData::Text(copy_string(s)),
                },
                DataType::Time { .. } => match parse_time(text) {
                    Some(t) => OdbcValueData::Time(t),
                    None => OdbcValueData::Text(copy_string(s)),
                },
                DataType::Timestamp { .. } => match parse_timestamp(text) {
                    Some(t) => OdbcValueData::Timestamp(t),
                    None => OdbcValueData::Text(copy_string(s)),
                },
                _ => OdbcValueData::Text(copy_string(s)),
            }
        },
    }
}

/// The columns of a result set, numbered from 0 in the order the driver
/// described them (the driver numbers them from 1).
pub fn build_columns(descs: &Vec<ColumnDescription>) -> (r: Vec<OdbcColumn>)
    ensures
        r@.len() == descs@.len(),
        forall|i: int|
            0 <= i < r@.len() ==> (#[trigger] r@[i]).ordinal == i && r@[i].name@ == descs@[i].name@
                && r@[i].type_info.data_type == descs@[i].data_type,
{
    let mut cols: Vec<OdbcColumn> = Vec::new();
    let mut i: usize = 0;
    while i < descs.len()
        invariant
            i <= descs@.len(),
            cols@.len() == i,
            forall|j: int|
                0 <= j < i ==> (#[trigger] cols@[j]).ordinal == j && cols@[j].name@
                    == descs@[j].name@ && cols@[j].type_info.data_type == descs@[j].data_type,
        decreases descs@.len() - i,
    {
        let d = &descs[i];
        cols.push(OdbcColumn::new(i, copy_string(&d.name), OdbcTypeInfo::new(d.data_type)));
        i = i + 1;
    }
    cols
}

/// Copies a column list.
fn copy_columns(cols: &Vec<OdbcColumn>) -> (r: Vec<OdbcColumn>)
    ensures
        r@.len() == cols@.len(),
        forall|i: int|
            0 <= i < r@.len() ==> (#[trigger] r@[i]).ordinal == cols@[i].ordinal && r@[i].name@
                == cols@[i].name@ && r@[i].type_info == cols@[i].type_info,
{
    let mut out: Vec<OdbcColumn> = Vec::new();
    let mut i: usize = 0;
    while i < cols.len()
        invariant
            i <= cols@.len(),
            out@.len() == i,
            forall|j: int|
                0 <= j < i ==> (#[trigger] out@[j]).ordinal == cols@[j].ordinal && out@[j].name@
                    == cols@[j].name@ && out@[j].type_info == cols@[j].type_info,
        decreases cols@.len() - i,
    {
        out.push(cols[i].copy());
        i = i + 1;
    }
    out
}

/// Whether `row` is what the cells `cells` of a result set with columns
/// `cols` decode to.
pub open spec fn row_decodes(row: OdbcRow, cols: Seq<OdbcColumn>, cells: Seq<RawCell>) -> bool {
    &&& row.wf()
    &&& row.columns@.len() == cols.len()
    &&& row.values@.len() == cells.len()
    &&& forall|i: int|
        0 <= i < cols.len() ==> (#[trigger] row.columns@[i]).ordinal == cols[i].ordinal
            && row.columns@[i].name@ == cols[i].name@ && row.columns@[i].type_info
            == cols[i].type_info
    &&& forall|i: int|
        0 <= i < cells.len() ==> (#[trigger] row.values@[i]).data@ == cell_view(
            cols[i].type_info.data_type,
            cells[i],
        ) && row.values@[i].type_info == cols[i].type_info
}

/// Decodes one row of cells.
pub fn decode_row(cols: &Vec<OdbcColumn>, cells: &Vec<RawCell>) -> (r: OdbcRow)
    requires
        cells@.len() == cols@.len(),
    ensures
        row_decodes(r, cols@, cells@),
{
    let mut values: Vec<OdbcValue> = Vec::new();
    let mut i: usize = 0;
    while i < cells.len()
        invariant
            i <= cells@.len(),
            cells@.len() == cols@.len(),
            values@.len() == i,
            forall|j: int|
                0 <= j < i ==> (#[trigger] values@[j]).data@ == cell_view(
                    cols@[j].type_info.data_type,
                    cells@[j],
                ) && values@[j].type_info == cols@[j].type_info,
        decreases cells@.len() - i,
    {
        let ty = cols[i].type_info;
        values.push(OdbcValue::new(cell_value(ty.data_type, &cells[i]), ty));
        i = i + 1;
    }
    OdbcRow::new(copy_columns(cols), values)
}

/// Whether `items` is what a fetch yields for these rows of cells and this
/// terminal failure: one decoded row per row of cells, in order, then the
/// failure as a protocol error carrying the native message verbatim.
pub open spec fn fetch_yields(
    items: Seq<Result<OdbcRow, OdbcError>>,
    cols: Seq<OdbcColumn>,
    rows: Seq<Seq<RawCell>>,
    failure: Option<Seq<char>>,
) -> bool {
    &&& items.len() == rows.len() + if failure is Some { 1int } else { 0int }
    &&& forall|i: int|
        0 <= i < rows.len() ==> match #[trigger] items[i] {
            Ok(row) => row_decodes(row, cols, rows[i]),
            Err(_) => false,
        }
    &&& match failure {
        Some(msg) => match items.last() {
            Err(OdbcError::Protocol(m)) => m@ == msg,
            _ => false,
        },
        None => true,
    }
}

/// The items a fetch yields: every row decoded before the driver failed,
/// in order, followed by the failure, if there was one. Rows decoded
/// before a failure are kept, never dropped.
pub fn fetch_results(
    cols: &Vec<OdbcColumn>,
    rows: &Vec<Vec<RawCell>>,
    failure: Option<String>,
) -> (r: Vec<Result<OdbcRow, OdbcError>>)
    requires
        forall|i: int| 0 <= i < rows@.len() ==> (#[trigger] rows@[i])@.len() == cols@.len(),
    ensures
        fetch_yields(
            r@,
            cols@,
            rows@.map_values(|row: Vec<RawCell>| row@),
            match failure {
                Some(m) => Some(m@),
                None => None,
            },
        ),
{
    let ghost cells = rows@.map_values(|row: Vec<RawCell>| row@);
    let mut items: Vec<Result<OdbcRow, OdbcError>> = Vec::new();
    let mut i: usize = 0;
    while i < rows.len()
        invariant
            i <= rows@.len(),
            cells == rows@.map_values(|row: Vec<RawCell>| row@),
            forall|k: int| 0 <= k < rows@.len() ==> (#[trigger] rows@[k])@.len() == cols@.len(),
            items@.len() == i,
            forall|k: int|
                0 <= k < i ==> match #[trigger] items@[k] {
                    Ok(row) => row_decodes(row, cols@, cells[k]),
                    Err(_) => false,
                },
        decreases rows@.len() - i,
    {
        let row = decode_row(cols, &rows[i]);
        items.push(Ok(row));
        i = i + 1;
    }
    match failure {
        Some(msg) => {
            items.push(Err(OdbcError::Protocol(msg)));
        },
        None => {},
    }
    items
}

/// The first row of a fetch: `None` when it yields no row, the failure
/// when it fails before its first row.
pub fn fetch_optional(items: Vec<Result<OdbcRow, OdbcError>>) -> (r: Result<Option<OdbcRow>, OdbcError>)
    ensures
        items@.len() == 0 ==> r matches Ok(None),
        items@.len() > 0 ==> match items@[0] {
            Ok(row) => r == Ok::<Option<OdbcRow>, OdbcError>(Some(row)),
            Err(e) => r == Err::<Option<OdbcRow>, OdbcError>(e),
        },
{
    let mut items = items;
    if items.len() == 0 {
        return Ok(None);
    }
    let first = items.remove(0);
    match first {
        Ok(row) => Ok(Some(row)),
        Err(e) => Err(e),
    }
}

/// All rows of a fetch, or its failure. Rows decoded before a failure are
/// still handed to the caller with the failure.
pub fn fetch_all(items: Vec<Result<OdbcRow, OdbcError>>) -> (r: (Vec<OdbcRow>, Option<OdbcError>))
    ensures
        r.0@.len() <= items@.len(),
        forall|i: int| 0 <= i < r.0@.len() ==> items@[i] == Ok::<OdbcRow, OdbcError>(#[trigger] r.0@[i]),
        match r.1 {
            None => r.0@.len() == items@.len(),
            Some(e) => r.0@.len() < items@.len() && items@[r.0@.len() as int] == Err::<OdbcRow, OdbcError>(e),
        },
{
    let mut rows: Vec<OdbcRow> = Vec::new();
    let mut rest = items;
    let ghost all = rest@;
    let mut i: usize = 0;
    let n = rest.len();
    while i < n
        invariant
            n == all.len(),
            i <= n,
            rows@.len() == i,
            rest@ == all.subrange(i as int, n as int),
            all == items@,
            forall|k: int| 0 <= k < i ==> all[k] == Ok::<OdbcRow, OdbcError>(#[trigger] rows@[k]),
        decreases n - i,
    {
        let item = rest.remove(0);
        assert(item == all[i as int]);
        assert(rest@ =~= all.subrange(i + 1, n as int));
        match item {
            Ok(row) => {
                rows.push(row);
            },
            Err(e) => {
                return (rows, Some(e));
            },
        }
        i = i + 1;
    }
    assert(rows@.len() == all.len());
    (rows, None)
}

} // verus!

verus! {

/// A fetch whose driver failed after some rows yields each of those rows,
/// decoded, and then one protocol error with the native message: it is
/// never empty and never drops a decoded row.
pub proof fn lemma_failed_fetch_keeps_rows(
    items: Seq<Result<OdbcRow, OdbcError>>,
    cols: Seq<OdbcColumn>,
    rows: Seq<Seq<RawCell>>,
    msg: Seq<char>,
)
    requires
        fetch_yields(items, cols, rows, Some(msg)),
    ensures
        items.len() == rows.len() + 1,
        forall|i: int| 0 <= i < rows.len() ==> (#[trigger] items[i]) is Ok,
        items.last() matches Err(OdbcError::Protocol(m)) && m@ == msg,
{
    assert forall|i: int| 0 <= i < rows.len() implies (#[trigger] items[i]) is Ok by {
        match items[i] {
            Ok(_) => {},
            Err(_) => {},
        }
    }
}

/// A query that yields no rows and does not fail gives an empty fetch.
pub proof fn lemma_empty_fetch(items: Seq<Result<OdbcRow, OdbcError>>, cols: Seq<OdbcColumn>)
    requires
        fetch_yields(items, cols, Seq::<Seq<RawCell>>::empty(), None),
    ensures
        items.len() == 0,
{
}

} // verus!

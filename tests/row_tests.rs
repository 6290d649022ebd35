use sqlx_odbc::column::OdbcColumn;
use sqlx_odbc::decoder::{build_columns, cell_value, fetch_all, fetch_optional, fetch_results, ColumnDescription, RawCell};
use sqlx_odbc::error::OdbcError;
use sqlx_odbc::query_result::OdbcQueryResult;
use sqlx_odbc::row::OdbcRow;
use sqlx_odbc::statement::{OdbcStatement, OdbcStatementMetadata};
use sqlx_odbc::type_info::{data_type_name, DataType, OdbcTypeInfo};
use sqlx_odbc::value::{OdbcValue, OdbcValueData};

fn cols() -> Vec<OdbcColumn> {
    build_columns(&vec![
        ColumnDescription { name: "num".to_string(), data_type: DataType::Integer },
        ColumnDescription { name: "greeting".to_string(), data_type: DataType::Varchar { length: Some(5) } },
    ])
}

fn raw(n: &str, g: &str) -> Vec<RawCell> {
    vec![RawCell::Text(n.to_string()), RawCell::Text(g.to_string())]
}

#[test]
fn columns_are_numbered_from_zero() {
    let c = cols();
    assert_eq!(c.len(), 2);
    assert_eq!(c[0].ordinal(), 0);
    assert_eq!(c[1].ordinal(), 1);
    assert_eq!(c[1].name(), "greeting");
    assert_eq!(c[0].type_info().data_type(), DataType::Integer);
}

#[test]
fn cells_take_their_column_type() {
    assert!(matches!(cell_value(DataType::Integer, &RawCell::Text("12".into())), OdbcValueData::Int(12)));
    assert!(matches!(cell_value(DataType::TinyInt, &RawCell::Text("-5".into())), OdbcValueData::TinyInt(-5)));
    assert!(matches!(cell_value(DataType::BigInt, &RawCell::Text("x".into())), OdbcValueData::Text(ref s) if s == "x"));
    assert!(matches!(cell_value(DataType::Integer, &RawCell::Null), OdbcValueData::Null));
    assert!(matches!(cell_value(DataType::Unknown, &RawCell::Text("?".into())), OdbcValueData::Text(ref s) if s == "?"));
    assert!(matches!(cell_value(DataType::Binary { length: None }, &RawCell::Bytes(vec![9])), OdbcValueData::Binary(ref b) if b == &vec![9]));
}

#[test]
fn fetch_with_no_rows_is_empty() {
    let items = fetch_results(&cols(), &vec![], None);
    assert!(items.is_empty());
    assert!(matches!(fetch_optional(items), Ok(None)));
    let (rows, err) = fetch_all(fetch_results(&cols(), &vec![], None));
    assert!(rows.is_empty());
    assert!(err.is_none());
}

#[test]
fn failed_fetch_keeps_decoded_rows() {
    let rows = vec![raw("1", "a"), raw("2", "b")];
    let items = fetch_results(&cols(), &rows, Some("[08S01] link failure".to_string()));
    assert_eq!(items.len(), 3);
    assert!(items[0].is_ok());
    assert!(items[1].is_ok());
    assert!(matches!(&items[2], Err(OdbcError::Protocol(m)) if m == "[08S01] link failure"));
    let (decoded, err) = fetch_all(items);
    assert_eq!(decoded.len(), 2);
    assert!(matches!(err, Some(OdbcError::Protocol(_))));
    assert!(matches!(decoded[1].values[0].data, OdbcValueData::Int(2)));
}

#[test]
fn fetch_optional_takes_first_row_or_error() {
    let items = fetch_results(&cols(), &vec![raw("1", "hello"), raw("2", "x")], None);
    let row = fetch_optional(items).unwrap().unwrap();
    assert!(matches!(row.values[0].data, OdbcValueData::Int(1)));
    let failed = fetch_results(&cols(), &vec![], Some("boom".to_string()));
    assert!(matches!(fetch_optional(failed), Err(OdbcError::Protocol(_))));
}

#[test]
fn row_access_by_index_and_name() {
    let items = fetch_results(&cols(), &vec![vec![RawCell::Null, RawCell::Text("hi".into())]], None);
    let row = fetch_optional(items).unwrap().unwrap();
    assert_eq!(row.len(), 2);
    assert!(!row.is_empty());
    assert!(row.try_get_raw(0).unwrap().is_null());
    assert!(matches!(row.try_get_raw(2), Err(OdbcError::ColumnIndexOutOfBounds { index: 2, len: 2 })));
    let v = row.try_get_raw_by_name("greeting").unwrap();
    assert!(matches!(v.data(), OdbcValueData::Text(s) if s == "hi"));
    assert!(matches!(row.try_get_raw_by_name("nope"), Err(OdbcError::ColumnNotFound(n)) if n == "nope"));
    assert!(row.get_value(5).is_none());
    assert_eq!(row.get_column(1).unwrap().name(), "greeting");
}

#[test]
fn duplicate_names_resolve_first_in_rows_last_in_statements() {
    let c = build_columns(&vec![
        ColumnDescription { name: "a".to_string(), data_type: DataType::Integer },
        ColumnDescription { name: "a".to_string(), data_type: DataType::Integer },
    ]);
    let row = OdbcRow::new(
        c.clone(),
        vec![
            OdbcValue::new(OdbcValueData::Int(1), OdbcTypeInfo::integer()),
            OdbcValue::new(OdbcValueData::Int(2), OdbcTypeInfo::integer()),
        ],
    );
    assert_eq!(row.column_index_by_name("a").unwrap(), 0);
    let st = OdbcStatement::with_metadata("SELECT 1 a, 2 a", OdbcStatementMetadata::new(c, vec![]));
    assert_eq!(st.column_index("a").unwrap(), 1);
    assert!(st.parameters().is_none());
    assert_eq!(st.sql(), "SELECT 1 a, 2 a");
    assert_eq!(st.columns().len(), 2);
}

#[test]
fn type_info_equality_ignores_parameters() {
    assert_eq!(OdbcTypeInfo::varchar(10), OdbcTypeInfo::varchar(20));
    assert_ne!(OdbcTypeInfo::varchar(10), OdbcTypeInfo::varbinary(10));
    assert_eq!(OdbcTypeInfo::varchar(0).data_type(), DataType::Varchar { length: None });
    assert_eq!(OdbcTypeInfo::big_int().name(), "BIGINT");
    assert_eq!(data_type_name(DataType::WLongVarchar { length: None }), "WLONGVARCHAR");
    assert!(OdbcTypeInfo::null().is_null());
    assert!(!OdbcTypeInfo::real_type().is_null());
}

#[test]
fn query_results_sum() {
    let mut r = OdbcQueryResult::new(3);
    r.extend(vec![OdbcQueryResult::new(4), OdbcQueryResult::new(5)]);
    assert_eq!(r.rows_affected(), 12);
}

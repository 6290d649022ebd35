use sqlx_odbc::datetime::{format_date, format_time, format_timestamp, parse_date, parse_time, parse_timestamp};
use sqlx_odbc::decoder::{cell_value, keeps_text, RawCell};
use sqlx_odbc::type_info::DataType;
use sqlx_odbc::types::decode_string;
use sqlx_odbc::value::{Date, OdbcValueData, Time, Timestamp};

fn cell(dt: DataType, s: &str) -> OdbcValueData {
    cell_value(dt, &RawCell::Text(s.to_string()))
}

#[test]
fn bit_cells_become_booleans() {
    assert!(matches!(cell(DataType::Bit, "1"), OdbcValueData::Bool(true)));
    assert!(matches!(cell(DataType::Bit, "0"), OdbcValueData::Bool(false)));
    assert!(matches!(cell(DataType::Bit, "TRUE"), OdbcValueData::Bool(true)));
    assert!(matches!(cell(DataType::Bit, "2"), OdbcValueData::Text(ref s) if s == "2"));
}

#[test]
fn date_time_cells_become_typed_values() {
    assert!(matches!(
        cell(DataType::Date, "2024-02-29"),
        OdbcValueData::Date(Date { year: 2024, month: 2, day: 29 })
    ));
    assert!(matches!(
        cell(DataType::Time { precision: 0 }, "23:05:09"),
        OdbcValueData::Time(Time { hour: 23, minute: 5, second: 9 })
    ));
    assert!(matches!(
        cell(DataType::Timestamp { precision: 3 }, "2001-12-31 01:02:03.123"),
        OdbcValueData::Timestamp(Timestamp { year: 2001, month: 12, day: 31, hour: 1, minute: 2, second: 3, fraction: 123_000_000 })
    ));
    assert!(matches!(cell(DataType::Date, "31/12/2001"), OdbcValueData::Text(_)));
    assert!(matches!(cell(DataType::Date, &"x".repeat(3)), OdbcValueData::Text(_)));
}

#[test]
fn other_columns_keep_text() {
    assert!(matches!(cell(DataType::Real, "1.5"), OdbcValueData::Text(ref s) if s == "1.5"));
    assert!(matches!(cell(DataType::Other { data_type: -154, column_size: None, decimal_digits: 0 }, "x"), OdbcValueData::Text(_)));
    assert!(keeps_text(DataType::Unknown));
    assert!(keeps_text(DataType::Varchar { length: None }));
    assert!(!keeps_text(DataType::Bit));
    assert!(!keeps_text(DataType::Date));
}

#[test]
fn parsers_follow_the_canonical_forms() {
    assert_eq!(parse_date("0001-01-01"), Some(Date { year: 1, month: 1, day: 1 }));
    assert_eq!(parse_date("2024-1-01"), None);
    assert_eq!(parse_date("2024-01-01 "), None);
    assert_eq!(parse_time("00:00:60"), Some(Time { hour: 0, minute: 0, second: 60 }));
    assert_eq!(parse_time("0:00:00"), None);
    let ts = parse_timestamp("2020-05-06 07:08:09").unwrap();
    assert_eq!(ts.fraction, 0);
    assert_eq!(parse_timestamp("2020-05-06 07:08:09.123456789").unwrap().fraction, 123_456_789);
    assert_eq!(parse_timestamp("2020-05-06 07:08:09.").map(|t| t.fraction), None);
    assert_eq!(parse_timestamp("2020-05-06 07:08:09.1234567890"), None);
    assert_eq!(parse_timestamp("2020-05-06T07:08:09"), None);
}

#[test]
fn formatting_gives_canonical_text() {
    assert_eq!(format_date(Date { year: 7, month: 3, day: 4 }), "0007-03-04");
    assert_eq!(format_time(Time { hour: 9, minute: 0, second: 5 }), "09:00:05");
    let t = Timestamp { year: 2001, month: 12, day: 31, hour: 1, minute: 2, second: 3, fraction: 0 };
    assert_eq!(format_timestamp(t), "2001-12-31 01:02:03");
    assert_eq!(format_timestamp(Timestamp { fraction: 120_000_000, ..t }), "2001-12-31 01:02:03.120000000");
    assert_eq!(decode_string(&OdbcValueData::Date(Date { year: 2024, month: 2, day: 29 })).unwrap(), "2024-02-29");
}

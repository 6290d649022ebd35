use sqlx_odbc::error::{extract_sqlstate, ErrorKind, OdbcDatabaseError};

#[test]
fn unique_violation_code_and_kind() {
    let e = OdbcDatabaseError::new("[23505] duplicate key".to_string());
    assert_eq!(e.sqlstate(), Some("23505"));
    assert_eq!(e.kind(), ErrorKind::UniqueViolation);
    assert_eq!(e.message(), "[23505] duplicate key");
    assert!(!e.is_transient_in_connect_phase());
}

#[test]
fn timeout_is_transient_in_connect_phase() {
    let e = OdbcDatabaseError::new("[HYT00] timeout".to_string());
    assert_eq!(e.sqlstate(), Some("HYT00"));
    assert!(e.is_transient_in_connect_phase());
    assert_eq!(e.kind(), ErrorKind::Other);
}

#[test]
fn other_integrity_codes() {
    assert_eq!(OdbcDatabaseError::new("[23503] fk".into()).kind(), ErrorKind::ForeignKeyViolation);
    assert_eq!(OdbcDatabaseError::new("[23514] check".into()).kind(), ErrorKind::CheckViolation);
    assert_eq!(OdbcDatabaseError::new("[23502] null".into()).kind(), ErrorKind::NotNullViolation);
    assert_eq!(OdbcDatabaseError::new("[23000] other".into()).kind(), ErrorKind::Other);
}

#[test]
fn connection_class_and_second_timeout_code() {
    assert!(OdbcDatabaseError::new("x [08001] cannot connect".into()).is_transient_in_connect_phase());
    assert!(OdbcDatabaseError::new("[HYT01] login timeout".into()).is_transient_in_connect_phase());
    assert!(!OdbcDatabaseError::new("[42S02] no table".into()).is_transient_in_connect_phase());
    assert!(!OdbcDatabaseError::new("no code".into()).is_transient_in_connect_phase());
}

#[test]
fn extraction_edge_cases() {
    assert_eq!(extract_sqlstate("no brackets"), None);
    assert_eq!(extract_sqlstate("[2350] short"), None);
    assert_eq!(extract_sqlstate("[235055] long"), None);
    assert_eq!(extract_sqlstate("[23-05] symbol"), None);
    assert_eq!(extract_sqlstate("[23505 unterminated"), None);
    assert_eq!(extract_sqlstate("prefix [42000] rest").as_deref(), Some("42000"));
    assert_eq!(extract_sqlstate("[Microsoft][23505] dup"), None);
    let e = OdbcDatabaseError::new("plain".into());
    assert_eq!(e.sqlstate(), None);
    assert_eq!(e.code(), None);
    assert_eq!(e.kind(), ErrorKind::Other);
}

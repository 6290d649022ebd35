use sqlx_odbc::arguments::OdbcArguments;
use sqlx_odbc::options::{normalize_connection_string, OdbcBufferSettings, OdbcConnectOptions, UrlParts};
use sqlx_odbc::value::OdbcArgumentValue;

const CONN: &str = "Driver={ODBC Driver 18 for SQL Server};Server=mssql,1433;Database=master;Uid=sa;Pwd=YourStrong@Passw0rd;TrustServerCertificate=yes";

#[test]
fn connection_tests_test_connection_options_builder() {
    let options = OdbcConnectOptions::new("DSN=test").connection_string(CONN);
    assert_eq!(options.get_connection_string(), CONN);
}

#[test]
fn builders_join_pairs_with_semicolons() {
    let o = OdbcConnectOptions::new("")
        .driver("ODBC Driver 18")
        .server("localhost")
        .database("test")
        .username("sa")
        .password("pw");
    assert_eq!(
        o.get_connection_string(),
        "Driver={ODBC Driver 18};Server=localhost;Database=test;UID=sa;PWD=pw"
    );
    assert_eq!(OdbcConnectOptions::from_dsn("mine").get_connection_string(), "DSN=mine");
}

#[test]
fn settings_builders() {
    let o = OdbcConnectOptions::new("DSN=x")
        .batch_size(7)
        .max_column_size(None)
        .connect_timeout(5);
    assert_eq!(o.buffer_settings.batch_size, 7);
    assert_eq!(o.buffer_settings.max_column_size, None);
    assert_eq!(o.connect_timeout, Some(5));
    let d = OdbcConnectOptions::new("DSN=x");
    assert_eq!(d.buffer_settings.batch_size, 128);
    assert_eq!(d.buffer_settings.max_column_size, Some(4096));
    assert_eq!(d.connect_timeout, Some(30));
    assert_eq!(OdbcConnectOptions::from_dsn("x").connect_timeout, Some(30));
    let s = OdbcBufferSettings { batch_size: 1, max_column_size: Some(2) };
    assert_eq!(d.buffer_settings(s).buffer_settings.batch_size, 1);
}

#[test]
fn scheme_prefixes_are_stripped() {
    assert_eq!(normalize_connection_string("odbc://DSN=a"), "DSN=a");
    assert_eq!(normalize_connection_string("odbc:DSN=a"), "DSN=a");
    assert_eq!(normalize_connection_string("DSN=a"), "DSN=a");
    let o: OdbcConnectOptions = "odbc:DSN=b".parse().unwrap();
    assert_eq!(o.get_connection_string(), "DSN=b");
    let o: OdbcConnectOptions = "odbc://DSN=x".parse().unwrap();
    assert_eq!(o.get_connection_string(), "DSN=x");
    assert_eq!(o.connect_timeout, Some(30));
    let raw: OdbcConnectOptions = "Driver={d};odbc:".parse().unwrap();
    assert_eq!(raw.get_connection_string(), "Driver={d};odbc:");
}

#[test]
fn url_parts_map_to_connection_string() {
    let u = UrlParts {
        host: Some("MyDataSource".to_string()),
        path: "/mydb".to_string(),
        username: "user".to_string(),
        password: Some("pass".to_string()),
        query: vec![("Encrypt".to_string(), "no".to_string())],
    };
    assert_eq!(
        OdbcConnectOptions::from_url(&u).get_connection_string(),
        "DSN=MyDataSource;Database=mydb;UID=user;PWD=pass;Encrypt=no"
    );
    let d = UrlParts {
        host: Some("{SQL Driver}".to_string()),
        path: "/".to_string(),
        username: String::new(),
        password: None,
        query: vec![],
    };
    assert_eq!(OdbcConnectOptions::from_url(&d).get_connection_string(), "Driver={SQL Driver}");
}

#[test]
fn arguments_keep_placeholder_order() {
    let mut a = OdbcArguments::new();
    assert!(a.is_empty());
    a.add(OdbcArgumentValue::Int(1));
    a.add(OdbcArgumentValue::Text("x".to_string()));
    assert_eq!(a.len(), 2);
    assert!(matches!(a.values()[0], OdbcArgumentValue::Int(1)));
    let mut out = String::from("a = ");
    a.format_placeholder(&mut out);
    assert_eq!(out, "a = ?");
}

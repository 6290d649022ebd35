//! A database-connectivity core over a blocking, non-reentrant native
//! driver: typed values and their codecs, rows and columns, the error
//! classifier, the transaction state machine, and connection options.

use vstd::prelude::*;

pub mod query_result;
pub mod type_info;
pub mod text;
pub mod error;
pub mod value;
pub mod types;
pub mod column;
pub mod row;
pub mod statement;
pub mod arguments;
pub mod transaction;
pub mod datetime;
pub mod decoder;
pub mod options;
pub mod connection;

verus! {

/// The database driver: any data source reachable through the native
/// driver manager.
#[derive(Debug, Clone, Copy)]
pub struct Odbc;

impl Odbc {
    /// The driver's name.
    pub fn name() -> (r: &'static str)
        ensures
            r@ == "ODBC"@,
    {
        "ODBC"
    }

    /// The URL scheme that selects this driver.
    pub fn url_scheme() -> (r: &'static str)
        ensures
            r@ == "odbc"@,
    {
        "odbc"
    }
}

} // verus!

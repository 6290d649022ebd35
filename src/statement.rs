//! Statements: SQL text with optional metadata from a prior describe.

use vstd::prelude::*;
use crate::column::{OdbcColumn, column_names, find_last_column, last_position};
use crate::error::OdbcError;
use crate::type_info::OdbcTypeInfo;

verus! {

/// What a describe call reported about a statement: its result columns and
/// the types of its parameters.
#[derive(Debug, Clone, Default)]
pub struct OdbcStatementMetadata {
    pub columns: Vec<OdbcColumn>,
    pub parameters: Vec<OdbcTypeInfo>,
}

impl OdbcStatementMetadata {
    pub fn new(columns: Vec<OdbcColumn>, parameters: Vec<OdbcTypeInfo>) -> (r: Self)
        ensures
            r.columns == columns,
            r.parameters == parameters,
    {
        OdbcStatementMetadata { columns, parameters }
    }

    /// Metadata of a statement that has not been described.
    pub fn empty() -> (r: Self)
        ensures
            r.columns@.len() == 0,
            r.parameters@.len() == 0,
    {
        OdbcStatementMetadata { columns: Vec::new(), parameters: Vec::new() }
    }
}

/// A statement: its SQL text and its metadata, empty when it has not been
/// described.
#[derive(Debug, Clone)]
pub struct OdbcStatement {
    pub sql: String,
    pub metadata: OdbcStatementMetadata,
}

impl OdbcStatement {
    /// A statement that has not been described.
    pub fn new(sql: &str) -> (r: Self)
        ensures
            r.sql@ == sql@,
            r.metadata.columns@.len() == 0,
            r.metadata.parameters@.len() == 0,
    {
        OdbcStatement { sql: String::from_str(sql), metadata: OdbcStatementMetadata::empty() }
    }

    /// A statement with the metadata a describe call gave.
    pub fn with_metadata(sql: &str, metadata: OdbcStatementMetadata) -> (r: Self)
        ensures
            r.sql@ == sql@,
            r.metadata == metadata,
    {
        OdbcStatement { sql: String::from_str(sql), metadata }
    }

    pub fn sql(&self) -> (r: &str)
        ensures
            r@ == self.sql@,
    {
        self.sql.as_str()
    }

    /// The parameter types, or `None` when none are known.
    pub fn parameters(&self) -> (r: Option<&[OdbcTypeInfo]>)
        ensures
            match r {
                Some(p) => p@ == self.metadata.parameters@ && p@.len() > 0,
                None => self.metadata.parameters@.len() == 0,
            },
    {
        if self.metadata.parameters.len() == 0 {
            None
        } else {
            Some(self.metadata.parameters.as_slice())
        }
    }

    /// The result columns.
    pub fn columns(&self) -> (r: &[OdbcColumn])
        ensures
            r@ == self.metadata.columns@,
    {
        self.metadata.columns.as_slice()
    }

    /// The index of the column called `name`; where several columns share the
    /// name, the last of them.
    pub fn column_index(&self, name: &str) -> (r: Result<usize, OdbcError>)
        ensures
            match r {
                Ok(i) => last_position(column_names(self.metadata.columns@), name@) == Some(
                    i as int,
                ),
                Err(e) => last_position(column_names(self.metadata.columns@), name@) is None && (
                match e {
                    OdbcError::ColumnNotFound(n) => n@ == name@,
                    _ => false,
                }),
            },
    {
        match find_last_column(&self.metadata.columns, name) {
            Some(i) => Ok(i),
            None => Err(OdbcError::ColumnNotFound(String::from_str(name))),
        }
    }
}

} // verus!

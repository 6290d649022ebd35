//! Rows of a result set.

use vstd::prelude::*;
use crate::column::{OdbcColumn, column_names, find_first_column, first_position};
use crate::error::OdbcError;
use crate::value::{OdbcValue, OdbcValueRef};

verus! {

/// A row: the columns of its statement and one value per column.
#[derive(Debug, Clone)]
pub struct OdbcRow {
    pub columns: Vec<OdbcColumn>,
    pub values: Vec<OdbcValue>,
}

impl OdbcRow {
    /// Each column has exactly one value.
    pub open spec fn wf(&self) -> bool {
        self.columns@.len() == self.values@.len()
    }

    pub fn new(columns: Vec<OdbcColumn>, values: Vec<OdbcValue>) -> (r: Self)
        requires
            columns@.len() == values@.len(),
        ensures
            r.columns == columns,
            r.values == values,
            r.wf(),
    {
        OdbcRow { columns, values }
    }

    /// The number of columns.
    pub fn len(&self) -> (r: usize)
        ensures
            r == self.columns@.len(),
    {
        self.columns.len()
    }

    pub fn is_empty(&self) -> (r: bool)
        ensures
            r == (self.columns@.len() == 0),
    {
        self.columns.len() == 0
    }

    /// The value at `index`, if there is one.
    pub fn get_value(&self, index: usize) -> (r: Option<&OdbcValue>)
        ensures
            match r {
                Some(v) => index < self.values@.len() && *v == self.values@[index as int],
                None => index >= self.values@.len(),
            },
    {
        if index < self.values.len() {
            Some(&self.values[index])
        } else {
            None
        }
    }

    /// The column at `index`, if there is one.
    pub fn get_column(&self, index: usize) -> (r: Option<&OdbcColumn>)
        ensures
            match r {
                Some(c) => index < self.columns@.len() && *c == self.columns@[index as int],
                None => index >= self.columns@.len(),
            },
    {
        if index < self.columns.len() {
            Some(&self.columns[index])
        } else {
            None
        }
    }

    /// The columns of the row.
    pub fn columns(&self) -> (r: &[OdbcColumn])
        ensures
            r@ == self.columns@,
    {
        self.columns.as_slice()
    }

    /// Checks a column index against the row.
    pub fn column_index(&self, index: usize) -> (r: Result<usize, OdbcError>)
        ensures
            match r {
                Ok(i) => i == index && index < self.columns@.len(),
                Err(e) => index >= self.columns@.len() && e == (OdbcError::ColumnIndexOutOfBounds {
                    index,
                    len: self.columns@.len() as usize,
                }),
            },
    {
        if index < self.columns.len() {
            Ok(index)
        } else {
            Err(OdbcError::ColumnIndexOutOfBounds { index, len: self.columns.len() })
        }
    }

    /// The index of the first column called `name`.
    pub fn column_index_by_name(&self, name: &str) -> (r: Result<usize, OdbcError>)
        ensures
            match r {
                Ok(i) => first_position(column_names(self.columns@), name@) == Some(i as int),
                Err(e) => first_position(column_names(self.columns@), name@) is None && (match e {
                    OdbcError::ColumnNotFound(n) => n@ == name@,
                    _ => false,
                }),
            },
    {
        match find_first_column(&self.columns, name) {
            Some(i) => Ok(i),
            None => Err(OdbcError::ColumnNotFound(String::from_str(name))),
        }
    }

    /// The cell at `index`, with the type of its column.
    pub fn try_get_raw(&self, index: usize) -> (r: Result<OdbcValueRef<'_>, OdbcError>)
        requires
            self.wf(),
        ensures
            match r {
                Ok(v) => index < self.columns@.len() && v.data == &self.values@[index as int].data
                    && v.type_info == self.columns@[index as int].type_info,
                Err(e) => index >= self.columns@.len() && e == (OdbcError::ColumnIndexOutOfBounds {
                    index,
                    len: self.columns@.len() as usize,
                }),
            },
    {
        let i = match self.column_index(index) {
            Ok(i) => i,
            Err(e) => return Err(e),
        };
        Ok(OdbcValueRef::new(&self.values[i].data, self.columns[i].type_info))
    }

    /// The cell of the first column called `name`, with that column's type.
    pub fn try_get_raw_by_name(&self, name: &str) -> (r: Result<OdbcValueRef<'_>, OdbcError>)
        requires
            self.wf(),
        ensures
            match r {
                Ok(v) => exists|i: int|
                    first_position(column_names(self.columns@), name@) == Some(i) && 0 <= i
                        < self.columns@.len() && v.data == &self.values@[i].data && v.type_info
                        == self.columns@[i].type_info,
                Err(e) => first_position(column_names(self.columns@), name@) is None && e is ColumnNotFound,
            },
    {
        let i = match self.column_index_by_name(name) {
            Ok(i) => i,
            Err(e) => return Err(e),
        };
        proof {
            crate::column::lemma_first_position_bound(column_names(self.columns@), name@);
        }
        Ok(OdbcValueRef::new(&self.values[i].data, self.columns[i].type_info))
    }
}

} // verus!

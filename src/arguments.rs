//! The arguments bound to a query's `?` placeholders.

use vstd::prelude::*;
use crate::value::OdbcArgumentValue;

verus! {

/// Arguments in placeholder order.
#[derive(Debug, Clone, Default)]
pub struct OdbcArguments {
    pub values: Vec<OdbcArgumentValue>,
}

impl OdbcArguments {
    pub fn new() -> (r: Self)
        ensures
            r.values@.len() == 0,
    {
        OdbcArguments { values: Vec::new() }
    }

    /// No arguments yet, with room for `capacity` of them.
    pub fn with_capacity(capacity: usize) -> (r: Self)
        ensures
            r.values@.len() == 0,
    {
        OdbcArguments { values: Vec::with_capacity(capacity) }
    }

    /// Binds the next placeholder.
    pub fn add(&mut self, value: OdbcArgumentValue)
        ensures
            final(self).values@ == old(self).values@.push(value),
    {
        self.values.push(value);
    }

    /// Makes room for `additional` more arguments.
    pub fn reserve(&mut self, additional: usize)
        ensures
            final(self).values@ == old(self).values@,
    {
        self.values.reserve(additional);
    }

    pub fn values(&self) -> (r: &[OdbcArgumentValue])
        ensures
            r@ == self.values@,
    {
        self.values.as_slice()
    }

    pub fn len(&self) -> (r: usize)
        ensures
            r == self.values@.len(),
    {
        self.values.len()
    }

    pub fn is_empty(&self) -> (r: bool)
        ensures
            r == (self.values@.len() == 0),
    {
        self.values.len() == 0
    }

    /// Writes the placeholder for the next argument: a single `?`.
    pub fn format_placeholder(&self, out: &mut String)
        ensures
            final(out)@ == old(out)@ + "?"@,
    {
        out.append("?");
    }
}

} // verus!

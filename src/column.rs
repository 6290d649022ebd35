//! Columns of a result set.

use vstd::prelude::*;
use crate::type_info::OdbcTypeInfo;

verus! {

/// A column of a result set: its 0-based position, its name (names may
/// repeat) and its type.
#[derive(Debug, Clone)]
pub struct OdbcColumn {
    pub ordinal: usize,
    pub name: String,
    pub type_info: OdbcTypeInfo,
}

impl OdbcColumn {
    pub fn new(ordinal: usize, name: String, type_info: OdbcTypeInfo) -> (r: Self)
        ensures
            r.ordinal == ordinal,
            r.name@ == name@,
            r.type_info == type_info,
    {
        OdbcColumn { ordinal, name, type_info }
    }

    /// The 0-based position of the column.
    pub fn ordinal(&self) -> (r: usize)
        ensures
            r == self.ordinal,
    {
        self.ordinal
    }

    pub fn name(&self) -> (r: &str)
        ensures
            r@ == self.name@,
    {
        self.name.as_str()
    }

    pub fn type_info(&self) -> (r: &OdbcTypeInfo)
        ensures
            *r == self.type_info,
    {
        &self.type_info
    }

    /// A copy of this column.
    pub fn copy(&self) -> (r: Self)
        ensures
            r.ordinal == self.ordinal,
            r.name@ == self.name@,
            r.type_info == self.type_info,
    {
        OdbcColumn {
            ordinal: self.ordinal,
            name: String::from_str(self.name.as_str()),
            type_info: self.type_info,
        }
    }
}

/// The column names of a column list.
pub open spec fn column_names(cols: Seq<OdbcColumn>) -> Seq<Seq<char>> {
    cols.map_values(|c: OdbcColumn| c.name@)
}

/// Position of the first name equal to `name`.
pub open spec fn first_position(names: Seq<Seq<char>>, name: Seq<char>) -> Option<int>
    decreases names.len(),
{
    if names.len() == 0 {
        None
    } else if names[0] == name {
        Some(0)
    } else {
        match first_position(names.drop_first(), name) {
            Some(i) => Some(i + 1),
            None => None,
        }
    }
}

/// Position of the last name equal to `name`.
pub open spec fn last_position(names: Seq<Seq<char>>, name: Seq<char>) -> Option<int>
    decreases names.len(),
{
    if names.len() == 0 {
        None
    } else if names.last() == name {
        Some(names.len() - 1)
    } else {
        last_position(names.drop_last(), name)
    }
}

pub proof fn lemma_first_position_bound(names: Seq<Seq<char>>, name: Seq<char>)
    ensures
        first_position(names, name) is Some ==> 0 <= first_position(names, name)->0
            < names.len(),
    decreases names.len(),
{
    if names.len() > 0 && names[0] != name {
        lemma_first_position_bound(names.drop_first(), name);
    }
}

proof fn lemma_first_position_at(names: Seq<Seq<char>>, name: Seq<char>, i: int)
    requires
        0 <= i < names.len(),
        names[i] == name,
        forall|j: int| 0 <= j < i ==> names[j] != name,
    ensures
        first_position(names, name) == Some(i),
    decreases names.len(),
{
    if i > 0 {
        assert forall|j: int| 0 <= j < i - 1 implies names.drop_first()[j] != name by {
            assert(names.drop_first()[j] == names[j + 1]);
        }
        lemma_first_position_at(names.drop_first(), name, i - 1);
    }
}

proof fn lemma_first_position_none(names: Seq<Seq<char>>, name: Seq<char>)
    requires
        forall|j: int| 0 <= j < names.len() ==> names[j] != name,
    ensures
        first_position(names, name) is None,
    decreases names.len(),
{
    if names.len() > 0 {
        assert forall|j: int| 0 <= j < names.len() - 1 implies names.drop_first()[j] != name by {
            assert(names.drop_first()[j] == names[j + 1]);
        }
        lemma_first_position_none(names.drop_first(), name);
    }
}

proof fn lemma_last_position_at(names: Seq<Seq<char>>, name: Seq<char>, i: int)
    requires
        0 <= i < names.len(),
        names[i] == name,
        forall|j: int| i < j < names.len() ==> names[j] != name,
    ensures
        last_position(names, name) == Some(i),
    decreases names.len(),
{
    if i < names.len() - 1 {
        assert forall|j: int| i < j < names.len() - 1 implies names.drop_last()[j] != name by {
            assert(names.drop_last()[j] == names[j]);
        }
        lemma_last_position_at(names.drop_last(), name, i);
    }
}

proof fn lemma_last_position_none(names: Seq<Seq<char>>, name: Seq<char>)
    requires
        forall|j: int| 0 <= j < names.len() ==> names[j] != name,
    ensures
        last_position(names, name) is None,
    decreases names.len(),
{
    if names.len() > 0 {
        lemma_last_position_none(names.drop_last(), name);
    }
}

/// The position of the first column called `name`.
pub fn find_first_column(cols: &Vec<OdbcColumn>, name: &str) -> (r: Option<usize>)
    ensures
        match r {
            Some(i) => first_position(column_names(cols@), name@) == Some(i as int),
            None => first_position(column_names(cols@), name@) is None,
        },
{
    let ghost names = column_names(cols@);
    let mut i: usize = 0;
    while i < cols.len()
        invariant
            i <= cols@.len(),
            names == column_names(cols@),
            forall|j: int| 0 <= j < i ==> names[j] != name@,
        decreases cols@.len() - i,
    {
        if crate::text::same_text(cols[i].name.as_str(), name) {
            proof {
                lemma_first_position_at(names, name@, i as int);
            }
            return Some(i);
        }
        i = i + 1;
    }
    proof {
        lemma_first_position_none(names, name@);
    }
    None
}

/// The position of the last column called `name`.
pub fn find_last_column(cols: &Vec<OdbcColumn>, name: &str) -> (r: Option<usize>)
    ensures
        match r {
            Some(i) => last_position(column_names(cols@), name@) == Some(i as int),
            None => last_position(column_names(cols@), name@) is None,
        },
{
    let ghost names = column_names(cols@);
    let mut i: usize = cols.len();
    while i > 0
        invariant
            i <= cols@.len(),
            names == column_names(cols@),
            forall|j: int| i <= j < cols@.len() ==> names[j] != name@,
        decreases i,
    {
        if crate::text::same_text(cols[i - 1].name.as_str(), name) {
            proof {
                lemma_last_position_at(names, name@, i - 1);
            }
            return Some(i - 1);
        }
        i = i - 1;
    }
    proof {
        lemma_last_position_none(names, name@);
    }
    None
}

} // verus!

//! The outcome of a statement that returns no rows.

use vstd::prelude::*;

verus! {

/// Number of rows a statement changed.
#[derive(Debug, Clone, Default)]
pub struct OdbcQueryResult {
    pub rows_affected: u64,
}

/// Sum of the counters of a sequence of results.
pub open spec fn total_rows(results: Seq<OdbcQueryResult>) -> int
    decreases results.len(),
{
    if results.len() == 0 {
        0
    } else {
        total_rows(results.drop_last()) + results.last().rows_affected as int
    }
}

impl OdbcQueryResult {
    /// A result that reports `rows_affected` changed rows.
    pub fn new(rows_affected: u64) -> (r: Self)
        ensures
            r.rows_affected == rows_affected,
    {
        OdbcQueryResult { rows_affected }
    }

    /// The number of rows the statement changed.
    pub fn rows_affected(&self) -> (r: u64)
        ensures
            r == self.rows_affected,
    {
        self.rows_affected
    }

    /// Merges further results into this one by adding their counters.
    pub fn extend(&mut self, results: Vec<OdbcQueryResult>)
        requires
            old(self).rows_affected + total_rows(results@) <= u64::MAX,
        ensures
            final(self).rows_affected == old(self).rows_affected + total_rows(results@),
    {
        let ghost start = self.rows_affected as int;
        let mut i: usize = 0;
        while i < results.len()
            invariant
                0 <= i <= results@.len(),
                start + total_rows(results@) <= u64::MAX,
                self.rows_affected == start + total_rows(results@.subrange(0, i as int)),
            decreases results@.len() - i,
        {
            proof {
                lemma_total_rows_prefix(results@, i as int);
                lemma_total_rows_monotone(results@, i as int + 1);
            }
            self.rows_affected = self.rows_affected + results[i].rows_affected;
            i = i + 1;
        }
        assert(results@.subrange(0, i as int) =~= results@);
    }
}

proof fn lemma_total_rows_prefix(s: Seq<OdbcQueryResult>, i: int)
    requires
        0 <= i < s.len(),
    ensures
        total_rows(s.subrange(0, i + 1)) == total_rows(s.subrange(0, i)) + s[i].rows_affected,
{
    assert(s.subrange(0, i + 1).drop_last() =~= s.subrange(0, i));
}

proof fn lemma_total_rows_monotone(s: Seq<OdbcQueryResult>, i: int)
    requires
        0 <= i <= s.len(),
    ensures
        total_rows(s.subrange(0, i)) <= total_rows(s),
    decreases s.len(),
{
    if i < s.len() {
        assert(s.drop_last() =~= s.subrange(0, s.len() - 1));
        assert(s.subrange(0, i) =~= s.drop_last().subrange(0, i));
        lemma_total_rows_monotone(s.drop_last(), i);
    } else {
        assert(s.subrange(0, i) =~= s);
    }
}

} // verus!

//! Nested transactions counted over a native autocommit toggle.
//!
//! The native protocol has one transaction level. `begin` turns autocommit
//! off when no transaction is open and counts one level up; `commit` and
//! `rollback` issue the native call and count one level down, turning
//! autocommit back on when the count reaches zero. A rollback at an inner
//! level therefore undoes the whole native transaction, outer work included.
//!
//! The state machine decides; the caller performs the native operations it
//! lists, in order, and reports whether they all succeeded.

use vstd::prelude::*;

verus! {

/// One native call on the connection.
#[derive(Debug, Clone, Copy, PartialEq, Eq)]
pub enum NativeOp {
    SetAutocommit(bool),
    Commit,
    Rollback,
}

/// A transaction request of the caller.
#[derive(Debug, Clone, Copy, PartialEq, Eq)]
pub enum TxRequest {
    Begin,
    Commit,
    Rollback,
}

/// The transaction state of one connection.
#[derive(Debug, Clone, Copy, PartialEq, Eq)]
pub struct OdbcTransactionManager {
    /// Open logical transactions.
    pub depth: usize,
    /// Set when an enclosing scope asked for a rollback that has not run yet.
    pub needs_rollback: bool,
    /// Whether the native connection is in autocommit mode.
    pub autocommit: bool,
}

impl OdbcTransactionManager {
    /// Autocommit is on exactly when no transaction is open.
    pub open spec fn wf(self) -> bool {
        self.autocommit == (self.depth == 0)
    }

    /// The native calls a request needs in this state.
    pub open spec fn ops_for(self, req: TxRequest) -> Seq<NativeOp> {
        match req {
            TxRequest::Begin => if self.depth == 0 {
                seq![NativeOp::SetAutocommit(false)]
            } else {
                seq![]
            },
            TxRequest::Commit => if self.depth == 0 {
                seq![]
            } else if self.depth == 1 {
                seq![NativeOp::Commit, NativeOp::SetAutocommit(true)]
            } else {
                seq![NativeOp::Commit]
            },
            TxRequest::Rollback => if self.depth == 0 {
                seq![]
            } else if self.depth == 1 {
                seq![NativeOp::Rollback, NativeOp::SetAutocommit(true)]
            } else {
                seq![NativeOp::Rollback]
            },
        }
    }

    /// The state after a request whose native calls all succeeded.
    pub open spec fn after(self, req: TxRequest) -> OdbcTransactionManager {
        match req {
            TxRequest::Begin => OdbcTransactionManager {
                depth: (self.depth + 1) as usize,
                needs_rollback: self.needs_rollback,
                autocommit: false,
            },
            TxRequest::Commit => if self.depth == 0 {
                self
            } else {
                OdbcTransactionManager {
                    depth: (self.depth - 1) as usize,
                    needs_rollback: self.needs_rollback,
                    autocommit: self.depth == 1,
                }
            },
            TxRequest::Rollback => if self.depth == 0 {
                self
            } else {
                OdbcTransactionManager {
                    depth: (self.depth - 1) as usize,
                    needs_rollback: false,
                    autocommit: self.depth == 1,
                }
            },
        }
    }

    /// No transaction open, autocommit on.
    pub fn new() -> (r: Self)
        ensures
            r.depth == 0,
            r.autocommit,
            !r.needs_rollback,
            r.wf(),
    {
        OdbcTransactionManager { depth: 0, needs_rollback: false, autocommit: true }
    }

    /// The native calls to perform, in order, for `req`.
    pub fn plan(&self, req: TxRequest) -> (r: Vec<NativeOp>)
        ensures
            r@ == self.ops_for(req),
    {
        let mut ops: Vec<NativeOp> = Vec::new();
        match req {
            TxRequest::Begin => {
                if self.depth == 0 {
                    ops.push(NativeOp::SetAutocommit(false));
                }
            },
            TxRequest::Commit => {
                if self.depth > 0 {
                    ops.push(NativeOp::Commit);
                    if self.depth == 1 {
                        ops.push(NativeOp::SetAutocommit(true));
                    }
                }
            },
            TxRequest::Rollback => {
                if self.depth > 0 {
                    ops.push(NativeOp::Rollback);
                    if self.depth == 1 {
                        ops.push(NativeOp::SetAutocommit(true));
                    }
                }
            },
        }
        assert(ops@ =~= self.ops_for(req));
        ops
    }

    /// Records the outcome of the native calls planned for `req`. On
    /// success the state advances; on failure it stays as it was.
    pub fn complete(&mut self, req: TxRequest, succeeded: bool)
        requires
            req == TxRequest::Begin ==> old(self).depth < usize::MAX,
        ensures
            succeeded ==> *final(self) == old(self).after(req),
            !succeeded ==> *final(self) == *old(self),
            old(self).wf() ==> final(self).wf(),
    {
        if !succeeded {
            return;
        }
        match req {
            TxRequest::Begin => {
                self.depth = self.depth + 1;
                self.autocommit = false;
            },
            TxRequest::Commit => {
                if self.depth > 0 {
                    self.depth = self.depth - 1;
                    self.autocommit = self.depth == 0;
                }
            },
            TxRequest::Rollback => {
                if self.depth > 0 {
                    self.depth = self.depth - 1;
                    self.autocommit = self.depth == 0;
                    self.needs_rollback = false;
                }
            },
        }
    }

    /// Marks the transaction for a rollback that the next `rollback` request
    /// performs; no native call is made.
    pub fn start_rollback(&mut self)
        ensures
            final(self).needs_rollback,
            final(self).depth == old(self).depth,
            final(self).autocommit == old(self).autocommit,
    {
        self.needs_rollback = true;
    }

    /// The number of open logical transactions.
    pub fn get_transaction_depth(&self) -> (r: usize)
        ensures
            r == self.depth,
    {
        self.depth
    }

    pub fn needs_rollback(&self) -> (r: bool)
        ensures
            r == self.needs_rollback,
    {
        self.needs_rollback
    }

    pub fn autocommit(&self) -> (r: bool)
        ensures
            r == self.autocommit,
    {
        self.autocommit
    }
}

/// From a well-formed idle state, `begin` then `commit` turns autocommit off
/// and then back on, and leaves no transaction open.
pub proof fn lemma_begin_commit_restores_idle(s: OdbcTransactionManager)
    requires
        s.wf(),
        s.depth == 0,
    ensures
        s.ops_for(TxRequest::Begin) == seq![NativeOp::SetAutocommit(false)],
        s.after(TxRequest::Begin).ops_for(TxRequest::Commit) == seq![
            NativeOp::Commit,
            NativeOp::SetAutocommit(true),
        ],
        s.after(TxRequest::Begin).after(TxRequest::Commit).depth == 0,
        s.after(TxRequest::Begin).after(TxRequest::Commit).autocommit,
        s.after(TxRequest::Begin).after(TxRequest::Commit).wf(),
{
}

/// From a well-formed idle state, `begin; begin; commit; commit` leaves one
/// transaction open with autocommit off after the first commit, and returns
/// to idle with autocommit on only after the second.
pub proof fn lemma_nested_begin_commit(s: OdbcTransactionManager)
    requires
        s.wf(),
        s.depth == 0,
    ensures
        ({
            let s1 = s.after(TxRequest::Begin);
            let s2 = s1.after(TxRequest::Begin);
            let s3 = s2.after(TxRequest::Commit);
            let s4 = s3.after(TxRequest::Commit);
            &&& s1.depth == 1 && !s1.autocommit
            &&& s2.depth == 2 && !s2.autocommit
            &&& s3.depth == 1 && !s3.autocommit
            &&& s4.depth == 0 && s4.autocommit
            &&& s1.ops_for(TxRequest::Begin) == Seq::<NativeOp>::empty()
            &&& s2.ops_for(TxRequest::Commit) == seq![NativeOp::Commit]
        }),
{
}

/// Every request keeps autocommit on exactly when no transaction is open, and
/// moves the depth by at most one.
pub proof fn lemma_requests_keep_invariant(s: OdbcTransactionManager, req: TxRequest)
    requires
        s.wf(),
        req == TxRequest::Begin ==> s.depth < usize::MAX,
    ensures
        s.after(req).wf(),
        req == TxRequest::Begin ==> s.after(req).depth == s.depth + 1,
        req != TxRequest::Begin && s.depth > 0 ==> s.after(req).depth == s.depth - 1,
        req != TxRequest::Begin && s.depth == 0 ==> s.after(req) == s && s.ops_for(req).len() == 0,
{
}

} // verus!

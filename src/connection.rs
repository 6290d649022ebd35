//! What a connection decides around each blocking native call.
//!
//! Every native call runs on a worker thread under the connection's lock;
//! the caller reports how the call ended. A native failure is recoverable
//! and surfaces as a protocol error with the native message; a worker that
//! died leaves the connection unusable for good.

use vstd::prelude::*;
use crate::error::OdbcError;
use crate::options::OdbcConnectOptions;
use crate::query_result::OdbcQueryResult;
use crate::transaction::{OdbcTransactionManager, TxRequest, NativeOp};

verus! {

/// How a dispatched blocking call ended.
#[derive(Debug, Clone)]
pub enum CallOutcome {
    /// The native call returned successfully.
    Completed,
    /// The native call failed with this message.
    Failed(String),
    /// The worker running the call panicked or was lost.
    WorkerCrashed,
}

/// The error a call outcome surfaces as, if any.
pub open spec fn outcome_error(outcome: CallOutcome) -> Option<OdbcError> {
    match outcome {
        CallOutcome::Completed => None,
        CallOutcome::Failed(m) => Some(OdbcError::Protocol(m)),
        CallOutcome::WorkerCrashed => Some(OdbcError::WorkerCrashed),
    }
}

/// The SQL text of a liveness check.
pub fn ping_sql() -> (r: &'static str)
    ensures
        r@ == "SELECT 1"@,
{
    "SELECT 1"
}

/// The result of a connection attempt: a refused connection string or a
/// failed connect is a configuration error carrying the native message.
pub fn connect_result(outcome: CallOutcome) -> (r: Result<(), OdbcError>)
    ensures
        match outcome {
            CallOutcome::Completed => r is Ok,
            CallOutcome::Failed(m) => r == Err::<(), OdbcError>(OdbcError::Configuration(m)),
            CallOutcome::WorkerCrashed => r == Err::<(), OdbcError>(OdbcError::WorkerCrashed),
        },
{
    match outcome {
        CallOutcome::Completed => Ok(()),
        CallOutcome::Failed(m) => Err(OdbcError::Configuration(m)),
        CallOutcome::WorkerCrashed => Err(OdbcError::WorkerCrashed),
    }
}

/// The state a connection keeps beside its native handle.
#[derive(Debug, Clone)]
pub struct ConnectionState {
    pub options: OdbcConnectOptions,
    pub transactions: OdbcTransactionManager,
    /// False once a worker died during a call on this connection.
    pub usable: bool,
}

impl ConnectionState {
    pub open spec fn wf(&self) -> bool {
        self.transactions.wf()
    }

    /// The state of a freshly established connection.
    pub fn new(options: OdbcConnectOptions) -> (r: Self)
        ensures
            r.options == options,
            r.transactions.depth == 0,
            r.transactions.autocommit,
            r.usable,
            r.wf(),
    {
        ConnectionState { options, transactions: OdbcTransactionManager::new(), usable: true }
    }

    /// The options the connection was made with.
    pub fn options(&self) -> (r: &OdbcConnectOptions)
        ensures
            *r == self.options,
    {
        &self.options
    }

    /// Whether a call may be dispatched: not once a worker has died.
    pub fn ensure_usable(&self) -> (r: Result<(), OdbcError>)
        ensures
            self.usable ==> r is Ok,
            !self.usable ==> r == Err::<(), OdbcError>(OdbcError::WorkerCrashed),
    {
        if self.usable {
            Ok(())
        } else {
            Err(OdbcError::WorkerCrashed)
        }
    }

    /// Records how a call ended and gives its result.
    pub fn finish_call(&mut self, outcome: CallOutcome) -> (r: Result<(), OdbcError>)
        ensures
            match outcome_error(outcome) {
                None => r is Ok,
                Some(e) => r == Err::<(), OdbcError>(e),
            },
            final(self).usable == (old(self).usable && !(outcome is WorkerCrashed)),
            final(self).transactions == old(self).transactions,
            final(self).options == old(self).options,
    {
        match outcome {
            CallOutcome::Completed => Ok(()),
            CallOutcome::Failed(m) => Err(OdbcError::Protocol(m)),
            CallOutcome::WorkerCrashed => {
                self.usable = false;
                Err(OdbcError::WorkerCrashed)
            },
        }
    }

    /// The result of a raw statement: the number of rows it changed, as the
    /// driver reported it, or zero where the driver reports no count (a
    /// statement that returns rows).
    pub fn finish_execute(&mut self, outcome: CallOutcome, row_count: Option<u64>) -> (r: Result<
        OdbcQueryResult,
        OdbcError,
    >)
        ensures
            match outcome_error(outcome) {
                None => r matches Ok(q) && q.rows_affected == match row_count {
                    Some(n) => n,
                    None => 0,
                },
                Some(e) => r == Err::<OdbcQueryResult, OdbcError>(e),
            },
            final(self).usable == (old(self).usable && !(outcome is WorkerCrashed)),
            final(self).transactions == old(self).transactions,
            final(self).options == old(self).options,
    {
        match self.finish_call(outcome) {
            Ok(()) => Ok(
                OdbcQueryResult::new(
                    match row_count {
                        Some(n) => n,
                        None => 0,
                    },
                ),
            ),
            Err(e) => Err(e),
        }
    }

    /// The native calls a transaction request needs now.
    pub fn plan_transaction(&self, req: TxRequest) -> (r: Vec<NativeOp>)
        ensures
            r@ == self.transactions.ops_for(req),
    {
        self.transactions.plan(req)
    }

    /// Records how the native calls of a transaction request ended: the
    /// depth moves only when they all succeeded.
    pub fn finish_transaction(&mut self, req: TxRequest, outcome: CallOutcome) -> (r: Result<
        (),
        OdbcError,
    >)
        requires
            req == TxRequest::Begin ==> old(self).transactions.depth < usize::MAX,
        ensures
            match outcome_error(outcome) {
                None => r is Ok && final(self).transactions == old(self).transactions.after(req),
                Some(e) => r == Err::<(), OdbcError>(e)
                    && final(self).transactions == old(self).transactions,
            },
            final(self).usable == (old(self).usable && !(outcome is WorkerCrashed)),
            final(self).options == old(self).options,
            old(self).wf() ==> final(self).wf(),
    {
        let succeeded = matches!(outcome, CallOutcome::Completed);
        self.transactions.complete(req, succeeded);
        self.finish_call(outcome)
    }
}

/// Counts the native calls made on one connection and refuses a call while
/// another is in flight. The worker updates it while it holds the
/// connection's lock, so it witnesses that calls never overlap.
#[derive(Debug, Clone, Copy, PartialEq, Eq)]
pub struct CallLedger {
    /// Calls that have started.
    pub started: u64,
    /// Calls that have returned.
    pub finished: u64,
}

impl CallLedger {
    /// At most one call is in flight.
    pub open spec fn wf(self) -> bool {
        self.finished <= self.started && self.started <= self.finished + 1
    }

    pub open spec fn in_flight(self) -> bool {
        self.started > self.finished
    }

    /// The ledger after `n` more calls that each started and returned before
    /// the next one started.
    pub open spec fn after_calls(self, n: nat) -> CallLedger
        decreases n,
    {
        if n == 0 {
            self
        } else {
            let p = self.after_calls((n - 1) as nat);
            CallLedger { started: (p.started + 1) as u64, finished: (p.finished + 1) as u64 }
        }
    }

    /// No call made yet.
    pub fn new() -> (r: Self)
        ensures
            r.started == 0,
            r.finished == 0,
            r.wf(),
    {
        CallLedger { started: 0, finished: 0 }
    }

    /// Records that a native call starts. Refused while another call is in
    /// flight, and once the counter is exhausted.
    pub fn begin_call(&mut self) -> (r: Result<(), OdbcError>)
        requires
            old(self).wf(),
        ensures
            final(self).wf(),
            old(self).in_flight() ==> r is Err && *final(self) == *old(self),
            !old(self).in_flight() && old(self).started < u64::MAX ==> r is Ok
                && final(self).started == old(self).started + 1
                && final(self).finished == old(self).finished,
            !old(self).in_flight() && old(self).started == u64::MAX ==> r is Err
                && *final(self) == *old(self),
            r is Err ==> r matches Err(OdbcError::Protocol(_)),
    {
        if self.started > self.finished {
            return Err(OdbcError::Protocol(String::from_str("native call made while another is in flight")));
        }
        if self.started == u64::MAX {
            return Err(OdbcError::Protocol(String::from_str("native call counter exhausted")));
        }
        self.started = self.started + 1;
        Ok(())
    }

    /// Records that the call in flight returned.
    pub fn end_call(&mut self)
        requires
            old(self).wf(),
            old(self).in_flight(),
        ensures
            final(self).wf(),
            !final(self).in_flight(),
            final(self).started == old(self).started,
            final(self).finished == old(self).finished + 1,
    {
        self.finished = self.finished + 1;
    }

    /// The number of native calls that have returned.
    pub fn calls(&self) -> (r: u64)
        ensures
            r == self.finished,
    {
        self.finished
    }

    pub fn is_in_flight(&self) -> (r: bool)
        ensures
            r == self.in_flight(),
    {
        self.started > self.finished
    }
}

/// Starting from a ledger with no call in flight, `n` calls that each begin
/// and end before the next begins are each counted exactly once, and leave
/// no call in flight.
pub proof fn lemma_sequential_calls_counted(l: CallLedger, n: nat)
    requires
        l.wf(),
        !l.in_flight(),
        l.started + n <= u64::MAX,
    ensures
        l.after_calls(n).started == l.started + n,
        l.after_calls(n).finished == l.finished + n,
        l.after_calls(n).wf(),
        !l.after_calls(n).in_flight(),
    decreases n,
{
    if n > 0 {
        lemma_sequential_calls_counted(l, (n - 1) as nat);
    }
}

/// A well-formed ledger has at most one call in flight: then exactly one
/// call has started and not returned.
pub proof fn lemma_at_most_one_in_flight(l: CallLedger)
    requires
        l.wf(),
    ensures
        l.in_flight() <==> l.started == l.finished + 1,
        !l.in_flight() <==> l.started == l.finished,
{
}

/// Where one caller of the connection stands.
pub enum CallerPhase {
    /// Waiting for the connection's lock.
    Waiting,
    /// Holding the lock, its native call in flight.
    Running,
    /// Its native call has returned.
    Done,
}

/// Callers sharing one connection, each making one native call, and the
/// ledger of those calls. A caller may start only when no call is in flight:
/// that is the exclusion the connection's lock provides.
pub struct Callers {
    pub ledger: CallLedger,
    pub phases: Seq<CallerPhase>,
}

/// The number of callers in phase `p`.
pub open spec fn count_phase(phases: Seq<CallerPhase>, p: CallerPhase) -> nat
    decreases phases.len(),
{
    if phases.len() == 0 {
        0
    } else {
        count_phase(phases.drop_last(), p) + if phases.last() == p { 1nat } else { 0nat }
    }
}

impl Callers {
    /// Caller `i` takes its next step, if it can: a waiting caller starts its
    /// call when none is in flight; a running caller's call returns.
    pub open spec fn step(self, i: int) -> Callers {
        if 0 <= i < self.phases.len() {
            match self.phases[i] {
                CallerPhase::Waiting => if !self.ledger.in_flight() && self.ledger.started < u64::MAX {
                    Callers {
                        ledger: CallLedger { started: (self.ledger.started + 1) as u64, ..self.ledger },
                        phases: self.phases.update(i, CallerPhase::Running),
                    }
                } else {
                    self
                },
                CallerPhase::Running => Callers {
                    ledger: CallLedger { finished: (self.ledger.finished + 1) as u64, ..self.ledger },
                    phases: self.phases.update(i, CallerPhase::Done),
                },
                CallerPhase::Done => self,
            }
        } else {
            self
        }
    }

    /// The callers after the steps of a schedule, taken in order.
    pub open spec fn run(self, schedule: Seq<int>) -> Callers
        decreases schedule.len(),
    {
        if schedule.len() == 0 {
            self
        } else {
            self.run(schedule.drop_last()).step(schedule.last())
        }
    }

    /// What holds in every state, counted from a ledger `base`: at most one
    /// call is in flight, it is the running caller's, every caller that
    /// started made exactly one native call, and every finished caller's
    /// call has returned.
    pub open spec fn consistent(self, base: CallLedger) -> bool {
        &&& self.ledger.wf()
        &&& count_phase(self.phases, CallerPhase::Running) == self.ledger.started - self.ledger.finished
        &&& self.ledger.started - base.started == count_phase(self.phases, CallerPhase::Running)
            + count_phase(self.phases, CallerPhase::Done)
        &&& self.ledger.finished - base.finished == count_phase(self.phases, CallerPhase::Done)
    }
}

proof fn lemma_count_update(phases: Seq<CallerPhase>, i: int, q: CallerPhase, p: CallerPhase)
    requires
        0 <= i < phases.len(),
    ensures
        count_phase(phases.update(i, q), p) + (if phases[i] == p { 1int } else { 0int })
            == count_phase(phases, p) + (if q == p { 1int } else { 0int }),
    decreases phases.len(),
{
    let u = phases.update(i, q);
    if i < phases.len() - 1 {
        assert(u.drop_last() =~= phases.drop_last().update(i, q));
        lemma_count_update(phases.drop_last(), i, q, p);
    } else {
        assert(u.drop_last() =~= phases.drop_last());
    }
}

proof fn lemma_step_consistent(c: Callers, base: CallLedger, i: int)
    requires
        c.consistent(base),
    ensures
        c.step(i).consistent(base),
{
    if 0 <= i < c.phases.len() {
        let ph = c.phases[i];
        match ph {
            CallerPhase::Waiting => {
                if !c.ledger.in_flight() && c.ledger.started < u64::MAX {
                    lemma_count_update(c.phases, i, CallerPhase::Running, CallerPhase::Running);
                    lemma_count_update(c.phases, i, CallerPhase::Running, CallerPhase::Done);
                }
            },
            CallerPhase::Running => {
                lemma_count_update(c.phases, i, CallerPhase::Done, CallerPhase::Running);
                lemma_count_update(c.phases, i, CallerPhase::Done, CallerPhase::Done);
            },
            CallerPhase::Done => {},
        }
    }
}

/// Callers that share one connection, in any interleaving of their steps,
/// never have two native calls in flight, and the ledger counts exactly one
/// native call for each caller that started: once all `n` callers are done,
/// exactly `n` native calls were made.
pub proof fn lemma_shared_connection_calls(c: Callers, schedule: Seq<int>)
    requires
        c.ledger.started == 0,
        c.ledger.finished == 0,
        forall|k: int| 0 <= k < c.phases.len() ==> c.phases[k] == CallerPhase::Waiting,
    ensures
        c.run(schedule).consistent(c.ledger),
        count_phase(c.run(schedule).phases, CallerPhase::Running) <= 1,
        c.run(schedule).phases.len() == c.phases.len(),
        count_phase(c.run(schedule).phases, CallerPhase::Done) == c.phases.len() ==> c.run(
            schedule,
        ).ledger.finished == c.phases.len() && c.run(schedule).ledger.started == c.phases.len(),
    decreases schedule.len(),
{
    lemma_count_all_waiting(c.phases);
    lemma_run_consistent(c, c.ledger, schedule);
    lemma_run_len(c, schedule);
    lemma_count_bound(c.run(schedule).phases);
}

proof fn lemma_count_all_waiting(phases: Seq<CallerPhase>)
    requires
        forall|k: int| 0 <= k < phases.len() ==> phases[k] == CallerPhase::Waiting,
    ensures
        count_phase(phases, CallerPhase::Running) == 0,
        count_phase(phases, CallerPhase::Done) == 0,
    decreases phases.len(),
{
    if phases.len() > 0 {
        lemma_count_all_waiting(phases.drop_last());
    }
}

proof fn lemma_count_bound(phases: Seq<CallerPhase>)
    ensures
        count_phase(phases, CallerPhase::Running) + count_phase(phases, CallerPhase::Done)
            <= phases.len(),
        count_phase(phases, CallerPhase::Done) == phases.len() ==> count_phase(
            phases,
            CallerPhase::Running,
        ) == 0,
    decreases phases.len(),
{
    if phases.len() > 0 {
        lemma_count_bound(phases.drop_last());
    }
}

proof fn lemma_run_consistent(c: Callers, base: CallLedger, schedule: Seq<int>)
    requires
        c.consistent(base),
    ensures
        c.run(schedule).consistent(base),
    decreases schedule.len(),
{
    if schedule.len() > 0 {
        lemma_run_consistent(c, base, schedule.drop_last());
        lemma_step_consistent(c.run(schedule.drop_last()), base, schedule.last());
    }
}

proof fn lemma_run_len(c: Callers, schedule: Seq<int>)
    ensures
        c.run(schedule).phases.len() == c.phases.len(),
    decreases schedule.len(),
{
    if schedule.len() > 0 {
        lemma_run_len(c, schedule.drop_last());
    }
}

} // verus!

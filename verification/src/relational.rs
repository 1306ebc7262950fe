//! The decision core of the relational engine. The engine's I/O — building
//! a pool, probing the schema, running queries — happens outside the
//! library; what is decided from each outcome is stated and proved here:
//! pool construction retries forever and never aborts, schema preparation
//! applies exactly the pending steps in order, and the affected-row count
//! of an update separates "updated" from "no matching row".

use vstd::prelude::*;

verus! {

/// The fixed backoff between pool-construction attempts, in seconds.
pub const RETRY_BACKOFF_SECS: u64 = 5;

/// What the pool-construction loop does after one build attempt.
#[derive(Debug, PartialEq, Eq, Structural)]
pub enum PoolAction {
    /// Use the pool that was built; announce a restored connection when
    /// an earlier attempt had failed.
    UsePool { announce_restored: bool },
    /// Wait the given backoff and try again. Construction never gives up:
    /// this is the only unbounded-retry path in the service.
    RetryAfterSecs(u64),
}

/// The state of the pool-construction loop: whether every attempt so far
/// was the first.
pub struct PoolBuilder {
    first_attempt: bool,
}

impl PoolBuilder {
    pub closed spec fn is_first_attempt(&self) -> bool {
        self.first_attempt
    }

    pub fn new() -> (b: PoolBuilder)
        ensures
            b.is_first_attempt(),
    {
        PoolBuilder { first_attempt: true }
    }

    /// Decide after one build attempt. A failure always schedules another
    /// attempt after the fixed backoff — never an abort — and a success
    /// uses the pool, announcing recovery when any earlier attempt failed.
    pub fn on_attempt(&mut self, succeeded: bool) -> (a: PoolAction)
        ensures
            succeeded ==> a == (PoolAction::UsePool {
                announce_restored: !old(self).is_first_attempt(),
            }),
            !succeeded ==> (a == PoolAction::RetryAfterSecs(RETRY_BACKOFF_SECS)
                && !(final(self).is_first_attempt())),
    {
        if succeeded {
            PoolAction::UsePool { announce_restored: !self.first_attempt }
        } else {
            self.first_attempt = false;
            PoolAction::RetryAfterSecs(RETRY_BACKOFF_SECS)
        }
    }
}

/// The plan schema preparation decides on, from what the probe saw.
#[derive(Debug)]
pub enum MigrationPlan {
    /// The schema is not initialized: run the full migration set.
    RunAll,
    /// Initialized and nothing pending: touch nothing.
    NoOp,
    /// Apply exactly the pending versions, in their order.
    Apply(Vec<String>),
}

/// Decide what to run, given whether the expected table was found and
/// which migration versions the history says are not yet applied. Safe to
/// call any number of times: once nothing is pending, the plan is `NoOp`.
pub fn migration_plan(initialized: bool, pending: Vec<String>) -> (p: MigrationPlan)
    ensures
        !initialized ==> p is RunAll,
        initialized && pending@.len() == 0 ==> p is NoOp,
        initialized && pending@.len() > 0 ==> (p matches MigrationPlan::Apply(v) && v@ == pending@),
{
    if !initialized {
        MigrationPlan::RunAll
    } else if pending.len() == 0 {
        MigrationPlan::NoOp
    } else {
        MigrationPlan::Apply(pending)
    }
}

/// The relational update's outcome: the affected-row count separates
/// "updated" (`Some`) from "no matching row" (`None`).
pub fn update_outcome(updated_rows: usize) -> (r: Option<()>)
    ensures
        r is Some <==> updated_rows > 0,
{
    if updated_rows > 0 {
        Some(())
    } else {
        None
    }
}

} // verus!

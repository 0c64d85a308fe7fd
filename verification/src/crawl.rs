//! The order of the crawler's work: which stage follows which, and what a
//! failure leads to. The scheduler alone decides when to sleep.

use vstd::prelude::*;

verus! {

/// A stage of the crawl loop.
#[derive(Clone, Copy, Debug, PartialEq, Eq)]
pub enum Stage {
    /// Connect to the relay chain node and to the parachain node.
    Connect,
    /// Bootstrap the genesis, where it is due.
    Genesis,
    /// Grab relay chain headers.
    Headers,
    /// Grab parachain headers.
    ParaHeaders,
    /// Grab storage changes.
    StorageChanges,
    /// Verify a range of relay chain headers, where there is one.
    CheckRelay,
    /// Verify a range of parachain headers, where there is one.
    CheckPara,
    /// Take what has been ingested as known ingested.
    Settle,
    /// Sleep for the configured interval, and connect anew afterwards where
    /// `reconnect` is set.
    Sleep { reconnect: bool },
}

impl Stage {
    /// The stage that follows `self`, given whether `self` went well.
    ///
    /// A failure to connect, to bootstrap or to grab ends the iteration: the
    /// loop sleeps and starts over with new connections. A failure to verify
    /// the relay chain headers skips the parachain's for this iteration. No
    /// failure ends the loop.
    pub open spec fn next(self, ok: bool) -> Stage {
        match self {
            Stage::Connect => if ok {
                Stage::Genesis
            } else {
                Stage::Sleep { reconnect: true }
            },
            Stage::Genesis => if ok {
                Stage::Headers
            } else {
                Stage::Sleep { reconnect: true }
            },
            Stage::Headers => if ok {
                Stage::ParaHeaders
            } else {
                Stage::Sleep { reconnect: true }
            },
            Stage::ParaHeaders => if ok {
                Stage::StorageChanges
            } else {
                Stage::Sleep { reconnect: true }
            },
            Stage::StorageChanges => if ok {
                Stage::CheckRelay
            } else {
                Stage::Sleep { reconnect: true }
            },
            Stage::CheckRelay => if ok {
                Stage::CheckPara
            } else {
                Stage::Settle
            },
            Stage::CheckPara => Stage::Settle,
            Stage::Settle => Stage::Sleep { reconnect: false },
            Stage::Sleep { reconnect } => if reconnect {
                Stage::Connect
            } else {
                Stage::Headers
            },
        }
    }

    /// The largest number of stages that can follow `self` before the loop
    /// sleeps.
    pub open spec fn stages_before_sleep(self) -> nat {
        match self {
            Stage::Connect => 8,
            Stage::Genesis => 7,
            Stage::Headers => 6,
            Stage::ParaHeaders => 5,
            Stage::StorageChanges => 4,
            Stage::CheckRelay => 3,
            Stage::CheckPara => 2,
            Stage::Settle => 1,
            Stage::Sleep { .. } => 0,
        }
    }

    /// The stage in which the loop starts.
    pub fn first() -> (out: Stage)
        ensures
            out == Stage::Connect,
    {
        Stage::Connect
    }

    /// The stage that follows `self`, given whether `self` went well.
    pub fn advance(self, ok: bool) -> (out: Stage)
        ensures
            out == self.next(ok),
    {
        let on_success = match self {
            Stage::Connect => Stage::Genesis,
            Stage::Genesis => Stage::Headers,
            Stage::Headers => Stage::ParaHeaders,
            Stage::ParaHeaders => Stage::StorageChanges,
            Stage::StorageChanges => Stage::CheckRelay,
            Stage::CheckRelay => Stage::CheckPara,
            Stage::CheckPara => Stage::Settle,
            Stage::Settle => Stage::Sleep { reconnect: false },
            Stage::Sleep { reconnect: true } => Stage::Connect,
            Stage::Sleep { reconnect: false } => Stage::Headers,
        };
        if ok {
            on_success
        } else {
            match self {
                Stage::CheckRelay => Stage::Settle,
                Stage::CheckPara | Stage::Settle | Stage::Sleep { .. } => on_success,
                _ => Stage::Sleep { reconnect: true },
            }
        }
    }
}

/// Every iteration comes to its sleep: whatever the outcome of a stage that
/// is not the sleep, the loop is one stage closer to sleeping after it.
pub proof fn lemma_iteration_sleeps(stage: Stage, ok: bool)
    requires
        !(stage is Sleep),
    ensures
        stage.next(ok).stages_before_sleep() < stage.stages_before_sleep(),
{
}

/// Grabbing never goes on after a failure: where connecting, bootstrapping or
/// a grab fails, the loop sleeps next and connects anew after that.
pub proof fn lemma_failure_backs_off(stage: Stage)
    requires
        stage is Connect || stage is Genesis || stage is Headers || stage is ParaHeaders
            || stage is StorageChanges,
    ensures
        stage.next(false) == (Stage::Sleep { reconnect: true }),
        stage.next(false).next(true) == Stage::Connect,
{
}

/// A failure to verify does not cost the connections: the loop settles,
/// sleeps, and goes on grabbing.
pub proof fn lemma_verify_failure_goes_on(stage: Stage, ok: bool)
    requires
        stage is CheckRelay || stage is CheckPara,
    ensures
        stage.next(false) == Stage::Settle,
        stage.next(false).next(ok) == (Stage::Sleep { reconnect: false }),
        stage.next(false).next(ok).next(ok) == Stage::Headers,
{
}

} // verus!

//! What holds of every verify and repair pass, whatever the store holds and
//! whatever the chain delivers.

use crate::check::{CheckAction, CheckError, CheckEvent, PassState, Phase, Refetched, Stored};
use crate::header::{linked, Header};
use vstd::prelude::*;

verus! {

impl PassState {
    /// The state after these outcomes were handed over one after the other.
    pub open spec fn run(self, events: Seq<CheckEvent>) -> PassState
        decreases events.len(),
    {
        if events.len() == 0 {
            self
        } else {
            self.run(events.drop_last()).step(events.last()).0
        }
    }

    /// Whether the pass has ended.
    pub open spec fn ended(self) -> bool {
        self.phase is Done || self.phase is Failed
    }

    /// A bound on the number of outcomes that the pass can still take before
    /// it ends: four for each block not reached yet, and what is left to do
    /// at the current block.
    pub open spec fn steps_left(self) -> nat {
        let ahead = (4 * (self.to - self.block)) as nat;
        match self.phase {
            Phase::AwaitFrom => ahead + 1,
            Phase::AwaitBlock { .. } => ahead + 4,
            Phase::AwaitRepair { .. } => ahead + 3,
            Phase::AwaitPrev { .. } => ahead + 2,
            Phase::AwaitCur { .. } => ahead + 1,
            Phase::Done => 0,
            Phase::Failed => 0,
        }
    }

    /// The header that the current block's header has to name as its parent
    /// for the block to pass, where the pass waits for such a header.
    pub open spec fn expects(self) -> Option<Header> {
        match self.phase {
            Phase::AwaitBlock { prev } => Some(prev),
            Phase::AwaitRepair { prev } => Some(prev),
            Phase::AwaitCur { prev, .. } => Some(prev),
            _ => None,
        }
    }
}

/// The header that an outcome brings, if it brings one.
pub open spec fn header_of(event: CheckEvent) -> Option<Header> {
    match event {
        CheckEvent::Loaded(Stored::Decoded(h)) => Some(h),
        CheckEvent::Refetched(Refetched::Header(h)) => Some(h),
        _ => None,
    }
}

/// Whatever is handed over, a pass stays in a state that a pass can reach,
/// and its range and its stream stay what they were.
pub proof fn lemma_step_keeps_inv(s: PassState, event: CheckEvent)
    requires
        s.inv(),
    ensures
        s.step(event).0.inv(),
        s.step(event).0.from == s.from,
        s.step(event).0.to == s.to,
        s.step(event).0.kind == s.kind,
        s.step(event).0.repair_enabled == s.repair_enabled,
{
}

/// The same of any number of outcomes.
pub proof fn lemma_run_keeps_inv(s: PassState, events: Seq<CheckEvent>)
    requires
        s.inv(),
    ensures
        s.run(events).inv(),
        s.run(events).from == s.from,
        s.run(events).to == s.to,
        s.run(events).kind == s.kind,
        s.run(events).repair_enabled == s.repair_enabled,
    decreases events.len(),
{
    if events.len() > 0 {
        lemma_run_keeps_inv(s, events.drop_last());
        lemma_step_keeps_inv(s.run(events.drop_last()), events.last());
    }
}

/// A pass never reads beyond its range: the record that it asks for is that
/// of the block after the current one, which is within the range, and that
/// block is the current one from then on.
pub proof fn lemma_loads_stay_in_range(s: PassState, event: CheckEvent)
    requires
        s.inv(),
    ensures
        s.step(event).1 matches CheckAction::Load { block } ==> {
            &&& s.from < block <= s.to
            &&& block == s.block + 1
            &&& s.step(event).0.block == block
        },
        !(s.step(event).1 is Load) ==> s.step(event).0.block == s.block,
{
}

/// A block passes only on a header that names the expected parent. Where a
/// pass that waits for a block's header moves on to the next block or
/// finishes, the outcome brought a header, that header names as its parent
/// the header that the pass expected, and it is the header that the next
/// block has to name.
pub proof fn lemma_passes_only_linked(s: PassState, event: CheckEvent)
    requires
        s.inv(),
        s.expects() is Some,
        s.step(event).1 is Load || s.step(event).1 is Finished,
    ensures
        header_of(event) is Some,
        linked(s.expects()->0, header_of(event)->0),
        s.step(event).1 is Load ==> s.step(event).0.expects() == header_of(event),
{
}

/// A pass counts each finding once. An outcome raises the number of codec
/// errors by one where it is a record of the current block that is no header,
/// and the number of mismatches by one where it is a header of the current
/// block, loaded or fetched again for a codec error, that does not name the
/// expected parent. Nothing else changes the counts, and a pass that finishes
/// reports them as they stand.
pub proof fn lemma_counts(s: PassState, event: CheckEvent)
    requires
        s.inv(),
    ensures
        s.step(event).0.codec_errors == s.codec_errors + if s.phase is AwaitBlock && event
            == CheckEvent::Loaded(Stored::Undecodable) {
            1int
        } else {
            0int
        },
        s.step(event).0.mismatches == s.mismatches + if (s.phase is AwaitBlock || s.phase
            is AwaitRepair) && header_of(event) is Some && !linked(
            s.expects()->0,
            header_of(event)->0,
        ) && (s.phase is AwaitBlock ==> event is Loaded) && (s.phase is AwaitRepair ==> event
            is Refetched) {
            1int
        } else {
            0int
        },
        s.step(event).1 matches CheckAction::Finished { mismatches, codec_errors } ==> {
            &&& mismatches == s.step(event).0.mismatches
            &&& codec_errors == s.step(event).0.codec_errors
            &&& mismatches <= s.to - s.from
            &&& codec_errors <= s.to - s.from
        },
{
}

/// A pass ends. Every outcome that a pass takes before it has ended brings
/// it closer to its end, so that a pass over `to - from` blocks takes no more
/// than `4 * (to - from) + 1` outcomes.
pub proof fn lemma_pass_ends(s: PassState, event: CheckEvent)
    requires
        s.inv(),
        !s.ended(),
    ensures
        s.step(event).0.steps_left() < s.steps_left(),
        s.steps_left() <= 4 * (s.to - s.from) + 1,
        s.step(event).0.ended() <==> (s.step(event).1 is Finished || s.step(event).1 is Failed),
{
}

/// A pass that has ended stays as it is but for having failed: it takes no
/// further outcome.
pub proof fn lemma_ended_pass_refuses(s: PassState, event: CheckEvent)
    requires
        s.ended(),
    ensures
        s.step(event) == s.fail(CheckError::UnexpectedEvent),
{
}

/// A pass fails for good where a header does not fit after both blocks were
/// fetched again: it asks for no third fetch.
pub proof fn lemma_one_repair_round(s: PassState, fetched: Header)
    requires
        s.inv(),
        s.phase is AwaitCur,
        !linked(s.expects()->0, fetched),
    ensures
        s.step(CheckEvent::Refetched(Refetched::Header(fetched))) == s.fail(
            CheckError::CannotFixMismatch(s.block),
        ),
{
}

/// Nothing is fetched again where grabbing the stream is switched off: a
/// pass that would have to fails instead.
pub proof fn lemma_no_repair_when_disabled(s: PassState, event: CheckEvent)
    requires
        s.inv(),
        !s.repair_enabled,
    ensures
        !(s.step(event).1 is Refetch),
{
}

} // verus!

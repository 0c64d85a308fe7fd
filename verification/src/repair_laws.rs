//! What a whole pass comes to, given what the store holds and what the chain
//! delivers: a clean range passes untouched, a single record that is no
//! header is repaired, and a link that stays broken after one round of
//! fetching ends the pass.

use crate::check::{CheckAction, CheckError, CheckEvent, PassState, Phase, Refetched, Stored};
use crate::header::{linked, BlockNumber, Header};
use vstd::prelude::*;

verus! {

/// What a pass meets outside: the stored record of each block, and what the
/// chain delivers for each block that is fetched again.
pub ghost struct World {
    pub store: Map<BlockNumber, Stored>,
    pub chain: Map<BlockNumber, Refetched>,
}

/// How a pass stood when it was left.
pub ghost struct Ended {
    pub state: PassState,
    pub action: CheckAction,
    pub world: World,
}

impl World {
    /// What the store holds for a block.
    pub open spec fn stored(self, block: BlockNumber) -> Stored {
        if self.store.dom().contains(block) {
            self.store[block]
        } else {
            Stored::Missing
        }
    }

    /// What the chain delivers for the block of a number.
    pub open spec fn delivered(self, number: BlockNumber) -> Refetched {
        if self.chain.dom().contains(number) {
            self.chain[number]
        } else {
            Refetched::Nothing
        }
    }

    /// The store after a header was written to it, under the header's own
    /// number.
    pub open spec fn with_header(self, h: Header) -> World {
        World { store: self.store.insert(h.number, Stored::Decoded(h)), ..self }
    }

    /// The host performs what the pass asks for: the world after it, and the
    /// outcome. A header that the chain delivers overwrites the record of
    /// its number.
    pub open spec fn perform(self, action: CheckAction) -> (World, CheckEvent) {
        match action {
            CheckAction::Refetch { number } => match self.delivered(number) {
                Refetched::Header(h) => (
                    self.with_header(h),
                    CheckEvent::Refetched(Refetched::Header(h)),
                ),
                other => (self, CheckEvent::Refetched(other)),
            },
            CheckAction::Load { block } => (self, CheckEvent::Loaded(self.stored(block))),
            _ => (self, CheckEvent::Loaded(Stored::Missing)),
        }
    }

    /// The store holds `headers[i]` for block `from + i`, for each block from
    /// `first` to `last` but `except`.
    pub open spec fn holds(
        self,
        from: BlockNumber,
        headers: Seq<Header>,
        first: int,
        last: int,
        except: int,
    ) -> bool {
        forall|block: BlockNumber|
            first <= block <= last && block != except ==> #[trigger] self.stored(block)
                == Stored::Decoded(headers[block - from])
    }
}

/// Each of these headers but the first names the one before it as its parent.
pub open spec fn chained(headers: Seq<Header>) -> bool {
    forall|i: int| 0 < i < headers.len() ==> linked(headers[i - 1], #[trigger] headers[i])
}

/// The host runs a pass: it performs what the pass asks for and hands the
/// outcome over, until the pass has ended or `fuel` outcomes were handed
/// over.
pub open spec fn play(s: PassState, action: CheckAction, world: World, fuel: nat) -> Ended
    decreases fuel,
{
    if fuel == 0 || !(action is Load || action is Refetch) {
        Ended { state: s, action, world }
    } else {
        let (after, event) = world.perform(action);
        let (next, asked) = s.step(event);
        play(next, asked, after, (fuel - 1) as nat)
    }
}

/// From a block on, a pass over headers of which at most one record is no
/// header: the pass finishes, it has counted that record and nothing else,
/// and the store holds the header that the chain delivered in its place.
proof fn lemma_play_one_repair(
    s: PassState,
    world: World,
    headers: Seq<Header>,
    broken: BlockNumber,
    fuel: nat,
)
    requires
        s.inv(),
        s.phase == (Phase::AwaitBlock { prev: headers[s.block - 1 - s.from] }),
        headers.len() == s.to - s.from + 1,
        chained(headers),
        world.holds(s.from, headers, s.block as int, s.to as int, broken as int),
        s.block <= broken <= s.to ==> {
            &&& s.repair_enabled
            &&& world.stored(broken) == Stored::Undecodable
            &&& world.delivered(broken) == Refetched::Header(headers[broken - s.from])
            &&& headers[broken - s.from].number == broken
        },
        fuel >= 2 * (s.to - s.block + 1),
    ensures
        play(s, CheckAction::Load { block: s.block }, world, fuel).action == (
        CheckAction::Finished {
            mismatches: s.mismatches,
            codec_errors: if s.block <= broken <= s.to {
                (s.codec_errors + 1) as u32
            } else {
                s.codec_errors
            },
        }),
        play(s, CheckAction::Load { block: s.block }, world, fuel).world == if s.block <= broken
            <= s.to {
            world.with_header(headers[broken - s.from])
        } else {
            world
        },
        play(s, CheckAction::Load { block: s.block }, world, fuel).state.phase is Done,
    decreases s.to - s.block,
{
    let prev = headers[s.block - 1 - s.from];
    let cur = headers[s.block - s.from];
    assert(linked(prev, cur));
    let load = CheckAction::Load { block: s.block };
    if s.block != broken {
        assert(world.stored(s.block) == Stored::Decoded(cur));
        let (next, asked) = s.step(CheckEvent::Loaded(Stored::Decoded(cur)));
        assert(play(s, load, world, fuel) == play(next, asked, world, (fuel - 1) as nat));
        if s.block < s.to {
            lemma_play_one_repair(next, world, headers, broken, (fuel - 1) as nat);
        }
    } else {
        let (waiting, ask_again) = s.step(CheckEvent::Loaded(Stored::Undecodable));
        assert(ask_again == CheckAction::Refetch { number: broken });
        assert(play(s, load, world, fuel) == play(waiting, ask_again, world, (fuel - 1) as nat));
        let repaired = world.with_header(cur);
        let (next, asked) = waiting.step(CheckEvent::Refetched(Refetched::Header(cur)));
        assert(world.perform(ask_again) == (
            repaired,
            CheckEvent::Refetched(Refetched::Header(cur)),
        ));
        assert(play(waiting, ask_again, world, (fuel - 1) as nat) == play(
            next,
            asked,
            repaired,
            (fuel - 2) as nat,
        ));
        if s.block < s.to {
            assert(repaired.holds(s.from, headers, next.block as int, s.to as int, broken as int))
                by {
                assert forall|block: BlockNumber|
                    next.block <= block <= s.to && block != broken implies #[trigger] repaired.stored(
                    block,
                ) == Stored::Decoded(headers[block - s.from]) by {
                    assert(world.stored(block) == Stored::Decoded(headers[block - s.from]));
                }
            }
            lemma_play_one_repair(next, repaired, headers, broken, (fuel - 2) as nat);
        }
    }
}

/// From a block on, a pass over headers that fit up to a block whose header
/// does not name its predecessor, on a chain that delivers a pair that does
/// not fit either: the pass fails at that block.
proof fn lemma_play_until_break(
    s: PassState,
    world: World,
    headers: Seq<Header>,
    broken: BlockNumber,
    fetched_prev: Header,
    fetched_cur: Header,
    fuel: nat,
)
    requires
        s.inv(),
        s.repair_enabled,
        s.phase == (Phase::AwaitBlock { prev: headers[s.block - 1 - s.from] }),
        s.block <= broken <= s.to,
        headers.len() == broken - s.from + 1,
        chained(headers.drop_last()),
        !linked(headers[broken - 1 - s.from], headers[broken - s.from]),
        world.holds(s.from, headers, s.block as int, broken as int, -1),
        world.delivered(headers[broken - 1 - s.from].number) == Refetched::Header(fetched_prev),
        world.delivered(headers[broken - s.from].number) == Refetched::Header(fetched_cur),
        !linked(fetched_prev, fetched_cur),
        fuel >= broken - s.block + 3,
    ensures
        play(s, CheckAction::Load { block: s.block }, world, fuel).action == CheckAction::Failed(
            CheckError::CannotFixMismatch(broken),
        ),
        play(s, CheckAction::Load { block: s.block }, world, fuel).state.mismatches
            == s.mismatches + 1,
    decreases broken - s.block,
{
    let prev = headers[s.block - 1 - s.from];
    let cur = headers[s.block - s.from];
    let load = CheckAction::Load { block: s.block };
    assert(world.stored(s.block) == Stored::Decoded(cur));
    let (next, asked) = s.step(CheckEvent::Loaded(Stored::Decoded(cur)));
    assert(play(s, load, world, fuel) == play(next, asked, world, (fuel - 1) as nat));
    if s.block < broken {
        assert(linked(prev, cur)) by {
            let fitting = headers.drop_last();
            assert(fitting[s.block - s.from] == cur);
            assert(fitting[s.block - 1 - s.from] == prev);
        }
        lemma_play_until_break(
            next,
            world,
            headers,
            broken,
            fetched_prev,
            fetched_cur,
            (fuel - 1) as nat,
        );
    } else {
        assert(asked == CheckAction::Refetch { number: prev.number });
        let first = world.with_header(fetched_prev);
        let (waiting, ask_cur) = next.step(CheckEvent::Refetched(Refetched::Header(fetched_prev)));
        assert(world.perform(asked) == (
            first,
            CheckEvent::Refetched(Refetched::Header(fetched_prev)),
        ));
        assert(play(next, asked, world, (fuel - 1) as nat) == play(
            waiting,
            ask_cur,
            first,
            (fuel - 2) as nat,
        ));
        assert(ask_cur == CheckAction::Refetch { number: cur.number });
        assert(first.delivered(cur.number) == Refetched::Header(fetched_cur));
        let second = first.with_header(fetched_cur);
        let (failed, told) = waiting.step(CheckEvent::Refetched(Refetched::Header(fetched_cur)));
        assert(first.perform(ask_cur) == (
            second,
            CheckEvent::Refetched(Refetched::Header(fetched_cur)),
        ));
        assert(play(waiting, ask_cur, first, (fuel - 2) as nat) == play(
            failed,
            told,
            second,
            (fuel - 3) as nat,
        ));
        assert(told == CheckAction::Failed(CheckError::CannotFixMismatch(broken)));
    }
}

/// From a block on, a pass over headers that fit but for one stored header
/// that does not name its predecessor, on a chain that delivers the two
/// headers that do fit: the pass finishes, it has counted one mismatch, and
/// the store holds the two headers that the chain delivered.
proof fn lemma_play_one_stale(
    s: PassState,
    world: World,
    headers: Seq<Header>,
    stale: Header,
    broken: BlockNumber,
    fuel: nat,
)
    requires
        s.inv(),
        s.repair_enabled,
        s.phase == (Phase::AwaitBlock { prev: headers[s.block - 1 - s.from] }),
        s.block <= broken <= s.to,
        headers.len() == s.to - s.from + 1,
        chained(headers),
        world.holds(s.from, headers, s.block as int, s.to as int, broken as int),
        world.stored(broken) == Stored::Decoded(stale),
        stale.number == broken,
        !linked(headers[broken - 1 - s.from], stale),
        headers[broken - 1 - s.from].number == broken - 1,
        headers[broken - s.from].number == broken,
        world.delivered((broken - 1) as BlockNumber) == Refetched::Header(
            headers[broken - 1 - s.from],
        ),
        world.delivered(broken) == Refetched::Header(headers[broken - s.from]),
        fuel >= 2 * (s.to - s.block + 1) + 1,
    ensures
        play(s, CheckAction::Load { block: s.block }, world, fuel).action == (
        CheckAction::Finished {
            mismatches: (s.mismatches + 1) as u32,
            codec_errors: s.codec_errors,
        }),
        play(s, CheckAction::Load { block: s.block }, world, fuel).world == world.with_header(
            headers[broken - 1 - s.from],
        ).with_header(headers[broken - s.from]),
    decreases s.to - s.block,
{
    let prev = headers[s.block - 1 - s.from];
    let load = CheckAction::Load { block: s.block };
    if s.block < broken {
        let cur = headers[s.block - s.from];
        assert(linked(prev, cur));
        assert(world.stored(s.block) == Stored::Decoded(cur));
        let (next, asked) = s.step(CheckEvent::Loaded(Stored::Decoded(cur)));
        assert(play(s, load, world, fuel) == play(next, asked, world, (fuel - 1) as nat));
        lemma_play_one_stale(next, world, headers, stale, broken, (fuel - 1) as nat);
    } else {
        let cur = headers[broken - s.from];
        assert(linked(prev, cur));
        let (after_load, ask_prev) = s.step(CheckEvent::Loaded(Stored::Decoded(stale)));
        assert(ask_prev == CheckAction::Refetch { number: prev.number });
        assert(play(s, load, world, fuel) == play(
            after_load,
            ask_prev,
            world,
            (fuel - 1) as nat,
        ));
        let first = world.with_header(prev);
        let (after_prev, ask_cur) = after_load.step(
            CheckEvent::Refetched(Refetched::Header(prev)),
        );
        assert(world.perform(ask_prev) == (first, CheckEvent::Refetched(Refetched::Header(prev))));
        assert(play(after_load, ask_prev, world, (fuel - 1) as nat) == play(
            after_prev,
            ask_cur,
            first,
            (fuel - 2) as nat,
        ));
        assert(ask_cur == CheckAction::Refetch { number: broken });
        assert(first.delivered(broken) == Refetched::Header(cur));
        let second = first.with_header(cur);
        let (next, asked) = after_prev.step(CheckEvent::Refetched(Refetched::Header(cur)));
        assert(first.perform(ask_cur) == (second, CheckEvent::Refetched(Refetched::Header(cur))));
        assert(play(after_prev, ask_cur, first, (fuel - 2) as nat) == play(
            next,
            asked,
            second,
            (fuel - 3) as nat,
        ));
        if s.block < s.to {
            assert(second.holds(s.from, headers, next.block as int, s.to as int, s.from as int))
                by {
                assert forall|block: BlockNumber|
                    next.block <= block <= s.to && block != s.from implies #[trigger] second.stored(
                    block,
                ) == Stored::Decoded(headers[block - s.from]) by {
                    assert(world.stored(block) == Stored::Decoded(headers[block - s.from]));
                }
            }
            lemma_play_one_repair(next, second, headers, s.from, (fuel - 3) as nat);
        }
    }
}

/// A clean range passes: where the store holds a header for every block of
/// the range and each names the one before it, the pass finishes without a
/// finding, after one outcome for each block, and asks for nothing to be
/// fetched: the store is as it was.
pub proof fn lemma_clean_range_passes(
    s: PassState,
    world: World,
    headers: Seq<Header>,
    fuel: nat,
)
    requires
        s.inv(),
        s.phase is AwaitFrom,
        headers.len() == s.to - s.from + 1,
        chained(headers),
        world.holds(s.from, headers, s.from as int, s.to as int, -1),
        fuel >= 2 * (s.to - s.from) + 1,
    ensures
        play(s, CheckAction::Load { block: s.from }, world, fuel).action == (
        CheckAction::Finished { mismatches: 0, codec_errors: 0 }),
        play(s, CheckAction::Load { block: s.from }, world, fuel).world == world,
{
    assert(world.stored(s.from) == Stored::Decoded(headers[0]));
    let (next, asked) = s.step(CheckEvent::Loaded(Stored::Decoded(headers[0])));
    assert(play(s, CheckAction::Load { block: s.from }, world, fuel) == play(
        next,
        asked,
        world,
        (fuel - 1) as nat,
    ));
    lemma_play_one_repair(next, world, headers, s.from, (fuel - 1) as nat);
}

/// A single record that is no header is repaired: where the store holds a
/// header for every block of the range but one after its start, the headers
/// name each other in turn once the chain's header for that block is among
/// them, and the chain delivers that header under the block's number, the
/// pass finishes with one codec error and no mismatch. Afterwards the store
/// holds the delivered header for the block and is otherwise as it was, so
/// that the headers of the range name each other in turn.
pub proof fn lemma_single_codec_error_is_repaired(
    s: PassState,
    world: World,
    headers: Seq<Header>,
    broken: BlockNumber,
    fuel: nat,
)
    requires
        s.inv(),
        s.phase is AwaitFrom,
        s.repair_enabled,
        s.from < broken <= s.to,
        headers.len() == s.to - s.from + 1,
        chained(headers),
        world.holds(s.from, headers, s.from as int, s.to as int, broken as int),
        world.stored(broken) == Stored::Undecodable,
        world.delivered(broken) == Refetched::Header(headers[broken - s.from]),
        headers[broken - s.from].number == broken,
        fuel >= 2 * (s.to - s.from) + 1,
    ensures
        play(s, CheckAction::Load { block: s.from }, world, fuel).action == (
        CheckAction::Finished { mismatches: 0, codec_errors: 1 }),
        play(s, CheckAction::Load { block: s.from }, world, fuel).world == world.with_header(
            headers[broken - s.from],
        ),
        play(s, CheckAction::Load { block: s.from }, world, fuel).world.holds(
            s.from,
            headers,
            s.from as int,
            s.to as int,
            -1,
        ),
{
    assert(world.stored(s.from) == Stored::Decoded(headers[0]));
    let (next, asked) = s.step(CheckEvent::Loaded(Stored::Decoded(headers[0])));
    assert(play(s, CheckAction::Load { block: s.from }, world, fuel) == play(
        next,
        asked,
        world,
        (fuel - 1) as nat,
    ));
    lemma_play_one_repair(next, world, headers, broken, (fuel - 1) as nat);
    let repaired = world.with_header(headers[broken - s.from]);
    assert forall|block: BlockNumber| s.from <= block <= s.to implies #[trigger] repaired.stored(
        block,
    ) == Stored::Decoded(headers[block - s.from]) by {
        if block != broken {
            assert(world.stored(block) == Stored::Decoded(headers[block - s.from]));
        }
    }
}

/// A single stored header that does not fit is repaired: where the store
/// holds a header for every block of the range, all but one after its start
/// are the chain's, that one does not name its predecessor, and the chain
/// delivers its own headers for the block and for the one before it, the
/// pass finishes with one mismatch and no codec error. Afterwards the store
/// holds the chain's headers for every block of the range, so that they name
/// each other in turn.
pub proof fn lemma_single_stale_record_is_repaired(
    s: PassState,
    world: World,
    headers: Seq<Header>,
    stale: Header,
    broken: BlockNumber,
    fuel: nat,
)
    requires
        s.inv(),
        s.phase is AwaitFrom,
        s.repair_enabled,
        s.from < broken <= s.to,
        headers.len() == s.to - s.from + 1,
        chained(headers),
        world.holds(s.from, headers, s.from as int, s.to as int, broken as int),
        world.stored(broken) == Stored::Decoded(stale),
        stale.number == broken,
        !linked(headers[broken - 1 - s.from], stale),
        headers[broken - 1 - s.from].number == broken - 1,
        headers[broken - s.from].number == broken,
        world.delivered((broken - 1) as BlockNumber) == Refetched::Header(
            headers[broken - 1 - s.from],
        ),
        world.delivered(broken) == Refetched::Header(headers[broken - s.from]),
        fuel >= 2 * (s.to - s.from) + 2,
    ensures
        play(s, CheckAction::Load { block: s.from }, world, fuel).action == (
        CheckAction::Finished { mismatches: 1, codec_errors: 0 }),
        play(s, CheckAction::Load { block: s.from }, world, fuel).world.holds(
            s.from,
            headers,
            s.from as int,
            s.to as int,
            -1,
        ),
{
    assert(world.stored(s.from) == Stored::Decoded(headers[0]));
    let (next, asked) = s.step(CheckEvent::Loaded(Stored::Decoded(headers[0])));
    assert(play(s, CheckAction::Load { block: s.from }, world, fuel) == play(
        next,
        asked,
        world,
        (fuel - 1) as nat,
    ));
    lemma_play_one_stale(next, world, headers, stale, broken, (fuel - 1) as nat);
    let repaired = world.with_header(headers[broken - 1 - s.from]).with_header(
        headers[broken - s.from],
    );
    assert forall|block: BlockNumber| s.from <= block <= s.to implies #[trigger] repaired.stored(
        block,
    ) == Stored::Decoded(headers[block - s.from]) by {
        if block != broken && block != broken - 1 {
            assert(world.stored(block) == Stored::Decoded(headers[block - s.from]));
        }
    }
}

/// A link that stays broken ends the pass: where the stored headers fit up
/// to a block whose header does not name its predecessor, and the pair that
/// the chain delivers for the two does not fit either, the pass fails with
/// that block's number, having counted the mismatch and asked for each of
/// the two blocks once.
pub proof fn lemma_unrepairable_mismatch_fails(
    s: PassState,
    world: World,
    headers: Seq<Header>,
    broken: BlockNumber,
    fetched_prev: Header,
    fetched_cur: Header,
    fuel: nat,
)
    requires
        s.inv(),
        s.phase is AwaitFrom,
        s.repair_enabled,
        s.from < broken <= s.to,
        headers.len() == broken - s.from + 1,
        chained(headers.drop_last()),
        !linked(headers[broken - 1 - s.from], headers[broken - s.from]),
        world.holds(s.from, headers, s.from as int, broken as int, -1),
        world.delivered(headers[broken - 1 - s.from].number) == Refetched::Header(fetched_prev),
        world.delivered(headers[broken - s.from].number) == Refetched::Header(fetched_cur),
        !linked(fetched_prev, fetched_cur),
        fuel >= broken - s.from + 3,
    ensures
        play(s, CheckAction::Load { block: s.from }, world, fuel).action == CheckAction::Failed(
            CheckError::CannotFixMismatch(broken),
        ),
        play(s, CheckAction::Load { block: s.from }, world, fuel).state.mismatches == 1,
{
    assert(world.stored(s.from) == Stored::Decoded(headers[0]));
    let (next, asked) = s.step(CheckEvent::Loaded(Stored::Decoded(headers[0])));
    assert(play(s, CheckAction::Load { block: s.from }, world, fuel) == play(
        next,
        asked,
        world,
        (fuel - 1) as nat,
    ));
    lemma_play_until_break(
        next,
        world,
        headers,
        broken,
        fetched_prev,
        fetched_cur,
        (fuel - 1) as nat,
    );
}

} // verus!

//! The two numbers that the crawler shows to the rest of the host: the
//! genesis height it was started with, and the highest relay chain block for
//! which it has seen a justification.

use crate::header::BlockNumber;
use vstd::prelude::*;

verus! {

/// What the crawler lets others observe. Both numbers are `u32::MAX` until
/// they are first set.
#[derive(Clone, Copy, Debug, PartialEq, Eq)]
pub struct Observed {
    pub genesis: BlockNumber,
    pub latest_justification: BlockNumber,
}

/// The block before `block`, and block 0 for block 0.
pub open spec fn before(block: BlockNumber) -> BlockNumber {
    if block == 0 {
        0
    } else {
        (block - 1) as BlockNumber
    }
}

impl Observed {
    /// Nothing has been observed yet.
    pub fn new() -> (out: Observed)
        ensures
            out.genesis == u32::MAX,
            out.latest_justification == u32::MAX,
    {
        Observed { genesis: u32::MAX, latest_justification: u32::MAX }
    }

    /// Sets the genesis height that the crawler was started with.
    pub fn set_genesis(&mut self, height: BlockNumber)
        ensures
            final(self).genesis == height,
            final(self).latest_justification == old(self).latest_justification,
    {
        self.genesis = height;
    }

    /// Notes a relay chain header that was grabbed: where a justification
    /// came with it, its block is the latest justified one from now on.
    pub fn note_header(&mut self, number: BlockNumber, justified: bool)
        ensures
            final(self).latest_justification == if justified {
                number
            } else {
                old(self).latest_justification
            },
            final(self).genesis == old(self).genesis,
    {
        if justified {
            self.latest_justification = number;
        }
    }
}

/// The genesis height that the crawler was started with.
pub fn genesis_block(observed: &Observed) -> (out: BlockNumber)
    ensures
        out == observed.genesis,
{
    observed.genesis
}

/// The highest relay chain block for which a justification has been seen.
pub fn latest_justification(observed: &Observed) -> (out: BlockNumber)
    ensures
        out == observed.latest_justification,
{
    observed.latest_justification
}

/// Notes that `block` was asked for and is not in the replica: the latest
/// justification is from now on not beyond the block before it.
pub fn update_404_block(observed: &mut Observed, block: BlockNumber)
    ensures
        final(observed).latest_justification == if before(block) < old(
            observed,
        ).latest_justification {
            before(block)
        } else {
            old(observed).latest_justification
        },
        final(observed).genesis == old(observed).genesis,
{
    let limit: BlockNumber = if block == 0 {
        0
    } else {
        block - 1
    };
    if limit < observed.latest_justification {
        observed.latest_justification = limit;
    }
}

} // verus!

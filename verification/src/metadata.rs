//! The record of the crawler's progress: how far each stream has been
//! ingested and verified, and which genesis heights have been bootstrapped.

use crate::header::BlockNumber;
use vstd::prelude::*;

verus! {

/// One of the three streams that the crawler ingests.
#[derive(Clone, Copy, Debug, PartialEq, Eq)]
pub enum Stream {
    /// Relay chain headers.
    Header,
    /// Parachain headers.
    ParaHeader,
    /// Storage changes of parachain blocks.
    StorageChanges,
}

/// A block number for each stream, absent where the stream has none yet.
#[derive(Clone, Copy, Debug, PartialEq, Eq)]
pub struct BlockNumbers {
    pub header: Option<BlockNumber>,
    pub para_header: Option<BlockNumber>,
    pub storage_changes: Option<BlockNumber>,
}

/// How far a cursor has come: its block number, and less than any block
/// number where it is absent.
pub open spec fn level(cursor: Option<BlockNumber>) -> int {
    match cursor {
        Some(block) => block as int,
        None => -1,
    }
}

impl BlockNumbers {
    /// The number of one stream.
    pub open spec fn of(self, stream: Stream) -> Option<BlockNumber> {
        match stream {
            Stream::Header => self.header,
            Stream::ParaHeader => self.para_header,
            Stream::StorageChanges => self.storage_changes,
        }
    }

    /// These numbers with that of one stream replaced.
    pub open spec fn with(self, stream: Stream, cursor: Option<BlockNumber>) -> BlockNumbers {
        match stream {
            Stream::Header => BlockNumbers { header: cursor, ..self },
            Stream::ParaHeader => BlockNumbers { para_header: cursor, ..self },
            Stream::StorageChanges => BlockNumbers { storage_changes: cursor, ..self },
        }
    }

    /// No stream has a number.
    pub open spec fn none() -> BlockNumbers {
        BlockNumbers { header: None, para_header: None, storage_changes: None }
    }

    /// Numbers with no stream set.
    pub fn new() -> (out: BlockNumbers)
        ensures
            out == BlockNumbers::none(),
    {
        BlockNumbers { header: None, para_header: None, storage_changes: None }
    }

    /// The number of one stream.
    pub fn get(&self, stream: Stream) -> (out: Option<BlockNumber>)
        ensures
            out == self.of(stream),
    {
        match stream {
            Stream::Header => self.header,
            Stream::ParaHeader => self.para_header,
            Stream::StorageChanges => self.storage_changes,
        }
    }

    /// Replaces the number of one stream.
    pub fn set(&mut self, stream: Stream, cursor: Option<BlockNumber>)
        ensures
            *final(self) == old(self).with(stream, cursor),
    {
        match stream {
            Stream::Header => self.header = cursor,
            Stream::ParaHeader => self.para_header = cursor,
            Stream::StorageChanges => self.storage_changes = cursor,
        }
    }
}

/// The progress record as the contracts speak of it.
pub ghost struct MetadataView {
    /// The genesis heights that have been bootstrapped, in the order in which
    /// they were.
    pub genesis: Seq<BlockNumber>,
    /// Per stream, the highest block known ingested when the last iteration
    /// ended.
    pub recent_imported: BlockNumbers,
    /// Per stream, the highest block ingested.
    pub highest: BlockNumbers,
    /// Per stream, the highest block up to which the headers have been
    /// verified.
    pub checked: BlockNumbers,
}

impl MetadataView {
    /// The record of a crawler that has done nothing yet.
    pub open spec fn empty() -> MetadataView {
        MetadataView {
            genesis: Seq::empty(),
            recent_imported: BlockNumbers::none(),
            highest: BlockNumbers::none(),
            checked: BlockNumbers::none(),
        }
    }

    /// For one stream: nothing is verified that was not known ingested, and
    /// nothing is known ingested beyond the highest block ingested.
    pub open spec fn ordered(self, stream: Stream) -> bool {
        level(self.checked.of(stream)) <= level(self.recent_imported.of(stream)) <= level(
            self.highest.of(stream),
        )
    }

    /// The record's invariant: every stream is ordered, and no genesis height
    /// is listed twice.
    pub open spec fn consistent(self) -> bool {
        &&& self.ordered(Stream::Header)
        &&& self.ordered(Stream::ParaHeader)
        &&& self.ordered(Stream::StorageChanges)
        &&& self.genesis.no_duplicates()
    }

    /// The record after `block` of `stream` was ingested: the stream's highest
    /// block is the larger of `block` and what it was.
    pub open spec fn ingest(self, stream: Stream, block: BlockNumber) -> MetadataView {
        let reached = if level(self.highest.of(stream)) < block {
            block
        } else {
            self.highest.of(stream)->0
        };
        MetadataView { highest: self.highest.with(stream, Some(reached)), ..self }
    }

    /// The record at the end of an iteration: what has been ingested is now
    /// known ingested.
    pub open spec fn settle(self) -> MetadataView {
        MetadataView { recent_imported: self.highest, ..self }
    }

    /// The record after the headers of `stream` were verified up to `to`.
    pub open spec fn mark_checked(self, stream: Stream, to: BlockNumber) -> MetadataView {
        MetadataView { checked: self.checked.with(stream, Some(to)), ..self }
    }

    /// The record after the genesis of `height` was bootstrapped: `height` is
    /// listed, once.
    pub open spec fn put_genesis(self, height: BlockNumber) -> MetadataView {
        if self.genesis.contains(height) {
            self
        } else {
            MetadataView { genesis: self.genesis.push(height), ..self }
        }
    }
}

/// Listing a genesis height lists none twice.
pub proof fn lemma_put_genesis_keeps_distinct(m: MetadataView, height: BlockNumber)
    requires
        m.genesis.no_duplicates(),
    ensures
        m.put_genesis(height).genesis.no_duplicates(),
        m.put_genesis(height).genesis.contains(height),
{
    if !m.genesis.contains(height) {
        let listed = m.genesis.push(height);
        assert(listed[m.genesis.len() as int] == height);
        assert forall|i: int, j: int| 0 <= i < listed.len() && 0 <= j < listed.len() && i
            != j implies listed[i] != listed[j] by {
            if i < m.genesis.len() && j < m.genesis.len() {
                assert(m.genesis[i] != m.genesis[j]);
            } else if i < m.genesis.len() {
                assert(m.genesis.contains(m.genesis[i]));
            } else {
                assert(m.genesis.contains(m.genesis[j]));
            }
        }
    }
}

/// The progress record. It is loaded once when the crawler starts, changed
/// in memory, and persisted after every change.
#[derive(Clone, Debug, PartialEq, Eq)]
pub struct Metadata {
    pub genesis: Vec<BlockNumber>,
    pub recent_imported: BlockNumbers,
    pub highest: BlockNumbers,
    pub checked: BlockNumbers,
}

impl View for Metadata {
    type V = MetadataView;

    open spec fn view(&self) -> MetadataView {
        MetadataView {
            genesis: self.genesis@,
            recent_imported: self.recent_imported,
            highest: self.highest,
            checked: self.checked,
        }
    }
}

fn not_past(a: Option<BlockNumber>, b: Option<BlockNumber>) -> (out: bool)
    ensures
        out == (level(a) <= level(b)),
{
    match (a, b) {
        (None, _) => true,
        (Some(_), None) => false,
        (Some(x), Some(y)) => x <= y,
    }
}

fn distinct(list: &Vec<BlockNumber>) -> (out: bool)
    ensures
        out == list@.no_duplicates(),
{
    let mut i: usize = 0;
    while i < list.len()
        invariant
            i <= list.len(),
            forall|a: int, b: int| 0 <= a < i && 0 <= b < list.len() && a != b ==> list@[a] != list@[b],
        decreases list.len() - i,
    {
        let mut j: usize = i + 1;
        while j < list.len()
            invariant
                i < j <= list.len(),
                forall|b: int| i < b < j ==> list@[i as int] != list@[b],
            decreases list.len() - j,
        {
            if list[i] == list[j] {
                return false;
            }
            j += 1;
        }
        i += 1;
    }
    true
}

impl Default for Metadata {
    fn default() -> (out: Metadata)
        ensures
            out@ == MetadataView::empty(),
    {
        Metadata::new()
    }
}

impl Metadata {
    /// The record of a crawler that has done nothing yet.
    pub fn new() -> (out: Metadata)
        ensures
            out@ == MetadataView::empty(),
            out@.consistent(),
    {
        Metadata {
            genesis: Vec::new(),
            recent_imported: BlockNumbers::new(),
            highest: BlockNumbers::new(),
            checked: BlockNumbers::new(),
        }
    }

    /// Tells whether the record is consistent. A record that was consistent
    /// stays so under every change that this crate makes to it; a record
    /// that was read from a store can be held to it with this.
    pub fn is_consistent(&self) -> (out: bool)
        ensures
            out == self@.consistent(),
    {
        not_past(self.checked.header, self.recent_imported.header) && not_past(
            self.recent_imported.header,
            self.highest.header,
        ) && not_past(self.checked.para_header, self.recent_imported.para_header) && not_past(
            self.recent_imported.para_header,
            self.highest.para_header,
        ) && not_past(self.checked.storage_changes, self.recent_imported.storage_changes)
            && not_past(self.recent_imported.storage_changes, self.highest.storage_changes)
            && distinct(&self.genesis)
    }

    /// Records that `block` of `stream` was ingested.
    pub fn update(&mut self, stream: Stream, block: BlockNumber)
        ensures
            final(self)@ == old(self)@.ingest(stream, block),
            old(self)@.consistent() ==> final(self)@.consistent(),
            level(old(self)@.highest.of(stream)) <= level(final(self)@.highest.of(stream)),
            block <= level(final(self)@.highest.of(stream)),
    {
        let reached = match self.highest.get(stream) {
            Some(highest) => if highest < block {
                block
            } else {
                highest
            },
            None => block,
        };
        self.highest.set(stream, Some(reached));
    }

    /// Records that the relay chain header of `block` was ingested.
    pub fn update_header(&mut self, block: BlockNumber)
        ensures
            final(self)@ == old(self)@.ingest(Stream::Header, block),
            old(self)@.consistent() ==> final(self)@.consistent(),
    {
        self.update(Stream::Header, block)
    }

    /// Records that the parachain header of `block` was ingested.
    pub fn update_para_header(&mut self, block: BlockNumber)
        ensures
            final(self)@ == old(self)@.ingest(Stream::ParaHeader, block),
            old(self)@.consistent() ==> final(self)@.consistent(),
    {
        self.update(Stream::ParaHeader, block)
    }

    /// Records that the storage changes of `block` were ingested.
    pub fn update_storage_changes(&mut self, block: BlockNumber)
        ensures
            final(self)@ == old(self)@.ingest(Stream::StorageChanges, block),
            old(self)@.consistent() ==> final(self)@.consistent(),
    {
        self.update(Stream::StorageChanges, block)
    }

    /// Tells whether the genesis of `height` has been bootstrapped.
    pub fn has_genesis(&self, height: BlockNumber) -> (out: bool)
        ensures
            out == self@.genesis.contains(height),
    {
        let mut i: usize = 0;
        while i < self.genesis.len()
            invariant
                i <= self.genesis.len(),
                forall|k: int| 0 <= k < i ==> self.genesis@[k] != height,
            decreases self.genesis.len() - i,
        {
            if self.genesis[i] == height {
                return true;
            }
            i += 1;
        }
        false
    }

    /// Records that the genesis of `height` was bootstrapped.
    pub fn put_genesis(&mut self, height: BlockNumber)
        ensures
            final(self)@ == old(self)@.put_genesis(height),
            final(self)@.genesis.contains(height),
            old(self)@.consistent() ==> final(self)@.consistent(),
    {
        if !self.has_genesis(height) {
            self.genesis.push(height);
        }
        proof {
            assert(self@.genesis == old(self)@.put_genesis(height).genesis);
            if old(self)@.genesis.no_duplicates() {
                lemma_put_genesis_keeps_distinct(old(self)@, height);
            } else if !old(self)@.genesis.contains(height) {
                assert(self@.genesis[old(self)@.genesis.len() as int] == height);
            }
        }
    }

    /// Ends an iteration: what has been ingested is from now on known
    /// ingested, and may be verified.
    pub fn settle(&mut self)
        ensures
            final(self)@ == old(self)@.settle(),
            old(self)@.consistent() ==> final(self)@.consistent(),
    {
        self.recent_imported = self.highest;
    }

    /// Records that the headers of `stream` were verified up to `to`.
    ///
    /// The record stays consistent where `to` is not beyond what is known
    /// ingested of the stream.
    pub fn mark_checked(&mut self, stream: Stream, to: BlockNumber)
        ensures
            final(self)@ == old(self)@.mark_checked(stream, to),
            old(self)@.consistent() && to <= level(old(self)@.recent_imported.of(stream))
                ==> final(self)@.consistent(),
    {
        self.checked.set(stream, Some(to));
    }
}

} // verus!

//! The crawler's state and the decisions of its grabbers: what to fetch next
//! for each stream, whether it may be fetched yet, and how the record of
//! progress moves as items arrive.

use crate::check::{
    check_and_fix_headers, repair_enabled, CheckAction, CheckKind, CheckPass, PassState, Phase,
};
use crate::config::Serve;
use crate::header::BlockNumber;
use crate::metadata::{
    lemma_put_genesis_keeps_distinct, level, BlockNumbers, Metadata, MetadataView, Stream,
};
use vstd::prelude::*;

verus! {

/// A request for relay chain headers with their justifications.
#[derive(Clone, Copy, Debug, PartialEq, Eq)]
pub struct HeadersRequest {
    /// The first block to fetch.
    pub start: BlockNumber,
    /// The largest number of headers to fetch.
    pub count: BlockNumber,
    /// The justification interval that the grab is made with.
    pub justification_interval: BlockNumber,
}

/// A request for parachain headers.
#[derive(Clone, Copy, Debug, PartialEq, Eq)]
pub struct ParaHeadersRequest {
    /// The first block to fetch.
    pub start: BlockNumber,
    /// The number of headers to fetch.
    pub count: BlockNumber,
}

/// A request for the storage changes of parachain blocks.
#[derive(Clone, Copy, Debug, PartialEq, Eq)]
pub struct StorageChangesRequest {
    /// The first block to fetch.
    pub start: BlockNumber,
    /// The number of blocks to fetch.
    pub count: BlockNumber,
    /// The largest number of blocks that one call to the node covers.
    pub batch_size: BlockNumber,
}

/// A range of stored headers to verify: the blocks after `from` up to `to`.
#[derive(Clone, Copy, Debug, PartialEq, Eq)]
pub struct CheckWindow {
    pub from: BlockNumber,
    pub to: BlockNumber,
}

/// An item that was stored and recorded as ingested, and whose stream's
/// cursor has not moved yet. Only [`Crawler::stored`] makes one, and
/// [`Crawler::persisted`] takes it: no cursor moves past a block that was
/// not recorded.
#[derive(Debug)]
pub struct Pending {
    stream: Stream,
    number: BlockNumber,
}

impl View for Pending {
    type V = (Stream, BlockNumber);

    closed spec fn view(&self) -> (Stream, BlockNumber) {
        (self.stream, self.number)
    }
}

impl Pending {
    /// The stream of the item.
    pub fn stream(&self) -> (out: Stream)
        ensures
            out == self@.0,
    {
        self.stream
    }

    /// The block of the item.
    pub fn number(&self) -> (out: BlockNumber)
        ensures
            out == self@.1,
    {
        self.number
    }
}

/// The number of the finalized head, 0 where the node has no header for it.
pub fn finalized_header_number(header_number: Option<BlockNumber>) -> (out: BlockNumber)
    ensures
        out == match header_number {
            Some(number) => number,
            None => 0,
        },
{
    match header_number {
        Some(number) => number,
        None => 0,
    }
}

/// The block at which a stream goes on: the one after the highest block
/// ingested, and `first` where nothing has been ingested.
pub open spec fn resume_at(highest: Option<BlockNumber>, first: BlockNumber) -> int {
    match highest {
        Some(block) => block + 1,
        None => first as int,
    }
}

/// The block at which a stream starts where nothing has been ingested: the
/// genesis height for the relay chain's headers, block 0 for the parachain's
/// streams.
pub open spec fn first_block(config: Serve, stream: Stream) -> BlockNumber {
    match stream {
        Stream::Header => config.genesis_block,
        _ => 0,
    }
}

/// The stream whose headers a pass of this kind verifies.
pub open spec fn stream_of(kind: CheckKind) -> Stream {
    match kind {
        CheckKind::Relay => Stream::Header,
        CheckKind::Para => Stream::ParaHeader,
    }
}

/// The range that the next verify pass of a stream covers, if there is one.
///
/// It starts at the block verified last, and at `first`, the stream's first
/// block, where none has been.
/// It ends at the highest block known ingested, but no more than
/// `check_batch` blocks after its start. There is no pass where that leaves
/// no block.
pub open spec fn window(
    checked: Option<BlockNumber>,
    recent_imported: Option<BlockNumber>,
    first: BlockNumber,
    check_batch: BlockNumber,
) -> Option<CheckWindow> {
    let from = match checked {
        Some(block) => block,
        None => first,
    };
    let known = match recent_imported {
        Some(block) => block as int,
        None => 0,
    };
    let to = if known < from + check_batch {
        known
    } else {
        from + check_batch
    };
    if from < to {
        Some(CheckWindow { from, to: to as BlockNumber })
    } else {
        None
    }
}

/// The crawler's state: the record of progress and, for each stream, the
/// block to fetch next.
#[derive(Clone, Debug, PartialEq, Eq)]
pub struct Crawler {
    pub metadata: Metadata,
    pub next_header: BlockNumber,
    pub next_para_header: BlockNumber,
    pub next_delta: BlockNumber,
}

/// The crawler's state as the contracts speak of it.
pub ghost struct CrawlerView {
    pub metadata: MetadataView,
    pub next: BlockNumbers,
}

impl View for Crawler {
    type V = CrawlerView;

    open spec fn view(&self) -> CrawlerView {
        CrawlerView {
            metadata: self.metadata@,
            next: BlockNumbers {
                header: Some(self.next_header),
                para_header: Some(self.next_para_header),
                storage_changes: Some(self.next_delta),
            },
        }
    }
}

impl CrawlerView {
    /// The state in which a crawler starts with the record that was
    /// persisted last: each stream goes on after the highest block ingested,
    /// and at its first block where nothing has been.
    pub open spec fn resumed(metadata: MetadataView, config: Serve) -> CrawlerView {
        CrawlerView {
            metadata,
            next: BlockNumbers {
                header: Some(
                    resume_at(metadata.highest.header, first_block(config, Stream::Header))
                        as BlockNumber,
                ),
                para_header: Some(
                    resume_at(
                        metadata.highest.para_header,
                        first_block(config, Stream::ParaHeader),
                    ) as BlockNumber,
                ),
                storage_changes: Some(
                    resume_at(
                        metadata.highest.storage_changes,
                        first_block(config, Stream::StorageChanges),
                    ) as BlockNumber,
                ),
            },
        }
    }

    /// The block of `stream` to fetch next.
    pub open spec fn next_of(self, stream: Stream) -> BlockNumber {
        self.next.of(stream)->0
    }

    /// The cursor of `stream` is past the highest block ingested.
    pub open spec fn aligned(self, stream: Stream) -> bool {
        level(self.metadata.highest.of(stream)) < self.next_of(stream)
    }

    /// The state after the item of block `number` was stored: it is recorded
    /// as ingested, and the cursor has not moved.
    pub open spec fn stored(self, stream: Stream, number: BlockNumber) -> CrawlerView {
        CrawlerView { metadata: self.metadata.ingest(stream, number), ..self }
    }

    /// The state after the record that holds block `number` was persisted:
    /// the cursor is past the block.
    pub open spec fn persisted(self, stream: Stream, number: BlockNumber) -> CrawlerView {
        CrawlerView { next: self.next.with(stream, Some((number + 1) as BlockNumber)), ..self }
    }

    /// The state after one item was ingested: stored, recorded, persisted.
    pub open spec fn took(self, stream: Stream, number: BlockNumber) -> CrawlerView {
        self.stored(stream, number).persisted(stream, number)
    }

    /// The state after the items of these blocks were ingested one after the
    /// other.
    pub open spec fn took_all(self, stream: Stream, numbers: Seq<BlockNumber>) -> CrawlerView
        decreases numbers.len(),
    {
        if numbers.len() == 0 {
            self
        } else {
            self.took_all(stream, numbers.drop_last()).took(stream, numbers.last())
        }
    }

    /// The range of headers to verify next for one stream, if there is one.
    pub open spec fn check_window(self, config: Serve, kind: CheckKind) -> Option<CheckWindow> {
        window(
            self.metadata.checked.of(stream_of(kind)),
            self.metadata.recent_imported.of(stream_of(kind)),
            first_block(config, stream_of(kind)),
            config.check_batch,
        )
    }

    /// The state after a pass over a range that ends at `to` went well.
    pub open spec fn checked(self, kind: CheckKind, to: BlockNumber) -> CrawlerView {
        CrawlerView { metadata: self.metadata.mark_checked(stream_of(kind), to), ..self }
    }

    /// The state at the end of an iteration.
    pub open spec fn settle(self) -> CrawlerView {
        CrawlerView { metadata: self.metadata.settle(), ..self }
    }

    /// The state after the genesis of `height` was bootstrapped.
    pub open spec fn genesis_stored(self, height: BlockNumber) -> CrawlerView {
        CrawlerView { metadata: self.metadata.put_genesis(height), ..self }
    }

    /// The genesis height to bootstrap, if any.
    pub open spec fn genesis_due(self, config: Serve) -> Option<BlockNumber> {
        if self.metadata.genesis.contains(config.genesis_block) {
            None
        } else {
            Some(config.genesis_block)
        }
    }
}

/// These blocks come in the order in which a grab delivers them: none is
/// before `start`, each is after the one before it, and a cursor can move
/// past each.
pub open spec fn delivered_in_order(numbers: Seq<BlockNumber>, start: BlockNumber) -> bool {
    &&& forall|i: int| 0 <= i < numbers.len() ==> start <= #[trigger] numbers[i] < u32::MAX
    &&& forall|i: int, j: int| 0 <= i < j < numbers.len() ==> numbers[i] < numbers[j]
}

impl Crawler {
    /// The crawler's state when it starts with the record that was persisted
    /// last: each stream goes on after the highest block ingested. Where
    /// nothing has been ingested, the relay chain headers start at the
    /// genesis height and the parachain's streams at block 0.
    pub fn resume(metadata: Metadata, config: &Serve) -> (out: Crawler)
        requires
            level(metadata@.highest.header) < u32::MAX,
            level(metadata@.highest.para_header) < u32::MAX,
            level(metadata@.highest.storage_changes) < u32::MAX,
        ensures
            out.metadata == metadata,
            out@ == CrawlerView::resumed(metadata@, *config),
            out.next_header == resume_at(metadata@.highest.header, config.genesis_block),
            out.next_para_header == resume_at(metadata@.highest.para_header, 0),
            out.next_delta == resume_at(metadata@.highest.storage_changes, 0),
            out@.aligned(Stream::Header),
            out@.aligned(Stream::ParaHeader),
            out@.aligned(Stream::StorageChanges),
    {
        let next_header: BlockNumber = match metadata.highest.header {
            Some(highest) => highest + 1,
            None => config.genesis_block,
        };
        let next_para_header: BlockNumber = match metadata.highest.para_header {
            Some(highest) => highest + 1,
            None => 0,
        };
        let next_delta: BlockNumber = match metadata.highest.storage_changes {
            Some(highest) => highest + 1,
            None => 0,
        };
        Crawler { metadata, next_header, next_para_header, next_delta }
    }

    /// The genesis height to bootstrap now: the configured one, unless it has
    /// been bootstrapped.
    pub fn genesis_due(&self, config: &Serve) -> (out: Option<BlockNumber>)
        ensures
            out == self@.genesis_due(*config),
    {
        if self.metadata.has_genesis(config.genesis_block) {
            None
        } else {
            Some(config.genesis_block)
        }
    }

    /// Records that the genesis of `height` was fetched and stored. The
    /// record is to be persisted next.
    pub fn genesis_stored(&mut self, height: BlockNumber)
        ensures
            final(self)@ == old(self)@.genesis_stored(height),
            final(self)@.metadata.genesis.contains(height),
            old(self)@.metadata.consistent() ==> final(self)@.metadata.consistent(),
    {
        self.metadata.put_genesis(height);
    }

    /// The relay chain headers to grab now, given the number of the relay
    /// chain's finalized head.
    ///
    /// Nothing is grabbed where the stream is switched off, nor before the
    /// finalized head is `justification_interval` blocks past the next
    /// header. Otherwise as many headers as there are are asked for, from the
    /// next header on.
    pub fn grab_headers(&self, config: &Serve, latest_finalized: BlockNumber) -> (out: Option<
        HeadersRequest,
    >)
        ensures
            out == if config.grab_headers && latest_finalized >= self.next_header
                + config.justification_interval {
                Some(
                    HeadersRequest {
                        start: self.next_header,
                        count: u32::MAX,
                        justification_interval: config.justification_interval,
                    },
                )
            } else {
                None
            },
    {
        if !config.grab_headers {
            return None;
        }
        if (latest_finalized as u64) < self.next_header as u64
            + config.justification_interval as u64 {
            return None;
        }
        Some(
            HeadersRequest {
                start: self.next_header,
                count: u32::MAX,
                justification_interval: config.justification_interval,
            },
        )
    }

    /// The parachain headers to grab now, given the number of the
    /// parachain's finalized head.
    ///
    /// Nothing is grabbed where the stream is switched off, nor while the
    /// finalized head is before the next header. Otherwise every header from
    /// the next one up to the finalized head is asked for.
    pub fn grab_para_headers(&self, config: &Serve, latest_finalized: BlockNumber) -> (out: Option<
        ParaHeadersRequest,
    >)
        requires
            latest_finalized - self.next_para_header + 1 <= u32::MAX,
        ensures
            out == if config.grab_para_headers && latest_finalized >= self.next_para_header {
                Some(
                    ParaHeadersRequest {
                        start: self.next_para_header,
                        count: (latest_finalized - self.next_para_header + 1) as BlockNumber,
                    },
                )
            } else {
                None
            },
    {
        if !config.grab_para_headers || latest_finalized < self.next_para_header {
            return None;
        }
        Some(
            ParaHeadersRequest {
                start: self.next_para_header,
                count: latest_finalized - self.next_para_header + 1,
            },
        )
    }

    /// The storage changes to grab now, given the number of the parachain's
    /// finalized head.
    ///
    /// Nothing is grabbed where the stream is switched off, nor while the
    /// finalized head is before the next block. Otherwise every block from
    /// the next one up to the finalized head is asked for, to be fetched in
    /// batches of the configured size.
    pub fn grab_storage_changes(&self, config: &Serve, latest_finalized: BlockNumber) -> (out:
        Option<StorageChangesRequest>)
        requires
            latest_finalized - self.next_delta + 1 <= u32::MAX,
        ensures
            out == if config.grab_storage_changes && latest_finalized >= self.next_delta {
                Some(
                    StorageChangesRequest {
                        start: self.next_delta,
                        count: (latest_finalized - self.next_delta + 1) as BlockNumber,
                        batch_size: config.grab_storage_changes_batch,
                    },
                )
            } else {
                None
            },
    {
        if !config.grab_storage_changes || latest_finalized < self.next_delta {
            return None;
        }
        Some(
            StorageChangesRequest {
                start: self.next_delta,
                count: latest_finalized - self.next_delta + 1,
                batch_size: config.grab_storage_changes_batch,
            },
        )
    }

    /// Records that the item of block `number` of `stream` was stored. The
    /// record is to be persisted next; the stream's cursor does not move
    /// before it has been.
    pub fn stored(&mut self, stream: Stream, number: BlockNumber) -> (out: Pending)
        ensures
            final(self)@ == old(self)@.stored(stream, number),
            old(self)@.metadata.consistent() ==> final(self)@.metadata.consistent(),
            out@ == (stream, number),
    {
        self.metadata.update(stream, number);
        Pending { stream, number }
    }

    /// Moves the cursor of an item's stream past its block, after the record
    /// that holds the block has been persisted.
    pub fn persisted(&mut self, item: Pending)
        requires
            item@.1 < u32::MAX,
        ensures
            final(self)@ == old(self)@.persisted(item@.0, item@.1),
            final(self)@.next_of(item@.0) == item@.1 + 1,
            final(self).metadata == old(self).metadata,
    {
        let number = item.number;
        match item.stream {
            Stream::Header => self.next_header = number + 1,
            Stream::ParaHeader => self.next_para_header = number + 1,
            Stream::StorageChanges => self.next_delta = number + 1,
        }
    }

    /// The range of headers to verify next for one stream, if there is one.
    pub fn check_window(&self, config: &Serve, kind: CheckKind) -> (out: Option<CheckWindow>)
        ensures
            out == self@.check_window(*config, kind),
            out matches Some(w) ==> {
                &&& w.from < w.to
                &&& w.to - w.from <= config.check_batch
                &&& w.to <= level(self.metadata@.recent_imported.of(stream_of(kind)))
                &&& level(self.metadata@.checked.of(stream_of(kind))) <= w.from
            },
    {
        let (checked, recent_imported, first) = match kind {
            CheckKind::Relay => (
                self.metadata.checked.header,
                self.metadata.recent_imported.header,
                config.genesis_block,
            ),
            CheckKind::Para => (
                self.metadata.checked.para_header,
                self.metadata.recent_imported.para_header,
                0,
            ),
        };
        let from: BlockNumber = match checked {
            Some(block) => block,
            None => first,
        };
        let known: BlockNumber = match recent_imported {
            Some(block) => block,
            None => 0,
        };
        let limit: u64 = from as u64 + config.check_batch as u64;
        let to: BlockNumber = if (known as u64) < limit {
            known
        } else {
            limit as BlockNumber
        };
        if from < to {
            Some(CheckWindow { from, to })
        } else {
            None
        }
    }

    /// Starts the verify pass that is due for one stream, if one is: a pass
    /// over the range that [`Crawler::check_window`] gives.
    pub fn continue_check_headers(&self, config: &Serve, kind: CheckKind) -> (out: Option<
        (CheckPass, CheckAction),
    >)
        ensures
            match self@.check_window(*config, kind) {
                Some(w) => {
                    &&& out matches Some((pass, action))
                    &&& pass@ == PassState::initial(
                        kind,
                        repair_enabled(*config, kind),
                        w.from,
                        w.to,
                    )
                    &&& pass@.inv()
                    &&& action == CheckAction::Load { block: w.from }
                },
                None => out is None,
            },
    {
        match self.check_window(config, kind) {
            Some(w) => match check_and_fix_headers(config, kind.name(), w.from, Some(w.to), None) {
                Ok(started) => Some(started),
                Err(_) => None,
            },
            None => None,
        }
    }

    /// Records how a pass ended. Where it finished, the headers of its stream
    /// count as verified up to the end of its range, and the record is to be
    /// persisted next. Where it did not, nothing changes, so that the same
    /// range is due again. Tells whether the pass had finished.
    ///
    /// The record stays consistent where the pass was started by
    /// [`Crawler::continue_check_headers`], and whenever its range ends
    /// within what is known ingested.
    pub fn check_ended(&mut self, pass: &CheckPass) -> (out: bool)
        ensures
            out == (pass@.phase is Done),
            final(self)@ == if out {
                old(self)@.checked(pass@.kind, pass@.to)
            } else {
                old(self)@
            },
            old(self)@.metadata.consistent() && pass@.to <= level(
                old(self)@.metadata.recent_imported.of(stream_of(pass@.kind)),
            ) ==> final(self)@.metadata.consistent(),
    {
        match pass.phase() {
            Phase::Done => {
                let stream = match pass.kind() {
                    CheckKind::Relay => Stream::Header,
                    CheckKind::Para => Stream::ParaHeader,
                };
                self.metadata.mark_checked(stream, pass.to());
                true
            },
            _ => false,
        }
    }

    /// Ends an iteration: what has been ingested is from now on known
    /// ingested, and the next iteration may verify it. The record is to be
    /// persisted next.
    pub fn settle(&mut self)
        ensures
            final(self)@ == old(self)@.settle(),
            old(self)@.metadata.consistent() ==> final(self)@.metadata.consistent(),
    {
        self.metadata.settle();
    }
}

/// A change of the crawler's state.
pub ghost enum Change {
    /// An item was stored.
    Stored(Stream, BlockNumber),
    /// The record was persisted after an item.
    Persisted(Stream, BlockNumber),
    /// A genesis was bootstrapped.
    GenesisStored(BlockNumber),
    /// A pass over the range that was due for a stream went well.
    Checked(CheckKind),
    /// An iteration ended.
    Settle,
}

impl CrawlerView {
    /// The state after one change.
    pub open spec fn apply(self, config: Serve, change: Change) -> CrawlerView {
        match change {
            Change::Stored(stream, number) => self.stored(stream, number),
            Change::Persisted(stream, number) => self.persisted(stream, number),
            Change::GenesisStored(height) => self.genesis_stored(height),
            Change::Checked(kind) => match self.check_window(config, kind) {
                Some(w) => self.checked(kind, w.to),
                None => self,
            },
            Change::Settle => self.settle(),
        }
    }

    /// The state after these changes, one after the other.
    pub open spec fn replay(self, config: Serve, changes: Seq<Change>) -> CrawlerView
        decreases changes.len(),
    {
        if changes.len() == 0 {
            self
        } else {
            self.replay(config, changes.drop_last()).apply(config, changes.last())
        }
    }

    /// No cursor of the record is further in `self` than in `later`.
    pub open spec fn not_past(self, later: CrawlerView) -> bool {
        forall|stream: Stream|
            {
                &&& level(#[trigger] self.metadata.checked.of(stream)) <= level(
                    later.metadata.checked.of(stream),
                )
                &&& level(self.metadata.recent_imported.of(stream)) <= level(
                    later.metadata.recent_imported.of(stream),
                )
                &&& level(self.metadata.highest.of(stream)) <= level(
                    later.metadata.highest.of(stream),
                )
            }
    }
}

/// The cursor follows the items: after a grab has delivered the items of
/// these blocks, in order and from the cursor on, the highest block ingested
/// is the last of them and the next block to fetch is the one after it. The
/// other streams, what is verified and what is known ingested are as they
/// were.
pub proof fn lemma_cursor_follows_items(
    c: CrawlerView,
    stream: Stream,
    numbers: Seq<BlockNumber>,
)
    requires
        c.aligned(stream),
        numbers.len() > 0,
        delivered_in_order(numbers, c.next_of(stream)),
    ensures
        c.took_all(stream, numbers).metadata.highest.of(stream) == Some(numbers.last()),
        c.took_all(stream, numbers).next_of(stream) == numbers.last() + 1,
        c.took_all(stream, numbers).aligned(stream),
        c.took_all(stream, numbers).next == c.next.with(
            stream,
            Some((numbers.last() + 1) as BlockNumber),
        ),
        c.took_all(stream, numbers).metadata.highest == c.metadata.highest.with(
            stream,
            Some(numbers.last()),
        ),
        c.took_all(stream, numbers).metadata.checked == c.metadata.checked,
        c.took_all(stream, numbers).metadata.recent_imported == c.metadata.recent_imported,
        c.took_all(stream, numbers).metadata.genesis == c.metadata.genesis,
    decreases numbers.len(),
{
    let earlier = numbers.drop_last();
    if earlier.len() > 0 {
        assert(delivered_in_order(earlier, c.next_of(stream))) by {
            assert forall|i: int| 0 <= i < earlier.len() implies c.next_of(stream)
                <= #[trigger] earlier[i] < u32::MAX by {
                assert(earlier[i] == numbers[i]);
            }
            assert forall|i: int, j: int| 0 <= i < j < earlier.len() implies earlier[i]
                < earlier[j] by {
                assert(earlier[i] == numbers[i]);
                assert(earlier[j] == numbers[j]);
            }
        }
        lemma_cursor_follows_items(c, stream, earlier);
        assert(earlier.last() == numbers[numbers.len() - 2]);
        assert(numbers[numbers.len() - 2] < numbers[numbers.len() - 1]);
    } else {
        assert(c.took_all(stream, earlier) == c);
        assert(c.next_of(stream) <= numbers[0]);
    }
}

/// No cursor falls while a grab delivers: of two moments of the grab, the
/// later one has the stream's cursor and its highest block at least where
/// the earlier one had them.
pub proof fn lemma_cursor_never_falls(
    c: CrawlerView,
    stream: Stream,
    numbers: Seq<BlockNumber>,
    i: int,
    j: int,
)
    requires
        c.aligned(stream),
        delivered_in_order(numbers, c.next_of(stream)),
        0 <= i <= j <= numbers.len(),
    ensures
        c.took_all(stream, numbers.take(i)).next_of(stream) <= c.took_all(
            stream,
            numbers.take(j),
        ).next_of(stream),
        level(c.took_all(stream, numbers.take(i)).metadata.highest.of(stream)) <= level(
            c.took_all(stream, numbers.take(j)).metadata.highest.of(stream),
        ),
{
    let first = numbers.take(i);
    let second = numbers.take(j);
    assert(delivered_in_order(first, c.next_of(stream))) by {
        assert forall|k: int| 0 <= k < first.len() implies c.next_of(stream)
            <= #[trigger] first[k] < u32::MAX by {
            assert(first[k] == numbers[k]);
        }
        assert forall|k: int, l: int| 0 <= k < l < first.len() implies first[k] < first[l] by {
            assert(first[k] == numbers[k]);
            assert(first[l] == numbers[l]);
        }
    }
    assert(delivered_in_order(second, c.next_of(stream))) by {
        assert forall|k: int| 0 <= k < second.len() implies c.next_of(stream)
            <= #[trigger] second[k] < u32::MAX by {
            assert(second[k] == numbers[k]);
        }
        assert forall|k: int, l: int| 0 <= k < l < second.len() implies second[k]
            < second[l] by {
            assert(second[k] == numbers[k]);
            assert(second[l] == numbers[l]);
        }
    }
    if i == 0 {
        assert(c.took_all(stream, first) == c);
        if j > 0 {
            lemma_cursor_follows_items(c, stream, second);
            assert(second.last() == numbers[j - 1]);
        }
    } else {
        lemma_cursor_follows_items(c, stream, first);
        lemma_cursor_follows_items(c, stream, second);
        assert(first.last() == numbers[i - 1]);
        assert(second.last() == numbers[j - 1]);
    }
}

/// The genesis is bootstrapped once: after it has been, it is not due, and
/// bootstrapping it again would change nothing.
pub proof fn lemma_genesis_once(c: CrawlerView, config: Serve)
    ensures
        c.genesis_stored(config.genesis_block).genesis_due(config) is None,
        c.genesis_stored(config.genesis_block).genesis_stored(config.genesis_block)
            == c.genesis_stored(config.genesis_block),
        c.genesis_due(config) is None ==> c.genesis_stored(config.genesis_block) == c,
{
    let height = config.genesis_block;
    if !c.metadata.genesis.contains(height) {
        let listed = c.metadata.genesis.push(height);
        assert(listed[c.metadata.genesis.len() as int] == height);
        assert(listed.contains(height));
    }
}

/// A pass over the range that is due keeps the record consistent and moves
/// the stream's verified cursor forward, to a block that is known ingested
/// and no more than `check_batch` blocks on.
pub proof fn lemma_window_is_bounded(c: CrawlerView, config: Serve, kind: CheckKind)
    requires
        c.metadata.consistent(),
        c.check_window(config, kind) is Some,
    ensures
        ({
            let w = c.check_window(config, kind)->0;
            let stream = stream_of(kind);
            &&& c.checked(kind, w.to).metadata.consistent()
            &&& level(c.metadata.checked.of(stream)) <= w.from < w.to
            &&& w.to <= level(c.metadata.recent_imported.of(stream))
            &&& w.to <= level(c.metadata.highest.of(stream))
            &&& w.to - w.from <= config.check_batch
        }),
{
}

/// The record stays consistent and no cursor in it falls, whatever the
/// crawler does and in whatever order.
pub proof fn lemma_record_stays_consistent(c: CrawlerView, config: Serve, changes: Seq<Change>)
    requires
        c.metadata.consistent(),
    ensures
        c.replay(config, changes).metadata.consistent(),
        c.not_past(c.replay(config, changes)),
    decreases changes.len(),
{
    if changes.len() > 0 {
        lemma_record_stays_consistent(c, config, changes.drop_last());
        let before = c.replay(config, changes.drop_last());
        let after = before.apply(config, changes.last());
        match changes.last() {
            Change::Stored(stream, number) => {},
            Change::Persisted(stream, number) => {},
            Change::GenesisStored(height) => {
                lemma_put_genesis_keeps_distinct(before.metadata, height);
            },
            Change::Checked(kind) => {
                if before.check_window(config, kind) is Some {
                    lemma_window_is_bounded(before, config, kind);
                }
            },
            Change::Settle => {},
        }
        assert(after.metadata.consistent());
        assert(before.not_past(after)) by {
            assert forall|stream: Stream|
                {
                    &&& level(#[trigger] before.metadata.checked.of(stream)) <= level(
                        after.metadata.checked.of(stream),
                    )
                    &&& level(before.metadata.recent_imported.of(stream)) <= level(
                        after.metadata.recent_imported.of(stream),
                    )
                    &&& level(before.metadata.highest.of(stream)) <= level(
                        after.metadata.highest.of(stream),
                    )
                } by {
                match changes.last() {
                    Change::Checked(kind) => {
                        if before.check_window(config, kind) is Some {
                            lemma_window_is_bounded(before, config, kind);
                        }
                    },
                    _ => {},
                }
            }
        }
        assert(c.not_past(after)) by {
            assert forall|stream: Stream|
                {
                    &&& level(#[trigger] c.metadata.checked.of(stream)) <= level(
                        after.metadata.checked.of(stream),
                    )
                    &&& level(c.metadata.recent_imported.of(stream)) <= level(
                        after.metadata.recent_imported.of(stream),
                    )
                    &&& level(c.metadata.highest.of(stream)) <= level(
                        after.metadata.highest.of(stream),
                    )
                } by {
                assert(level(c.metadata.checked.of(stream)) <= level(
                    before.metadata.checked.of(stream),
                ));
                assert(level(before.metadata.checked.of(stream)) <= level(
                    after.metadata.checked.of(stream),
                ));
            }
        }
    } else {
        assert(c.replay(config, changes) == c);
    }
}

} // verus!

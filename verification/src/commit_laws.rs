//! What a crash leaves intact: the order in which an item is committed keeps
//! the persisted record behind the store and the cursor behind the persisted
//! record, whenever the crawler is stopped.

use crate::config::Serve;
use crate::grab::{first_block, resume_at, CrawlerView};
use crate::header::BlockNumber;
use crate::metadata::{level, MetadataView, Stream};
use vstd::prelude::*;

verus! {

/// What outlasts a crash: the items in the store's tables and the record of
/// progress as it was persisted last.
pub ghost struct Durable {
    pub items: Set<(Stream, BlockNumber)>,
    pub metadata: MetadataView,
}

/// The crawler in its host: what is in the store and what is in memory.
pub ghost struct Host {
    pub durable: Durable,
    pub crawler: CrawlerView,
}

/// A step of the host.
pub ghost enum HostStep {
    /// An item is written to its table.
    PutItem(Stream, BlockNumber),
    /// The item is recorded as ingested, in memory.
    Record(Stream, BlockNumber),
    /// The record is persisted as it stands in memory.
    PutMetadata,
    /// The cursor moves past the item.
    Advance(Stream, BlockNumber),
    /// The process is stopped and started anew: memory is lost, and the
    /// crawler resumes from the persisted record.
    Restart,
}

impl Host {
    /// Whether the order of a commit allows a step: an item is recorded once
    /// it is in the store, and a cursor moves past it once the persisted
    /// record holds it. The items that are recorded are those that a grab
    /// delivers: none is before the cursor.
    pub open spec fn allows(self, step: HostStep) -> bool {
        match step {
            HostStep::PutItem(_, _) => true,
            HostStep::Record(stream, number) => {
                &&& self.durable.items.contains((stream, number))
                &&& self.crawler.next_of(stream) <= number
            },
            HostStep::PutMetadata => true,
            HostStep::Advance(stream, number) => {
                &&& number < u32::MAX
                &&& number <= level(self.durable.metadata.highest.of(stream))
            },
            HostStep::Restart => {
                &&& level(self.durable.metadata.highest.header) < u32::MAX
                &&& level(self.durable.metadata.highest.para_header) < u32::MAX
                &&& level(self.durable.metadata.highest.storage_changes) < u32::MAX
            },
        }
    }

    /// The host after a step. A step that the order does not allow is not
    /// taken.
    pub open spec fn after(self, config: Serve, step: HostStep) -> Host {
        if !self.allows(step) {
            self
        } else {
            match step {
                HostStep::PutItem(stream, number) => Host {
                    durable: Durable {
                        items: self.durable.items.insert((stream, number)),
                        ..self.durable
                    },
                    ..self
                },
                HostStep::Record(stream, number) => Host {
                    crawler: self.crawler.stored(stream, number),
                    ..self
                },
                HostStep::PutMetadata => Host {
                    durable: Durable { metadata: self.crawler.metadata, ..self.durable },
                    ..self
                },
                HostStep::Advance(stream, number) => Host {
                    crawler: self.crawler.persisted(stream, number),
                    ..self
                },
                HostStep::Restart => Host {
                    crawler: CrawlerView::resumed(self.durable.metadata, config),
                    ..self
                },
            }
        }
    }

    /// The host after these steps, one after the other.
    pub open spec fn run(self, config: Serve, steps: Seq<HostStep>) -> Host
        decreases steps.len(),
    {
        if steps.len() == 0 {
            self
        } else {
            self.run(config, steps.drop_last()).after(config, steps.last())
        }
    }

    /// For one stream: the highest block of the persisted record and that of
    /// the record in memory are blocks whose items are in the store, the
    /// record in memory is not behind the persisted one, and the cursor is
    /// not ahead of where a restart would resume, now or once the record in
    /// memory is persisted.
    pub open spec fn safe_for(self, config: Serve, stream: Stream) -> bool {
        &&& self.durable.metadata.highest.of(stream) matches Some(block)
            ==> self.durable.items.contains((stream, block))
        &&& self.crawler.metadata.highest.of(stream) matches Some(block)
            ==> self.durable.items.contains((stream, block))
        &&& level(self.durable.metadata.highest.of(stream)) <= level(
            self.crawler.metadata.highest.of(stream),
        )
        &&& self.crawler.next_of(stream) <= resume_at(
            self.durable.metadata.highest.of(stream),
            first_block(config, stream),
        )
        &&& self.crawler.next_of(stream) <= resume_at(
            self.crawler.metadata.highest.of(stream),
            first_block(config, stream),
        )
    }

    /// The same for every stream.
    pub open spec fn safe(self, config: Serve) -> bool {
        &&& self.safe_for(config, Stream::Header)
        &&& self.safe_for(config, Stream::ParaHeader)
        &&& self.safe_for(config, Stream::StorageChanges)
    }

    /// A crawler that has just started with what the store holds.
    pub open spec fn started(durable: Durable, config: Serve) -> Host {
        Host { durable, crawler: CrawlerView::resumed(durable.metadata, config) }
    }
}

impl Durable {
    /// The persisted record is not ahead of the store: the highest block
    /// that it gives for a stream is a block whose item is in the store.
    pub open spec fn behind_store(self, stream: Stream) -> bool {
        self.metadata.highest.of(stream) matches Some(block) ==> self.items.contains(
            (stream, block),
        )
    }
}

/// A crawler starts safe wherever the persisted record is not ahead of the
/// store.
pub proof fn lemma_start_is_safe(durable: Durable, config: Serve)
    requires
        durable.behind_store(Stream::Header),
        durable.behind_store(Stream::ParaHeader),
        durable.behind_store(Stream::StorageChanges),
        level(durable.metadata.highest.header) < u32::MAX,
        level(durable.metadata.highest.para_header) < u32::MAX,
        level(durable.metadata.highest.storage_changes) < u32::MAX,
    ensures
        Host::started(durable, config).safe(config),
{
}

/// No step breaks safety, a restart no more than any other.
pub proof fn lemma_step_keeps_safe(h: Host, config: Serve, step: HostStep)
    requires
        h.safe(config),
    ensures
        h.after(config, step).safe(config),
{
    if h.allows(step) {
        let after = h.after(config, step);
        assert(after.safe_for(config, Stream::Header));
        assert(after.safe_for(config, Stream::ParaHeader));
        assert(after.safe_for(config, Stream::StorageChanges));
    }
}

/// The persisted record is never ahead of the store, and no cursor is ahead
/// of the persisted record: whatever the host does, in whatever order and
/// with whatever restarts in between, as long as it records an item only
/// after storing it and moves a cursor only after persisting the record, and
/// the items are none before the cursor.
pub proof fn lemma_commit_is_crash_safe(h: Host, config: Serve, steps: Seq<HostStep>)
    requires
        h.safe(config),
    ensures
        h.run(config, steps).safe(config),
    decreases steps.len(),
{
    if steps.len() > 0 {
        lemma_commit_is_crash_safe(h, config, steps.drop_last());
        lemma_step_keeps_safe(h.run(config, steps.drop_last()), config, steps.last());
    }
}

/// A restart resumes where the store allows: right after a block whose item
/// is in the store, or at the stream's first block where the persisted record
/// holds none, and never before the place where the cursor stood. The store
/// is as it was.
pub proof fn lemma_restart_resumes_behind_the_store(h: Host, config: Serve, stream: Stream)
    requires
        h.safe(config),
        h.allows(HostStep::Restart),
    ensures
        h.crawler.next_of(stream) <= h.after(config, HostStep::Restart).crawler.next_of(stream),
        h.durable.metadata.highest.of(stream) matches Some(block) ==> {
            &&& h.after(config, HostStep::Restart).crawler.next_of(stream) == block + 1
            &&& h.durable.items.contains((stream, block))
        },
        h.durable.metadata.highest.of(stream) is None ==> h.after(
            config,
            HostStep::Restart,
        ).crawler.next_of(stream) == first_block(config, stream),
        h.after(config, HostStep::Restart).durable == h.durable,
{
    match stream {
        Stream::Header => {
            assert(h.safe_for(config, Stream::Header));
        },
        Stream::ParaHeader => {
            assert(h.safe_for(config, Stream::ParaHeader));
        },
        Stream::StorageChanges => {
            assert(h.safe_for(config, Stream::StorageChanges));
        },
    }
}

} // verus!

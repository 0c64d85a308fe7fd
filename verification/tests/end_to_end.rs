use std::collections::HashMap;

use headers_cache::check::{CheckAction, CheckError, CheckEvent, CheckKind, RefetchRequest, Refetched};
use headers_cache::config::Serve;
use headers_cache::crawl::Stage;
use headers_cache::grab::{finalized_header_number, Crawler};
use headers_cache::header::Header;
use headers_cache::metadata::{BlockNumbers, Metadata, Stream};
use headers_cache::observed::{genesis_block, latest_justification, Observed};
use parity_scale_codec::Encode;
use sp_runtime::generic::{Digest, Header as ChainHeader};
use sp_runtime::traits::BlakeTwo256;

type Raw = ChainHeader<u32, BlakeTwo256>;

fn config() -> Serve {
    Serve {
        node_uri: String::from("ws://relay.example:9944"),
        para_node_uri: String::from("ws://para.example:9944"),
        genesis_block: 1000,
        grab_headers: true,
        grab_para_headers: true,
        grab_storage_changes: true,
        interval: 6,
        justification_interval: 10,
        check_batch: 1000,
        grab_storage_changes_batch: 100,
    }
}

fn plain(raw: &Raw) -> Header {
    Header { number: raw.number, parent_hash: raw.parent_hash.0, hash: raw.hash().0 }
}

/// A chain whose blocks each build on the one before.
struct Node {
    salt: u8,
    finalized: Option<u32>,
    blocks: Vec<Raw>,
    requests: Vec<String>,
}

impl Node {
    fn new(salt: u8, last: u32, finalized: Option<u32>) -> Node {
        let mut blocks: Vec<Raw> = Vec::new();
        let mut parent = [salt; 32];
        for number in 0..=last {
            let block = Raw {
                parent_hash: parent.into(),
                number,
                state_root: [salt; 32].into(),
                extrinsics_root: [salt; 32].into(),
                digest: Digest::default(),
            };
            parent = block.hash().0;
            blocks.push(block);
        }
        Node { salt, finalized, blocks, requests: Vec::new() }
    }

    fn finalized_head(&mut self) -> Option<u32> {
        self.requests.push(String::from("finalized"));
        self.finalized
    }

    /// Blocks from `start` on, `count` at most, none within `margin` of the finalized head.
    fn range(&mut self, what: &str, start: u32, count: u32, margin: u32) -> Vec<Raw> {
        self.requests.push(format!("{what} {start} {count}"));
        let finalized = self.finalized.unwrap_or(0) as u64;
        self.blocks
            .iter()
            .filter(|b| {
                let n = b.number as u64;
                n >= start as u64 && n < start as u64 + count as u64 && n + margin as u64 <= finalized
            })
            .cloned()
            .collect()
    }
}

#[derive(Default)]
struct Store {
    genesis: HashMap<u32, Vec<u8>>,
    headers: HashMap<u32, Vec<u8>>,
    para_headers: HashMap<u32, Vec<u8>>,
    storage_changes: HashMap<u32, Vec<u8>>,
    metadata: Option<Metadata>,
    metadata_writes: usize,
    fail_para_headers: bool,
}

impl Store {
    fn put_metadata(&mut self, metadata: &Metadata) {
        let level = |c: Option<u32>| c.map(|n| n as i64).unwrap_or(-1);
        for stream in [Stream::Header, Stream::ParaHeader, Stream::StorageChanges] {
            assert!(level(metadata.checked.get(stream)) <= level(metadata.recent_imported.get(stream)));
            assert!(level(metadata.recent_imported.get(stream)) <= level(metadata.highest.get(stream)));
            let before = self.metadata.as_ref();
            assert!(level(before.and_then(|m| m.highest.get(stream))) <= level(metadata.highest.get(stream)));
            assert!(level(before.and_then(|m| m.checked.get(stream))) <= level(metadata.checked.get(stream)));
        }
        self.metadata = Some(metadata.clone());
        self.metadata_writes += 1;
    }
}

struct Host {
    config: Serve,
    relay: Node,
    para: Node,
    store: Store,
    observed: Observed,
    crawler: Crawler,
    genesis_fetches: Vec<u32>,
    check_reports: Vec<Result<String, CheckError>>,
    stages: Vec<Stage>,
}

impl Host {
    fn start(config: Serve, relay: Node, para: Node, store: Store) -> Host {
        let metadata = store.metadata.clone().unwrap_or_default();
        let crawler = Crawler::resume(metadata, &config);
        let mut observed = Observed::new();
        observed.set_genesis(config.genesis_block);
        Host {
            config,
            relay,
            para,
            store,
            observed,
            crawler,
            genesis_fetches: Vec::new(),
            check_reports: Vec::new(),
            stages: Vec::new(),
        }
    }

    fn genesis(&mut self) -> bool {
        if let Some(height) = self.crawler.genesis_due(&self.config) {
            self.genesis_fetches.push(height);
            self.store.genesis.insert(height, vec![self.relay.salt; 4]);
            self.crawler.genesis_stored(height);
            self.store.put_metadata(&self.crawler.metadata);
        }
        true
    }

    fn headers(&mut self) -> bool {
        let finalized = finalized_header_number(self.relay.finalized_head());
        let Some(request) = self.crawler.grab_headers(&self.config, finalized) else {
            return true;
        };
        let items =
            self.relay.range("headers", request.start, request.count, request.justification_interval + 1);
        let last = items.last().map(|b| b.number);
        for item in items {
            let justified = Some(item.number) == last;
            self.observed.note_header(item.number, justified);
            self.store.headers.insert(item.number, item.encode());
            let pending = self.crawler.stored(Stream::Header, item.number);
            self.store.put_metadata(&self.crawler.metadata);
            self.crawler.persisted(pending);
        }
        true
    }

    fn para_headers(&mut self) -> bool {
        let finalized = finalized_header_number(self.para.finalized_head());
        let Some(request) = self.crawler.grab_para_headers(&self.config, finalized) else {
            return true;
        };
        for item in self.para.range("para headers", request.start, request.count, 0) {
            if self.store.fail_para_headers && item.number == 3 {
                return false;
            }
            self.store.para_headers.insert(item.number, item.encode());
            let pending = self.crawler.stored(Stream::ParaHeader, item.number);
            self.store.put_metadata(&self.crawler.metadata);
            self.crawler.persisted(pending);
        }
        true
    }

    fn storage_changes(&mut self) -> bool {
        let finalized = finalized_header_number(self.para.finalized_head());
        let Some(request) = self.crawler.grab_storage_changes(&self.config, finalized) else {
            return true;
        };
        assert_eq!(request.batch_size, self.config.grab_storage_changes_batch);
        for item in self.para.range("storage changes", request.start, request.count, 0) {
            self.store.storage_changes.insert(item.number, vec![item.number as u8]);
            let pending = self.crawler.stored(Stream::StorageChanges, item.number);
            self.store.put_metadata(&self.crawler.metadata);
            self.crawler.persisted(pending);
        }
        true
    }

    fn refetch(&mut self, kind: CheckKind, number: u32) -> Refetched {
        let (node, table, start) = match kind.refetch_request(number) {
            RefetchRequest::Headers(r) => (&mut self.relay, &mut self.store.headers, r.start),
            RefetchRequest::ParaHeaders(r) => (&mut self.para, &mut self.store.para_headers, r.start),
        };
        let mut delivered = None;
        for item in node.range("again", start, 1, 0) {
            table.insert(item.number, item.encode());
            delivered = Some(plain(&item));
        }
        Refetched::of(true, delivered)
    }

    fn check(&mut self, kind: CheckKind) -> bool {
        let Some((mut pass, mut action)) = self.crawler.continue_check_headers(&self.config, kind)
        else {
            return true;
        };
        loop {
            let next = match action {
                CheckAction::Load { block } => {
                    let table = match kind {
                        CheckKind::Relay => &self.store.headers,
                        CheckKind::Para => &self.store.para_headers,
                    };
                    pass.on_record(table.get(&block).cloned())
                }
                CheckAction::Refetch { number } => {
                    let outcome = self.refetch(kind, number);
                    pass.step(CheckEvent::Refetched(outcome))
                }
                CheckAction::Finished { .. } => {
                    self.check_reports.push(Ok(pass.summary()));
                    assert!(self.crawler.check_ended(&pass));
                    self.store.put_metadata(&self.crawler.metadata);
                    return true;
                }
                CheckAction::Failed(error) => {
                    self.check_reports.push(Err(error));
                    assert!(!self.crawler.check_ended(&pass));
                    return false;
                }
            };
            pass = next.0;
            action = next.1;
        }
    }

    /// One iteration of the crawl loop, up to its sleep.
    fn iterate(&mut self, from: Stage) -> Stage {
        let mut stage = from;
        loop {
            self.stages.push(stage);
            let ok = match stage {
                Stage::Connect => true,
                Stage::Genesis => self.genesis(),
                Stage::Headers => self.headers(),
                Stage::ParaHeaders => self.para_headers(),
                Stage::StorageChanges => self.storage_changes(),
                Stage::CheckRelay => self.check(CheckKind::Relay),
                Stage::CheckPara => self.check(CheckKind::Para),
                Stage::Settle => {
                    self.crawler.settle();
                    self.store.put_metadata(&self.crawler.metadata);
                    true
                }
                Stage::Sleep { .. } => return stage.advance(true),
            };
            stage = stage.advance(ok);
        }
    }
}

fn numbers(header: Option<u32>, para_header: Option<u32>, storage_changes: Option<u32>) -> BlockNumbers {
    BlockNumbers { header, para_header, storage_changes }
}

#[test]
fn first_iteration_ingests_up_to_the_finalized_heads() {
    let relay = Node::new(1, 1100, Some(1050));
    let para = Node::new(2, 1100, Some(1050));
    let mut host = Host::start(config(), relay, para, Store::default());
    assert_eq!(genesis_block(&host.observed), 1000);

    let next = host.iterate(Stage::first());
    assert_eq!(next, Stage::Headers);
    assert_eq!(
        host.stages,
        vec![
            Stage::Connect,
            Stage::Genesis,
            Stage::Headers,
            Stage::ParaHeaders,
            Stage::StorageChanges,
            Stage::CheckRelay,
            Stage::CheckPara,
            Stage::Settle,
            Stage::Sleep { reconnect: false },
        ]
    );

    let metadata = host.crawler.metadata.clone();
    assert_eq!(metadata.highest, numbers(Some(1039), Some(1050), Some(1050)));
    assert_eq!(metadata.checked, numbers(None, None, None));
    assert_eq!(metadata.recent_imported, metadata.highest);
    assert_eq!(metadata.genesis, vec![1000]);
    assert_eq!(host.genesis_fetches, vec![1000]);
    assert_eq!(host.store.genesis.len(), 1);
    assert_eq!(
        (host.crawler.next_header, host.crawler.next_para_header, host.crawler.next_delta),
        (1040, 1051, 1051)
    );
    assert_eq!(host.store.headers.len(), 40);
    assert!((1000..=1039).all(|n| host.store.headers.contains_key(&n)));
    assert_eq!(host.store.para_headers.len(), 1051);
    assert_eq!(host.store.storage_changes.len(), 1051);
    assert_eq!(host.store.metadata, Some(metadata));
    // One write for the genesis, one for each item, one at the end of the iteration.
    assert_eq!(host.store.metadata_writes, 1 + 40 + 1051 + 1051 + 1);
    assert_eq!(latest_justification(&host.observed), 1039);
    assert!(host.check_reports.is_empty());
    assert_eq!(host.relay.requests, vec!["finalized", "headers 1000 4294967295"]);
    assert_eq!(
        host.para.requests,
        vec!["finalized", "para headers 0 1051", "finalized", "storage changes 0 1051"]
    );
}

#[test]
fn second_iteration_verifies_what_the_first_ingested() {
    let relay = Node::new(1, 1100, Some(1050));
    let para = Node::new(2, 1100, Some(1050));
    let mut host = Host::start(config(), relay, para, Store::default());
    let next = host.iterate(Stage::first());

    // Nothing new is finalized: the second iteration grabs nothing and verifies.
    let next = host.iterate(next);
    assert_eq!(next, Stage::Headers);
    assert_eq!(host.genesis_fetches, vec![1000]);
    assert_eq!(
        host.check_reports,
        vec![
            Ok(String::from("Checked blocks from 1000 to 1039, All OK")),
            Ok(String::from("Checked blocks from 0 to 1000, All OK")),
        ]
    );
    assert_eq!(host.crawler.metadata.checked, numbers(Some(1039), Some(1000), None));
    assert_eq!(host.crawler.metadata.highest, numbers(Some(1039), Some(1050), Some(1050)));

    // The third one goes on where the second stopped, and no further than what is ingested.
    host.relay.finalized = Some(1070);
    host.iterate(next);
    assert_eq!(host.crawler.metadata.highest, numbers(Some(1059), Some(1050), Some(1050)));
    assert_eq!(host.crawler.metadata.recent_imported, host.crawler.metadata.highest);
    assert_eq!(host.crawler.metadata.checked, numbers(Some(1039), Some(1050), None));
    assert_eq!(
        host.check_reports[2..],
        [Ok(String::from("Checked blocks from 1000 to 1050, All OK"))]
    );
    host.iterate(next);
    assert_eq!(host.crawler.metadata.checked, numbers(Some(1059), Some(1050), None));
}

#[test]
fn crawler_resumes_from_the_persisted_record() {
    let relay = Node::new(1, 1100, Some(1050));
    let para = Node::new(2, 1100, Some(1050));
    let mut host = Host::start(config(), relay, para, Store::default());
    host.store.fail_para_headers = true;

    // The store fails at parachain block 3: the iteration ends there.
    let next = host.iterate(Stage::first());
    assert_eq!(next, Stage::Connect);
    assert_eq!(
        host.stages,
        vec![
            Stage::Connect,
            Stage::Genesis,
            Stage::Headers,
            Stage::ParaHeaders,
            Stage::Sleep { reconnect: true },
        ]
    );
    assert_eq!(host.crawler.metadata.highest, numbers(Some(1039), Some(2), None));
    assert_eq!(host.crawler.metadata.recent_imported, numbers(None, None, None));
    assert_eq!(host.crawler.next_para_header, 3);

    // A new process starts from what was persisted, and fetches no genesis again.
    let mut store = std::mem::take(&mut host.store);
    store.fail_para_headers = false;
    let relay = Node::new(1, 1100, Some(1050));
    let para = Node::new(2, 1100, Some(1050));
    let mut host = Host::start(config(), relay, para, store);
    assert_eq!(
        (host.crawler.next_header, host.crawler.next_para_header, host.crawler.next_delta),
        (1040, 3, 0)
    );
    host.iterate(Stage::first());
    assert!(host.genesis_fetches.is_empty());
    assert_eq!(host.crawler.metadata.highest, numbers(Some(1039), Some(1050), Some(1050)));
    assert_eq!(host.para.requests[1], "para headers 3 1048");
    assert_eq!(host.crawler.metadata.genesis, vec![1000]);
}

#[test]
fn unfinalized_chain_is_left_alone() {
    let relay = Node::new(1, 1100, Some(1005));
    let para = Node::new(2, 1100, None);
    let mut cfg = config();
    cfg.grab_storage_changes = false;
    let mut host = Host::start(cfg, relay, para, Store::default());
    host.iterate(Stage::first());
    // The relay head is within the margin; the parachain reports no header, which counts as 0.
    assert_eq!(host.crawler.metadata.highest, numbers(None, Some(0), None));
    assert_eq!(host.relay.requests, vec!["finalized"]);
    assert_eq!(host.para.requests, vec!["finalized", "para headers 0 1", "finalized"]);
    assert!(host.store.headers.is_empty());
    assert_eq!(host.crawler.next_header, 1000);
    assert_eq!(latest_justification(&host.observed), u32::MAX);
}

#[test]
fn broken_link_stops_the_verified_cursor() {
    let relay = Node::new(1, 1100, Some(1050));
    let para = Node::new(2, 1100, Some(12));
    let mut cfg = config();
    cfg.grab_headers = false;
    cfg.grab_storage_changes = false;
    let mut host = Host::start(cfg, relay, para, Store::default());
    let next = host.iterate(Stage::first());
    host.crawler.metadata.mark_checked(Stream::ParaHeader, 10);

    // Block 12 of the parachain is from another fork, in the store and on the chain.
    host.para.blocks[12].parent_hash = [0xee; 32].into();
    let forked = host.para.blocks[12].clone();
    host.store.para_headers.insert(12, forked.encode());
    host.iterate(next);
    assert_eq!(host.check_reports, vec![Err(CheckError::CannotFixMismatch(12))]);
    assert_eq!(host.check_reports[0].clone().unwrap_err().message(), "Cannot fix mismatch at 12");
    assert_eq!(host.crawler.metadata.checked.para_header, Some(10));
    assert_eq!(host.store.metadata.as_ref().unwrap().checked.para_header, Some(10));
    assert_eq!(*host.stages.last().unwrap(), Stage::Sleep { reconnect: false });

    // Once the chain has settled, the same range is verified and repaired.
    host.para.blocks[12].parent_hash = host.para.blocks[11].hash();
    host.iterate(next);
    assert_eq!(
        host.check_reports[1],
        Ok(String::from("Checked blocks from 10 to 12, 1 mismatches, 0 codec errors"))
    );
    assert_eq!(host.crawler.metadata.checked.para_header, Some(12));
}

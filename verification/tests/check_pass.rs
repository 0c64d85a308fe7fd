use std::collections::HashMap;

use headers_cache::check::{
    check_and_fix_headers, classify, CheckAction, CheckError, CheckEvent, CheckKind, Phase,
    Refetched, RegrabCause, Stored,
};
use headers_cache::config::Serve;
use headers_cache::header::Header;
use parity_scale_codec::Encode;
use sp_runtime::generic::{Digest, Header as ChainHeader};
use sp_runtime::traits::BlakeTwo256;

type Raw = ChainHeader<u32, BlakeTwo256>;

fn config(grab_headers: bool, grab_para_headers: bool) -> Serve {
    Serve {
        node_uri: String::from("ws://relay.example:9944"),
        para_node_uri: String::from("ws://para.example:9944"),
        genesis_block: 0,
        grab_headers,
        grab_para_headers,
        grab_storage_changes: true,
        interval: 6,
        justification_interval: 10,
        check_batch: 1000,
        grab_storage_changes_batch: 100,
    }
}

fn raw(number: u32, parent_hash: [u8; 32], salt: u8) -> Raw {
    Raw {
        parent_hash: parent_hash.into(),
        number,
        state_root: [salt; 32].into(),
        extrinsics_root: [salt.wrapping_add(1); 32].into(),
        digest: Digest::default(),
    }
}

fn plain(raw: &Raw) -> Header {
    Header { number: raw.number, parent_hash: raw.parent_hash.0, hash: raw.hash().0 }
}

/// Headers `first..=last`, each built on the one before it.
fn chain_of(first: u32, last: u32) -> Vec<Raw> {
    let mut out: Vec<Raw> = Vec::new();
    let mut parent = [7u8; 32];
    for number in first..=last {
        let header = raw(number, parent, number as u8);
        parent = header.hash().0;
        out.push(header);
    }
    out
}

/// A relay record: the header, followed by what else the crawler stores with it.
fn relay_record(header: &Raw) -> Vec<u8> {
    let mut bytes = header.encode();
    bytes.extend_from_slice(&[0u8, 0u8]);
    bytes
}

struct Host {
    store: HashMap<u32, Vec<u8>>,
    chain: HashMap<u32, Raw>,
    reachable: bool,
    loads: Vec<u32>,
    refetches: Vec<u32>,
}

impl Host {
    fn new(stored: &[Raw], chain: &[Raw]) -> Host {
        Host {
            store: stored.iter().map(|h| (h.number, relay_record(h))).collect(),
            chain: chain.iter().map(|h| (h.number, h.clone())).collect(),
            reachable: true,
            loads: Vec::new(),
            refetches: Vec::new(),
        }
    }

    fn refetch(&mut self, number: u32) -> Refetched {
        self.refetches.push(number);
        if !self.reachable {
            return Refetched::Failed;
        }
        match self.chain.get(&number) {
            Some(header) => {
                self.store.insert(header.number, relay_record(header));
                Refetched::Header(plain(header))
            }
            None => Refetched::Nothing,
        }
    }

    /// Runs a pass to its end, as the crawler's host does.
    fn check(
        &mut self,
        config: &Serve,
        what: &str,
        from: u32,
        to: Option<u32>,
        count: Option<u32>,
    ) -> Result<String, CheckError> {
        let (mut pass, mut action) = check_and_fix_headers(config, what, from, to, count)?;
        loop {
            let next = match action {
                CheckAction::Load { block } => {
                    self.loads.push(block);
                    pass.on_record(self.store.get(&block).cloned())
                }
                CheckAction::Refetch { number } => {
                    let outcome = self.refetch(number);
                    pass.step(CheckEvent::Refetched(outcome))
                }
                CheckAction::Finished { mismatches, codec_errors } => {
                    assert_eq!(mismatches, pass.mismatches());
                    assert_eq!(codec_errors, pass.codec_errors());
                    assert_eq!(pass.phase(), Phase::Done);
                    return Ok(pass.summary());
                }
                CheckAction::Failed(error) => {
                    assert_eq!(pass.phase(), Phase::Failed);
                    return Err(error);
                }
            };
            pass = next.0;
            action = next.1;
        }
    }

    fn stored_header(&self, block: u32) -> Header {
        match classify(self.store.get(&block).cloned()) {
            Stored::Decoded(header) => header,
            other => panic!("block {} holds {:?}", block, other),
        }
    }
}

#[test]
fn clean_range_is_all_ok() {
    let headers = chain_of(100, 200);
    let mut host = Host::new(&headers, &headers);
    let summary = host.check(&config(true, true), "relay", 100, Some(200), None);
    assert_eq!(summary, Ok(String::from("Checked blocks from 100 to 200, All OK")));
    assert_eq!(host.loads, (100..=200).collect::<Vec<u32>>());
    assert!(host.refetches.is_empty());
}

#[test]
fn undecodable_record_is_repaired() {
    let headers = chain_of(10, 12);
    let mut host = Host::new(&headers, &headers);
    host.store.insert(11, vec![0xff, 0xff, 0xff]);
    let summary = host.check(&config(true, true), "relay", 10, Some(12), None);
    assert_eq!(
        summary,
        Ok(String::from("Checked blocks from 10 to 12, 0 mismatches, 1 codec errors"))
    );
    assert_eq!(host.refetches, vec![11]);
    let h10 = host.stored_header(10);
    let h11 = host.stored_header(11);
    let h12 = host.stored_header(12);
    assert_eq!(h11.parent_hash, h10.hash);
    assert_eq!(h12.parent_hash, h11.hash);
    assert_eq!((h10.number, h11.number, h12.number), (10, 11, 12));
}

#[test]
fn stale_record_is_repaired_with_its_predecessor() {
    let headers = chain_of(10, 13);
    let mut stored = headers.clone();
    // Block 12 was stored from a fork: it decodes, but names another parent.
    stored[2] = raw(12, [0xaa; 32], 0x55);
    let mut host = Host::new(&stored, &headers);
    let summary = host.check(&config(true, true), "relay", 10, Some(13), None);
    assert_eq!(
        summary,
        Ok(String::from("Checked blocks from 10 to 13, 1 mismatches, 0 codec errors"))
    );
    assert_eq!(host.refetches, vec![11, 12]);
    assert_eq!(host.stored_header(12), plain(&headers[2]));
    assert_eq!(host.stored_header(13).parent_hash, host.stored_header(12).hash);
}

#[test]
fn both_findings_are_counted() {
    let headers = chain_of(100, 200);
    let mut stored = headers.clone();
    stored[20] = raw(120, [1; 32], 9);
    stored[60] = raw(160, [2; 32], 9);
    let mut host = Host::new(&stored, &headers);
    host.store.insert(150, Vec::new());
    let summary = host.check(&config(true, true), "relay", 100, Some(200), None);
    assert_eq!(
        summary,
        Ok(String::from("Checked blocks from 100 to 200, 2 mismatches, 1 codec errors"))
    );
    assert_eq!(host.refetches, vec![119, 120, 150, 159, 160]);
}

#[test]
fn repaired_record_that_does_not_fit_is_a_mismatch_too() {
    let headers = chain_of(10, 12);
    let mut host = Host::new(&headers, &headers);
    host.store.insert(11, vec![1, 2, 3]);
    // The first answer for block 11 is from a fork; the chain settles afterwards.
    let fork = raw(11, [3; 32], 3);
    let (pass, action) =
        check_and_fix_headers(&config(true, true), "relay", 10, Some(12), None).unwrap();
    assert_eq!(action, CheckAction::Load { block: 10 });
    let (pass, action) = pass.on_record(host.store.get(&10).cloned());
    assert_eq!(action, CheckAction::Load { block: 11 });
    let (pass, action) = pass.on_record(host.store.get(&11).cloned());
    assert_eq!(action, CheckAction::Refetch { number: 11 });
    assert_eq!(pass.phase(), Phase::AwaitRepair { prev: plain(&headers[0]) });
    let (pass, action) = pass.step(CheckEvent::Refetched(Refetched::Header(plain(&fork))));
    assert_eq!(action, CheckAction::Refetch { number: 10 });
    assert_eq!((pass.mismatches(), pass.codec_errors()), (1, 1));
    let (pass, action) = pass.step(CheckEvent::Refetched(Refetched::Header(plain(&headers[0]))));
    assert_eq!(action, CheckAction::Refetch { number: 11 });
    let (pass, action) = pass.step(CheckEvent::Refetched(Refetched::Header(plain(&headers[1]))));
    assert_eq!(action, CheckAction::Load { block: 12 });
    let (pass, action) = pass.on_record(host.store.get(&12).cloned());
    assert_eq!(action, CheckAction::Finished { mismatches: 1, codec_errors: 1 });
    assert_eq!(pass.summary(), "Checked blocks from 10 to 12, 1 mismatches, 1 codec errors");
}

#[test]
fn unrepairable_mismatch_fails() {
    let mut headers = chain_of(10, 12);
    // Block 12 names a parent that is not block 11, in the store and on the chain.
    headers[2] = raw(12, [0xbb; 32], 0x12);
    let mut host = Host::new(&headers, &headers);
    let outcome = host.check(&config(true, true), "relay", 10, Some(12), None);
    assert_eq!(outcome, Err(CheckError::CannotFixMismatch(12)));
    assert_eq!(outcome.unwrap_err().message(), "Cannot fix mismatch at 12");
    assert_eq!(host.refetches, vec![11, 12]);
    assert_eq!(host.loads, vec![10, 11, 12]);
}

#[test]
fn refetch_goes_by_the_numbers_that_the_headers_give() {
    let headers = chain_of(10, 12);
    let mut stored = headers.clone();
    // The record at block 12 holds a header that calls itself block 40.
    stored[2] = raw(40, [0xcc; 32], 1);
    let mut host = Host::new(&headers, &headers);
    host.store.insert(12, relay_record(&stored[2]));
    let outcome = host.check(&config(true, true), "relay", 10, Some(12), None);
    assert_eq!(host.refetches, vec![11, 40]);
    assert_eq!(outcome, Err(CheckError::NothingGrabbed(CheckKind::Relay)));
}

#[test]
fn range_is_given_by_end_or_by_count() {
    let headers = chain_of(5, 9);
    let mut host = Host::new(&headers, &headers);
    let cfg = config(true, true);
    assert_eq!(
        host.check(&cfg, "relay", 5, None, Some(3)),
        Ok(String::from("Checked blocks from 5 to 8, All OK"))
    );
    assert_eq!(
        host.check(&cfg, "relay", 5, None, None),
        Ok(String::from("Checked blocks from 5 to 6, All OK"))
    );
    assert_eq!(
        host.check(&cfg, "relay", 5, Some(7), Some(1)),
        Ok(String::from("Checked blocks from 5 to 7, All OK"))
    );
}

#[test]
fn invalid_range_is_refused() {
    let cfg = config(true, true);
    for (from, to, count) in [
        (10, Some(10), None),
        (10, Some(9), None),
        (10, Some(0), Some(5)),
        (10, None, Some(0)),
        (u32::MAX, None, None),
        (u32::MAX, None, Some(7)),
        (1, None, Some(u32::MAX)),
        (0, Some(0), None),
    ] {
        let outcome = check_and_fix_headers(&cfg, "relay", from, to, count);
        assert_eq!(outcome.err(), Some(CheckError::InvalidRange), "{from} {to:?} {count:?}");
    }
    // The range is looked at before the name.
    assert_eq!(
        check_and_fix_headers(&cfg, "nothing", 3, Some(3), None).err(),
        Some(CheckError::InvalidRange)
    );
    assert!(check_and_fix_headers(&cfg, "relay", 0, None, Some(u32::MAX)).is_ok());
    assert!(check_and_fix_headers(&cfg, "para", u32::MAX - 1, None, None).is_ok());
}

#[test]
fn unknown_check_type_is_refused() {
    let cfg = config(true, true);
    for what in ["", "Relay", "relay ", "storage", "parachain", "par"] {
        let outcome = check_and_fix_headers(&cfg, what, 1, Some(2), None);
        assert_eq!(outcome.err(), Some(CheckError::UnknownCheckType(String::from(what))));
    }
    assert_eq!(CheckKind::parse("relay"), Some(CheckKind::Relay));
    assert_eq!(CheckKind::parse("para"), Some(CheckKind::Para));
    assert_eq!(CheckKind::parse("delta"), None);
}

#[test]
fn missing_records_are_fatal() {
    let headers = chain_of(10, 12);
    let cfg = config(true, true);

    let mut host = Host::new(&headers, &headers);
    host.store.remove(&10);
    assert_eq!(host.check(&cfg, "relay", 10, Some(12), None), Err(CheckError::HeaderNotFound(10)));
    assert_eq!(host.check(&cfg, "para", 10, Some(12), None), Err(CheckError::HeaderNotFound(10)));

    let mut host = Host::new(&headers, &headers);
    host.store.remove(&12);
    assert_eq!(host.check(&cfg, "relay", 10, Some(12), None), Err(CheckError::HeaderNotFound(12)));
    assert_eq!(
        host.check(&cfg, "para", 10, Some(12), None),
        Err(CheckError::ParaHeaderNotFound(12))
    );
    assert!(host.refetches.is_empty());
}

#[test]
fn undecodable_start_is_fatal() {
    let headers = chain_of(10, 12);
    let mut host = Host::new(&headers, &headers);
    host.store.insert(10, vec![9; 20]);
    let outcome = host.check(&config(true, true), "relay", 10, Some(12), None);
    assert_eq!(outcome, Err(CheckError::DecodeFailed(10)));
    assert!(host.refetches.is_empty());
    assert_eq!(host.loads, vec![10]);
}

#[test]
fn repair_needs_the_stream_enabled() {
    let headers = chain_of(10, 12);

    let mut host = Host::new(&headers, &headers);
    host.store.insert(11, vec![0]);
    let outcome = host.check(&config(false, true), "relay", 10, Some(12), None);
    assert_eq!(outcome, Err(CheckError::GrabDisabled(CheckKind::Relay)));
    assert!(host.refetches.is_empty());

    let mut stored = headers.clone();
    stored[1] = raw(11, [0; 32], 0);
    let mut host = Host::new(&stored, &headers);
    let outcome = host.check(&config(true, false), "para", 10, Some(12), None);
    let error = CheckError::RegrabFailed(CheckKind::Para, 10, RegrabCause::Disabled);
    assert_eq!(outcome, Err(error.clone()));
    assert_eq!(error.message(), "Failed to regrab parachain header");
    assert_eq!(error.source(), Some(CheckError::GrabDisabled(CheckKind::Para)));
    assert!(host.refetches.is_empty());

    // A clean range needs no repair, so it passes with the stream switched off.
    let mut host = Host::new(&headers, &headers);
    let outcome = host.check(&config(false, false), "relay", 10, Some(12), None);
    assert_eq!(outcome, Ok(String::from("Checked blocks from 10 to 12, All OK")));
}

#[test]
fn failed_refetch_is_fatal() {
    let headers = chain_of(10, 12);
    let cfg = config(true, true);

    let mut host = Host::new(&headers, &headers);
    host.store.insert(11, vec![0]);
    host.reachable = false;
    assert_eq!(
        host.check(&cfg, "relay", 10, Some(12), None),
        Err(CheckError::RefetchFailed(CheckKind::Relay, 11))
    );

    let mut host = Host::new(&headers, &headers);
    host.store.insert(11, vec![0]);
    host.chain.remove(&11);
    assert_eq!(
        host.check(&cfg, "para", 10, Some(12), None),
        Err(CheckError::NothingGrabbed(CheckKind::Para))
    );

    // After a mismatch the predecessor is fetched first; its failure is reported as such.
    let mut stored = headers.clone();
    stored[2] = raw(12, [4; 32], 4);
    let mut host = Host::new(&stored, &headers);
    host.chain.remove(&11);
    assert_eq!(
        host.check(&cfg, "relay", 10, Some(12), None),
        Err(CheckError::RegrabFailed(CheckKind::Relay, 11, RegrabCause::Nothing))
    );
    assert_eq!(host.refetches, vec![11]);

    let mut host = Host::new(&stored, &headers);
    host.reachable = false;
    assert_eq!(
        host.check(&cfg, "para", 10, Some(12), None),
        Err(CheckError::RegrabFailed(CheckKind::Para, 11, RegrabCause::Failed))
    );

    let mut host = Host::new(&stored, &headers);
    host.chain.remove(&12);
    assert_eq!(
        host.check(&cfg, "relay", 10, Some(12), None),
        Err(CheckError::NothingGrabbed(CheckKind::Relay))
    );
    assert_eq!(host.refetches, vec![11, 12]);
}

#[test]
fn unexpected_events_end_the_pass() {
    let headers = chain_of(10, 12);
    let cfg = config(true, true);
    let h10 = plain(&headers[0]);
    let h11 = plain(&headers[1]);
    let h12 = plain(&headers[2]);

    let (pass, _) = check_and_fix_headers(&cfg, "relay", 10, Some(12), None).unwrap();
    assert_eq!(pass.phase(), Phase::AwaitFrom);
    let (failed, action) = pass.step(CheckEvent::Refetched(Refetched::Header(h10)));
    assert_eq!(action, CheckAction::Failed(CheckError::UnexpectedEvent));
    assert_eq!(failed.phase(), Phase::Failed);
    let (_, action) = failed.step(CheckEvent::Loaded(Stored::Decoded(h10)));
    assert_eq!(action, CheckAction::Failed(CheckError::UnexpectedEvent));

    let (pass, _) = pass.step(CheckEvent::Loaded(Stored::Decoded(h10)));
    let (pass, _) = pass.step(CheckEvent::Loaded(Stored::Decoded(h11)));
    let (done, action) = pass.step(CheckEvent::Loaded(Stored::Decoded(h12)));
    assert_eq!(action, CheckAction::Finished { mismatches: 0, codec_errors: 0 });
    assert_eq!((done.kind(), done.from(), done.to(), done.block()), (CheckKind::Relay, 10, 12, 12));
    let (after, action) = done.step(CheckEvent::Loaded(Stored::Missing));
    assert_eq!(action, CheckAction::Failed(CheckError::UnexpectedEvent));
    assert_eq!(after.phase(), Phase::Failed);
}

#[test]
fn records_decode_by_their_prefix() {
    // The encoding of a header of block 2 with one digest item.
    let encoded: Vec<u8> = vec![
        146, 205, 245, 120, 196, 112, 133, 165, 153, 34, 86, 240, 220, 249, 125, 11, 25, 241, 241,
        201, 222, 77, 95, 227, 12, 58, 206, 97, 145, 182, 229, 219, 8, 88, 19, 72, 51, 123, 15, 62,
        20, 134, 32, 23, 61, 170, 165, 249, 77, 0, 216, 129, 112, 93, 203, 240, 170, 131, 239, 218,
        186, 97, 210, 237, 225, 235, 134, 73, 33, 73, 151, 87, 78, 32, 196, 100, 56, 138, 23, 36,
        32, 210, 84, 3, 104, 43, 187, 184, 12, 73, 104, 49, 200, 204, 31, 143, 13, 4, 0, 4, 54,
    ];
    let expected = Header {
        number: 2,
        parent_hash: <BlakeTwo256 as sp_runtime::traits::Hash>::hash(b"1").0,
        hash: <BlakeTwo256 as sp_runtime::traits::Hash>::hash(&encoded).0,
    };
    assert_eq!(classify(Some(encoded.clone())), Stored::Decoded(expected));

    let mut longer = encoded.clone();
    longer.extend_from_slice(&[1, 2, 3, 4, 5]);
    assert_eq!(classify(Some(longer)), Stored::Decoded(expected));

    let mut shorter = encoded.clone();
    shorter.pop();
    assert_eq!(classify(Some(shorter)), Stored::Undecodable);
    assert_eq!(classify(Some(Vec::new())), Stored::Undecodable);
    assert_eq!(classify(None), Stored::Missing);
}

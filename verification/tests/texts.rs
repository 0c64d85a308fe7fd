use headers_cache::check::{CheckError, CheckKind, RefetchRequest, Refetched, RegrabCause};
use headers_cache::grab::{HeadersRequest, ParaHeadersRequest};
use headers_cache::header::{is_linked, same_hash, Header};
use headers_cache::report::summary;
use headers_cache::text::{decimal_string, push_decimal};

#[test]
fn numbers_are_written_in_decimal() {
    for n in [0u64, 1, 9, 10, 11, 99, 100, 101, 1000, 1039, 65535, 4294967295, u64::MAX] {
        assert_eq!(decimal_string(n), n.to_string());
    }
    assert_eq!(decimal_string(0), "0");
    assert_eq!(decimal_string(4_294_967_295), "4294967295");
    assert_eq!(decimal_string(u64::MAX), "18446744073709551615");
    let mut text = String::from("block ");
    push_decimal(&mut text, 120);
    push_decimal(&mut text, 7);
    assert_eq!(text, "block 1207");
}

#[test]
fn summary_tells_the_findings() {
    assert_eq!(summary(100, 200, 2, 1), "Checked blocks from 100 to 200, 2 mismatches, 1 codec errors");
    assert_eq!(summary(100, 200, 0, 0), "Checked blocks from 100 to 200, All OK");
    assert_eq!(summary(0, 1, 1, 0), "Checked blocks from 0 to 1, 1 mismatches, 0 codec errors");
    assert_eq!(summary(10, 12, 0, 1), "Checked blocks from 10 to 12, 0 mismatches, 1 codec errors");
    assert_eq!(
        summary(0, u32::MAX, u32::MAX, u32::MAX),
        "Checked blocks from 0 to 4294967295, 4294967295 mismatches, 4294967295 codec errors"
    );
}

#[test]
fn errors_have_their_messages() {
    let cases = [
        (CheckError::InvalidRange, "Invalid range"),
        (CheckError::UnknownCheckType(String::from("delta")), "Unknown check type delta"),
        (CheckError::UnknownCheckType(String::new()), "Unknown check type "),
        (CheckError::HeaderNotFound(10), "Header 10 not found"),
        (CheckError::ParaHeaderNotFound(4096), "Parachain header 4096 not found"),
        (CheckError::DecodeFailed(0), "Failed to decode header 0"),
        (CheckError::GrabDisabled(CheckKind::Relay), "Grab headers disabled"),
        (CheckError::GrabDisabled(CheckKind::Para), "Grab parachain headers disabled"),
        (CheckError::RefetchFailed(CheckKind::Relay, 7), "Failed to regrab header"),
        (CheckError::RefetchFailed(CheckKind::Para, 7), "Failed to regrab parachain header"),
        (
            CheckError::RegrabFailed(CheckKind::Relay, 7, RegrabCause::Failed),
            "Failed to regrab header",
        ),
        (
            CheckError::RegrabFailed(CheckKind::Relay, 7, RegrabCause::Disabled),
            "Failed to regrab header",
        ),
        (
            CheckError::RegrabFailed(CheckKind::Para, 7, RegrabCause::Nothing),
            "Failed to regrab parachain header",
        ),
        (CheckError::NothingGrabbed(CheckKind::Relay), "Failed to grab header"),
        (CheckError::NothingGrabbed(CheckKind::Para), "Failed to grab parachain header"),
        (CheckError::CannotFixMismatch(12), "Cannot fix mismatch at 12"),
        (CheckError::UnexpectedEvent, "Unexpected event"),
    ];
    for (error, message) in cases {
        assert_eq!(error.message(), message);
    }
}

#[test]
fn wrapped_errors_give_their_cause() {
    for kind in [CheckKind::Relay, CheckKind::Para] {
        assert_eq!(
            CheckError::RegrabFailed(kind, 3, RegrabCause::Disabled).source(),
            Some(CheckError::GrabDisabled(kind))
        );
        assert_eq!(
            CheckError::RegrabFailed(kind, 3, RegrabCause::Nothing).source(),
            Some(CheckError::NothingGrabbed(kind))
        );
        assert_eq!(CheckError::RegrabFailed(kind, 3, RegrabCause::Failed).source(), None);
        assert_eq!(CheckError::RefetchFailed(kind, 3).source(), None);
        assert_eq!(CheckError::GrabDisabled(kind).source(), None);
    }
    assert_eq!(CheckError::InvalidRange.source(), None);
    assert_eq!(CheckError::CannotFixMismatch(4).source(), None);
}

#[test]
fn streams_have_their_names() {
    assert_eq!(CheckKind::Relay.name(), "relay");
    assert_eq!(CheckKind::Para.name(), "para");
    for kind in [CheckKind::Relay, CheckKind::Para] {
        assert_eq!(CheckKind::parse(kind.name()), Some(kind));
    }
}

#[test]
fn a_block_is_fetched_again_alone() {
    assert_eq!(
        CheckKind::Relay.refetch_request(11),
        RefetchRequest::Headers(HeadersRequest { start: 11, count: 1, justification_interval: 1 })
    );
    assert_eq!(
        CheckKind::Para.refetch_request(u32::MAX),
        RefetchRequest::ParaHeaders(ParaHeadersRequest { start: u32::MAX, count: 1 })
    );
}

#[test]
fn a_failed_grab_has_failed_whatever_it_delivered() {
    let h = Header { number: 3, parent_hash: [2; 32], hash: [3; 32] };
    assert_eq!(Refetched::of(true, Some(h)), Refetched::Header(h));
    assert_eq!(Refetched::of(true, None), Refetched::Nothing);
    assert_eq!(Refetched::of(false, Some(h)), Refetched::Failed);
    assert_eq!(Refetched::of(false, None), Refetched::Failed);
}

#[test]
fn headers_link_by_hash() {
    let mut a = [0u8; 32];
    let mut b = [0u8; 32];
    assert!(same_hash(&a, &b));
    for i in 0..32 {
        b[i] = 1;
        assert!(!same_hash(&a, &b));
        assert!(!same_hash(&b, &a));
        a[i] = 1;
        assert!(same_hash(&a, &b));
    }
    let parent = Header { number: 1, parent_hash: [0; 32], hash: [5; 32] };
    let child = Header { number: 9, parent_hash: [5; 32], hash: [6; 32] };
    assert!(is_linked(&parent, &child));
    assert!(!is_linked(&child, &parent));
    assert!(!is_linked(&parent, &parent));
}

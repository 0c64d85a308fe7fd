//! The verify and repair engine: a pass over a range of stored headers that
//! certifies that each header names its predecessor's hash, and that has a
//! record fetched again from the chain where it cannot be decoded or does not
//! fit.
//!
//! A pass is a state machine. It asks for one action at a time; the host
//! performs it and hands the outcome to [`CheckPass::step`], until the pass
//! has finished or failed.

use crate::config::Serve;
use crate::grab::{HeadersRequest, ParaHeadersRequest};
use crate::header::{decode_record, decoded_header, is_linked, linked, BlockNumber, Header};
use vstd::prelude::*;

verus! {

/// The header stream that a pass covers.
#[derive(Clone, Copy, Debug, PartialEq, Eq)]
pub enum CheckKind {
    Relay,
    Para,
}

/// Why the predecessor of a header that did not fit could not be fetched
/// again.
#[derive(Clone, Copy, Debug, PartialEq, Eq)]
pub enum RegrabCause {
    /// Grabbing the stream is switched off.
    Disabled,
    /// The host could not reach the chain or could not store the record. The
    /// host knows more.
    Failed,
    /// The chain delivered nothing.
    Nothing,
}

/// Why a pass did not start or did not finish.
#[derive(Clone, Debug, PartialEq, Eq)]
pub enum CheckError {
    /// The range holds no block after its start.
    InvalidRange,
    /// The name of the stream is neither `relay` nor `para`.
    UnknownCheckType(String),
    /// No record is stored for the block at the start of the range, or for a
    /// relay chain block within it.
    HeaderNotFound(BlockNumber),
    /// No record is stored for a parachain block within the range.
    ParaHeaderNotFound(BlockNumber),
    /// The record at the start of the range is no header.
    DecodeFailed(BlockNumber),
    /// The current block has to be fetched again, but grabbing this stream is
    /// switched off.
    GrabDisabled(CheckKind),
    /// The current block, of this number, could not be fetched again: the
    /// host could not reach the chain or could not store the record. The host
    /// knows the cause.
    RefetchFailed(CheckKind, BlockNumber),
    /// The predecessor of a header that did not fit, of this number, could
    /// not be fetched again.
    RegrabFailed(CheckKind, BlockNumber, RegrabCause),
    /// The chain delivered nothing for the current block when it was fetched
    /// again.
    NothingGrabbed(CheckKind),
    /// The header at this block does not name its predecessor even after both
    /// were fetched again.
    CannotFixMismatch(BlockNumber),
    /// The host handed over an outcome that the pass had not asked for.
    UnexpectedEvent,
}

/// What the store holds for a block.
#[derive(Clone, Copy, Debug, PartialEq, Eq)]
pub enum Stored {
    /// No record.
    Missing,
    /// A record that is no header.
    Undecodable,
    /// A record that decodes to this header.
    Decoded(Header),
}

/// How fetching a single block again went.
#[derive(Clone, Copy, Debug, PartialEq, Eq)]
pub enum Refetched {
    /// The host could not reach the chain or could not store the record.
    Failed,
    /// The chain delivered no header.
    Nothing,
    /// The chain delivered this header, and the record was overwritten.
    Header(Header),
}

/// What to ask of the chain where one block is fetched again.
#[derive(Clone, Copy, Debug, PartialEq, Eq)]
pub enum RefetchRequest {
    Headers(HeadersRequest),
    ParaHeaders(ParaHeadersRequest),
}

/// The outcome of an action.
#[derive(Clone, Copy, Debug, PartialEq, Eq)]
pub enum CheckEvent {
    Loaded(Stored),
    Refetched(Refetched),
}

/// What a pass asks of the host, or how it ended.
#[derive(Clone, Debug, PartialEq, Eq)]
pub enum CheckAction {
    /// Load the stored record of this block.
    Load { block: BlockNumber },
    /// Fetch the one block of this number from the chain and overwrite its
    /// record.
    Refetch { number: BlockNumber },
    /// The range is clean up to its end.
    Finished { mismatches: u32, codec_errors: u32 },
    /// The pass failed.
    Failed(CheckError),
}

/// Where a pass stands.
#[derive(Clone, Copy, Debug, PartialEq, Eq)]
pub enum Phase {
    /// Waiting for the record at the start of the range.
    AwaitFrom,
    /// Waiting for the record of the current block, which has to name `prev`
    /// as its parent.
    AwaitBlock { prev: Header },
    /// Waiting for the current block, whose record was no header, to be
    /// fetched again.
    AwaitRepair { prev: Header },
    /// After a mismatch: waiting for the predecessor, which gave
    /// `prev_number` as its number, to be fetched again. `cur` is the header
    /// that did not fit.
    AwaitPrev { prev_number: BlockNumber, cur: Header },
    /// After a mismatch: waiting for the block of this number, the one that
    /// the header that did not fit gave as its own, to be fetched again.
    AwaitCur { prev: Header, number: BlockNumber },
    Done,
    Failed,
}

/// The state of a pass as the contracts speak of it.
pub ghost struct PassState {
    pub kind: CheckKind,
    /// Whether grabbing the stream is switched on, so that blocks may be
    /// fetched again.
    pub repair_enabled: bool,
    /// The block before the first one checked.
    pub from: BlockNumber,
    /// The last block checked.
    pub to: BlockNumber,
    /// The block being checked.
    pub block: BlockNumber,
    pub mismatches: u32,
    pub codec_errors: u32,
    pub phase: Phase,
}

impl PassState {
    /// What holds of every state that a pass can reach.
    pub open spec fn inv(self) -> bool {
        &&& self.from < self.to
        &&& self.from <= self.block <= self.to
        &&& self.mismatches <= self.block - self.from
        &&& self.codec_errors <= self.block - self.from
        &&& match self.phase {
            Phase::AwaitFrom => self.block == self.from,
            Phase::AwaitBlock { .. } => {
                &&& self.from < self.block
                &&& self.mismatches < self.block - self.from
                &&& self.codec_errors < self.block - self.from
            },
            Phase::AwaitRepair { .. } => {
                &&& self.from < self.block
                &&& self.mismatches < self.block - self.from
            },
            Phase::AwaitPrev { .. } => self.from < self.block,
            Phase::AwaitCur { .. } => self.from < self.block,
            Phase::Done => self.block == self.to,
            Phase::Failed => true,
        }
    }

    /// The state in which a pass starts.
    pub open spec fn initial(
        kind: CheckKind,
        repair_enabled: bool,
        from: BlockNumber,
        to: BlockNumber,
    ) -> PassState {
        PassState {
            kind,
            repair_enabled,
            from,
            to,
            block: from,
            mismatches: 0,
            codec_errors: 0,
            phase: Phase::AwaitFrom,
        }
    }

    /// The pass fails with `error`.
    pub open spec fn fail(self, error: CheckError) -> (PassState, CheckAction) {
        (PassState { phase: Phase::Failed, ..self }, CheckAction::Failed(error))
    }

    /// The current block is accepted with the header `cur`: the pass moves to
    /// the next block, or finishes at the end of the range.
    pub open spec fn accept(self, cur: Header) -> (PassState, CheckAction) {
        if self.block < self.to {
            let next = (self.block + 1) as BlockNumber;
            (
                PassState { block: next, phase: Phase::AwaitBlock { prev: cur }, ..self },
                CheckAction::Load { block: next },
            )
        } else {
            (
                PassState { phase: Phase::Done, ..self },
                CheckAction::Finished {
                    mismatches: self.mismatches,
                    codec_errors: self.codec_errors,
                },
            )
        }
    }

    /// A block is to be fetched again: the pass asks for the block, and
    /// fails with `disabled` where grabbing is switched off.
    pub open spec fn refetch(
        self,
        number: BlockNumber,
        phase: Phase,
        disabled: CheckError,
    ) -> (PassState, CheckAction) {
        if self.repair_enabled {
            (PassState { phase, ..self }, CheckAction::Refetch { number })
        } else {
            self.fail(disabled)
        }
    }

    /// The header `cur` of the current block is held against `prev`. Where it
    /// does not name `prev` as its parent, a mismatch is counted and the
    /// predecessor is fetched again, by the number that `prev` gives.
    pub open spec fn compare(self, prev: Header, cur: Header) -> (PassState, CheckAction) {
        if linked(prev, cur) {
            self.accept(cur)
        } else {
            PassState { mismatches: (self.mismatches + 1) as u32, ..self }.refetch(
                prev.number,
                Phase::AwaitPrev { prev_number: prev.number, cur },
                CheckError::RegrabFailed(self.kind, prev.number, RegrabCause::Disabled),
            )
        }
    }

    /// The error for a block of the range that has no record.
    pub open spec fn not_found(self) -> CheckError {
        match self.kind {
            CheckKind::Relay => CheckError::HeaderNotFound(self.block),
            CheckKind::Para => CheckError::ParaHeaderNotFound(self.block),
        }
    }

    /// The error where the block of this number was fetched again for its own
    /// sake and no header came.
    pub open spec fn refetch_error(self, outcome: Refetched, number: BlockNumber) -> CheckError {
        match outcome {
            Refetched::Nothing => CheckError::NothingGrabbed(self.kind),
            _ => CheckError::RefetchFailed(self.kind, number),
        }
    }

    /// The transition of a pass: the state after `event`, and what the pass
    /// asks for next.
    pub open spec fn step(self, event: CheckEvent) -> (PassState, CheckAction) {
        match (self.phase, event) {
            (Phase::AwaitFrom, CheckEvent::Loaded(Stored::Missing)) => self.fail(
                CheckError::HeaderNotFound(self.from),
            ),
            (Phase::AwaitFrom, CheckEvent::Loaded(Stored::Undecodable)) => self.fail(
                CheckError::DecodeFailed(self.from),
            ),
            (Phase::AwaitFrom, CheckEvent::Loaded(Stored::Decoded(h))) => self.accept(h),
            (Phase::AwaitBlock { .. }, CheckEvent::Loaded(Stored::Missing)) => self.fail(
                self.not_found(),
            ),
            (Phase::AwaitBlock { prev }, CheckEvent::Loaded(Stored::Undecodable)) => PassState {
                codec_errors: (self.codec_errors + 1) as u32,
                ..self
            }.refetch(
                self.block,
                Phase::AwaitRepair { prev },
                CheckError::GrabDisabled(self.kind),
            ),
            (Phase::AwaitBlock { prev }, CheckEvent::Loaded(Stored::Decoded(h))) => self.compare(
                prev,
                h,
            ),
            (
                Phase::AwaitRepair { prev },
                CheckEvent::Refetched(Refetched::Header(h)),
            ) => self.compare(prev, h),
            (Phase::AwaitRepair { .. }, CheckEvent::Refetched(outcome)) => self.fail(
                self.refetch_error(outcome, self.block),
            ),
            (
                Phase::AwaitPrev { cur, .. },
                CheckEvent::Refetched(Refetched::Header(h)),
            ) => self.refetch(
                cur.number,
                Phase::AwaitCur { prev: h, number: cur.number },
                CheckError::GrabDisabled(self.kind),
            ),
            (
                Phase::AwaitPrev { prev_number, .. },
                CheckEvent::Refetched(Refetched::Nothing),
            ) => self.fail(CheckError::RegrabFailed(self.kind, prev_number, RegrabCause::Nothing)),
            (Phase::AwaitPrev { prev_number, .. }, CheckEvent::Refetched(_)) => self.fail(
                CheckError::RegrabFailed(self.kind, prev_number, RegrabCause::Failed),
            ),
            (
                Phase::AwaitCur { prev, .. },
                CheckEvent::Refetched(Refetched::Header(h)),
            ) => {
                if linked(prev, h) {
                    self.accept(h)
                } else {
                    self.fail(CheckError::CannotFixMismatch(self.block))
                }
            },
            (Phase::AwaitCur { number, .. }, CheckEvent::Refetched(outcome)) => self.fail(
                self.refetch_error(outcome, number),
            ),
            _ => self.fail(CheckError::UnexpectedEvent),
        }
    }
}

/// The stream that a name stands for.
pub open spec fn kind_named(what: Seq<char>) -> Option<CheckKind> {
    if what == "relay"@ {
        Some(CheckKind::Relay)
    } else if what == "para"@ {
        Some(CheckKind::Para)
    } else {
        None
    }
}

/// The last block of a range that is given by its end, or else by the number
/// of blocks after its start, one where neither is given.
pub open spec fn range_end(from: BlockNumber, to: Option<BlockNumber>, count: Option<BlockNumber>) -> int {
    match to {
        Some(t) => t as int,
        None => match count {
            Some(c) => from + c,
            None => from + 1,
        },
    }
}

/// Whether blocks of a stream may be fetched again under `config`.
pub open spec fn repair_enabled(config: Serve, kind: CheckKind) -> bool {
    match kind {
        CheckKind::Relay => config.grab_headers,
        CheckKind::Para => config.grab_para_headers,
    }
}

/// What the store holds, told from the bytes that it gave.
pub open spec fn stored_of(record: Option<Seq<u8>>) -> Stored {
    match record {
        None => Stored::Missing,
        Some(bytes) => match decoded_header(bytes) {
            None => Stored::Undecodable,
            Some(h) => Stored::Decoded(h),
        },
    }
}

/// The request that fetches the one block of this number again: a single
/// header from that block on, and for a relay chain header a justification
/// interval of one block.
pub open spec fn refetch_request(kind: CheckKind, number: BlockNumber) -> RefetchRequest {
    match kind {
        CheckKind::Relay => RefetchRequest::Headers(
            HeadersRequest { start: number, count: 1, justification_interval: 1 },
        ),
        CheckKind::Para => RefetchRequest::ParaHeaders(
            ParaHeadersRequest { start: number, count: 1 },
        ),
    }
}

/// How fetching a block again went, told from whether the grab went through
/// and from the header that it delivered last: a grab that failed has
/// failed whatever it delivered.
pub open spec fn refetched(grabbed: bool, delivered: Option<Header>) -> Refetched {
    if !grabbed {
        Refetched::Failed
    } else {
        match delivered {
            Some(h) => Refetched::Header(h),
            None => Refetched::Nothing,
        }
    }
}

impl CheckKind {
    /// The name of the stream.
    pub open spec fn name_text(self) -> Seq<char> {
        match self {
            CheckKind::Relay => "relay"@,
            CheckKind::Para => "para"@,
        }
    }

    /// The name of the stream: `relay` or `para`.
    pub fn name(&self) -> (out: &'static str)
        ensures
            out@ == self.name_text(),
            kind_named(out@) == Some(*self),
    {
        proof {
            reveal_strlit("relay");
            reveal_strlit("para");
            assert("relay"@.len() == 5);
            assert("para"@.len() == 4);
        }
        match self {
            CheckKind::Relay => "relay",
            CheckKind::Para => "para",
        }
    }

    /// The request that fetches the one block of this number again.
    pub fn refetch_request(&self, number: BlockNumber) -> (out: RefetchRequest)
        ensures
            out == refetch_request(*self, number),
    {
        match self {
            CheckKind::Relay => RefetchRequest::Headers(
                HeadersRequest { start: number, count: 1, justification_interval: 1 },
            ),
            CheckKind::Para => RefetchRequest::ParaHeaders(
                ParaHeadersRequest { start: number, count: 1 },
            ),
        }
    }
}

impl Refetched {
    /// Tells how fetching a block again went from whether the grab went
    /// through and from the header that it delivered last.
    pub fn of(grabbed: bool, delivered: Option<Header>) -> (out: Refetched)
        ensures
            out == refetched(grabbed, delivered),
    {
        if !grabbed {
            Refetched::Failed
        } else {
            match delivered {
                Some(h) => Refetched::Header(h),
                None => Refetched::Nothing,
            }
        }
    }
}

fn same_text(a: &str, b: &str) -> (out: bool)
    ensures
        out == (a@ == b@),
{
    a.to_owned() == b.to_owned()
}

impl CheckKind {
    /// The stream that `what` names: `relay` or `para`.
    pub fn parse(what: &str) -> (out: Option<CheckKind>)
        ensures
            out == kind_named(what@),
    {
        if same_text(what, "relay") {
            Some(CheckKind::Relay)
        } else if same_text(what, "para") {
            Some(CheckKind::Para)
        } else {
            None
        }
    }
}

/// Tells what the store holds for a block from the bytes that it gave.
pub fn classify(record: Option<Vec<u8>>) -> (out: Stored)
    ensures
        out == stored_of(
            match record {
                Some(bytes) => Some(bytes@),
                None => None,
            },
        ),
{
    match record {
        None => Stored::Missing,
        Some(bytes) => match decode_record(bytes.as_slice()) {
            None => Stored::Undecodable,
            Some(h) => Stored::Decoded(h),
        },
    }
}

/// A verify and repair pass over the blocks after `from` up to `to`.
#[derive(Clone, Copy, Debug)]
pub struct CheckPass {
    kind: CheckKind,
    repair_enabled: bool,
    from: BlockNumber,
    to: BlockNumber,
    block: BlockNumber,
    mismatches: u32,
    codec_errors: u32,
    phase: Phase,
}

impl View for CheckPass {
    type V = PassState;

    closed spec fn view(&self) -> PassState {
        PassState {
            kind: self.kind,
            repair_enabled: self.repair_enabled,
            from: self.from,
            to: self.to,
            block: self.block,
            mismatches: self.mismatches,
            codec_errors: self.codec_errors,
            phase: self.phase,
        }
    }
}

impl CheckPass {
    #[verifier::type_invariant]
    spec fn well_formed(self) -> bool {
        self@.inv()
    }

    /// The stream that the pass covers.
    pub fn kind(&self) -> (out: CheckKind)
        ensures
            out == self@.kind,
    {
        self.kind
    }

    /// The block before the first one checked.
    pub fn from(&self) -> (out: BlockNumber)
        ensures
            out == self@.from,
    {
        self.from
    }

    /// The last block checked.
    pub fn to(&self) -> (out: BlockNumber)
        ensures
            out == self@.to,
    {
        self.to
    }

    /// The block being checked.
    pub fn block(&self) -> (out: BlockNumber)
        ensures
            out == self@.block,
    {
        self.block
    }

    /// The number of headers so far that did not name their predecessor.
    pub fn mismatches(&self) -> (out: u32)
        ensures
            out == self@.mismatches,
    {
        self.mismatches
    }

    /// The number of records so far that were no header.
    pub fn codec_errors(&self) -> (out: u32)
        ensures
            out == self@.codec_errors,
    {
        self.codec_errors
    }

    /// Where the pass stands.
    pub fn phase(&self) -> (out: Phase)
        ensures
            out == self@.phase,
    {
        self.phase
    }

    fn fail(self, error: CheckError) -> (out: (CheckPass, CheckAction))
        ensures
            (out.0@, out.1) == self@.fail(error),
    {
        proof {
            use_type_invariant(&self);
        }
        (
            CheckPass {
                kind: self.kind,
                repair_enabled: self.repair_enabled,
                from: self.from,
                to: self.to,
                block: self.block,
                mismatches: self.mismatches,
                codec_errors: self.codec_errors,
                phase: Phase::Failed,
            },
            CheckAction::Failed(error),
        )
    }

    fn accept(self, cur: Header) -> (out: (CheckPass, CheckAction))
        requires
            !(self@.phase is Done),
        ensures
            (out.0@, out.1) == self@.accept(cur),
    {
        proof {
            use_type_invariant(&self);
        }
        if self.block < self.to {
            let next: BlockNumber = self.block + 1;
            (
                CheckPass {
                    kind: self.kind,
                    repair_enabled: self.repair_enabled,
                    from: self.from,
                    to: self.to,
                    block: next,
                    mismatches: self.mismatches,
                    codec_errors: self.codec_errors,
                    phase: Phase::AwaitBlock { prev: cur },
                },
                CheckAction::Load { block: next },
            )
        } else {
            (
                CheckPass {
                    kind: self.kind,
                    repair_enabled: self.repair_enabled,
                    from: self.from,
                    to: self.to,
                    block: self.block,
                    mismatches: self.mismatches,
                    codec_errors: self.codec_errors,
                    phase: Phase::Done,
                },
                CheckAction::Finished {
                    mismatches: self.mismatches,
                    codec_errors: self.codec_errors,
                },
            )
        }
    }

    /// Asks for a block to be fetched again, with the counters as they stand
    /// after the finding that made it necessary.
    fn refetch(
        self,
        mismatches: u32,
        codec_errors: u32,
        number: BlockNumber,
        phase: Phase,
        disabled: CheckError,
    ) -> (out: (CheckPass, CheckAction))
        requires
            self@.from < self@.block,
            mismatches <= self@.block - self@.from,
            codec_errors <= self@.block - self@.from,
            phase is AwaitRepair ==> mismatches < self@.block - self@.from,
            phase is AwaitRepair || phase is AwaitPrev || phase is AwaitCur,
        ensures
            (out.0@, out.1) == (PassState { mismatches, codec_errors, ..self@ }).refetch(
                number,
                phase,
                disabled,
            ),
    {
        proof {
            use_type_invariant(&self);
        }
        if self.repair_enabled {
            (
                CheckPass {
                    kind: self.kind,
                    repair_enabled: self.repair_enabled,
                    from: self.from,
                    to: self.to,
                    block: self.block,
                    mismatches,
                    codec_errors,
                    phase,
                },
                CheckAction::Refetch { number },
            )
        } else {
            (
                CheckPass {
                    kind: self.kind,
                    repair_enabled: self.repair_enabled,
                    from: self.from,
                    to: self.to,
                    block: self.block,
                    mismatches,
                    codec_errors,
                    phase: Phase::Failed,
                },
                CheckAction::Failed(disabled),
            )
        }
    }

    fn compare(self, prev: Header, cur: Header) -> (out: (CheckPass, CheckAction))
        requires
            self@.phase is AwaitBlock || self@.phase is AwaitRepair,
        ensures
            (out.0@, out.1) == self@.compare(prev, cur),
    {
        proof {
            use_type_invariant(&self);
        }
        if is_linked(&prev, &cur) {
            self.accept(cur)
        } else {
            let mismatches: u32 = self.mismatches + 1;
            let codec_errors: u32 = self.codec_errors;
            let disabled = CheckError::RegrabFailed(self.kind, prev.number, RegrabCause::Disabled);
            self.refetch(
                mismatches,
                codec_errors,
                prev.number,
                Phase::AwaitPrev { prev_number: prev.number, cur },
                disabled,
            )
        }
    }

    /// Takes the outcome of the action that the pass asked for last, and
    /// gives the pass as it stands after it together with what it asks for
    /// next.
    pub fn step(self, event: CheckEvent) -> (out: (CheckPass, CheckAction))
        ensures
            (out.0@, out.1) == self@.step(event),
            self@.inv(),
            out.0@.inv(),
    {
        proof {
            use_type_invariant(&self);
        }
        match self.phase {
            Phase::AwaitFrom => match event {
                CheckEvent::Loaded(Stored::Missing) => {
                    let error = CheckError::HeaderNotFound(self.from);
                    self.fail(error)
                },
                CheckEvent::Loaded(Stored::Undecodable) => {
                    let error = CheckError::DecodeFailed(self.from);
                    self.fail(error)
                },
                CheckEvent::Loaded(Stored::Decoded(h)) => self.accept(h),
                CheckEvent::Refetched(_) => self.fail(CheckError::UnexpectedEvent),
            },
            Phase::AwaitBlock { prev } => match event {
                CheckEvent::Loaded(Stored::Missing) => {
                    let error = match self.kind {
                        CheckKind::Relay => CheckError::HeaderNotFound(self.block),
                        CheckKind::Para => CheckError::ParaHeaderNotFound(self.block),
                    };
                    self.fail(error)
                },
                CheckEvent::Loaded(Stored::Undecodable) => {
                    let mismatches: u32 = self.mismatches;
                    let codec_errors: u32 = self.codec_errors + 1;
                    let number: BlockNumber = self.block;
                    let disabled = CheckError::GrabDisabled(self.kind);
                    self.refetch(
                        mismatches,
                        codec_errors,
                        number,
                        Phase::AwaitRepair { prev },
                        disabled,
                    )
                },
                CheckEvent::Loaded(Stored::Decoded(h)) => self.compare(prev, h),
                CheckEvent::Refetched(_) => self.fail(CheckError::UnexpectedEvent),
            },
            Phase::AwaitRepair { prev } => match event {
                CheckEvent::Refetched(Refetched::Header(h)) => self.compare(prev, h),
                CheckEvent::Refetched(Refetched::Nothing) => {
                    let error = CheckError::NothingGrabbed(self.kind);
                    self.fail(error)
                },
                CheckEvent::Refetched(Refetched::Failed) => {
                    let error = CheckError::RefetchFailed(self.kind, self.block);
                    self.fail(error)
                },
                CheckEvent::Loaded(_) => self.fail(CheckError::UnexpectedEvent),
            },
            Phase::AwaitPrev { prev_number, cur } => match event {
                CheckEvent::Refetched(Refetched::Header(h)) => {
                    let mismatches: u32 = self.mismatches;
                    let codec_errors: u32 = self.codec_errors;
                    let disabled = CheckError::GrabDisabled(self.kind);
                    self.refetch(
                        mismatches,
                        codec_errors,
                        cur.number,
                        Phase::AwaitCur { prev: h, number: cur.number },
                        disabled,
                    )
                },
                CheckEvent::Refetched(Refetched::Nothing) => {
                    let error = CheckError::RegrabFailed(
                        self.kind,
                        prev_number,
                        RegrabCause::Nothing,
                    );
                    self.fail(error)
                },
                CheckEvent::Refetched(Refetched::Failed) => {
                    let error = CheckError::RegrabFailed(
                        self.kind,
                        prev_number,
                        RegrabCause::Failed,
                    );
                    self.fail(error)
                },
                CheckEvent::Loaded(_) => self.fail(CheckError::UnexpectedEvent),
            },
            Phase::AwaitCur { prev, number } => match event {
                CheckEvent::Refetched(Refetched::Header(h)) => {
                    if is_linked(&prev, &h) {
                        self.accept(h)
                    } else {
                        let error = CheckError::CannotFixMismatch(self.block);
                        self.fail(error)
                    }
                },
                CheckEvent::Refetched(Refetched::Nothing) => {
                    let error = CheckError::NothingGrabbed(self.kind);
                    self.fail(error)
                },
                CheckEvent::Refetched(Refetched::Failed) => {
                    let error = CheckError::RefetchFailed(self.kind, number);
                    self.fail(error)
                },
                CheckEvent::Loaded(_) => self.fail(CheckError::UnexpectedEvent),
            },
            Phase::Done => self.fail(CheckError::UnexpectedEvent),
            Phase::Failed => self.fail(CheckError::UnexpectedEvent),
        }
    }

    /// Takes the bytes that the store gave for the block that the pass asked
    /// to load, `None` where it holds no record, and goes on as
    /// [`CheckPass::step`] does on what they decode to.
    pub fn on_record(self, record: Option<Vec<u8>>) -> (out: (CheckPass, CheckAction))
        ensures
            (out.0@, out.1) == self@.step(
                CheckEvent::Loaded(
                    stored_of(
                        match record {
                            Some(bytes) => Some(bytes@),
                            None => None,
                        },
                    ),
                ),
            ),
    {
        let stored = classify(record);
        self.step(CheckEvent::Loaded(stored))
    }
}

/// Starts a pass over the headers of the stream that `what` names: the blocks
/// after `from` up to `to`, or, where `to` is not given, as many blocks as
/// `count` says, one where that is not given either.
///
/// A range that holds no block after `from`, or that ends beyond the largest
/// block number, is refused; of the ranges left, so is a name other than
/// `relay` and `para`. Otherwise the pass starts by asking for the record at
/// `from`.
pub fn check_and_fix_headers(
    config: &Serve,
    what: &str,
    from: BlockNumber,
    to: Option<BlockNumber>,
    count: Option<BlockNumber>,
) -> (out: Result<(CheckPass, CheckAction), CheckError>)
    ensures
        match out {
            Ok((pass, action)) => {
                &&& from < range_end(from, to, count) <= u32::MAX
                &&& kind_named(what@) matches Some(kind)
                &&& pass@ == PassState::initial(
                    kind,
                    repair_enabled(*config, kind),
                    from,
                    range_end(from, to, count) as BlockNumber,
                )
                &&& action == CheckAction::Load { block: from }
                &&& pass@.inv()
            },
            Err(error) => {
                if from < range_end(from, to, count) <= u32::MAX {
                    &&& kind_named(what@) is None
                    &&& error matches CheckError::UnknownCheckType(name)
                    &&& name@ == what@
                } else {
                    error == CheckError::InvalidRange
                }
            },
        },
{
    let end: u64 = match to {
        Some(t) => t as u64,
        None => match count {
            Some(c) => from as u64 + c as u64,
            None => from as u64 + 1,
        },
    };
    if end <= from as u64 || end > u32::MAX as u64 {
        return Err(CheckError::InvalidRange);
    }
    let kind = match CheckKind::parse(what) {
        Some(kind) => kind,
        None => {
            return Err(CheckError::UnknownCheckType(what.to_owned()));
        },
    };
    let repair_enabled = match kind {
        CheckKind::Relay => config.grab_headers,
        CheckKind::Para => config.grab_para_headers,
    };
    let pass = CheckPass {
        kind,
        repair_enabled,
        from,
        to: end as BlockNumber,
        block: from,
        mismatches: 0,
        codec_errors: 0,
        phase: Phase::AwaitFrom,
    };
    Ok((pass, CheckAction::Load { block: from }))
}

} // verus!

//! The texts in which a pass reports how it ended.

use crate::check::{CheckError, CheckKind, CheckPass, RegrabCause};
use crate::header::BlockNumber;
use crate::text::{decimal, push_decimal};
use vstd::prelude::*;
use vstd::string::StringExecFns;

verus! {

/// The summary of a pass that finished: the range, and either the numbers of
/// mismatches and of codec errors found, or that there were none.
pub open spec fn summary_text(
    from: BlockNumber,
    to: BlockNumber,
    mismatches: u32,
    codec_errors: u32,
) -> Seq<char> {
    let range = "Checked blocks from "@ + decimal(from as nat) + " to "@ + decimal(to as nat);
    if mismatches > 0 || codec_errors > 0 {
        range + ", "@ + decimal(mismatches as nat) + " mismatches, "@ + decimal(
            codec_errors as nat,
        ) + " codec errors"@
    } else {
        range + ", All OK"@
    }
}

/// Writes the summary of a pass that finished.
pub fn summary(from: BlockNumber, to: BlockNumber, mismatches: u32, codec_errors: u32) -> (out:
    String)
    ensures
        out@ == summary_text(from, to, mismatches, codec_errors),
{
    let mut out = String::from_str("Checked blocks from ");
    push_decimal(&mut out, from as u64);
    out.append(" to ");
    push_decimal(&mut out, to as u64);
    if mismatches > 0 || codec_errors > 0 {
        out.append(", ");
        push_decimal(&mut out, mismatches as u64);
        out.append(" mismatches, ");
        push_decimal(&mut out, codec_errors as u64);
        out.append(" codec errors");
    } else {
        out.append(", All OK");
    }
    out
}

impl CheckPass {
    /// The summary of the pass with the counts as they stand: what a pass
    /// that finished reports.
    pub fn summary(&self) -> (out: String)
        ensures
            out@ == summary_text(
                self@.from,
                self@.to,
                self@.mismatches,
                self@.codec_errors,
            ),
    {
        summary(self.from(), self.to(), self.mismatches(), self.codec_errors())
    }
}

impl CheckError {
    /// The message of an error. Where a block could not be fetched again for
    /// a failure of the host, the host has the cause to show with it.
    pub open spec fn text(self) -> Seq<char> {
        match self {
            CheckError::InvalidRange => "Invalid range"@,
            CheckError::UnknownCheckType(name) => "Unknown check type "@ + name@,
            CheckError::HeaderNotFound(block) => "Header "@ + decimal(block as nat)
                + " not found"@,
            CheckError::ParaHeaderNotFound(block) => "Parachain header "@ + decimal(block as nat)
                + " not found"@,
            CheckError::DecodeFailed(block) => "Failed to decode header "@ + decimal(
                block as nat,
            ),
            CheckError::GrabDisabled(CheckKind::Relay) => "Grab headers disabled"@,
            CheckError::GrabDisabled(CheckKind::Para) => "Grab parachain headers disabled"@,
            CheckError::RefetchFailed(CheckKind::Relay, _) => "Failed to regrab header"@,
            CheckError::RefetchFailed(
                CheckKind::Para,
                _,
            ) => "Failed to regrab parachain header"@,
            CheckError::RegrabFailed(CheckKind::Relay, _, _) => "Failed to regrab header"@,
            CheckError::RegrabFailed(
                CheckKind::Para,
                _,
                _,
            ) => "Failed to regrab parachain header"@,
            CheckError::NothingGrabbed(CheckKind::Relay) => "Failed to grab header"@,
            CheckError::NothingGrabbed(CheckKind::Para) => "Failed to grab parachain header"@,
            CheckError::CannotFixMismatch(block) => "Cannot fix mismatch at "@ + decimal(
                block as nat,
            ),
            CheckError::UnexpectedEvent => "Unexpected event"@,
        }
    }

    /// The error that lies behind an error, where the error wraps one that
    /// this crate knows: why the predecessor of a header that did not fit
    /// could not be fetched again.
    pub open spec fn cause(self) -> Option<CheckError> {
        match self {
            CheckError::RegrabFailed(kind, _, RegrabCause::Disabled) => Some(
                CheckError::GrabDisabled(kind),
            ),
            CheckError::RegrabFailed(kind, _, RegrabCause::Nothing) => Some(
                CheckError::NothingGrabbed(kind),
            ),
            _ => None,
        }
    }

    /// Gives the error that lies behind an error, where the error wraps one
    /// that this crate knows.
    pub fn source(&self) -> (out: Option<CheckError>)
        ensures
            out == self.cause(),
    {
        match self {
            CheckError::RegrabFailed(kind, _, RegrabCause::Disabled) => Some(
                CheckError::GrabDisabled(*kind),
            ),
            CheckError::RegrabFailed(kind, _, RegrabCause::Nothing) => Some(
                CheckError::NothingGrabbed(*kind),
            ),
            _ => None,
        }
    }

    /// Writes the message of an error.
    pub fn message(&self) -> (out: String)
        ensures
            out@ == self.text(),
    {
        match self {
            CheckError::InvalidRange => String::from_str("Invalid range"),
            CheckError::UnknownCheckType(name) => {
                let mut out = String::from_str("Unknown check type ");
                out.append(name.as_str());
                out
            },
            CheckError::HeaderNotFound(block) => {
                let mut out = String::from_str("Header ");
                push_decimal(&mut out, *block as u64);
                out.append(" not found");
                out
            },
            CheckError::ParaHeaderNotFound(block) => {
                let mut out = String::from_str("Parachain header ");
                push_decimal(&mut out, *block as u64);
                out.append(" not found");
                out
            },
            CheckError::DecodeFailed(block) => {
                let mut out = String::from_str("Failed to decode header ");
                push_decimal(&mut out, *block as u64);
                out
            },
            CheckError::GrabDisabled(CheckKind::Relay) => String::from_str(
                "Grab headers disabled",
            ),
            CheckError::GrabDisabled(CheckKind::Para) => String::from_str(
                "Grab parachain headers disabled",
            ),
            CheckError::RefetchFailed(CheckKind::Relay, _) => String::from_str(
                "Failed to regrab header",
            ),
            CheckError::RefetchFailed(CheckKind::Para, _) => String::from_str(
                "Failed to regrab parachain header",
            ),
            CheckError::RegrabFailed(CheckKind::Relay, _, _) => String::from_str(
                "Failed to regrab header",
            ),
            CheckError::RegrabFailed(CheckKind::Para, _, _) => String::from_str(
                "Failed to regrab parachain header",
            ),
            CheckError::NothingGrabbed(CheckKind::Relay) => String::from_str(
                "Failed to grab header",
            ),
            CheckError::NothingGrabbed(CheckKind::Para) => String::from_str(
                "Failed to grab parachain header",
            ),
            CheckError::CannotFixMismatch(block) => {
                let mut out = String::from_str("Cannot fix mismatch at ");
                push_decimal(&mut out, *block as u64);
                out
            },
            CheckError::UnexpectedEvent => String::from_str("Unexpected event"),
        }
    }
}

} // verus!

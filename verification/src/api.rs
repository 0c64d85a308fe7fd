//! The errors and the plain messages of the worker manager's management
//! interface, and the rule by which an error becomes a response.

use crate::text::{decimal, push_decimal};
use vstd::prelude::*;
use vstd::string::StringExecFns;

verus! {

/// Why a request to the management interface failed.
#[derive(Clone, Debug, PartialEq, Eq)]
pub enum ApiError {
    /// Something went wrong inside the server. Holds the text of the cause
    /// and the backtrace that was taken where it arose.
    ServerError { cause: String, backtrace: String },
    LifecycleManagerNotInitialized,
    /// No worker has this id.
    WorkerNotFound(String),
    /// No pool has this id.
    PoolNotFound(u64),
    WriteFailed,
    InconsistentData,
}

/// The body of the response to a request that failed.
#[derive(Clone, Debug, PartialEq, Eq)]
pub struct ErrorBody {
    pub error: bool,
    pub code: String,
    pub message: String,
    pub backtrace: Option<String>,
}

/// The answer to a request that needs none.
#[derive(Clone, Debug, PartialEq, Eq)]
pub struct OkResponse {
    pub ok: bool,
}

/// The state of the worker manager.
#[derive(Clone, Debug, PartialEq, Eq)]
pub struct WmStatusResponse {
    pub git_revision: String,
}

/// A request that names workers by their ids.
#[derive(Clone, Debug, PartialEq, Eq)]
pub struct IdsRequest {
    pub ids: Vec<String>,
}

/// A request to replace the endpoints of workers.
#[derive(Clone, Debug, PartialEq, Eq)]
pub struct UpdateEndpointsRequest {
    pub requests: Vec<UpdateEndpointRequest>,
}

/// The endpoints that one worker is to have.
#[derive(Clone, Debug, PartialEq, Eq)]
pub struct UpdateEndpointRequest {
    pub id: String,
    pub endpoints: Vec<String>,
}

/// The status code of a response to a request that the server could not
/// carry out for a fault of its own.
pub const INTERNAL_SERVER_ERROR: u16 = 500;

/// The status code of a response to a request that cannot be met.
pub const BAD_REQUEST: u16 = 400;

/// A text as the standard library's `Debug` writes it: in double quotes,
/// with the characters escaped that a string literal would need escaped.
pub uninterp spec fn quoted(text: Seq<char>) -> Seq<char>;

/// Writes a text with `format!("{:?}", ..)`, the standard library's `Debug`
/// for `str`.
///
/// Trusted: the result is a function of the text alone, named [`quoted`].
/// Nothing else is claimed of it.
#[verifier::external_body]
fn quote(text: &str) -> (out: String)
    ensures
        out@ == quoted(text@),
{
    format!("{:?}", text)
}

impl Default for OkResponse {
    fn default() -> (out: OkResponse)
        ensures
            out.ok,
    {
        OkResponse { ok: true }
    }
}

impl ApiError {
    /// The message of an error.
    pub open spec fn text(self) -> Seq<char> {
        match self {
            ApiError::ServerError { .. } => "Server error"@,
            ApiError::LifecycleManagerNotInitialized => "lifecycle manager not initialized yet"@,
            ApiError::WorkerNotFound(id) => "worker not found: "@ + id@,
            ApiError::PoolNotFound(pool) => "pool not found: "@ + decimal(pool as nat),
            ApiError::WriteFailed => "db write failed"@,
            ApiError::InconsistentData =>
                "met inconsistent data, this is a bug, please report with full backtrace"@,
        }
    }

    /// The code by which a response names an error: the name of its kind,
    /// followed in brackets by what the error holds, a worker's id in quotes.
    pub open spec fn code_text(self) -> Seq<char> {
        match self {
            ApiError::ServerError { .. } => "ServerError"@,
            ApiError::LifecycleManagerNotInitialized => "LifecycleManagerNotInitialized"@,
            ApiError::WorkerNotFound(id) => "WorkerNotFound("@ + quoted(id@) + ")"@,
            ApiError::PoolNotFound(pool) => "PoolNotFound("@ + decimal(pool as nat) + ")"@,
            ApiError::WriteFailed => "WriteFailed"@,
            ApiError::InconsistentData => "InconsistentData"@,
        }
    }

    /// The status code of the response to an error: the server's own faults
    /// apart from the requests that cannot be met.
    pub open spec fn status(self) -> u16 {
        match self {
            ApiError::ServerError { .. } => INTERNAL_SERVER_ERROR,
            _ => BAD_REQUEST,
        }
    }

    /// Writes the message of an error.
    pub fn message(&self) -> (out: String)
        ensures
            out@ == self.text(),
    {
        match self {
            ApiError::ServerError { .. } => String::from_str("Server error"),
            ApiError::LifecycleManagerNotInitialized => String::from_str(
                "lifecycle manager not initialized yet",
            ),
            ApiError::WorkerNotFound(id) => {
                let mut out = String::from_str("worker not found: ");
                out.append(id.as_str());
                out
            },
            ApiError::PoolNotFound(pool) => {
                let mut out = String::from_str("pool not found: ");
                push_decimal(&mut out, *pool);
                out
            },
            ApiError::WriteFailed => String::from_str("db write failed"),
            ApiError::InconsistentData => String::from_str(
                "met inconsistent data, this is a bug, please report with full backtrace",
            ),
        }
    }

    /// Writes the code by which a response names an error.
    pub fn code(&self) -> (out: String)
        ensures
            out@ == self.code_text(),
    {
        match self {
            ApiError::ServerError { .. } => String::from_str("ServerError"),
            ApiError::LifecycleManagerNotInitialized => String::from_str(
                "LifecycleManagerNotInitialized",
            ),
            ApiError::WorkerNotFound(id) => {
                let mut out = String::from_str("WorkerNotFound(");
                let id = quote(id.as_str());
                out.append(id.as_str());
                out.append(")");
                out
            },
            ApiError::PoolNotFound(pool) => {
                let mut out = String::from_str("PoolNotFound(");
                push_decimal(&mut out, *pool);
                out.append(")");
                out
            },
            ApiError::WriteFailed => String::from_str("WriteFailed"),
            ApiError::InconsistentData => String::from_str("InconsistentData"),
        }
    }

    /// The response to a request that failed: its status code and its body.
    ///
    /// A fault of the server answers with the cause's text and the
    /// backtrace; any other error with its own message and without one.
    pub fn into_response(self) -> (out: (u16, ErrorBody))
        ensures
            out.0 == self.status(),
            out.1.error,
            out.1.code@ == self.code_text(),
            match self {
                ApiError::ServerError { cause, backtrace } => {
                    &&& out.1.message@ == cause@
                    &&& out.1.backtrace matches Some(text)
                    &&& text@ == backtrace@
                },
                _ => out.1.message@ == self.text() && out.1.backtrace is None,
            },
    {
        let code = self.code();
        match self {
            ApiError::ServerError { cause, backtrace } => (
                INTERNAL_SERVER_ERROR,
                ErrorBody { error: true, code, message: cause, backtrace: Some(backtrace) },
            ),
            other => {
                let message = other.message();
                (BAD_REQUEST, ErrorBody { error: true, code, message, backtrace: None })
            },
        }
    }
}

} // verus!

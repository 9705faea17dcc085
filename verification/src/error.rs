//! Errors raised while building requests and interpreting replies.

use vstd::prelude::*;
use crate::model::RPCError;

verus! {

/// A JSON value carried verbatim inside remote error reports.
#[verifier::external_type_specification]
#[verifier::external_body]
pub struct ExJsonValue(serde_json::Value);

/// An I/O error raised by the transport.
#[verifier::external_type_specification]
#[verifier::external_body]
pub struct ExIoError(std::io::Error);

/// An error raised while encoding or decoding JSON.
#[verifier::external_type_specification]
#[verifier::external_body]
pub struct ExJsonError(serde_json::Error);

/// The category of an I/O error.
#[verifier::external_type_specification]
#[verifier::external_body]
pub struct ExIoErrorKind(std::io::ErrorKind);

/// The error of a one-shot channel whose sender went away.
#[verifier::external_type_specification]
#[verifier::external_body]
pub struct ExChannelRecvError(tokio::sync::oneshot::error::RecvError);

/// The error of a lock that could not be taken at once.
#[verifier::external_type_specification]
#[verifier::external_body]
pub struct ExTryLockError(tokio::sync::TryLockError);

/// The error of a task that panicked or was cancelled.
#[verifier::external_type_specification]
#[verifier::external_body]
pub struct ExJoinError(tokio::task::JoinError);

/// Failures of synchronisation primitives around the client state.
#[derive(Debug, Clone, Copy, PartialEq, Eq)]
pub enum SyncError {
    MutexLock,
    RwLock,
    JoinTask,
    BadId,
    ChannelReceive,
}

/// Failures while converting between wire data and library values.
#[derive(Debug, Clone, Copy, PartialEq, Eq)]
pub enum SerializationError {
    MacAddressError,
    IPAddrError,
    MethodNameDeserialization,
    ValueDeserialization,
    StrFromBytes,
    NameNotFound,
    Serde,
}

/// Error reported by a device through a JSON-RPC error object.
#[derive(Debug)]
pub enum WizNetError {
    Parse { data: Option<serde_json::Value> },
    InvalidRequest { data: Option<serde_json::Value> },
    InvalidParameters { data: Option<serde_json::Value> },
    MethodNotFound { data: Option<serde_json::Value> },
    Internal { data: Option<serde_json::Value> },
    Server { message: String, data: Option<serde_json::Value> },
    Unknown { message: String, data: Option<serde_json::Value> },
    NotAWizTarget,
}

/// Every way a query against a device can fail.
#[derive(Debug)]
pub enum QueryError {
    Serialization(SerializationError),
    RPC(WizNetError),
    Network(std::io::Error),
    Sync(SyncError),
    WouldBlock,
    NoTarget,
    Unknown,
}

/// The error a JSON-RPC error reply stands for, by its code. The five reserved
/// codes name their error. A code with `-32000 <= code <= -32099` would be a
/// server error, but no code meets that test, so every other code is `Unknown`.
pub open spec fn wiz_error_from(e: RPCError) -> WizNetError {
    let code = e.error.code;
    if code == -32700 {
        WizNetError::Parse { data: e.error.data }
    } else if code == -32600 {
        WizNetError::InvalidRequest { data: e.error.data }
    } else if code == -32601 {
        WizNetError::MethodNotFound { data: e.error.data }
    } else if code == -32602 {
        WizNetError::InvalidParameters { data: e.error.data }
    } else if code == -32603 {
        WizNetError::Internal { data: e.error.data }
    } else if -32000 <= code && code <= -32099 {
        WizNetError::Server { message: e.error.message, data: e.error.data }
    } else {
        WizNetError::Unknown { message: e.error.message, data: e.error.data }
    }
}

impl From<tokio::sync::oneshot::error::RecvError> for QueryError {
    fn from(_err: tokio::sync::oneshot::error::RecvError) -> (r: Self)
        ensures
            r == QueryError::Sync(SyncError::ChannelReceive),
    {
        QueryError::Sync(SyncError::ChannelReceive)
    }
}

impl vstd::std_specs::convert::FromSpecImpl<tokio::sync::oneshot::error::RecvError> for QueryError {
    open spec fn obeys_from_spec() -> bool {
        true
    }

    open spec fn from_spec(_err: tokio::sync::oneshot::error::RecvError) -> Self {
        QueryError::Sync(SyncError::ChannelReceive)
    }
}

impl From<tokio::sync::TryLockError> for QueryError {
    fn from(_err: tokio::sync::TryLockError) -> (r: Self)
        ensures
            r == QueryError::Sync(SyncError::RwLock),
    {
        QueryError::Sync(SyncError::RwLock)
    }
}

impl vstd::std_specs::convert::FromSpecImpl<tokio::sync::TryLockError> for QueryError {
    open spec fn obeys_from_spec() -> bool {
        true
    }

    open spec fn from_spec(_err: tokio::sync::TryLockError) -> Self {
        QueryError::Sync(SyncError::RwLock)
    }
}

impl From<tokio::task::JoinError> for QueryError {
    fn from(_err: tokio::task::JoinError) -> (r: Self)
        ensures
            r == QueryError::Sync(SyncError::JoinTask),
    {
        QueryError::Sync(SyncError::JoinTask)
    }
}

impl vstd::std_specs::convert::FromSpecImpl<tokio::task::JoinError> for QueryError {
    open spec fn obeys_from_spec() -> bool {
        true
    }

    open spec fn from_spec(_err: tokio::task::JoinError) -> Self {
        QueryError::Sync(SyncError::JoinTask)
    }
}

impl From<std::io::Error> for QueryError {
    fn from(err: std::io::Error) -> (r: Self)
        ensures
            r == QueryError::Network(err),
    {
        QueryError::Network(err)
    }
}

impl vstd::std_specs::convert::FromSpecImpl<std::io::Error> for QueryError {
    open spec fn obeys_from_spec() -> bool {
        true
    }

    open spec fn from_spec(err: std::io::Error) -> Self {
        QueryError::Network(err)
    }
}

impl From<serde_json::Error> for QueryError {
    fn from(_err: serde_json::Error) -> (r: Self)
        ensures
            r == QueryError::Serialization(SerializationError::Serde),
    {
        QueryError::Serialization(SerializationError::Serde)
    }
}

impl vstd::std_specs::convert::FromSpecImpl<serde_json::Error> for QueryError {
    open spec fn obeys_from_spec() -> bool {
        true
    }

    open spec fn from_spec(_err: serde_json::Error) -> Self {
        QueryError::Serialization(SerializationError::Serde)
    }
}

impl From<std::io::ErrorKind> for QueryError {
    fn from(err: std::io::ErrorKind) -> (r: Self)
        ensures
            r == query_error_of_kind(err),
    {
        if kind_would_block(err) {
            QueryError::WouldBlock
        } else {
            QueryError::Network(io_error_of_kind(err))
        }
    }
}

impl vstd::std_specs::convert::FromSpecImpl<std::io::ErrorKind> for QueryError {
    open spec fn obeys_from_spec() -> bool {
        true
    }

    open spec fn from_spec(err: std::io::ErrorKind) -> Self {
        query_error_of_kind(err)
    }
}

/// What an I/O error category is reported as: a socket that would block is
/// `WouldBlock`, any other category a network error of that category.
pub open spec fn query_error_of_kind(kind: std::io::ErrorKind) -> QueryError {
    if is_would_block(kind) {
        QueryError::WouldBlock
    } else {
        QueryError::Network(io_error_for(kind))
    }
}

/// Whether an I/O error category is `std::io::ErrorKind::WouldBlock`.
pub uninterp spec fn is_would_block(kind: std::io::ErrorKind) -> bool;

/// Tells the variant `std::io::ErrorKind::WouldBlock` apart from the others;
/// the answer depends on the category alone.
#[verifier::external_body]
fn kind_would_block(kind: std::io::ErrorKind) -> (r: bool)
    ensures
        r == is_would_block(kind),
{
    match kind {
        std::io::ErrorKind::WouldBlock => true,
        _ => false,
    }
}

/// The I/O error that `std::io::Error::from` builds for a category.
pub uninterp spec fn io_error_for(kind: std::io::ErrorKind) -> std::io::Error;

/// Calls `std::io::Error::from(kind)`, which builds an error holding only
/// the category `kind`; the same category always gives the same error.
#[verifier::external_body]
fn io_error_of_kind(kind: std::io::ErrorKind) -> (r: std::io::Error)
    ensures
        r == io_error_for(kind),
{
    std::io::Error::from(kind)
}

/// No error reply is ever reported as a server error: the range tested for
/// it is empty, so codes in -32099..=-32000 come out as `Unknown`.
pub proof fn lemma_no_server_error(e: RPCError)
    ensures
        !(wiz_error_from(e) is Server),
        -32099 <= e.error.code <= -32000 ==> wiz_error_from(e) is Unknown,
{
}

impl WizNetError {
    /// The error a JSON-RPC error reply stands for.
    pub fn from_rpc_error(rpcerror: RPCError) -> (r: Self)
        ensures
            r == wiz_error_from(rpcerror),
    {
        let code = rpcerror.error.code;
        match code {
            -32700 => WizNetError::Parse { data: rpcerror.error.data },
            -32600 => WizNetError::InvalidRequest { data: rpcerror.error.data },
            -32601 => WizNetError::MethodNotFound { data: rpcerror.error.data },
            -32602 => WizNetError::InvalidParameters { data: rpcerror.error.data },
            -32603 => WizNetError::Internal { data: rpcerror.error.data },
            _ => {
                if -32000 <= code && code <= -32099 {
                    WizNetError::Server { message: rpcerror.error.message, data: rpcerror.error.data }
                } else {
                    WizNetError::Unknown { message: rpcerror.error.message, data: rpcerror.error.data }
                }
            },
        }
    }
}

} // verus!

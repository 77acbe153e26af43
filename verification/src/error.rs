//! The command-line errors, their exit codes and their messages.
use vstd::prelude::*;

use crate::protocol::RpcError;
use crate::text::{concat2, concat3, decimal, decimal_string, owned};

verus! {

/// Why a command failed. Each kind has its own exit code.
#[derive(Debug)]
pub enum CliError {
    Connect(String),
    Timeout(String),
    RpcError(RpcError),
    Parse(String),
    InvalidResponse(String),
    InvalidInput(String),
    Other(String),
}

/// The kinds of I/O failure that the client tells apart.
#[derive(Debug, Clone, Copy, PartialEq, Eq, Structural)]
pub enum IoErrorKind {
    ConnectionRefused,
    ConnectionAborted,
    ConnectionReset,
    AddrNotAvailable,
    AddrInUse,
    NotConnected,
    TimedOut,
    WouldBlock,
    Other,
}

/// The exit code of each kind of error: 2 for a failed connection, 3 for an
/// error the server answered, 4 for a timeout, 5 for a response that could not
/// be read or did not fit the protocol, 1 for everything else.
pub open spec fn exit_code_of(e: CliError) -> i32 {
    match e {
        CliError::Connect(_) => 2,
        CliError::RpcError(_) => 3,
        CliError::Timeout(_) => 4,
        CliError::Parse(_) | CliError::InvalidResponse(_) => 5,
        CliError::InvalidInput(_) | CliError::Other(_) => 1,
    }
}

/// Decimal text of a signed integer, with a leading `-` when negative.
pub open spec fn signed_decimal(i: int) -> Seq<char> {
    if i < 0 {
        seq!['-'] + decimal((-i) as nat)
    } else {
        decimal(i as nat)
    }
}

/// The text shown for an error.
pub open spec fn error_text(e: CliError) -> Seq<char> {
    match e {
        CliError::Connect(m) => "connect error: "@ + m@,
        CliError::Timeout(m) => "timeout: "@ + m@,
        CliError::RpcError(r) => "rpc error "@ + signed_decimal(r.code as int) + ": "@ + r.message@,
        CliError::Parse(m) => "parse error: "@ + m@,
        CliError::InvalidResponse(m) => "invalid response: "@ + m@,
        CliError::InvalidInput(m) => "invalid input: "@ + m@,
        CliError::Other(m) => m@,
    }
}

/// The error kind that an I/O failure of kind `kind` becomes.
pub open spec fn io_error_class(kind: IoErrorKind) -> int {
    match kind {
        IoErrorKind::ConnectionRefused | IoErrorKind::ConnectionAborted
        | IoErrorKind::ConnectionReset | IoErrorKind::AddrNotAvailable | IoErrorKind::AddrInUse
        | IoErrorKind::NotConnected => 2,
        IoErrorKind::TimedOut | IoErrorKind::WouldBlock => 4,
        IoErrorKind::Other => 1,
    }
}

/// Decimal text of an `i32`.
pub fn signed_decimal_string(i: i32) -> (r: String)
    ensures
        r@ == signed_decimal(i as int),
{
    if i < 0 {
        let m = (-(i as i64)) as u64;
        let d = decimal_string(m);
        proof {
            reveal_strlit("-");
        }
        concat2("-", d.as_str())
    } else {
        decimal_string(i as u64)
    }
}

impl CliError {
    /// The process exit code for this error.
    pub fn exit_code(&self) -> (r: i32)
        ensures
            r == exit_code_of(*self),
    {
        match self {
            CliError::Connect(_) => 2,
            CliError::RpcError(_) => 3,
            CliError::Timeout(_) => 4,
            CliError::Parse(_) | CliError::InvalidResponse(_) => 5,
            CliError::InvalidInput(_) | CliError::Other(_) => 1,
        }
    }

    /// The message shown for this error (what `Display` writes).
    pub fn message(&self) -> (r: String)
        ensures
            r@ == error_text(*self),
    {
        match self {
            CliError::Connect(m) => concat2("connect error: ", m.as_str()),
            CliError::Timeout(m) => concat2("timeout: ", m.as_str()),
            CliError::RpcError(e) => {
                let code = signed_decimal_string(e.code);
                let head = concat3("rpc error ", code.as_str(), ": ");
                concat2(head.as_str(), e.message.as_str())
            },
            CliError::Parse(m) => concat2("parse error: ", m.as_str()),
            CliError::InvalidResponse(m) => concat2("invalid response: ", m.as_str()),
            CliError::InvalidInput(m) => concat2("invalid input: ", m.as_str()),
            CliError::Other(m) => owned(m.as_str()),
        }
    }

    /// The error a failed TCP connect becomes: always a connection error
    /// (exit 2), whether the peer refused, the connect timed out, or it
    /// failed otherwise. `text` is the failure's own description.
    pub fn connect_error(kind: IoErrorKind, text: String) -> (r: CliError)
        ensures
            r == CliError::Connect(text),
            exit_code_of(r) == 2,
    {
        CliError::Connect(text)
    }

    /// The error that an I/O failure on an open connection (setting
    /// timeouts, writing the request) becomes: failures to reach the peer are
    /// connection errors, timeouts are timeouts, everything else is `Other`.
    /// `text` is the failure's own description.
    pub fn from_io(kind: IoErrorKind, text: String) -> (r: CliError)
        ensures
            io_error_class(kind) == 2 ==> r == CliError::Connect(text),
            io_error_class(kind) == 4 ==> r == CliError::Timeout(text),
            io_error_class(kind) == 1 ==> r == CliError::Other(text),
    {
        match kind {
            IoErrorKind::ConnectionRefused | IoErrorKind::ConnectionAborted
            | IoErrorKind::ConnectionReset | IoErrorKind::AddrNotAvailable
            | IoErrorKind::AddrInUse | IoErrorKind::NotConnected => CliError::Connect(text),
            IoErrorKind::TimedOut | IoErrorKind::WouldBlock => CliError::Timeout(text),
            IoErrorKind::Other => CliError::Other(text),
        }
    }
}

} // verus!

//! `wait-ready`: ping until the server answers, then warn when Rhino has no
//! active document.
use vstd::prelude::*;

use crate::commands::document_state::DocumentState;
use crate::commands::ping::{is_pong, pong_true};
use crate::error::CliError;
use crate::json::Json;
use crate::text::{concat3, decimal, decimal_string};

verus! {

/// How long to wait between two pings, in milliseconds.
pub const READY_POLL_MS: u64 = 100;

/// The next move while waiting for the server.
#[derive(Debug)]
pub enum ReadyPoll {
    /// The server answered; go on to the document check.
    Ready,
    /// Wait this many milliseconds and ping again.
    Retry(u64),
    /// Stop with this error.
    GiveUp(CliError),
}

/// After a ping: ready on `pong: true`; otherwise another ping while less
/// than `timeout_secs` have passed, else a timeout.
pub fn ready_step(outcome: &Result<Json, CliError>, elapsed_ms: u128, timeout_secs: u64) -> (r: ReadyPoll)
    ensures
        (*outcome matches Ok(x) && is_pong(x)) ==> r is Ready,
        !(*outcome matches Ok(x) && is_pong(x)) && elapsed_ms < timeout_secs as int * 1000 ==> r
            == ReadyPoll::Retry(READY_POLL_MS),
        !(*outcome matches Ok(x) && is_pong(x)) && elapsed_ms >= timeout_secs as int * 1000 ==> (r matches ReadyPoll::GiveUp(
            CliError::Timeout(m),
        ) && m@ == "server was not ready within "@ + decimal(timeout_secs as nat) + "s"@),
{
    if ping_ready(outcome) {
        return ReadyPoll::Ready;
    }
    if elapsed_ms < (timeout_secs as u128) * 1000 {
        ReadyPoll::Retry(READY_POLL_MS)
    } else {
        ReadyPoll::GiveUp(not_ready_error(timeout_secs))
    }
}

/// A ping attempt succeeded: the call returned `pong: true`.
pub fn ping_ready(outcome: &Result<Json, CliError>) -> (r: bool)
    ensures
        r == (*outcome matches Ok(x) && is_pong(x)),
{
    match outcome {
        Ok(result) => pong_true(result),
        Err(_) => false,
    }
}

/// The error when the server did not answer within the timeout.
pub fn not_ready_error(timeout_secs: u64) -> (r: CliError)
    ensures
        r matches CliError::Timeout(m) && m@ == "server was not ready within "@ + decimal(timeout_secs as nat)
            + "s"@,
{
    let d = decimal_string(timeout_secs);
    CliError::Timeout(concat3("server was not ready within ", d.as_str(), "s"))
}

/// The active-document check runs unless the command is quiet.
pub fn probes_document(quiet: bool) -> (r: bool)
    ensures
        r == !quiet,
{
    !quiet
}

/// The probe found Rhino without an active document; a failed or unreadable
/// probe warns of nothing.
pub fn warns_missing_document(probe: &Result<Option<DocumentState>, CliError>) -> (r: bool)
    ensures
        r == (*probe matches Ok(Some(s)) && !s.active_doc),
{
    match probe {
        Ok(Some(state)) => state.active_doc_missing(),
        _ => false,
    }
}

} // verus!

//! `ping`: `system.ping` must answer `pong: true`.
use vstd::prelude::*;

use crate::commands::output::{text_or, text_or_unknown};
use crate::commands::CommandContext;
use crate::error::CliError;
use crate::json::Json;
use crate::text::{concat3, decimal, decimal_string, owned};

verus! {

/// A ping result says `pong: true`.
pub open spec fn is_pong(result: Json) -> bool {
    result.field("pong"@) == Some(Json::Bool(true))
}

/// Whether a ping result says `pong: true`.
pub fn pong_true(result: &Json) -> (r: bool)
    ensures
        r == is_pong(*result),
{
    match result.get("pong") {
        Some(v) => v.as_bool() == Some(true),
        None => false,
    }
}

/// A ping result must say `pong: true`.
pub fn check_pong(result: &Json) -> (r: Result<(), CliError>)
    ensures
        r is Ok <==> is_pong(*result),
        r matches Err(e) ==> (e matches CliError::InvalidResponse(m) && m@
            == "system.ping result must contain pong=true"@),
{
    if !pong_true(result) {
        return Err(CliError::InvalidResponse(owned("system.ping result must contain pong=true")));
    }
    Ok(())
}

/// The server and version a ping result names, `unknown` where it names none.
pub open spec fn server_and_version(result: Json) -> Seq<char> {
    text_or(Some(result), "server"@, "unknown"@) + " "@ + text_or(Some(result), "version"@, "unknown"@)
}

/// The note a verbose, non-quiet `ping` prints: who answered and how fast.
pub fn pong_note(ctx: &CommandContext, result: &Json, elapsed_ms: u64) -> (r: Option<String>)
    ensures
        ctx.verbose && !ctx.quiet ==> (r matches Some(n) && n@ == "pong from "@ + server_and_version(*result)
            + " ("@ + decimal(elapsed_ms as nat) + "ms)"@),
        !(ctx.verbose && !ctx.quiet) ==> r is None,
{
    if !(ctx.verbose && !ctx.quiet) {
        return None;
    }
    let server = text_or_unknown(Some(result), "server");
    let version = text_or_unknown(Some(result), "version");
    let ms = decimal_string(elapsed_ms);
    let mut n = concat3("pong from ", server.as_str(), " ");
    n.append(version.as_str());
    n.append(" (");
    n.append(ms.as_str());
    n.append("ms)");
    Some(n)
}

} // verus!

//! What the command line prints when a command fails.
use vstd::prelude::*;

use crate::error::{error_text, CliError};
use crate::json::Json;
use crate::protocol::{rpc_error_json, RpcError};
use crate::text::{concat2, concat3, decimal, decimal_string, owned};

verus! {

/// What is printed on standard error for a failed command.
#[derive(Debug)]
pub enum ErrorReport {
    /// Lines of text, printed one per line.
    Lines(Vec<String>),
    /// A JSON value, printed compactly on one line.
    Value(Json),
}

/// The lines printed when Rhino cannot be reached: the error, then how to
/// start Rhino and the plugin on this port.
pub open spec fn connect_hint(message: Seq<char>, host: Seq<char>, port: u16) -> Seq<Seq<char>> {
    let p = decimal(port as nat);
    seq![
        "connect error: "@ + message,
        ""@,
        "Rhino is not reachable at "@ + host + ":"@ + p
            + ". Start Rhino and RhinoCliPlugin, then retry:"@,
        "  rhino-cli plugin set-port "@ + p,
        "  rhino-cli launch --new-model"@,
        "  rhino-cli wait-ready --port "@ + p + " --timeout 120"@,
        ""@,
        "If Rhino is already running, verify that RhinoCliPlugin is installed and listening on this port."@,
    ]
}

/// `v` is the object `{"error": e}`.
pub open spec fn error_object(e: RpcError, v: Json) -> bool {
    &&& v matches Json::Object(es)
    &&& es@.len() == 1
    &&& es@[0].0@ == "error"@
    &&& rpc_error_json(e, es@[0].1)
}

/// The report of a failed command: a connection failure comes with a hint at
/// `host:port`, an error answered by the server is printed as the JSON object
/// `{"error": ...}`, and any other error as its message.
pub fn error_report(error: CliError, host: &str, port: u16) -> (r: ErrorReport)
    ensures
        error matches CliError::Connect(m) ==> (r matches ErrorReport::Lines(ls) && ls@.map_values(
            |l: String| l@,
        ) == connect_hint(m@, host@, port)),
        error matches CliError::RpcError(e) ==> (r matches ErrorReport::Value(v) && error_object(e, v)),
        !(error is Connect) && !(error is RpcError) ==> (r matches ErrorReport::Lines(ls) && ls@.len()
            == 1 && ls@[0]@ == error_text(error)),
{
    match error {
        CliError::Connect(m) => {
            let p = decimal_string(port as u64);
            let mut ls: Vec<String> = Vec::new();
            ls.push(concat2("connect error: ", m.as_str()));
            ls.push(owned(""));
            let mut reach = concat3("Rhino is not reachable at ", host, ":");
            reach.append(p.as_str());
            reach.append(". Start Rhino and RhinoCliPlugin, then retry:");
            ls.push(reach);
            ls.push(concat2("  rhino-cli plugin set-port ", p.as_str()));
            ls.push(owned("  rhino-cli launch --new-model"));
            ls.push(concat3("  rhino-cli wait-ready --port ", p.as_str(), " --timeout 120"));
            ls.push(owned(""));
            ls.push(
                owned(
                    "If Rhino is already running, verify that RhinoCliPlugin is installed and listening on this port.",
                ),
            );
            assert(ls@.map_values(|l: String| l@) =~= connect_hint(m@, host@, port));
            ErrorReport::Lines(ls)
        },
        CliError::RpcError(e) => {
            let j = e.into_json();
            let mut es: Vec<(String, Json)> = Vec::new();
            es.push((owned("error"), j));
            ErrorReport::Value(Json::Object(es))
        },
        other => {
            let line = other.message();
            let mut ls: Vec<String> = Vec::new();
            ls.push(line);
            ErrorReport::Lines(ls)
        },
    }
}

} // verus!

//! `doctor`: is Rhino running, does the plugin answer, and does Rhino have an
//! active document.
use vstd::prelude::*;

use crate::commands::capabilities::address;
use crate::commands::document_state::{DocumentState, ACTIVE_DOC_MISSING_WARNING};
use crate::commands::output::{line, push_line, push_line2, push_line3, text_or_unknown, Output};
use crate::commands::ping::server_and_version;
use crate::commands::CommandContext;
use crate::error::{error_text, CliError};
use crate::json::Json;
use crate::json_write::{
    lemma_chars_one_line, lemma_decimal_one_line, lemma_join_one_line, lemma_punctuation_one_line,
};
use crate::text::{concat2, concat3, contains, decimal, decimal_string, occurs_at, owned};

verus! {

/// The arguments of `doctor`.
#[derive(Clone, Debug)]
pub struct DoctorArgs {
    pub app: String,
}

/// How a boolean prints.
pub open spec fn bool_text(b: bool) -> Seq<char> {
    if b {
        "true"@
    } else {
        "false"@
    }
}

/// The state of the Rhino app as `doctor` reports it.
pub open spec fn app_status(app: Seq<char>, running: Result<bool, CliError>) -> Seq<char> {
    match running {
        Ok(true) => "running ("@ + app + ")"@,
        Ok(false) => "not running ("@ + app + ")"@,
        Err(e) => "unknown ("@ + error_text(e) + ")"@,
    }
}

/// The first line of `doctor`.
pub fn app_status_line(app: &str, running: &Result<bool, CliError>) -> (r: String)
    ensures
        r@ == line("Rhino app: "@ + app_status(app@, *running)),
{
    let status = match running {
        Ok(true) => concat3("running (", app, ")"),
        Ok(false) => concat3("not running (", app, ")"),
        Err(e) => {
            let m = e.message();
            concat3("unknown (", m.as_str(), ")")
        },
    };
    let mut out = owned("");
    proof {
        reveal_strlit("");
    }
    push_line2(&mut out, "Rhino app: ", status.as_str());
    assert(out@ =~= line("Rhino app: "@ + app_status(app@, *running)));
    out
}

fn address_text(ctx: &CommandContext) -> (r: String)
    ensures
        r@ == address(*ctx),
{
    let p = decimal_string(ctx.port as u64);
    concat3(ctx.host.as_str(), ":", p.as_str())
}

/// What `doctor` prints when the plugin answered the ping.
pub fn reachable_text(ctx: &CommandContext, result: &Json) -> (r: String)
    ensures
        r@ == line("RhinoCliPlugin RPC: reachable at "@ + address(*ctx)) + line(
            "Server: "@ + server_and_version(*result),
        ),
{
    let mut out = owned("");
    proof {
        reveal_strlit("");
    }
    let addr = address_text(ctx);
    push_line2(&mut out, "RhinoCliPlugin RPC: reachable at ", addr.as_str());
    let server = text_or_unknown(Some(result), "server");
    let version = text_or_unknown(Some(result), "version");
    let sv = concat3(server.as_str(), " ", version.as_str());
    push_line2(&mut out, "Server: ", sv.as_str());
    out
}

/// What `doctor` reports of the document probe.
pub open spec fn document_text(probe: Result<Option<DocumentState>, CliError>) -> Seq<char> {
    match probe {
        Ok(Some(s)) => line(
            "Document: active_doc="@ + bool_text(s.active_doc) + " open_count="@ + decimal(
                s.open_count as nat,
            ),
        ) + if !s.active_doc {
            line(Seq::empty()) + line(ACTIVE_DOC_MISSING_WARNING@)
        } else {
            Seq::empty()
        },
        Ok(None) => line(
            "Document: state unknown (rhino.run_python returned no parseable result)"@,
        ),
        Err(e) => line("Document: probe failed ("@ + error_text(e) + ")"@),
    }
}

pub fn document_report(probe: &Result<Option<DocumentState>, CliError>) -> (r: String)
    ensures
        r@ == document_text(*probe),
{
    proof {
        reveal_strlit("");
        assert(""@ =~= Seq::<char>::empty());
    }
    let mut out = owned("");
    match probe {
        Ok(Some(state)) => {
            let b = if state.active_doc {
                owned("true")
            } else {
                owned("false")
            };
            let n = decimal_string(state.open_count as u64);
            let head = concat3("Document: active_doc=", b.as_str(), " open_count=");
            push_line2(&mut out, head.as_str(), n.as_str());
            let ghost s1 = out@;
            if state.active_doc_missing() {
                push_line(&mut out, "");
                push_line(&mut out, ACTIVE_DOC_MISSING_WARNING);
            }
            assert(out@ =~= document_text(*probe));
        },
        Ok(None) => {
            push_line(
                &mut out,
                "Document: state unknown (rhino.run_python returned no parseable result)",
            );
        },
        Err(e) => {
            let m = e.message();
            push_line3(&mut out, "Document: probe failed (", m.as_str(), ")");
        },
    }
    out
}

/// The closing lines of a successful `doctor`.
pub fn next_text(ctx: &CommandContext) -> (r: String)
    ensures
        r@ == line(Seq::empty()) + line("Next:"@) + line(
            "  rhino-cli capabilities --port "@ + decimal(ctx.port as nat),
        ),
{
    proof {
        reveal_strlit("");
        assert(""@ =~= Seq::<char>::empty());
    }
    let mut out = owned("");
    push_line(&mut out, "");
    push_line(&mut out, "Next:");
    let p = decimal_string(ctx.port as u64);
    push_line2(&mut out, "  rhino-cli capabilities --port ", p.as_str());
    out
}

/// What `doctor` prints when the plugin did not answer.
pub open spec fn unreachable_text(ctx: CommandContext, e: CliError) -> Seq<char> {
    let port = decimal(ctx.port as nat);
    line("RhinoCliPlugin RPC: not reachable at "@ + address(ctx)) + line("Reason: "@ + error_text(e))
        + line(Seq::empty()) + line("Suggested:"@) + line("  rhino-cli plugin set-port "@ + port)
        + line("  rhino-cli launch"@) + line("  rhino-cli wait-ready --port "@ + port + " --timeout 120"@)
        + line("  dotnet build plugin/RhinoCliPlugin/RhinoCliPlugin.csproj"@) + line(Seq::empty())
        + line(
        "If Rhino is already running, RhinoCliPlugin may not be installed, loaded, or listening on this port."@,
    )
}

/// What `doctor` prints and returns when the ping failed: a connection failure
/// or a timeout is a diagnosis, not a failure of `doctor`; any other error is.
pub fn unreachable_output(ctx: &CommandContext, error: CliError) -> (r: Output)
    ensures
        r.text@ == unreachable_text(*ctx, error),
        (error is Connect || error is Timeout) ==> r.outcome is Ok,
        !(error is Connect || error is Timeout) ==> r.outcome == Err::<(), CliError>(error),
{
    proof {
        reveal_strlit("");
        assert(""@ =~= Seq::<char>::empty());
    }
    let ghost e0 = error;
    let mut out = owned("");
    let addr = address_text(ctx);
    let p = decimal_string(ctx.port as u64);
    push_line2(&mut out, "RhinoCliPlugin RPC: not reachable at ", addr.as_str());
    let m = error.message();
    push_line2(&mut out, "Reason: ", m.as_str());
    push_line(&mut out, "");
    push_line(&mut out, "Suggested:");
    push_line2(&mut out, "  rhino-cli plugin set-port ", p.as_str());
    push_line(&mut out, "  rhino-cli launch");
    push_line3(&mut out, "  rhino-cli wait-ready --port ", p.as_str(), " --timeout 120");
    push_line(&mut out, "  dotnet build plugin/RhinoCliPlugin/RhinoCliPlugin.csproj");
    push_line(&mut out, "");
    push_line(
        &mut out,
        "If Rhino is already running, RhinoCliPlugin may not be installed, loaded, or listening on this port.",
    );
    assert(out@ =~= unreachable_text(*ctx, e0));
    let outcome = match error {
        CliError::Connect(_) | CliError::Timeout(_) => Ok(()),
        other => Err(other),
    };
    Output { text: out, outcome }
}

/// When the probe finds no active document, the report carries the warning,
/// whatever the number of open documents.
pub proof fn lemma_report_warns_without_active_doc(s: DocumentState)
    requires
        !s.active_doc,
    ensures
        contains(document_text(Ok(Some(s))), ACTIVE_DOC_MISSING_WARNING@),
{
    let head = line(
        "Document: active_doc="@ + bool_text(s.active_doc) + " open_count="@ + decimal(s.open_count as nat),
    ) + line(Seq::empty());
    let hay = document_text(Ok(Some(s)));
    let w = ACTIVE_DOC_MISSING_WARNING@;
    assert(hay.subrange(head.len() as int, (head.len() + w.len()) as int) =~= w);
    assert(occurs_at(hay, w, head.len() as int));
}

/// When the probe finds an active document, the report is one line, whatever
/// the number of open documents: its only line feed is its last character.
pub proof fn lemma_report_one_line_with_active_doc(s: DocumentState)
    requires
        s.active_doc,
    ensures
        document_text(Ok(Some(s))).len() > 0,
        document_text(Ok(Some(s))).last() == '\n',
        !document_text(Ok(Some(s))).drop_last().contains('\n'),
{
    let a = "Document: active_doc="@;
    let b = " open_count="@;
    let d = decimal(s.open_count as nat);
    reveal_strlit("Document: active_doc=");
    reveal_strlit(" open_count=");
    reveal_strlit("\n");
    lemma_chars_one_line(a);
    lemma_chars_one_line(b);
    lemma_punctuation_one_line();
    lemma_decimal_one_line(s.open_count as nat);
    lemma_join_one_line(a, "true"@);
    lemma_join_one_line(a + "true"@, b);
    lemma_join_one_line(a + "true"@ + b, d);
    let h = a + "true"@ + b + d;
    let t = document_text(Ok(Some(s)));
    assert(t =~= h + "\n"@);
    assert(t.drop_last() =~= h);
}

} // verus!

//! `capabilities`: the handlers a server registers, described for people and
//! for agents.
use vstd::prelude::*;

use crate::commands::output::{field, field_text, line, push_line, push_line2, push_line3, Output};
use crate::commands::CommandContext;
use crate::error::CliError;
use crate::json::{object_insert, Json};
use crate::text::{contains, decimal, decimal_string, occurs_at, owned};

verus! {

/// How `capabilities` prints.
#[derive(Clone, Copy, Debug, Eq, PartialEq, Structural)]
pub enum CapabilitiesFormat {
    Text,
    Json,
    Markdown,
    Agent,
}

/// The arguments of `capabilities`.
#[derive(Clone, Debug)]
pub struct CapabilitiesArgs {
    pub method: Option<String>,
    pub format: CapabilitiesFormat,
}

/// The parameters of `rpc.capabilities`: `{"method": <name>}` for one method,
/// `null` for all.
pub fn capabilities_params(method: &Option<String>) -> (r: Json)
    ensures
        method is None ==> r == Json::Null,
        method matches Some(m) ==> (r matches Json::Object(es) && es@.len() == 1
            && r.str_field("method"@) == Some(m@)),
{
    match method {
        Some(m) => {
            let mut es: Vec<(String, Json)> = Vec::new();
            object_insert(&mut es, owned("method"), Json::string(m.as_str()));
            Json::Object(es)
        },
        None => Json::Null,
    }
}

/// How a capabilities result is printed.
#[derive(Clone, Copy, Debug, Eq, PartialEq, Structural)]
pub enum Rendering {
    Json,
    Text,
    Markdown,
    Agent,
}

/// The result is printed as JSON in the JSON format and whenever raw output is
/// asked for; otherwise in the chosen format.
pub fn rendering_for(ctx: &CommandContext, args: &CapabilitiesArgs) -> (r: Rendering)
    ensures
        (args.format == CapabilitiesFormat::Json || ctx.raw) <==> r == Rendering::Json,
        !ctx.raw && args.format == CapabilitiesFormat::Text ==> r == Rendering::Text,
        !ctx.raw && args.format == CapabilitiesFormat::Markdown ==> r == Rendering::Markdown,
        !ctx.raw && args.format == CapabilitiesFormat::Agent ==> r == Rendering::Agent,
{
    if args.format == CapabilitiesFormat::Json || ctx.raw {
        return Rendering::Json;
    }
    match args.format {
        CapabilitiesFormat::Text => Rendering::Text,
        CapabilitiesFormat::Markdown => Rendering::Markdown,
        _ => Rendering::Agent,
    }
}

/// The texts among `xs`, in order.
pub open spec fn string_items(xs: Seq<Json>) -> Seq<Seq<char>>
    decreases xs.len(),
{
    if xs.len() == 0 {
        Seq::empty()
    } else {
        let rest = string_items(xs.drop_last());
        match xs.last() {
            Json::Str(s) => rest.push(s@),
            _ => rest,
        }
    }
}

/// The example commands of a method: the strings of its `examples` array.
pub open spec fn examples_of(m: Json) -> Seq<Seq<char>> {
    match m.field("examples"@) {
        Some(Json::Array(v)) => string_items(v@),
        _ => Seq::empty(),
    }
}

/// The example commands of a method.
pub fn examples(method: &Json) -> (r: Vec<&str>)
    ensures
        r@.len() == examples_of(*method).len(),
        forall|i: int| 0 <= i < r@.len() ==> #[trigger] r@[i]@ == examples_of(*method)[i],
{
    let mut out: Vec<&str> = Vec::new();
    match method.get("examples") {
        Some(Json::Array(v)) => {
            let mut i: usize = 0;
            while i < v.len()
                invariant
                    i <= v.len(),
                    out@.len() == string_items(v@.subrange(0, i as int)).len(),
                    forall|j: int| 0 <= j < out@.len() ==> #[trigger] out@[j]@ == string_items(
                        v@.subrange(0, i as int),
                    )[j],
                decreases v.len() - i,
            {
                assert(v@.subrange(0, i + 1).drop_last() =~= v@.subrange(0, i as int));
                match &v[i] {
                    Json::Str(s) => out.push(s.as_str()),
                    _ => {},
                }
                i = i + 1;
            }
            assert(v@.subrange(0, v@.len() as int) =~= v@);
        },
        _ => {},
    }
    out
}

/// One line per item: `pre`, the item, `post`.
pub open spec fn item_lines(items: Seq<Seq<char>>, pre: Seq<char>, post: Seq<char>) -> Seq<char>
    decreases items.len(),
{
    if items.len() == 0 {
        Seq::empty()
    } else {
        item_lines(items.drop_last(), pre, post) + line(pre + items.last() + post)
    }
}

fn push_item_lines(out: &mut String, items: &Vec<&str>, pre: &str, post: &str)
    ensures
        final(out)@ == old(out)@ + item_lines(items@.map_values(|s: &str| s@), pre@, post@),
{
    let ghost start = out@;
    let ghost all = items@.map_values(|s: &str| s@);
    let mut i: usize = 0;
    assert(all.subrange(0, 0).len() == 0);
    assert(out@ =~= start + item_lines(all.subrange(0, 0), pre@, post@));
    while i < items.len()
        invariant
            i <= items.len(),
            all == items@.map_values(|s: &str| s@),
            out@ == start + item_lines(all.subrange(0, i as int), pre@, post@),
        decreases items.len() - i,
    {
        assert(all.subrange(0, i + 1).drop_last() =~= all.subrange(0, i as int));
        assert(all.subrange(0, i + 1).last() == items@[i as int]@);
        push_line3(out, pre, items[i], post);
        i = i + 1;
        assert(out@ =~= start + item_lines(all.subrange(0, i as int), pre@, post@));
    }
    assert(all.subrange(0, items@.len() as int) =~= all);
}

/// `s`, when it is not empty, as one line.
pub open spec fn line_if(s: Seq<char>, pre: Seq<char>) -> Seq<char> {
    if s.len() > 0 {
        line(pre + s)
    } else {
        Seq::empty()
    }
}

/// The params and result shapes of a method, shown in detail or when the
/// method has a dedicated command.
pub open spec fn schema_lines(m: Json, detailed: bool) -> Seq<char> {
    if detailed || field_text(m, "dedicatedCommand"@).len() > 0 {
        line("  Params: "@ + field_text(m, "paramsSchema"@)) + line(
            "  Result: "@ + field_text(m, "resultSchema"@),
        )
    } else {
        Seq::empty()
    }
}

/// The plain-text description of one method; `detailed` always shows its
/// params and result shapes, which are shown otherwise only for a method with
/// a dedicated command.
pub open spec fn method_text(m: Json, detailed: bool) -> Seq<char> {
    line(field_text(m, "method"@)) + line_if(field_text(m, "description"@), "  "@) + schema_lines(
        m,
        detailed,
    ) + line_if(field_text(m, "dedicatedCommand"@), "  CLI: "@) + line_if(
        field_text(m, "sideEffects"@),
        "  Side effects: "@,
    ) + item_lines(examples_of(m), "  Example: "@, Seq::empty()) + line(Seq::empty())
}

fn push_line_if(out: &mut String, pre: &str, s: &str)
    ensures
        final(out)@ == old(out)@ + line_if(s@, pre@),
{
    if s.unicode_len() != 0 {
        push_line2(out, pre, s);
    } else {
        assert(old(out)@ + Seq::<char>::empty() =~= old(out)@);
    }
}

/// Appends the plain-text description of one method.
#[verifier::rlimit(60)]
pub fn print_method_text(out: &mut String, method: &Json, detailed: bool)
    ensures
        final(out)@ == old(out)@ + method_text(*method, detailed),
{
    proof {
        reveal_strlit("");
        assert(""@ =~= Seq::<char>::empty());
    }
    let ghost m = *method;
    let ghost s0 = out@;
    push_line(out, field(method, "method"));
    let ghost s1 = out@;
    push_line_if(out, "  ", field(method, "description"));
    let ghost s2 = out@;
    let dedicated = field(method, "dedicatedCommand");
    if detailed || dedicated.unicode_len() != 0 {
        push_line2(out, "  Params: ", field(method, "paramsSchema"));
        push_line2(out, "  Result: ", field(method, "resultSchema"));
        assert(out@ =~= s2 + schema_lines(m, detailed));
    } else {
        assert(out@ =~= s2 + schema_lines(m, detailed));
    }
    let ghost s3 = out@;
    push_line_if(out, "  CLI: ", dedicated);
    let ghost s4 = out@;
    push_line_if(out, "  Side effects: ", field(method, "sideEffects"));
    let ghost s5 = out@;
    let ex = examples(method);
    assert(ex@.map_values(|s: &str| s@) =~= examples_of(m));
    push_item_lines(out, &ex, "  Example: ", "");
    let ghost s6 = out@;
    push_line(out, "");
    assert(out@ =~= s0 + method_text(m, detailed));
}

/// The description lines of a method in Markdown.
pub open spec fn markdown_description(m: Json) -> Seq<char> {
    if field_text(m, "description"@).len() > 0 {
        line(field_text(m, "description"@)) + line(Seq::empty())
    } else {
        Seq::empty()
    }
}

/// The dedicated-command line of a method in Markdown.
pub open spec fn markdown_dedicated(m: Json) -> Seq<char> {
    if field_text(m, "dedicatedCommand"@).len() > 0 {
        line("- Dedicated CLI: `"@ + field_text(m, "dedicatedCommand"@) + "`"@)
    } else {
        Seq::empty()
    }
}

/// The examples section of a method in Markdown.
pub open spec fn markdown_examples(m: Json) -> Seq<char> {
    if examples_of(m).len() > 0 {
        line(Seq::empty()) + line("Examples:"@) + item_lines(examples_of(m), "- `"@, "`"@)
    } else {
        Seq::empty()
    }
}

/// The title and description of a method in Markdown.
pub open spec fn markdown_head(m: Json) -> Seq<char> {
    line("## `"@ + field_text(m, "method"@) + "`"@) + line(Seq::empty()) + markdown_description(m)
}

/// The shapes, dedicated command and side effects of a method in Markdown.
pub open spec fn markdown_facts(m: Json) -> Seq<char> {
    line("- Params: `"@ + field_text(m, "paramsSchema"@) + "`"@) + line(
        "- Result: `"@ + field_text(m, "resultSchema"@) + "`"@,
    ) + markdown_dedicated(m) + line_if(field_text(m, "sideEffects"@), "- Side effects: "@)
}

/// The Markdown description of one method.
pub open spec fn method_markdown(m: Json) -> Seq<char> {
    markdown_head(m) + markdown_facts(m) + markdown_examples(m) + line(Seq::empty())
}

fn push_markdown_head(out: &mut String, method: &Json)
    ensures
        final(out)@ == old(out)@ + markdown_head(*method),
{
    proof {
        reveal_strlit("");
        assert(""@ =~= Seq::<char>::empty());
    }
    let ghost s0 = out@;
    push_line3(out, "## `", field(method, "method"), "`");
    push_line(out, "");
    let ghost s1 = out@;
    let description = field(method, "description");
    if description.unicode_len() != 0 {
        push_line(out, description);
        push_line(out, "");
    }
    assert(out@ =~= s1 + markdown_description(*method));
    assert(out@ =~= s0 + markdown_head(*method));
}

fn push_markdown_facts(out: &mut String, method: &Json)
    ensures
        final(out)@ == old(out)@ + markdown_facts(*method),
{
    let ghost s0 = out@;
    push_line3(out, "- Params: `", field(method, "paramsSchema"), "`");
    push_line3(out, "- Result: `", field(method, "resultSchema"), "`");
    let ghost s1 = out@;
    let dedicated = field(method, "dedicatedCommand");
    if dedicated.unicode_len() != 0 {
        push_line3(out, "- Dedicated CLI: `", dedicated, "`");
    }
    assert(out@ =~= s1 + markdown_dedicated(*method));
    push_line_if(out, "- Side effects: ", field(method, "sideEffects"));
    assert(out@ =~= s0 + markdown_facts(*method));
}

fn push_markdown_examples(out: &mut String, method: &Json)
    ensures
        final(out)@ == old(out)@ + markdown_examples(*method),
{
    proof {
        reveal_strlit("");
        assert(""@ =~= Seq::<char>::empty());
    }
    let ghost s0 = out@;
    let ex = examples(method);
    assert(ex@.map_values(|s: &str| s@) =~= examples_of(*method));
    if ex.len() != 0 {
        push_line(out, "");
        push_line(out, "Examples:");
        push_item_lines(out, &ex, "- `", "`");
    }
    assert(out@ =~= s0 + markdown_examples(*method));
}

/// Appends the Markdown description of one method.
pub fn print_method_markdown(out: &mut String, method: &Json)
    ensures
        final(out)@ == old(out)@ + method_markdown(*method),
{
    proof {
        reveal_strlit("");
        assert(""@ =~= Seq::<char>::empty());
    }
    let ghost s0 = out@;
    push_markdown_head(out, method);
    push_markdown_facts(out, method);
    push_markdown_examples(out, method);
    push_line(out, "");
    assert(out@ =~= s0 + method_markdown(*method));
}

/// The `methods` array of a capabilities result.
pub fn methods_value(result: &Json) -> (r: Result<&Vec<Json>, CliError>)
    ensures
        r matches Ok(v) ==> (result.field("methods"@) matches Some(Json::Array(w)) && w@ == v@),
        r is Err <==> !(result.field("methods"@) matches Some(Json::Array(_))),
        r matches Err(e) ==> (e matches CliError::InvalidResponse(m) && m@
            == "rpc.capabilities result must contain methods[]"@),
{
    match result.get("methods") {
        Some(Json::Array(v)) => Ok(v),
        _ => Err(
            CliError::InvalidResponse(owned("rpc.capabilities result must contain methods[]")),
        ),
    }
}

/// The `method` entry of a capabilities result for one method.
pub fn method_value(result: &Json) -> (r: Result<&Json, CliError>)
    ensures
        r matches Ok(v) ==> result.field("method"@) == Some(*v),
        r is Err <==> result.field("method"@) is None,
        r matches Err(e) ==> (e matches CliError::InvalidResponse(m) && m@
            == "rpc.capabilities result must contain method"@),
{
    match result.get("method") {
        Some(v) => Ok(v),
        None => Err(CliError::InvalidResponse(owned("rpc.capabilities result must contain method"))),
    }
}

/// One part of the server's title: the text under `k1`, or else under `k2`,
/// of the `server` object; `unknown` when there is none. A value under `k1`
/// that is not a text hides `k2`.
pub open spec fn title_part(result: Json, k1: Seq<char>, k2: Seq<char>) -> Seq<char> {
    match result.field("server"@) {
        Some(s) => match (match s.field(k1) {
            Some(v) => Some(v),
            None => s.field(k2),
        }) {
            Some(Json::Str(t)) => t@,
            _ => "unknown"@,
        },
        None => "unknown"@,
    }
}

/// The server's title: its plugin id and its version.
pub open spec fn title_of(result: Json) -> Seq<char> {
    title_part(result, "pluginId"@, "plugin_id"@) + " "@ + title_part(
        result,
        "serverVersion"@,
        "server_version"@,
    )
}

fn title_piece(result: &Json, k1: &str, k2: &str) -> (r: String)
    ensures
        r@ == title_part(*result, k1@, k2@),
{
    match result.get("server") {
        Some(s) => {
            let v = match s.get(k1) {
                Some(v) => Some(v),
                None => s.get(k2),
            };
            match v {
                Some(Json::Str(t)) => owned(t.as_str()),
                _ => owned("unknown"),
            }
        },
        None => owned("unknown"),
    }
}

/// `<plugin id> <server version>` of a capabilities result.
pub fn server_title(result: &Json) -> (r: String)
    ensures
        r@ == title_of(*result),
{
    let plugin = title_piece(result, "pluginId", "plugin_id");
    let version = title_piece(result, "serverVersion", "server_version");
    crate::text::concat3(plugin.as_str(), " ", version.as_str())
}

/// `host:port`.
pub open spec fn address(ctx: CommandContext) -> Seq<char> {
    ctx.host@ + ":"@ + decimal(ctx.port as nat)
}

/// The plain-text descriptions of a list of methods.
pub open spec fn methods_text(ms: Seq<Json>) -> Seq<char>
    decreases ms.len(),
{
    if ms.len() == 0 {
        Seq::empty()
    } else {
        methods_text(ms.drop_last()) + method_text(ms.last(), false)
    }
}

/// The Markdown descriptions of a list of methods.
pub open spec fn methods_markdown(ms: Seq<Json>) -> Seq<char>
    decreases ms.len(),
{
    if ms.len() == 0 {
        Seq::empty()
    } else {
        methods_markdown(ms.drop_last()) + method_markdown(ms.last())
    }
}

fn push_methods(out: &mut String, ms: &Vec<Json>, markdown: bool)
    ensures
        final(out)@ == old(out)@ + if markdown {
            methods_markdown(ms@)
        } else {
            methods_text(ms@)
        },
{
    let ghost start = out@;
    let mut i: usize = 0;
    assert(ms@.subrange(0, 0).len() == 0);
    assert(out@ =~= start + if markdown {
        methods_markdown(ms@.subrange(0, 0))
    } else {
        methods_text(ms@.subrange(0, 0))
    });
    while i < ms.len()
        invariant
            i <= ms.len(),
            out@ == start + if markdown {
                methods_markdown(ms@.subrange(0, i as int))
            } else {
                methods_text(ms@.subrange(0, i as int))
            },
        decreases ms.len() - i,
    {
        assert(ms@.subrange(0, i + 1).drop_last() =~= ms@.subrange(0, i as int));
        assert(ms@.subrange(0, i + 1).last() == ms@[i as int]);
        if markdown {
            print_method_markdown(out, &ms[i]);
        } else {
            print_method_text(out, &ms[i], false);
        }
        i = i + 1;
        assert(out@ =~= start + if markdown {
            methods_markdown(ms@.subrange(0, i as int))
        } else {
            methods_text(ms@.subrange(0, i as int))
        });
    }
    assert(ms@.subrange(0, ms@.len() as int) =~= ms@);
}

fn address_text(ctx: &CommandContext) -> (r: String)
    ensures
        r@ == address(*ctx),
{
    let p = decimal_string(ctx.port as u64);
    crate::text::concat3(ctx.host.as_str(), ":", p.as_str())
}

/// The plain-text listing: a header, then one method in detail when one was
/// asked for, else every method.
pub open spec fn text_header(ctx: CommandContext, result: Json) -> Seq<char> {
    line("Capabilities from "@ + title_of(result)) + line("Connection: "@ + address(ctx)) + line(
        Seq::empty(),
    )
}

pub fn print_text(ctx: &CommandContext, result: &Json, requested_method: Option<&str>) -> (r: Output)
    ensures
        requested_method is Some ==> (match result.field("method"@) {
            Some(m) => r.text@ == text_header(*ctx, *result) + method_text(m, true) && r.outcome is Ok,
            None => r.text@ == text_header(*ctx, *result) && r.outcome matches Err(
                CliError::InvalidResponse(_),
            ),
        }),
        requested_method is None ==> (match result.field("methods"@) {
            Some(Json::Array(ms)) => r.text@ == text_header(*ctx, *result) + methods_text(ms@)
                && r.outcome is Ok,
            _ => r.text@ == text_header(*ctx, *result) && r.outcome matches Err(
                CliError::InvalidResponse(_),
            ),
        }),
{
    proof {
        reveal_strlit("");
        assert(""@ =~= Seq::<char>::empty());
    }
    let mut out = owned("");
    let title = server_title(result);
    push_line2(&mut out, "Capabilities from ", title.as_str());
    let addr = address_text(ctx);
    push_line2(&mut out, "Connection: ", addr.as_str());
    push_line(&mut out, "");
    assert(out@ =~= text_header(*ctx, *result));
    if requested_method.is_some() {
        match method_value(result) {
            Ok(m) => {
                print_method_text(&mut out, m, true);
                return Output { text: out, outcome: Ok(()) };
            },
            Err(e) => return Output { text: out, outcome: Err(e) },
        }
    }
    match methods_value(result) {
        Ok(ms) => {
            push_methods(&mut out, ms, false);
            Output { text: out, outcome: Ok(()) }
        },
        Err(e) => Output { text: out, outcome: Err(e) },
    }
}

/// The Markdown listing: a title and the connection, then one method when one
/// was asked for, else every method.
pub open spec fn markdown_header(ctx: CommandContext, result: Json) -> Seq<char> {
    line("# "@ + title_of(result)) + line(Seq::empty()) + line("Connection: `"@ + address(ctx) + "`"@)
        + line(Seq::empty())
}

pub fn print_markdown(ctx: &CommandContext, result: &Json, requested_method: Option<&str>) -> (r: Output)
    ensures
        requested_method is Some ==> (match result.field("method"@) {
            Some(m) => r.text@ == markdown_header(*ctx, *result) + method_markdown(m) && r.outcome is Ok,
            None => r.text@ == markdown_header(*ctx, *result) && r.outcome matches Err(
                CliError::InvalidResponse(_),
            ),
        }),
        requested_method is None ==> (match result.field("methods"@) {
            Some(Json::Array(ms)) => r.text@ == markdown_header(*ctx, *result) + methods_markdown(ms@)
                && r.outcome is Ok,
            _ => r.text@ == markdown_header(*ctx, *result) && r.outcome matches Err(
                CliError::InvalidResponse(_),
            ),
        }),
{
    proof {
        reveal_strlit("");
        assert(""@ =~= Seq::<char>::empty());
    }
    let mut out = owned("");
    let title = server_title(result);
    push_line2(&mut out, "# ", title.as_str());
    push_line(&mut out, "");
    let addr = address_text(ctx);
    push_line3(&mut out, "Connection: `", addr.as_str(), "`");
    push_line(&mut out, "");
    assert(out@ =~= markdown_header(*ctx, *result));
    if requested_method.is_some() {
        match method_value(result) {
            Ok(m) => {
                print_method_markdown(&mut out, m);
                return Output { text: out, outcome: Ok(()) };
            },
            Err(e) => return Output { text: out, outcome: Err(e) },
        }
    }
    match methods_value(result) {
        Ok(ms) => {
            push_methods(&mut out, ms, true);
            Output { text: out, outcome: Ok(()) }
        },
        Err(e) => Output { text: out, outcome: Err(e) },
    }
}

/// The context an agent is given: the connection, the server, the core
/// workflow with the context's port filled in, then every handler in Markdown.
pub open spec fn agent_header(ctx: CommandContext, result: Json) -> Seq<char> {
    let port = decimal(ctx.port as nat);
    line("# rhino-cli Agent Context"@) + line(Seq::empty()) + line(
        "Connection: `"@ + address(ctx) + "`"@,
    ) + line("Server: `"@ + title_of(result) + "`"@) + line(Seq::empty()) + line("Core workflow:"@)
        + line("- Check environment: `rhino-cli doctor --port "@ + port + "`"@) + line(
        "- Open Rhino to a modeling window: `rhino-cli launch` then `rhino-cli wait-ready --port "@
            + port + " --timeout 120`"@,
    ) + line("- Inspect capabilities: `rhino-cli capabilities --port "@ + port + "`"@) + line(
        "- Execute arbitrary handlers: `rhino-cli call <method> '<json>' --port "@ + port + "`"@,
    ) + line("- Prefer dedicated commands when a handler lists one."@) + line(Seq::empty()) + line(
        "Available handlers:"@,
    ) + line(Seq::empty())
}

pub fn print_agent(ctx: &CommandContext, result: &Json) -> (r: Output)
    ensures
        match result.field("methods"@) {
            Some(Json::Array(ms)) => r.text@ == agent_header(*ctx, *result) + methods_markdown(ms@)
                && r.outcome is Ok,
            _ => r.text@ == agent_header(*ctx, *result) && r.outcome matches Err(
                CliError::InvalidResponse(_),
            ),
        },
{
    proof {
        reveal_strlit("");
        assert(""@ =~= Seq::<char>::empty());
    }
    let mut out = owned("");
    let port = decimal_string(ctx.port as u64);
    let p = port.as_str();
    push_line(&mut out, "# rhino-cli Agent Context");
    push_line(&mut out, "");
    let addr = address_text(ctx);
    push_line3(&mut out, "Connection: `", addr.as_str(), "`");
    let title = server_title(result);
    push_line3(&mut out, "Server: `", title.as_str(), "`");
    push_line(&mut out, "");
    push_line(&mut out, "Core workflow:");
    push_line3(&mut out, "- Check environment: `rhino-cli doctor --port ", p, "`");
    push_line3(
        &mut out,
        "- Open Rhino to a modeling window: `rhino-cli launch` then `rhino-cli wait-ready --port ",
        p,
        " --timeout 120`",
    );
    push_line3(&mut out, "- Inspect capabilities: `rhino-cli capabilities --port ", p, "`");
    push_line3(&mut out, "- Execute arbitrary handlers: `rhino-cli call <method> '<json>' --port ", p, "`");
    push_line(&mut out, "- Prefer dedicated commands when a handler lists one.");
    push_line(&mut out, "");
    push_line(&mut out, "Available handlers:");
    push_line(&mut out, "");
    assert(out@ =~= agent_header(*ctx, *result));
    match methods_value(result) {
        Ok(ms) => {
            push_methods(&mut out, ms, true);
            Output { text: out, outcome: Ok(()) }
        },
        Err(e) => Output { text: out, outcome: Err(e) },
    }
}

/// The detailed description of a method shows its params shape and its
/// result shape, on two lines one after the other, whether or not the method
/// has a dedicated command.
pub proof fn lemma_detailed_text_shows_shapes(m: Json)
    ensures
        contains(
            method_text(m, true),
            line("  Params: "@ + field_text(m, "paramsSchema"@)) + line(
                "  Result: "@ + field_text(m, "resultSchema"@),
            ),
        ),
{
    let pre = line(field_text(m, "method"@)) + line_if(field_text(m, "description"@), "  "@);
    let needle = line("  Params: "@ + field_text(m, "paramsSchema"@)) + line(
        "  Result: "@ + field_text(m, "resultSchema"@),
    );
    let hay = method_text(m, true);
    assert(hay.subrange(pre.len() as int, (pre.len() + needle.len()) as int) =~= needle);
    assert(occurs_at(hay, needle, pre.len() as int));
}

/// Asking for detail adds the params and result lines exactly to a method
/// without a dedicated command; a method with one shows them either way.
pub proof fn lemma_detail_adds_shapes_only_without_command(m: Json)
    ensures
        field_text(m, "dedicatedCommand"@).len() > 0 ==> method_text(m, true) == method_text(m, false),
        field_text(m, "dedicatedCommand"@).len() == 0 ==> method_text(m, true).len() == method_text(
            m,
            false,
        ).len() + line("  Params: "@ + field_text(m, "paramsSchema"@)).len() + line(
            "  Result: "@ + field_text(m, "resultSchema"@),
        ).len(),
{
}

} // verus!

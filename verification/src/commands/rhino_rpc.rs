//! The commands that call the bundled plugin's `rhino.*` handlers: which
//! parameters each sends, and how their results are read.
use vstd::prelude::*;

use crate::commands::output::line;
use crate::error::{error_text, CliError};
use crate::json::{has_key, lookup, object_insert, take_field, Json, Number};
use crate::text::{chars_of, concat2, join, owned};

verus! {

/// The arguments of `run-script`.
#[derive(Clone, Debug)]
pub struct RunScriptArgs {
    pub script: String,
    pub echo: bool,
    pub mru_display_string: Option<String>,
    pub fail_on_false: bool,
}

/// The arguments of `history`.
#[derive(Clone, Debug)]
pub struct HistoryArgs {
    pub tail: Option<u32>,
    pub clear: bool,
    pub json: bool,
}

/// The arguments of `new-model`.
#[derive(Clone, Debug)]
pub struct NewModelArgs {
    pub template: Option<String>,
}

/// The arguments of `list-commands`.
#[derive(Clone, Debug)]
pub struct ListCommandsArgs {
    pub pattern: Option<String>,
    pub include_unloaded: bool,
}

/// The arguments of `probe-command`.
#[derive(Clone, Debug)]
pub struct ProbeCommandArgs {
    pub name: String,
}

/// The arguments of `inspect-type`.
#[derive(Clone, Debug)]
pub struct InspectTypeArgs {
    pub name: String,
    pub binding: Option<String>,
    pub include_inherited: bool,
}

/// The arguments of `search-types`.
#[derive(Clone, Debug)]
pub struct SearchTypesArgs {
    pub pattern: String,
    pub scope: Option<String>,
    pub assembly: Option<String>,
    pub limit: Option<u32>,
}

/// The arguments of `decompile-method`.
#[derive(Clone, Debug)]
pub struct DecompileMethodArgs {
    pub type_fqn: String,
    pub method: String,
    pub signature: Option<String>,
}

/// The arguments of `inspect-type --with-body`: the inspection, and the
/// methods whose bodies are decompiled into its result.
/// The arguments of `execute-panel-js`: the panel's GUID and the script.
#[derive(Clone, Debug)]
pub struct ExecutePanelJsArgs {
    pub panel: String,
    pub script: String,
}

#[derive(Clone, Debug)]
pub struct InspectTypeWithBodyArgs {
    pub inspect: InspectTypeArgs,
    pub with_body: Vec<String>,
}

/// An optional text parameter: present as a string, or absent.
pub open spec fn opt_text(v: Option<String>) -> Option<Seq<char>> {
    match v {
        Some(s) => Some(s@),
        None => None,
    }
}

/// The optional field `key` of an object holds the text `v`, or is absent.
pub open spec fn optional_field(es: Seq<(String, Json)>, key: Seq<char>, v: Option<Seq<char>>) -> bool {
    match v {
        Some(t) => lookup(es, key) matches Some(x) && x.text() == Some(t),
        None => lookup(es, key) is None,
    }
}

/// A text field `key` of an object holds `t`.
pub open spec fn text_field(es: Seq<(String, Json)>, key: Seq<char>, t: Seq<char>) -> bool {
    lookup(es, key) matches Some(x) && x.text() == Some(t)
}

/// The parameter names differ.
proof fn lemma_param_names_distinct()
    ensures
        "script"@ != "echo"@,
        "script"@ != "mru_display_string"@,
        "echo"@ != "mru_display_string"@,
        "include_unloaded"@ != "pattern"@,
        "name"@ != "include_inherited"@,
        "name"@ != "binding"@,
        "include_inherited"@ != "binding"@,
        "pattern"@ != "scope"@,
        "pattern"@ != "assembly"@,
        "pattern"@ != "limit"@,
        "scope"@ != "assembly"@,
        "scope"@ != "limit"@,
        "assembly"@ != "limit"@,
        "type"@ != "method"@,
        "type"@ != "signature"@,
        "method"@ != "signature"@,
{
    reveal_strlit("script");
    reveal_strlit("echo");
    reveal_strlit("mru_display_string");
    reveal_strlit("include_unloaded");
    reveal_strlit("pattern");
    reveal_strlit("name");
    reveal_strlit("include_inherited");
    reveal_strlit("binding");
    reveal_strlit("scope");
    reveal_strlit("assembly");
    reveal_strlit("limit");
    reveal_strlit("type");
    reveal_strlit("method");
    reveal_strlit("signature");
    assert("script"@.len() != "echo"@.len());
    assert("script"@.len() != "mru_display_string"@.len());
    assert("echo"@.len() != "mru_display_string"@.len());
    assert("include_unloaded"@.len() != "pattern"@.len());
    assert("name"@.len() != "include_inherited"@.len());
    assert("name"@.len() != "binding"@.len());
    assert("include_inherited"@.len() != "binding"@.len());
    assert("pattern"@.len() != "scope"@.len());
    assert("pattern"@.len() != "assembly"@.len());
    assert("pattern"@.len() != "limit"@.len());
    assert("scope"@.len() != "assembly"@.len());
    assert("scope"@[0] != "limit"@[0]);
    assert("assembly"@.len() != "limit"@.len());
    assert("type"@.len() != "method"@.len());
    assert("type"@.len() != "signature"@.len());
    assert("method"@.len() != "signature"@.len());
}

proof fn lemma_empty_lookup(es: Seq<(String, Json)>)
    requires
        es.len() == 0,
    ensures
        forall|k: Seq<char>| #[trigger] lookup(es, k) is None,
{
    assert forall|k: Seq<char>| #[trigger] lookup(es, k) is None by {
        reveal_with_fuel(lookup, 1);
    }
}

fn insert_text(es: &mut Vec<(String, Json)>, key: &str, value: &str)
    ensures
        text_field(final(es)@, key@, value@),
        forall|k: Seq<char>| k != key@ ==> #[trigger] lookup(final(es)@, k) == lookup(old(es)@, k),
        old(es)@.len() == 0 ==> final(es)@.len() == 1,
{
    object_insert(es, owned(key), Json::string(value));
}

fn insert_opt_text(es: &mut Vec<(String, Json)>, key: &str, value: &Option<String>)
    requires
        lookup(old(es)@, key@) is None,
    ensures
        optional_field(final(es)@, key@, opt_text(*value)),
        forall|k: Seq<char>| k != key@ ==> #[trigger] lookup(final(es)@, k) == lookup(old(es)@, k),
{
    match value {
        Some(v) => insert_text(es, key, v.as_str()),
        None => {},
    }
}

/// The parameters of `rhino.run_script`: the script, whether to echo it, and
/// the MRU display string when there is one.
pub fn run_script_params(args: &RunScriptArgs) -> (r: Json)
    ensures
        r matches Json::Object(es) && text_field(es@, "script"@, args.script@) && lookup(es@, "echo"@)
            == Some(Json::Bool(args.echo)) && optional_field(
            es@,
            "mru_display_string"@,
            opt_text(args.mru_display_string),
        ),
{
    proof {
        lemma_param_names_distinct();
    }
    let mut es: Vec<(String, Json)> = Vec::new();
    proof {
        lemma_empty_lookup(es@);
    }
    object_insert(&mut es, owned("echo"), Json::Bool(args.echo));
    insert_opt_text(&mut es, "mru_display_string", &args.mru_display_string);
    insert_text(&mut es, "script", args.script.as_str());
    Json::Object(es)
}

/// A run-script result that says `success: false` fails the command when
/// `--fail-on-false` was given.
pub fn check_script_result(fail_on_false: bool, result: &Json) -> (r: Result<(), CliError>)
    ensures
        r is Err <==> (fail_on_false && result.field("success"@) == Some(Json::Bool(false))),
        r matches Err(e) ==> (e matches CliError::Other(m) && m@ == "Rhino script returned success=false"@),
{
    let success = match result.get("success") {
        Some(v) => v.as_bool(),
        None => None,
    };
    if fail_on_false && success == Some(false) {
        return Err(CliError::Other(owned("Rhino script returned success=false")));
    }
    Ok(())
}

/// The method `history` calls and its parameters: clearing takes none; reading
/// takes the number of trailing lines when one was given.
pub fn history_call(args: &HistoryArgs) -> (r: (String, Json))
    ensures
        args.clear ==> r.0@ == "rhino.clear_command_history"@ && r.1 == Json::Null,
        !args.clear ==> r.0@ == "rhino.command_history"@,
        !args.clear ==> match args.tail {
            Some(n) => r.1 matches Json::Object(es) && es@.len() == 1 && lookup(es@, "tail"@) == Some(
                Json::Number(Number::Unsigned(n as u64)),
            ),
            None => r.1 == Json::Null,
        },
{
    if args.clear {
        return (owned("rhino.clear_command_history"), Json::Null);
    }
    let params = match args.tail {
        Some(n) => {
            let mut es: Vec<(String, Json)> = Vec::new();
            object_insert(&mut es, owned("tail"), Json::Number(Number::Unsigned(n as u64)));
            Json::Object(es)
        },
        None => Json::Null,
    };
    (owned("rhino.command_history"), params)
}

/// `history` prints the JSON result when asked for JSON or pretty output.
pub fn history_prints_json(args: &HistoryArgs, pretty: bool) -> (r: bool)
    ensures
        r == (args.json || pretty),
{
    args.json || pretty
}

/// The text `history` prints: the history text, ending with a line feed when
/// it is not empty.
pub fn history_text(result: &Json) -> (r: Result<String, CliError>)
    ensures
        result.str_field("text"@) matches Some(t) ==> (r matches Ok(s) && s@ == t + (if t.len() > 0
            && t.last() != '\n' {
            line(Seq::empty())
        } else {
            Seq::empty()
        })),
        result.str_field("text"@) is None ==> (r matches Err(CliError::InvalidResponse(m)) && m@
            == "history response is missing text"@),
{
    proof {
        reveal_strlit("\n");
        reveal_strlit("");
        assert(""@ =~= Seq::<char>::empty());
    }
    let text = match result.get_str("text") {
        Some(t) => t,
        None => return Err(CliError::InvalidResponse(owned("history response is missing text"))),
    };
    let cs = chars_of(text);
    if cs.len() > 0 && cs[cs.len() - 1] != '\n' {
        Ok(concat2(text, "\n"))
    } else {
        let s = owned(text);
        assert(s@ + Seq::<char>::empty() =~= s@);
        Ok(s)
    }
}

/// The parameters of `rhino.new_model`: the template path, or `null`.
pub fn new_model_params(args: &NewModelArgs) -> (r: Json)
    ensures
        match args.template {
            Some(t) => r matches Json::Object(es) && es@.len() == 1 && text_field(es@, "template"@, t@),
            None => r == Json::Null,
        },
{
    match &args.template {
        Some(t) => {
            let mut es: Vec<(String, Json)> = Vec::new();
            insert_text(&mut es, "template", t.as_str());
            Json::Object(es)
        },
        None => Json::Null,
    }
}

/// The parameters of `rhino.list_commands`.
pub fn list_commands_params(args: &ListCommandsArgs) -> (r: Json)
    ensures
        r matches Json::Object(es) && lookup(es@, "include_unloaded"@) == Some(
            Json::Bool(args.include_unloaded),
        ) && optional_field(es@, "pattern"@, opt_text(args.pattern)),
{
    proof {
        lemma_param_names_distinct();
    }
    let mut es: Vec<(String, Json)> = Vec::new();
    proof {
        lemma_empty_lookup(es@);
    }
    object_insert(&mut es, owned("include_unloaded"), Json::Bool(args.include_unloaded));
    insert_opt_text(&mut es, "pattern", &args.pattern);
    Json::Object(es)
}

/// The parameters of `rhino.probe_command`.
pub fn probe_command_params(args: &ProbeCommandArgs) -> (r: Json)
    ensures
        r matches Json::Object(es) && es@.len() == 1 && text_field(es@, "name"@, args.name@),
{
    let mut es: Vec<(String, Json)> = Vec::new();
    insert_text(&mut es, "name", args.name.as_str());
    Json::Object(es)
}

/// The parameters of `rhino.execute_in_panel_webview`: the panel and the script.
pub fn execute_panel_js_params(args: &ExecutePanelJsArgs) -> (r: Json)
    ensures
        r matches Json::Object(es) && es@.len() == 2 && text_field(es@, "panel"@, args.panel@)
            && text_field(es@, "script"@, args.script@),
{
    proof {
        reveal_strlit("panel");
        reveal_strlit("script");
        assert("panel"@.len() != "script"@.len());
    }
    let mut es: Vec<(String, Json)> = Vec::new();
    proof {
        lemma_empty_lookup(es@);
    }
    insert_text(&mut es, "panel", args.panel.as_str());
    proof {
        crate::json::lemma_lookup_some(es@, "script"@);
    }
    object_insert(&mut es, owned("script"), Json::string(args.script.as_str()));
    Json::Object(es)
}

/// The parameters of `rhino.inspect_type`.
pub fn inspect_type_params(args: &InspectTypeArgs) -> (r: Json)
    ensures
        r matches Json::Object(es) && text_field(es@, "name"@, args.name@) && lookup(
            es@,
            "include_inherited"@,
        ) == Some(Json::Bool(args.include_inherited)) && optional_field(
            es@,
            "binding"@,
            opt_text(args.binding),
        ),
{
    proof {
        lemma_param_names_distinct();
    }
    let mut es: Vec<(String, Json)> = Vec::new();
    proof {
        lemma_empty_lookup(es@);
    }
    insert_opt_text(&mut es, "binding", &args.binding);
    object_insert(&mut es, owned("include_inherited"), Json::Bool(args.include_inherited));
    insert_text(&mut es, "name", args.name.as_str());
    Json::Object(es)
}

/// The parameters of `rhino.search_types`.
pub fn search_types_params(args: &SearchTypesArgs) -> (r: Json)
    ensures
        r matches Json::Object(es) && text_field(es@, "pattern"@, args.pattern@) && optional_field(
            es@,
            "scope"@,
            opt_text(args.scope),
        ) && optional_field(es@, "assembly"@, opt_text(args.assembly)) && match args.limit {
            Some(n) => lookup(es@, "limit"@) == Some(Json::Number(Number::Unsigned(n as u64))),
            None => lookup(es@, "limit"@) is None,
        },
{
    proof {
        lemma_param_names_distinct();
    }
    let mut es: Vec<(String, Json)> = Vec::new();
    proof {
        lemma_empty_lookup(es@);
    }
    insert_opt_text(&mut es, "assembly", &args.assembly);
    match args.limit {
        Some(n) => object_insert(&mut es, owned("limit"), Json::Number(Number::Unsigned(n as u64))),
        None => {},
    }
    insert_text(&mut es, "pattern", args.pattern.as_str());
    insert_opt_text(&mut es, "scope", &args.scope);
    Json::Object(es)
}

/// The parameters of `rhino.decompile_method` for a type, a method and an
/// optional overload signature.
pub fn decompile_params(type_fqn: &str, method: &str, signature: Option<&str>) -> (r: Json)
    ensures
        r matches Json::Object(es) && text_field(es@, "type"@, type_fqn@) && text_field(
            es@,
            "method"@,
            method@,
        ) && match signature {
            Some(s) => text_field(es@, "signature"@, s@),
            None => lookup(es@, "signature"@) is None,
        },
{
    proof {
        lemma_param_names_distinct();
    }
    let mut es: Vec<(String, Json)> = Vec::new();
    proof {
        lemma_empty_lookup(es@);
    }
    insert_text(&mut es, "method", method);
    match signature {
        Some(s) => insert_text(&mut es, "signature", s),
        None => {},
    }
    insert_text(&mut es, "type", type_fqn);
    Json::Object(es)
}

/// The parameters of `rhino.decompile_method` for `decompile-method`.
pub fn decompile_method_params(args: &DecompileMethodArgs) -> (r: Json)
    ensures
        r matches Json::Object(es) && text_field(es@, "type"@, args.type_fqn@) && text_field(
            es@,
            "method"@,
            args.method@,
        ) && optional_field(es@, "signature"@, opt_text(args.signature)),
{
    let sig = match &args.signature {
        Some(s) => Some(s.as_str()),
        None => None,
    };
    decompile_params(args.type_fqn.as_str(), args.method.as_str(), sig)
}

/// The method groups of an inspection result.
pub open spec fn methods_of(result: Json) -> Option<Seq<Json>> {
    match result.field("methods"@) {
        Some(Json::Array(v)) => Some(v@),
        _ => None,
    }
}

/// A method group has the name `name`.
pub open spec fn names_group(m: Json, name: Seq<char>) -> bool {
    m.str_field("name"@) == Some(name)
}

/// `i` is the first group named `name`.
pub open spec fn first_group(ms: Seq<Json>, name: Seq<char>, i: int) -> bool {
    &&& 0 <= i < ms.len()
    &&& names_group(ms[i], name)
    &&& forall|j: int| 0 <= j < i ==> !names_group(#[trigger] ms[j], name)
}

/// The index of the first group named `name`.
pub open spec fn group_index(ms: Seq<Json>, name: Seq<char>) -> Option<int> {
    if exists|i: int| first_group(ms, name, i) {
        Some(choose|i: int| first_group(ms, name, i))
    } else {
        None
    }
}

proof fn lemma_group_index(ms: Seq<Json>, name: Seq<char>, i: int)
    requires
        first_group(ms, name, i),
    ensures
        group_index(ms, name) == Some(i),
{
    let k = choose|k: int| first_group(ms, name, k);
    assert(first_group(ms, name, k));
    if k < i {
        assert(!names_group(ms[k], name));
    }
    if i < k {
        assert(!names_group(ms[i], name));
    }
}

/// The overloads of a method group.
pub open spec fn overloads_of(m: Json) -> Seq<Json> {
    match m.field("overloads"@) {
        Some(Json::Array(v)) => v@,
        _ => Seq::empty(),
    }
}

/// The parameter types named among `ps`, in order.
pub open spec fn type_texts(ps: Seq<Json>) -> Seq<Seq<char>>
    decreases ps.len(),
{
    if ps.len() == 0 {
        Seq::empty()
    } else {
        let rest = type_texts(ps.drop_last());
        match ps.last().str_field("type"@) {
            Some(t) => rest.push(t),
            None => rest,
        }
    }
}

/// The signature that selects an overload: its parameter types joined by commas.
pub open spec fn signature_of(ov: Json) -> Seq<char> {
    match ov.field("params"@) {
        Some(Json::Array(ps)) => join(type_texts(ps@), ","@),
        _ => Seq::empty(),
    }
}

/// The decompile calls of `inspect-type --with-body`, in order, as
/// `(name position, group, overload)`: for each name to decompile, every
/// overload of the first group with that name.
pub open spec fn body_plan(ms: Seq<Json>, targets: Seq<Seq<char>>) -> Seq<(int, int, int)>
    decreases targets.len(),
{
    if targets.len() == 0 {
        Seq::empty()
    } else {
        body_plan(ms, targets.drop_last()) + match group_index(ms, targets.last()) {
            Some(g) => Seq::new(
                overloads_of(ms[g]).len(),
                |o: int| ((targets.len() - 1) as int, g, o),
            ),
            None => Seq::empty(),
        }
    }
}

/// One decompile call: the overload it fills in and the call's parameters.
#[derive(Debug)]
pub struct BodyRequest {
    pub group: usize,
    pub overload: usize,
    pub params: Json,
}

/// A request makes the planned call: the type, the method name, and the
/// overload's signature when it has one.
pub open spec fn request_matches(
    req: BodyRequest,
    step: (int, int, int),
    ms: Seq<Json>,
    targets: Seq<Seq<char>>,
    type_fqn: Seq<char>,
) -> bool {
    let sig = signature_of(overloads_of(ms[step.1])[step.2]);
    &&& req.group == step.1
    &&& req.overload == step.2
    &&& req.params matches Json::Object(es)
    &&& text_field(req.params->Object_0@, "type"@, type_fqn)
    &&& text_field(req.params->Object_0@, "method"@, targets[step.0])
    &&& if sig.len() > 0 {
        text_field(req.params->Object_0@, "signature"@, sig)
    } else {
        lookup(req.params->Object_0@, "signature"@) is None
    }
}

/// The first group named `name`.
pub fn find_group(ms: &Vec<Json>, name: &str) -> (r: Option<usize>)
    ensures
        r matches Some(i) ==> group_index(ms@, name@) == Some(i as int),
        r is None ==> group_index(ms@, name@) is None,
{
    let mut i: usize = 0;
    while i < ms.len()
        invariant
            i <= ms.len(),
            forall|j: int| 0 <= j < i ==> !names_group(#[trigger] ms@[j], name@),
        decreases ms.len() - i,
    {
        let hit = match ms[i].get_str("name") {
            Some(n) => crate::text::str_eq(n, name),
            None => false,
        };
        if hit {
            proof {
                lemma_group_index(ms@, name@, i as int);
            }
            return Some(i);
        }
        i = i + 1;
    }
    assert(!exists|k: int| first_group(ms@, name@, k));
    None
}

/// The overloads of a method group.
pub fn overloads(m: &Json) -> (r: Option<&Vec<Json>>)
    ensures
        r matches Some(v) ==> v@ == overloads_of(*m),
        r is None ==> overloads_of(*m).len() == 0,
{
    match m.get("overloads") {
        Some(Json::Array(v)) => Some(v),
        _ => None,
    }
}

/// The signature that selects an overload.
pub fn signature(ov: &Json) -> (r: String)
    ensures
        r@ == signature_of(*ov),
{
    proof {
        reveal_strlit("");
        assert(""@ =~= Seq::<char>::empty());
    }
    let ps = match ov.get("params") {
        Some(Json::Array(ps)) => ps,
        _ => return owned(""),
    };
    let mut out = owned("");
    let mut count: usize = 0;
    let mut i: usize = 0;
    while i < ps.len()
        invariant
            i <= ps.len(),
            count <= i,
            count == type_texts(ps@.subrange(0, i as int)).len(),
            out@ == join(type_texts(ps@.subrange(0, i as int)), ","@),
        decreases ps.len() - i,
    {
        let ghost before = type_texts(ps@.subrange(0, i as int));
        assert(ps@.subrange(0, i + 1).drop_last() =~= ps@.subrange(0, i as int));
        assert(ps@.subrange(0, i + 1).last() == ps@[i as int]);
        match ps[i].get_str("type") {
            Some(t) => {
                if count > 0 {
                    out.append(",");
                }
                out.append(t);
                proof {
                    let after = before.push(t@);
                    assert(after.drop_last() =~= before);
                    if before.len() == 0 {
                        assert(out@ =~= join(after, ","@));
                    }
                }
                count = count + 1;
            },
            None => {},
        }
        i = i + 1;
    }
    assert(ps@.subrange(0, ps@.len() as int) =~= ps@);
    out
}

/// The decompile calls that `inspect-type --with-body` makes for an
/// inspection result, in the order it makes them. A result without a
/// `methods` array makes none.
pub fn body_requests(args: &InspectTypeWithBodyArgs, result: &Json) -> (r: Vec<BodyRequest>)
    ensures
        methods_of(*result) is None ==> r@.len() == 0,
        methods_of(*result) matches Some(ms) ==> ({
            let targets = args.with_body@.map_values(|s: String| s@);
            &&& r@.len() == body_plan(ms, targets).len()
            &&& forall|k: int|
                0 <= k < r@.len() ==> request_matches(
                    #[trigger] r@[k],
                    body_plan(ms, targets)[k],
                    ms,
                    targets,
                    args.inspect.name@,
                )
        }),
{
    let mut out: Vec<BodyRequest> = Vec::new();
    let ms = match result.get("methods") {
        Some(Json::Array(ms)) => ms,
        _ => return out,
    };
    let ghost targets = args.with_body@.map_values(|s: String| s@);
    let mut t: usize = 0;
    while t < args.with_body.len()
        invariant
            targets == args.with_body@.map_values(|s: String| s@),
            methods_of(*result) == Some(ms@),
            t <= args.with_body.len(),
            out@.len() == body_plan(ms@, targets.subrange(0, t as int)).len(),
            forall|k: int|
                0 <= k < out@.len() ==> request_matches(
                    #[trigger] out@[k],
                    body_plan(ms@, targets.subrange(0, t as int))[k],
                    ms@,
                    targets,
                    args.inspect.name@,
                ),
        decreases args.with_body.len() - t,
    {
        let ghost pre = targets.subrange(0, t as int);
        let ghost next = targets.subrange(0, t + 1);
        assert(next.drop_last() =~= pre);
        assert(next.last() == targets[t as int]);
        let ghost base = body_plan(ms@, pre);
        let target = args.with_body[t].as_str();
        assert(target@ == targets[t as int]);
        match find_group(ms, target) {
            Some(g) => {
                let ghost steps = Seq::new(
                    overloads_of(ms@[g as int]).len(),
                    |o: int| (t as int, g as int, o),
                );
                assert(body_plan(ms@, next) == base + steps);
                match overloads(&ms[g]) {
                    Some(ovs) => {
                        let mut o: usize = 0;
                        while o < ovs.len()
                            invariant
                                ovs@ == overloads_of(ms@[g as int]),
                                g < ms@.len(),
                                target@ == targets[t as int],
                                t < targets.len(),
                                steps == Seq::new(
                                    overloads_of(ms@[g as int]).len(),
                                    |o: int| (t as int, g as int, o),
                                ),
                                o <= ovs.len(),
                                out@.len() == base.len() + o,
                                forall|k: int|
                                    0 <= k < out@.len() ==> request_matches(
                                        #[trigger] out@[k],
                                        (base + steps)[k],
                                        ms@,
                                        targets,
                                        args.inspect.name@,
                                    ),
                            decreases ovs.len() - o,
                        {
                            let sig = signature(&ovs[o]);
                            let sig_arg = if sig.unicode_len() > 0 {
                                Some(sig.as_str())
                            } else {
                                None
                            };
                            let params = decompile_params(args.inspect.name.as_str(), target, sig_arg);
                            out.push(BodyRequest { group: g, overload: o, params });
                            assert((base + steps)[base.len() + o] == (t as int, g as int, o as int));
                            o = o + 1;
                        }
                    },
                    None => {
                        assert(steps.len() == 0);
                    },
                }
                assert(out@.len() == body_plan(ms@, next).len());
            },
            None => {
                assert(body_plan(ms@, next) =~= base);
            },
        }
        t = t + 1;
    }
    assert(targets.subrange(0, targets.len() as int) =~= targets);
    out
}

/// What a decompile answer writes into its overload, as `(field, text)`: the
/// C# body under `body`, or the error's text under `body_error`; nothing when
/// the answer holds no C#.
pub open spec fn body_update(outcome: Result<Json, CliError>) -> Option<(Seq<char>, Seq<char>)> {
    match outcome {
        Ok(b) => match b.str_field("csharp"@) {
            Some(c) => Some(("body"@, c)),
            None => None,
        },
        Err(e) => Some(("body_error"@, error_text(e))),
    }
}

/// `after` is `before` with the field `key` set to the text `t`; a `null`
/// becomes an object.
pub open spec fn field_set(before: Json, after: Json, key: Seq<char>, t: Seq<char>) -> bool {
    &&& after is Object
    &&& after.field(key) matches Some(x) && x.text() == Some(t)
    &&& forall|k: Seq<char>| k != key ==> #[trigger] after.field(k) == before.field(k)
}

/// An overload can take a field: it is an object, or `null`.
pub open spec fn writable(ov: Json) -> bool {
    ov is Object || ov is Null
}

/// `after` is the inspection result `before` with field `key` of overload `o`
/// of group `g` set to the text `t`, and nothing else changed.
pub open spec fn body_applied(before: Json, after: Json, g: int, o: int, key: Seq<char>, t: Seq<char>) -> bool {
    let ms = methods_of(before)->Some_0;
    &&& after is Object
    &&& forall|k: Seq<char>| k != "methods"@ ==> #[trigger] after.field(k) == before.field(k)
    &&& methods_of(after) is Some
    &&& methods_of(after)->Some_0.len() == ms.len()
    &&& forall|i: int|
        0 <= i < ms.len() && i != g ==> #[trigger] methods_of(after)->Some_0[i] == ms[i]
    &&& methods_of(after)->Some_0[g] is Object
    &&& forall|k: Seq<char>|
        k != "overloads"@ ==> #[trigger] methods_of(after)->Some_0[g].field(k) == ms[g].field(k)
    &&& methods_of(after)->Some_0[g].field("overloads"@) matches Some(Json::Array(_))
    &&& overloads_of(methods_of(after)->Some_0[g]).len() == overloads_of(ms[g]).len()
    &&& forall|j: int|
        0 <= j < overloads_of(ms[g]).len() && j != o ==> #[trigger] overloads_of(
            methods_of(after)->Some_0[g],
        )[j] == overloads_of(ms[g])[j]
    &&& field_set(overloads_of(ms[g])[o], overloads_of(methods_of(after)->Some_0[g])[o], key, t)
}

/// The overload a decompile answer goes into can take a field.
pub fn body_target_writable(result: &Json, group: usize, overload: usize) -> (r: bool)
    ensures
        r == (methods_of(*result) matches Some(ms) && group < ms.len() && overload < overloads_of(
            ms[group as int],
        ).len() && writable(overloads_of(ms[group as int])[overload as int])),
{
    let ms = match result.get("methods") {
        Some(Json::Array(ms)) => ms,
        _ => return false,
    };
    if group >= ms.len() {
        return false;
    }
    let ovs = match overloads(&ms[group]) {
        Some(v) => v,
        None => return false,
    };
    if overload >= ovs.len() {
        return false;
    }
    match &ovs[overload] {
        Json::Object(_) | Json::Null => true,
        _ => false,
    }
}

/// Writes a decompile answer into the inspection result, at the overload the
/// request was made for (`--with-body`).
pub fn apply_body(result: &mut Json, group: usize, overload: usize, outcome: Result<Json, CliError>)
    requires
        methods_of(*old(result)) matches Some(ms) && group < ms.len() && ms[group as int] is Object
            && overload < overloads_of(ms[group as int]).len(),
        body_update(outcome) is Some ==> writable(
            overloads_of(methods_of(*old(result))->Some_0[group as int])[overload as int],
        ),
    ensures
        body_update(outcome) is None ==> *final(result) == *old(result),
        body_update(outcome) matches Some((key, t)) ==> body_applied(
            *old(result),
            *final(result),
            group as int,
            overload as int,
            key,
            t,
        ),
{
    let ghost before = *result;
    let ghost ms0 = methods_of(before)->Some_0;
    let (key, text): (&str, String) = match outcome {
        Ok(b) => match b.get_str("csharp") {
            Some(c) => ("body", owned(c)),
            None => return ,
        },
        Err(e) => ("body_error", e.message()),
    };
    proof {
        reveal_strlit("methods");
        reveal_strlit("overloads");
        assert("methods"@.len() != "overloads"@.len());
    }
    let mut taken = Json::Null;
    std::mem::swap(result, &mut taken);
    let mut es = match taken {
        Json::Object(es) => es,
        _ => return ,
    };
    let ghost es0 = es@;
    let mut ms = match take_field(&mut es, "methods") {
        Some(Json::Array(ms)) => ms,
        _ => return ,
    };
    assert(ms@ == ms0);
    let mut gv = Json::Null;
    ms.set_and_swap(group, &mut gv);
    let ghost g0 = gv;
    let mut ges = match gv {
        Json::Object(ges) => ges,
        _ => return ,
    };
    let ghost ges0 = ges@;
    let mut ovs = match take_field(&mut ges, "overloads") {
        Some(Json::Array(ovs)) => ovs,
        _ => return ,
    };
    let ghost ovs0 = ovs@;
    assert(ovs0 == overloads_of(g0));
    let mut ov = Json::Null;
    ovs.set_and_swap(overload, &mut ov);
    let ghost ov0 = ov;
    let mut oes = match ov {
        Json::Object(oes) => oes,
        Json::Null => {
            let v: Vec<(String, Json)> = Vec::new();
            proof {
                lemma_empty_lookup(v@);
            }
            v
        },
        _ => return ,
    };
    let ghost oes0 = oes@;
    object_insert(&mut oes, owned(key), Json::Str(text));
    let ghost new_ov = Json::Object(oes);
    assert(field_set(ov0, new_ov, key@, text@));
    ovs.set(overload, Json::Object(oes));
    let ghost ovs1 = ovs@;
    object_insert(&mut ges, owned("overloads"), Json::Array(ovs));
    let ghost new_g = Json::Object(ges);
    assert(overloads_of(new_g) == ovs1);
    assert(forall|k: Seq<char>| k != "overloads"@ ==> #[trigger] new_g.field(k) == g0.field(k));
    ms.set(group, Json::Object(ges));
    let ghost ms1 = ms@;
    object_insert(&mut es, owned("methods"), Json::Array(ms));
    *result = Json::Object(es);
    assert(methods_of(*result) == Some(ms1));
}

/// Writing a decompile answer into the inspection result changes neither
/// which calls `--with-body` makes nor their parameters: the groups keep their
/// names and overload counts, and the overloads keep their parameter lists.
/// So the calls can be planned from the first result, before any answer.
pub proof fn lemma_apply_keeps_plan(
    before: Json,
    after: Json,
    g: int,
    o: int,
    key: Seq<char>,
    t: Seq<char>,
    targets: Seq<Seq<char>>,
)
    requires
        methods_of(before) is Some,
        0 <= g < methods_of(before)->Some_0.len(),
        0 <= o < overloads_of(methods_of(before)->Some_0[g]).len(),
        key == "body"@ || key == "body_error"@,
        body_applied(before, after, g, o, key, t),
    ensures
        body_plan(methods_of(after)->Some_0, targets) == body_plan(methods_of(before)->Some_0, targets),
        forall|i: int, j: int|
            0 <= i < methods_of(before)->Some_0.len() && 0 <= j < overloads_of(
                methods_of(before)->Some_0[i],
            ).len() ==> #[trigger] signature_of(overloads_of(methods_of(after)->Some_0[i])[j])
                == signature_of(overloads_of(methods_of(before)->Some_0[i])[j]),
    decreases targets.len(),
{
    let ms = methods_of(before)->Some_0;
    let ms2 = methods_of(after)->Some_0;
    reveal_strlit("body");
    reveal_strlit("body_error");
    reveal_strlit("params");
    reveal_strlit("name");
    reveal_strlit("overloads");
    assert("name"@.len() != "overloads"@.len());
    assert("params"@ != "body"@) by {
        assert("params"@.len() != "body"@.len());
    }
    assert("params"@ != "body_error"@) by {
        assert("params"@.len() != "body_error"@.len());
    }
    assert forall|i: int, n: Seq<char>| 0 <= i < ms.len() implies #[trigger] names_group(ms2[i], n)
        == names_group(ms[i], n) by {
        if i == g {
            assert(ms2[g].field("name"@) == ms[g].field("name"@));
        }
    }
    assert forall|i: int| 0 <= i < ms.len() implies #[trigger] overloads_of(ms2[i]).len()
        == overloads_of(ms[i]).len() by {}
    assert forall|i: int, j: int|
        0 <= i < ms.len() && 0 <= j < overloads_of(ms[i]).len() implies #[trigger] signature_of(
        overloads_of(ms2[i])[j],
    ) == signature_of(overloads_of(ms[i])[j]) by {
        if i == g && j == o {
            let a = overloads_of(ms[g])[o];
            let b = overloads_of(ms2[g])[o];
            assert(b.field("params"@) == a.field("params"@));
        }
    }
    if targets.len() > 0 {
        lemma_apply_keeps_plan(before, after, g, o, key, t, targets.drop_last());
        let n = targets.last();
        if exists|i: int| first_group(ms, n, i) {
            let i = choose|i: int| first_group(ms, n, i);
            assert(first_group(ms2, n, i)) by {
                assert(names_group(ms2[i], n) == names_group(ms[i], n));
                assert forall|j: int| 0 <= j < i implies !names_group(#[trigger] ms2[j], n) by {
                    assert(names_group(ms2[j], n) == names_group(ms[j], n));
                }
            }
            lemma_group_index(ms, n, i);
            lemma_group_index(ms2, n, i);
            assert(overloads_of(ms2[i]).len() == overloads_of(ms[i]).len());
        } else {
            assert(!exists|i: int| first_group(ms2, n, i)) by {
                if exists|i: int| first_group(ms2, n, i) {
                    let i = choose|i: int| first_group(ms2, n, i);
                    assert(names_group(ms2[i], n) == names_group(ms[i], n));
                    assert forall|j: int| 0 <= j < i implies !names_group(#[trigger] ms[j], n) by {
                        assert(names_group(ms2[j], n) == names_group(ms[j], n));
                    }
                    assert(first_group(ms, n, i));
                }
            }
        }
    }
}


/// Overload `o` of group `g` of an inspection result.
pub open spec fn overload_of(r: Json, g: int, o: int) -> Json {
    overloads_of(methods_of(r)->Some_0[g])[o]
}

/// The planned call `step` names an overload of `r`.
pub open spec fn step_in(r: Json, step: (int, int, int)) -> bool {
    &&& methods_of(r) is Some
    &&& 0 <= step.1 < methods_of(r)->Some_0.len()
    &&& 0 <= step.2 < overloads_of(methods_of(r)->Some_0[step.1]).len()
}

/// `states` are an inspection result as the answers to the planned calls
/// `plan` are written in, one answer after the other: answer `k` leaves the
/// result as it is, or writes its field into the overload call `k` was made for.
pub open spec fn bodies_written(
    states: Seq<Json>,
    plan: Seq<(int, int, int)>,
    outcomes: Seq<Result<Json, CliError>>,
) -> bool {
    &&& states.len() == plan.len() + 1
    &&& outcomes.len() == plan.len()
    &&& forall|k: int| 0 <= k < plan.len() ==> #[trigger] step_in(states[0], plan[k])
    &&& forall|k: int|
        0 <= k < plan.len() ==> match body_update(#[trigger] outcomes[k]) {
            None => states[k + 1] == states[k],
            Some((key, t)) => body_applied(states[k], states[k + 1], plan[k].1, plan[k].2, key, t),
        }
}

/// The text the last of the answers that wrote field `f` of overload `o` of
/// group `g` put there, if any did.
pub open spec fn last_write(
    plan: Seq<(int, int, int)>,
    outcomes: Seq<Result<Json, CliError>>,
    g: int,
    o: int,
    f: Seq<char>,
) -> Option<Seq<char>>
    decreases plan.len(),
{
    if plan.len() == 0 {
        None
    } else {
        let k = plan.len() - 1;
        if plan[k].1 == g && plan[k].2 == o && (body_update(outcomes[k]) matches Some((key, _))
            && key == f) {
            Some(body_update(outcomes[k])->Some_0.1)
        } else {
            last_write(plan.drop_last(), outcomes.subrange(0, k), g, o, f)
        }
    }
}

/// What writing all the answers leaves: only the overloads change, each field
/// of an overload holds the text of the last answer that wrote it, and every
/// other field, group and overload is as in the first result.
pub open spec fn bodies_result(first: Json, last: Json, plan: Seq<(int, int, int)>, outcomes: Seq<Result<Json, CliError>>) -> bool {
    let ms = methods_of(first)->Some_0;
    &&& methods_of(last) is Some
    &&& methods_of(last)->Some_0.len() == ms.len()
    &&& forall|k: Seq<char>| k != "methods"@ ==> #[trigger] last.field(k) == first.field(k)
    &&& forall|g: int|
        0 <= g < ms.len() ==> overloads_of(#[trigger] methods_of(last)->Some_0[g]).len()
            == overloads_of(ms[g]).len()
    &&& forall|g: int, f: Seq<char>|
        0 <= g < ms.len() && f != "overloads"@ ==> #[trigger] methods_of(last)->Some_0[g].field(f)
            == ms[g].field(f)
    &&& forall|g: int, o: int, f: Seq<char>|
        0 <= g < ms.len() && 0 <= o < overloads_of(ms[g]).len() ==> match #[trigger] last_write(
            plan,
            outcomes,
            g,
            o,
            f,
        ) {
            Some(t) => overload_of(last, g, o).field(f) matches Some(x) && x.text() == Some(t),
            None => overload_of(last, g, o).field(f) == overload_of(first, g, o).field(f),
        }
}

/// Writing the answers of `--with-body` one after the other gives the first
/// inspection result with, in each overload a call was made for, `body` (or
/// `body_error`) set to the text of the last answer that wrote it; nothing
/// else changes.
pub proof fn lemma_bodies_written(states: Seq<Json>, plan: Seq<(int, int, int)>, outcomes: Seq<Result<Json, CliError>>)
    requires
        methods_of(states[0]) is Some,
        bodies_written(states, plan, outcomes),
    ensures
        bodies_result(states[0], states.last(), plan, outcomes),
    decreases plan.len(),
{
    reveal_strlit("methods");
    reveal_strlit("overloads");
    if plan.len() > 0 {
        let n = plan.len() - 1;
        let sp = states.drop_last();
        let pp = plan.drop_last();
        let op = outcomes.subrange(0, n);
        assert(outcomes.drop_last() =~= op);
        assert(bodies_written(sp, pp, op)) by {
            assert forall|k: int| 0 <= k < pp.len() implies #[trigger] step_in(sp[0], pp[k]) by {
                assert(step_in(states[0], plan[k]));
            }
            assert forall|k: int| 0 <= k < pp.len() implies match body_update(#[trigger] op[k]) {
                None => sp[k + 1] == sp[k],
                Some((key, t)) => body_applied(sp[k], sp[k + 1], pp[k].1, pp[k].2, key, t),
            } by {
                assert(op[k] == outcomes[k]);
                assert(sp[k] == states[k] && sp[k + 1] == states[k + 1]);
            }
        }
        lemma_bodies_written(sp, pp, op);
        let first = states[0];
        let mid = states[n];
        let last = states[n + 1];
        assert(sp.last() == mid);
        assert(states.last() == last);
        let ms = methods_of(first)->Some_0;
        assert(step_in(first, plan[n]));
        let g0 = plan[n].1;
        let o0 = plan[n].2;
        match body_update(outcomes[n]) {
            None => {
                assert(last == mid);
                assert forall|g: int, o: int, f: Seq<char>|
                    0 <= g < ms.len() && 0 <= o < overloads_of(ms[g]).len() implies match #[trigger] last_write(
                    plan,
                    outcomes,
                    g,
                    o,
                    f,
                ) {
                    Some(t) => overload_of(last, g, o).field(f) matches Some(x) && x.text() == Some(t),
                    None => overload_of(last, g, o).field(f) == overload_of(first, g, o).field(f),
                } by {
                    assert(last_write(plan, outcomes, g, o, f) == last_write(pp, op, g, o, f));
                }
            },
            Some((key, t)) => {
                assert(body_applied(mid, last, g0, o0, key, t));
                let mm = methods_of(mid)->Some_0;
                let lm = methods_of(last)->Some_0;
                assert forall|g: int| 0 <= g < ms.len() implies overloads_of(#[trigger] lm[g]).len()
                    == overloads_of(ms[g]).len() by {
                    assert(overloads_of(mm[g]).len() == overloads_of(ms[g]).len());
                }
                assert forall|g: int, f: Seq<char>|
                    0 <= g < ms.len() && f != "overloads"@ implies #[trigger] lm[g].field(f) == ms[g].field(f) by {
                    assert(mm[g].field(f) == ms[g].field(f));
                }
                assert forall|g: int, o: int, f: Seq<char>|
                    0 <= g < ms.len() && 0 <= o < overloads_of(ms[g]).len() implies match #[trigger] last_write(
                    plan,
                    outcomes,
                    g,
                    o,
                    f,
                ) {
                    Some(t) => overload_of(last, g, o).field(f) matches Some(x) && x.text() == Some(t),
                    None => overload_of(last, g, o).field(f) == overload_of(first, g, o).field(f),
                } by {
                    let prev = last_write(pp, op, g, o, f);
                    assert(match prev {
                        Some(t) => overload_of(mid, g, o).field(f) matches Some(x) && x.text() == Some(t),
                        None => overload_of(mid, g, o).field(f) == overload_of(first, g, o).field(f),
                    });
                    if g == g0 && o == o0 {
                        if key != f {
                            assert(overload_of(last, g, o).field(f) == overload_of(mid, g, o).field(f));
                        }
                    } else if g == g0 {
                        assert(overload_of(last, g, o) == overload_of(mid, g, o));
                    } else {
                        assert(lm[g] == mm[g]);
                    }
                }
            },
        }
    }
}

proof fn lemma_type_texts_all_typed(ps: Seq<Json>)
    requires
        forall|i: int| 0 <= i < ps.len() ==> (#[trigger] ps[i]).str_field("type"@) is Some,
    ensures
        type_texts(ps) == Seq::new(ps.len(), |i: int| ps[i].str_field("type"@)->Some_0),
    decreases ps.len(),
{
    if ps.len() > 0 {
        let q = ps.drop_last();
        assert forall|i: int| 0 <= i < q.len() implies (#[trigger] q[i]).str_field("type"@) is Some by {
            assert(q[i] == ps[i]);
        }
        lemma_type_texts_all_typed(q);
        assert(ps.last() == ps[ps.len() - 1]);
        assert(type_texts(ps) =~= Seq::new(ps.len(), |i: int| ps[i].str_field("type"@)->Some_0));
    }
}

/// When every parameter of an overload names its type, the overload's
/// signature lists all of those types, in order, separated by commas.
pub proof fn lemma_signature_lists_every_type(ov: Json, ps: Seq<Json>)
    requires
        ov.field("params"@) matches Some(Json::Array(v)) && v@ == ps,
        forall|i: int| 0 <= i < ps.len() ==> (#[trigger] ps[i]).str_field("type"@) is Some,
    ensures
        signature_of(ov) == join(Seq::new(ps.len(), |i: int| ps[i].str_field("type"@)->Some_0), ","@),
{
    lemma_type_texts_all_typed(ps);
}

} // verus!

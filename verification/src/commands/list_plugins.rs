//! `list-plugins`: `<plugin id>\t<port>` for each plugin a server reports.
use vstd::prelude::*;

use crate::commands::output::{line, push_line3, Output};
use crate::error::CliError;
use crate::json::Json;
use crate::text::{decimal, decimal_string, owned};

verus! {

/// The port of a plugin entry, when it is an unsigned integer.
pub open spec fn port_of(p: Json) -> Option<u64> {
    match p.field("port"@) {
        Some(v) => v.unsigned(),
        None => None,
    }
}

/// Why a plugin entry cannot be listed, if it cannot.
pub open spec fn plugin_problem(p: Json) -> Option<Seq<char>> {
    if p.str_field("id"@) is None {
        Some("rpc.list_plugins entries must contain id (string)"@)
    } else if port_of(p) is None {
        Some("rpc.list_plugins entries must contain port (number)"@)
    } else {
        None
    }
}

/// One line per entry up to the first entry that cannot be listed.
pub open spec fn plugins_text(xs: Seq<Json>) -> Seq<char>
    decreases xs.len(),
{
    if xs.len() == 0 {
        Seq::empty()
    } else if plugin_problem(xs[0]) is None {
        line(xs[0].str_field("id"@)->Some_0 + "\t"@ + decimal(port_of(xs[0])->Some_0 as nat))
            + plugins_text(xs.drop_first())
    } else {
        Seq::empty()
    }
}

proof fn lemma_plugins_text_prefix(xs: Seq<Json>, i: int)
    requires
        0 <= i < xs.len(),
        forall|j: int| 0 <= j < i ==> plugin_problem(#[trigger] xs[j]) is None,
    ensures
        plugins_text(xs) == plugins_text(xs.subrange(0, i)) + plugins_text(xs.subrange(i, xs.len() as int)),
    decreases i,
{
    if i > 0 {
        let t = xs.drop_first();
        assert forall|j: int| 0 <= j < i - 1 implies plugin_problem(#[trigger] t[j]) is None by {
            assert(t[j] == xs[j + 1]);
        }
        lemma_plugins_text_prefix(t, i - 1);
        assert(xs.subrange(0, i).drop_first() =~= t.subrange(0, i - 1));
        assert(t.subrange(i - 1, t.len() as int) =~= xs.subrange(i, xs.len() as int));
        assert(xs.subrange(0, i)[0] == xs[0]);
    } else {
        assert(xs.subrange(0, 0).len() == 0);
        assert(xs.subrange(0, xs.len() as int) =~= xs);
    }
}

/// What `list-plugins` prints, and whether the result had the expected shape.
pub fn list_plugins_output(result: &Json) -> (r: Output)
    ensures
        !(result.field("plugins"@) matches Some(Json::Array(_))) ==> r.text@.len() == 0,
        !(result.field("plugins"@) matches Some(Json::Array(_))) ==> (r.outcome matches Err(
            CliError::InvalidResponse(m),
        ) && m@ == "rpc.list_plugins result must contain plugins[]"@),
        result.field("plugins"@) matches Some(Json::Array(xs)) ==> r.text@ == plugins_text(xs@),
        result.field("plugins"@) matches Some(Json::Array(xs)) ==> (r.outcome is Ok <==> forall|i: int|
            0 <= i < xs@.len() ==> plugin_problem(#[trigger] xs@[i]) is None),
        result.field("plugins"@) matches Some(Json::Array(xs)) ==> (r.outcome matches Err(e) ==> (
        e matches CliError::InvalidResponse(m) && exists|i: int|
            0 <= i < xs@.len() && (forall|j: int| 0 <= j < i ==> plugin_problem(#[trigger] xs@[j]) is None)
                && plugin_problem(#[trigger] xs@[i]) == Some(m@))),
{
    proof {
        reveal_strlit("");
        assert(""@ =~= Seq::<char>::empty());
    }
    let mut out = owned("");
    let plugins = match result.get("plugins") {
        Some(Json::Array(v)) => v,
        _ => {
            return Output {
                text: out,
                outcome: Err(
                    CliError::InvalidResponse(owned("rpc.list_plugins result must contain plugins[]")),
                ),
            };
        },
    };
    let ghost xs = plugins@;
    let mut i: usize = 0;
    while i < plugins.len()
        invariant
            xs == plugins@,
            result.field("plugins"@) matches Some(Json::Array(w)) && w@ == xs,
            i <= plugins.len(),
            forall|j: int| 0 <= j < i ==> plugin_problem(#[trigger] xs[j]) is None,
            out@ == plugins_text(xs.subrange(0, i as int)),
        decreases plugins.len() - i,
    {
        proof {
            lemma_plugins_text_prefix(xs, i as int);
        }
        let p = &plugins[i];
        let id = match p.get_str("id") {
            Some(id) => id,
            None => {
                proof {
                    assert(plugins_text(xs.subrange(i as int, xs.len() as int)) == Seq::<char>::empty());
                    assert(out@ + Seq::<char>::empty() =~= out@);
                }
                return Output {
                    text: out,
                    outcome: Err(
                        CliError::InvalidResponse(
                            owned("rpc.list_plugins entries must contain id (string)"),
                        ),
                    ),
                };
            },
        };
        let port = match p.get("port") {
            Some(v) => v.as_u64(),
            None => None,
        };
        let port = match port {
            Some(n) => n,
            None => {
                proof {
                    assert(plugins_text(xs.subrange(i as int, xs.len() as int)) == Seq::<char>::empty());
                    assert(out@ + Seq::<char>::empty() =~= out@);
                }
                return Output {
                    text: out,
                    outcome: Err(
                        CliError::InvalidResponse(
                            owned("rpc.list_plugins entries must contain port (number)"),
                        ),
                    ),
                };
            },
        };
        let d = decimal_string(port);
        push_line3(&mut out, id, "\t", d.as_str());
        proof {
            let q = xs.subrange(0, i + 1);
            assert(forall|j: int| 0 <= j < i + 1 ==> plugin_problem(#[trigger] q[j]) is None);
            lemma_plugins_text_prefix(q, i as int);
            assert(q.subrange(0, i as int) =~= xs.subrange(0, i as int));
            assert(q.subrange(i as int, i + 1) =~= seq![xs[i as int]]);
            assert(plugins_text(seq![xs[i as int]]) =~= line(id@ + "\t"@ + d@)) by {
                reveal_with_fuel(plugins_text, 2);
            }
        }
        i = i + 1;
    }
    assert(xs.subrange(0, xs.len() as int) =~= xs);
    Output { text: out, outcome: Ok(()) }
}

} // verus!

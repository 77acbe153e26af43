//! `list-methods`: the names of the methods a server registers, one per line.
use vstd::prelude::*;

use crate::commands::output::{line, push_line, Output};
use crate::error::CliError;
use crate::json::Json;
use crate::text::owned;

verus! {

/// The method entries of a `rpc.list_methods` result: its `methods` array, or
/// the result itself when it is an array.
pub open spec fn method_entries(result: Json) -> Option<Seq<Json>> {
    match result.field("methods"@) {
        Some(Json::Array(v)) => Some(v@),
        _ => result.elements(),
    }
}

/// One line per entry up to the first entry that is not a text.
pub open spec fn names_text(xs: Seq<Json>) -> Seq<char>
    decreases xs.len(),
{
    if xs.len() == 0 {
        Seq::empty()
    } else {
        match xs[0] {
            Json::Str(s) => line(s@) + names_text(xs.drop_first()),
            _ => Seq::empty(),
        }
    }
}

/// All entries are texts.
pub open spec fn all_texts(xs: Seq<Json>) -> bool {
    forall|i: int| 0 <= i < xs.len() ==> #[trigger] xs[i] is Str
}

proof fn lemma_names_text_prefix(xs: Seq<Json>, i: int)
    requires
        0 <= i < xs.len(),
        forall|j: int| 0 <= j < i ==> #[trigger] xs[j] is Str,
    ensures
        names_text(xs) == names_text(xs.subrange(0, i)) + names_text(xs.subrange(i, xs.len() as int)),
    decreases i,
{
    if i > 0 {
        let t = xs.drop_first();
        assert forall|j: int| 0 <= j < i - 1 implies #[trigger] t[j] is Str by {
            assert(t[j] == xs[j + 1]);
        }
        lemma_names_text_prefix(t, i - 1);
        assert(xs.subrange(0, i).drop_first() =~= t.subrange(0, i - 1));
        assert(t.subrange(i - 1, t.len() as int) =~= xs.subrange(i, xs.len() as int));
        assert(xs.subrange(0, i)[0] == xs[0]);
    } else {
        assert(xs.subrange(0, 0).len() == 0);
        assert(xs.subrange(0, xs.len() as int) =~= xs);
    }
}

/// What `list-methods` prints, and whether the result had the expected shape.
pub fn list_methods_output(result: &Json) -> (r: Output)
    ensures
        method_entries(*result) is None ==> r.text@.len() == 0,
        method_entries(*result) is None ==> (r.outcome matches Err(CliError::InvalidResponse(m))
            && m@ == "rpc.list_methods result must be an array or contain methods[]"@),
        method_entries(*result) matches Some(xs) ==> r.text@ == names_text(xs),
        method_entries(*result) matches Some(xs) ==> (r.outcome is Ok <==> all_texts(xs)),
        method_entries(*result) matches Some(xs) ==> (r.outcome matches Err(e) ==> (e matches CliError::InvalidResponse(m)
            && m@ == "rpc.list_methods entries must be strings"@)),
{
    proof {
        reveal_strlit("");
        assert(""@ =~= Seq::<char>::empty());
    }
    let mut out = owned("");
    let methods = match result.get("methods") {
        Some(Json::Array(v)) => v,
        _ => match result.as_array() {
            Some(v) => v,
            None => {
                return Output {
                    text: out,
                    outcome: Err(
                        CliError::InvalidResponse(
                            owned("rpc.list_methods result must be an array or contain methods[]"),
                        ),
                    ),
                };
            },
        },
    };
    let ghost xs = methods@;
    let mut i: usize = 0;
    while i < methods.len()
        invariant
            xs == methods@,
            method_entries(*result) == Some(xs),
            i <= methods.len(),
            forall|j: int| 0 <= j < i ==> #[trigger] xs[j] is Str,
            out@ == names_text(xs.subrange(0, i as int)),
        decreases methods.len() - i,
    {
        proof {
            lemma_names_text_prefix(xs, i as int);
        }
        match &methods[i] {
            Json::Str(s) => {
                let ghost before = out@;
                push_line(&mut out, s.as_str());
                proof {
                    let p = xs.subrange(0, i + 1);
                    assert(forall|j: int| 0 <= j < i + 1 ==> #[trigger] p[j] is Str);
                    lemma_names_text_prefix(p, i as int);
                    assert(p.subrange(0, i as int) =~= xs.subrange(0, i as int));
                    assert(p.subrange(i as int, i + 1) =~= seq![xs[i as int]]);
                    assert(names_text(seq![xs[i as int]]) =~= line(s@)) by {
                        reveal_with_fuel(names_text, 2);
                    }
                }
            },
            _ => {
                proof {
                    assert(names_text(xs.subrange(i as int, xs.len() as int)) == Seq::<char>::empty());
                    assert(out@ + Seq::<char>::empty() =~= out@);
                }
                return Output {
                    text: out,
                    outcome: Err(
                        CliError::InvalidResponse(owned("rpc.list_methods entries must be strings")),
                    ),
                };
            },
        }
        i = i + 1;
    }
    assert(xs.subrange(0, xs.len() as int) =~= xs);
    Output { text: out, outcome: Ok(()) }
}

} // verus!

//! Writing the library's [`Json`] values as compact JSON text.
//!
//! The text has no whitespace between tokens; arrays and objects list their
//! members in the order held, separated by commas; strings, object keys
//! included, are quoted and escaped by `serde_json`. A written value holds no
//! line feed unless one of its numbers kept as text holds one, so a value
//! followed by a line feed is exactly one line.
use vstd::prelude::*;

use crate::json::{Json, Number};
use crate::text::{decimal, decimal_string, is_ascii_digit, lemma_decimal_digits};

verus! {

/// The JSON string literal `serde_json` writes for the text `s`: `s` in double
/// quotes, with quotes, backslashes and control characters escaped.
pub uninterp spec fn json_quoted(s: Seq<char>) -> Seq<char>;

/// `serde_json::to_string` on a `str`. The escaping itself is only named; the
/// contract states that the result holds no line feed: `serde_json` writes
/// every character below U+0020 as an escape (its `ESCAPE` table), a line
/// feed as `\n`. Serializing a `str` into memory cannot fail, so the error
/// arm is never taken.
#[verifier::external_body]
pub(crate) fn quote_json_string(s: &str) -> (r: String)
    ensures
        r@ == json_quoted(s@),
        !r@.contains('\n'),
{
    match serde_json::to_string(s) {
        Ok(t) => t,
        Err(_) => String::new(),
    }
}

/// The decimal text of a number: integers without leading zeros, a negative
/// one after `-`; a number kept as text as it is.
pub open spec fn number_text(n: Number) -> Seq<char> {
    match n {
        Number::Unsigned(u) => decimal(u as nat),
        Number::Negative(i) => if i < 0 {
            seq!['-'] + decimal((0 - i) as nat)
        } else {
            decimal(i as nat)
        },
        Number::Real(t) => t@,
    }
}

/// Every number of `j` kept as text is free of line feeds.
pub open spec fn reals_on_one_line(j: Json) -> bool
    decreases j,
{
    match j {
        Json::Number(Number::Real(t)) => !t@.contains('\n'),
        Json::Array(items) => forall|i: int|
            0 <= i < items@.len() ==> reals_on_one_line(#[trigger] items@[i]),
        Json::Object(es) => forall|i: int|
            0 <= i < es@.len() ==> reals_on_one_line(#[trigger] es@[i].1),
        _ => true,
    }
}

pub proof fn lemma_chars_one_line(s: Seq<char>)
    requires
        forall|i: int| 0 <= i < s.len() ==> s[i] != '\n',
    ensures
        !s.contains('\n'),
{
}

pub proof fn lemma_join_one_line(a: Seq<char>, b: Seq<char>)
    requires
        !a.contains('\n'),
        !b.contains('\n'),
    ensures
        !(a + b).contains('\n'),
{
    if (a + b).contains('\n') {
        let i = choose|i: int| 0 <= i < (a + b).len() && (a + b)[i] == '\n';
        if i < a.len() {
            assert(a[i] == '\n');
        } else {
            assert(b[i - a.len()] == '\n');
        }
    }
}

pub proof fn lemma_decimal_one_line(n: nat)
    ensures
        !decimal(n).contains('\n'),
{
    lemma_decimal_digits(n);
    assert forall|i: int| 0 <= i < decimal(n).len() implies decimal(n)[i] != '\n' by {
        assert(is_ascii_digit(decimal(n)[i]));
    }
    lemma_chars_one_line(decimal(n));
}

pub proof fn lemma_punctuation_one_line()
    ensures
        !"null"@.contains('\n'),
        !"true"@.contains('\n'),
        !"false"@.contains('\n'),
        !"["@.contains('\n'),
        !"]"@.contains('\n'),
        !"{"@.contains('\n'),
        !"}"@.contains('\n'),
        !","@.contains('\n'),
        !":"@.contains('\n'),
        !seq!['-'].contains('\n'),
{
    reveal_strlit("null");
    reveal_strlit("true");
    reveal_strlit("false");
    reveal_strlit("[");
    reveal_strlit("]");
    reveal_strlit("{");
    reveal_strlit("}");
    reveal_strlit(",");
    reveal_strlit(":");
    lemma_chars_one_line("null"@);
    lemma_chars_one_line("true"@);
    lemma_chars_one_line("false"@);
    lemma_chars_one_line("["@);
    lemma_chars_one_line("]"@);
    lemma_chars_one_line("{"@);
    lemma_chars_one_line("}"@);
    lemma_chars_one_line(","@);
    lemma_chars_one_line(":"@);
    lemma_chars_one_line(seq!['-']);
}

/// The compact JSON text of `j`.
pub open spec fn json_text(j: Json) -> Seq<char>
    decreases j,
{
    match j {
        Json::Null => "null"@,
        Json::Bool(b) => if b {
            "true"@
        } else {
            "false"@
        },
        Json::Number(n) => number_text(n),
        Json::Str(s) => json_quoted(s@),
        Json::Array(items) => "["@ + items_text(items@) + "]"@,
        Json::Object(es) => "{"@ + entries_text(es@) + "}"@,
    }
}

/// The texts of `items`, separated by commas.
pub open spec fn items_text(items: Seq<Json>) -> Seq<char>
    decreases items,
{
    if items.len() == 0 {
        Seq::empty()
    } else if items.len() == 1 {
        json_text(items[0])
    } else {
        items_text(items.drop_last()) + ","@ + json_text(items.last())
    }
}

/// The entries of an object, each its quoted key, `:` and its value's text,
/// separated by commas.
pub open spec fn entries_text(es: Seq<(String, Json)>) -> Seq<char>
    decreases es,
{
    if es.len() == 0 {
        Seq::empty()
    } else if es.len() == 1 {
        json_quoted(es[0].0@) + ":"@ + json_text(es[0].1)
    } else {
        entries_text(es.drop_last()) + ","@ + json_quoted(es.last().0@) + ":"@ + json_text(
            es.last().1,
        )
    }
}

/// Appends the text of a number.
fn write_number(out: &mut String, n: &Number)
    ensures
        final(out)@ == old(out)@ + number_text(*n),
        (n matches Number::Real(t) ==> !t@.contains('\n')) ==> !number_text(*n).contains('\n'),
{
    proof {
        lemma_punctuation_one_line();
        match *n {
            Number::Unsigned(u) => lemma_decimal_one_line(u as nat),
            Number::Negative(i) => {
                lemma_decimal_one_line((0 - i) as nat);
                lemma_decimal_one_line(i as nat);
                lemma_join_one_line(seq!['-'], decimal((0 - i) as nat));
            },
            Number::Real(_) => {},
        }
    }
    match n {
        Number::Unsigned(u) => {
            let d = decimal_string(*u);
            out.append(d.as_str());
        },
        Number::Negative(i) => {
            if *i < 0 {
                let a: u64 = if *i == i64::MIN {
                    0x8000_0000_0000_0000
                } else {
                    (0 - *i) as u64
                };
                let d = decimal_string(a);
                out.append("-");
                proof {
                    reveal_strlit("-");
                }
                out.append(d.as_str());
            } else {
                let d = decimal_string(*i as u64);
                out.append(d.as_str());
            }
        },
        Number::Real(t) => {
            out.append(t.as_str());
        },
    }
}

/// Appends the compact JSON text of `j` to `out`.
pub fn write_json(out: &mut String, j: &Json)
    ensures
        final(out)@ == old(out)@ + json_text(*j),
        reals_on_one_line(*j) ==> !json_text(*j).contains('\n'),
    decreases j,
{
    proof {
        lemma_punctuation_one_line();
    }
    match j {
        Json::Null => {
            out.append("null");
        },
        Json::Bool(b) => {
            if *b {
                out.append("true");
            } else {
                out.append("false");
            }
        },
        Json::Number(n) => {
            write_number(out, n);
        },
        Json::Str(s) => {
            let q = quote_json_string(s.as_str());
            out.append(q.as_str());
        },
        Json::Array(items) => {
            let ghost start = out@;
            out.append("[");
            let mut i: usize = 0;
            while i < items.len()
                invariant
                    i <= items.len(),
                    *j == Json::Array(*items),
                    out@ == start + "["@ + items_text(items@.subrange(0, i as int)),
                    reals_on_one_line(*j) ==> !items_text(items@.subrange(0, i as int)).contains('\n'),
                decreases items.len() - i,
            {
                if i > 0 {
                    out.append(",");
                }
                proof {
                    assert(decreases_to!(*j => (*j)->Array_0));
                    assert(decreases_to!((*j)->Array_0 => (*j)->Array_0@));
                    assert(decreases_to!(items@ => items@[i as int]));
                }
                write_json(out, &items[i]);
                proof {
                    let s = items@.subrange(0, i + 1);
                    assert(s.drop_last() =~= items@.subrange(0, i as int));
                    assert(s.last() == items@[i as int]);
                    if i == 0 {
                        assert(items_text(items@.subrange(0, 0)) =~= Seq::<char>::empty());
                    }
                    if reals_on_one_line(*j) {
                        assert(reals_on_one_line(items@[i as int]));
                        lemma_punctuation_one_line();
                        if i > 0 {
                            lemma_join_one_line(items_text(s.drop_last()), ","@);
                            lemma_join_one_line(items_text(s.drop_last()) + ","@, json_text(s.last()));
                        }
                    }
                }
                i = i + 1;
            }
            assert(items@.subrange(0, items.len() as int) =~= items@);
            out.append("]");
            proof {
                if reals_on_one_line(*j) {
                    lemma_join_one_line("["@, items_text(items@));
                    lemma_join_one_line("["@ + items_text(items@), "]"@);
                }
            }
        },
        Json::Object(es) => {
            let ghost start = out@;
            out.append("{");
            let mut i: usize = 0;
            while i < es.len()
                invariant
                    i <= es.len(),
                    *j == Json::Object(*es),
                    out@ == start + "{"@ + entries_text(es@.subrange(0, i as int)),
                    reals_on_one_line(*j) ==> !entries_text(es@.subrange(0, i as int)).contains('\n'),
                decreases es.len() - i,
            {
                if i > 0 {
                    out.append(",");
                }
                let q = quote_json_string(es[i].0.as_str());
                out.append(q.as_str());
                out.append(":");
                proof {
                    assert(decreases_to!(*j => (*j)->Object_0));
                    assert(decreases_to!((*j)->Object_0 => (*j)->Object_0@));
                    assert(decreases_to!(es@ => es@[i as int]));
                    assert(decreases_to!(es@[i as int] => es@[i as int].1));
                }
                write_json(out, &es[i].1);
                proof {
                    let s = es@.subrange(0, i + 1);
                    assert(s.drop_last() =~= es@.subrange(0, i as int));
                    assert(s.last() == es@[i as int]);
                    if i == 0 {
                        assert(entries_text(es@.subrange(0, 0)) =~= Seq::<char>::empty());
                    }
                    if reals_on_one_line(*j) {
                        assert(reals_on_one_line(es@[i as int].1));
                        lemma_punctuation_one_line();
                        let e = s.last();
                        lemma_join_one_line(json_quoted(e.0@), ":"@);
                        lemma_join_one_line(json_quoted(e.0@) + ":"@, json_text(e.1));
                        if i > 0 {
                            let front = entries_text(s.drop_last());
                            lemma_join_one_line(front, ","@);
                            lemma_join_one_line(front + ","@, json_quoted(e.0@));
                            lemma_join_one_line(front + ","@ + json_quoted(e.0@), ":"@);
                            lemma_join_one_line(front + ","@ + json_quoted(e.0@) + ":"@, json_text(e.1));
                        }
                    }
                }
                i = i + 1;
            }
            assert(es@.subrange(0, es.len() as int) =~= es@);
            out.append("}");
            proof {
                if reals_on_one_line(*j) {
                    lemma_join_one_line("{"@, entries_text(es@));
                    lemma_join_one_line("{"@ + entries_text(es@), "}"@);
                }
            }
        },
    }
}

/// The compact JSON text of `j`.
pub fn to_json_text(j: &Json) -> (r: String)
    ensures
        r@ == json_text(*j),
        reals_on_one_line(*j) ==> !r@.contains('\n'),
{
    let mut out = String::new();
    write_json(&mut out, j);
    out
}

} // verus!

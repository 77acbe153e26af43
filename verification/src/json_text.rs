//! Reading JSON text into the library's [`Json`] values.
//!
//! `serde_json` parses the text one level at a time: a text gives its kind,
//! and for an array or an object the compact text of each member (objects in
//! the order `serde_json` keeps them: sorted by key, one entry per key). The
//! members are read the same way, down to a depth limit. Numbers are sorted
//! by their decimal text into unsigned integers, negative integers and the
//! rest.
use serde_json::Value;
use vstd::prelude::*;

use crate::json::{Json, Number};
use crate::text::{all_digits, chars_of, digits_value, digits_value_upto, is_ascii_digit, owned};

verus! {

/// The outermost level of a JSON text: its kind, with numbers as their
/// decimal text and the members of arrays and objects as their own texts.
pub enum JsonShape {
    Null,
    Bool(bool),
    Number(Seq<char>),
    Str(Seq<char>),
    Array(Seq<Seq<char>>),
    Object(Seq<(Seq<char>, Seq<char>)>),
}

/// The outermost level of a JSON text, as `serde_json` hands it over.
pub enum TextParts {
    Null,
    Bool(bool),
    Number(String),
    Str(String),
    Array(Vec<String>),
    Object(Vec<(String, String)>),
}

impl View for TextParts {
    type V = JsonShape;

    open spec fn view(&self) -> JsonShape {
        match self {
            TextParts::Null => JsonShape::Null,
            TextParts::Bool(b) => JsonShape::Bool(*b),
            TextParts::Number(t) => JsonShape::Number(t@),
            TextParts::Str(s) => JsonShape::Str(s@),
            TextParts::Array(items) => JsonShape::Array(items@.map_values(|s: String| s@)),
            TextParts::Object(es) => JsonShape::Object(
                es@.map_values(|e: (String, String)| (e.0@, e.1@)),
            ),
        }
    }
}

/// What `serde_json` makes of a JSON text at its outermost level, or the
/// text of its error. The same text always gives the same outcome.
pub uninterp spec fn json_text_parts(text: Seq<char>) -> Result<JsonShape, Seq<char>>;

/// Parses `text` with `serde_json::from_str` into a `serde_json::Value` and
/// takes its outermost level apart, one arm per variant: a number as its
/// `Display` text, a string as it is, each member of an array or object as
/// its compact `Display` text (`Value`'s `Display`), an error as its
/// `Display` text. The contract only names the outcome.
#[verifier::external_body]
fn parse_text_parts(text: &str) -> (r: Result<TextParts, String>)
    ensures
        match json_text_parts(text@) {
            Ok(p) => r matches Ok(q) && q@ == p,
            Err(m) => r matches Err(e) && e@ == m,
        },
{
    match serde_json::from_str::<Value>(text) {
        Ok(Value::Null) => Ok(TextParts::Null),
        Ok(Value::Bool(b)) => Ok(TextParts::Bool(b)),
        Ok(Value::Number(n)) => Ok(TextParts::Number(n.to_string())),
        Ok(Value::String(s)) => Ok(TextParts::Str(s)),
        Ok(Value::Array(v)) => Ok(TextParts::Array(v.iter().map(|x| x.to_string()).collect())),
        Ok(Value::Object(m)) => Ok(
            TextParts::Object(m.iter().map(|(k, x)| (k.clone(), x.to_string())).collect()),
        ),
        Err(e) => Err(e.to_string()),
    }
}

/// `n` is the number the decimal text `t` denotes: digits whose value fits
/// a `u64` are an unsigned integer; `-` and digits whose value is at most
/// 2^63 are a negative integer (or zero); any other text is kept as it is.
pub open spec fn number_denotes(n: Number, t: Seq<char>) -> bool {
    if t.len() > 0 && all_digits(t) && digits_value(t) <= u64::MAX {
        n == Number::Unsigned(digits_value(t) as u64)
    } else if t.len() > 1 && t[0] == '-' && all_digits(t.drop_first()) && digits_value(
        t.drop_first(),
    ) <= 0x8000_0000_0000_0000 {
        n == Number::Negative((0 - digits_value(t.drop_first())) as i64)
    } else {
        n matches Number::Real(s) && s@ == t
    }
}

/// `j` is the value of the JSON text `text`, read at most `depth` levels
/// deep: a text that does not parse is `null`.
pub open spec fn json_denotes(j: Json, text: Seq<char>, depth: nat) -> bool
    decreases depth, 1nat,
{
    match json_text_parts(text) {
        Ok(p) => shape_denotes(j, p, depth),
        Err(_) => j == Json::Null,
    }
}

/// `j` is the value whose outermost level is `p`, its members read at most
/// `depth` levels deep; an array or object past the limit is `null`.
pub open spec fn shape_denotes(j: Json, p: JsonShape, depth: nat) -> bool
    decreases depth, 0nat,
{
    match p {
        JsonShape::Null => j == Json::Null,
        JsonShape::Bool(b) => j == Json::Bool(b),
        JsonShape::Number(t) => j matches Json::Number(n) && number_denotes(n, t),
        JsonShape::Str(s) => j matches Json::Str(x) && x@ == s,
        JsonShape::Array(items) => if depth == 0 {
            j == Json::Null
        } else {
            j matches Json::Array(xs) && xs@.len() == items.len() && forall|i: int|
                0 <= i < items.len() ==> json_denotes(
                    #[trigger] xs@[i],
                    items[i],
                    (depth - 1) as nat,
                )
        },
        JsonShape::Object(es) => if depth == 0 {
            j == Json::Null
        } else {
            j matches Json::Object(xs) && xs@.len() == es.len() && forall|i: int|
                0 <= i < es.len() ==> (#[trigger] xs@[i]).0@ == es[i].0 && json_denotes(
                    xs@[i].1,
                    es[i].1,
                    (depth - 1) as nat,
                )
        },
    }
}

/// Whether `v[from..]` is all ASCII digits.
fn all_digits_from(v: &Vec<char>, from: usize) -> (r: bool)
    requires
        from <= v.len(),
    ensures
        r == all_digits(v@.subrange(from as int, v@.len() as int)),
{
    let ghost sub = v@.subrange(from as int, v@.len() as int);
    let mut i = from;
    while i < v.len()
        invariant
            from <= i <= v.len(),
            sub == v@.subrange(from as int, v@.len() as int),
            forall|j: int| from <= j < i ==> is_ascii_digit(v@[j]),
        decreases v.len() - i,
    {
        if !('0' <= v[i] && v[i] <= '9') {
            assert(!is_ascii_digit(sub[i - from]));
            return false;
        }
        i = i + 1;
    }
    assert forall|j: int| 0 <= j < sub.len() implies is_ascii_digit(#[trigger] sub[j]) by {
        assert(sub[j] == v@[j + from]);
    }
    true
}

/// The number a decimal text denotes.
pub fn number_of_text(t: String) -> (r: Number)
    ensures
        number_denotes(r, t@),
{
    let v = chars_of(t.as_str());
    let n = v.len();
    assert(v@.subrange(0, n as int) =~= t@);
    if n > 0 && all_digits_from(&v, 0) {
        match digits_value_upto(&v, 0, n, u64::MAX) {
            Some(u) => return Number::Unsigned(u),
            None => {},
        }
    }
    if n > 1 && v[0] == '-' {
        assert(v@.subrange(1, n as int) =~= t@.drop_first());
        if all_digits_from(&v, 1) {
            match digits_value_upto(&v, 1, n, 0x8000_0000_0000_0000) {
                Some(u) => {
                    let i: i64 = if u == 0x8000_0000_0000_0000 {
                        -0x7fff_ffff_ffff_ffff - 1
                    } else {
                        -(u as i64)
                    };
                    return Number::Negative(i);
                },
                None => {},
            }
        }
    }
    proof {
        if n > 0 && all_digits(t@) {
            assert(t@[0] != '-') by {
                assert(is_ascii_digit(t@[0]));
            }
        }
    }
    Number::Real(t)
}

/// The value of the JSON text `text`, read at most `depth` levels deep.
pub fn json_of_text(text: &str, depth: u32) -> (r: Json)
    ensures
        json_denotes(r, text@, depth as nat),
    decreases depth, 1nat,
{
    match parse_text_parts(text) {
        Ok(p) => json_of_parts(p, depth),
        Err(_) => Json::Null,
    }
}

/// The value whose outermost level is `p`, its members read at most `depth`
/// levels deep.
pub fn json_of_parts(p: TextParts, depth: u32) -> (r: Json)
    ensures
        shape_denotes(r, p@, depth as nat),
    decreases depth, 0nat,
{
    match p {
        TextParts::Null => Json::Null,
        TextParts::Bool(b) => Json::Bool(b),
        TextParts::Number(t) => Json::Number(number_of_text(t)),
        TextParts::Str(s) => Json::Str(s),
        TextParts::Array(items) => {
            if depth == 0 {
                return Json::Null;
            }
            let ghost texts = items@.map_values(|s: String| s@);
            let mut out: Vec<Json> = Vec::new();
            let mut i: usize = 0;
            while i < items.len()
                invariant
                    depth > 0,
                    i <= items.len(),
                    texts == items@.map_values(|s: String| s@),
                    out@.len() == i,
                    forall|k: int|
                        0 <= k < i ==> json_denotes(#[trigger] out@[k], texts[k], (depth - 1) as nat),
                decreases items.len() - i,
            {
                let x = json_of_text(items[i].as_str(), depth - 1);
                out.push(x);
                i = i + 1;
            }
            Json::Array(out)
        },
        TextParts::Object(es) => {
            if depth == 0 {
                return Json::Null;
            }
            let ghost texts = es@.map_values(|e: (String, String)| (e.0@, e.1@));
            let mut out: Vec<(String, Json)> = Vec::new();
            let mut i: usize = 0;
            while i < es.len()
                invariant
                    depth > 0,
                    i <= es.len(),
                    texts == es@.map_values(|e: (String, String)| (e.0@, e.1@)),
                    out@.len() == i,
                    forall|k: int|
                        0 <= k < i ==> (#[trigger] out@[k]).0@ == texts[k].0 && json_denotes(
                            out@[k].1,
                            texts[k].1,
                            (depth - 1) as nat,
                        ),
                decreases es.len() - i,
            {
                let key = owned(es[i].0.as_str());
                let x = json_of_text(es[i].1.as_str(), depth - 1);
                out.push((key, x));
                i = i + 1;
            }
            Json::Object(out)
        },
    }
}

/// Parses JSON text: the parser's error text when it is not JSON, else its
/// value, read at most 256 levels deep (`serde_json` refuses texts nested
/// more than 128 levels, so the limit is never reached).
pub fn parse_json_text(text: &str) -> (r: Result<Json, String>)
    ensures
        json_text_parts(text@) matches Err(m) ==> (r matches Err(e) && e@ == m),
        json_text_parts(text@) is Ok ==> (r matches Ok(j) && json_denotes(j, text@, 256)),
{
    match parse_text_parts(text) {
        Ok(p) => Ok(json_of_parts(p, 256)),
        Err(m) => Err(m),
    }
}

} // verus!

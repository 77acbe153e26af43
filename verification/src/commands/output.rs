//! Building the text a command prints, line by line.
use vstd::prelude::*;

use crate::error::CliError;
use crate::json::Json;

verus! {

/// One printed line: the text and its line feed.
pub open spec fn line(s: Seq<char>) -> Seq<char> {
    s + "\n"@
}

/// What a command printed, and how it ended. A command may print part of its
/// output before it fails.
#[derive(Debug)]
pub struct Output {
    pub text: String,
    pub outcome: Result<(), CliError>,
}

/// Appends `s` and a line feed.
pub fn push_line(out: &mut String, s: &str)
    ensures
        final(out)@ == old(out)@ + line(s@),
{
    out.append(s);
    out.append("\n");
}

/// Appends `a`, `b` and a line feed.
pub fn push_line2(out: &mut String, a: &str, b: &str)
    ensures
        final(out)@ == old(out)@ + line(a@ + b@),
{
    out.append(a);
    out.append(b);
    out.append("\n");
    assert(old(out)@ + a@ + b@ + "\n"@ =~= old(out)@ + line(a@ + b@));
}

/// Appends `a`, `b`, `c` and a line feed.
pub fn push_line3(out: &mut String, a: &str, b: &str, c: &str)
    ensures
        final(out)@ == old(out)@ + line(a@ + b@ + c@),
{
    out.append(a);
    out.append(b);
    out.append(c);
    out.append("\n");
    assert(old(out)@ + a@ + b@ + c@ + "\n"@ =~= old(out)@ + line(a@ + b@ + c@));
}

/// The text under `name` in `v`, or the empty text when there is none.
pub open spec fn field_text(v: Json, name: Seq<char>) -> Seq<char> {
    match v.str_field(name) {
        Some(s) => s,
        None => Seq::empty(),
    }
}

/// The text under `name` in `v`, or the empty text when there is none.
pub fn field<'a>(v: &'a Json, name: &str) -> (r: &'a str)
    ensures
        r@ == field_text(*v, name@),
{
    match v.get_str(name) {
        Some(s) => s,
        None => {
            proof {
                reveal_strlit("");
                assert(""@ =~= Seq::<char>::empty());
            }
            ""
        },
    }
}

/// The text under `name`, or `fallback` when there is none.
pub open spec fn text_or(v: Option<Json>, name: Seq<char>, fallback: Seq<char>) -> Seq<char> {
    match v {
        Some(x) => match x.str_field(name) {
            Some(s) => s,
            None => fallback,
        },
        None => fallback,
    }
}

/// The text under `name` in `v`, or `unknown`.
pub fn text_or_unknown(v: Option<&Json>, name: &str) -> (r: String)
    ensures
        r@ == text_or(match v {
            Some(x) => Some(*x),
            None => None,
        }, name@, "unknown"@),
{
    match v {
        Some(x) => match x.get_str(name) {
            Some(s) => crate::text::owned(s),
            None => crate::text::owned("unknown"),
        },
        None => crate::text::owned("unknown"),
    }
}

} // verus!

//! `call`: an arbitrary method with parameters from a file, from `key=value`
//! pairs, or from a JSON argument, in that order of precedence.
use vstd::prelude::*;

use crate::commands::CommandContext;
use crate::error::CliError;
use crate::json::{keys_unique, lookup, object_insert, Json};
use crate::json_text::{json_denotes, json_text_parts, parse_json_text};
use crate::protocol::{response_json, Response};
use crate::text::{chars_of, concat2, concat3, debug_quoted, debug_text, owned, string_of};

verus! {

/// The arguments of `call`.
#[derive(Clone, Debug)]
pub struct CallArgs {
    pub method: String,
    pub params_json: Option<String>,
    pub params_file: Option<String>,
    pub params: Vec<String>,
}

/// Where the parameters of a call come from.
#[derive(Debug)]
pub enum ParamsSource {
    /// The JSON document in this file.
    File(String),
    /// An object built from `key=value` pairs, in order; each value still raw.
    Pairs(Vec<(String, String)>),
    /// This JSON text.
    JsonText(String),
    /// No parameters: `null`.
    Null,
}

/// The position of the first `=` in `s`.
pub open spec fn eq_index(s: Seq<char>) -> Option<int> {
    if exists|i: int| 0 <= i < s.len() && s[i] == '=' {
        Some(choose|i: int| 0 <= i < s.len() && s[i] == '=' && forall|j: int| 0 <= j < i ==> s[j] != '=')
    } else {
        None
    }
}

/// `key=value` split at its first `=` (`str::split_once`).
pub fn split_pair(pair: &str) -> (r: Option<(String, String)>)
    ensures
        r is None <==> eq_index(pair@) is None,
        r matches Some((k, v)) ==> (eq_index(pair@) matches Some(i) && k@ == pair@.subrange(0, i)
            && v@ == pair@.subrange(i + 1, pair@.len() as int)),
{
    let v = chars_of(pair);
    let mut i: usize = 0;
    while i < v.len() && v[i] != '='
        invariant
            v@ == pair@,
            i <= v.len(),
            forall|j: int| 0 <= j < i ==> v@[j] != '=',
        decreases v.len() - i,
    {
        i = i + 1;
    }
    if i == v.len() {
        return None;
    }
    proof {
        let k = choose|k: int|
            0 <= k < pair@.len() && pair@[k] == '=' && forall|j: int| 0 <= j < k ==> pair@[j] != '=';
        if k < i {
            assert(v@[k] != '=');
        }
        if i < k {
            assert(pair@[i as int] != '=');
        }
    }
    let mut key: Vec<char> = Vec::new();
    let mut j: usize = 0;
    while j < i
        invariant
            v@ == pair@,
            i < v.len(),
            j <= i,
            key@ == pair@.subrange(0, j as int),
        decreases i - j,
    {
        key.push(v[j]);
        j = j + 1;
        assert(key@ =~= pair@.subrange(0, j as int));
    }
    let mut value: Vec<char> = Vec::new();
    let mut k = i + 1;
    while k < v.len()
        invariant
            v@ == pair@,
            i < k <= v.len(),
            value@ == pair@.subrange(i + 1, k as int),
        decreases v.len() - k,
    {
        value.push(v[k]);
        k = k + 1;
        assert(value@ =~= pair@.subrange(i + 1, k as int));
    }
    Some((string_of(&key), string_of(&value)))
}

/// Where the parameters come from: the file when one is named; else the
/// `key=value` pairs when there are any; else the JSON argument; else none.
/// A pair without `=` is an error.
pub fn params_source(args: &CallArgs) -> (r: Result<ParamsSource, CliError>)
    ensures
        args.params_file matches Some(p) ==> (r matches Ok(ParamsSource::File(q)) && q@ == p@),
        args.params_file is None && args.params@.len() > 0 ==> (match r {
            Ok(ParamsSource::Pairs(ps)) => ps@.len() == args.params@.len() && forall|i: int|
                0 <= i < ps@.len() ==> (eq_index(#[trigger] args.params@[i]@) matches Some(k)
                    && ps@[i].0@ == args.params@[i]@.subrange(0, k) && ps@[i].1@
                    == args.params@[i]@.subrange(k + 1, args.params@[i]@.len() as int)),
            Err(CliError::InvalidInput(m)) => exists|i: int|
                0 <= i < args.params@.len() && eq_index(#[trigger] args.params@[i]@) is None
                    && (forall|j: int| 0 <= j < i ==> eq_index(#[trigger] args.params@[j]@) is Some)
                    && m@ == "--param must be key=value, got "@ + debug_text(args.params@[i]@),
            _ => false,
        }),
        args.params_file is None && args.params@.len() == 0 ==> match args.params_json {
            Some(t) => r matches Ok(ParamsSource::JsonText(u)) && u@ == t@,
            None => r matches Ok(ParamsSource::Null),
        },
{
    if let Some(path) = &args.params_file {
        return Ok(ParamsSource::File(owned(path.as_str())));
    }
    if args.params.len() != 0 {
        let mut pairs: Vec<(String, String)> = Vec::new();
        let mut i: usize = 0;
        while i < args.params.len()
            invariant
                args.params_file is None,
                i <= args.params.len(),
                pairs@.len() == i,
                forall|j: int| 0 <= j < i ==> eq_index(#[trigger] args.params@[j]@) is Some,
                forall|j: int|
                    0 <= j < i ==> (eq_index(#[trigger] args.params@[j]@) matches Some(k)
                        && pairs@[j].0@ == args.params@[j]@.subrange(0, k) && pairs@[j].1@
                        == args.params@[j]@.subrange(k + 1, args.params@[j]@.len() as int)),
            decreases args.params.len() - i,
        {
            match split_pair(args.params[i].as_str()) {
                Some(kv) => pairs.push(kv),
                None => {
                    assert(eq_index(args.params@[i as int]@) is None);
                    let d = debug_quoted(args.params[i].as_str());
                    return Err(
                        CliError::InvalidInput(concat2("--param must be key=value, got ", d.as_str())),
                    );
                },
            }
            i = i + 1;
        }
        return Ok(ParamsSource::Pairs(pairs));
    }
    match &args.params_json {
        Some(t) => Ok(ParamsSource::JsonText(owned(t.as_str()))),
        None => Ok(ParamsSource::Null),
    }
}

/// The value of one `key=value` pair: the value read as JSON when it is JSON,
/// the raw text otherwise.
pub fn param_value(raw: String, parsed: Result<Json, String>) -> (r: Json)
    ensures
        parsed matches Ok(v) ==> r == v,
        parsed is Err ==> r == Json::Str(raw),
{
    match parsed {
        Ok(v) => v,
        Err(_) => Json::Str(raw),
    }
}

/// The value of the last pair with key `k`.
pub open spec fn last_value(entries: Seq<(String, Json)>, k: Seq<char>) -> Option<Json>
    decreases entries.len(),
{
    if entries.len() == 0 {
        None
    } else if entries.last().0@ == k {
        Some(entries.last().1)
    } else {
        last_value(entries.drop_last(), k)
    }
}

/// The object of the pairs: each key holds the value of its last pair.
pub fn params_object(entries: Vec<(String, Json)>) -> (r: Json)
    ensures
        r matches Json::Object(es) && keys_unique(es@) && forall|k: Seq<char>| #[trigger] lookup(es@, k)
            == last_value(entries@, k),
{
    let ghost all = entries@;
    let mut es: Vec<(String, Json)> = Vec::new();
    let mut rest = entries;
    let mut n: usize = 0;
    assert(all.len() == rest.len());
    assert(forall|k: Seq<char>| #[trigger] lookup(es@, k) == last_value(all.subrange(0, 0), k)) by {
        assert forall|k: Seq<char>| #[trigger] lookup(es@, k) == last_value(all.subrange(0, 0), k) by {
            reveal_with_fuel(lookup, 1);
        }
    }
    assert(all.subrange(0, all.len() as int) =~= all);
    while rest.len() > 0
        invariant
            n <= all.len(),
            all.len() <= usize::MAX,
            all.len() == rest@.len() + n,
            rest@ == all.subrange(n as int, all.len() as int),
            keys_unique(es@),
            forall|k: Seq<char>| #[trigger] lookup(es@, k) == last_value(all.subrange(0, n as int), k),
        decreases rest.len(),
    {
        let e = rest.remove(0);
        assert(e == all[n as int]);
        object_insert(&mut es, e.0, e.1);
        proof {
            let p = all.subrange(0, n + 1);
            assert(p.drop_last() =~= all.subrange(0, n as int));
            assert(p.last() == all[n as int]);
            assert(rest@ =~= all.subrange(n + 1, all.len() as int));
        }
        n = n + 1;
    }
    assert(all.subrange(0, n as int) =~= all);
    Json::Object(es)
}

/// The error when the parameter file cannot be read.
pub fn params_file_read_error(path: &str, reason: &str) -> (r: CliError)
    ensures
        r matches CliError::InvalidInput(m) && m@ == "failed to read params file "@ + path@ + ": "@ + reason@,
{
    let mut m = concat3("failed to read params file ", path, ": ");
    m.append(reason);
    CliError::InvalidInput(m)
}

/// The error when the parameter file is not JSON.
pub fn params_file_parse_error(path: &str, reason: &str) -> (r: CliError)
    ensures
        r matches CliError::InvalidInput(m) && m@ == "failed to parse params file "@ + path@ + ": "@ + reason@,
{
    let mut m = concat3("failed to parse params file ", path, ": ");
    m.append(reason);
    CliError::InvalidInput(m)
}

/// The error when the JSON argument is not JSON.
pub fn params_json_error(reason: &str) -> (r: CliError)
    ensures
        r matches CliError::InvalidInput(m) && m@ == "failed to parse params JSON: "@ + reason@,
{
    CliError::InvalidInput(concat2("failed to parse params JSON: ", reason))
}

/// `call`, once the response to its request is in: the server's error is the
/// command's error; with raw output the value to print is the whole response,
/// otherwise its result. The parameters come from [`params_source`].
pub fn run(ctx: &CommandContext, response: Response) -> (r: Result<Json, CliError>)
    ensures
        response.error matches Some(e) ==> r == Err::<Json, CliError>(CliError::RpcError(e)),
        response.error is None && ctx.raw ==> (r matches Ok(j) && response_json(response, j)),
        response.error is None && !ctx.raw ==> (response.result matches Some(x) ==> r == Ok::<
            Json,
            CliError,
        >(x)),
        response.error is None && !ctx.raw ==> (response.result is None ==> (r matches Err(
            CliError::InvalidResponse(m),
        ) && m@ == "response is missing result"@)),
{
    if response.error.is_some() {
        return match response.error {
            Some(e) => Err(CliError::RpcError(e)),
            None => Err(CliError::Other(owned(""))),
        };
    }
    if ctx.raw {
        return Ok(response.into_json());
    }
    match response.result {
        Some(x) => Ok(x),
        None => Err(CliError::InvalidResponse(owned("response is missing result"))),
    }
}


/// The key of a `key=value` pair: the text before its first `=`.
pub open spec fn pair_key(p: Seq<char>) -> Seq<char> {
    p.subrange(0, eq_index(p)->Some_0)
}

/// The raw value of a `key=value` pair: the text after its first `=`.
pub open spec fn pair_raw(p: Seq<char>) -> Seq<char> {
    p.subrange(eq_index(p)->Some_0 + 1, p.len() as int)
}

/// The raw value of the last pair whose key is `k`.
pub open spec fn last_raw(pairs: Seq<Seq<char>>, k: Seq<char>) -> Option<Seq<char>>
    decreases pairs.len(),
{
    if pairs.len() == 0 {
        None
    } else if pair_key(pairs.last()) == k {
        Some(pair_raw(pairs.last()))
    } else {
        last_raw(pairs.drop_last(), k)
    }
}

/// `x` is the value a pair with raw value `raw` gives: the JSON the text is,
/// or the text itself when it is not JSON.
pub open spec fn raw_value_is(raw: Seq<char>, x: Json) -> bool {
    match json_text_parts(raw) {
        Ok(_) => json_denotes(x, raw, 256),
        Err(_) => x matches Json::Str(s) && s@ == raw,
    }
}

proof fn lemma_last_value_of_pairs(entries: Seq<(String, Json)>, pairs: Seq<Seq<char>>, k: Seq<char>)
    requires
        entries.len() == pairs.len(),
        forall|i: int|
            0 <= i < pairs.len() ==> entries[i].0@ == pair_key(#[trigger] pairs[i]) && raw_value_is(
                pair_raw(pairs[i]),
                entries[i].1,
            ),
    ensures
        match last_raw(pairs, k) {
            None => last_value(entries, k) is None,
            Some(raw) => last_value(entries, k) matches Some(x) && raw_value_is(raw, x),
        },
    decreases pairs.len(),
{
    if pairs.len() > 0 {
        let n = pairs.len() - 1;
        assert(entries[n].0@ == pair_key(pairs[n]));
        assert forall|i: int| 0 <= i < n implies entries.drop_last()[i].0@ == pair_key(
            #[trigger] pairs.drop_last()[i],
        ) && raw_value_is(pair_raw(pairs.drop_last()[i]), entries.drop_last()[i].1) by {
            assert(pairs.drop_last()[i] == pairs[i]);
            assert(entries.drop_last()[i] == entries[i]);
        }
        lemma_last_value_of_pairs(entries.drop_last(), pairs.drop_last(), k);
    }
}

/// The parameters of `call`: the JSON of the file when one is named (its
/// content, or why it could not be read, is `file_content`); else the object
/// of the `key=value` pairs, where each key holds the value of its last pair,
/// read as JSON when it is JSON and as text otherwise; else the JSON argument;
/// else `null`.
pub fn build_params(args: &CallArgs, file_content: Option<Result<String, String>>) -> (r: Result<Json, CliError>)
    requires
        args.params_file is Some ==> file_content is Some,
    ensures
        args.params_file matches Some(p) ==> match file_content->Some_0 {
            Err(e) => r matches Err(CliError::InvalidInput(m)) && m@ == "failed to read params file "@
                + p@ + ": "@ + e@,
            Ok(c) => match json_text_parts(c@) {
                Ok(_) => r matches Ok(v) && json_denotes(v, c@, 256),
                Err(t) => r matches Err(CliError::InvalidInput(m)) && m@ == "failed to parse params file "@
                    + p@ + ": "@ + t,
            },
        },
        args.params_file is None && args.params@.len() > 0 && (forall|i: int|
            0 <= i < args.params@.len() ==> eq_index(#[trigger] args.params@[i]@) is Some) ==> (r matches Ok(
            Json::Object(es),
        ) && keys_unique(es@) && forall|k: Seq<char>|
            match last_raw(args.params@.map_values(|s: String| s@), k) {
                None => #[trigger] lookup(es@, k) is None,
                Some(raw) => lookup(es@, k) matches Some(x) && raw_value_is(raw, x),
            }),
        args.params_file is None && !(forall|i: int|
            0 <= i < args.params@.len() ==> eq_index(#[trigger] args.params@[i]@) is Some) ==> (r matches Err(
            CliError::InvalidInput(m),
        ) && exists|i: int|
            0 <= i < args.params@.len() && eq_index(#[trigger] args.params@[i]@) is None && (forall|j: int|
                0 <= j < i ==> eq_index(#[trigger] args.params@[j]@) is Some) && m@
                == "--param must be key=value, got "@ + debug_text(args.params@[i]@)),
        args.params_file is None && args.params@.len() == 0 ==> match args.params_json {
            Some(t) => match json_text_parts(t@) {
                Ok(_) => r matches Ok(v) && json_denotes(v, t@, 256),
                Err(e) => r matches Err(CliError::InvalidInput(m)) && m@ == "failed to parse params JSON: "@
                    + e,
            },
            None => r == Ok::<Json, CliError>(Json::Null),
        },
{
    let source = match params_source(args) {
        Ok(s) => s,
        Err(e) => return Err(e),
    };
    match source {
        ParamsSource::File(path) => match file_content {
            Some(Ok(c)) => match parse_json_text(c.as_str()) {
                Ok(v) => Ok(v),
                Err(m) => Err(params_file_parse_error(path.as_str(), m.as_str())),
            },
            Some(Err(e)) => Err(params_file_read_error(path.as_str(), e.as_str())),
            None => Err(params_file_read_error(path.as_str(), "")),
        },
        ParamsSource::Pairs(ps) => {
            let ghost pairs = args.params@.map_values(|s: String| s@);
            let mut entries: Vec<(String, Json)> = Vec::new();
            let mut i: usize = 0;
            while i < ps.len()
                invariant
                    ps@.len() == args.params@.len(),
                    pairs == args.params@.map_values(|s: String| s@),
                    forall|j: int|
                        0 <= j < ps@.len() ==> (eq_index(#[trigger] args.params@[j]@) matches Some(k)
                            && ps@[j].0@ == args.params@[j]@.subrange(0, k) && ps@[j].1@
                            == args.params@[j]@.subrange(k + 1, args.params@[j]@.len() as int)),
                    i <= ps.len(),
                    entries@.len() == i,
                    forall|j: int|
                        0 <= j < i ==> entries@[j].0@ == pair_key(#[trigger] pairs[j]) && raw_value_is(
                            pair_raw(pairs[j]),
                            entries@[j].1,
                        ),
                decreases ps.len() - i,
            {
                let key = owned(ps[i].0.as_str());
                let raw = owned(ps[i].1.as_str());
                let parsed = parse_json_text(raw.as_str());
                let ghost raw_text = raw@;
                let value = param_value(raw, parsed);
                assert(pairs[i as int] == args.params@[i as int]@);
                entries.push((key, value));
                i = i + 1;
            }
            let ghost all = entries@;
            proof {
                assert forall|k: Seq<char>| #![trigger last_raw(pairs, k)] true implies match last_raw(pairs, k) {
                    None => last_value(all, k) is None,
                    Some(raw) => last_value(all, k) matches Some(x) && raw_value_is(raw, x),
                } by {
                    lemma_last_value_of_pairs(all, pairs, k);
                }
            }
            Ok(params_object(entries))
        },
        ParamsSource::JsonText(t) => match parse_json_text(t.as_str()) {
            Ok(v) => Ok(v),
            Err(m) => Err(params_json_error(m.as_str())),
        },
        ParamsSource::Null => Ok(Json::Null),
    }
}

} // verus!

//! JSON-RPC 2.0 messages: request ids, requests, error objects and responses.
//!
//! A response is accepted only when it is an object whose `jsonrpc` is `"2.0"`
//! and that holds exactly one of `result` and `error`; its id, when present,
//! must be an unsigned integer, a string or null, and its error object must
//! carry an `i32` code and a string message.
use vstd::prelude::*;

use crate::error::CliError;
use crate::json::{has_key, lookup, take_field, Json, Number};
use crate::json_text::{json_denotes, json_text_parts, parse_json_text};
use crate::json_write::{
    json_quoted, json_text, lemma_chars_one_line, lemma_decimal_one_line, lemma_join_one_line,
    lemma_punctuation_one_line, quote_json_string, reals_on_one_line, write_json,
};
use crate::text::{concat2, concat3, debug_quoted, debug_text, decimal, decimal_string, owned, str_eq};

verus! {

/// The protocol version that every message carries.
pub const JSONRPC_VERSION: &'static str = "2.0";

/// A request id: an unsigned integer, a string, or null.
#[derive(Clone, Debug, PartialEq, Eq)]
pub enum Id {
    Number(u64),
    String(String),
    Null,
}

/// Two ids are the same id: the same number, the same text, or both null.
pub open spec fn same_id(a: Id, b: Id) -> bool {
    match (a, b) {
        (Id::Number(x), Id::Number(y)) => x == y,
        (Id::String(x), Id::String(y)) => x@ == y@,
        (Id::Null, Id::Null) => true,
        _ => false,
    }
}

/// The id that a JSON value denotes, if it denotes one.
pub open spec fn id_from(v: Json) -> Option<Id> {
    match v {
        Json::Number(Number::Unsigned(n)) => Some(Id::Number(n)),
        Json::Str(s) => Some(Id::String(s)),
        Json::Null => Some(Id::Null),
        _ => None,
    }
}

/// Why a JSON value is not an id.
pub open spec fn id_error_text(v: Json) -> Seq<char> {
    match v {
        Json::Number(_) => "id must be an unsigned integer"@,
        _ => "id must be a number, string, or null"@,
    }
}

/// The JSON value that an id is written as.
pub open spec fn id_json(id: Id) -> Json {
    match id {
        Id::Number(n) => Json::Number(Number::Unsigned(n)),
        Id::String(s) => Json::Str(s),
        Id::Null => Json::Null,
    }
}

/// How an id reads in a message: `Number(7)`, `String("abc")` or `Null`.
pub open spec fn id_debug(id: Id) -> Seq<char> {
    match id {
        Id::Number(n) => "Number("@ + decimal(n as nat) + ")"@,
        Id::String(s) => "String("@ + debug_text(s@) + ")"@,
        Id::Null => "Null"@,
    }
}

impl Id {
    /// Reads an id from a JSON value.
    pub fn from_json(v: Json) -> (r: Result<Id, String>)
        ensures
            r is Ok <==> id_from(v) is Some,
            r matches Ok(id) ==> id_from(v) == Some(id),
            r matches Err(m) ==> m@ == id_error_text(v),
    {
        match v {
            Json::Number(Number::Unsigned(n)) => Ok(Id::Number(n)),
            Json::Number(_) => Err(owned("id must be an unsigned integer")),
            Json::Str(s) => Ok(Id::String(s)),
            Json::Null => Ok(Id::Null),
            _ => Err(owned("id must be a number, string, or null")),
        }
    }

    /// The JSON value this id is written as.
    pub fn into_json(self) -> (r: Json)
        ensures
            r == id_json(self),
    {
        match self {
            Id::Number(n) => Json::Number(Number::Unsigned(n)),
            Id::String(s) => Json::Str(s),
            Id::Null => Json::Null,
        }
    }

    /// Whether `self` and `other` are the same id.
    pub fn same_as(&self, other: &Id) -> (r: bool)
        ensures
            r == same_id(*self, *other),
    {
        match (self, other) {
            (Id::Number(x), Id::Number(y)) => *x == *y,
            (Id::String(x), Id::String(y)) => str_eq(x.as_str(), y.as_str()),
            (Id::Null, Id::Null) => true,
            _ => false,
        }
    }

    /// How this id reads in a message.
    pub fn debug_text(&self) -> (r: String)
        ensures
            r@ == id_debug(*self),
    {
        match self {
            Id::Number(n) => {
                let d = decimal_string(*n);
                concat3("Number(", d.as_str(), ")")
            },
            Id::String(s) => {
                let d = debug_quoted(s.as_str());
                concat3("String(", d.as_str(), ")")
            },
            Id::Null => owned("Null"),
        }
    }
}

impl From<u64> for Id {
    fn from(value: u64) -> (r: Id) {
        Id::Number(value)
    }
}

impl vstd::std_specs::convert::FromSpecImpl<u64> for Id {
    open spec fn obeys_from_spec() -> bool {
        true
    }

    open spec fn from_spec(value: u64) -> Id {
        Id::Number(value)
    }
}

impl From<String> for Id {
    fn from(value: String) -> (r: Id) {
        Id::String(value)
    }
}

impl vstd::std_specs::convert::FromSpecImpl<String> for Id {
    open spec fn obeys_from_spec() -> bool {
        true
    }

    open spec fn from_spec(value: String) -> Id {
        Id::String(value)
    }
}

/// A JSON-RPC request.
#[derive(Debug, PartialEq)]
pub struct Request {
    pub jsonrpc: &'static str,
    pub id: Id,
    pub method: String,
    pub params: Json,
}

impl Request {
    /// A request for `method`; absent parameters are sent as `null`.
    pub fn new(id: Id, method: String, params: Option<Json>) -> (r: Request)
        ensures
            r.jsonrpc@ == JSONRPC_VERSION@,
            r.id == id,
            r.method == method,
            r.params == match params {
                Some(p) => p,
                None => Json::Null,
            },
    {
        Request {
            jsonrpc: JSONRPC_VERSION,
            id,
            method,
            params: match params {
                Some(p) => p,
                None => Json::Null,
            },
        }
    }

    /// The request as a JSON object, fields in the order `jsonrpc`, `id`,
    /// `method`, `params`.
    pub fn into_json(self) -> (r: Json)
        ensures
            r matches Json::Object(es) && es@.len() == 4
                && es@[0].0@ == "jsonrpc"@ && es@[0].1.text() == Some(self.jsonrpc@)
                && es@[1].0@ == "id"@ && es@[1].1 == id_json(self.id)
                && es@[2].0@ == "method"@ && es@[2].1 == Json::Str(self.method)
                && es@[3].0@ == "params"@ && es@[3].1 == self.params,
    {
        let mut es: Vec<(String, Json)> = Vec::new();
        es.push((owned("jsonrpc"), Json::string(self.jsonrpc)));
        es.push((owned("id"), self.id.into_json()));
        es.push((owned("method"), Json::Str(self.method)));
        es.push((owned("params"), self.params));
        Json::Object(es)
    }
}

/// The compact JSON text of an id: a number, a quoted string, or `null`.
pub open spec fn id_text(id: Id) -> Seq<char> {
    match id {
        Id::Number(n) => decimal(n as nat),
        Id::String(s) => json_quoted(s@),
        Id::Null => "null"@,
    }
}

/// The compact JSON text of a request: an object with the fields `jsonrpc`,
/// `id`, `method` and `params`, in this order.
pub open spec fn request_text(r: Request) -> Seq<char> {
    "{\"jsonrpc\":"@ + json_quoted(r.jsonrpc@) + ",\"id\":"@ + id_text(r.id) + ",\"method\":"@
        + json_quoted(r.method@) + ",\"params\":"@ + json_text(r.params) + "}"@
}

impl Request {
    /// The line the request is sent as: its compact JSON text and a line
    /// feed.
    pub fn to_json_line(&self) -> (r: Result<String, CliError>)
        ensures
            r matches Ok(line) && line@ == request_text(*self) + "\n"@,
            reals_on_one_line(self.params) ==> !request_text(*self).contains('\n'),
    {
        let mut line = owned("{\"jsonrpc\":");
        let v = quote_json_string(self.jsonrpc);
        line.append(v.as_str());
        line.append(",\"id\":");
        match &self.id {
            Id::Number(n) => {
                let d = decimal_string(*n);
                line.append(d.as_str());
            },
            Id::String(s) => {
                let q = quote_json_string(s.as_str());
                line.append(q.as_str());
            },
            Id::Null => {
                line.append("null");
            },
        }
        line.append(",\"method\":");
        let m = quote_json_string(self.method.as_str());
        line.append(m.as_str());
        line.append(",\"params\":");
        write_json(&mut line, &self.params);
        line.append("}");
        proof {
            if reals_on_one_line(self.params) {
                let a = "{\"jsonrpc\":"@;
                let b = ",\"id\":"@;
                let c = ",\"method\":"@;
                let d = ",\"params\":"@;
                reveal_strlit("{\"jsonrpc\":");
                reveal_strlit(",\"id\":");
                reveal_strlit(",\"method\":");
                reveal_strlit(",\"params\":");
                lemma_chars_one_line(a);
                lemma_chars_one_line(b);
                lemma_chars_one_line(c);
                lemma_chars_one_line(d);
                lemma_punctuation_one_line();
                if let Id::Number(n) = self.id {
                    lemma_decimal_one_line(n as nat);
                }
                let x1 = a + json_quoted(self.jsonrpc@);
                lemma_join_one_line(a, json_quoted(self.jsonrpc@));
                lemma_join_one_line(x1, b);
                lemma_join_one_line(x1 + b, id_text(self.id));
                let x2 = x1 + b + id_text(self.id);
                lemma_join_one_line(x2, c);
                lemma_join_one_line(x2 + c, json_quoted(self.method@));
                let x3 = x2 + c + json_quoted(self.method@);
                lemma_join_one_line(x3, d);
                lemma_join_one_line(x3 + d, json_text(self.params));
                lemma_join_one_line(x3 + d + json_text(self.params), "}"@);
            }
        }
        line.append("\n");
        Ok(line)
    }
}

/// A JSON-RPC error object.
#[derive(Debug, PartialEq)]
pub struct RpcError {
    pub code: i32,
    pub message: String,
    pub data: Option<Json>,
}

/// The `i32` a JSON value holds, when it is an integer in range.
pub open spec fn code_from(v: Json) -> Option<i32> {
    match v {
        Json::Number(Number::Unsigned(n)) => if n <= i32::MAX {
            Some(n as i32)
        } else {
            None
        },
        Json::Number(Number::Negative(n)) => if n >= i32::MIN {
            Some(n as i32)
        } else {
            None
        },
        _ => None,
    }
}

/// An optional value read into an `Option`: absent and `null` are both `None`.
pub open spec fn optional_from(v: Option<Json>) -> Option<Json> {
    match v {
        Some(Json::Null) => None,
        other => other,
    }
}

/// A signed integer in decimal, with `-` before a negative one.
pub open spec fn signed_decimal(i: i64) -> Seq<char> {
    if i < 0 {
        "-"@ + decimal((0 - i) as nat)
    } else {
        decimal(i as nat)
    }
}

/// How serde names a JSON value it did not expect (its `Unexpected`).
pub open spec fn unexpected_text(v: Json) -> Seq<char> {
    match v {
        Json::Null => "unit value"@,
        Json::Bool(b) => if b {
            "boolean `true`"@
        } else {
            "boolean `false`"@
        },
        Json::Number(Number::Unsigned(u)) => "integer `"@ + decimal(u as nat) + "`"@,
        Json::Number(Number::Negative(i)) => "integer `"@ + signed_decimal(i) + "`"@,
        Json::Number(Number::Real(t)) => "floating point `"@ + t@ + "`"@,
        Json::Str(x) => "string "@ + debug_text(x@),
        Json::Array(_) => "sequence"@,
        Json::Object(_) => "map"@,
    }
}

/// Why a value is no `i32` code: an integer out of range is an invalid
/// value, anything else an invalid type.
pub open spec fn code_error(c: Json) -> Seq<char> {
    match c {
        Json::Number(Number::Unsigned(_)) => "invalid value: "@ + unexpected_text(c) + ", expected i32"@,
        Json::Number(Number::Negative(_)) => "invalid value: "@ + unexpected_text(c) + ", expected i32"@,
        _ => "invalid type: "@ + unexpected_text(c) + ", expected i32"@,
    }
}

/// Why a value is no message text.
pub open spec fn message_error(m: Json) -> Seq<char> {
    "invalid type: "@ + unexpected_text(m) + ", expected a string"@
}

/// The error object that the fields of an object make, checked as serde's
/// derived reader checks them: a present code, then a present message, in
/// the order of their keys (`code` < `data` < `message`); then the missing
/// ones.
pub open spec fn rpc_parts(code: Option<Json>, message: Option<Json>, data: Option<Json>) -> Result<RpcError, Seq<char>> {
    if code is Some && code_from(code->Some_0) is None {
        Err(code_error(code->Some_0))
    } else if message is Some && !(message->Some_0 is Str) {
        Err(message_error(message->Some_0))
    } else if code is None {
        Err("missing field `code`"@)
    } else if message is None {
        Err("missing field `message`"@)
    } else {
        Ok(
            RpcError {
                code: code_from(code->Some_0)->Some_0,
                message: message->Some_0->Str_0,
                data: optional_from(data),
            },
        )
    }
}

/// The error object a JSON value denotes, as serde reads the struct: either an
/// object with the fields `code`, `message` and, optionally, `data`, or an
/// array of two or three elements in that order, each element checked as it
/// is reached. Otherwise the reason.
pub open spec fn rpc_error_from(v: Json) -> Result<RpcError, Seq<char>> {
    match v {
        Json::Object(es) => rpc_parts(lookup(es@, "code"@), lookup(es@, "message"@), lookup(es@, "data"@)),
        Json::Array(xs) => {
            let n = xs@.len();
            if n == 0 {
                Err("invalid length 0, expected struct RpcError with 3 elements"@)
            } else if code_from(xs@[0]) is None {
                Err(code_error(xs@[0]))
            } else if n == 1 {
                Err("invalid length 1, expected struct RpcError with 3 elements"@)
            } else if !(xs@[1] is Str) {
                Err(message_error(xs@[1]))
            } else if n > 3 {
                Err("invalid length "@ + decimal(n) + ", expected fewer elements in array"@)
            } else {
                Ok(
                    RpcError {
                        code: code_from(xs@[0])->Some_0,
                        message: xs@[1]->Str_0,
                        data: if n == 3 {
                            optional_from(Some(xs@[2]))
                        } else {
                            None
                        },
                    },
                )
            }
        },
        _ => Err("invalid type: "@ + unexpected_text(v) + ", expected struct RpcError"@),
    }
}

/// A signed integer in decimal.
fn signed_text(i: i64) -> (r: String)
    ensures
        r@ == signed_decimal(i),
{
    if i < 0 {
        let a: u64 = if i == i64::MIN {
            0x8000_0000_0000_0000
        } else {
            (0 - i) as u64
        };
        let d = decimal_string(a);
        concat2("-", d.as_str())
    } else {
        decimal_string(i as u64)
    }
}

/// How serde names a JSON value it did not expect.
pub fn unexpected_of(v: &Json) -> (r: String)
    ensures
        r@ == unexpected_text(*v),
{
    match v {
        Json::Null => owned("unit value"),
        Json::Bool(b) => {
            if *b {
                owned("boolean `true`")
            } else {
                owned("boolean `false`")
            }
        },
        Json::Number(Number::Unsigned(u)) => {
            let d = decimal_string(*u);
            concat3("integer `", d.as_str(), "`")
        },
        Json::Number(Number::Negative(i)) => {
            let d = signed_text(*i);
            concat3("integer `", d.as_str(), "`")
        },
        Json::Number(Number::Real(t)) => concat3("floating point `", t.as_str(), "`"),
        Json::Str(x) => {
            let d = debug_quoted(x.as_str());
            concat2("string ", d.as_str())
        },
        Json::Array(_) => owned("sequence"),
        Json::Object(_) => owned("map"),
    }
}

/// The `i32` code a value holds, or why it holds none.
fn code_value(c: &Json) -> (r: Result<i32, String>)
    ensures
        match code_from(*c) {
            Some(n) => r == Ok::<i32, String>(n),
            None => r matches Err(m) && m@ == code_error(*c),
        },
{
    match c {
        Json::Number(Number::Unsigned(n)) => {
            if *n <= 2147483647 {
                return Ok(*n as i32);
            }
        },
        Json::Number(Number::Negative(n)) => {
            if *n >= -2147483648 {
                return Ok(*n as i32);
            }
        },
        _ => {
            let u = unexpected_of(c);
            return Err(concat3("invalid type: ", u.as_str(), ", expected i32"));
        },
    }
    let u = unexpected_of(c);
    Err(concat3("invalid value: ", u.as_str(), ", expected i32"))
}

/// Why a value is no message text.
fn message_error_text(m: &Json) -> (r: String)
    ensures
        r@ == message_error(*m),
{
    let u = unexpected_of(m);
    concat3("invalid type: ", u.as_str(), ", expected a string")
}

/// An error object is written as an object with `code`, `message`, and `data`
/// when it has data.
pub open spec fn rpc_error_json(e: RpcError, j: Json) -> bool {
    &&& j matches Json::Object(es)
    &&& crate::json::keys_unique(es@)
    &&& lookup(es@, "code"@) == Some(code_json(e.code))
    &&& lookup(es@, "message"@) == Some(Json::Str(e.message))
    &&& lookup(es@, "data"@) == e.data
    &&& forall|i: int| 0 <= i < es@.len() ==> {
        let k = #[trigger] es@[i].0@;
        k == "code"@ || k == "message"@ || k == "data"@
    }
}

/// The JSON number an `i32` is written as.
pub open spec fn code_json(c: i32) -> Json {
    if c >= 0 {
        Json::Number(Number::Unsigned(c as u64))
    } else {
        Json::Number(Number::Negative(c as i64))
    }
}

impl RpcError {
    /// Reads an error object from a JSON value.
    pub fn from_json(v: Json) -> (r: Result<RpcError, String>)
        ensures
            r matches Ok(e) ==> rpc_error_from(v) == Ok::<RpcError, Seq<char>>(e),
            r matches Err(m) ==> rpc_error_from(v) == Err::<RpcError, Seq<char>>(m@),
    {
        match v {
            Json::Object(es) => {
                let mut es = es;
                let ghost es0 = es@;
                let code = take_field(&mut es, "code");
                let message = take_field(&mut es, "message");
                let data = take_field(&mut es, "data");
                proof {
                    lemma_field_names_distinct();
                }
                Self::from_parts(code, message, data)
            },
            Json::Array(xs) => {
                let mut xs = xs;
                let ghost xs0 = xs@;
                let n = xs.len();
                if n == 0 {
                    return Err(owned("invalid length 0, expected struct RpcError with 3 elements"));
                }
                let code = match code_value(&xs[0]) {
                    Ok(c) => c,
                    Err(m) => return Err(m),
                };
                if n == 1 {
                    return Err(owned("invalid length 1, expected struct RpcError with 3 elements"));
                }
                match &xs[1] {
                    Json::Str(_) => {},
                    m => return Err(message_error_text(m)),
                }
                if n > 3 {
                    let d = decimal_string(n as u64);
                    return Err(concat3("invalid length ", d.as_str(), ", expected fewer elements in array"));
                }
                let data = if n == 3 {
                    match xs.remove(2) {
                        Json::Null => None,
                        d => Some(d),
                    }
                } else {
                    None
                };
                let message = match xs.remove(1) {
                    Json::Str(m) => m,
                    other => return Err(message_error_text(&other)),
                };
                Ok(RpcError { code, message, data })
            },
            other => {
                let u = unexpected_of(&other);
                Err(concat3("invalid type: ", u.as_str(), ", expected struct RpcError"))
            },
        }
    }

    fn from_parts(code: Option<Json>, message: Option<Json>, data: Option<Json>) -> (r: Result<RpcError, String>)
        ensures
            r matches Ok(e) ==> rpc_parts(code, message, data) == Ok::<RpcError, Seq<char>>(e),
            r matches Err(m) ==> rpc_parts(code, message, data) == Err::<RpcError, Seq<char>>(m@),
    {
        let n: Option<i32> = match &code {
            Some(c) => match code_value(c) {
                Ok(n) => Some(n),
                Err(m) => return Err(m),
            },
            None => None,
        };
        match &message {
            Some(Json::Str(_)) => {},
            Some(m) => return Err(message_error_text(m)),
            None => {},
        }
        let n = match n {
            Some(n) => n,
            None => return Err(owned("missing field `code`")),
        };
        let message = match message {
            Some(Json::Str(m)) => m,
            _ => return Err(owned("missing field `message`")),
        };
        let data = match data {
            Some(Json::Null) => None,
            other => other,
        };
        Ok(RpcError { code: n, message, data })
    }

    /// The error object as JSON: `code`, `data` when present, and `message`.
    pub fn into_json(self) -> (r: Json)
        ensures
            rpc_error_json(self, r),
    {
        let code = if self.code >= 0 {
            Json::Number(Number::Unsigned(self.code as u64))
        } else {
            Json::Number(Number::Negative(self.code as i64))
        };
        let mut es: Vec<(String, Json)> = Vec::new();
        let has_data = self.data.is_some();
        es.push((owned("code"), code));
        match self.data {
            Some(d) => es.push((owned("data"), d)),
            None => {},
        }
        es.push((owned("message"), Json::Str(self.message)));
        proof {
            lemma_field_names_distinct();
            let e = es@;
            let m: int = if has_data {
                2
            } else {
                1
            };
            assert(crate::json::first_index(e, "code"@, 0));
            crate::json::lemma_lookup_first(e, "code"@, 0);
            assert(crate::json::first_index(e, "message"@, m));
            crate::json::lemma_lookup_first(e, "message"@, m);
            if has_data {
                assert(crate::json::first_index(e, "data"@, 1));
                crate::json::lemma_lookup_first(e, "data"@, 1);
            } else {
                assert(!has_key(e, "data"@));
                crate::json::lemma_lookup_absent(e, "data"@);
            }
        }
        Json::Object(es)
    }
}

/// The field names of the protocol are different texts.
proof fn lemma_field_names_distinct()
    ensures
        "code"@ != "message"@,
        "code"@ != "data"@,
        "message"@ != "data"@,
        "jsonrpc"@ != "id"@,
        "jsonrpc"@ != "result"@,
        "jsonrpc"@ != "error"@,
        "id"@ != "result"@,
        "id"@ != "error"@,
        "result"@ != "error"@,
{
    reveal_strlit("code");
    reveal_strlit("message");
    reveal_strlit("data");
    reveal_strlit("jsonrpc");
    reveal_strlit("id");
    reveal_strlit("result");
    reveal_strlit("error");
    assert("code"@.len() != "message"@.len());
    assert("code"@[0] != "data"@[0]);
    assert("message"@.len() != "data"@.len());
    assert("jsonrpc"@.len() != "id"@.len());
    assert("jsonrpc"@.len() != "result"@.len());
    assert("jsonrpc"@.len() != "error"@.len());
    assert("id"@.len() != "result"@.len());
    assert("id"@.len() != "error"@.len());
    assert("result"@.len() != "error"@.len());
}

/// A JSON-RPC response.
#[derive(Debug, PartialEq)]
pub struct Response {
    pub jsonrpc: String,
    pub id: Option<Id>,
    pub result: Option<Json>,
    pub error: Option<RpcError>,
}

/// Why a JSON value is not a valid response, or `None` when it is one.
pub open spec fn response_problem(v: Json) -> Option<Seq<char>> {
    match v {
        Json::Object(es) => {
            let e = es@;
            match lookup(e, "jsonrpc"@) {
                Some(Json::Str(version)) => if version@ != "2.0"@ {
                    Some("jsonrpc must be \"2.0\""@)
                } else if has_key(e, "result"@) && has_key(e, "error"@) {
                    Some("response cannot contain both result and error"@)
                } else if !has_key(e, "result"@) && !has_key(e, "error"@) {
                    Some("response must contain result or error"@)
                } else {
                    match lookup(e, "id"@) {
                        Some(i) if id_from(i) is None => Some(id_error_text(i)),
                        _ => match lookup(e, "error"@) {
                            Some(x) => match rpc_error_from(x) {
                                Err(m) => Some(m),
                                Ok(_) => None,
                            },
                            None => None,
                        },
                    }
                },
                _ => Some("response is missing string field \"jsonrpc\""@),
            }
        },
        _ => Some("response must be a JSON object"@),
    }
}

/// The response that a valid JSON value denotes.
pub open spec fn response_from(v: Json) -> Response {
    let e = v->Object_0@;
    Response {
        jsonrpc: lookup(e, "jsonrpc"@)->Some_0->Str_0,
        id: match lookup(e, "id"@) {
            Some(i) => id_from(i),
            None => None,
        },
        result: lookup(e, "result"@),
        error: match lookup(e, "error"@) {
            Some(x) => Some(rpc_error_from(x)->Ok_0),
            None => None,
        },
    }
}

/// `j` is the JSON object that `r` is written as: `jsonrpc`, then `id`,
/// `result` and `error` for those that are present.
pub open spec fn response_json(r: Response, j: Json) -> bool {
    &&& j matches Json::Object(es)
    &&& lookup(es@, "jsonrpc"@) == Some(Json::Str(r.jsonrpc))
    &&& lookup(es@, "id"@) == match r.id {
        Some(i) => Some(id_json(i)),
        None => None,
    }
    &&& lookup(es@, "result"@) == r.result
    &&& match r.error {
        Some(e) => lookup(es@, "error"@) matches Some(x) && rpc_error_json(e, x),
        None => lookup(es@, "error"@) is None,
    }
}

/// Writing a valid response as JSON and reading it back gives the same
/// response. A response is valid when its version is `"2.0"`, it holds exactly
/// one of a result and an error, and its error carries no `null` data (read
/// back, `null` data is no data).
pub proof fn lemma_response_roundtrip(r: Response, j: Json)
    requires
        response_json(r, j),
        r.jsonrpc@ == JSONRPC_VERSION@,
        r.result is Some <==> r.error is None,
        r.error matches Some(e) ==> e.data != Some(Json::Null),
    ensures
        response_problem(j) is None,
        response_from(j) == r,
{
    lemma_field_names_distinct();
    reveal_strlit("2.0");
    let es = j->Object_0@;
    crate::json::lemma_lookup_some(es, "result"@);
    crate::json::lemma_lookup_some(es, "error"@);
    match r.error {
        Some(e) => {
            let x = lookup(es, "error"@)->Some_0;
            let xs = x->Object_0@;
            assert(code_from(code_json(e.code)) == Some(e.code));
            assert(optional_from(lookup(xs, "data"@)) == e.data);
            assert(rpc_error_from(x) == Ok::<RpcError, Seq<char>>(e));
        },
        None => {},
    }
    match r.id {
        Some(i) => {
            assert(id_from(id_json(i)) == Some(i));
        },
        None => {},
    }
}

/// The message for an id that differs from the expected one.
pub open spec fn id_mismatch_text(expected: Id, actual: Id) -> Seq<char> {
    "id mismatch: expected "@ + id_debug(expected) + ", got "@ + id_debug(actual)
}

impl Response {
    /// Reads a response from the JSON value of one received line.
    pub fn from_json(v: Json) -> (r: Result<Response, CliError>)
        ensures
            r matches Ok(resp) ==> response_problem(v) is None && resp == response_from(v),
            r matches Ok(resp) ==> resp.jsonrpc@ == JSONRPC_VERSION@ && (resp.result is Some
                <==> resp.error is None),
            r matches Err(e) ==> e matches CliError::InvalidResponse(m) && response_problem(v)
                == Some(m@),
            response_problem(v) is None ==> r is Ok,
    {
        let ghost v0 = v;
        let es = match v {
            Json::Object(es) => es,
            _ => return Err(CliError::InvalidResponse(owned("response must be a JSON object"))),
        };
        let ghost e = es@;
        proof {
            lemma_field_names_distinct();
        }
        let mut es = es;
        let jsonrpc = match take_field(&mut es, "jsonrpc") {
            Some(Json::Str(s)) => s,
            _ => {
                return Err(
                    CliError::InvalidResponse(
                        owned("response is missing string field \"jsonrpc\""),
                    ),
                )
            },
        };
        if !str_eq(jsonrpc.as_str(), JSONRPC_VERSION) {
            return Err(CliError::InvalidResponse(owned("jsonrpc must be \"2.0\"")));
        }
        let has_result = crate::json::find_key(&es, "result").is_some();
        let has_error = crate::json::find_key(&es, "error").is_some();
        proof {
            crate::json::lemma_lookup_some(es@, "result"@);
            crate::json::lemma_lookup_some(e, "result"@);
            crate::json::lemma_lookup_some(es@, "error"@);
            crate::json::lemma_lookup_some(e, "error"@);
        }
        if has_result && has_error {
            return Err(
                CliError::InvalidResponse(owned("response cannot contain both result and error")),
            );
        }
        if !has_result && !has_error {
            return Err(CliError::InvalidResponse(owned("response must contain result or error")));
        }
        let id = match take_field(&mut es, "id") {
            Some(i) => match Id::from_json(i) {
                Ok(id) => Some(id),
                Err(m) => return Err(CliError::InvalidResponse(m)),
            },
            None => None,
        };
        let result = take_field(&mut es, "result");
        let error = match take_field(&mut es, "error") {
            Some(x) => match RpcError::from_json(x) {
                Ok(err) => Some(err),
                Err(m) => return Err(CliError::InvalidResponse(m)),
            },
            None => None,
        };
        proof {
            crate::json::lemma_lookup_some(e, "result"@);
            crate::json::lemma_lookup_some(e, "error"@);
            reveal_strlit("2.0");
        }
        Ok(Response { jsonrpc, id, result, error })
    }

    /// Reads a response from one received line, given what parsing the line
    /// as JSON gave: the value, or the parser's description of the fault.
    pub fn from_parsed_line(parsed: Result<Json, String>) -> (r: Result<Response, CliError>)
        ensures
            parsed matches Err(m) ==> r == Err::<Response, CliError>(CliError::Parse(m)),
            parsed matches Ok(v) ==> (r matches Ok(resp) ==> response_problem(v) is None && resp
                == response_from(v)),
            parsed matches Ok(v) ==> (r matches Err(e) ==> e matches CliError::InvalidResponse(m)
                && response_problem(v) == Some(m@)),
            parsed matches Ok(v) ==> (response_problem(v) is None ==> r is Ok),
    {
        match parsed {
            Ok(v) => Response::from_json(v),
            Err(m) => Err(CliError::Parse(m)),
        }
    }

    /// Reads a response from one received line: the line is parsed as JSON
    /// (a fault is a parse error), then checked as [`Response::from_json`]
    /// checks a value.
    pub fn from_json_line(line: &str) -> (r: Result<Response, CliError>)
        ensures
            json_text_parts(line@) matches Err(m) ==> (r matches Err(CliError::Parse(t)) && t@ == m),
            json_text_parts(line@) is Ok ==> exists|v: Json|
                #![trigger json_denotes(v, line@, 256)]
                json_denotes(v, line@, 256) && (r matches Ok(resp) ==> response_problem(v) is None
                    && resp == response_from(v)) && (r matches Err(e) ==> e matches CliError::InvalidResponse(
                    m,
                ) && response_problem(v) == Some(m@)) && (response_problem(v) is None ==> r is Ok),
    {
        let parsed = parse_json_text(line);
        let ghost value: Json = if parsed is Ok { parsed->Ok_0 } else { Json::Null };
        let r = Response::from_parsed_line(parsed);
        proof {
            if json_text_parts(line@) is Ok {
                assert(json_denotes(value, line@, 256));
            }
        }
        r
    }

    /// Checks that the response answers the request with id `expected`.
    pub fn validate_id(&self, expected: &Id) -> (r: Result<(), CliError>)
        ensures
            r is Ok <==> (self.id matches Some(a) && same_id(a, *expected)),
            r matches Err(e) ==> (e matches CliError::InvalidResponse(m) && match self.id {
                Some(a) => m@ == id_mismatch_text(*expected, a),
                None => m@ == "response is missing id"@,
            }),
    {
        match &self.id {
            Some(actual) => {
                if actual.same_as(expected) {
                    Ok(())
                } else {
                    let e = expected.debug_text();
                    let a = actual.debug_text();
                    let head = concat3("id mismatch: expected ", e.as_str(), ", got ");
                    Err(CliError::InvalidResponse(concat2(head.as_str(), a.as_str())))
                }
            },
            None => Err(CliError::InvalidResponse(owned("response is missing id"))),
        }
    }

    /// The response as a JSON object (`to_value`).
    pub fn into_json(self) -> (r: Json)
        ensures
            response_json(self, r),
    {
        proof {
            lemma_field_names_distinct();
        }
        let mut es: Vec<(String, Json)> = Vec::new();
        proof {
            assert forall|k: Seq<char>| #[trigger] lookup(es@, k) is None by {
                reveal_with_fuel(lookup, 1);
            }
        }
        crate::json::object_insert(&mut es, owned("jsonrpc"), Json::Str(self.jsonrpc));
        match self.id {
            Some(id) => crate::json::object_insert(&mut es, owned("id"), id.into_json()),
            None => {},
        }
        match self.result {
            Some(x) => crate::json::object_insert(&mut es, owned("result"), x),
            None => {},
        }
        match self.error {
            Some(e) => crate::json::object_insert(&mut es, owned("error"), e.into_json()),
            None => {},
        }
        Json::Object(es)
    }

    /// What a call returns: the server's error as an error, the result otherwise.
    pub fn into_result(self) -> (r: Result<Json, CliError>)
        ensures
            self.error matches Some(e) ==> r == Err::<Json, CliError>(CliError::RpcError(e)),
            self.error is None ==> (self.result matches Some(x) ==> r == Ok::<Json, CliError>(x)),
            self.error is None ==> (self.result is None ==> (r matches Err(
                CliError::InvalidResponse(m),
            ) && m@ == "response is missing result"@)),
    {
        if let Some(error) = self.error {
            return Err(CliError::RpcError(error));
        }
        match self.result {
            Some(x) => Ok(x),
            None => Err(CliError::InvalidResponse(owned("response is missing result"))),
        }
    }
}

} // verus!

//! The client side of one call: which request goes out, and what the line
//! that comes back means.
//!
//! A call sends one request line and reads one response line on a fresh
//! connection. [`Client::begin_call`] numbers the request; the caller writes it
//! and reads the reply; [`Client::finish_call`] turns what was read into a
//! response, which is accepted only when it answers the request's id.
use vstd::prelude::*;

use crate::error::CliError;
use crate::json::Json;
use crate::protocol::{id_mismatch_text, response_from, response_problem, Id, Request, Response};
use crate::text::{concat2, concat3, decimal, decimal_string, owned, parse_unsigned, str_eq, unsigned_text_value};

verus! {

pub const DEFAULT_HOST: &'static str = "127.0.0.1";

pub const DEFAULT_PORT: u16 = 50061;

pub const DEFAULT_TIMEOUT_SECS: u64 = 60;

pub const DEFAULT_CONNECT_TIMEOUT_SECS: u64 = 5;

/// A JSON-RPC client for one host and port. Timeouts are in milliseconds.
#[derive(Debug)]
pub struct Client {
    host: String,
    port: u16,
    connect_timeout_ms: u128,
    read_timeout_ms: u128,
    next_id: u64,
    verbose: bool,
}

/// What a client is: where it connects, its timeouts, the id of its next
/// request, and whether it echoes the lines it sends and receives.
pub ghost struct ClientView {
    pub host: Seq<char>,
    pub port: u16,
    pub connect_timeout_ms: u128,
    pub read_timeout_ms: u128,
    pub next_id: u64,
    pub verbose: bool,
}

impl View for Client {
    type V = ClientView;

    closed spec fn view(&self) -> ClientView {
        ClientView {
            host: self.host@,
            port: self.port,
            connect_timeout_ms: self.connect_timeout_ms,
            read_timeout_ms: self.read_timeout_ms,
            next_id: self.next_id,
            verbose: self.verbose,
        }
    }
}

/// The id after `n`: counting up, wrapping from the largest `u64` to 0.
pub open spec fn following_id(n: u64) -> u64 {
    if n == u64::MAX {
        0
    } else {
        (n + 1) as u64
    }
}

/// The id a client sends after `calls` calls when its first id is `first`.
pub open spec fn id_after(first: u64, calls: nat) -> u64
    decreases calls,
{
    if calls == 0 {
        first
    } else {
        following_id(id_after(first, (calls - 1) as nat))
    }
}

/// A new client numbers its calls 1, 2, 3, ...: its `k`-th call sends id `k`,
/// for every `k` up to the largest `u64`, so no id repeats before then.
pub proof fn lemma_ids_count_up(k: nat)
    requires
        1 <= k <= u64::MAX,
    ensures
        id_after(1, (k - 1) as nat) == k,
    decreases k,
{
    if k > 1 {
        lemma_ids_count_up((k - 1) as nat);
    }
}

/// The debugging switch is on when its environment value is exactly `1`.
pub open spec fn debug_on(debug_env: Option<String>) -> bool {
    debug_env matches Some(v) && v@ == "1"@
}

/// What reading the response line gave.
pub enum Reply {
    /// A line was read; this is what parsing it as JSON gave.
    Line(Result<Json, String>),
    /// The peer closed the connection before sending anything.
    Closed,
    /// The read timed out; the failure's description.
    TimedOut(String),
    /// The read failed otherwise; the failure's description.
    Failed(String),
}

/// The value of an environment variable read as an unsigned integer not above
/// `max`: absent gives `default`, unreadable gives `None`.
pub open spec fn env_number(value: Option<String>, default: u64, max: u64) -> Option<u64> {
    match value {
        None => Some(default),
        Some(v) => match unsigned_text_value(v@) {
            Some(x) => if x <= max {
                Some(x as u64)
            } else {
                None
            },
            None => None,
        },
    }
}

/// Reads a `u16` setting from the value of environment variable `name`.
pub fn read_env_u16(name: &str, value: Option<String>, default: u16) -> (r: Result<u16, CliError>)
    ensures
        r matches Ok(x) ==> env_number(value, default as u64, 0xffff) == Some(x as u64),
        r matches Err(e) ==> env_number(value, default as u64, 0xffff) is None,
        r matches Err(e) ==> (e matches CliError::InvalidInput(m) && m@ == name@ + " must be a u16"@),
        env_number(value, default as u64, 0xffff) is Some ==> r is Ok,
{
    match value {
        None => Ok(default),
        Some(v) => match parse_unsigned(v.as_str(), 0xffff) {
            Some(x) => Ok(x as u16),
            None => Err(CliError::InvalidInput(concat2(name, " must be a u16"))),
        },
    }
}

/// Reads a `u64` setting from the value of environment variable `name`.
pub fn read_env_u64(name: &str, value: Option<String>, default: u64) -> (r: Result<u64, CliError>)
    ensures
        r matches Ok(x) ==> env_number(value, default, u64::MAX) == Some(x),
        r matches Err(e) ==> env_number(value, default, u64::MAX) is None,
        r matches Err(e) ==> (e matches CliError::InvalidInput(m) && m@ == name@
            + " must be a positive integer"@),
        env_number(value, default, u64::MAX) is Some ==> r is Ok,
{
    match value {
        None => Ok(default),
        Some(v) => match parse_unsigned(v.as_str(), u64::MAX) {
            Some(x) => Ok(x),
            None => Err(CliError::InvalidInput(concat2(name, " must be a positive integer"))),
        },
    }
}

impl Client {
    /// A client for `host:port`, numbering its requests from 1. It echoes its
    /// traffic when the debugging switch (`RHINO_CLI_DEBUG`) is `1`.
    pub fn new(
        host: String,
        port: u16,
        connect_timeout_ms: u128,
        read_timeout_ms: u128,
        debug_env: Option<String>,
    ) -> (r: Client)
        ensures
            r@ == (ClientView {
                host: host@,
                port,
                connect_timeout_ms,
                read_timeout_ms,
                next_id: 1,
                verbose: debug_on(debug_env),
            }),
    {
        let verbose = match &debug_env {
            Some(v) => str_eq(v.as_str(), "1"),
            None => false,
        };
        Client { host, port, connect_timeout_ms, read_timeout_ms, next_id: 1, verbose }
    }

    /// A client configured from the environment values of `RHINO_CLI_HOST`,
    /// `RHINO_CLI_PORT`, `RHINO_CLI_TIMEOUT` (seconds) and `RHINO_CLI_DEBUG`,
    /// with the defaults for those that are absent.
    pub fn from_env(
        host_env: Option<String>,
        port_env: Option<String>,
        timeout_env: Option<String>,
        debug_env: Option<String>,
    ) -> (r: Result<Client, CliError>)
        ensures
            r is Ok <==> (env_number(port_env, DEFAULT_PORT as u64, 0xffff) is Some && env_number(
                timeout_env,
                DEFAULT_TIMEOUT_SECS,
                u64::MAX,
            ) is Some),
            r matches Ok(c) ==> c@ == (ClientView {
                host: match host_env {
                    Some(h) => h@,
                    None => DEFAULT_HOST@,
                },
                port: env_number(port_env, DEFAULT_PORT as u64, 0xffff)->Some_0 as u16,
                connect_timeout_ms: (DEFAULT_CONNECT_TIMEOUT_SECS * 1000) as u128,
                read_timeout_ms: (env_number(timeout_env, DEFAULT_TIMEOUT_SECS, u64::MAX)->Some_0
                    * 1000) as u128,
                next_id: 1,
                verbose: debug_on(debug_env),
            }),
            r matches Err(e) ==> e matches CliError::InvalidInput(m) && (if env_number(
                port_env,
                DEFAULT_PORT as u64,
                0xffff,
            ) is None {
                m@ == "RHINO_CLI_PORT"@ + " must be a u16"@
            } else {
                m@ == "RHINO_CLI_TIMEOUT"@ + " must be a positive integer"@
            }),
    {
        let host = match host_env {
            Some(h) => h,
            None => owned(DEFAULT_HOST),
        };
        let port = read_env_u16("RHINO_CLI_PORT", port_env, DEFAULT_PORT)?;
        let timeout_secs = read_env_u64("RHINO_CLI_TIMEOUT", timeout_env, DEFAULT_TIMEOUT_SECS)?;
        Ok(
            Client::new(
                host,
                port,
                (DEFAULT_CONNECT_TIMEOUT_SECS as u128) * 1000,
                (timeout_secs as u128) * 1000,
                debug_env,
            ),
        )
    }

    /// The same client with echoing switched on or off.
    pub fn with_verbose(self, verbose: bool) -> (r: Client)
        ensures
            r@ == (ClientView { verbose, ..self@ }),
    {
        let mut c = self;
        c.verbose = verbose;
        c
    }

    pub fn host(&self) -> (r: &str)
        ensures
            r@ == self@.host,
    {
        self.host.as_str()
    }

    pub fn port(&self) -> (r: u16)
        ensures
            r == self@.port,
    {
        self.port
    }

    pub fn connect_timeout_ms(&self) -> (r: u128)
        ensures
            r == self@.connect_timeout_ms,
    {
        self.connect_timeout_ms
    }

    pub fn read_timeout_ms(&self) -> (r: u128)
        ensures
            r == self@.read_timeout_ms,
    {
        self.read_timeout_ms
    }

    pub fn is_verbose(&self) -> (r: bool)
        ensures
            r == self@.verbose,
    {
        self.verbose
    }

    /// The request for one call of `method`; it takes the client's next id,
    /// and the id after it is the next one.
    pub fn begin_call(&mut self, method: &str, params: Json) -> (r: Request)
        ensures
            r.id == Id::Number(old(self)@.next_id),
            r.method@ == method@,
            r.params == params,
            r.jsonrpc@ == crate::protocol::JSONRPC_VERSION@,
            final(self)@ == (ClientView { next_id: following_id(old(self)@.next_id), ..old(self)@ }),
    {
        let id = self.next_id;
        self.next_id = if id == u64::MAX {
            0
        } else {
            id + 1
        };
        Request::new(Id::Number(id), owned(method), Some(params))
    }

    /// The connection error for a host name that resolves to no address.
    pub fn unresolved_error(&self) -> (r: CliError)
        ensures
            r matches CliError::Connect(m) && m@ == "could not resolve "@ + self@.host + ":"@
                + decimal(self@.port as nat),
    {
        let p = decimal_string(self.port as u64);
        let head = concat3("could not resolve ", self.host.as_str(), ":");
        CliError::Connect(concat2(head.as_str(), p.as_str()))
    }

    /// What the reply to the request with id `request_id` comes to: a closed
    /// connection or a failed read is a parse error, a timed-out read is a
    /// timeout, and a line must be a valid response that answers `request_id`.
    pub fn finish_call(request_id: u64, reply: Reply) -> (r: Result<Response, CliError>)
        ensures
            reply is Closed ==> (r matches Err(CliError::Parse(m)) && m@
                == "connection closed before response"@),
            reply matches Reply::TimedOut(m) ==> r == Err::<Response, CliError>(
                CliError::Timeout(m),
            ),
            reply matches Reply::Failed(m) ==> (r matches Err(CliError::Parse(t)) && t@
                == "failed to read response: "@ + m@),
            reply matches Reply::Line(Err(m)) ==> r == Err::<Response, CliError>(
                CliError::Parse(m),
            ),
            reply matches Reply::Line(Ok(v)) ==> (r is Ok <==> (response_problem(v) is None
                && response_from(v).id == Some(Id::Number(request_id)))),
            reply matches Reply::Line(Ok(v)) ==> (r matches Ok(resp) ==> resp == response_from(v)),
            reply matches Reply::Line(Ok(v)) ==> (response_problem(v) matches Some(p) ==> (r matches Err(
                CliError::InvalidResponse(m),
            ) && m@ == p)),
            reply matches Reply::Line(Ok(v)) ==> (response_problem(v) is None ==> (r matches Err(e)
                ==> (e matches CliError::InvalidResponse(m) && match response_from(v).id {
                Some(a) => m@ == id_mismatch_text(Id::Number(request_id), a),
                None => m@ == "response is missing id"@,
            }))),
            r matches Ok(resp) ==> resp.id == Some(Id::Number(request_id)),
    {
        match reply {
            Reply::Closed => Err(CliError::Parse(owned("connection closed before response"))),
            Reply::TimedOut(m) => Err(CliError::Timeout(m)),
            Reply::Failed(m) => Err(CliError::Parse(concat2("failed to read response: ", m.as_str()))),
            Reply::Line(parsed) => {
                let response = Response::from_parsed_line(parsed)?;
                response.validate_id(&Id::Number(request_id))?;
                Ok(response)
            },
        }
    }
}

} // verus!

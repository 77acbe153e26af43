use rhino_cli::client::{Client, Reply};
use rhino_cli::error::{CliError, IoErrorKind};
use rhino_cli::json::{Json, Number};
use rhino_cli::json_text::{number_of_text, parse_json_text};
use rhino_cli::json_write::to_json_text;
use rhino_cli::protocol::{Id, Request, Response, RpcError};

fn s(x: &str) -> Json {
    Json::Str(x.to_string())
}

fn u(n: u64) -> Json {
    Json::Number(Number::Unsigned(n))
}

fn i(n: i64) -> Json {
    Json::Number(Number::Negative(n))
}

fn obj(es: Vec<(&str, Json)>) -> Json {
    Json::Object(es.into_iter().map(|(k, v)| (k.to_string(), v)).collect())
}

#[test]
fn request_serializes_to_json_line() {
    let request = Request::new(Id::Number(1), "system.ping".to_string(), None);

    assert_eq!(
        request.to_json_line().unwrap(),
        "{\"jsonrpc\":\"2.0\",\"id\":1,\"method\":\"system.ping\",\"params\":null}\n"
    );
}

#[test]
fn request_serializes_empty_params() {
    let request = Request::new(
        Id::Number(99),
        "rpc.list_methods".to_string(),
        Some(Json::empty_object()),
    );

    assert_eq!(
        request.to_json_line().unwrap(),
        "{\"jsonrpc\":\"2.0\",\"id\":99,\"method\":\"rpc.list_methods\",\"params\":{}}\n"
    );
}

#[test]
fn request_serializes_large_numeric_id() {
    let request = Request::new(Id::Number(u64::MAX), "system.version".to_string(), None);

    assert_eq!(
        request.to_json_line().unwrap(),
        format!(
            "{{\"jsonrpc\":\"2.0\",\"id\":{},\"method\":\"system.version\",\"params\":null}}\n",
            u64::MAX
        )
    );
}

#[test]
fn request_line_writes_nested_params_and_escapes() {
    let params = obj(vec![
        ("a", Json::Array(vec![u(1), i(-2), Json::Number(Number::Real("1.5".to_string())), Json::Null])),
        ("b", s("x\ny\"z")),
        ("c", Json::Bool(false)),
    ]);
    let request = Request::new(Id::String("req-1".to_string()), "m".to_string(), Some(params));
    let line = request.to_json_line().unwrap();
    assert_eq!(
        line,
        "{\"jsonrpc\":\"2.0\",\"id\":\"req-1\",\"method\":\"m\",\"params\":{\"a\":[1,-2,1.5,null],\"b\":\"x\\ny\\\"z\",\"c\":false}}\n"
    );
    assert_eq!(line.matches('\n').count(), 1);
    assert!(line.ends_with('\n'));
}

#[test]
fn request_line_reads_back_as_the_same_request_fields() {
    let request = Request::new(Id::Number(7), "rhino.inspect_type".to_string(), Some(obj(vec![("name", s("Curve"))])));
    let line = request.to_json_line().unwrap();
    let value = parse_json_text(&line).unwrap();
    assert_eq!(
        value,
        obj(vec![
            ("id", u(7)),
            ("jsonrpc", s("2.0")),
            ("method", s("rhino.inspect_type")),
            ("params", obj(vec![("name", s("Curve"))])),
        ])
    );
}

#[test]
fn success_response_parses() {
    let response =
        Response::from_json_line("{\"jsonrpc\":\"2.0\",\"id\":1,\"result\":{\"pong\":true}}\n")
            .unwrap();
    assert_eq!(response.id, Some(Id::Number(1)));
    assert_eq!(response.result, Some(obj(vec![("pong", Json::Bool(true))])));
    assert!(response.error.is_none());
}

#[test]
fn error_response_parses() {
    let response = Response::from_json_line(
        "{\"jsonrpc\":\"2.0\",\"id\":\"abc\",\"error\":{\"code\":-32601,\"message\":\"Method not found\",\"data\":{\"method\":\"x.y\"}}}\n",
    )
    .unwrap();
    let error = response.error.unwrap();
    assert_eq!(response.id, Some(Id::String("abc".to_string())));
    assert_eq!(error.code, -32601);
    assert_eq!(error.message, "Method not found");
    assert_eq!(error.data, Some(obj(vec![("method", s("x.y"))])));
}

#[test]
fn invalid_json_returns_parse_error() {
    let error = Response::from_json_line("{\"jsonrpc\":\"2.0\",\"id\":3,\"meth\n").unwrap_err();
    assert_eq!(error.exit_code(), 5);
    assert!(error.message().contains("parse"));
}

#[test]
fn response_with_result_and_error_is_invalid() {
    let error = Response::from_json_line(
        "{\"jsonrpc\":\"2.0\",\"id\":1,\"result\":{},\"error\":{\"code\":-32603,\"message\":\"boom\"}}\n",
    )
    .unwrap_err();
    assert_eq!(error.exit_code(), 5);
    assert!(error.message().contains("result"));
}

#[test]
fn response_id_mismatch_is_detected() {
    let response =
        Response::from_json_line("{\"jsonrpc\":\"2.0\",\"id\":2,\"result\":true}\n").unwrap();
    let error = response.validate_id(&Id::Number(1)).unwrap_err();
    assert_eq!(error.exit_code(), 5);
    assert!(error.message().contains("id mismatch"));
    assert_eq!(
        error.message(),
        "invalid response: id mismatch: expected Number(1), got Number(2)"
    );
}

// The reply side of a call, without the socket.

fn ping_client() -> Client {
    Client::new("127.0.0.1".to_string(), 50061, 1000, 1000, None)
}

#[test]
fn client_call_sends_one_line_and_reads_result() {
    let mut client = ping_client();
    let request = client.begin_call("system.ping", Json::Null);
    assert_eq!(
        request.into_json(),
        obj(vec![
            ("jsonrpc", s("2.0")),
            ("id", u(1)),
            ("method", s("system.ping")),
            ("params", Json::Null),
        ])
    );
    let reply = Reply::Line(Ok(obj(vec![
        ("jsonrpc", s("2.0")),
        ("id", u(1)),
        ("result", obj(vec![("pong", Json::Bool(true))])),
    ])));
    let result = Client::finish_call(1, reply).unwrap().into_result().unwrap();
    assert_eq!(result, obj(vec![("pong", Json::Bool(true))]));
}

#[test]
fn client_call_maps_connection_refused_to_connect_error() {
    let error = CliError::connect_error(IoErrorKind::ConnectionRefused, "refused".to_string());
    assert!(matches!(error, CliError::Connect(_)), "got {error:?}");
}

#[test]
fn connect_timeout_exits_with_code_2() {
    let error = CliError::connect_error(IoErrorKind::TimedOut, "connection timed out".to_string());
    assert!(matches!(error, CliError::Connect(ref m) if m == "connection timed out"));
    assert_eq!(error.exit_code(), 2);
    let other = CliError::connect_error(IoErrorKind::Other, "unreachable".to_string());
    assert_eq!(other.exit_code(), 2);
}

#[test]
fn read_and_write_failures_keep_their_kinds() {
    assert_eq!(CliError::from_io(IoErrorKind::TimedOut, "t".to_string()).exit_code(), 4);
    assert_eq!(CliError::from_io(IoErrorKind::ConnectionReset, "r".to_string()).exit_code(), 2);
    assert_eq!(CliError::from_io(IoErrorKind::Other, "o".to_string()).exit_code(), 1);
}

#[test]
fn client_call_maps_read_timeout_to_timeout_error() {
    let error = Client::finish_call(1, Reply::TimedOut("timed out".to_string())).unwrap_err();
    assert!(matches!(error, CliError::Timeout(_)), "got {error:?}");
}

#[test]
fn client_call_maps_server_disconnect_to_parse_error() {
    let error = Client::finish_call(1, Reply::Closed).unwrap_err();
    assert!(matches!(error, CliError::Parse(_)), "got {error:?}");
}

#[test]
fn client_call_detects_response_id_mismatch() {
    let reply = Reply::Line(Ok(obj(vec![
        ("jsonrpc", s("2.0")),
        ("id", u(99)),
        ("result", Json::Bool(true)),
    ])));
    let error = Client::finish_call(1, reply).unwrap_err();
    assert!(matches!(error, CliError::InvalidResponse(_)), "got {error:?}");
}

// More of the protocol.

#[test]
fn requests_take_consecutive_ids() {
    let mut client = ping_client();
    for k in 1..=5u64 {
        let request = client.begin_call("system.ping", Json::Null);
        assert_eq!(request.id, Id::Number(k));
    }
}

#[test]
fn json_text_parses_into_values() {
    assert_eq!(
        parse_json_text("{\"b\":[1,-2,1.5,null,true],\"a\":\"x\"}").unwrap(),
        obj(vec![
            ("a", s("x")),
            (
                "b",
                Json::Array(vec![
                    u(1),
                    i(-2),
                    Json::Number(Number::Real("1.5".to_string())),
                    Json::Null,
                    Json::Bool(true),
                ]),
            ),
        ])
    );
    assert_eq!(parse_json_text("18446744073709551615").unwrap(), u(u64::MAX));
    assert_eq!(parse_json_text("-9223372036854775808").unwrap(), i(i64::MIN));
    assert!(parse_json_text("{").is_err());
    assert!(parse_json_text("").is_err());
}

#[test]
fn response_must_hold_result_or_error() {
    let error = Response::from_json(obj(vec![("jsonrpc", s("2.0")), ("id", u(1))])).unwrap_err();
    assert_eq!(
        error.message(),
        "invalid response: response must contain result or error"
    );
}

#[test]
fn response_version_and_shape_are_checked() {
    let e1 = Response::from_json(obj(vec![("jsonrpc", s("1.0")), ("result", Json::Null)])).unwrap_err();
    assert_eq!(e1.message(), "invalid response: jsonrpc must be \"2.0\"");
    let e2 = Response::from_json(obj(vec![("result", Json::Null)])).unwrap_err();
    assert_eq!(
        e2.message(),
        "invalid response: response is missing string field \"jsonrpc\""
    );
    let e3 = Response::from_json(Json::Array(vec![])).unwrap_err();
    assert_eq!(e3.message(), "invalid response: response must be a JSON object");
}

#[test]
fn response_id_kinds() {
    let neg = Response::from_json(obj(vec![("jsonrpc", s("2.0")), ("id", i(-1)), ("result", Json::Null)]))
        .unwrap_err();
    assert_eq!(neg.message(), "invalid response: id must be an unsigned integer");
    let b = Response::from_json(obj(vec![("jsonrpc", s("2.0")), ("id", Json::Bool(true)), ("result", Json::Null)]))
        .unwrap_err();
    assert_eq!(b.message(), "invalid response: id must be a number, string, or null");
    let n = Response::from_json(obj(vec![("jsonrpc", s("2.0")), ("id", Json::Null), ("result", Json::Null)]))
        .unwrap();
    assert_eq!(n.id, Some(Id::Null));
    assert!(n.validate_id(&Id::Number(1)).is_err());
}

#[test]
fn response_missing_id_is_rejected_by_validation() {
    let response = Response::from_json(obj(vec![("jsonrpc", s("2.0")), ("result", u(1))])).unwrap();
    assert_eq!(
        response.validate_id(&Id::Number(1)).unwrap_err().message(),
        "invalid response: response is missing id"
    );
}

#[test]
fn error_object_in_array_form_and_bad_code() {
    let e = RpcError::from_json(Json::Array(vec![i(-32000), s("oops")])).unwrap();
    assert_eq!(e.code, -32000);
    assert_eq!(e.message, "oops");
    assert_eq!(e.data, None);
    let bad = RpcError::from_json(obj(vec![("code", u(1u64 << 40)), ("message", s("x"))])).unwrap_err();
    assert_eq!(bad, "invalid value: integer `1099511627776`, expected i32");
    let missing = RpcError::from_json(obj(vec![("code", u(1))])).unwrap_err();
    assert_eq!(missing, "missing field `message`");
}

#[test]
fn response_roundtrip_on_example() {
    let response = Response::from_json(obj(vec![
        ("jsonrpc", s("2.0")),
        ("id", s("abc")),
        (
            "error",
            obj(vec![("code", i(-32601)), ("message", s("Method not found"))]),
        ),
    ]))
    .unwrap();
    let again = Response::from_json(response.into_json()).unwrap();
    assert_eq!(again.id, Some(Id::String("abc".to_string())));
    let e = again.error.unwrap();
    assert_eq!((e.code, e.message.as_str(), e.data), (-32601, "Method not found", None));
}

#[test]
fn into_result_prefers_the_error() {
    let response = Response::from_json(obj(vec![
        ("jsonrpc", s("2.0")),
        ("id", u(1)),
        ("error", obj(vec![("code", i(-1)), ("message", s("no"))])),
    ]))
    .unwrap();
    match response.into_result() {
        Err(CliError::RpcError(e)) => assert_eq!(e.code, -1),
        other => panic!("unexpected {other:?}"),
    }
}

#[test]
fn finish_call_maps_failed_read_and_bad_line() {
    let e = Client::finish_call(1, Reply::Failed("reset".to_string())).unwrap_err();
    assert_eq!(e.message(), "parse error: failed to read response: reset");
    let e2 = Client::finish_call(1, Reply::Line(Err("eof".to_string()))).unwrap_err();
    assert!(matches!(e2, CliError::Parse(ref m) if m == "eof"));
}

#[test]
fn compact_text_writes_numbers_and_nesting() {
    assert_eq!(to_json_text(&i(i64::MIN)), "-9223372036854775808");
    assert_eq!(to_json_text(&u(u64::MAX)), "18446744073709551615");
    assert_eq!(to_json_text(&obj(vec![("k", Json::Array(vec![]))])), "{\"k\":[]}");
    assert_eq!(to_json_text(&Json::Array(vec![obj(vec![]), Json::Bool(true)])), "[{},true]");
}

#[test]
fn number_text_is_sorted_by_kind() {
    assert_eq!(number_of_text("42".to_string()), Number::Unsigned(42));
    assert_eq!(
        number_of_text("18446744073709551616".to_string()),
        Number::Real("18446744073709551616".to_string())
    );
    assert_eq!(number_of_text("-7".to_string()), Number::Negative(-7));
    assert_eq!(
        number_of_text("-9223372036854775809".to_string()),
        Number::Real("-9223372036854775809".to_string())
    );
    assert_eq!(number_of_text("2.5e3".to_string()), Number::Real("2.5e3".to_string()));
}

#[test]
fn nested_json_text_keeps_members_in_parser_order() {
    assert_eq!(
        parse_json_text("{\"z\":{\"y\":[2,{\"x\":null}]},\"a\":-1}").unwrap(),
        obj(vec![
            ("a", i(-1)),
            ("z", obj(vec![("y", Json::Array(vec![u(2), obj(vec![("x", Json::Null)])]))])),
        ])
    );
}

#[test]
fn error_object_faults_are_named_as_serde_names_them() {
    let message_first = RpcError::from_json(obj(vec![("message", u(5))])).unwrap_err();
    assert_eq!(message_first, "invalid type: integer `5`, expected a string");
    let text_code = RpcError::from_json(obj(vec![("code", s("x")), ("message", s("m"))])).unwrap_err();
    assert_eq!(text_code, "invalid type: string \"x\", expected i32");
    let low = RpcError::from_json(obj(vec![("code", i(-3000000000)), ("message", s("m"))])).unwrap_err();
    assert_eq!(low, "invalid value: integer `-3000000000`, expected i32");
    let not_object = RpcError::from_json(Json::Null).unwrap_err();
    assert_eq!(not_object, "invalid type: unit value, expected struct RpcError");
    let short = RpcError::from_json(Json::Array(vec![u(1)])).unwrap_err();
    assert_eq!(short, "invalid length 1, expected struct RpcError with 3 elements");
    let long = RpcError::from_json(Json::Array(vec![u(1), s("m"), Json::Null, Json::Null])).unwrap_err();
    assert_eq!(long, "invalid length 4, expected fewer elements in array");
    let missing = RpcError::from_json(obj(vec![])).unwrap_err();
    assert_eq!(missing, "missing field `code`");
}

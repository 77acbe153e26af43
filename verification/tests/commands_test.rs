use rhino_cli::commands::call::{build_params, params_object, params_source, CallArgs, ParamsSource};
use rhino_cli::commands::capabilities::capabilities_params;
use rhino_cli::commands::doctor::{document_report, reachable_text, unreachable_output};
use rhino_cli::commands::document_state::DocumentState;
use rhino_cli::commands::list_methods::list_methods_output;
use rhino_cli::commands::list_plugins::list_plugins_output;
use rhino_cli::commands::ping::pong_note;
use rhino_cli::commands::rhino::validate_app_name;
use rhino_cli::commands::rhino_rpc::{
    check_script_result, history_call, history_text, new_model_params, run_script_params,
    HistoryArgs, NewModelArgs, RunScriptArgs,
};
use rhino_cli::commands::wait_ready::{ping_ready, warns_missing_document};
use rhino_cli::commands::CommandContext;
use rhino_cli::error::CliError;
use rhino_cli::json::{Json, Number};
use rhino_cli::protocol::RpcError;
use rhino_cli::report::{error_report, ErrorReport};

fn s(x: &str) -> Json {
    Json::Str(x.to_string())
}

fn u(n: u64) -> Json {
    Json::Number(Number::Unsigned(n))
}

fn obj(es: Vec<(&str, Json)>) -> Json {
    Json::Object(es.into_iter().map(|(k, v)| (k.to_string(), v)).collect())
}

fn ctx(port: u16) -> CommandContext {
    CommandContext {
        host: "127.0.0.1".to_string(),
        port,
        timeout_ms: 60_000,
        connect_timeout_ms: 5_000,
        pretty: false,
        raw: false,
        quiet: false,
        verbose: false,
    }
}

#[test]
fn ping_calls_system_ping_and_reports_verbose_latency() {
    let mut c = ctx(50061);
    c.verbose = true;
    let result = obj(vec![
        ("pong", Json::Bool(true)),
        ("server", s("MockRhino")),
        ("version", s("0.1.0")),
    ]);
    let note = pong_note(&c, &result, 3).unwrap();
    assert!(note.contains("pong from MockRhino 0.1.0"));
    assert_eq!(note, "pong from MockRhino 0.1.0 (3ms)");
    c.verbose = false;
    assert_eq!(pong_note(&c, &result, 3), None);
}

#[test]
fn list_methods_prints_one_method_per_line() {
    let result = obj(vec![(
        "methods",
        Json::Array(vec![s("system.ping"), s("rpc.list_methods"), s("rhino_cli.hello")]),
    )]);
    let out = list_methods_output(&result);
    assert!(out.outcome.is_ok());
    assert_eq!(out.text, "system.ping\nrpc.list_methods\nrhino_cli.hello\n");
}

#[test]
fn list_plugins_prints_id_and_port_per_line() {
    let result = obj(vec![(
        "plugins",
        Json::Array(vec![obj(vec![("id", s("RhinoCliPlugin")), ("port", u(50061))])]),
    )]);
    let out = list_plugins_output(&result);
    assert!(out.outcome.is_ok());
    assert_eq!(out.text, "RhinoCliPlugin\t50061\n");
}

#[test]
fn capabilities_method_sends_method_param() {
    assert_eq!(
        capabilities_params(&Some("rhino.new_model".to_string())),
        obj(vec![("method", s("rhino.new_model"))])
    );
    assert_eq!(capabilities_params(&None), Json::Null);
}

#[test]
fn doctor_reports_reachable_rpc() {
    let result = obj(vec![
        ("pong", Json::Bool(true)),
        ("server", s("RhinoCliPlugin")),
        ("version", s("0.1.0")),
    ]);
    let text = reachable_text(&ctx(50061), &result);
    assert!(text.contains("RhinoCliPlugin RPC: reachable"));
    assert!(text.contains("Server: RhinoCliPlugin 0.1.0"));
}

#[test]
fn doctor_reports_warning_when_active_doc_missing() {
    let probe = Ok(Some(DocumentState { active_doc: false, open_count: 0 }));
    let text = document_report(&probe);
    assert!(text.contains("Document: active_doc=false open_count=0"));
    assert!(text.contains("Rhino.RhinoDoc.ActiveDoc is None"));
}

#[test]
fn call_sends_positional_json_params_and_prints_result() {
    let args = CallArgs {
        method: "rhino_cli.echo".to_string(),
        params_json: Some("{\"message\":\"hello\"}".to_string()),
        params_file: None,
        params: vec![],
    };
    assert_eq!(build_params(&args, None).unwrap(), obj(vec![("message", s("hello"))]));
}

#[test]
fn call_builds_object_params_from_key_value_flags() {
    let args = CallArgs {
        method: "rhino_cli.echo".to_string(),
        params_json: None,
        params_file: None,
        params: vec!["count=3".to_string(), "name=beam".to_string()],
    };
    assert_eq!(
        build_params(&args, None).unwrap(),
        obj(vec![("count", u(3)), ("name", s("beam"))])
    );
    match params_source(&args).unwrap() {
        ParamsSource::Pairs(ps) => assert_eq!(
            ps,
            vec![
                ("count".to_string(), "3".to_string()),
                ("name".to_string(), "beam".to_string())
            ]
        ),
        other => panic!("unexpected {other:?}"),
    }
}

#[test]
fn params_file_and_json_errors() {
    let mut args = CallArgs {
        method: "m".to_string(),
        params_json: Some("{\"ignored\":1}".to_string()),
        params_file: Some("p.json".to_string()),
        params: vec!["a=1".to_string()],
    };
    assert_eq!(
        build_params(&args, Some(Ok("[1,2]".to_string()))).unwrap(),
        Json::Array(vec![u(1), u(2)])
    );
    assert_eq!(
        build_params(&args, Some(Err("No such file".to_string()))).unwrap_err().message(),
        "invalid input: failed to read params file p.json: No such file"
    );
    let bad = build_params(&args, Some(Ok("{".to_string()))).unwrap_err().message();
    assert!(bad.starts_with("invalid input: failed to parse params file p.json: "));
    args.params_file = None;
    args.params = vec![];
    args.params_json = Some("nope".to_string());
    assert!(build_params(&args, None)
        .unwrap_err()
        .message()
        .starts_with("invalid input: failed to parse params JSON: "));
    args.params_json = None;
    assert_eq!(build_params(&args, None).unwrap(), Json::Null);
    args.params = vec!["x={\"y\":[true]}".to_string(), "z=a=b".to_string()];
    assert_eq!(
        build_params(&args, None).unwrap(),
        obj(vec![
            ("x", obj(vec![("y", Json::Array(vec![Json::Bool(true)]))])),
            ("z", s("a=b")),
        ])
    );
}

#[test]
fn wait_ready_warns_when_active_doc_missing() {
    let probe = Ok(Some(DocumentState { active_doc: false, open_count: 0 }));
    assert!(warns_missing_document(&probe));
}

#[test]
fn wait_ready_silent_when_active_doc_present() {
    let probe = Ok(Some(DocumentState { active_doc: true, open_count: 1 }));
    assert!(!warns_missing_document(&probe));
}

#[test]
fn wait_ready_returns_success_after_ping() {
    assert!(ping_ready(&Ok(obj(vec![("pong", Json::Bool(true))]))));
    assert!(!ping_ready(&Ok(obj(vec![("pong", Json::Bool(false))]))));
    assert!(!ping_ready(&Err(CliError::Connect("refused".to_string()))));
}

#[test]
fn call_rpc_error_exits_with_code_3_and_json_stderr() {
    let error = CliError::RpcError(RpcError {
        code: -32601,
        message: "Method not found".to_string(),
        data: None,
    });
    assert_eq!(error.exit_code(), 3);
    match error_report(error, "127.0.0.1", 50061) {
        ErrorReport::Value(v) => assert_eq!(
            v,
            obj(vec![(
                "error",
                obj(vec![
                    ("code", Json::Number(Number::Negative(-32601))),
                    ("message", s("Method not found")),
                ])
            )])
        ),
        other => panic!("unexpected {other:?}"),
    }
}

#[test]
fn connection_refused_prints_rhino_start_hint() {
    let error = CliError::Connect("connection refused".to_string());
    assert_eq!(error.exit_code(), 2);
    let lines = match error_report(error, "127.0.0.1", 50999) {
        ErrorReport::Lines(ls) => ls,
        other => panic!("unexpected {other:?}"),
    };
    let text = lines.join("\n");
    assert!(text.contains("Rhino is not reachable"));
    assert!(text.contains("rhino-cli plugin set-port 50999"));
    assert!(text.contains("rhino-cli launch"));
    assert!(text.contains("rhino-cli wait-ready --port 50999 --timeout 120"));
    assert_eq!(lines[0], "connect error: connection refused");
    assert_eq!(lines.len(), 8);
}

#[test]
fn run_script_calls_rhino_run_script() {
    let args = RunScriptArgs {
        script: "_SelNone".to_string(),
        echo: true,
        mru_display_string: Some("Select none".to_string()),
        fail_on_false: false,
    };
    assert_eq!(
        run_script_params(&args),
        obj(vec![
            ("echo", Json::Bool(true)),
            ("mru_display_string", s("Select none")),
            ("script", s("_SelNone")),
        ])
    );
}

#[test]
fn run_script_can_fail_on_false_result() {
    let result = obj(vec![("status", s("failed")), ("success", Json::Bool(false))]);
    let e = check_script_result(true, &result).unwrap_err();
    assert!(e.message().contains("success=false"));
    assert!(check_script_result(false, &result).is_ok());
}

#[test]
fn history_prints_text_by_default() {
    let args = HistoryArgs { tail: Some(10), clear: false, json: false };
    let (method, params) = history_call(&args);
    assert_eq!(method, "rhino.command_history");
    assert_eq!(params, obj(vec![("tail", u(10))]));
    let result = obj(vec![
        ("status", s("ok")),
        ("text", s("line one\nline two")),
        ("line_count", u(2)),
        ("total_line_count", u(2)),
        ("truncated", Json::Bool(false)),
    ]);
    assert_eq!(history_text(&result).unwrap(), "line one\nline two\n");
}

#[test]
fn history_clear_calls_clear_method() {
    let args = HistoryArgs { tail: None, clear: true, json: false };
    let (method, params) = history_call(&args);
    assert_eq!(method, "rhino.clear_command_history");
    assert_eq!(params, Json::Null);
}

#[test]
fn new_model_calls_rhino_new_model_without_template() {
    assert_eq!(new_model_params(&NewModelArgs { template: None }), Json::Null);
}

#[test]
fn new_model_sends_template_path() {
    assert_eq!(
        new_model_params(&NewModelArgs { template: Some("/tmp/template.3dm".to_string()) }),
        obj(vec![("template", s("/tmp/template.3dm"))])
    );
}

#[test]
fn screenshot_rejects_invalid_app_name_before_os_capture() {
    let e = validate_app_name("Rhino 8; rm -rf /").unwrap_err();
    assert!(e.message().contains("invalid Rhino app name"));
}

// Further cases.

#[test]
fn other_errors_report_their_message() {
    match error_report(CliError::Timeout("slow".to_string()), "h", 1) {
        ErrorReport::Lines(ls) => assert_eq!(ls, vec!["timeout: slow".to_string()]),
        other => panic!("unexpected {other:?}"),
    }
}

#[test]
fn exit_codes_follow_the_design_table() {
    assert_eq!(CliError::Connect(String::new()).exit_code(), 2);
    assert_eq!(CliError::Timeout(String::new()).exit_code(), 4);
    assert_eq!(CliError::Parse(String::new()).exit_code(), 5);
    assert_eq!(CliError::InvalidResponse(String::new()).exit_code(), 5);
    assert_eq!(CliError::InvalidInput(String::new()).exit_code(), 1);
    assert_eq!(CliError::Other(String::new()).exit_code(), 1);
}

#[test]
fn error_messages_have_their_prefixes() {
    assert_eq!(CliError::Parse("x".to_string()).message(), "parse error: x");
    assert_eq!(CliError::InvalidInput("x".to_string()).message(), "invalid input: x");
    assert_eq!(CliError::Other("x".to_string()).message(), "x");
    let rpc = CliError::RpcError(RpcError { code: -5, message: "m".to_string(), data: None });
    assert_eq!(rpc.message(), "rpc error -5: m");
}

#[test]
fn list_methods_rejects_other_shapes() {
    let out = list_methods_output(&obj(vec![("x", u(1))]));
    assert_eq!(out.text, "");
    match out.outcome {
        Err(CliError::InvalidResponse(m)) => {
            assert_eq!(m, "rpc.list_methods result must be an array or contain methods[]")
        }
        other => panic!("unexpected {other:?}"),
    }
    let bare = list_methods_output(&Json::Array(vec![s("a"), s("b")]));
    assert_eq!(bare.text, "a\nb\n");
}

#[test]
fn list_plugins_rejects_missing_plugins() {
    let out = list_plugins_output(&obj(vec![]));
    assert!(matches!(out.outcome, Err(CliError::InvalidResponse(_))));
}

#[test]
fn doctor_unreachable_is_a_diagnosis_for_connect_errors() {
    let out = unreachable_output(&ctx(50061), CliError::Connect("refused".to_string()));
    assert!(out.outcome.is_ok());
    assert!(out.text.starts_with("RhinoCliPlugin RPC: not reachable at 127.0.0.1:50061\n"));
    let out2 = unreachable_output(&ctx(50061), CliError::Other("boom".to_string()));
    assert!(out2.outcome.is_err());
}

#[test]
fn param_pairs_need_an_equals_sign() {
    let args = CallArgs {
        method: "m".to_string(),
        params_json: None,
        params_file: None,
        params: vec!["novalue".to_string()],
    };
    assert!(matches!(params_source(&args), Err(CliError::InvalidInput(_))));
}

#[test]
fn later_pairs_override_earlier_keys() {
    let entries = vec![
        ("a".to_string(), u(1)),
        ("b".to_string(), u(2)),
        ("a".to_string(), u(3)),
    ];
    assert_eq!(params_object(entries), obj(vec![("a", u(3)), ("b", u(2))]));
}

fn method_not_found_response() -> rhino_cli::protocol::Response {
    rhino_cli::protocol::Response::from_json(obj(vec![
        ("jsonrpc", s("2.0")),
        ("id", u(1)),
        (
            "error",
            obj(vec![
                ("code", Json::Number(Number::Negative(-32601))),
                ("message", s("Method not found")),
            ]),
        ),
    ]))
    .unwrap()
}

#[test]
fn call_raw_still_exits_with_code_3_on_rpc_error() {
    let mut c = ctx(50061);
    c.raw = true;
    let error = rhino_cli::commands::call::run(&c, method_not_found_response()).unwrap_err();
    assert_eq!(error.exit_code(), 3);
    match error_report(error, "127.0.0.1", 50061) {
        ErrorReport::Value(v) => {
            let e = v.get("error").unwrap();
            assert_eq!(e.get("code"), Some(&Json::Number(Number::Negative(-32601))));
        }
        other => panic!("unexpected {other:?}"),
    }
}

#[test]
fn cli_surfaces_csharp_method_not_found_error() {
    let error = rhino_cli::commands::call::run(&ctx(50061), method_not_found_response()).unwrap_err();
    assert!(matches!(error, CliError::RpcError(ref e) if e.code == -32601));
}

#[test]
fn call_prints_result_or_whole_response() {
    let ok = || {
        rhino_cli::protocol::Response::from_json(obj(vec![
            ("jsonrpc", s("2.0")),
            ("id", u(1)),
            ("result", obj(vec![("ok", Json::Bool(true))])),
        ]))
        .unwrap()
    };
    assert_eq!(
        rhino_cli::commands::call::run(&ctx(1), ok()).unwrap(),
        obj(vec![("ok", Json::Bool(true))])
    );
    let mut raw = ctx(1);
    raw.raw = true;
    let whole = rhino_cli::commands::call::run(&raw, ok()).unwrap();
    assert_eq!(whole.get_str("jsonrpc"), Some("2.0"));
    assert_eq!(whole.get("id"), Some(&u(1)));
}

#[test]
fn execute_panel_js_sends_panel_and_script() {
    let params = rhino_cli::commands::rhino_rpc::execute_panel_js_params(
        &rhino_cli::commands::rhino_rpc::ExecutePanelJsArgs {
            panel: "F2A3B4C5-D6E7-8901-ABCD-EF0123456789".to_string(),
            script: "return document.readyState".to_string(),
        },
    );
    assert_eq!(
        params,
        obj(vec![
            ("panel", s("F2A3B4C5-D6E7-8901-ABCD-EF0123456789")),
            ("script", s("return document.readyState")),
        ])
    );
}

use rhino_cli::commands::capabilities::{
    print_agent, print_markdown, print_text, rendering_for, server_title, CapabilitiesArgs,
    CapabilitiesFormat, Rendering,
};
use rhino_cli::commands::doctor::{app_status_line, next_text};
use rhino_cli::commands::document_state::{self, payload_text, probe_params, DocumentState};
use rhino_cli::json_text::parse_json_text;
use rhino_cli::commands::plugin::{
    config_path_parts, port_config, set_port_text, show_config_text, validate_port,
};
use rhino_cli::commands::rhino::platform::TargetOs;
use rhino_cli::commands::CommandContext;
use rhino_cli::error::CliError;
use rhino_cli::json::{Json, Number};
use rhino_cli::text::{decimal_string, parse_unsigned, split_newlines, trim_str};

fn s(x: &str) -> Json {
    Json::Str(x.to_string())
}

fn u(n: u64) -> Json {
    Json::Number(Number::Unsigned(n))
}

fn obj(es: Vec<(&str, Json)>) -> Json {
    Json::Object(es.into_iter().map(|(k, v)| (k.to_string(), v)).collect())
}

fn parse(text: &str) -> Result<Json, String> {
    parse_json_text(text)
}

fn ctx() -> CommandContext {
    CommandContext {
        host: "127.0.0.1".to_string(),
        port: 50061,
        timeout_ms: 60_000,
        connect_timeout_ms: 5_000,
        pretty: false,
        raw: false,
        quiet: false,
        verbose: false,
    }
}

fn run_script_method() -> Json {
    obj(vec![
        ("method", s("rhino.run_script")),
        ("description", s("Run a Rhino command script.")),
        ("paramsSchema", s("{ script: string }")),
        ("resultSchema", s("{ success: boolean }")),
        ("examples", Json::Array(vec![s("rhino-cli run-script \"_Zoom _Extents\"")])),
        ("dedicatedCommand", s("rhino-cli run-script <SCRIPT>")),
        ("sideEffects", s("May modify the active document.")),
        ("category", s("rhino")),
    ])
}

fn server() -> Json {
    obj(vec![
        ("pluginId", s("RhinoCliPlugin")),
        ("port", u(50061)),
        ("serverVersion", s("0.1.0")),
    ])
}

#[test]
fn parses_payload_string() {
    let response = obj(vec![
        ("status", s("ok")),
        ("result", s("{\"active_doc\": false, \"open_count\": 1}")),
    ]);
    let state = document_state::parse(&response).expect("payload");
    assert!(!state.active_doc);
    assert_eq!(state.open_count, 1);
    assert!(state.active_doc_missing());
}

#[test]
fn returns_none_when_result_missing() {
    let response = obj(vec![("status", s("ok"))]);
    assert!(payload_text(&response).is_none());
    assert!(document_state::parse(&response).is_none());
}

#[test]
fn payload_that_is_not_json_or_misses_fields_gives_no_state() {
    assert!(DocumentState::from_parsed_payload(parse("not json")).is_none());
    assert!(DocumentState::from_parsed_payload(parse("{\"active_doc\": true}")).is_none());
    assert!(DocumentState::from_parsed_payload(parse("{\"active_doc\": 1, \"open_count\": 1}")).is_none());
}

#[test]
fn probe_sends_source_and_result_expression() {
    let params = probe_params();
    assert_eq!(params.get_str("result_expression"), Some("json.dumps(state)"));
    assert!(params.get_str("source").unwrap().starts_with("import Rhino, json\n"));
}

#[test]
fn capabilities_prints_handler_metadata() {
    let result = obj(vec![
        ("server", server()),
        ("methods", Json::Array(vec![run_script_method()])),
    ]);
    let out = print_text(&ctx(), &result, None);
    assert!(out.outcome.is_ok());
    assert!(out.text.contains("rhino.run_script"));
    assert!(out.text.contains("Run a Rhino command script."));
    assert!(out.text.contains("rhino-cli run-script <SCRIPT>"));
    assert_eq!(
        out.text,
        "Capabilities from RhinoCliPlugin 0.1.0\nConnection: 127.0.0.1:50061\n\nrhino.run_script\n  Run a Rhino command script.\n  Params: { script: string }\n  Result: { success: boolean }\n  CLI: rhino-cli run-script <SCRIPT>\n  Side effects: May modify the active document.\n  Example: rhino-cli run-script \"_Zoom _Extents\"\n\n"
    );
}

#[test]
fn capabilities_markdown_and_agent() {
    let result = obj(vec![
        ("server", server()),
        ("methods", Json::Array(vec![run_script_method()])),
    ]);
    let md = print_markdown(&ctx(), &result, None);
    assert!(md.text.starts_with("# RhinoCliPlugin 0.1.0\n\nConnection: `127.0.0.1:50061`\n\n## `rhino.run_script`\n\nRun a Rhino command script.\n\n"));
    assert!(md.text.contains("- Dedicated CLI: `rhino-cli run-script <SCRIPT>`\n"));
    assert!(md.text.ends_with("Examples:\n- `rhino-cli run-script \"_Zoom _Extents\"`\n\n"));
    let agent = print_agent(&ctx(), &result);
    assert!(agent.text.starts_with("# rhino-cli Agent Context\n\nConnection: `127.0.0.1:50061`\nServer: `RhinoCliPlugin 0.1.0`\n"));
    assert!(agent.text.contains("- Check environment: `rhino-cli doctor --port 50061`\n"));
    assert!(agent.text.contains("Available handlers:\n\n## `rhino.run_script`"));
}

#[test]
fn capabilities_without_methods_is_an_invalid_response() {
    let out = print_text(&ctx(), &obj(vec![("server", server())]), None);
    match out.outcome {
        Err(CliError::InvalidResponse(m)) => {
            assert_eq!(m, "rpc.capabilities result must contain methods[]")
        }
        other => panic!("unexpected {other:?}"),
    }
    let one = print_text(&ctx(), &obj(vec![("server", server())]), Some("x"));
    assert!(matches!(one.outcome, Err(CliError::InvalidResponse(_))));
}

#[test]
fn server_title_falls_back_to_snake_case_and_unknown() {
    let snake = obj(vec![(
        "server",
        obj(vec![("plugin_id", s("P")), ("server_version", s("2"))]),
    )]);
    assert_eq!(server_title(&snake), "P 2");
    assert_eq!(server_title(&obj(vec![])), "unknown unknown");
}

#[test]
fn capabilities_rendering_choice() {
    let mut c = ctx();
    let text = CapabilitiesArgs { method: None, format: CapabilitiesFormat::Text };
    assert_eq!(rendering_for(&c, &text), Rendering::Text);
    c.raw = true;
    assert_eq!(rendering_for(&c, &text), Rendering::Json);
    c.raw = false;
    let agent = CapabilitiesArgs { method: None, format: CapabilitiesFormat::Agent };
    assert_eq!(rendering_for(&c, &agent), Rendering::Agent);
}

#[test]
fn plugin_port_rules_and_texts() {
    assert!(validate_port(0).is_err());
    assert!(validate_port(1).is_ok());
    assert_eq!(port_config(50070), obj(vec![("port", u(50070))]));
    assert_eq!(
        set_port_text(false, 50070, "/h/.config/rhino-cli/RhinoCliPlugin/config.json"),
        "RhinoCliPlugin port set to 50070. Restart Rhino to apply (/h/.config/rhino-cli/RhinoCliPlugin/config.json)\n"
    );
    assert_eq!(set_port_text(true, 50070, "x"), "");
    assert_eq!(
        show_config_text(false, "/p", None),
        "no RhinoCliPlugin config at /p\nplugin falls back to RHINO_CLI_PORT env var or the default port\n"
    );
    assert_eq!(show_config_text(false, "/p", Some("{}")), "/p\n{}\n");
    assert_eq!(show_config_text(false, "/p", Some("{}\n")), "/p\n{}\n");
}

#[test]
fn plugin_config_location_per_os() {
    assert_eq!(
        config_path_parts(TargetOs::MacOs, Some("/Users/me".to_string()), None).unwrap(),
        vec!["/Users/me", "Library", "Application Support", "rhino-cli", "RhinoCliPlugin", "config.json"]
    );
    assert_eq!(
        config_path_parts(TargetOs::Windows, None, Some("C:\\AppData".to_string())).unwrap(),
        vec!["C:\\AppData", "rhino-cli", "RhinoCliPlugin", "config.json"]
    );
    assert_eq!(
        config_path_parts(TargetOs::Linux, Some("/home/me".to_string()), None).unwrap(),
        vec!["/home/me", ".config", "rhino-cli", "RhinoCliPlugin", "config.json"]
    );
    assert_eq!(
        config_path_parts(TargetOs::Windows, Some("/h".to_string()), None).unwrap_err().message(),
        "APPDATA is not set"
    );
    assert_eq!(
        config_path_parts(TargetOs::Linux, None, None).unwrap_err().message(),
        "HOME is not set"
    );
}

#[test]
fn doctor_status_and_next_lines() {
    assert_eq!(app_status_line("Rhino 8", &Ok(true)), "Rhino app: running (Rhino 8)\n");
    assert_eq!(app_status_line("Rhino 8", &Ok(false)), "Rhino app: not running (Rhino 8)\n");
    assert_eq!(
        app_status_line("Rhino 8", &Err(CliError::Other("nope".to_string()))),
        "Rhino app: unknown (nope)\n"
    );
    assert_eq!(next_text(&ctx()), "\nNext:\n  rhino-cli capabilities --port 50061\n");
}

#[test]
fn text_helpers() {
    assert_eq!(decimal_string(0), "0");
    assert_eq!(decimal_string(u64::MAX), u64::MAX.to_string());
    assert_eq!(parse_unsigned("65535", 65535), Some(65535));
    assert_eq!(parse_unsigned("65536", 65535), None);
    assert_eq!(parse_unsigned("+7", 100), Some(7));
    assert_eq!(parse_unsigned("", 100), None);
    assert_eq!(parse_unsigned("-1", 100), None);
    assert_eq!(trim_str(" \t a b \n"), "a b");
    assert_eq!(split_newlines("a\r\nb\n\nc"), vec!["a\r", "b", "", "c"]);
    assert_eq!(split_newlines(""), vec![""]);
}

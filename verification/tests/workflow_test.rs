use rhino_cli::commands::rhino::platform::macos::{
    capture_step, select_window_id, Capture, CaptureAction, CaptureEvent, CaptureStage, WindowInfo,
};
use rhino_cli::commands::rhino::platform::windows::{exe_probe_paths, resolve_rhino_exe};
use rhino_cli::commands::rhino::platform::{
    backend_for, capture_window, is_app_running, launch_app, launch_command, quit_command, request_quit,
    running_command, Backend, LaunchRun, ProcessOutput, TargetOs,
};
use rhino_cli::commands::rhino::{
    app_running, launch_plan, quit_wait_after, quit_wait_begin, LaunchArgs, LaunchPlan, QuitWait,
};
use rhino_cli::commands::rhino_rpc::{
    apply_body, body_requests, body_target_writable, InspectTypeArgs, InspectTypeWithBodyArgs,
};
use rhino_cli::commands::wait_ready::{ready_step, ReadyPoll};
use rhino_cli::commands::CommandContext;
use rhino_cli::error::CliError;
use rhino_cli::json::Json;

fn s(x: &str) -> Json {
    Json::Str(x.to_string())
}

fn obj(es: Vec<(&str, Json)>) -> Json {
    Json::Object(es.into_iter().map(|(k, v)| (k.to_string(), v)).collect())
}

fn output(success: bool, stdout: &str, stderr: &str) -> ProcessOutput {
    ProcessOutput {
        success,
        code: Some(if success { 0 } else { 1 }),
        stdout: stdout.to_string(),
        stderr: stderr.to_string(),
        status: if success { "exit status: 0".to_string() } else { "exit status: 1".to_string() },
    }
}

fn ctx() -> CommandContext {
    CommandContext {
        host: "127.0.0.1".to_string(),
        port: 50061,
        timeout_ms: 60_000,
        connect_timeout_ms: 5_000,
        pretty: false,
        raw: false,
        quiet: false,
        verbose: true,
    }
}

#[test]
fn backends_follow_the_target() {
    assert_eq!(backend_for(TargetOs::MacOs, false), Backend::MacOs);
    assert_eq!(backend_for(TargetOs::Windows, false), Backend::Windows);
    assert_eq!(backend_for(TargetOs::Linux, true), Backend::Windows);
    assert_eq!(backend_for(TargetOs::Linux, false), Backend::Unsupported);
    assert_eq!(backend_for(TargetOs::Other, true), Backend::Unsupported);
}

#[test]
fn commands_per_backend() {
    let q = running_command(Backend::MacOs, "Rhino 8").unwrap();
    assert_eq!(q.program, "osascript");
    assert_eq!(q.args, vec!["-e", "application \"Rhino 8\" is running"]);
    let t = running_command(Backend::Windows, "Rhino 8").unwrap();
    assert_eq!(t.program, "tasklist.exe");
    assert_eq!(t.args, vec!["/FI", "IMAGENAME eq Rhino.exe", "/FO", "CSV", "/NH"]);
    assert!(running_command(Backend::Unsupported, "Rhino 8").is_none());
    let k = quit_command(Backend::Windows, "Rhino 8").unwrap();
    assert_eq!((k.program.as_str(), k.args.clone()), ("taskkill.exe", vec!["/IM".to_string(), "Rhino.exe".to_string()]));
    let m = quit_command(Backend::MacOs, "Rhino 8").unwrap();
    assert_eq!(m.args, vec!["-e", "quit app \"Rhino 8\""]);
    let l = launch_command(Backend::MacOs, "Rhino 8", Some("_NoEcho"), "").unwrap();
    assert_eq!(l.program, "open");
    assert_eq!(l.args, vec!["-a", "Rhino 8", "--args", "-runscript", "_NoEcho"]);
    let w = launch_command(Backend::Windows, "Rhino 8", Some("_NoEcho"), "C:\\R\\Rhino.exe").unwrap();
    assert_eq!(w.program, "C:\\R\\Rhino.exe");
    assert_eq!(w.args, vec!["/runscript=_NoEcho"]);
}

#[test]
fn app_state_answers_per_backend() {
    assert_eq!(is_app_running(Backend::MacOs, "Rhino 8", Ok(output(true, "true\n", ""))).unwrap(), true);
    assert_eq!(is_app_running(Backend::MacOs, "Rhino 8", Ok(output(true, " false ", ""))).unwrap(), false);
    let odd = is_app_running(Backend::MacOs, "Rhino 8", Ok(output(true, "maybe", ""))).unwrap_err();
    assert_eq!(odd.message(), "unexpected app state response for Rhino 8: maybe");
    let failed = is_app_running(Backend::MacOs, "Rhino 8", Ok(output(false, "", " boom "))).unwrap_err();
    assert_eq!(failed.message(), "failed to query Rhino 8 state: boom");
    let csv = "\"Rhino.exe\",\"1\",\"Console\",\"1\",\"1 K\"\r\n";
    assert!(is_app_running(Backend::Windows, "Rhino 8", Ok(output(true, csv, ""))).unwrap());
    let none = is_app_running(Backend::Unsupported, "Rhino 8", Err(String::new())).unwrap_err();
    assert_eq!(
        none.message(),
        "Rhino app state query is only supported on macOS, Windows, and WSL."
    );
}

#[test]
fn app_running_checks_the_name_first() {
    let e = app_running(Backend::MacOs, "Rhino\"8", Ok(output(true, "true", ""))).unwrap_err();
    assert!(matches!(e, CliError::InvalidInput(_)));
    assert!(app_running(Backend::MacOs, "Rhino 8", Ok(output(true, "true", ""))).unwrap());
}

#[test]
fn quitting_counts_not_found_as_done_on_windows() {
    let not_found = ProcessOutput {
        success: false,
        code: Some(128),
        stdout: String::new(),
        stderr: String::new(),
        status: "exit code: 128".to_string(),
    };
    assert!(request_quit(Backend::Windows, "Rhino 8", Ok(not_found)).is_ok());
    let denied = ProcessOutput {
        success: false,
        code: Some(1),
        stdout: String::new(),
        stderr: "Access is denied.".to_string(),
        status: "exit code: 1".to_string(),
    };
    assert_eq!(
        request_quit(Backend::Windows, "Rhino 8", Ok(denied)).unwrap_err().message(),
        "taskkill.exe failed (exit Some(1)): Access is denied."
    );
    assert_eq!(
        request_quit(Backend::MacOs, "Rhino 8", Err("no osascript".to_string())).unwrap_err().message(),
        "failed to ask Rhino 8 to quit: no osascript"
    );
}

#[test]
fn launch_outcomes() {
    assert!(launch_app(Backend::MacOs, "Rhino 8", LaunchRun::Opened(Ok(output(true, "", "")))).is_ok());
    assert_eq!(
        launch_app(Backend::Windows, "Rhino 8", LaunchRun::Spawned("C:\\R.exe".to_string(), Err("denied".to_string())))
            .unwrap_err()
            .message(),
        "failed to launch Rhino at C:\\R.exe: denied"
    );
    assert!(launch_app(Backend::Unsupported, "Rhino 8", LaunchRun::Opened(Ok(output(true, "", "")))).is_err());
}

#[test]
fn launch_plan_decisions() {
    let c = ctx();
    let mut args = LaunchArgs::default();
    match launch_plan(&c, &args, true).unwrap() {
        LaunchPlan::AlreadyRunning(note) => assert_eq!(note.as_deref(), Some("Rhino 8 is already running")),
        other => panic!("unexpected {other:?}"),
    }
    match launch_plan(&c, &args, false).unwrap() {
        LaunchPlan::Start { shutdown_first, startup_script } => {
            assert!(!shutdown_first);
            assert_eq!(startup_script.as_deref(), Some("_NoEcho"));
        }
        other => panic!("unexpected {other:?}"),
    }
    args.script = Some("_Line".to_string());
    assert!(matches!(launch_plan(&c, &args, true), Err(CliError::InvalidInput(_))));
    args.restart = true;
    match launch_plan(&c, &args, true).unwrap() {
        LaunchPlan::Start { shutdown_first, startup_script } => {
            assert!(shutdown_first);
            assert_eq!(startup_script.as_deref(), Some("_Line"));
        }
        other => panic!("unexpected {other:?}"),
    }
    args.script = None;
    args.no_new_model = true;
    match launch_plan(&c, &args, false).unwrap() {
        LaunchPlan::Start { startup_script, .. } => assert_eq!(startup_script, None),
        other => panic!("unexpected {other:?}"),
    }
}

#[test]
fn quit_wait_rounds() {
    assert!(matches!(quit_wait_begin("Rhino 8", 30_000, 0), QuitWait::Query));
    match quit_wait_begin("Rhino 8", 30_000, 30_000) {
        QuitWait::Done(Err(CliError::Timeout(m))) => assert_eq!(
            m,
            "Timed out waiting for Rhino 8 to quit. Close any save/discard prompt and retry."
        ),
        other => panic!("unexpected {other:?}"),
    }
    assert!(matches!(quit_wait_after(Ok(false)), QuitWait::Done(Ok(()))));
    assert!(matches!(quit_wait_after(Ok(true)), QuitWait::Sleep(500)));
}

#[test]
fn ready_polling() {
    let pong = Ok(obj(vec![("pong", Json::Bool(true))]));
    assert!(matches!(ready_step(&pong, 99_999, 1), ReadyPoll::Ready));
    let refused = Err(CliError::Connect("refused".to_string()));
    assert!(matches!(ready_step(&refused, 999, 1), ReadyPoll::Retry(100)));
    match ready_step(&refused, 1000, 1) {
        ReadyPoll::GiveUp(e) => assert_eq!(e.message(), "timeout: server was not ready within 1s"),
        other => panic!("unexpected {other:?}"),
    }
}

#[test]
fn exe_resolution_takes_first_existing_path() {
    let paths = exe_probe_paths("Rhino 7", None, true);
    assert_eq!(
        paths,
        vec![
            "/mnt/c/Program Files/Rhino 7/System/Rhino.exe".to_string(),
            "/mnt/c/Program Files/Rhino 8/System/Rhino.exe".to_string(),
        ]
    );
    assert_eq!(
        resolve_rhino_exe(None, &paths, &vec![false, true]).unwrap(),
        "/mnt/c/Program Files/Rhino 8/System/Rhino.exe"
    );
    let missing = resolve_rhino_exe(None, &paths, &vec![false]).unwrap_err();
    assert_eq!(
        missing.message(),
        "could not find Rhino.exe. Tried:\n  /mnt/c/Program Files/Rhino 7/System/Rhino.exe\n  /mnt/c/Program Files/Rhino 8/System/Rhino.exe\nSet RHINO_CLI_RHINO_EXE to override (e.g. C:\\Program Files\\Rhino 8\\System\\Rhino.exe)."
    );
    let native = exe_probe_paths("Rhino 9", None, false);
    assert_eq!(native.len(), 3);
    assert_eq!(native[0], "C:\\Program Files\\Rhino 9\\System\\Rhino.exe");
}

#[test]
fn exe_override_must_exist() {
    let paths = exe_probe_paths("Rhino 8", Some("D:\\R\\Rhino.exe"), true);
    assert_eq!(paths, vec!["/mnt/d/R/Rhino.exe".to_string()]);
    assert_eq!(
        resolve_rhino_exe(Some("D:\\R\\Rhino.exe"), &paths, &vec![true]).unwrap(),
        "/mnt/d/R/Rhino.exe"
    );
    assert_eq!(
        resolve_rhino_exe(Some("D:\\R\\Rhino.exe"), &paths, &vec![false]).unwrap_err().message(),
        "RHINO_CLI_RHINO_EXE=D:\\R\\Rhino.exe does not exist (resolved to /mnt/d/R/Rhino.exe)"
    );
}

fn window(owner: &str, title: &str, layer: Option<i64>, number: Option<i64>) -> WindowInfo {
    WindowInfo { owner: owner.to_string(), title: title.to_string(), layer, number }
}

#[test]
fn window_selection_skips_other_layers() {
    let ws = vec![
        window("Finder", "", Some(0), Some(3)),
        window("Rhinoceros", "palette", Some(3), Some(7)),
        window("Rhinoceros", "Untitled", Some(0), Some(42)),
    ];
    assert_eq!(select_window_id("Rhino 8", &ws).unwrap(), 42);
    let none = select_window_id("Rhino 8", &ws[..2].to_vec()).unwrap_err();
    assert_eq!(
        none.message(),
        "failed to find a visible Rhino 8 window id via CoreGraphics (matching windows: Rhinoceros: palette)"
    );
    let empty = select_window_id("Rhino 8", &vec![]).unwrap_err();
    assert_eq!(
        empty.message(),
        "failed to find a visible Rhino 8 window id via CoreGraphics (no matching owner windows were visible)"
    );
}

#[test]
fn capture_runs_every_step_in_order() {
    let mut cap = capture_window(Backend::MacOs, "Rhino 8".to_string(), "shot.png".to_string(), None, true, true)
        .unwrap();
    match capture_step(&mut cap, CaptureEvent::Begin) {
        CaptureAction::Run(c) => assert_eq!(c.args, vec!["-e", "application \"Rhino 8\" is running"]),
        other => panic!("unexpected {other:?}"),
    }
    assert!(matches!(
        capture_step(&mut cap, CaptureEvent::Ran(Ok(output(true, "true", "")))),
        CaptureAction::CheckAccess
    ));
    match capture_step(&mut cap, CaptureEvent::Access(true)) {
        CaptureAction::Run(c) => assert_eq!((c.program.as_str(), c.args.clone()), ("open", vec!["-a".to_string(), "Rhino 8".to_string()])),
        other => panic!("unexpected {other:?}"),
    }
    assert!(matches!(
        capture_step(&mut cap, CaptureEvent::Ran(Ok(output(true, "", "")))),
        CaptureAction::Wait(500)
    ));
    assert!(matches!(capture_step(&mut cap, CaptureEvent::Waited), CaptureAction::ListWindows));
    let ws = vec![window("Rhinoceros", "Untitled", Some(0), Some(42))];
    match capture_step(&mut cap, CaptureEvent::Windows(Some(ws))) {
        CaptureAction::Capture(c) => {
            assert_eq!(c.program, "screencapture");
            assert_eq!(c.args, vec!["-x", "-o", "-l", "42", "shot.png"]);
        }
        other => panic!("unexpected {other:?}"),
    }
    assert!(matches!(
        capture_step(&mut cap, CaptureEvent::Captured(Ok(output(true, "", "")), true)),
        CaptureAction::Done(Ok(()))
    ));
    assert_eq!(cap.stage, CaptureStage::Finished);
}

#[test]
fn capture_stops_early() {
    let start = || Capture {
        app: "Rhino 8".to_string(),
        out: "shot.png".to_string(),
        window_id: Some(9),
        activate: false,
        no_shadow: false,
        stage: CaptureStage::Start,
    };
    let mut cap = start();
    capture_step(&mut cap, CaptureEvent::Begin);
    match capture_step(&mut cap, CaptureEvent::Ran(Ok(output(true, "false", "")))) {
        CaptureAction::Done(Err(CliError::Connect(m))) => assert_eq!(m, "Rhino 8 is not running"),
        other => panic!("unexpected {other:?}"),
    }
    let mut cap = start();
    capture_step(&mut cap, CaptureEvent::Begin);
    capture_step(&mut cap, CaptureEvent::Ran(Ok(output(true, "true", ""))));
    assert!(matches!(
        capture_step(&mut cap, CaptureEvent::Access(false)),
        CaptureAction::Done(Err(CliError::Other(_)))
    ));
    let mut cap = start();
    capture_step(&mut cap, CaptureEvent::Begin);
    capture_step(&mut cap, CaptureEvent::Ran(Ok(output(true, "true", ""))));
    match capture_step(&mut cap, CaptureEvent::Access(true)) {
        CaptureAction::Capture(c) => assert_eq!(c.args, vec!["-x", "-l", "9", "shot.png"]),
        other => panic!("unexpected {other:?}"),
    }
    match capture_step(&mut cap, CaptureEvent::Captured(Ok(output(true, "", "")), false)) {
        CaptureAction::Done(Err(e)) => assert_eq!(
            e.message(),
            "screencapture finished but did not create shot.png. Check macOS Screen Recording permission for this terminal."
        ),
        other => panic!("unexpected {other:?}"),
    }
}

#[test]
fn capture_is_macos_only() {
    assert_eq!(
        capture_window(Backend::Windows, "Rhino 8".to_string(), "a.png".to_string(), None, true, false)
            .unwrap_err()
            .message(),
        "Rhino window screenshot is not yet implemented on Windows."
    );
    assert!(capture_window(Backend::Unsupported, "Rhino 8".to_string(), "a.png".to_string(), None, true, false).is_err());
}

fn inspect_result() -> Json {
    obj(vec![
        ("type", s("Rhino.Geometry.Point3d")),
        (
            "methods",
            Json::Array(vec![
                obj(vec![
                    ("name", s("DistanceTo")),
                    (
                        "overloads",
                        Json::Array(vec![obj(vec![(
                            "params",
                            Json::Array(vec![obj(vec![("name", s("other")), ("type", s("Point3d"))])]),
                        )])]),
                    ),
                ]),
                obj(vec![
                    ("name", s("Add")),
                    (
                        "overloads",
                        Json::Array(vec![
                            obj(vec![("params", Json::Array(vec![]))]),
                            Json::Null,
                        ]),
                    ),
                ]),
            ]),
        ),
    ])
}

#[test]
fn with_body_plans_one_call_per_overload() {
    let args = InspectTypeWithBodyArgs {
        inspect: InspectTypeArgs {
            name: "Rhino.Geometry.Point3d".to_string(),
            binding: None,
            include_inherited: false,
        },
        with_body: vec!["Add".to_string(), "Missing".to_string(), "DistanceTo".to_string()],
    };
    let result = inspect_result();
    let reqs = body_requests(&args, &result);
    assert_eq!(reqs.len(), 3);
    assert_eq!((reqs[0].group, reqs[0].overload), (1, 0));
    assert_eq!(
        reqs[0].params,
        obj(vec![("method", s("Add")), ("type", s("Rhino.Geometry.Point3d"))])
    );
    assert_eq!((reqs[1].group, reqs[1].overload), (1, 1));
    assert_eq!((reqs[2].group, reqs[2].overload), (0, 0));
    assert_eq!(
        reqs[2].params,
        obj(vec![
            ("method", s("DistanceTo")),
            ("signature", s("Point3d")),
            ("type", s("Rhino.Geometry.Point3d")),
        ])
    );
}

#[test]
fn with_body_writes_answers_into_overloads() {
    let mut result = inspect_result();
    assert!(body_target_writable(&result, 0, 0));
    assert!(body_target_writable(&result, 1, 1));
    assert!(!body_target_writable(&result, 1, 2));
    apply_body(&mut result, 0, 0, Ok(obj(vec![("csharp", s("return 0;"))])));
    apply_body(
        &mut result,
        1,
        1,
        Err(CliError::RpcError(rhino_cli::protocol::RpcError {
            code: -32000,
            message: "no body".to_string(),
            data: None,
        })),
    );
    apply_body(&mut result, 1, 0, Ok(obj(vec![("other", s("x"))])));
    let methods = result.get("methods").unwrap().as_array().unwrap();
    let first = methods[0].get("overloads").unwrap().as_array().unwrap();
    assert_eq!(first[0].get_str("body"), Some("return 0;"));
    let second = methods[1].get("overloads").unwrap().as_array().unwrap();
    assert_eq!(second[0], obj(vec![("params", Json::Array(vec![]))]));
    assert_eq!(second[1], obj(vec![("body_error", s("rpc error -32000: no body"))]));
    assert_eq!(result.get_str("type"), Some("Rhino.Geometry.Point3d"));
}

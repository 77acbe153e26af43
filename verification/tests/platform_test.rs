use rhino_cli::commands::document_state::DocumentState;
use rhino_cli::commands::rhino::platform::is_wsl_from_release;
use rhino_cli::commands::rhino::platform::windows::{
    convert_windows_to_wsl, normalize_path, parse_rhino_version, parse_tasklist_running,
    taskkill_says_not_found,
};
use rhino_cli::commands::rhino::{default_screenshot_path, screenshot_file_name, validate_app_name};
use rhino_cli::error::CliError;

#[test]
fn active_doc_missing_when_no_active_regardless_of_open_count() {
    let state = DocumentState {
        active_doc: false,
        open_count: 0,
    };
    assert!(state.active_doc_missing());
}

#[test]
fn active_doc_present_is_not_missing() {
    let state = DocumentState {
        active_doc: true,
        open_count: 1,
    };
    assert!(!state.active_doc_missing());
}

fn allows_expected_rhino_names() {
    validate_app_name("Rhino 8").unwrap();
    validate_app_name("RhinoWIP").unwrap();
    validate_app_name("Rhino 8.0-Test").unwrap();
}

fn rejects_shell_metacharacters() {
    assert!(validate_app_name("").is_err());
    assert!(validate_app_name("Rhino 8; rm -rf /").is_err());
    assert!(validate_app_name("Rhino \"8\"").is_err());
}

fn screenshot_path_is_png() {
    let path = default_screenshot_path();
    assert!(path.ends_with(".png"));
    let name = path.rsplit('/').next().unwrap();
    assert!(name.starts_with("rhino-screenshot-"));
}

#[test]
fn rhino_app_name_allows_expected_rhino_names() {
    allows_expected_rhino_names();
}

#[test]
fn rhino_app_name_rejects_shell_metacharacters() {
    rejects_shell_metacharacters();
}

#[test]
fn rhino_default_screenshot_path_is_png() {
    screenshot_path_is_png();
}

#[test]
fn mod_app_name_allows_expected_rhino_names() {
    allows_expected_rhino_names();
}

#[test]
fn mod_app_name_rejects_shell_metacharacters() {
    rejects_shell_metacharacters();
}

#[test]
fn mod_default_screenshot_path_is_png() {
    screenshot_path_is_png();
}

#[test]
fn detects_wsl2_release() {
    assert!(is_wsl_from_release("5.15.153.1-microsoft-standard-WSL2"));
}

#[test]
fn detects_wsl1_release() {
    assert!(is_wsl_from_release("4.4.0-19041-Microsoft"));
}

#[test]
fn rejects_native_linux_release() {
    assert!(!is_wsl_from_release("6.6.0-1018-aws"));
    assert!(!is_wsl_from_release("5.10.0-21-amd64"));
}

#[test]
fn rejects_empty_release() {
    assert!(!is_wsl_from_release(""));
}

#[test]
fn convert_simple_c_drive() {
    assert_eq!(
        convert_windows_to_wsl("C:\\Program Files\\Rhino 8\\System\\Rhino.exe"),
        "/mnt/c/Program Files/Rhino 8/System/Rhino.exe"
    );
}

#[test]
fn convert_alternate_drive() {
    assert_eq!(
        convert_windows_to_wsl("D:\\Tools\\rhino.exe"),
        "/mnt/d/Tools/rhino.exe"
    );
}

#[test]
fn convert_lowercase_drive() {
    assert_eq!(convert_windows_to_wsl("c:\\Foo"), "/mnt/c/Foo");
}

#[test]
fn convert_mnt_pass_through() {
    assert_eq!(
        convert_windows_to_wsl("/mnt/c/Program Files/Rhino 8/System/Rhino.exe"),
        "/mnt/c/Program Files/Rhino 8/System/Rhino.exe"
    );
}

#[test]
fn convert_unc_pass_through() {
    assert_eq!(
        convert_windows_to_wsl("\\\\server\\share\\file.exe"),
        "\\\\server\\share\\file.exe"
    );
}

#[test]
fn parse_version_from_rhino_8() {
    assert_eq!(parse_rhino_version("Rhino 8"), Some(8));
}

#[test]
fn parse_version_from_no_space() {
    assert_eq!(parse_rhino_version("Rhino8"), Some(8));
}

#[test]
fn parse_version_from_decorated() {
    assert_eq!(parse_rhino_version("Rhino 8.0-Test"), Some(8));
}

#[test]
fn parse_version_none_when_no_digits() {
    assert_eq!(parse_rhino_version("RhinoWIP"), None);
    assert_eq!(parse_rhino_version("Rhinoceros"), None);
}

#[test]
fn tasklist_detects_running() {
    let out = "\"Rhino.exe\",\"12345\",\"Console\",\"1\",\"123,456 K\"\r\n";
    assert!(parse_tasklist_running(out));
}

#[test]
fn tasklist_detects_running_case_insensitive() {
    let out = "\"RHINO.EXE\",\"12345\",\"Console\",\"1\",\"123,456 K\"\r\n";
    assert!(parse_tasklist_running(out));
}

#[test]
fn tasklist_detects_not_running_when_info() {
    let out = "INFO: No tasks are running which match the specified criteria.\r\n";
    assert!(!parse_tasklist_running(out));
}

#[test]
fn tasklist_detects_not_running_when_empty() {
    assert!(!parse_tasklist_running(""));
}

#[test]
fn taskkill_recognizes_exit_128() {
    assert!(taskkill_says_not_found(Some(128), "", ""));
}

#[test]
fn taskkill_recognizes_not_found_text() {
    assert!(taskkill_says_not_found(
        Some(1),
        "ERROR: The process \"Rhino.exe\" not found.",
        ""
    ));
}

#[test]
fn taskkill_treats_other_errors_as_error() {
    assert!(!taskkill_says_not_found(Some(1), "Access is denied.", ""));
}

// Further cases of the same functions.

#[test]
fn wsl_conversion_is_idempotent_on_examples() {
    for p in [
        "C:\\Program Files\\Rhino 8\\System\\Rhino.exe",
        "d:/Tools",
        "E:",
        "relative\\path",
        "/already/unix",
    ] {
        let once = convert_windows_to_wsl(p);
        assert_eq!(convert_windows_to_wsl(&once), once);
    }
}

#[test]
fn convert_forward_slashes_and_bare_drive() {
    assert_eq!(convert_windows_to_wsl("C:/Users/me"), "/mnt/c/Users/me");
    assert_eq!(convert_windows_to_wsl("E:"), "/mnt/e");
    assert_eq!(convert_windows_to_wsl("E:\\"), "/mnt/e");
    assert_eq!(convert_windows_to_wsl("C:\\\\double"), "/mnt/c/double");
}

#[test]
fn normalize_path_converts_only_on_linux() {
    assert_eq!(normalize_path("C:\\Foo", true), "/mnt/c/Foo");
    assert_eq!(normalize_path("C:\\Foo", false), "C:\\Foo");
}

#[test]
fn parse_version_takes_first_match_of_rhino_and_digits() {
    assert_eq!(parse_rhino_version("Rhinoceros Rhino 7"), Some(7));
    assert_eq!(parse_rhino_version("My Rhino\t10 beta"), Some(10));
    assert_eq!(parse_rhino_version("rhino 7"), None);
    assert_eq!(parse_rhino_version("Grasshopper"), None);
    assert_eq!(parse_rhino_version("Rhino 99999999999"), None);
}

#[test]
fn app_name_error_message_quotes_the_name() {
    match validate_app_name("a;b") {
        Err(CliError::InvalidInput(m)) => assert_eq!(
            m,
            "invalid Rhino app name \"a;b\"; use letters, numbers, spaces, dots, and hyphens"
        ),
        other => panic!("unexpected {other:?}"),
    }
}

#[test]
fn screenshot_file_name_uses_timestamp() {
    assert_eq!(screenshot_file_name(1700000000), "rhino-screenshot-1700000000.png");
    assert_eq!(screenshot_file_name(0), "rhino-screenshot-0.png");
}

#[test]
fn taskkill_not_found_in_stdout_and_other_codes() {
    assert!(taskkill_says_not_found(Some(1), "", "ERROR: not found"));
    assert!(!taskkill_says_not_found(None, "", ""));
    assert!(!taskkill_says_not_found(Some(0), "", ""));
}

#[test]
fn tasklist_ignores_other_images() {
    let out = "\"notepad.exe\",\"1\",\"Console\",\"1\",\"1 K\"\r\n";
    assert!(!parse_tasklist_running(out));
}

#[test]
fn tasklist_first_notice_or_rhino_line_decides() {
    assert!(parse_tasklist_running("\r\n  \"Rhino.exe\",\"1\"\r\nINFO: later\r\n"));
    assert!(!parse_tasklist_running("INFO: none\r\n\"Rhino.exe\",\"1\"\r\n"));
    assert!(parse_tasklist_running("other\r\nrhino.exe 1\r\n"));
}

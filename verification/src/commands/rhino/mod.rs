//! Launching, stopping and capturing the Rhino application.
//!
//! Every command checks the app name first: only letters, digits, spaces,
//! dots and hyphens may reach the operating system's tools.
use vstd::prelude::*;

use crate::commands::CommandContext;
use platform::{Backend, ProcessOutput};
use crate::error::CliError;
use crate::text::{
    chars_of, concat2, concat3, debug_quoted, debug_text, decimal, decimal_string, is_ascii_alnum,
    owned,
};

pub mod platform;

verus! {

pub const DEFAULT_APP: &'static str = "Rhino 8";

pub const DEFAULT_SHUTDOWN_TIMEOUT_SECS: u64 = 30;

/// The arguments of `launch`.
#[derive(Clone, Debug)]
pub struct LaunchArgs {
    pub app: String,
    pub restart: bool,
    pub no_new_model: bool,
    pub script: Option<String>,
}

/// The arguments of `shutdown`; the timeout is in milliseconds.
#[derive(Clone, Debug)]
pub struct ShutdownArgs {
    pub app: String,
    pub timeout_ms: u128,
}

/// The arguments of `screenshot`.
#[derive(Clone, Debug)]
pub struct ScreenshotArgs {
    pub app: String,
    pub out: Option<String>,
    pub no_activate: bool,
    pub window_id: Option<u64>,
    pub no_shadow: bool,
}

impl Default for LaunchArgs {
    fn default() -> (r: Self)
        ensures
            r.app@ == DEFAULT_APP@,
            !r.restart,
            !r.no_new_model,
            r.script is None,
    {
        LaunchArgs { app: owned(DEFAULT_APP), restart: false, no_new_model: false, script: None }
    }
}

impl Default for ShutdownArgs {
    fn default() -> (r: Self)
        ensures
            r.app@ == DEFAULT_APP@,
            r.timeout_ms == DEFAULT_SHUTDOWN_TIMEOUT_SECS as u128 * 1000,
    {
        ShutdownArgs {
            app: owned(DEFAULT_APP),
            timeout_ms: (DEFAULT_SHUTDOWN_TIMEOUT_SECS as u128) * 1000,
        }
    }
}

impl Default for ScreenshotArgs {
    fn default() -> (r: Self)
        ensures
            r.app@ == DEFAULT_APP@,
            r.out is None,
            !r.no_activate,
            r.window_id is None,
            !r.no_shadow,
    {
        ScreenshotArgs {
            app: owned(DEFAULT_APP),
            out: None,
            no_activate: false,
            window_id: None,
            no_shadow: false,
        }
    }
}

/// A character allowed in an app name.
pub open spec fn app_name_char(c: char) -> bool {
    is_ascii_alnum(c) || c == ' ' || c == '.' || c == '-'
}

/// An app name is non-empty and made of letters, digits, spaces, dots and
/// hyphens only, so no quote, semicolon or other shell or AppleScript
/// metacharacter can reach a command line.
pub open spec fn valid_app_name(app: Seq<char>) -> bool {
    app.len() > 0 && forall|i: int| 0 <= i < app.len() ==> app_name_char(#[trigger] app[i])
}

/// Checks an app name before it is handed to the operating system.
pub fn validate_app_name(app: &str) -> (r: Result<(), CliError>)
    ensures
        r is Ok <==> valid_app_name(app@),
        r matches Err(e) ==> (e matches CliError::InvalidInput(m) && m@ == "invalid Rhino app name "@
            + debug_text(app@) + "; use letters, numbers, spaces, dots, and hyphens"@),
{
    let v = chars_of(app);
    let mut ok = v.len() > 0;
    let mut i: usize = 0;
    while ok && i < v.len()
        invariant
            v@ == app@,
            i <= v.len(),
            ok ==> v.len() > 0,
            ok ==> forall|j: int| 0 <= j < i ==> app_name_char(#[trigger] v@[j]),
            !ok ==> !valid_app_name(app@),
        decreases v.len() - i,
    {
        let c = v[i];
        if !(('a' <= c && c <= 'z') || ('A' <= c && c <= 'Z') || ('0' <= c && c <= '9') || c == ' '
            || c == '.' || c == '-') {
            ok = false;
        }
        i = i + 1;
    }
    if ok {
        return Ok(());
    }
    let d = debug_quoted(app);
    Err(
        CliError::InvalidInput(
            concat3(
                "invalid Rhino app name ",
                d.as_str(),
                "; use letters, numbers, spaces, dots, and hyphens",
            ),
        ),
    )
}

/// A valid app name holds no character that could close a quoted AppleScript
/// string or start another shell command.
pub proof fn lemma_valid_app_name_is_inert(app: Seq<char>)
    requires
        valid_app_name(app),
    ensures
        forall|i: int|
            0 <= i < app.len() ==> {
                let c = #[trigger] app[i];
                c != '"' && c != '\'' && c != '\\' && c != ';' && c != '&' && c != '|' && c != '$'
                    && c != '`' && c != '\n' && c != '\r' && c != '<' && c != '>' && c != '('
                    && c != ')'
            },
{
    assert forall|i: int| 0 <= i < app.len() implies {
        let c = #[trigger] app[i];
        c != '"' && c != '\'' && c != '\\' && c != ';' && c != '&' && c != '|' && c != '$' && c
            != '`' && c != '\n' && c != '\r' && c != '<' && c != '>' && c != '(' && c != ')'
    } by {
        assert(app_name_char(app[i]));
    }
}

/// Whether the app runs: the name is checked first, then the backend's
/// answer (see [`platform::running_command`]) is read.
pub fn app_running(backend: Backend, app: &str, run: Result<ProcessOutput, String>) -> (r: Result<bool, CliError>)
    ensures
        !valid_app_name(app@) ==> (r matches Err(CliError::InvalidInput(m)) && m@
            == "invalid Rhino app name "@ + debug_text(app@)
            + "; use letters, numbers, spaces, dots, and hyphens"@),
        valid_app_name(app@) && backend == Backend::MacOs ==> platform::macos::running_outcome(
            app@,
            run,
            r,
        ),
        valid_app_name(app@) && backend == Backend::Windows ==> platform::windows::running_outcome(
            run,
            r,
        ),
        valid_app_name(app@) && backend == Backend::Unsupported ==> (r matches Err(
            CliError::Other(m),
        ) && m@ == "Rhino app state query is only supported on macOS, Windows, and WSL."@),
{
    validate_app_name(app)?;
    platform::is_app_running(backend, app, run)
}

/// The file name of a screenshot taken at `timestamp` (seconds since the Unix epoch).
pub open spec fn screenshot_name(timestamp: u64) -> Seq<char> {
    "rhino-screenshot-"@ + decimal(timestamp as nat) + ".png"@
}

pub fn screenshot_file_name(timestamp: u64) -> (r: String)
    ensures
        r@ == screenshot_name(timestamp),
{
    let d = decimal_string(timestamp);
    concat3("rhino-screenshot-", d.as_str(), ".png")
}

/// Seconds since the Unix epoch by the system clock (`SystemTime::elapsed` on
/// `UNIX_EPOCH`), 0 when the clock is set before the epoch. Nothing is stated
/// of the value: it is the time.
#[verifier::external_body]
fn unix_time_secs() -> (r: u64) {
    match std::time::UNIX_EPOCH.elapsed() {
        Ok(d) => d.as_secs(),
        Err(_) => 0,
    }
}

/// The default screenshot path: `rhino-screenshot-<unix seconds>.png` in the
/// current directory.
pub fn default_screenshot_path() -> (r: String)
    ensures
        exists|t: u64| r@ == screenshot_name(t),
{
    screenshot_file_name(unix_time_secs())
}

/// Where a screenshot goes: the requested path, else the default one.
pub fn screenshot_path(out: Option<String>) -> (r: String)
    ensures
        out matches Some(p) ==> r == p,
        out is None ==> exists|t: u64| r@ == screenshot_name(t),
{
    match out {
        Some(p) => p,
        None => default_screenshot_path(),
    }
}

/// The script Rhino runs at startup: the requested one, else `_NoEcho`, which
/// opens a new model, unless the start window was asked to stay.
pub open spec fn startup_script_of(script: Option<String>, no_new_model: bool) -> Option<Seq<char>> {
    match script {
        Some(s) => Some(s@),
        None => if no_new_model {
            None
        } else {
            Some("_NoEcho"@)
        },
    }
}

/// What `launch` does once it knows whether the app runs.
#[derive(Debug)]
pub enum LaunchPlan {
    /// The app already runs; nothing to do but print the note, if any.
    AlreadyRunning(Option<String>),
    /// Start the app with this startup script, after stopping it first when asked.
    Start { shutdown_first: bool, startup_script: Option<String> },
}

/// The decision of `launch`, given whether the app runs: an app that runs is
/// left alone, unless a restart was asked; a startup script cannot reach an
/// app that already runs.
pub fn launch_plan(ctx: &CommandContext, args: &LaunchArgs, running: bool) -> (r: Result<LaunchPlan, CliError>)
    ensures
        !args.restart && running && args.script is Some ==> (r matches Err(CliError::InvalidInput(m))
            && m@ == "Rhino is already running; use `rhino-cli launch --restart --script ...` to apply launch-time scripts, or `rhino-cli run-script` inside an existing modeling session."@),
        !args.restart && running && args.script is None ==> (r matches Ok(LaunchPlan::AlreadyRunning(
            note,
        )) && (if ctx.verbose && !ctx.quiet {
            note matches Some(n) && n@ == args.app@ + " is already running"@
        } else {
            note is None
        })),
        args.restart || !running ==> (r matches Ok(LaunchPlan::Start { shutdown_first, startup_script })
            && shutdown_first == (args.restart && running) && (match startup_script {
            Some(s) => startup_script_of(args.script, args.no_new_model) == Some(s@),
            None => startup_script_of(args.script, args.no_new_model) is None,
        })),
{
    if !args.restart && running {
        if args.script.is_some() {
            return Err(
                CliError::InvalidInput(
                    owned(
                        "Rhino is already running; use `rhino-cli launch --restart --script ...` to apply launch-time scripts, or `rhino-cli run-script` inside an existing modeling session.",
                    ),
                ),
            );
        }
        let note = if ctx.verbose && !ctx.quiet {
            Some(concat2(args.app.as_str(), " is already running"))
        } else {
            None
        };
        return Ok(LaunchPlan::AlreadyRunning(note));
    }
    let startup_script = match &args.script {
        Some(s) => Some(owned(s.as_str())),
        None => if args.no_new_model {
            None
        } else {
            Some(owned("_NoEcho"))
        },
    };
    Ok(LaunchPlan::Start { shutdown_first: args.restart && running, startup_script })
}

/// The note `shutdown` prints when the app does not run, if it prints one.
pub fn not_running_note(ctx: &CommandContext, app: &str) -> (r: Option<String>)
    ensures
        ctx.verbose && !ctx.quiet ==> (r matches Some(n) && n@ == app@ + " is not running"@),
        !(ctx.verbose && !ctx.quiet) ==> r is None,
{
    if ctx.verbose && !ctx.quiet {
        Some(concat2(app, " is not running"))
    } else {
        None
    }
}

/// The error when the app is still running when the shutdown timeout ends.
pub fn quit_timeout_error(app: &str) -> (r: CliError)
    ensures
        r matches CliError::Timeout(m) && m@ == "Timed out waiting for "@ + app@
            + " to quit. Close any save/discard prompt and retry."@,
{
    CliError::Timeout(
        concat3("Timed out waiting for ", app, " to quit. Close any save/discard prompt and retry."),
    )
}

/// How long to wait between two checks whether the app has quit, in milliseconds.
pub const QUIT_POLL_MS: u64 = 500;

/// The next move while waiting for the app to quit.
#[derive(Debug)]
pub enum QuitWait {
    /// Ask whether the app still runs.
    Query,
    /// Wait this many milliseconds, then start again.
    Sleep(u64),
    /// The wait is over, with this outcome.
    Done(Result<(), CliError>),
}

/// Before each check whether the app has quit: check while `elapsed_ms` is
/// below `timeout_ms`, give up with a timeout once it is not.
pub fn quit_wait_begin(app: &str, timeout_ms: u128, elapsed_ms: u128) -> (r: QuitWait)
    ensures
        elapsed_ms < timeout_ms ==> r is Query,
        elapsed_ms >= timeout_ms ==> (r matches QuitWait::Done(Err(CliError::Timeout(m))) && m@
            == "Timed out waiting for "@ + app@ + " to quit. Close any save/discard prompt and retry."@),
{
    if elapsed_ms < timeout_ms {
        QuitWait::Query
    } else {
        QuitWait::Done(Err(quit_timeout_error(app)))
    }
}

/// After a check whether the app has quit: done when it no longer runs,
/// another round when it still does; a failed check ends the wait.
pub fn quit_wait_after(running: Result<bool, CliError>) -> (r: QuitWait)
    ensures
        running == Ok::<bool, CliError>(false) ==> r matches QuitWait::Done(Ok(())),
        running == Ok::<bool, CliError>(true) ==> r == QuitWait::Sleep(QUIT_POLL_MS),
        running matches Err(e) ==> r == QuitWait::Done(Err(e)),
{
    match running {
        Ok(false) => QuitWait::Done(Ok(())),
        Ok(true) => QuitWait::Sleep(QUIT_POLL_MS),
        Err(e) => QuitWait::Done(Err(e)),
    }
}

/// The error when the screenshot directory cannot be created.
pub fn screenshot_dir_error(dir: &str, reason: &str) -> (r: CliError)
    ensures
        r matches CliError::Other(m) && m@ == "failed to create screenshot directory "@ + dir@ + ": "@
            + reason@,
{
    let mut m = concat3("failed to create screenshot directory ", dir, ": ");
    m.append(reason);
    CliError::Other(m)
}

} // verus!

//! Operating-system automation of the Rhino application: which backend serves
//! the host, and the shared shape of a finished child process.
use vstd::prelude::*;

use crate::error::CliError;
use crate::text::{contains, contains_str, lower, owned, to_ascii_lowercase};

pub mod macos;
pub mod unsupported;
pub mod windows;

verus! {

/// What a finished child process left behind. `status` is the text of its exit
/// status, `code` its exit code when it has one.
#[derive(Debug, Clone)]
pub struct ProcessOutput {
    pub success: bool,
    pub code: Option<i32>,
    pub stdout: String,
    pub stderr: String,
    pub status: String,
}

/// The operating system the program was built for.
#[derive(Debug, Clone, Copy, PartialEq, Eq, Structural)]
pub enum TargetOs {
    MacOs,
    Windows,
    Linux,
    Other,
}

/// Which automation backend serves a host.
#[derive(Debug, Clone, Copy, PartialEq, Eq, Structural)]
pub enum Backend {
    MacOs,
    Windows,
    Unsupported,
}

/// A kernel release string names Windows Subsystem for Linux.
pub open spec fn is_wsl_release(osrelease: Seq<char>) -> bool {
    contains(lower(osrelease), "microsoft"@) || contains(lower(osrelease), "wsl"@)
}

/// Whether the kernel release (`/proc/sys/kernel/osrelease`) is that of WSL:
/// it holds `microsoft` or `wsl` in any case.
pub fn is_wsl_from_release(osrelease: &str) -> (r: bool)
    ensures
        r == is_wsl_release(osrelease@),
{
    let l = to_ascii_lowercase(osrelease);
    contains_str(l.as_str(), "microsoft") || contains_str(l.as_str(), "wsl")
}

/// The backend for a target: macOS and Windows have their own; Linux uses the
/// Windows one under WSL and none otherwise; every other target has none.
pub open spec fn backend_of(os: TargetOs, wsl: bool) -> Backend {
    match os {
        TargetOs::MacOs => Backend::MacOs,
        TargetOs::Windows => Backend::Windows,
        TargetOs::Linux => if wsl {
            Backend::Windows
        } else {
            Backend::Unsupported
        },
        TargetOs::Other => Backend::Unsupported,
    }
}

pub fn backend_for(os: TargetOs, wsl: bool) -> (r: Backend)
    ensures
        r == backend_of(os, wsl),
{
    match os {
        TargetOs::MacOs => Backend::MacOs,
        TargetOs::Windows => Backend::Windows,
        TargetOs::Linux => if wsl {
            Backend::Windows
        } else {
            Backend::Unsupported
        },
        TargetOs::Other => Backend::Unsupported,
    }
}


/// A program to run, with its arguments.
#[derive(Debug)]
pub struct ProcessCommand {
    pub program: String,
    pub args: Vec<String>,
}

/// The texts of a list of strings.
pub open spec fn texts(v: Seq<String>) -> Seq<Seq<char>> {
    v.map_values(|s: String| s@)
}

/// `c` runs `program` with the arguments `args`.
pub open spec fn runs(c: ProcessCommand, program: Seq<char>, args: Seq<Seq<char>>) -> bool {
    c.program@ == program && texts(c.args@) == args
}

fn osascript(script: String) -> (r: ProcessCommand)
    ensures
        runs(r, "osascript"@, seq!["-e"@, script@]),
{
    let mut args: Vec<String> = Vec::new();
    args.push(owned("-e"));
    args.push(script);
    let r = ProcessCommand { program: owned("osascript"), args };
    assert(texts(r.args@) =~= seq!["-e"@, r.args@[1]@]);
    r
}

/// The command that tells whether the app runs: an AppleScript query on macOS,
/// `tasklist.exe` filtered on `Rhino.exe` on Windows; none where unsupported.
pub fn running_command(backend: Backend, app: &str) -> (r: Option<ProcessCommand>)
    ensures
        backend == Backend::MacOs ==> (r matches Some(c) && runs(
            c,
            "osascript"@,
            seq!["-e"@, "application \""@ + app@ + "\" is running"@],
        )),
        backend == Backend::Windows ==> (r matches Some(c) && c.program@ == "tasklist.exe"@ && texts(
            c.args@,
        ) == seq![
            "/FI"@,
            "IMAGENAME eq "@ + windows::RHINO_EXE_NAME@,
            "/FO"@,
            "CSV"@,
            "/NH"@,
        ]),
        backend == Backend::Unsupported ==> r is None,
{
    match backend {
        Backend::MacOs => Some(osascript(macos::running_script(app))),
        Backend::Windows => {
            let args = windows::tasklist_args();
            let r = ProcessCommand { program: owned("tasklist.exe"), args };
            assert(texts(r.args@) =~= seq![
                "/FI"@,
                "IMAGENAME eq "@ + windows::RHINO_EXE_NAME@,
                "/FO"@,
                "CSV"@,
                "/NH"@,
            ]);
            Some(r)
        },
        Backend::Unsupported => None,
    }
}

/// The command that asks the app to quit: an AppleScript `quit` on macOS,
/// `taskkill.exe /IM Rhino.exe` on Windows; none where unsupported.
pub fn quit_command(backend: Backend, app: &str) -> (r: Option<ProcessCommand>)
    ensures
        backend == Backend::MacOs ==> (r matches Some(c) && runs(
            c,
            "osascript"@,
            seq!["-e"@, "quit app \""@ + app@ + "\""@],
        )),
        backend == Backend::Windows ==> (r matches Some(c) && runs(
            c,
            "taskkill.exe"@,
            seq!["/IM"@, windows::RHINO_EXE_NAME@],
        )),
        backend == Backend::Unsupported ==> r is None,
{
    match backend {
        Backend::MacOs => Some(osascript(macos::quit_script(app))),
        Backend::Windows => {
            let args = windows::taskkill_args();
            let r = ProcessCommand { program: owned("taskkill.exe"), args };
            assert(texts(r.args@) =~= seq!["/IM"@, windows::RHINO_EXE_NAME@]);
            Some(r)
        },
        Backend::Unsupported => None,
    }
}

/// The command that starts the app with its startup script: `open -a` on
/// macOS, `Rhino.exe` at `exe` with `/runscript=` on Windows; none where
/// unsupported.
pub fn launch_command(backend: Backend, app: &str, script: Option<&str>, exe: &str) -> (r: Option<ProcessCommand>)
    ensures
        backend == Backend::MacOs ==> (r matches Some(c) && c.program@ == "open"@ && texts(c.args@)
            == match script {
            Some(s) => seq!["-a"@, app@, "--args"@, "-runscript"@, s@],
            None => seq!["-a"@, app@],
        }),
        backend == Backend::Windows ==> (r matches Some(c) && c.program@ == exe@ && texts(c.args@)
            == match script {
            Some(s) => seq!["/runscript="@ + s@],
            None => Seq::<Seq<char>>::empty(),
        }),
        backend == Backend::Unsupported ==> r is None,
{
    match backend {
        Backend::MacOs => {
            let args = macos::open_args(app, script);
            let r = ProcessCommand { program: owned("open"), args };
            proof {
                match script {
                    Some(s) => {
                        assert(texts(r.args@) =~= seq!["-a"@, app@, "--args"@, "-runscript"@, s@]);
                    },
                    None => {
                        assert(texts(r.args@) =~= seq!["-a"@, app@]);
                    },
                }
            }
            Some(r)
        },
        Backend::Windows => {
            let mut args: Vec<String> = Vec::new();
            match script {
                Some(s) => args.push(windows::runscript_arg(s)),
                None => {},
            }
            let r = ProcessCommand { program: owned(exe), args };
            proof {
                match script {
                    Some(s) => {
                        assert(texts(r.args@) =~= seq!["/runscript="@ + s@]);
                    },
                    None => {
                        assert(texts(r.args@) =~= Seq::<Seq<char>>::empty());
                    },
                }
            }
            Some(r)
        },
        Backend::Unsupported => None,
    }
}

/// Whether the app runs, from how the backend's query ran (see
/// [`running_command`]); where unsupported nothing runs and `run` is unused.
pub fn is_app_running(backend: Backend, app: &str, run: Result<ProcessOutput, String>) -> (r: Result<bool, CliError>)
    ensures
        backend == Backend::MacOs ==> macos::running_outcome(app@, run, r),
        backend == Backend::Windows ==> windows::running_outcome(run, r),
        backend == Backend::Unsupported ==> (r matches Err(CliError::Other(m)) && m@
            == "Rhino app state query is only supported on macOS, Windows, and WSL."@),
{
    match backend {
        Backend::MacOs => macos::is_app_running(app, run),
        Backend::Windows => windows::is_app_running(app, run),
        Backend::Unsupported => unsupported::is_app_running(app),
    }
}

/// What asking the app to quit came to, from how the backend's command ran
/// (see [`quit_command`]); where unsupported nothing runs and `run` is unused.
pub fn request_quit(backend: Backend, app: &str, run: Result<ProcessOutput, String>) -> (r: Result<(), CliError>)
    ensures
        backend == Backend::MacOs ==> macos::quit_outcome(app@, run, r),
        backend == Backend::Windows ==> windows::quit_outcome(run, r),
        backend == Backend::Unsupported ==> (r matches Err(CliError::Other(m)) && m@
            == "Rhino shutdown is only supported on macOS, Windows, and WSL."@),
{
    match backend {
        Backend::MacOs => macos::request_quit(app, run),
        Backend::Windows => windows::request_quit(app, run),
        Backend::Unsupported => unsupported::request_quit(app),
    }
}

/// How a launch command ran: `open` finished (macOS), or `Rhino.exe` at this
/// path was spawned or could not be (Windows).
#[derive(Debug)]
pub enum LaunchRun {
    Opened(Result<ProcessOutput, String>),
    Spawned(String, Result<(), String>),
}

/// What starting the app came to, from how the backend's launch command ran
/// (see [`launch_command`]); where unsupported nothing runs.
pub fn launch_app(backend: Backend, app: &str, run: LaunchRun) -> (r: Result<(), CliError>)
    ensures
        backend == Backend::Unsupported ==> (r matches Err(CliError::Other(m)) && m@
            == "Rhino launch is only supported on macOS, Windows, and WSL."@),
        backend != Backend::Unsupported ==> (run matches LaunchRun::Opened(o) ==> macos::open_outcome(
            "failed to launch "@,
            app@,
            o,
            r,
        )),
        backend != Backend::Unsupported ==> (run matches LaunchRun::Spawned(exe, s) ==> (match s {
            Ok(_) => r is Ok,
            Err(e) => r matches Err(CliError::Other(m)) && m@ == "failed to launch Rhino at "@ + exe@
                + ": "@ + e@,
        })),
{
    match backend {
        Backend::Unsupported => unsupported::launch_app(app, None),
        _ => match run {
            LaunchRun::Opened(o) => macos::launch_app(app, o),
            LaunchRun::Spawned(exe, s) => windows::launch_app(exe.as_str(), s),
        },
    }
}

/// Starts a window capture of `app` into `out`: on macOS the capture to drive
/// with [`macos::capture_step`], elsewhere the error that says capture is not
/// available there.
pub fn capture_window(
    backend: Backend,
    app: String,
    out: String,
    window_id: Option<u64>,
    activate: bool,
    no_shadow: bool,
) -> (r: Result<macos::Capture, CliError>)
    ensures
        backend == Backend::MacOs ==> (r matches Ok(c) && c.app == app && c.out == out && c.window_id
            == window_id && c.activate == activate && c.no_shadow == no_shadow && c.stage
            == macos::CaptureStage::Start),
        backend == Backend::Windows ==> (r matches Err(CliError::Other(m)) && m@
            == "Rhino window screenshot is not yet implemented on Windows."@),
        backend == Backend::Unsupported ==> (r matches Err(CliError::Other(m)) && m@
            == "Rhino window screenshot is only supported on macOS."@),
{
    // The Windows and unsupported backends always refuse; their `Ok` arms
    // below cannot be taken.
    match backend {
        Backend::MacOs => Ok(
            macos::Capture {
                app,
                out,
                window_id,
                activate,
                no_shadow,
                stage: macos::CaptureStage::Start,
            },
        ),
        Backend::Windows => match windows::capture_window(
            app.as_str(),
            out.as_str(),
            window_id,
            activate,
            no_shadow,
        ) {
            Err(e) => Err(e),
            Ok(()) => Err(CliError::Other(owned(""))),
        },
        Backend::Unsupported => match unsupported::capture_window(
            app.as_str(),
            out.as_str(),
            window_id,
            activate,
            no_shadow,
        ) {
            Err(e) => Err(e),
            Ok(()) => Err(CliError::Other(owned(""))),
        },
    }
}

} // verus!

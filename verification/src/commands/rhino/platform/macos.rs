//! The macOS backend: Rhino is started with `open -a`, asked about and asked to
//! quit with AppleScript through `osascript`, and captured with
//! `screencapture -l <window id>`.
use vstd::prelude::*;

use super::windows::{message_from, output_message};
use super::{runs, texts, ProcessCommand, ProcessOutput};
use crate::error::CliError;
use crate::text::{join, concat2, concat3, decimal, decimal_string, owned, starts_with, starts_with_str, str_eq, trim, trim_str};

verus! {

/// A window that CoreGraphics lists: its owner's name, its title (empty when it
/// has none), its layer and its number, when they could be read.
#[derive(Debug, Clone)]
pub struct WindowInfo {
    pub owner: String,
    pub title: String,
    pub layer: Option<i64>,
    pub number: Option<i64>,
}

/// A window owner belongs to the app: the same name, or, for an app whose name
/// begins with `Rhino`, an owner named `Rhinoceros` or beginning with `Rhino`.
pub open spec fn owner_matches(owner: Seq<char>, app: Seq<char>) -> bool {
    owner == app || (starts_with(app, "Rhino"@) && (owner == "Rhinoceros"@ || starts_with(
        owner,
        "Rhino"@,
    )))
}

pub fn owner_matches_app(owner: &str, app: &str) -> (r: bool)
    ensures
        r == owner_matches(owner@, app@),
{
    str_eq(owner, app) || (starts_with_str(app, "Rhino") && (str_eq(owner, "Rhinoceros")
        || starts_with_str(owner, "Rhino")))
}

/// A window that can be captured for the app: its owner matches, it is on the
/// normal layer 0, and its number is positive.
pub open spec fn capturable(w: WindowInfo, app: Seq<char>) -> bool {
    &&& owner_matches(w.owner@, app)
    &&& (match w.layer {
        Some(l) => l == 0,
        None => false,
    })
    &&& (w.number matches Some(n) && n > 0)
}

/// How a matching window is named in a message: `owner` or `owner: title`.
pub open spec fn window_label(w: WindowInfo) -> Seq<char> {
    if w.title@.len() == 0 {
        w.owner@
    } else {
        w.owner@ + ": "@ + w.title@
    }
}

/// The labels of the windows whose owner matches the app, in order.
pub open spec fn matching_labels(ws: Seq<WindowInfo>, app: Seq<char>) -> Seq<Seq<char>>
    decreases ws.len(),
{
    if ws.len() == 0 {
        Seq::empty()
    } else {
        let rest = matching_labels(ws.drop_last(), app);
        if owner_matches(ws.last().owner@, app) {
            rest.push(window_label(ws.last()))
        } else {
            rest
        }
    }
}

/// The message when no window of the app can be captured.
pub open spec fn no_window_text(ws: Seq<WindowInfo>, app: Seq<char>) -> Seq<char> {
    let labels = matching_labels(ws, app);
    "failed to find a visible "@ + app + " window id via CoreGraphics ("@ + (if labels.len() == 0 {
        "no matching owner windows were visible"@
    } else {
        "matching windows: "@ + join(labels, ", "@)
    }) + ")"@
}

/// The number of the first window of the app that can be captured.
pub fn select_window_id(app: &str, windows: &Vec<WindowInfo>) -> (r: Result<u64, CliError>)
    ensures
        r matches Ok(id) ==> exists|i: int|
            0 <= i < windows@.len() && capturable(windows@[i], app@) && (forall|j: int|
                0 <= j < i ==> !capturable(#[trigger] windows@[j], app@)) && (windows@[i].number matches Some(
                n) && n as int == id as int),
        r is Err <==> forall|i: int| 0 <= i < windows@.len() ==> !capturable(#[trigger] windows@[i], app@),
        r matches Err(e) ==> (e matches CliError::Other(m) && m@ == no_window_text(windows@, app@)),
{
    let mut labels: Vec<String> = Vec::new();
    let mut i: usize = 0;
    while i < windows.len()
        invariant
            i <= windows.len(),
            forall|j: int| 0 <= j < i ==> !capturable(#[trigger] windows@[j], app@),
            labels@.len() == matching_labels(windows@.subrange(0, i as int), app@).len(),
            forall|j: int| 0 <= j < labels@.len() ==> #[trigger] labels@[j]@ == matching_labels(
                windows@.subrange(0, i as int),
                app@,
            )[j],
        decreases windows.len() - i,
    {
        let w = &windows[i];
        let ghost pre = windows@.subrange(0, i as int);
        let ghost next = windows@.subrange(0, i + 1);
        assert(next.drop_last() =~= pre);
        assert(next.last() == windows@[i as int]);
        if owner_matches_app(w.owner.as_str(), app) {
            let label = if w.title.unicode_len() == 0 {
                owned(w.owner.as_str())
            } else {
                concat3(w.owner.as_str(), ": ", w.title.as_str())
            };
            labels.push(label);
            let layer = match w.layer {
                Some(l) => l,
                None => -1,
            };
            if layer == 0 {
                if let Some(n) = w.number {
                    if n > 0 {
                        return Ok(n as u64);
                    }
                }
            }
        }
        i = i + 1;
    }
    assert(windows@.subrange(0, windows@.len() as int) =~= windows@);
    let details = if labels.len() == 0 {
        owned("no matching owner windows were visible")
    } else {
        let mut joined = owned(labels[0].as_str());
        let mut k: usize = 1;
        let ghost ls = matching_labels(windows@, app@);
        assert(ls.subrange(0, 1) =~= seq![ls[0]]);
        while k < labels.len()
            invariant
                1 <= k <= labels.len(),
                labels@.len() == ls.len(),
                forall|j: int| 0 <= j < labels@.len() ==> #[trigger] labels@[j]@ == ls[j],
                joined@ == join(ls.subrange(0, k as int), ", "@),
            decreases labels.len() - k,
        {
            assert(ls.subrange(0, k + 1).drop_last() =~= ls.subrange(0, k as int));
            joined.append(", ");
            joined.append(labels[k].as_str());
            k = k + 1;
        }
        assert(ls.subrange(0, ls.len() as int) =~= ls);
        concat2("matching windows: ", joined.as_str())
    };
    let mut m = concat3("failed to find a visible ", app, " window id via CoreGraphics (");
    m.append(details.as_str());
    m.append(")");
    Err(CliError::Other(m))
}

/// The message of a failed command: its trimmed error output, else its
/// trimmed standard output, else its exit status.
pub fn command_output_message(output: &ProcessOutput) -> (r: String)
    ensures
        r@ == output_message(output.stderr@, output.stdout@, output.status@),
{
    message_from(output.stderr.as_str(), output.stdout.as_str(), owned(output.status.as_str()))
}

/// The arguments of `open` that start the app, passing the startup script
/// with `-runscript` when there is one.
pub fn open_args(app: &str, script: Option<&str>) -> (r: Vec<String>)
    ensures
        script is None ==> r@.len() == 2,
        script matches Some(s) ==> r@.len() == 5 && r@[2]@ == "--args"@ && r@[3]@ == "-runscript"@
            && r@[4]@ == s@,
        r@[0]@ == "-a"@,
        r@[1]@ == app@,
{
    let mut v = Vec::new();
    v.push(owned("-a"));
    v.push(owned(app));
    match script {
        Some(s) => {
            v.push(owned("--args"));
            v.push(owned("-runscript"));
            v.push(owned(s));
        },
        None => {},
    }
    v
}

/// The AppleScript that asks the app to quit.
pub fn quit_script(app: &str) -> (r: String)
    ensures
        r@ == "quit app \""@ + app@ + "\""@,
{
    concat3("quit app \"", app, "\"")
}

/// The AppleScript that tells whether the app runs.
pub fn running_script(app: &str) -> (r: String)
    ensures
        r@ == "application \""@ + app@ + "\" is running"@,
{
    concat3("application \"", app, "\" is running")
}

/// The arguments of `screencapture` for one window, without sound, and
/// without its shadow when asked.
pub fn screencapture_args(window_id: u64, no_shadow: bool, out: &str) -> (r: Vec<String>)
    ensures
        r@.len() == if no_shadow {
            5int
        } else {
            4int
        },
        r@[0]@ == "-x"@,
        no_shadow ==> r@[1]@ == "-o"@,
        r@[r@.len() - 3]@ == "-l"@,
        r@[r@.len() - 2]@ == decimal(window_id as nat),
        r@[r@.len() - 1]@ == out@,
{
    let mut v = Vec::new();
    v.push(owned("-x"));
    if no_shadow {
        v.push(owned("-o"));
    }
    v.push(owned("-l"));
    v.push(decimal_string(window_id));
    v.push(owned(out));
    v
}

/// What running a command that must succeed comes to: `what` names the action
/// in the message of a failure.
fn command_result(what: &str, app: &str, run: Result<ProcessOutput, String>) -> (r: Result<(), CliError>)
    ensures
        open_outcome(what@, app@, run, r),
{
    let out = match run {
        Ok(out) => out,
        Err(e) => {
            let mut m = concat3(what, app, ": ");
            m.append(e.as_str());
            return Err(CliError::Other(m));
        },
    };
    if out.success {
        return Ok(());
    }
    let msg = command_output_message(&out);
    let mut m = concat3(what, app, ": ");
    m.append(msg.as_str());
    Err(CliError::Other(m))
}

/// What running `open -a <app>` comes to, as `launch_app` and `activate_app`
/// report it: `what` names the action in the message of a failure.
pub open spec fn open_outcome(what: Seq<char>, app: Seq<char>, run: Result<ProcessOutput, String>, r: Result<(), CliError>) -> bool {
    match open_failure(what, app, run) {
        None => r is Ok,
        Some(m) => r matches Err(CliError::Other(x)) && x@ == m,
    }
}

/// Why running `open -a <app>` failed, or `None` when it succeeded.
pub open spec fn open_failure(what: Seq<char>, app: Seq<char>, run: Result<ProcessOutput, String>) -> Option<Seq<char>> {
    match run {
        Err(e) => Some(what + app + ": "@ + e@),
        Ok(out) => if out.success {
            None
        } else {
            Some(what + app + ": "@ + output_message(out.stderr@, out.stdout@, out.status@))
        },
    }
}

/// What starting the app with `open` comes to, given how `open` ran.
pub fn launch_app(app: &str, run: Result<ProcessOutput, String>) -> (r: Result<(), CliError>)
    ensures
        open_outcome("failed to launch "@, app@, run, r),
{
    command_result("failed to launch ", app, run)
}

/// What bringing the app to the front with `open` comes to.
pub fn activate_app(app: &str, run: Result<ProcessOutput, String>) -> (r: Result<(), CliError>)
    ensures
        open_outcome("failed to activate "@, app@, run, r),
{
    command_result("failed to activate ", app, run)
}

/// What asking the app to quit with AppleScript comes to.
pub open spec fn quit_outcome(app: Seq<char>, run: Result<ProcessOutput, String>, r: Result<(), CliError>) -> bool {
    match run {
        Err(e) => r matches Err(CliError::Other(m)) && m@ == "failed to ask "@ + app + " to quit: "@
            + e@,
        Ok(out) => if out.success {
            r is Ok
        } else {
            r matches Err(CliError::Other(m)) && m@ == "failed to ask "@ + app + " to quit: "@
                + output_message(out.stderr@, out.stdout@, out.status@)
        },
    }
}

/// What asking the app to quit comes to, given how `osascript` ran.
pub fn request_quit(app: &str, run: Result<ProcessOutput, String>) -> (r: Result<(), CliError>)
    ensures
        quit_outcome(app@, run, r),
{
    let out = match run {
        Ok(out) => out,
        Err(e) => {
            let mut m = concat3("failed to ask ", app, " to quit: ");
            m.append(e.as_str());
            return Err(CliError::Other(m));
        },
    };
    if out.success {
        return Ok(());
    }
    let msg = command_output_message(&out);
    let mut m = concat3("failed to ask ", app, " to quit: ");
    m.append(msg.as_str());
    Err(CliError::Other(m))
}

/// What the AppleScript answer to whether the app runs means: `true` or
/// `false` once trimmed; anything else, or a failed run, is an error.
pub open spec fn running_outcome(app: Seq<char>, run: Result<ProcessOutput, String>, r: Result<bool, CliError>) -> bool {
    match running_answer(app, run) {
        Ok(b) => r == Ok::<bool, CliError>(b),
        Err(m) => r matches Err(CliError::Other(x)) && x@ == m,
    }
}

/// The answer to whether the app runs, or the message of why there is none.
pub open spec fn running_answer(app: Seq<char>, run: Result<ProcessOutput, String>) -> Result<bool, Seq<char>> {
    match run {
        Err(e) => Err("failed to query "@ + app + " state: "@ + e@),
        Ok(out) => if !out.success {
            Err("failed to query "@ + app + " state: "@ + output_message(out.stderr@, out.stdout@, out.status@))
        } else if trim(out.stdout@) == "true"@ {
            Ok(true)
        } else if trim(out.stdout@) == "false"@ {
            Ok(false)
        } else {
            Err("unexpected app state response for "@ + app + ": "@ + trim(out.stdout@))
        },
    }
}

/// Whether the app runs, given how `osascript` answered.
pub fn is_app_running(app: &str, run: Result<ProcessOutput, String>) -> (r: Result<bool, CliError>)
    ensures
        running_outcome(app@, run, r),
{
    let out = match run {
        Ok(out) => out,
        Err(e) => {
            let mut m = concat3("failed to query ", app, " state: ");
            m.append(e.as_str());
            return Err(CliError::Other(m));
        },
    };
    if !out.success {
        let msg = command_output_message(&out);
        let mut m = concat3("failed to query ", app, " state: ");
        m.append(msg.as_str());
        return Err(CliError::Other(m));
    }
    let answer = trim_str(out.stdout.as_str());
    if str_eq(answer.as_str(), "true") {
        Ok(true)
    } else if str_eq(answer.as_str(), "false") {
        Ok(false)
    } else {
        let mut m = concat3("unexpected app state response for ", app, ": ");
        m.append(answer.as_str());
        Err(CliError::Other(m))
    }
}

/// The error when the app to capture does not run.
pub fn not_running_error(app: &str) -> (r: CliError)
    ensures
        r matches CliError::Connect(m) && m@ == app@ + " is not running"@,
{
    CliError::Connect(concat2(app, " is not running"))
}

/// Screen capture needs the Screen Recording permission; `granted` tells
/// whether it was found or given on request.
pub fn ensure_screen_capture_access(granted: bool) -> (r: Result<(), CliError>)
    ensures
        granted ==> r is Ok,
        !granted ==> (r matches Err(CliError::Other(m)) && m@
            == "macOS Screen Recording permission is required to capture the Rhino window. Grant permission to the terminal running rhino-cli, then retry."@),
{
    if granted {
        return Ok(());
    }
    Err(
        CliError::Other(
            owned(
                "macOS Screen Recording permission is required to capture the Rhino window. Grant permission to the terminal running rhino-cli, then retry.",
            ),
        ),
    )
}

/// Why a run of `screencapture` into `out` failed, or `None` when the file
/// was written.
pub open spec fn capture_failure(out: Seq<char>, run: Result<ProcessOutput, String>, created: bool) -> Option<Seq<char>> {
    match run {
        Err(e) => Some("failed to run screencapture: "@ + e@),
        Ok(o) => if o.success && created {
            None
        } else if o.success {
            Some("screencapture finished but did not create "@ + out
                + ". Check macOS Screen Recording permission for this terminal."@)
        } else {
            Some("screencapture failed: "@ + output_message(o.stderr@, o.stdout@, o.status@)
                + ". Check macOS Screen Recording permission for this terminal."@)
        },
    }
}

/// What a run of `screencapture` into `out` comes to, given how it ran and
/// whether the file exists afterwards.
pub fn capture_result(out: &str, run: Result<ProcessOutput, String>, created: bool) -> (r: Result<(), CliError>)
    ensures
        match capture_failure(out@, run, created) {
            None => r is Ok,
            Some(m) => r matches Err(CliError::Other(x)) && x@ == m,
        },
        run matches Err(e) ==> (r matches Err(CliError::Other(m)) && m@
            == "failed to run screencapture: "@ + e@),
        run matches Ok(o) ==> (r is Ok <==> (o.success && created)),
        run matches Ok(o) ==> (o.success && !created ==> (r matches Err(CliError::Other(m)) && m@
            == "screencapture finished but did not create "@ + out@
            + ". Check macOS Screen Recording permission for this terminal."@)),
        run matches Ok(o) ==> (!o.success ==> (r matches Err(CliError::Other(m)) && m@
            == "screencapture failed: "@ + output_message(o.stderr@, o.stdout@, o.status@)
            + ". Check macOS Screen Recording permission for this terminal."@)),
{
    let o = match run {
        Ok(o) => o,
        Err(e) => return Err(CliError::Other(concat2("failed to run screencapture: ", e.as_str()))),
    };
    if o.success && created {
        return Ok(());
    }
    if o.success {
        return Err(
            CliError::Other(
                concat3(
                    "screencapture finished but did not create ",
                    out,
                    ". Check macOS Screen Recording permission for this terminal.",
                ),
            ),
        );
    }
    let msg = command_output_message(&o);
    Err(
        CliError::Other(
            concat3(
                "screencapture failed: ",
                msg.as_str(),
                ". Check macOS Screen Recording permission for this terminal.",
            ),
        ),
    )
}


/// How long to let the app's window settle after it was brought to the
/// front, in milliseconds.
pub const ACTIVATE_SETTLE_MS: u64 = 500;

/// How long each command may run, in seconds.
pub const COMMAND_TIMEOUT_SECS: u64 = 15;

/// Where a window capture stands.
#[derive(Debug, Clone, Copy, PartialEq, Eq, Structural)]
pub enum CaptureStage {
    /// Nothing done yet.
    Start,
    /// Asked whether the app runs.
    QueryingApp,
    /// Asked for the Screen Recording permission.
    CheckingAccess,
    /// Asked the app to come to the front.
    Activating,
    /// Waiting for the app's window to settle.
    Settling,
    /// Asked for the windows on screen.
    Listing,
    /// Ran `screencapture`.
    Capturing,
    /// Finished.
    Finished,
}

/// A window capture of `app` into `out`: of window `window_id` when given,
/// else of the app's first capturable window, after bringing the app to the
/// front when `activate` is set.
#[derive(Debug)]
pub struct Capture {
    pub app: String,
    pub out: String,
    pub window_id: Option<u64>,
    pub activate: bool,
    pub no_shadow: bool,
    pub stage: CaptureStage,
}

/// What happened since the last action.
#[derive(Debug)]
pub enum CaptureEvent {
    /// The capture begins.
    Begin,
    /// The command of the last action ran, or could not be run.
    Ran(Result<ProcessOutput, String>),
    /// Whether the Screen Recording permission is granted, found or given on request.
    Access(bool),
    /// The wait is over.
    Waited,
    /// The windows on screen, or `None` when the list could not be read.
    Windows(Option<Vec<WindowInfo>>),
    /// `screencapture` ran, or could not be run; whether the output file exists afterwards.
    Captured(Result<ProcessOutput, String>, bool),
}

/// What to do next.
#[derive(Debug)]
pub enum CaptureAction {
    /// Run this command (within the command timeout) and report `Ran`.
    Run(ProcessCommand),
    /// Find out, or ask for, the Screen Recording permission and report `Access`.
    CheckAccess,
    /// Wait this many milliseconds and report `Waited`.
    Wait(u64),
    /// List the windows on screen and report `Windows`.
    ListWindows,
    /// Run this `screencapture` command and report `Captured`.
    Capture(ProcessCommand),
    /// The capture is over, with this outcome.
    Done(Result<(), CliError>),
}

/// The event that answers the action taken at each stage.
pub open spec fn event_fits(stage: CaptureStage, event: CaptureEvent) -> bool {
    match stage {
        CaptureStage::Start => event is Begin,
        CaptureStage::QueryingApp | CaptureStage::Activating => event is Ran,
        CaptureStage::CheckingAccess => event is Access,
        CaptureStage::Settling => event is Waited,
        CaptureStage::Listing => event is Windows,
        CaptureStage::Capturing => event is Captured,
        CaptureStage::Finished => false,
    }
}

/// The arguments of `screencapture` for window `id` of `cap`.
pub open spec fn capture_args(cap: Capture, id: u64) -> Seq<Seq<char>> {
    (if cap.no_shadow {
        seq!["-x"@, "-o"@]
    } else {
        seq!["-x"@]
    }) + seq!["-l"@, decimal(id as nat), cap.out@]
}

/// `a` captures window `id` of `cap`.
pub open spec fn captures(a: CaptureAction, cap: Capture, id: u64) -> bool {
    a matches CaptureAction::Capture(c) && runs(c, "screencapture"@, capture_args(cap, id))
}

/// `a` ends the capture with the error message `m`.
pub open spec fn fails_with(a: CaptureAction, m: Seq<char>) -> bool {
    a matches CaptureAction::Done(Err(CliError::Other(x))) && x@ == m
}

/// `i` is the first window of `ws` that can be captured for `app`.
pub open spec fn first_capturable(ws: Seq<WindowInfo>, app: Seq<char>, i: int) -> bool {
    &&& 0 <= i < ws.len()
    &&& capturable(ws[i], app)
    &&& forall|j: int| 0 <= j < i ==> !capturable(#[trigger] ws[j], app)
}

/// The settings of a capture are the same.
pub open spec fn same_capture(a: Capture, b: Capture) -> bool {
    a.app == b.app && a.out == b.out && a.window_id == b.window_id && a.activate == b.activate
        && a.no_shadow == b.no_shadow
}

/// The message when the Screen Recording permission is missing.
pub open spec fn access_denied_text() -> Seq<char> {
    "macOS Screen Recording permission is required to capture the Rhino window. Grant permission to the terminal running rhino-cli, then retry."@
}

fn screencapture(window_id: u64, no_shadow: bool, out: &str) -> (r: ProcessCommand)
    ensures
        runs(r, "screencapture"@, (if no_shadow {
            seq!["-x"@, "-o"@]
        } else {
            seq!["-x"@]
        }) + seq!["-l"@, decimal(window_id as nat), out@]),
{
    let args = screencapture_args(window_id, no_shadow, out);
    let r = ProcessCommand { program: owned("screencapture"), args };
    proof {
        let want = (if no_shadow {
            seq!["-x"@, "-o"@]
        } else {
            seq!["-x"@]
        }) + seq!["-l"@, decimal(window_id as nat), out@];
        assert(texts(r.args@) =~= want);
    }
    r
}

/// One step of a capture: given what happened, the next action. The app must
/// run, the permission be granted and a window be known before
/// `screencapture` runs; any failure ends the capture with its error.
/// One step of a capture: from `before`, on `event`, to `after`, taking
/// action `a`. The settings never change; the stage moves as the app is found
/// running, the permission granted, the app brought to the front, its window
/// found and captured, and any failure ends the capture with its error.
pub open spec fn capture_transition(before: Capture, event: CaptureEvent, after: Capture, a: CaptureAction) -> bool {
    let app = before.app@;
    &&& same_capture(after, before)
    &&& ((a is Capture) == (after.stage == CaptureStage::Capturing))
    &&& match before.stage {
        CaptureStage::Start => after.stage == CaptureStage::QueryingApp && (a matches CaptureAction::Run(c)
            && runs(c, "osascript"@, seq!["-e"@, "application \""@ + app + "\" is running"@])),
        CaptureStage::QueryingApp => event matches CaptureEvent::Ran(run) && match running_answer(
            app,
            run,
        ) {
            Ok(true) => after.stage == CaptureStage::CheckingAccess && a is CheckAccess,
            Ok(false) => after.stage == CaptureStage::Finished && (a matches CaptureAction::Done(
                Err(CliError::Connect(m)),
            ) && m@ == app + " is not running"@),
            Err(m) => after.stage == CaptureStage::Finished && fails_with(a, m),
        },
        CaptureStage::CheckingAccess => event matches CaptureEvent::Access(g) && if !g {
            after.stage == CaptureStage::Finished && fails_with(a, access_denied_text())
        } else {
            match before.window_id {
                Some(id) => after.stage == CaptureStage::Capturing && captures(a, before, id),
                None => if before.activate {
                    after.stage == CaptureStage::Activating && (a matches CaptureAction::Run(c) && runs(
                        c,
                        "open"@,
                        seq!["-a"@, app],
                    ))
                } else {
                    after.stage == CaptureStage::Listing && a is ListWindows
                },
            }
        },
        CaptureStage::Activating => event matches CaptureEvent::Ran(run) && match open_failure(
            "failed to activate "@,
            app,
            run,
        ) {
            None => after.stage == CaptureStage::Settling && a == CaptureAction::Wait(ACTIVATE_SETTLE_MS),
            Some(m) => after.stage == CaptureStage::Finished && fails_with(a, m),
        },
        CaptureStage::Settling => after.stage == CaptureStage::Listing && a is ListWindows,
        CaptureStage::Listing => event matches CaptureEvent::Windows(listed) && match listed {
            None => after.stage == CaptureStage::Finished && fails_with(
                a,
                "failed to read macOS window list from CoreGraphics"@,
            ),
            Some(ws) => (forall|i: int|
                first_capturable(ws@, app, i) ==> after.stage == CaptureStage::Capturing && captures(
                    a,
                    before,
                    ws@[i].number->Some_0 as u64,
                )) && ((forall|i: int| 0 <= i < ws@.len() ==> !capturable(#[trigger] ws@[i], app))
                ==> after.stage == CaptureStage::Finished && fails_with(a, no_window_text(ws@, app))),
        },
        CaptureStage::Capturing => event matches CaptureEvent::Captured(run, created) && after.stage
            == CaptureStage::Finished && match capture_failure(before.out@, run, created) {
            None => a matches CaptureAction::Done(Ok(())),
            Some(m) => fails_with(a, m),
        },
        CaptureStage::Finished => false,
    }
}

pub fn capture_step(cap: &mut Capture, event: CaptureEvent) -> (a: CaptureAction)
    requires
        event_fits(old(cap).stage, event),
    ensures
        capture_transition(*old(cap), event, *final(cap), a),
{
    match event {
        CaptureEvent::Begin => {
            cap.stage = CaptureStage::QueryingApp;
            let script = running_script(cap.app.as_str());
            let mut args: Vec<String> = Vec::new();
            args.push(owned("-e"));
            args.push(script);
            let c = ProcessCommand { program: owned("osascript"), args };
            assert(texts(c.args@) =~= seq!["-e"@, "application \""@ + cap.app@ + "\" is running"@]);
            CaptureAction::Run(c)
        },
        CaptureEvent::Ran(run) => {
            if cap.stage == CaptureStage::QueryingApp {
                match is_app_running(cap.app.as_str(), run) {
                    Ok(true) => {
                        cap.stage = CaptureStage::CheckingAccess;
                        CaptureAction::CheckAccess
                    },
                    Ok(false) => {
                        cap.stage = CaptureStage::Finished;
                        CaptureAction::Done(Err(not_running_error(cap.app.as_str())))
                    },
                    Err(e) => {
                        cap.stage = CaptureStage::Finished;
                        CaptureAction::Done(Err(e))
                    },
                }
            } else {
                match activate_app(cap.app.as_str(), run) {
                    Ok(()) => {
                        cap.stage = CaptureStage::Settling;
                        CaptureAction::Wait(ACTIVATE_SETTLE_MS)
                    },
                    Err(e) => {
                        cap.stage = CaptureStage::Finished;
                        CaptureAction::Done(Err(e))
                    },
                }
            }
        },
        CaptureEvent::Access(granted) => {
            match ensure_screen_capture_access(granted) {
                Err(e) => {
                    cap.stage = CaptureStage::Finished;
                    return CaptureAction::Done(Err(e));
                },
                Ok(()) => {},
            }
            match cap.window_id {
                Some(id) => {
                    cap.stage = CaptureStage::Capturing;
                    CaptureAction::Capture(screencapture(id, cap.no_shadow, cap.out.as_str()))
                },
                None => if cap.activate {
                    cap.stage = CaptureStage::Activating;
                    let args = open_args(cap.app.as_str(), None);
                    let c = ProcessCommand { program: owned("open"), args };
                    assert(texts(c.args@) =~= seq!["-a"@, cap.app@]);
                    CaptureAction::Run(c)
                } else {
                    cap.stage = CaptureStage::Listing;
                    CaptureAction::ListWindows
                },
            }
        },
        CaptureEvent::Waited => {
            cap.stage = CaptureStage::Listing;
            CaptureAction::ListWindows
        },
        CaptureEvent::Windows(listed) => {
            let ws = match listed {
                None => {
                    cap.stage = CaptureStage::Finished;
                    return CaptureAction::Done(
                        Err(CliError::Other(owned("failed to read macOS window list from CoreGraphics"))),
                    );
                },
                Some(ws) => ws,
            };
            match select_window_id(cap.app.as_str(), &ws) {
                Ok(id) => {
                    proof {
                        let k = choose|k: int|
                            0 <= k < ws@.len() && capturable(ws@[k], cap.app@) && (forall|j: int|
                                0 <= j < k ==> !capturable(#[trigger] ws@[j], cap.app@))
                                && (ws@[k].number matches Some(n) && n as int == id as int);
                        assert forall|i: int| first_capturable(ws@, cap.app@, i) implies i == k by {
                            if i < k {
                                assert(!capturable(ws@[i], cap.app@));
                            }
                            if k < i {
                                assert(!capturable(ws@[k], cap.app@));
                            }
                        }
                    }
                    cap.stage = CaptureStage::Capturing;
                    CaptureAction::Capture(screencapture(id, cap.no_shadow, cap.out.as_str()))
                },
                Err(e) => {
                    cap.stage = CaptureStage::Finished;
                    CaptureAction::Done(Err(e))
                },
            }
        },
        CaptureEvent::Captured(run, created) => {
            cap.stage = CaptureStage::Finished;
            CaptureAction::Done(capture_result(cap.out.as_str(), run, created))
        },
    }
}


/// A run of a capture from its start: `states[i]` steps on `events[i]` to
/// `states[i + 1]`, taking `actions[i]`.
pub open spec fn capture_run(states: Seq<Capture>, events: Seq<CaptureEvent>, actions: Seq<CaptureAction>) -> bool {
    &&& states.len() == events.len() + 1
    &&& actions.len() == events.len()
    &&& states[0].stage == CaptureStage::Start
    &&& forall|i: int|
        0 <= i < events.len() ==> #[trigger] capture_transition(
            states[i],
            events[i],
            states[i + 1],
            actions[i],
        )
}

/// At step `q` of a run the app was reported running.
pub open spec fn found_running(states: Seq<Capture>, events: Seq<CaptureEvent>, q: int) -> bool {
    &&& 0 <= q < events.len()
    &&& states[q].stage == CaptureStage::QueryingApp
    &&& events[q] matches CaptureEvent::Ran(run) && running_answer(states[q].app@, run) == Ok::<
        bool,
        Seq<char>,
    >(true)
}

/// At step `g` of a run the Screen Recording permission was granted.
pub open spec fn granted_at(states: Seq<Capture>, events: Seq<CaptureEvent>, g: int) -> bool {
    &&& 0 <= g < events.len()
    &&& states[g].stage == CaptureStage::CheckingAccess
    &&& events[g] matches CaptureEvent::Access(true)
}

spec fn past_query(stage: CaptureStage) -> bool {
    stage == CaptureStage::CheckingAccess || past_access(stage)
}

spec fn past_access(stage: CaptureStage) -> bool {
    stage == CaptureStage::Activating || stage == CaptureStage::Settling || stage
        == CaptureStage::Listing || stage == CaptureStage::Capturing
}

proof fn lemma_capture_history(states: Seq<Capture>, events: Seq<CaptureEvent>, actions: Seq<CaptureAction>, i: int)
    requires
        capture_run(states, events, actions),
        0 <= i < states.len(),
    ensures
        past_query(states[i].stage) ==> exists|q: int| q < i && #[trigger] found_running(states, events, q),
        past_access(states[i].stage) ==> exists|g: int| g < i && #[trigger] granted_at(states, events, g),
    decreases i,
{
    if i > 0 {
        let p = i - 1;
        lemma_capture_history(states, events, actions, p);
        assert(capture_transition(states[p], events[p], states[p + 1], actions[p]));
        assert(states[p + 1] == states[i]);
        if states[p].stage == CaptureStage::QueryingApp && past_query(states[i].stage) {
            assert(found_running(states, events, p));
        }
        if states[p].stage == CaptureStage::CheckingAccess && past_access(states[i].stage) {
            assert(granted_at(states, events, p));
        }
    }
}

/// `screencapture` runs only after the app was reported running and then the
/// Screen Recording permission was granted.
pub proof fn lemma_capture_needs_running_app_and_access(
    states: Seq<Capture>,
    events: Seq<CaptureEvent>,
    actions: Seq<CaptureAction>,
    k: int,
)
    requires
        capture_run(states, events, actions),
        0 <= k < actions.len(),
        actions[k] is Capture,
    ensures
        exists|q: int, g: int|
            0 <= q < g <= k && #[trigger] found_running(states, events, q) && #[trigger] granted_at(
                states,
                events,
                g,
            ),
{
    assert(capture_transition(states[k], events[k], states[k + 1], actions[k]));
    lemma_capture_history(states, events, actions, k + 1);
    let g = choose|g: int| g < k + 1 && #[trigger] granted_at(states, events, g);
    lemma_capture_history(states, events, actions, g);
    let q = choose|q: int| q < g && #[trigger] found_running(states, events, q);
    assert(found_running(states, events, q) && granted_at(states, events, g));
}

} // verus!

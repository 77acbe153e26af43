//! The backend for hosts where Rhino cannot be automated.
use vstd::prelude::*;

use crate::error::CliError;
use crate::text::owned;

verus! {

pub fn launch_app(app: &str, script: Option<&str>) -> (r: Result<(), CliError>)
    ensures
        r matches Err(CliError::Other(m)) && m@
            == "Rhino launch is only supported on macOS, Windows, and WSL."@,
{
    Err(CliError::Other(owned("Rhino launch is only supported on macOS, Windows, and WSL.")))
}

pub fn request_quit(app: &str) -> (r: Result<(), CliError>)
    ensures
        r matches Err(CliError::Other(m)) && m@
            == "Rhino shutdown is only supported on macOS, Windows, and WSL."@,
{
    Err(CliError::Other(owned("Rhino shutdown is only supported on macOS, Windows, and WSL.")))
}

pub fn is_app_running(app: &str) -> (r: Result<bool, CliError>)
    ensures
        r matches Err(CliError::Other(m)) && m@
            == "Rhino app state query is only supported on macOS, Windows, and WSL."@,
{
    Err(
        CliError::Other(
            owned("Rhino app state query is only supported on macOS, Windows, and WSL."),
        ),
    )
}

pub fn capture_window(
    app: &str,
    out: &str,
    window_id: Option<u64>,
    activate: bool,
    no_shadow: bool,
) -> (r: Result<(), CliError>)
    ensures
        r matches Err(CliError::Other(m)) && m@ == "Rhino window screenshot is only supported on macOS."@,
{
    Err(CliError::Other(owned("Rhino window screenshot is only supported on macOS.")))
}

} // verus!

//! `plugin set-port` and `plugin show-config`: the launch configuration of the
//! bundled RhinoCliPlugin.
use vstd::prelude::*;

use crate::commands::output::{line, push_line, push_line2};
use crate::commands::rhino::platform::TargetOs;
use crate::error::CliError;
use crate::json::{lookup, object_insert, Json, Number};
use crate::text::{concat2, concat3, decimal, decimal_string, owned};

verus! {

/// A port must be in 1-65535.
pub fn validate_port(port: u16) -> (r: Result<(), CliError>)
    ensures
        r is Ok <==> port != 0,
        r matches Err(e) ==> (e matches CliError::InvalidInput(m) && m@ == "port must be in 1-65535"@),
{
    if port == 0 {
        return Err(CliError::InvalidInput(owned("port must be in 1-65535")));
    }
    Ok(())
}

/// The launch configuration that sets the plugin's port: `{"port": <port>}`.
pub fn port_config(port: u16) -> (r: Json)
    ensures
        r matches Json::Object(es) && es@.len() == 1 && lookup(es@, "port"@) == Some(
            Json::Number(Number::Unsigned(port as u64)),
        ),
{
    let mut es: Vec<(String, Json)> = Vec::new();
    object_insert(&mut es, owned("port"), Json::Number(Number::Unsigned(port as u64)));
    Json::Object(es)
}

/// The components of the configuration file's path: the base directory, then
/// the directories below it and the file name.
pub open spec fn config_parts(os: TargetOs, base: Seq<char>) -> Seq<Seq<char>> {
    match os {
        TargetOs::MacOs => seq![base, "Library"@, "Application Support"@, "rhino-cli"@, "RhinoCliPlugin"@, "config.json"@],
        TargetOs::Windows => seq![base, "rhino-cli"@, "RhinoCliPlugin"@, "config.json"@],
        _ => seq![base, ".config"@, "rhino-cli"@, "RhinoCliPlugin"@, "config.json"@],
    }
}

/// Where the plugin's configuration file lives, as path components: under
/// `APPDATA` on Windows, under `HOME` elsewhere (in `Library/Application
/// Support` on macOS, in `.config` on other systems).
pub fn config_path_parts(os: TargetOs, home: Option<String>, appdata: Option<String>) -> (r: Result<Vec<String>, CliError>)
    ensures
        os == TargetOs::Windows ==> match appdata {
            Some(a) => r matches Ok(v) && v@.map_values(|s: String| s@) == config_parts(os, a@),
            None => r matches Err(CliError::Other(m)) && m@ == "APPDATA is not set"@,
        },
        os != TargetOs::Windows ==> match home {
            Some(h) => r matches Ok(v) && v@.map_values(|s: String| s@) == config_parts(os, h@),
            None => r matches Err(CliError::Other(m)) && m@ == "HOME is not set"@,
        },
{
    let mut v: Vec<String> = Vec::new();
    match os {
        TargetOs::Windows => {
            let a = match appdata {
                Some(a) => a,
                None => return Err(CliError::Other(owned("APPDATA is not set"))),
            };
            v.push(a);
            v.push(owned("rhino-cli"));
            v.push(owned("RhinoCliPlugin"));
            v.push(owned("config.json"));
        },
        TargetOs::MacOs => {
            let h = match home {
                Some(h) => h,
                None => return Err(CliError::Other(owned("HOME is not set"))),
            };
            v.push(h);
            v.push(owned("Library"));
            v.push(owned("Application Support"));
            v.push(owned("rhino-cli"));
            v.push(owned("RhinoCliPlugin"));
            v.push(owned("config.json"));
        },
        _ => {
            let h = match home {
                Some(h) => h,
                None => return Err(CliError::Other(owned("HOME is not set"))),
            };
            v.push(h);
            v.push(owned(".config"));
            v.push(owned("rhino-cli"));
            v.push(owned("RhinoCliPlugin"));
            v.push(owned("config.json"));
        },
    }
    assert(v@.map_values(|s: String| s@) =~= config_parts(os, v@[0]@));
    Ok(v)
}

/// The error when the configuration directory cannot be created.
pub fn config_dir_error(dir: &str, reason: &str) -> (r: CliError)
    ensures
        r matches CliError::Other(m) && m@ == "failed to create RhinoCliPlugin config directory "@ + dir@
            + ": "@ + reason@,
{
    let mut m = concat3("failed to create RhinoCliPlugin config directory ", dir, ": ");
    m.append(reason);
    CliError::Other(m)
}

/// The error when the configuration file cannot be written.
pub fn config_write_error(path: &str, reason: &str) -> (r: CliError)
    ensures
        r matches CliError::Other(m) && m@ == "failed to write RhinoCliPlugin launch config "@ + path@
            + ": "@ + reason@,
{
    let mut m = concat3("failed to write RhinoCliPlugin launch config ", path, ": ");
    m.append(reason);
    CliError::Other(m)
}

/// The error when the configuration file cannot be read.
pub fn config_read_error(path: &str, reason: &str) -> (r: CliError)
    ensures
        r matches CliError::Other(m) && m@ == "failed to read RhinoCliPlugin config "@ + path@ + ": "@
            + reason@,
{
    let mut m = concat3("failed to read RhinoCliPlugin config ", path, ": ");
    m.append(reason);
    CliError::Other(m)
}

/// What `plugin set-port` prints once the configuration is written.
pub fn set_port_text(quiet: bool, port: u16, path: &str) -> (r: String)
    ensures
        quiet ==> r@.len() == 0,
        !quiet ==> r@ == line("RhinoCliPlugin port set to "@ + decimal(port as nat)
            + ". Restart Rhino to apply ("@ + path@ + ")"@),
{
    proof {
        reveal_strlit("");
    }
    let mut out = owned("");
    if !quiet {
        let p = decimal_string(port as u64);
        let mut m = concat3("RhinoCliPlugin port set to ", p.as_str(), ". Restart Rhino to apply (");
        m.append(path);
        m.append(")");
        push_line(&mut out, m.as_str());
    }
    out
}

/// The text ends with a line feed.
pub open spec fn ends_with_newline(s: Seq<char>) -> bool {
    s.len() > 0 && s.last() == '\n'
}

/// What `plugin show-config` prints: the path and the file's content, ending
/// with a line feed; or, without a file, where it would be and what the
/// plugin falls back to. Nothing when quiet.
pub fn show_config_text(quiet: bool, path: &str, content: Option<&str>) -> (r: String)
    ensures
        quiet ==> r@.len() == 0,
        !quiet && content is None ==> r@ == line("no RhinoCliPlugin config at "@ + path@) + line(
            "plugin falls back to RHINO_CLI_PORT env var or the default port"@,
        ),
        !quiet ==> (content matches Some(c) ==> r@ == line(path@) + c@ + (if ends_with_newline(c@) {
            Seq::empty()
        } else {
            line(Seq::empty())
        })),
{
    proof {
        reveal_strlit("");
        assert(""@ =~= Seq::<char>::empty());
    }
    let mut out = owned("");
    if quiet {
        return out;
    }
    match content {
        None => {
            push_line2(&mut out, "no RhinoCliPlugin config at ", path);
            push_line(&mut out, "plugin falls back to RHINO_CLI_PORT env var or the default port");
        },
        Some(c) => {
            push_line(&mut out, path);
            out.append(c);
            let cs = crate::text::chars_of(c);
            if !(cs.len() > 0 && cs[cs.len() - 1] == '\n') {
                push_line(&mut out, "");
            } else {
                assert(out@ + Seq::<char>::empty() =~= out@);
            }
        },
    }
    out
}

} // verus!

//! The Windows backend (also used under WSL): `Rhino.exe` is found under
//! `C:\Program Files\Rhino <N>\System`, asked to quit with `taskkill.exe`, and
//! looked for with `tasklist.exe`.
use vstd::prelude::*;

use super::ProcessOutput;
use crate::error::CliError;
use crate::text::{occurs_at, lemma_decimal_digits, lemma_digit_prefix, is_ws, all_digits, chars_of, concat2, concat3, contains, contains_str, decimal, decimal_string, digit_prefix, digit_run_end, digits_value, digits_value_upto, find_str, first_occurrence, is_ascii_alpha, lemma_first_occurrence, lower, lower_char, owned, replace_char, replace_then_strip, segments, split_newlines, starts_with, starts_with_str, string_of, strip_leading, to_ascii_lowercase, to_lower_char, trim, trim_start, trim_start_str, trim_str};

verus! {

pub const RHINO_EXE_ENV: &'static str = "RHINO_CLI_RHINO_EXE";

pub const RHINO_EXE_NAME: &'static str = "Rhino.exe";

/// The path that WSL opens for a Windows path: `C:\a\b` (or `c:/a/b`) becomes
/// `/mnt/c/a/b`; absolute Unix paths and every other form are kept as they are.
pub open spec fn wsl_path(p: Seq<char>) -> Seq<char> {
    if p.len() > 0 && p[0] == '/' {
        p
    } else if p.len() >= 2 && p[1] == ':' && is_ascii_alpha(p[0]) {
        let rest_raw = if p.len() >= 3 && (p[2] == '\\' || p[2] == '/') {
            p.subrange(3, p.len() as int)
        } else {
            p.subrange(2, p.len() as int)
        };
        let rest = strip_leading(replace_char(rest_raw, '\\', '/'), '/');
        if rest.len() == 0 {
            "/mnt/"@ + seq![lower_char(p[0])]
        } else {
            "/mnt/"@ + seq![lower_char(p[0])] + "/"@ + rest
        }
    } else {
        p
    }
}

/// An absolute Unix path (`/mnt/...` among them) is kept as it is, so
/// converting a path a second time changes nothing.
pub proof fn lemma_wsl_path_idempotent(p: Seq<char>)
    ensures
        p.len() > 0 && p[0] == '/' ==> wsl_path(p) == p,
        wsl_path(wsl_path(p)) == wsl_path(p),
{
    reveal_strlit("/mnt/");
    if !(p.len() > 0 && p[0] == '/') && p.len() >= 2 && p[1] == ':' && is_ascii_alpha(p[0]) {
        assert(wsl_path(p)[0] == '/');
    }
}

/// Converts a Windows-style path to the path WSL opens.
pub fn convert_windows_to_wsl(path: &str) -> (r: String)
    ensures
        r@ == wsl_path(path@),
{
    let v = chars_of(path);
    if v.len() > 0 && v[0] == '/' {
        return owned(path);
    }
    if v.len() >= 2 && v[1] == ':' && (('a' <= v[0] && v[0] <= 'z') || ('A' <= v[0] && v[0]
        <= 'Z')) {
        let from: usize = if v.len() >= 3 && (v[2] == '\\' || v[2] == '/') {
            3
        } else {
            2
        };
        let rest = replace_then_strip(&v, from, '\\', '/', '/');
        let drive = to_lower_char(v[0]);
        let mut out: Vec<char> = Vec::new();
        out.push('/');
        out.push('m');
        out.push('n');
        out.push('t');
        out.push('/');
        out.push(drive);
        proof {
            reveal_strlit("/mnt/");
            reveal_strlit("/");
        }
        if rest.len() == 0 {
            assert(out@ =~= "/mnt/"@ + seq![drive]);
            return string_of(&out);
        }
        out.push('/');
        let ghost head = out@;
        let mut i: usize = 0;
        while i < rest.len()
            invariant
                i <= rest.len(),
                out@ == head + rest@.subrange(0, i as int),
            decreases rest.len() - i,
        {
            out.push(rest[i]);
            i = i + 1;
            assert(out@ =~= head + rest@.subrange(0, i as int));
        }
        assert(out@ =~= "/mnt/"@ + seq![drive] + "/"@ + rest@);
        return string_of(&out);
    }
    owned(path)
}

/// The path this host opens for a Windows path: converted for WSL on Linux,
/// kept as it is elsewhere.
pub fn normalize_path(path: &str, on_linux: bool) -> (r: String)
    ensures
        r@ == if on_linux {
            wsl_path(path@)
        } else {
            path@
        },
{
    if on_linux {
        convert_windows_to_wsl(path)
    } else {
        owned(path)
    }
}

/// The digits that follow `Rhino` at position `i`: after optional
/// whitespace, the run of ASCII digits (possibly empty).
pub open spec fn version_digits(app: Seq<char>, i: int) -> Seq<char> {
    digit_prefix(trim_start(app.subrange(i + 5, app.len() as int)))
}

/// `Rhino` (in this case) stands at `i` and is followed, after optional
/// whitespace, by at least one digit: a match of `Rhino\s*(\d+)`.
pub open spec fn version_at(app: Seq<char>, i: int) -> bool {
    occurs_at(app, "Rhino"@, i) && version_digits(app, i).len() > 0
}

/// `i` is the first position of such a match.
pub open spec fn first_version_at(app: Seq<char>, i: int) -> bool {
    version_at(app, i) && forall|j: int| 0 <= j < i ==> !#[trigger] version_at(app, j)
}

/// The major version an app name asks for: the number of the first match of
/// `Rhino\s*(\d+)`, when it fits a `u32`; none without a match.
pub open spec fn rhino_version(app: Seq<char>) -> Option<u32> {
    if exists|i: int| first_version_at(app, i) {
        let d = version_digits(app, choose|i: int| first_version_at(app, i));
        if digits_value(d) <= u32::MAX {
            Some(digits_value(d) as u32)
        } else {
            None
        }
    } else {
        None
    }
}

proof fn lemma_first_version_unique(app: Seq<char>, i: int)
    requires
        first_version_at(app, i),
    ensures
        (choose|k: int| first_version_at(app, k)) == i,
{
    let k = choose|k: int| first_version_at(app, k);
    assert(first_version_at(app, k));
    if k < i {
        assert(!version_at(app, k));
    }
    if i < k {
        assert(!version_at(app, i));
    }
}

/// An app name `Rhino <N>` asks for version `N`, for every `N` that fits a `u32`.
pub proof fn lemma_version_of_rhino_name(v: u32)
    ensures
        rhino_version("Rhino "@ + decimal(v as nat)) == Some(v),
{
    reveal_strlit("Rhino ");
    reveal_strlit("Rhino");
    let d = decimal(v as nat);
    lemma_decimal_digits(v as nat);
    let a = "Rhino "@ + d;
    assert(a.subrange(0, 5) =~= "Rhino"@);
    let rest = a.subrange(5, a.len() as int);
    assert(rest =~= seq![' '] + d);
    assert(is_ws(' '));
    assert(rest.drop_first() =~= d);
    assert(!is_ws(d[0]));
    assert(trim_start(d) == d);
    assert(trim_start(rest) == d);
    lemma_digit_prefix(d, d.len() as int);
    assert(d.subrange(0, d.len() as int) =~= d);
    assert(version_at(a, 0));
    assert(first_version_at(a, 0));
    lemma_first_version_unique(a, 0);
}

fn rest_trimmed(v: &Vec<char>, start: usize) -> (r: Vec<char>)
    requires
        start <= v.len(),
    ensures
        r@ == trim_start(v@.subrange(start as int, v@.len() as int)),
{
    let mut tail: Vec<char> = Vec::new();
    let mut i = start;
    while i < v.len()
        invariant
            start <= i <= v.len(),
            tail@ == v@.subrange(start as int, i as int),
        decreases v.len() - i,
    {
        tail.push(v[i]);
        i = i + 1;
        assert(tail@ =~= v@.subrange(start as int, i as int));
    }
    let rest = trim_start_str(string_of(&tail).as_str());
    chars_of(rest.as_str())
}

/// Reads the Rhino major version out of an app name such as `Rhino 8`.
pub fn parse_rhino_version(app: &str) -> (r: Option<u32>)
    ensures
        r == rhino_version(app@),
{
    proof {
        reveal_strlit("Rhino");
        assert("Rhino"@ =~= seq!['R', 'h', 'i', 'n', 'o']);
    }
    let v = chars_of(app);
    let mut i: usize = 0;
    while v.len() >= 5 && i <= v.len() - 5
        invariant
            v@ == app@,
            "Rhino"@ == seq!['R', 'h', 'i', 'n', 'o'],
            forall|j: int| 0 <= j < i ==> !#[trigger] version_at(app@, j),
        decreases v.len() - i,
    {
        let here = v[i] == 'R' && v[i + 1] == 'h' && v[i + 2] == 'i' && v[i + 3] == 'n' && v[i
            + 4] == 'o';
        if here {
            assert(app@.subrange(i as int, i + 5) =~= "Rhino"@);
        } else {
            assert(!occurs_at(app@, "Rhino"@, i as int)) by {
                if occurs_at(app@, "Rhino"@, i as int) {
                    assert(app@.subrange(i as int, i + 5) == "Rhino"@);
                    assert(app@.subrange(i as int, i + 5)[0] == app@[i as int]);
                    assert(app@.subrange(i as int, i + 5)[1] == app@[i + 1]);
                    assert(app@.subrange(i as int, i + 5)[2] == app@[i + 2]);
                    assert(app@.subrange(i as int, i + 5)[3] == app@[i + 3]);
                    assert(app@.subrange(i as int, i + 5)[4] == app@[i + 4]);
                }
            }
        }
        if here {
            let rv = rest_trimmed(&v, i + 5);
            let end = digit_run_end(&rv, 0);
            assert(rv@.subrange(0, rv@.len() as int) =~= rv@);
            if end > 0 {
                proof {
                    assert(version_at(app@, i as int));
                    assert(first_version_at(app@, i as int));
                    lemma_first_version_unique(app@, i as int);
                }
                return match digits_value_upto(&rv, 0, end, 4294967295) {
                    Some(n) => Some(n as u32),
                    None => None,
                };
            }
        }
        i = i + 1;
    }
    proof {
        assert forall|j: int| 0 <= j implies !#[trigger] version_at(app@, j) by {
            if j >= i {
                assert(!occurs_at(app@, "Rhino"@, j));
            }
        }
        assert(!exists|k: int| first_version_at(app@, k));
    }
    None
}

/// The Rhino versions to look for, in order: the one the app name asks for,
/// then 8 and 7 when not already listed.
pub open spec fn candidate_versions(app: Seq<char>) -> Seq<u32> {
    let first: Seq<u32> = match rhino_version(app) {
        Some(v) => seq![v],
        None => Seq::empty(),
    };
    let with8 = if first.contains(8) {
        first
    } else {
        first.push(8)
    };
    if with8.contains(7) {
        with8
    } else {
        with8.push(7)
    }
}

/// The versions are tried once each, in this order: the one the app name
/// asks for, then 8, then 7.
pub proof fn lemma_candidate_order(app: Seq<char>)
    ensures
        match rhino_version(app) {
            None => candidate_versions(app) == seq![8u32, 7u32],
            Some(v) => if v == 8 {
                candidate_versions(app) == seq![8u32, 7u32]
            } else if v == 7 {
                candidate_versions(app) == seq![7u32, 8u32]
            } else {
                candidate_versions(app) == seq![v, 8u32, 7u32]
            },
        },
{
    match rhino_version(app) {
        None => {
            assert(!Seq::<u32>::empty().contains(8));
            assert(seq![8u32][0] == 8);
            assert(!seq![8u32].contains(7));
            assert(Seq::<u32>::empty().push(8).push(7) =~= seq![8u32, 7u32]);
        },
        Some(v) => {
            let f = seq![v];
            assert(f[0] == v);
            if v == 8 {
                assert(f.contains(8));
                assert(!f.contains(7));
                assert(f.push(7) =~= seq![8u32, 7u32]);
            } else if v == 7 {
                assert(f.contains(7));
                assert(!f.contains(8));
                let g = f.push(8);
                assert(g[0] == 7);
                assert(g.contains(7));
                assert(g =~= seq![7u32, 8u32]);
            } else {
                assert(!f.contains(8));
                let g = f.push(8);
                assert(!g.contains(7)) by {
                    if g.contains(7) {
                        let i = choose|i: int| 0 <= i < g.len() && g[i] == 7;
                        assert(i == 0 || i == 1);
                    }
                }
                assert(g.push(7) =~= seq![v, 8u32, 7u32]);
            }
        },
    }
}

/// The default install path of a Rhino version.
pub open spec fn install_path(version: u32) -> Seq<char> {
    "C:\\Program Files\\Rhino "@ + decimal(version as nat) + "\\System\\Rhino.exe"@
}

fn vec_contains(v: &Vec<u32>, x: u32) -> (r: bool)
    ensures
        r == v@.contains(x),
{
    let mut i: usize = 0;
    while i < v.len()
        invariant
            i <= v.len(),
            forall|j: int| 0 <= j < i ==> v@[j] != x,
        decreases v.len() - i,
    {
        if v[i] == x {
            return true;
        }
        i = i + 1;
    }
    false
}

/// The default install paths to look for `Rhino.exe` at, in the form this host
/// opens, one per version of [`candidate_versions`].
pub fn rhino_exe_candidates(app: &str, on_linux: bool) -> (r: Vec<String>)
    ensures
        r@.len() == candidate_versions(app@).len(),
        forall|i: int| 0 <= i < r@.len() ==> #[trigger] r@[i]@ == (if on_linux {
            wsl_path(install_path(candidate_versions(app@)[i]))
        } else {
            install_path(candidate_versions(app@)[i])
        }),
{
    let mut versions: Vec<u32> = Vec::new();
    match parse_rhino_version(app) {
        Some(v) => versions.push(v),
        None => {},
    }
    if !vec_contains(&versions, 8) {
        versions.push(8);
    }
    if !vec_contains(&versions, 7) {
        versions.push(7);
    }
    assert(versions@ =~= candidate_versions(app@));
    let mut out: Vec<String> = Vec::new();
    let mut i: usize = 0;
    while i < versions.len()
        invariant
            i <= versions.len(),
            versions@ == candidate_versions(app@),
            out@.len() == i,
            forall|j: int| 0 <= j < i ==> #[trigger] out@[j]@ == (if on_linux {
                wsl_path(install_path(versions@[j]))
            } else {
                install_path(versions@[j])
            }),
        decreases versions.len() - i,
    {
        let d = decimal_string(versions[i] as u64);
        let windows_path = concat3("C:\\Program Files\\Rhino ", d.as_str(), "\\System\\Rhino.exe");
        out.push(normalize_path(windows_path.as_str(), on_linux));
        i = i + 1;
    }
    out
}

/// The text listing every path that was tried, with the hint to set the override.
pub open spec fn tried_text(tried: Seq<Seq<char>>) -> Seq<char>
    decreases tried.len(),
{
    if tried.len() == 0 {
        "could not find Rhino.exe. Tried:"@
    } else {
        tried_text(tried.drop_last()) + "\n  "@ + tried.last()
    }
}

/// The error when no candidate path holds `Rhino.exe`.
pub fn missing_exe_error(tried: &Vec<String>) -> (r: CliError)
    ensures
        r matches CliError::Other(m) && m@ == tried_text(tried@.map_values(|p: String| p@))
            + "\nSet RHINO_CLI_RHINO_EXE to override (e.g. C:\\Program Files\\Rhino 8\\System\\Rhino.exe)."@,
{
    let mut message = owned("could not find Rhino.exe. Tried:");
    let mut i: usize = 0;
    while i < tried.len()
        invariant
            i <= tried.len(),
            message@ == tried_text(tried@.map_values(|p: String| p@).subrange(0, i as int)),
        decreases tried.len() - i,
    {
        let ghost t = tried@.map_values(|p: String| p@);
        assert(t.subrange(0, i + 1).drop_last() =~= t.subrange(0, i as int));
        message.append("\n  ");
        message.append(tried[i].as_str());
        i = i + 1;
    }
    assert(tried@.map_values(|p: String| p@).subrange(0, tried@.len() as int) =~= tried@.map_values(
        |p: String| p@,
    ));
    message.append(
        "\nSet RHINO_CLI_RHINO_EXE to override (e.g. C:\\Program Files\\Rhino 8\\System\\Rhino.exe).",
    );
    CliError::Other(message)
}

/// The error when the override variable names a path that does not exist.
pub fn override_missing_error(raw: &str, resolved: &str) -> (r: CliError)
    ensures
        r matches CliError::Other(m) && m@ == "RHINO_CLI_RHINO_EXE="@ + raw@
            + " does not exist (resolved to "@ + resolved@ + ")"@,
{
    let mut m = concat3("RHINO_CLI_RHINO_EXE=", raw, " does not exist (resolved to ");
    m.append(resolved);
    m.append(")");
    CliError::Other(m)
}

/// `Rhino.exe` was found at probe `i`: index `i` is below `n`, and `exists`
/// answers yes there (a missing answer counts as no).
pub open spec fn found_at(exists: Seq<bool>, i: int) -> bool {
    0 <= i < exists.len() && exists[i]
}

/// The paths to look for `Rhino.exe` at, in order: the override variable's
/// value in the form this host opens, when it is set, else the default
/// install paths of [`rhino_exe_candidates`].
pub fn exe_probe_paths(app: &str, override_exe: Option<&str>, on_linux: bool) -> (r: Vec<String>)
    ensures
        override_exe matches Some(raw) ==> (r@.len() == 1 && r@[0]@ == (if on_linux {
            wsl_path(raw@)
        } else {
            raw@
        })),
        override_exe is None ==> (r@.len() == candidate_versions(app@).len() && forall|i: int|
            0 <= i < r@.len() ==> #[trigger] r@[i]@ == (if on_linux {
                wsl_path(install_path(candidate_versions(app@)[i]))
            } else {
                install_path(candidate_versions(app@)[i])
            })),
{
    match override_exe {
        Some(raw) => {
            let mut v: Vec<String> = Vec::new();
            v.push(normalize_path(raw, on_linux));
            v
        },
        None => rhino_exe_candidates(app, on_linux),
    }
}

/// Where `Rhino.exe` is, given the paths of [`exe_probe_paths`] and, for each,
/// whether it exists: the first that exists. When the override variable is set
/// its path must exist; otherwise every path that was tried is listed.
pub fn resolve_rhino_exe(override_exe: Option<&str>, paths: &Vec<String>, exists: &Vec<bool>) -> (r: Result<String, CliError>)
    requires
        override_exe is Some ==> paths@.len() == 1,
    ensures
        override_exe matches Some(raw) ==> (if found_at(exists@, 0) {
            r matches Ok(p) && p@ == paths@[0]@
        } else {
            r matches Err(CliError::Other(m)) && m@ == "RHINO_CLI_RHINO_EXE="@ + raw@
                + " does not exist (resolved to "@ + paths@[0]@ + ")"@
        }),
        override_exe is None ==> (r matches Ok(p) ==> exists|i: int|
            0 <= i < paths@.len() && found_at(exists@, i) && p@ == paths@[i]@ && forall|j: int|
                0 <= j < i ==> !#[trigger] found_at(exists@, j)),
        override_exe is None ==> (r is Err <==> forall|i: int|
            0 <= i < paths@.len() ==> !#[trigger] found_at(exists@, i)),
        override_exe is None ==> (r matches Err(e) ==> (e matches CliError::Other(m) && m@
            == tried_text(paths@.map_values(|p: String| p@))
            + "\nSet RHINO_CLI_RHINO_EXE to override (e.g. C:\\Program Files\\Rhino 8\\System\\Rhino.exe)."@)),
{
    match override_exe {
        Some(raw) => {
            if exists.len() > 0 && exists[0] {
                Ok(owned(paths[0].as_str()))
            } else {
                Err(override_missing_error(raw, paths[0].as_str()))
            }
        },
        None => {
            let mut i: usize = 0;
            while i < paths.len()
                invariant
                    override_exe is None,
                    i <= paths.len(),
                    forall|j: int| 0 <= j < i ==> !#[trigger] found_at(exists@, j),
                decreases paths.len() - i,
            {
                if i < exists.len() && exists[i] {
                    assert(found_at(exists@, i as int));
                    return Ok(owned(paths[i].as_str()));
                }
                i = i + 1;
            }
            Err(missing_exe_error(paths))
        },
    }
}

/// The argument that passes a startup script to `Rhino.exe`.
pub fn runscript_arg(script: &str) -> (r: String)
    ensures
        r@ == "/runscript="@ + script@,
{
    concat2("/runscript=", script)
}

/// What starting `Rhino.exe` at `exe` comes to, given whether the process
/// could be spawned (the failure's description otherwise).
pub fn launch_app(exe: &str, spawned: Result<(), String>) -> (r: Result<(), CliError>)
    ensures
        spawned is Ok ==> r is Ok,
        spawned matches Err(e) ==> (r matches Err(CliError::Other(m)) && m@
            == "failed to launch Rhino at "@ + exe@ + ": "@ + e@),
{
    match spawned {
        Ok(()) => Ok(()),
        Err(e) => {
            let mut m = concat3("failed to launch Rhino at ", exe, ": ");
            m.append(e.as_str());
            Err(CliError::Other(m))
        },
    }
}

/// `tasklist.exe` reports Rhino: the first non-blank line (trimmed) decides;
/// an `INFO:` line means no, a line whose first field is `Rhino.exe` (in any
/// case, quoted or not) means yes; other lines are skipped.
pub open spec fn tasklist_running(lines: Seq<Seq<char>>) -> bool
    decreases lines.len(),
{
    if lines.len() == 0 {
        false
    } else {
        let t = trim(lines[0]);
        if t.len() == 0 {
            tasklist_running(lines.drop_first())
        } else if starts_with(t, "INFO:"@) {
            false
        } else if starts_with(lower(t), "\"rhino.exe\""@) || starts_with(lower(t), "rhino.exe"@) {
            true
        } else {
            tasklist_running(lines.drop_first())
        }
    }
}

/// A line of `tasklist.exe` output names Rhino: trimmed, it is not empty and,
/// lowercased, begins with `"rhino.exe"` or `rhino.exe`.
pub open spec fn rhino_line(l: Seq<char>) -> bool {
    trim(l).len() > 0 && (starts_with(lower(trim(l)), "\"rhino.exe\""@) || starts_with(
        lower(trim(l)),
        "rhino.exe"@,
    ))
}

/// A line of `tasklist.exe` output is its `INFO:` notice.
pub open spec fn info_line(l: Seq<char>) -> bool {
    trim(l).len() > 0 && starts_with(trim(l), "INFO:"@)
}

/// Line `i` names Rhino and no earlier line is an `INFO:` notice.
pub open spec fn rhino_line_at(lines: Seq<Seq<char>>, i: int) -> bool {
    0 <= i < lines.len() && rhino_line(lines[i]) && forall|j: int|
        0 <= j < i ==> !info_line(#[trigger] lines[j])
}

proof fn lemma_info_not_rhino(l: Seq<char>)
    ensures
        !(info_line(l) && rhino_line(l)),
{
    reveal_strlit("INFO:");
    reveal_strlit("\"rhino.exe\"");
    reveal_strlit("rhino.exe");
    if info_line(l) {
        let t = trim(l);
        assert(t.subrange(0, 5) == "INFO:"@);
        assert(t[0] == t.subrange(0, 5)[0]);
        assert(t[0] == 'I');
        assert(lower(t)[0] == lower_char('I'));
        assert(('I' as u32) + 32 == ('i' as u32));
        if starts_with(lower(t), "\"rhino.exe\""@) {
            assert(lower(t)[0] == lower(t).subrange(0, 11)[0]);
        }
        if starts_with(lower(t), "rhino.exe"@) {
            assert(lower(t)[0] == lower(t).subrange(0, 9)[0]);
        }
    }
}

/// `tasklist.exe` reports Rhino exactly when some line names Rhino and no
/// earlier line is an `INFO:` notice; blank and other lines are skipped.
pub proof fn lemma_tasklist_running_quantified(lines: Seq<Seq<char>>)
    ensures
        tasklist_running(lines) == exists|i: int| rhino_line_at(lines, i),
    decreases lines.len(),
{
    if lines.len() > 0 {
        let rest = lines.drop_first();
        lemma_tasklist_running_quantified(rest);
        lemma_info_not_rhino(lines[0]);
        let t = trim(lines[0]);
        if t.len() > 0 && starts_with(t, "INFO:"@) {
            assert(info_line(lines[0]));
            if exists|i: int| rhino_line_at(lines, i) {
                let i = choose|i: int| rhino_line_at(lines, i);
                if i > 0 {
                    assert(!info_line(lines[0]));
                }
            }
        } else if rhino_line(lines[0]) {
            assert(rhino_line_at(lines, 0));
        } else {
            assert(!info_line(lines[0]));
            assert(tasklist_running(lines) == tasklist_running(rest));
            if exists|i: int| rhino_line_at(rest, i) {
                let i = choose|i: int| rhino_line_at(rest, i);
                assert forall|j: int| 0 <= j < i + 1 implies !info_line(#[trigger] lines[j]) by {
                    if j > 0 {
                        assert(lines[j] == rest[j - 1]);
                    }
                }
                assert(rhino_line_at(lines, i + 1));
            }
            if exists|i: int| rhino_line_at(lines, i) {
                let i = choose|i: int| rhino_line_at(lines, i);
                assert(i > 0);
                assert forall|j: int| 0 <= j < i - 1 implies !info_line(#[trigger] rest[j]) by {
                    assert(rest[j] == lines[j + 1]);
                }
                assert(rhino_line_at(rest, i - 1));
            }
        }
    }
}

/// Reads the CSV output of `tasklist.exe /FI "IMAGENAME eq Rhino.exe"`.
pub fn parse_tasklist_running(stdout: &str) -> (r: bool)
    ensures
        r == tasklist_running(segments(stdout@)),
{
    let lines = split_newlines(stdout);
    let ghost segs = segments(stdout@);
    assert(segs.subrange(0, segs.len() as int) =~= segs);
    let mut i: usize = 0;
    while i < lines.len()
        invariant
            i <= lines.len(),
            segs == segments(stdout@),
            lines@.len() == segs.len(),
            forall|j: int| 0 <= j < lines@.len() ==> #[trigger] lines@[j]@ == segs[j],
            tasklist_running(segs) == tasklist_running(segs.subrange(i as int, segs.len() as int)),
        decreases lines.len() - i,
    {
        let ghost rest = segs.subrange(i as int, segs.len() as int);
        assert(rest[0] == lines@[i as int]@);
        assert(rest.drop_first() =~= segs.subrange(i + 1, segs.len() as int));
        let t = trim_str(lines[i].as_str());
        assert(trim(rest[0]) == t@);
        if t.unicode_len() != 0 {
            if starts_with_str(t.as_str(), "INFO:") {
                assert(!tasklist_running(rest));
                return false;
            }
            let l = to_ascii_lowercase(t.as_str());
            if starts_with_str(l.as_str(), "\"rhino.exe\"") || starts_with_str(l.as_str(), "rhino.exe") {
                assert(tasklist_running(rest));
                return true;
            }
        }
        i = i + 1;
    }
    false
}

/// `taskkill.exe` reported that Rhino was not running: exit code 128, or its
/// output says `not found` or `no running` in any case.
pub open spec fn taskkill_not_found(exit_code: Option<i32>, stderr: Seq<char>, stdout: Seq<char>) -> bool {
    exit_code == Some(128i32) || contains(lower(stderr + "\n"@ + stdout), "not found"@) || contains(
        lower(stderr + "\n"@ + stdout),
        "no running"@,
    )
}

pub fn taskkill_says_not_found(exit_code: Option<i32>, stderr: &str, stdout: &str) -> (r: bool)
    ensures
        r == taskkill_not_found(exit_code, stderr@, stdout@),
{
    if let Some(128) = exit_code {
        return true;
    }
    let haystack = concat3(stderr, "\n", stdout);
    let l = to_ascii_lowercase(haystack.as_str());
    contains_str(l.as_str(), "not found") || contains_str(l.as_str(), "no running")
}

/// The message of a failed process: its trimmed error output, else its
/// trimmed standard output, else `fallback`.
pub open spec fn output_message(stderr: Seq<char>, stdout: Seq<char>, fallback: Seq<char>) -> Seq<char> {
    if trim(stderr).len() > 0 {
        trim(stderr)
    } else if trim(stdout).len() > 0 {
        trim(stdout)
    } else {
        fallback
    }
}

pub fn message_from(stderr: &str, stdout: &str, fallback: String) -> (r: String)
    ensures
        r@ == output_message(stderr@, stdout@, fallback@),
{
    let s = trim_str(stderr);
    if s.unicode_len() != 0 {
        return s;
    }
    let o = trim_str(stdout);
    if o.unicode_len() != 0 {
        return o;
    }
    fallback
}

/// How an exit code reads in a message: `Some(1)` or `None`.
pub open spec fn code_debug(code: Option<i32>) -> Seq<char> {
    match code {
        Some(c) => "Some("@ + crate::error::signed_decimal(c as int) + ")"@,
        None => "None"@,
    }
}

fn code_debug_text(code: Option<i32>) -> (r: String)
    ensures
        r@ == code_debug(code),
{
    match code {
        Some(c) => {
            let d = crate::error::signed_decimal_string(c);
            concat3("Some(", d.as_str(), ")")
        },
        None => owned("None"),
    }
}

fn tool_failed(tool: &str, out: &ProcessOutput) -> (r: CliError)
    ensures
        r matches CliError::Other(m) && m@ == tool@ + " failed (exit "@ + code_debug(out.code) + "): "@
            + output_message(out.stderr@, out.stdout@, out.status@),
{
    let code = code_debug_text(out.code);
    let msg = message_from(out.stderr.as_str(), out.stdout.as_str(), owned(out.status.as_str()));
    let mut m = concat3(tool, " failed (exit ", code.as_str());
    m.append("): ");
    m.append(msg.as_str());
    CliError::Other(m)
}

/// The arguments of `taskkill.exe`.
pub fn taskkill_args() -> (r: Vec<String>)
    ensures
        r@.len() == 2,
        r@[0]@ == "/IM"@,
        r@[1]@ == RHINO_EXE_NAME@,
{
    let mut v = Vec::new();
    v.push(owned("/IM"));
    v.push(owned(RHINO_EXE_NAME));
    v
}

/// The arguments of `tasklist.exe`: filter on the image name, CSV, no header.
pub fn tasklist_args() -> (r: Vec<String>)
    ensures
        r@.len() == 5,
        r@[0]@ == "/FI"@,
        r@[1]@ == "IMAGENAME eq "@ + RHINO_EXE_NAME@,
        r@[2]@ == "/FO"@,
        r@[3]@ == "CSV"@,
        r@[4]@ == "/NH"@,
{
    let mut v = Vec::new();
    v.push(owned("/FI"));
    v.push(concat2("IMAGENAME eq ", RHINO_EXE_NAME));
    v.push(owned("/FO"));
    v.push(owned("CSV"));
    v.push(owned("/NH"));
    v
}

/// What asking Rhino to quit with `taskkill.exe` comes to. A report that
/// Rhino was not running counts as done.
pub open spec fn quit_outcome(run: Result<ProcessOutput, String>, r: Result<(), CliError>) -> bool {
    match run {
        Err(e) => r matches Err(CliError::Other(m)) && m@ == "failed to run taskkill.exe: "@ + e@,
        Ok(out) => if out.success || taskkill_not_found(out.code, out.stderr@, out.stdout@) {
            r is Ok
        } else {
            r matches Err(CliError::Other(m)) && m@ == "taskkill.exe"@ + " failed (exit "@
                + code_debug(out.code) + "): "@ + output_message(out.stderr@, out.stdout@, out.status@)
        },
    }
}

/// What asking Rhino to quit with `taskkill.exe` comes to, given how the
/// process ran (the description of why it could not be run otherwise).
pub fn request_quit(app: &str, run: Result<ProcessOutput, String>) -> (r: Result<(), CliError>)
    ensures
        quit_outcome(run, r),
{
    let out = match run {
        Ok(out) => out,
        Err(e) => return Err(CliError::Other(concat2("failed to run taskkill.exe: ", e.as_str()))),
    };
    if out.success {
        return Ok(());
    }
    if taskkill_says_not_found(out.code, out.stderr.as_str(), out.stdout.as_str()) {
        return Ok(());
    }
    Err(tool_failed("taskkill.exe", &out))
}

/// Whether Rhino runs, from how `tasklist.exe` ran.
pub open spec fn running_outcome(run: Result<ProcessOutput, String>, r: Result<bool, CliError>) -> bool {
    match run {
        Err(e) => r matches Err(CliError::Other(m)) && m@ == "failed to run tasklist.exe: "@ + e@,
        Ok(out) => if out.success {
            r == Ok::<bool, CliError>(tasklist_running(segments(out.stdout@)))
        } else {
            r matches Err(CliError::Other(m)) && m@ == "tasklist.exe"@ + " failed (exit "@
                + code_debug(out.code) + "): "@ + output_message(out.stderr@, out.stdout@, out.status@)
        },
    }
}

/// Whether Rhino runs, from how `tasklist.exe` ran.
pub fn is_app_running(app: &str, run: Result<ProcessOutput, String>) -> (r: Result<bool, CliError>)
    ensures
        running_outcome(run, r),
{
    let out = match run {
        Ok(out) => out,
        Err(e) => return Err(CliError::Other(concat2("failed to run tasklist.exe: ", e.as_str()))),
    };
    if !out.success {
        return Err(tool_failed("tasklist.exe", &out));
    }
    Ok(parse_tasklist_running(out.stdout.as_str()))
}

/// Window capture is not available on Windows.
pub fn capture_window(
    app: &str,
    out: &str,
    window_id: Option<u64>,
    activate: bool,
    no_shadow: bool,
) -> (r: Result<(), CliError>)
    ensures
        r matches Err(CliError::Other(m)) && m@
            == "Rhino window screenshot is not yet implemented on Windows."@,
{
    Err(CliError::Other(owned("Rhino window screenshot is not yet implemented on Windows.")))
}

} // verus!

//! Startup dependency check: `zerotier-one` installed, started with the
//! `-U` flag, and its daemon ready before the HTTP server starts.
//!
//! The sequence: install through the package manager when missing, make the
//! service's `ExecStart` carry `-U` (fatal only after a fresh install), reload
//! systemd, enable and start the service, then wait up to 15 s for the
//! daemon. Off Linux and macOS, and with `ZTNET_SKIP_DEPS=1`, nothing is done.
use crate::command::{run, run_step, step_views, Installer, OnFailure, Step, StepView};
use crate::sysctl::{join_lines, join_lines_vec, lines, lines_vec};
use crate::text::{chars_of, contains, contains_vec, lit, push_str, starts_with, starts_with_vec, string_of, trim_start, views};
use vstd::prelude::*;

verus! {

/// Why zerotier-one could not be made ready.
#[derive(Debug, Clone)]
pub enum DepsError {
    NoPackageManager,
    InstallFailed(String),
    ServicePatchFailed(String),
    ServiceStartFailed(String),
    DaemonNotReady(u64),
    UnsupportedPlatform(String),
}

impl DepsError {
    pub open spec fn message_spec(&self) -> Seq<char> {
        match self {
            DepsError::NoPackageManager => "No supported package manager found (apt-get / dnf / pacman)"@,
            DepsError::InstallFailed(m) => "zerotier-one install failed: "@ + m@,
            DepsError::ServicePatchFailed(m) => "Service file patch failed: "@ + m@,
            DepsError::ServiceStartFailed(m) => "Failed to enable/start zerotier-one.service: "@ + m@,
            DepsError::DaemonNotReady(s) => "zerotier-one daemon socket not ready after "@ + crate::text::decimal(*s as nat) + "s"@,
            DepsError::UnsupportedPlatform(m) => "Unsupported platform: "@ + m@,
        }
    }

    /// The human-readable description of the error (what `Display` shows).
    pub fn message(&self) -> (r: String)
        ensures
            r@ == self.message_spec(),
    {
        match self {
            DepsError::NoPackageManager => "No supported package manager found (apt-get / dnf / pacman)".to_owned(),
            DepsError::InstallFailed(m) => {
                let mut b = lit("zerotier-one install failed: ");
                push_str(&mut b, m.as_str());
                string_of(&b)
            },
            DepsError::ServicePatchFailed(m) => {
                let mut b = lit("Service file patch failed: ");
                push_str(&mut b, m.as_str());
                string_of(&b)
            },
            DepsError::ServiceStartFailed(m) => {
                let mut b = lit("Failed to enable/start zerotier-one.service: ");
                push_str(&mut b, m.as_str());
                string_of(&b)
            },
            DepsError::DaemonNotReady(s) => {
                let mut b = lit("zerotier-one daemon socket not ready after ");
                let d = crate::text::decimal_vec(*s);
                let b2 = crate::text::concat(&b, &d);
                b = b2;
                push_str(&mut b, "s");
                string_of(&b)
            },
            DepsError::UnsupportedPlatform(m) => {
                let mut b = lit("Unsupported platform: ");
                push_str(&mut b, m.as_str());
                string_of(&b)
            },
        }
    }
}

/// The check runs on Linux and macOS only.
pub fn is_supported_platform(os: &str) -> (r: bool)
    ensures
        r == (os@ == "linux"@ || os@ == "macos"@),
{
    crate::text::str_eq(os, "linux") || crate::text::str_eq(os, "macos")
}

// ── The sequence ─────────────────────────────────────────────────────────────

/// The stages of the check.
#[derive(Debug, Clone, Copy, PartialEq, Eq, Structural)]
pub enum EnsureStep {
    /// Install zerotier-one with this package manager.
    Install(Installer),
    /// Make `ExecStart` carry `-U`; a failure is fatal when `fatal`.
    PatchService { fatal: bool },
    DaemonReload,
    EnableAndStart,
    /// Wait this many seconds for the daemon.
    WaitForDaemon(u64),
    Done,
}

/// Where the check starts: nothing to do when skipped or on another
/// platform; an install when zerotier-one is missing (which needs a package
/// manager); else the (non-fatal) patch of an existing install.
pub fn ensure_first(skip: bool, os: &str, installed: bool, pm: Option<Installer>) -> (r: Result<EnsureStep, DepsError>)
    ensures
        skip ==> r == Ok::<EnsureStep, DepsError>(EnsureStep::Done),
        !skip && !(os@ == "linux"@ || os@ == "macos"@) ==> r == Ok::<EnsureStep, DepsError>(EnsureStep::Done),
        !skip && (os@ == "linux"@ || os@ == "macos"@) ==> (if installed {
            r == Ok::<EnsureStep, DepsError>(EnsureStep::PatchService { fatal: false })
        } else {
            match pm {
                Some(m) => r == Ok::<EnsureStep, DepsError>(EnsureStep::Install(m)),
                None => r matches Err(DepsError::NoPackageManager),
            }
        }),
{
    if skip || !is_supported_platform(os) {
        return Ok(EnsureStep::Done);
    }
    if installed {
        return Ok(EnsureStep::PatchService { fatal: false });
    }
    match pm {
        Some(m) => Ok(EnsureStep::Install(m)),
        None => Err(DepsError::NoPackageManager),
    }
}

/// The stage after `step` succeeded (or, for a non-fatal patch, failed).
pub fn ensure_next(step: EnsureStep) -> (r: EnsureStep)
    ensures
        r == match step {
            EnsureStep::Install(_) => EnsureStep::PatchService { fatal: true },
            EnsureStep::PatchService { .. } => EnsureStep::DaemonReload,
            EnsureStep::DaemonReload => EnsureStep::EnableAndStart,
            EnsureStep::EnableAndStart => EnsureStep::WaitForDaemon(15),
            EnsureStep::WaitForDaemon(_) => EnsureStep::Done,
            EnsureStep::Done => EnsureStep::Done,
        },
{
    match step {
        EnsureStep::Install(_) => EnsureStep::PatchService { fatal: true },
        EnsureStep::PatchService { .. } => EnsureStep::DaemonReload,
        EnsureStep::DaemonReload => EnsureStep::EnableAndStart,
        EnsureStep::EnableAndStart => EnsureStep::WaitForDaemon(15),
        EnsureStep::WaitForDaemon(_) => EnsureStep::Done,
        EnsureStep::Done => EnsureStep::Done,
    }
}

// ── Installation ─────────────────────────────────────────────────────────────

/// The commands that install zerotier-one (`dnf` when there, else `yum`):
/// with apt the package index is refreshed first, best effort.
pub open spec fn install_spec(pm: Installer, dnf_available: bool) -> Seq<StepView> {
    match pm {
        Installer::Apt => seq![
            run("apt-get"@, seq!["update"@, "-qq"@], OnFailure::Ignore),
            run("apt-get"@, seq!["install"@, "-y"@, "zerotier-one"@], OnFailure::Abort),
        ],
        Installer::Dnf => if dnf_available {
            seq![run("dnf"@, seq!["install"@, "-y"@, "zerotier-one"@], OnFailure::Abort)]
        } else {
            seq![run("yum"@, seq!["install"@, "-y"@, "zerotier-one"@], OnFailure::Abort)]
        },
        Installer::Pacman => seq![run("pacman"@, seq!["-S"@, "--noconfirm"@, "zerotier-one"@], OnFailure::Abort)],
    }
}

pub fn install_steps(pm: Installer, dnf_available: bool) -> (r: Vec<Step>)
    ensures
        step_views(r@) == install_spec(pm, dnf_available),
{
    let mut r: Vec<Step> = Vec::new();
    let inst = ["install", "-y", "zerotier-one"];
    assert(inst@.map_values(|x: &str| x@) =~= seq!["install"@, "-y"@, "zerotier-one"@]);
    match pm {
        Installer::Apt => {
            let up = ["update", "-qq"];
            assert(up@.map_values(|x: &str| x@) =~= seq!["update"@, "-qq"@]);
            r.push(run_step("apt-get", &up, OnFailure::Ignore));
            r.push(run_step("apt-get", &inst, OnFailure::Abort));
        },
        Installer::Dnf => {
            if dnf_available {
                r.push(run_step("dnf", &inst, OnFailure::Abort));
            } else {
                r.push(run_step("yum", &inst, OnFailure::Abort));
            }
        },
        Installer::Pacman => {
            let a = ["-S", "--noconfirm", "zerotier-one"];
            assert(a@.map_values(|x: &str| x@) =~= seq!["-S"@, "--noconfirm"@, "zerotier-one"@]);
            r.push(run_step("pacman", &a, OnFailure::Abort));
        },
    }
    assert(step_views(r@) =~= install_spec(pm, dnf_available));
    r
}

pub open spec fn installer_name(pm: Installer) -> Seq<char> {
    match pm {
        Installer::Apt => "Apt"@,
        Installer::Dnf => "Dnf"@,
        Installer::Pacman => "Pacman"@,
    }
}

/// The error when the install command failed.
pub fn install_failed(pm: Installer) -> (r: DepsError)
    ensures
        r matches DepsError::InstallFailed(m) && m@ == "Package manager "@ + installer_name(pm)
            + " exited non-zero. Try manually: curl -s https://install.zerotier.com | sudo bash"@,
{
    let name = match pm {
        Installer::Apt => "Apt",
        Installer::Dnf => "Dnf",
        Installer::Pacman => "Pacman",
    };
    let mut b = lit("Package manager ");
    push_str(&mut b, name);
    push_str(&mut b, " exited non-zero. Try manually: curl -s https://install.zerotier.com | sudo bash");
    DepsError::InstallFailed(string_of(&b))
}

// ── Service file ─────────────────────────────────────────────────────────────

/// Where distributions install the unit file, in the order tried.
pub open spec fn service_candidates_spec() -> Seq<Seq<char>> {
    seq![
        "/lib/systemd/system/zerotier-one.service"@,
        "/usr/lib/systemd/system/zerotier-one.service"@,
        "/etc/systemd/system/zerotier-one.service"@,
    ]
}

pub fn service_candidates() -> (r: Vec<String>)
    ensures
        crate::command::string_views(r@) == service_candidates_spec(),
{
    let r = crate::command::strings(
        &[
            "/lib/systemd/system/zerotier-one.service",
            "/usr/lib/systemd/system/zerotier-one.service",
            "/etc/systemd/system/zerotier-one.service",
        ],
    );
    assert(crate::command::string_views(r@) =~= service_candidates_spec());
    r
}

/// The unit file to patch: none when the drop-in override already carries
/// `-U`; else the first candidate that exists.
pub fn find_service_file(dropin_has_flag: bool, exists: [bool; 3]) -> (r: Option<String>)
    ensures
        dropin_has_flag ==> r is None,
        !dropin_has_flag ==> match r {
            Some(p) => exists|i: int| 0 <= i < 3 && exists@[i] && p@ == service_candidates_spec()[i]
                && forall|j: int| 0 <= j < i ==> !exists@[j],
            None => forall|i: int| 0 <= i < 3 ==> !exists@[i],
        },
{
    if dropin_has_flag {
        return None;
    }
    let c = service_candidates();
    assert(c@.len() == crate::command::string_views(c@).len());
    let mut i: usize = 0;
    while i < 3
        invariant
            !dropin_has_flag,
            i <= 3,
            c@.len() == 3,
            crate::command::string_views(c@) == service_candidates_spec(),
            forall|j: int| 0 <= j < i ==> !exists@[j],
        decreases 3 - i,
    {
        if exists[i] {
            assert(c@[i as int]@ == service_candidates_spec()[i as int]);
            return Some(c[i].clone());
        }
        i += 1;
    }
    None
}

/// The error when no unit file was found.
pub fn service_not_found() -> (r: DepsError)
    ensures
        r matches DepsError::ServicePatchFailed(m) && m@ == "service file not found in any of [\"/lib/systemd/system/zerotier-one.service\", \"/usr/lib/systemd/system/zerotier-one.service\", \"/etc/systemd/system/zerotier-one.service\"]"@,
{
    DepsError::ServicePatchFailed(
        "service file not found in any of [\"/lib/systemd/system/zerotier-one.service\", \"/usr/lib/systemd/system/zerotier-one.service\", \"/etc/systemd/system/zerotier-one.service\"]".to_owned(),
    )
}

/// A line that starts the daemon without `-U`.
pub open spec fn needs_flag(line: Seq<char>) -> bool {
    let t = trim_start(line);
    starts_with(t, "ExecStart="@) && contains(t, "zerotier-one"@) && !contains(t, "-U"@)
}

/// The line with `-U` appended when it starts the daemon without it.
pub open spec fn patched_line(line: Seq<char>) -> Seq<char> {
    if needs_flag(line) {
        line + " -U"@
    } else {
        line
    }
}

/// The unit file after patching: `None` when it already has
/// `zerotier-one -U`; else every `ExecStart` line of the daemon without
/// `-U` gets it appended, and a final newline is kept.
pub open spec fn patch_spec(content: Seq<char>) -> Option<Seq<char>> {
    if contains(content, "zerotier-one -U"@) {
        None
    } else {
        let body = join_lines(lines(content).map_values(|l: Seq<char>| patched_line(l)));
        if content.len() > 0 && content.last() == '\n' {
            Some(body + "\n"@)
        } else {
            Some(body)
        }
    }
}

fn patch_line(line: &Vec<char>) -> (r: Vec<char>)
    ensures
        r@ == patched_line(line@),
{
    let n = line.len();
    let mut lo: usize = 0;
    assert(line@.skip(0) =~= line@);
    while lo < n && crate::text::is_whitespace(line[lo])
        invariant
            lo <= n == line.len(),
            trim_start(line@) == trim_start(line@.skip(lo as int)),
        decreases n - lo,
    {
        assert(line@.skip(lo as int).drop_first() =~= line@.skip(lo + 1));
        lo += 1;
    }
    assert(line@.subrange(lo as int, n as int) =~= line@.skip(lo as int));
    let t = crate::text::slice(line, lo, n);
    let needs = starts_with_vec(&t, &lit("ExecStart=")) && contains_vec(&t, &lit("zerotier-one"))
        && !contains_vec(&t, &lit("-U"));
    if needs {
        let mut r = crate::text::concat(line, &Vec::new());
        push_str(&mut r, " -U");
        r
    } else {
        crate::text::concat(line, &Vec::new())
    }
}

/// The unit file after patching (see `patch_spec`).
pub fn patch_exec_start(content: &str) -> (r: Option<String>)
    ensures
        match r {
            Some(s) => patch_spec(content@) == Some(s@),
            None => patch_spec(content@) is None,
        },
{
    let c = chars_of(content);
    if contains_vec(&c, &lit("zerotier-one -U")) {
        return None;
    }
    let ls = lines_vec(&c);
    let mut out: Vec<Vec<char>> = Vec::new();
    let mut i: usize = 0;
    while i < ls.len()
        invariant
            i <= ls.len(),
            views(out@) =~= views(ls@).take(i as int).map_values(|l: Seq<char>| patched_line(l)),
        decreases ls.len() - i,
    {
        let p = patch_line(&ls[i]);
        let ghost before = views(out@);
        out.push(p);
        assert(views(out@) =~= before.push(patched_line(views(ls@)[i as int])));
        assert(views(ls@).take(i + 1) =~= views(ls@).take(i as int).push(views(ls@)[i as int]));
        i += 1;
    }
    assert(views(ls@).take(ls.len() as int) =~= views(ls@));
    let mut body = join_lines_vec(&out);
    if c.len() > 0 && c[c.len() - 1] == '\n' {
        push_str(&mut body, "\n");
    }
    Some(string_of(&body))
}

// ── Service start ────────────────────────────────────────────────────────────

/// The command that reloads systemd's unit files (failure is harmless).
pub fn systemctl_daemon_reload() -> (r: Step)
    ensures
        r@ == run("systemctl"@, seq!["daemon-reload"@], OnFailure::Ignore),
{
    let a = ["daemon-reload"];
    assert(a@.map_values(|x: &str| x@) =~= seq!["daemon-reload"@]);
    run_step("systemctl", &a, OnFailure::Ignore)
}

/// The outcome of enabling and starting the service: the service is
/// enabled (failure is harmless), then restarted, or else started; when
/// both fail, the error carries the service status output `status`.
pub fn enable_and_start(restarted: bool, started: bool, status: &str) -> (r: Result<(), DepsError>)
    ensures
        restarted || started ==> r is Ok,
        !restarted && !started ==> (r matches Err(DepsError::ServiceStartFailed(m))
            && m@ == "systemctl start/restart failed:\n"@ + status@),
{
    if restarted || started {
        Ok(())
    } else {
        let mut b = lit("systemctl start/restart failed:\n");
        push_str(&mut b, status);
        Err(DepsError::ServiceStartFailed(string_of(&b)))
    }
}

/// Where the daemon's home directory is: Linux, then macOS.
pub fn zt_home_candidates() -> (r: Vec<String>)
    ensures
        crate::command::string_views(r@) == seq![
            "/var/lib/zerotier-one"@,
            "/Library/Application Support/ZeroTier/One"@,
        ],
{
    let r = crate::command::strings(&["/var/lib/zerotier-one", "/Library/Application Support/ZeroTier/One"]);
    assert(crate::command::string_views(r@) =~= seq!["/var/lib/zerotier-one"@, "/Library/Application Support/ZeroTier/One"@]);
    r
}

// ── Laws ─────────────────────────────────────────────────────────────────────

proof fn lemma_trim_start_append(a: Seq<char>, b: Seq<char>)
    requires
        trim_start(a).len() > 0,
    ensures
        trim_start(a + b) == trim_start(a) + b,
    decreases a.len(),
{
    if a.len() > 0 && crate::text::is_ws(a[0]) {
        lemma_trim_start_append(a.drop_first(), b);
        assert((a + b).drop_first() =~= a.drop_first() + b);
    } else {
        assert(a.len() > 0);
        assert((a + b)[0] == a[0]);
    }
}

/// A patched line needs no second patch.
proof fn lemma_patched_line_stable(l: Seq<char>)
    ensures
        patched_line(patched_line(l)) == patched_line(l),
{
    if needs_flag(l) {
        reveal_strlit("ExecStart=");
        reveal_strlit(" -U");
        reveal_strlit("-U");
        let t = trim_start(l);
        lemma_trim_start_append(l, " -U"@);
        let t2 = trim_start(l + " -U"@);
        let k: int = t.len() as int;
        assert(t2 == t + " -U"@);
        assert(t2.subrange(k + 1, k + 3) =~= "-U"@);
        assert(crate::text::occurs_at(t2, "-U"@, k + 1));
        assert(!needs_flag(l + " -U"@));
    }
}

/// The patched file keeps its line breaks: no line that a line break
/// follows ends, after patching, with a carriage return (which a second
/// reading would take for part of a `\r\n` line end). Among CRLF unit files
/// this fails only for a line ending in a doubled `\r`.
pub open spec fn keeps_line_ends(c: Seq<char>) -> bool {
    let ls = lines(c);
    forall|i: int| 0 <= i < ls.len() && (i + 1 < ls.len() || (c.len() > 0 && c.last() == '\n'))
        ==> !crate::sysctl::ends_cr(patched_line(#[trigger] ls[i]))
}

/// Patching the unit file is idempotent: a file the patch produced is left
/// alone or rewritten to the same text, whenever the patch keeps its line
/// breaks (for LF and for CRLF files alike) or its result already carries
/// `zerotier-one -U`.
pub proof fn lemma_patch_idempotent(c: Seq<char>)
    requires
        patch_spec(c) is Some,
        keeps_line_ends(c) || contains(patch_spec(c)->0, "zerotier-one -U"@),
    ensures
        patch_spec(patch_spec(c)->0) is None || patch_spec(patch_spec(c)->0) == patch_spec(c),
{
    if !contains(patch_spec(c)->0, "zerotier-one -U"@) {
        lemma_patch_idempotent_lines(c);
    }
}

proof fn lemma_patch_idempotent_lines(c: Seq<char>)
    requires
        patch_spec(c) is Some,
        keeps_line_ends(c),
    ensures
        patch_spec(patch_spec(c)->0) is None || patch_spec(patch_spec(c)->0) == patch_spec(c),
{
    reveal_strlit(" -U");
    reveal_strlit("\n");
    let ls = lines(c);
    let m = ls.map_values(|l: Seq<char>| patched_line(l));
    let fnl = c.len() > 0 && c.last() == '\n';
    let p = patch_spec(c)->0;
    crate::sysctl::lemma_lines_clean(c);
    assert forall|i: int| 0 <= i < m.len() implies crate::sysctl::lacks(#[trigger] m[i], '\n') by {
        let l = ls[i];
        assert(m[i] == patched_line(l));
        if needs_flag(l) {
            assert forall|j: int| 0 <= j < m[i].len() implies m[i][j] != '\n' by {
                if j < l.len() {
                    assert(m[i][j] == l[j]);
                }
            }
        }
    }
    assert forall|i: int| 0 <= i < m.len() && (i + 1 < m.len() || fnl) implies !crate::sysctl::ends_cr(#[trigger] m[i]) by {
        assert(m[i] == patched_line(ls[i]));
    }
    if !fnl && m.len() > 0 {
        assert(m.last() == patched_line(ls.last()));
    }
    crate::sysctl::lemma_lines_join(m, fnl);
    assert(p == if fnl { join_lines(m) + "\n"@ } else { join_lines(m) });
    assert(lines(p) == m);
    // The patched text ends with a line break exactly when the file did.
    let pfnl = p.len() > 0 && p.last() == '\n';
    if fnl {
        assert(pfnl);
    } else if m.len() > 0 {
        assert(m.last().len() > 0);
        assert(join_lines(m).last() == m.last().last()) by {
            if m.len() > 1 {
                assert(join_lines(m) == join_lines(m.drop_last()) + "\n"@ + m.last());
            }
        }
        assert(m.last()[m.last().len() - 1] != '\n');
        assert(!pfnl);
    } else {
        assert(join_lines(m).len() == 0);
        assert(!pfnl);
    }
    assert(m.map_values(|l: Seq<char>| patched_line(l)) =~= m) by {
        assert forall|i: int| 0 <= i < m.len() implies patched_line(m[i]) == m[i] by {
            lemma_patched_line_stable(ls[i]);
        }
    }
}

} // verus!

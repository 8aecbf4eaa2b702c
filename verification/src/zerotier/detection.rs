//! Finding ZeroTier on the host, and installing it.
use crate::command::{run, run_step, OnFailure, Step, StepView};
use crate::text::{chars_of, next_word, next_word_at, slice, string_of};
use vstd::prelude::*;

verus! {

/// What was found of ZeroTier.
#[derive(Debug, Clone)]
pub struct ZtDetectionResult {
    pub zerotier_one: Option<String>,
    pub zerotier_idtool: Option<String>,
    /// The version `zerotier-cli info` reports; None if ZT is not running or
    /// not installed.
    pub version: Option<String>,
    /// zerotier-cli is available
    pub cli_available: bool,
}

/// The outcome of an install request.
#[derive(Debug, Clone)]
pub enum InstallResult {
    AlreadyInstalled(ZtDetectionResult),
    Installed(ZtDetectionResult),
    UnsupportedPlatform { reason: String },
    Failed { reason: String },
}

#[derive(Debug, Clone, Copy, PartialEq, Eq, Structural)]
pub enum PackageManager {
    Apt,
    Dnf,
    Pacman,
    Brew,
}

/// Which package-manager binaries are on the PATH.
#[derive(Debug, Clone, Copy)]
pub struct ManagerProbe {
    pub apt_get: bool,
    pub dnf: bool,
    pub yum: bool,
    pub pacman: bool,
    pub brew: bool,
}

pub open spec fn manager_choice(p: ManagerProbe) -> Option<PackageManager> {
    if p.apt_get {
        Some(PackageManager::Apt)
    } else if p.dnf || p.yum {
        Some(PackageManager::Dnf)
    } else if p.pacman {
        Some(PackageManager::Pacman)
    } else if p.brew {
        Some(PackageManager::Brew)
    } else {
        None
    }
}

/// The package manager to use: apt, else dnf (or yum), else pacman, else brew.
pub fn detect_package_manager(p: ManagerProbe) -> (r: Option<PackageManager>)
    ensures
        r == manager_choice(p),
{
    if p.apt_get {
        Some(PackageManager::Apt)
    } else if p.dnf || p.yum {
        Some(PackageManager::Dnf)
    } else if p.pacman {
        Some(PackageManager::Pacman)
    } else if p.brew {
        Some(PackageManager::Brew)
    } else {
        None
    }
}

/// The version in the output of `zerotier-cli info`
/// (`200 info <node-id> <version> ...`): the fourth word when the first is
/// `200`.
pub open spec fn cli_info_version(out: Seq<char>) -> Option<Seq<char>> {
    match next_word(out) {
        None => None,
        Some((code, r1)) => match next_word(r1) {
            None => None,
            Some((_, r2)) => match next_word(r2) {
                None => None,
                Some((_, r3)) => match next_word(r3) {
                    None => None,
                    Some((version, _)) => if code == "200"@ {
                        Some(version)
                    } else {
                        None
                    },
                },
            },
        },
    }
}

/// The version in the output of `zerotier-cli info`.
pub fn parse_cli_info(out: &str) -> (r: Option<String>)
    ensures
        match r {
            Some(v) => cli_info_version(out@) == Some(v@),
            None => cli_info_version(out@) is None,
        },
{
    let s = chars_of(out);
    assert(s@.skip(0) =~= s@);
    let (a0, b0) = match next_word_at(&s, 0) {
        Some(w) => w,
        None => return None,
    };
    let (_a1, b1) = match next_word_at(&s, b0) {
        Some(w) => w,
        None => return None,
    };
    let (_a2, b2) = match next_word_at(&s, b1) {
        Some(w) => w,
        None => return None,
    };
    let (a3, b3) = match next_word_at(&s, b2) {
        Some(w) => w,
        None => return None,
    };
    let code = slice(&s, a0, b0);
    if crate::text_order::eq_vec(&code, &crate::text::lit("200")) {
        Some(string_of(&slice(&s, a3, b3)))
    } else {
        None
    }
}

/// What was found: the paths of `zerotier-one` and `zerotier-idtool`,
/// whether `zerotier-cli` is there, and the output of `zerotier-cli info`
/// when it succeeded (only asked when the cli is there).
pub fn detect(
    zerotier_one: Option<String>,
    zerotier_idtool: Option<String>,
    cli_available: bool,
    info_output: Option<String>,
) -> (r: ZtDetectionResult)
    ensures
        r.zerotier_one == zerotier_one,
        r.zerotier_idtool == zerotier_idtool,
        r.cli_available == cli_available,
        match r.version {
            Some(v) => cli_available && (info_output matches Some(o) && cli_info_version(o@) == Some(v@)),
            None => !cli_available || info_output is None || (info_output matches Some(o) && cli_info_version(o@) is None),
        },
{
    let version = if cli_available {
        match &info_output {
            Some(o) => parse_cli_info(o.as_str()),
            None => None,
        }
    } else {
        None
    };
    ZtDetectionResult { zerotier_one, zerotier_idtool, version, cli_available }
}

/// What installing does.
#[derive(Debug, Clone)]
pub enum InstallDecision {
    /// No command to run: the result is this.
    Done(InstallResult),
    /// Run `step`; on success the result is `Installed` with what is found
    /// then, else `Failed` with `failure`.
    Run { step: Step, failure: String },
}

pub open spec fn manager_name(pm: PackageManager) -> Seq<char> {
    match pm {
        PackageManager::Apt => "Apt"@,
        PackageManager::Dnf => "Dnf"@,
        PackageManager::Pacman => "Pacman"@,
        PackageManager::Brew => "Brew"@,
    }
}

/// The install command for `pm` (`dnf` when there, else `yum`).
pub open spec fn install_command(pm: PackageManager, dnf_available: bool) -> StepView {
    match pm {
        PackageManager::Apt => run("/usr/bin/apt-get"@, seq!["install"@, "-y"@, "zerotier-one"@], OnFailure::Abort),
        PackageManager::Dnf => if dnf_available {
            run("/usr/bin/dnf"@, seq!["install"@, "-y"@, "zerotier-one"@], OnFailure::Abort)
        } else {
            run("/usr/bin/yum"@, seq!["install"@, "-y"@, "zerotier-one"@], OnFailure::Abort)
        },
        PackageManager::Pacman => run("/usr/bin/pacman"@, seq!["-S"@, "--noconfirm"@, "zerotier-one"@], OnFailure::Abort),
        PackageManager::Brew => run("/usr/local/bin/brew"@, seq!["install"@, "zerotier"@], OnFailure::Abort),
    }
}

/// Installing ZeroTier with `pm` on `os`, given what is found now: nothing
/// to do when it is installed; refused on Windows; else the package
/// manager's install command.
pub fn install(pm: PackageManager, current: ZtDetectionResult, os: &str, dnf_available: bool) -> (r: InstallDecision)
    ensures
        current.zerotier_one is Some ==> (r matches InstallDecision::Done(InstallResult::AlreadyInstalled(d)) && d == current),
        current.zerotier_one is None && os@ == "windows"@ ==> (r matches InstallDecision::Done(
            InstallResult::UnsupportedPlatform { reason },
        ) && reason@ == "Windows: install ZeroTier from https://www.zerotier.com/download/"@),
        current.zerotier_one is None && os@ != "windows"@ ==> (r matches InstallDecision::Run { step, failure }
            && step@ == install_command(pm, dnf_available) && failure@ == "Package manager "@ + manager_name(pm)
            + " failed. Try manually: https://www.zerotier.com/download/"@),
{
    if current.zerotier_one.is_some() {
        return InstallDecision::Done(InstallResult::AlreadyInstalled(current));
    }
    if crate::text::str_eq(os, "windows") {
        return InstallDecision::Done(InstallResult::UnsupportedPlatform {
            reason: "Windows: install ZeroTier from https://www.zerotier.com/download/".to_owned(),
        });
    }
    let step = match pm {
        PackageManager::Apt => {
            let a = ["install", "-y", "zerotier-one"];
            assert(a@.map_values(|x: &str| x@) =~= seq!["install"@, "-y"@, "zerotier-one"@]);
            run_step("/usr/bin/apt-get", &a, OnFailure::Abort)
        },
        PackageManager::Dnf => {
            let a = ["install", "-y", "zerotier-one"];
            assert(a@.map_values(|x: &str| x@) =~= seq!["install"@, "-y"@, "zerotier-one"@]);
            if dnf_available {
                run_step("/usr/bin/dnf", &a, OnFailure::Abort)
            } else {
                run_step("/usr/bin/yum", &a, OnFailure::Abort)
            }
        },
        PackageManager::Pacman => {
            let a = ["-S", "--noconfirm", "zerotier-one"];
            assert(a@.map_values(|x: &str| x@) =~= seq!["-S"@, "--noconfirm"@, "zerotier-one"@]);
            run_step("/usr/bin/pacman", &a, OnFailure::Abort)
        },
        PackageManager::Brew => {
            let a = ["install", "zerotier"];
            assert(a@.map_values(|x: &str| x@) =~= seq!["install"@, "zerotier"@]);
            run_step("/usr/local/bin/brew", &a, OnFailure::Abort)
        },
    };
    let name = match pm {
        PackageManager::Apt => "Apt",
        PackageManager::Dnf => "Dnf",
        PackageManager::Pacman => "Pacman",
        PackageManager::Brew => "Brew",
    };
    let mut b = crate::text::lit("Package manager ");
    crate::text::push_str(&mut b, name);
    crate::text::push_str(&mut b, " failed. Try manually: https://www.zerotier.com/download/");
    InstallDecision::Run { step, failure: string_of(&b) }
}

} // verus!

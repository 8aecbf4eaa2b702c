//! NDP proxying with `ndppd`: native IPv6 for exit-node clients without NAT.
//!
//! On the gateway, ndppd answers neighbour discovery on the WAN interface
//! for the addresses delegated to ZeroTier clients.
use crate::command::{
    command_line, command_line_of, failure_text, io_failure, is_io_failure, runs_program, ActionView, StepFailure,
    run, run_step, step_views, write_step, Action, InstallPlan, Installer, OnFailure, Step,
    StepView,
};
use vstd::prelude::*;

verus! {

/// What the host has of ndppd.
#[derive(Debug, Clone)]
pub struct NdpStatus {
    /// ndppd binary found on PATH
    pub available: bool,
    /// ndppd is currently running (systemd active or process detected)
    pub running: bool,
    /// Config file exists at /etc/ndppd.conf
    pub config_exists: bool,
    /// systemd unit enabled
    pub enabled: bool,
    /// Path to ndppd binary if found
    pub binary_path: Option<String>,
}

/// The proxy to set up.
#[derive(Debug, Clone)]
pub struct NdpConfig {
    /// WAN interface that receives NDP queries (e.g. "eth0")
    pub wan_iface: String,
    /// ZeroTier interface prefix to proxy NDP for (e.g. "zt")
    pub zt_prefix: String,
    /// IPv6 prefix delegated to ZT clients (e.g. "2001:db8::/64")
    pub ipv6_prefix: String,
}

/// Why an ndppd operation failed.
#[derive(Debug, Clone)]
pub enum NdpError {
    UnsupportedPlatform(String),
    Command(String),
    Io(String),
}

impl NdpError {
    pub open spec fn message_spec(&self) -> Seq<char> {
        match self {
            NdpError::UnsupportedPlatform(m) => "Unsupported platform: "@ + m@,
            NdpError::Command(m) => "Command failed: "@ + m@,
            NdpError::Io(m) => "IO error: "@ + m@,
        }
    }

    /// The human-readable description of the error (what `Display` shows).
    pub fn message(&self) -> (r: String)
        ensures
            r@ == self.message_spec(),
    {
        let (p, m) = match self {
            NdpError::UnsupportedPlatform(m) => ("Unsupported platform: ", m),
            NdpError::Command(m) => ("Command failed: ", m),
            NdpError::Io(m) => ("IO error: ", m),
        };
        let mut b = crate::text::lit(p);
        crate::text::push_str(&mut b, m.as_str());
        crate::text::string_of(&b)
    }
}

/// The status from what was found: the binary's path, whether the service
/// runs and is enabled, whether the config file exists.
pub fn status_of(binary_path: Option<String>, running: bool, config_exists: bool, enabled: bool) -> (r: NdpStatus)
    ensures
        r.available == binary_path.is_some(),
        r.binary_path == binary_path,
        r.running == running,
        r.config_exists == config_exists,
        r.enabled == enabled,
{
    NdpStatus { available: binary_path.is_some(), running, config_exists, enabled, binary_path }
}

/// The text of `/etc/ndppd.conf` for `cfg`.
pub open spec fn config_text(cfg: NdpConfig) -> Seq<char> {
    "# Generated by ztnet-box\nproxy "@ + cfg.wan_iface@ + " {\n\trule "@ + cfg.ipv6_prefix@
        + " {\n\t\tiface "@ + cfg.zt_prefix@ + "+\n\t}\n}\n"@
}

/// The text of `/etc/ndppd.conf` for `cfg`.
pub fn config_content(cfg: &NdpConfig) -> (r: String)
    ensures
        r@ == config_text(*cfg),
{
    let mut b = crate::text::lit("# Generated by ztnet-box\nproxy ");
    crate::text::push_str(&mut b, cfg.wan_iface.as_str());
    crate::text::push_str(&mut b, " {\n\trule ");
    crate::text::push_str(&mut b, cfg.ipv6_prefix.as_str());
    crate::text::push_str(&mut b, " {\n\t\tiface ");
    crate::text::push_str(&mut b, cfg.zt_prefix.as_str());
    crate::text::push_str(&mut b, "+\n\t}\n}\n");
    crate::text::string_of(&b)
}

/// How to install ndppd on `os` with the package manager found; afterwards
/// the status is read again.
pub fn install(os: &str, pm: Option<Installer>) -> (r: Result<InstallPlan, NdpError>)
    ensures
        os@ != "linux"@ ==> (r matches Err(NdpError::UnsupportedPlatform(m)) && m@ == "ndppd requires Linux"@),
        os@ == "linux"@ && pm is None ==> (r matches Err(NdpError::Command(m))
            && m@ == "No supported package manager (apt/dnf/pacman) found"@),
        os@ == "linux"@ && pm is Some ==> (r matches Ok(plan) && plan.failure@ == "Failed to install ndppd"@
            && plan.step@ == match pm->0 {
                Installer::Apt => run("apt-get"@, seq!["install"@, "-y"@, "ndppd"@], OnFailure::Abort),
                Installer::Dnf => run("dnf"@, seq!["install"@, "-y"@, "ndppd"@], OnFailure::Abort),
                Installer::Pacman => run("pacman"@, seq!["-S"@, "--noconfirm"@, "ndppd"@], OnFailure::Abort),
            }),
{
    if !crate::text::str_eq(os, "linux") {
        return Err(NdpError::UnsupportedPlatform("ndppd requires Linux".to_owned()));
    }
    let pm = match pm {
        Some(m) => m,
        None => return Err(NdpError::Command("No supported package manager (apt/dnf/pacman) found".to_owned())),
    };
    let step = match pm {
        Installer::Apt => run_step("apt-get", &["install", "-y", "ndppd"], OnFailure::Abort),
        Installer::Dnf => run_step("dnf", &["install", "-y", "ndppd"], OnFailure::Abort),
        Installer::Pacman => run_step("pacman", &["-S", "--noconfirm", "ndppd"], OnFailure::Abort),
    };
    proof {
        assert(seq!["install", "-y", "ndppd"].map_values(|x: &str| x@) =~= seq!["install"@, "-y"@, "ndppd"@]);
        assert(seq!["-S", "--noconfirm", "ndppd"].map_values(|x: &str| x@) =~= seq!["-S"@, "--noconfirm"@, "ndppd"@]);
    }
    Ok(InstallPlan { step, failure: "Failed to install ndppd".to_owned() })
}

/// The steps of `enable`: write the config, reload systemd, enable and start
/// the service.
pub open spec fn enable_spec(cfg: NdpConfig) -> Seq<StepView> {
    seq![
        crate::command::file_write("/etc/ndppd.conf"@, config_text(cfg), OnFailure::Abort),
        run("systemctl"@, seq!["daemon-reload"@], OnFailure::Ignore),
        run("systemctl"@, seq!["enable"@, "--now"@, "ndppd"@], OnFailure::Abort),
    ]
}

/// How to write `/etc/ndppd.conf` and start ndppd on `os`; afterwards the
/// status is read again.
pub fn enable(cfg: &NdpConfig, os: &str) -> (r: Result<Vec<Step>, NdpError>)
    ensures
        os@ != "linux"@ ==> (r matches Err(NdpError::UnsupportedPlatform(m)) && m@ == "ndppd requires Linux"@),
        os@ == "linux"@ ==> (r matches Ok(v) && step_views(v@) == enable_spec(*cfg)),
{
    if !crate::text::str_eq(os, "linux") {
        return Err(NdpError::UnsupportedPlatform("ndppd requires Linux".to_owned()));
    }
    let content = config_content(cfg);
    let s0 = Step {
        action: Action::Write { path: "/etc/ndppd.conf".to_owned(), content },
        on_failure: OnFailure::Abort,
    };
    let a1 = ["daemon-reload"];
    assert(a1@.map_values(|x: &str| x@) =~= seq!["daemon-reload"@]);
    let s1 = run_step("systemctl", &a1, OnFailure::Ignore);
    let a2 = ["enable", "--now", "ndppd"];
    assert(a2@.map_values(|x: &str| x@) =~= seq!["enable"@, "--now"@, "ndppd"@]);
    let s2 = run_step("systemctl", &a2, OnFailure::Abort);
    let ghost v = seq![s0@, s1@, s2@];
    let mut r: Vec<Step> = Vec::new();
    r.push(s0);
    r.push(s1);
    r.push(s2);
    proof {
        assert(seq!["daemon-reload"].map_values(|x: &str| x@) =~= seq!["daemon-reload"@]);
        assert(seq!["enable", "--now", "ndppd"].map_values(|x: &str| x@) =~= seq!["enable"@, "--now"@, "ndppd"@]);
        assert(step_views(r@) =~= v);
        assert(v[0] == crate::command::file_write("/etc/ndppd.conf"@, config_text(*cfg), OnFailure::Abort));
        assert(v[1] == run("systemctl"@, seq!["daemon-reload"@], OnFailure::Ignore));
        assert(v[2] == run("systemctl"@, seq!["enable"@, "--now"@, "ndppd"@], OnFailure::Abort));
        assert(v =~= enable_spec(*cfg));
    }
    Ok(r)
}

/// The steps of `disable`: stop and disable the service and, when asked,
/// remove the config; failures are ignored.
pub open spec fn disable_spec(remove_config: bool) -> Seq<StepView> {
    let base = seq![
        run("systemctl"@, seq!["stop"@, "ndppd"@], OnFailure::Ignore),
        run("systemctl"@, seq!["disable"@, "ndppd"@], OnFailure::Ignore),
    ];
    if remove_config {
        base.push(StepView { action: crate::command::ActionView::Remove { path: "/etc/ndppd.conf"@ }, on_failure: OnFailure::Ignore })
    } else {
        base
    }
}

/// How to stop ndppd on `os`; afterwards the status is read again.
pub fn disable(remove_config: bool, os: &str) -> (r: Result<Vec<Step>, NdpError>)
    ensures
        os@ != "linux"@ ==> (r matches Err(NdpError::UnsupportedPlatform(m)) && m@ == "ndppd requires Linux"@),
        os@ == "linux"@ ==> (r matches Ok(v) && step_views(v@) == disable_spec(remove_config)),
{
    if !crate::text::str_eq(os, "linux") {
        return Err(NdpError::UnsupportedPlatform("ndppd requires Linux".to_owned()));
    }
    let s0 = run_step("systemctl", &["stop", "ndppd"], OnFailure::Ignore);
    let s1 = run_step("systemctl", &["disable", "ndppd"], OnFailure::Ignore);
    let ghost v = seq![s0@, s1@];
    let mut r: Vec<Step> = Vec::new();
    r.push(s0);
    r.push(s1);
    proof {
        assert(seq!["stop", "ndppd"].map_values(|x: &str| x@) =~= seq!["stop"@, "ndppd"@]);
        assert(seq!["disable", "ndppd"].map_values(|x: &str| x@) =~= seq!["disable"@, "ndppd"@]);
        assert(step_views(r@) =~= v);
    }
    if remove_config {
        let s2 = Step { action: Action::Remove { path: "/etc/ndppd.conf".to_owned() }, on_failure: OnFailure::Ignore };
        let ghost v2 = s2@;
        r.push(s2);
        assert(step_views(r@) =~= v.push(v2));
    }
    Ok(r)
}

/// The error of a failed step of these plans: a file failure is an I/O
/// error with its text; a failed `systemctl` command is reported as
/// `systemctl <args> failed` (`systemctl enable --now ndppd failed`); a
/// failed install command as `Failed to install ndppd`.
pub fn step_error(step: &Step, failure: StepFailure) -> (r: NdpError)
    ensures
        is_io_failure(step.action@, failure) ==> (r matches NdpError::Io(m) && m@ == failure_text(failure)),
        !is_io_failure(step.action@, failure) ==> match step.action@ {
            ActionView::Run { program, args } => if program == "systemctl"@ {
                r matches NdpError::Command(m) && m@ == command_line(program, args) + " failed"@
            } else {
                r matches NdpError::Command(m) && m@ == "Failed to install ndppd"@
            },
            _ => r matches NdpError::Command(m) && m@ == "Failed to install ndppd"@,
        },
{
    if io_failure(&step.action, &failure) {
        return match failure {
            StepFailure::Spawn(e) => NdpError::Io(e),
            StepFailure::Input(e) => NdpError::Io(e),
            StepFailure::Wait(e) => NdpError::Io(e),
            StepFailure::Exit(e) => NdpError::Io(e),
            StepFailure::File(e) => NdpError::Io(e),
        };
    }
    if runs_program(&step.action, "systemctl") {
        match &step.action {
            Action::Run { program, args } => {
                let mut b = crate::text::lit(command_line_of(program.as_str(), args).as_str());
                crate::text::push_str(&mut b, " failed");
                return NdpError::Command(crate::text::string_of(&b));
            },
            _ => {},
        }
    }
    NdpError::Command("Failed to install ndppd".to_owned())
}

} // verus!

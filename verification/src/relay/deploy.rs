//! Deploying the pylon relay over SSH, as a sequence of remote commands
//! whose outcomes decide what comes next:
//!  1. check the connection,
//!  2. install Docker when it is missing,
//!  3. stop UFW when asked (it conflicts with Docker's iptables rules),
//!  4. remove an old container, and
//!  5. start `zerotier/pylon:latest reflect` on the configured port.
use super::ssh::SshError;
use super::RelayDeployConfig;
use crate::text::{decimal, decimal_vec, lit, push_str, string_of};
use vstd::prelude::*;

verus! {

/// Why deploying failed.
#[derive(Debug, Clone)]
pub enum DeployError {
    Ssh(SshError),
    Step(String),
}

impl DeployError {
    pub open spec fn message_spec(&self) -> Seq<char> {
        match self {
            DeployError::Ssh(e) => "SSH error: "@ + e.message_spec(),
            DeployError::Step(m) => "Deploy step failed: "@ + m@,
        }
    }

    /// The human-readable description of the error (what `Display` shows).
    pub fn message(&self) -> (r: String)
        ensures
            r@ == self.message_spec(),
    {
        let mut b = match self {
            DeployError::Ssh(_) => lit("SSH error: "),
            DeployError::Step(_) => lit("Deploy step failed: "),
        };
        let m = match self {
            DeployError::Ssh(e) => e.message(),
            DeployError::Step(m) => m.clone(),
        };
        push_str(&mut b, m.as_str());
        string_of(&b)
    }
}

/// The remote command being waited for.
#[derive(Debug, Clone, Copy, PartialEq, Eq, Structural)]
pub enum DeployPhase {
    Connect,
    ProbeDocker,
    InstallDocker,
    EnableDocker,
    StopUfw,
    ClearOld,
    StartPylon,
}

/// What to do next.
#[derive(Debug, Clone)]
pub enum DeployNext {
    /// Run `command` on the remote host and report its outcome for `phase`.
    Run { phase: DeployPhase, command: String },
    Fail(DeployError),
    /// The relay runs.
    Done,
}

pub open spec fn connect_cmd() -> Seq<char> { "echo ztnet-ok"@ }
pub open spec fn probe_docker_cmd() -> Seq<char> { "command -v docker"@ }
pub open spec fn install_docker_cmd() -> Seq<char> { "curl -fsSL https://get.docker.com | sh"@ }
pub open spec fn enable_docker_cmd() -> Seq<char> { "systemctl enable --now docker"@ }
pub open spec fn stop_ufw_cmd() -> Seq<char> { "systemctl stop ufw && systemctl disable ufw"@ }
pub open spec fn clear_old_cmd() -> Seq<char> { "docker stop ztnet-pylon 2>/dev/null; docker rm ztnet-pylon 2>/dev/null"@ }

/// The command that starts the pylon container on `port`.
pub open spec fn pylon_cmd(port: u16) -> Seq<char> {
    "docker run -d --name ztnet-pylon --restart unless-stopped -p "@ + decimal(port as nat) + ":"@
        + decimal(port as nat) + "/tcp zerotier/pylon:latest reflect"@
}

/// The command that stops and removes the pylon container.
pub open spec fn remove_cmd() -> Seq<char> {
    "docker stop ztnet-pylon && docker rm ztnet-pylon"@
}

/// The model of a next move: the phase and command, a failure, or done.
pub open spec fn is_run(n: DeployNext, phase: DeployPhase, cmd: Seq<char>) -> bool {
    n matches DeployNext::Run { phase: p, command: c } && p == phase && c@ == cmd
}

/// What follows Docker being there: UFW stopped when asked, else the old
/// container removed.
pub open spec fn after_docker(cfg: RelayDeployConfig, n: DeployNext) -> bool {
    if cfg.stop_ufw {
        is_run(n, DeployPhase::StopUfw, stop_ufw_cmd())
    } else {
        is_run(n, DeployPhase::ClearOld, clear_old_cmd())
    }
}

fn pylon_command(port: u16) -> (r: String)
    ensures
        r@ == pylon_cmd(port),
{
    let mut b = lit("docker run -d --name ztnet-pylon --restart unless-stopped -p ");
    let d = decimal_vec(port as u64);
    let ghost b0 = b@;
    let mut k: usize = 0;
    while k < d.len()
        invariant
            k <= d.len(),
            b@ =~= b0 + d@.take(k as int),
        decreases d.len() - k,
    {
        b.push(d[k]);
        assert(d@.take(k + 1) =~= d@.take(k as int).push(d@[k as int]));
        k += 1;
    }
    assert(d@.take(d.len() as int) =~= d@);
    push_str(&mut b, ":");
    let ghost b1 = b@;
    let mut k: usize = 0;
    while k < d.len()
        invariant
            k <= d.len(),
            b@ =~= b1 + d@.take(k as int),
        decreases d.len() - k,
    {
        b.push(d[k]);
        assert(d@.take(k + 1) =~= d@.take(k as int).push(d@[k as int]));
        k += 1;
    }
    push_str(&mut b, "/tcp zerotier/pylon:latest reflect");
    string_of(&b)
}

fn run_next(phase: DeployPhase, command: &str) -> (r: DeployNext)
    ensures
        is_run(r, phase, command@),
{
    DeployNext::Run { phase, command: command.to_owned() }
}

fn docker_ready(cfg: &RelayDeployConfig) -> (r: DeployNext)
    ensures
        after_docker(*cfg, r),
{
    if cfg.stop_ufw {
        run_next(DeployPhase::StopUfw, "systemctl stop ufw && systemctl disable ufw")
    } else {
        run_next(DeployPhase::ClearOld, "docker stop ztnet-pylon 2>/dev/null; docker rm ztnet-pylon 2>/dev/null")
    }
}

fn step_error(prefix: &str, e: &SshError) -> (r: DeployError)
    ensures
        r matches DeployError::Step(m) && m@ == prefix@ + e.message_spec(),
{
    let mut b = lit(prefix);
    let m = e.message();
    push_str(&mut b, m.as_str());
    DeployError::Step(string_of(&b))
}

/// How many commands at most are still to come after the command of a phase:
/// every move goes to a phase of lower rank, so a deployment ends (done or
/// failed) after at most seven commands.
pub open spec fn phase_rank(p: DeployPhase) -> nat {
    match p {
        DeployPhase::Connect => 6,
        DeployPhase::ProbeDocker => 5,
        DeployPhase::InstallDocker => 4,
        DeployPhase::EnableDocker => 3,
        DeployPhase::StopUfw => 2,
        DeployPhase::ClearOld => 1,
        DeployPhase::StartPylon => 0,
    }
}

/// The first move: check the connection.
pub fn deploy_start() -> (r: DeployNext)
    ensures
        is_run(r, DeployPhase::Connect, connect_cmd()),
{
    run_next(DeployPhase::Connect, "echo ztnet-ok")
}

/// The move after the command of `phase` finished with `outcome`.
pub fn deploy_step(cfg: &RelayDeployConfig, phase: DeployPhase, outcome: Result<(), SshError>) -> (r: DeployNext)
    ensures
        r matches DeployNext::Run { phase: next, .. } ==> phase_rank(next) < phase_rank(phase),
        match phase {
            DeployPhase::Connect => match outcome {
                Err(e) => r matches DeployNext::Fail(DeployError::Ssh(x)) && x == e,
                Ok(_) => is_run(r, DeployPhase::ProbeDocker, probe_docker_cmd()),
            },
            DeployPhase::ProbeDocker => match outcome {
                Ok(_) => after_docker(*cfg, r),
                Err(_) => is_run(r, DeployPhase::InstallDocker, install_docker_cmd()),
            },
            DeployPhase::InstallDocker => match outcome {
                Err(e) => r matches DeployNext::Fail(DeployError::Step(m)) && m@ == "Docker install failed: "@ + e.message_spec(),
                Ok(_) => is_run(r, DeployPhase::EnableDocker, enable_docker_cmd()),
            },
            DeployPhase::EnableDocker => match outcome {
                Err(e) => r matches DeployNext::Fail(DeployError::Step(m)) && m@ == "Docker enable failed: "@ + e.message_spec(),
                Ok(_) => after_docker(*cfg, r),
            },
            DeployPhase::StopUfw => is_run(r, DeployPhase::ClearOld, clear_old_cmd()),
            DeployPhase::ClearOld => is_run(r, DeployPhase::StartPylon, pylon_cmd(cfg.pylon_port)),
            DeployPhase::StartPylon => match outcome {
                Err(e) => r matches DeployNext::Fail(DeployError::Step(m)) && m@ == "pylon container start failed: "@ + e.message_spec(),
                Ok(_) => r matches DeployNext::Done,
            },
        },
{
    match phase {
        DeployPhase::Connect => match outcome {
            Err(e) => DeployNext::Fail(DeployError::Ssh(e)),
            Ok(_) => run_next(DeployPhase::ProbeDocker, "command -v docker"),
        },
        DeployPhase::ProbeDocker => match outcome {
            Ok(_) => docker_ready(cfg),
            Err(_) => run_next(DeployPhase::InstallDocker, "curl -fsSL https://get.docker.com | sh"),
        },
        DeployPhase::InstallDocker => match outcome {
            Err(e) => DeployNext::Fail(step_error("Docker install failed: ", &e)),
            Ok(_) => run_next(DeployPhase::EnableDocker, "systemctl enable --now docker"),
        },
        DeployPhase::EnableDocker => match outcome {
            Err(e) => DeployNext::Fail(step_error("Docker enable failed: ", &e)),
            Ok(_) => docker_ready(cfg),
        },
        DeployPhase::StopUfw => run_next(
            DeployPhase::ClearOld,
            "docker stop ztnet-pylon 2>/dev/null; docker rm ztnet-pylon 2>/dev/null",
        ),
        DeployPhase::ClearOld => {
            let c = pylon_command(cfg.pylon_port);
            DeployNext::Run { phase: DeployPhase::StartPylon, command: c }
        },
        DeployPhase::StartPylon => match outcome {
            Err(e) => DeployNext::Fail(step_error("pylon container start failed: ", &e)),
            Ok(_) => DeployNext::Done,
        },
    }
}

/// The record of a relay deployed with `cfg` at `deployed_at`.
pub fn deployed_info(cfg: &RelayDeployConfig, deployed_at: String) -> (r: super::RemoteRelayInfo)
    ensures
        r.host == cfg.host,
        r.port == cfg.pylon_port,
        r.reachable == Some(true),
        r.deployed_at == deployed_at,
{
    super::RemoteRelayInfo { host: cfg.host.clone(), port: cfg.pylon_port, reachable: Some(true), deployed_at }
}

/// Where and what to run to stop and remove the pylon container recorded in
/// `info`: the relay's host, with the SSH port, user and key of `ssh_cfg`.
/// The command's outcome is ignored.
pub fn remove(info: &super::RemoteRelayInfo, ssh_cfg: &RelayDeployConfig) -> (r: (super::ssh::SshClient, String))
    ensures
        r.0.host == info.host,
        r.0.port == ssh_cfg.ssh_port,
        r.0.user == ssh_cfg.ssh_user,
        r.0.key_path == ssh_cfg.key_path,
        r.1@ == remove_cmd(),
{
    let client = super::ssh::SshClient {
        host: info.host.clone(),
        port: ssh_cfg.ssh_port,
        user: ssh_cfg.ssh_user.clone(),
        key_path: crate::text::copy_opt(&ssh_cfg.key_path),
    };
    (client, "docker stop ztnet-pylon && docker rm ztnet-pylon".to_owned())
}

/// The client that deploys with `cfg`.
pub fn client_for(cfg: &RelayDeployConfig) -> (r: super::ssh::SshClient)
    ensures
        r.host == cfg.host,
        r.port == cfg.ssh_port,
        r.user == cfg.ssh_user,
        r.key_path == cfg.key_path,
{
    super::ssh::SshClient {
        host: cfg.host.clone(),
        port: cfg.ssh_port,
        user: cfg.ssh_user.clone(),
        key_path: crate::text::copy_opt(&cfg.key_path),
    }
}

} // verus!

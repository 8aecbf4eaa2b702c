use ztnet_box::relay::deploy::{deploy_start, deploy_step, remove, DeployNext, DeployPhase};
use ztnet_box::relay::ssh::{SshClient, SshError};
use ztnet_box::relay::{default_pylon_port, default_ssh_port, default_ssh_user, default_true, RelayDeployConfig, RemoteRelayInfo};

#[test]
fn ssh_client_fields() {
    let c = SshClient {
        host: "1.2.3.4".into(),
        port: 22,
        user: "root".into(),
        key_path: Some("/tmp/key".into()),
    };
    assert_eq!(c.host, "1.2.3.4");
    assert_eq!(c.port, 22);
    assert_eq!(c.key_path.as_deref(), Some("/tmp/key"));
}

#[test]
fn ssh_client_no_key() {
    let c = SshClient {
        host: "1.2.3.4".into(),
        port: 22,
        user: "root".into(),
        key_path: None,
    };
    assert!(c.key_path.is_none());
}

#[test]
fn ssh_command_arguments() {
    let c = SshClient { host: "1.2.3.4".into(), port: 2222, user: "admin".into(), key_path: Some("/k".into()) };
    let args = c.command_args("echo ztnet-ok");
    assert_eq!(
        args,
        vec![
            "-p", "2222", "-o", "StrictHostKeyChecking=accept-new", "-o", "BatchMode=yes", "-o",
            "ConnectTimeout=15", "-o", "ServerAliveInterval=10", "-o", "ServerAliveCountMax=3", "-i", "/k",
            "admin@1.2.3.4", "echo ztnet-ok",
        ]
    );
}

fn cfg(stop_ufw: bool) -> RelayDeployConfig {
    RelayDeployConfig {
        host: "1.2.3.4".into(),
        ssh_port: default_ssh_port(),
        ssh_user: default_ssh_user(),
        key_path: None,
        pylon_port: default_pylon_port(),
        stop_ufw,
    }
}

fn run_of(n: &DeployNext) -> (DeployPhase, String) {
    match n {
        DeployNext::Run { phase, command } => (*phase, command.clone()),
        _ => panic!("expected a command"),
    }
}

#[test]
fn relay_deploy_config_defaults_by_functions() {
    let c = cfg(default_true());
    assert_eq!(c.ssh_port, 22);
    assert_eq!(c.ssh_user, "root");
    assert_eq!(c.pylon_port, 443);
    assert!(c.stop_ufw);
}

#[test]
fn deploy_sequence_with_docker_missing() {
    let c = cfg(true);
    let (p, cmd) = run_of(&deploy_start());
    assert_eq!(p, DeployPhase::Connect);
    assert_eq!(cmd, "echo ztnet-ok");
    let (p, cmd) = run_of(&deploy_step(&c, p, Ok(())));
    assert_eq!(cmd, "command -v docker");
    let fail = SshError::Failed { code: 1, stderr: "".into() };
    let (p, cmd) = run_of(&deploy_step(&c, p, Err(fail)));
    assert_eq!(cmd, "curl -fsSL https://get.docker.com | sh");
    let (p, cmd) = run_of(&deploy_step(&c, p, Ok(())));
    assert_eq!(cmd, "systemctl enable --now docker");
    let (p, cmd) = run_of(&deploy_step(&c, p, Ok(())));
    assert_eq!(cmd, "systemctl stop ufw && systemctl disable ufw");
    let (p, _) = run_of(&deploy_step(&c, p, Err(SshError::Io("x".into()))));
    let (p, cmd) = run_of(&deploy_step(&c, p, Ok(())));
    assert_eq!(cmd, "docker run -d --name ztnet-pylon --restart unless-stopped -p 443:443/tcp zerotier/pylon:latest reflect");
    assert!(matches!(deploy_step(&c, p, Ok(())), DeployNext::Done));
}

#[test]
fn deploy_failures_carry_messages() {
    let c = cfg(false);
    match deploy_step(&c, DeployPhase::InstallDocker, Err(SshError::Failed { code: -1, stderr: "boom".into() })) {
        DeployNext::Fail(e) => assert_eq!(
            e.message(),
            "Deploy step failed: Docker install failed: ssh command failed (exit -1): boom"
        ),
        _ => panic!(),
    }
    match deploy_step(&c, DeployPhase::Connect, Err(SshError::NotFound("no ssh".into()))) {
        DeployNext::Fail(e) => assert_eq!(e.message(), "SSH error: ssh binary not found: no ssh"),
        _ => panic!(),
    }
    let (p, _) = run_of(&deploy_step(&c, DeployPhase::ProbeDocker, Ok(())));
    assert_eq!(p, DeployPhase::ClearOld);
}

#[test]
fn remove_uses_relay_host() {
    let info = RemoteRelayInfo { host: "5.6.7.8".into(), port: 443, reachable: None, deployed_at: "t".into() };
    let (client, cmd) = remove(&info, &cfg(true));
    assert_eq!(client.host, "5.6.7.8");
    assert_eq!(client.port, 22);
    assert_eq!(cmd, "docker stop ztnet-pylon && docker rm ztnet-pylon");
}

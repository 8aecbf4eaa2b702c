use ztnet_box::command::Action;
use ztnet_box::zerotier::detection::{
    detect, detect_package_manager, install, parse_cli_info, InstallDecision, InstallResult, ManagerProbe, PackageManager,
};

#[test]
fn version_parse_format() {
    let line = "200 info deadbeef01 1.12.2 ONLINE";
    let mut parts = line.split_whitespace();
    let code = parts.next().unwrap();
    let _info = parts.next().unwrap();
    let _nodeid = parts.next().unwrap();
    let version = parts.next().unwrap();
    assert_eq!(code, "200");
    assert_eq!(version, "1.12.2");
    assert_eq!(parse_cli_info(line).as_deref(), Some("1.12.2"));
}

#[test]
fn cli_info_edge_cases() {
    assert_eq!(parse_cli_info("  200   info  x   1.14.0\n").as_deref(), Some("1.14.0"));
    assert_eq!(parse_cli_info("500 info deadbeef01 1.12.2 ONLINE"), None);
    assert_eq!(parse_cli_info("200 info deadbeef01"), None);
    assert_eq!(parse_cli_info(""), None);
}

#[test]
fn detect_reads_version_only_with_cli() {
    let d = detect(None, None, false, Some("200 info a 1.0 ONLINE".into()));
    assert!(d.version.is_none());
    let d = detect(Some("/usr/sbin/zerotier-one".into()), None, true, Some("200 info a 1.0 ONLINE".into()));
    assert_eq!(d.version.as_deref(), Some("1.0"));
}

#[test]
fn package_manager_order() {
    let p = ManagerProbe { apt_get: false, dnf: false, yum: true, pacman: true, brew: true };
    assert_eq!(detect_package_manager(p), Some(PackageManager::Dnf));
    let p = ManagerProbe { apt_get: false, dnf: false, yum: false, pacman: false, brew: false };
    assert_eq!(detect_package_manager(p), None);
}

#[test]
fn install_decisions() {
    let found = detect(Some("/usr/sbin/zerotier-one".into()), None, false, None);
    assert!(matches!(install(PackageManager::Apt, found, "linux", true), InstallDecision::Done(InstallResult::AlreadyInstalled(_))));
    let none = detect(None, None, false, None);
    assert!(matches!(
        install(PackageManager::Apt, none.clone(), "windows", true),
        InstallDecision::Done(InstallResult::UnsupportedPlatform { .. })
    ));
    match install(PackageManager::Dnf, none, "linux", false) {
        InstallDecision::Run { step, failure } => {
            match &step.action {
                Action::Run { program, .. } => assert_eq!(program, "/usr/bin/yum"),
                _ => panic!(),
            }
            assert_eq!(failure, "Package manager Dnf failed. Try manually: https://www.zerotier.com/download/");
        }
        _ => panic!(),
    }
}

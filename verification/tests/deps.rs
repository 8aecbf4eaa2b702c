use ztnet_box::command::{Action, Installer};
use ztnet_box::deps::{
    enable_and_start, ensure_first, ensure_next, find_service_file, install_failed, install_steps, is_supported_platform,
    patch_exec_start, zt_home_candidates, DepsError, EnsureStep,
};

#[test]
fn zt_home_candidates_non_empty() {
    assert!(!zt_home_candidates().is_empty());
}

#[test]
fn patch_idempotent() {
    let service = "\
[Unit]\nDescription=ZeroTier One\n\n\
[Service]\nExecStart=/usr/sbin/zerotier-one\nRestart=always\n\
[Install]\nWantedBy=multi-user.target\n";
    let after = patch_exec_start(service).unwrap();
    assert!(after.contains("zerotier-one -U"), "should add -U flag");
    // A second patch finds the flag and changes nothing.
    assert!(patch_exec_start(&after).is_none());
    assert_eq!(after.matches("-U").count(), 1, "-U should appear exactly once");
}

#[test]
fn patch_preserves_existing_flags() {
    let service = "\
[Service]\nExecStart=/usr/sbin/zerotier-one --some-flag\n";
    let after = patch_exec_start(service).unwrap();
    assert!(after.contains("--some-flag -U"), "existing flags preserved");
    // Patching again rewrites the same text.
    assert_eq!(patch_exec_start(&after).unwrap(), after);
}

#[test]
fn patch_skips_when_already_patched() {
    let service = "[Service]\nExecStart=/usr/sbin/zerotier-one -U\n";
    assert!(patch_exec_start(service).is_none(), "file unchanged when already patched");
}

#[test]
fn patch_keeps_missing_final_newline() {
    assert_eq!(
        patch_exec_start("  ExecStart=/usr/sbin/zerotier-one").unwrap(),
        "  ExecStart=/usr/sbin/zerotier-one -U"
    );
}

#[test]
fn ensure_sequence() {
    assert_eq!(ensure_first(true, "linux", false, None).unwrap(), EnsureStep::Done);
    assert_eq!(ensure_first(false, "windows", false, None).unwrap(), EnsureStep::Done);
    assert!(matches!(ensure_first(false, "linux", false, None), Err(DepsError::NoPackageManager)));
    let s = ensure_first(false, "macos", false, Some(Installer::Apt)).unwrap();
    assert_eq!(s, EnsureStep::Install(Installer::Apt));
    let s = ensure_next(s);
    assert_eq!(s, EnsureStep::PatchService { fatal: true });
    assert_eq!(ensure_first(false, "linux", true, None).unwrap(), EnsureStep::PatchService { fatal: false });
    let s = ensure_next(ensure_next(s));
    assert_eq!(s, EnsureStep::EnableAndStart);
    assert_eq!(ensure_next(s), EnsureStep::WaitForDaemon(15));
    assert!(is_supported_platform("macos"));
    assert!(!is_supported_platform("freebsd"));
}

#[test]
fn deps_messages() {
    assert_eq!(DepsError::DaemonNotReady(15).message(), "zerotier-one daemon socket not ready after 15s");
    assert_eq!(
        install_failed(Installer::Apt).message(),
        "zerotier-one install failed: Package manager Apt exited non-zero. Try manually: curl -s https://install.zerotier.com | sudo bash"
    );
    match enable_and_start(false, false, "dead") {
        Err(e) => assert_eq!(e.message(), "Failed to enable/start zerotier-one.service: systemctl start/restart failed:\ndead"),
        Ok(_) => panic!(),
    }
    assert!(enable_and_start(false, true, "").is_ok());
}

#[test]
fn install_and_service_file() {
    let steps = install_steps(Installer::Apt, false);
    assert_eq!(steps.len(), 2);
    match &steps[1].action {
        Action::Run { program, args } => {
            assert_eq!(program, "apt-get");
            assert_eq!(args, &vec!["install", "-y", "zerotier-one"]);
        }
        _ => panic!(),
    }
    assert_eq!(find_service_file(true, [true, true, true]), None);
    assert_eq!(
        find_service_file(false, [false, true, true]).as_deref(),
        Some("/usr/lib/systemd/system/zerotier-one.service")
    );
    assert_eq!(find_service_file(false, [false, false, false]), None);
}

#[test]
fn patch_is_idempotent_on_crlf_unit() {
    let unit = "[Service]\r\nExecStart=/usr/sbin/zerotier-one\r\nRestart=always\r\n";
    let once = patch_exec_start(unit).unwrap();
    assert_eq!(once, "[Service]\nExecStart=/usr/sbin/zerotier-one -U\nRestart=always\n");
    assert_eq!(once.matches("-U").count(), 1);
    assert!(patch_exec_start(&once).is_none());
}

use ztnet_box::command::{Action, OnFailure};
use ztnet_box::exitnode::rules::PersistTools;
use ztnet_box::physnet::conflicts::{check, subnets_overlap, ConflictSeverity};
use ztnet_box::physnet::rules::{apply, remove, step_error, PhysNetError};
use ztnet_box::command::StepFailure;
use ztnet_box::physnet::{managed_route_hint, widen_subnet, PhysNetConfig};

#[test]
fn same_prefix_overlaps() {
    assert!(subnets_overlap("192.168.1.0/24", "192.168.2.0/24"));
}

#[test]
fn different_prefix_no_overlap() {
    assert!(!subnets_overlap("10.0.0.0/8", "192.168.1.0/24"));
}

#[test]
fn no_conflict_clean_state() {
    let r = check("192.168.1.0/24", Some("172.27.0.0/16"), false, false);
    assert!(r.conflicts.is_empty());
}

#[test]
fn exitnode_conflict_is_warning() {
    let r = check("192.168.1.0/24", None, true, false);
    assert_eq!(r.conflicts.len(), 1);
    assert!(matches!(r.conflicts[0].severity, ConflictSeverity::Warning));
}

#[test]
fn bridge_conflict_is_error() {
    let r = check("192.168.1.0/24", None, false, true);
    assert_eq!(r.conflicts.len(), 1);
    assert!(matches!(r.conflicts[0].severity, ConflictSeverity::Error));
}

#[test]
fn widen_subnet_24_to_23() {
    assert_eq!(widen_subnet("192.168.100.0/24"), Some("192.168.100.0/23".into()));
}

#[test]
fn widen_subnet_16_to_15() {
    assert_eq!(widen_subnet("172.27.0.0/16"), Some("172.27.0.0/15".into()));
}

#[test]
fn managed_route_hint_returns_wider() {
    assert_eq!(managed_route_hint("192.168.1.0/24"), "192.168.1.0/23");
}

#[test]
fn widen_subnet_edge_cases() {
    assert_eq!(widen_subnet("10.0.0.0"), None);
    assert_eq!(widen_subnet("10.0.0.0/0"), None);
    assert_eq!(widen_subnet("10.0.0.0/x"), None);
    assert_eq!(widen_subnet("10.0.0.0/256"), None);
    assert_eq!(widen_subnet("10.0.0.0/1"), Some("10.0.0.0/0".into()));
    assert_eq!(managed_route_hint("garbage"), "garbage");
}

#[test]
fn overlap_edge_cases() {
    assert!(!subnets_overlap("/24", "/24"));
    assert!(!subnets_overlap("10", "10.1.2.3/8"));
    assert!(subnets_overlap("10.1", "10.1.2.3/8"));
    assert!(!subnets_overlap("10.0", "10.1"));
    let r = check("192.168.1.0/24", Some("192.168.9.0/24"), true, true);
    assert_eq!(r.conflicts.len(), 3);
    assert_eq!(r.conflicts[2].field.as_deref(), Some("phy_subnet"));
    assert_eq!(
        r.conflicts[2].message,
        "Physical subnet 192.168.1.0/24 overlaps with ZeroTier subnet 192.168.9.0/24. This may cause routing loops. Use the /23 trick for the managed route."
    );
}

fn cfg() -> PhysNetConfig {
    PhysNetConfig {
        zt_iface: "zt0".into(),
        phy_iface: "eth0".into(),
        phy_subnet: "192.168.1.0/24".into(),
        zt_addr: "10.147.17.5".into(),
        network_id: "8056c2e21c000001".into(),
    }
}

#[test]
fn physnet_plans() {
    assert!(apply(&cfg(), "macos", PersistTools { netfilter_persistent: false, iptables_save: false })
        .unwrap_err()
        .message()
        .contains("requires Linux"));
    let a = apply(&cfg(), "linux", PersistTools { netfilter_persistent: false, iptables_save: true }).unwrap();
    assert_eq!(a.len(), 6);
    match &a[5].action {
        Action::Run { program, args } => {
            assert_eq!(program, "sh");
            assert_eq!(args, &vec!["-c", "iptables-save > /etc/iptables/rules.v4"]);
        }
        _ => panic!(),
    }
    let d = remove(&cfg(), "linux").unwrap();
    assert_eq!(d.len(), 3);
    for (x, y) in a[2..5].iter().zip(d.iter()) {
        match (&x.action, &y.action) {
            (Action::Run { args: aa, .. }, Action::Run { args: da, .. }) => {
                let back: Vec<String> = da.iter().map(|s| if s == "-D" { "-A".to_string() } else { s.clone() }).collect();
                assert_eq!(&back, aa);
            }
            _ => panic!(),
        }
        assert_eq!(y.on_failure, OnFailure::Ignore);
    }
}

#[test]
fn iptables_failure_reports_args_and_status() {
    let steps = apply(&cfg(), "linux", PersistTools { netfilter_persistent: false, iptables_save: false }).unwrap();
    let i = steps.iter().position(|s| matches!(&s.action, Action::Run { program, .. } if program == "iptables")).unwrap();
    match step_error(&steps[i], StepFailure::Exit("exit status: 1".into())) {
        PhysNetError::Command(m) => {
            assert!(m.starts_with("iptables [\""), "{m}");
            assert!(m.ends_with("] exited: exit status: 1"), "{m}");
        }
        other => panic!("unexpected {other:?}"),
    }
    match step_error(&steps[i], StepFailure::Spawn("No such file or directory (os error 2)".into())) {
        PhysNetError::Command(m) => assert_eq!(m, "iptables spawn: No such file or directory (os error 2)"),
        other => panic!("unexpected {other:?}"),
    }
    match step_error(&steps[0], StepFailure::File("Permission denied (os error 13)".into())) {
        PhysNetError::Io(m) => assert_eq!(m, "Permission denied (os error 13)"),
        other => panic!("unexpected {other:?}"),
    }
}

use ztnet_box::sysctl::{edit, FileEdit, SysctlMode};

#[test]
fn assign_appends_marked_entry_when_absent() {
    let e = edit(SysctlMode::Assign, "kernel.x = 1\n", "net.ipv4.ip_forward", "1");
    assert_eq!(e, FileEdit::Append("# ztnet-box: net.ipv4.ip_forward\nnet.ipv4.ip_forward = 1\n".into()));
}

#[test]
fn assign_rewrites_existing_lines() {
    let content = "a=1\r\n  net.ipv4.conf.all.rp_filter=1\nb=2";
    let e = edit(SysctlMode::Assign, content, "net.ipv4.conf.all.rp_filter", "2");
    assert_eq!(
        e,
        FileEdit::Rewrite(
            "a=1\nnet.ipv4.conf.all.rp_filter = 2  # ztnet-box: net.ipv4.conf.all.rp_filter\nb=2\n".into()
        )
    );
}

#[test]
fn assign_second_time_rewrites_instead_of_appending() {
    let first = "";
    let added = match edit(SysctlMode::Assign, first, "k", "v") {
        FileEdit::Append(t) => t,
        _ => panic!(),
    };
    let second = format!("{first}{added}");
    assert!(matches!(edit(SysctlMode::Assign, &second, "k", "v"), FileEdit::Rewrite(_)));
}

#[test]
fn add_if_absent_once() {
    let added = match edit(SysctlMode::AddIfAbsent, "x = 1\n", "net.ipv4.ip_forward", "1") {
        FileEdit::Append(t) => t,
        _ => panic!(),
    };
    assert_eq!(added, "\n# Added by ztnet-box\nnet.ipv4.ip_forward = 1\n");
    let after = format!("x = 1\n{added}");
    assert_eq!(edit(SysctlMode::AddIfAbsent, &after, "net.ipv4.ip_forward", "1"), FileEdit::Keep);
}

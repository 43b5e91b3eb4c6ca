use remote_mount::deps::{missing_among, missing_from};
use remote_mount::executor::shell_invocation;
use remote_mount::protocols::sshfs::dependencies;

#[test]
fn dependency_list_names_the_three_binaries() {
    assert_eq!(dependencies(), vec!["sshfs", "fusermount", "sh"]);
}

#[test]
fn nothing_missing_when_everything_present() {
    let names = dependencies();
    let present = vec![true, true, true];
    assert!(missing_from(&names, &present).is_none());
}

#[test]
fn absent_unmount_binary_is_reported_alone() {
    let names = dependencies();
    let present = vec![true, false, true];
    assert_eq!(missing_from(&names, &present), Some(vec![String::from("fusermount")]));
}

#[test]
fn all_absent_binaries_are_reported_in_order() {
    let names = dependencies();
    let present = vec![false, false, false];
    assert_eq!(
        missing_from(&names, &present),
        Some(vec![
            String::from("sshfs"),
            String::from("fusermount"),
            String::from("sh"),
        ])
    );
}

#[test]
fn checking_twice_yields_identical_results() {
    let names = dependencies();
    let present = vec![true, false, true];
    assert_eq!(missing_from(&names, &present), missing_from(&names, &present));
}

#[test]
fn path_scan_finds_the_shell() {
    let names = vec![String::from("sh")];
    assert!(missing_among(&names).is_none());
}

#[test]
fn path_scan_reports_an_impossible_binary() {
    let names = vec![
        String::from("sh"),
        String::from("no-such-binary-for-this-test"),
    ];
    assert_eq!(
        missing_among(&names),
        Some(vec![String::from("no-such-binary-for-this-test")])
    );
}

#[test]
fn shell_invocation_wraps_the_command() {
    assert_eq!(
        shell_invocation("/bin/sh", "echo hi"),
        "/bin/sh -c 'echo hi'"
    );
}

use remote_mount::protocols::sshfs::{Sshfs, UnmountedState};
use remote_mount::redaction::{redact, redaction_marker};

#[test]
fn marker_is_ten_asterisks() {
    assert_eq!(redaction_marker(), "**********");
}

#[test]
fn redact_replaces_single_occurrence() {
    assert_eq!(redact("echo 'pw' | tool", "pw"), "echo '**********' | tool");
}

#[test]
fn redact_replaces_every_occurrence() {
    assert_eq!(redact("abcabz", "ab"), "**********c**********z");
}

#[test]
fn redact_is_greedy_left_to_right() {
    assert_eq!(redact("aaa", "aa"), "**********a");
}

#[test]
fn redact_leaves_text_without_secret_unchanged() {
    assert_eq!(redact("echo hello", "pw"), "echo hello");
}

#[test]
fn redact_with_empty_secret_leaves_text_unchanged() {
    assert_eq!(redact("echo hello", ""), "echo hello");
}

#[test]
fn redacted_mount_command_hides_password() {
    let h: Sshfs<UnmountedState> = Sshfs::new(
        String::from("/mnt/x"),
        String::from("user@host:/remote"),
        String::from("ro"),
        String::from("secret123"),
        String::new(),
    );
    let cmd = h.mount_invocation("/usr/bin/sshfs");
    assert!(cmd.contains("secret123"));
    let logged = redact(cmd.as_str(), "secret123");
    assert!(!logged.contains("secret123"));
    assert!(logged.contains("**********"));
    assert_eq!(
        logged,
        "echo '**********' | /usr/bin/sshfs user@host:/remote /mnt/x -o password_stdin,ro "
    );
}

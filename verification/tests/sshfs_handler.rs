use remote_mount::executor::CommandOutput;
use remote_mount::protocols::errors::{MountError, ProtocolError, UnmountError};
use remote_mount::protocols::sshfs::{Sshfs, UnmountedState};
use remote_mount::protocols::{Mounted, Protocol, ProtocolHandler, Unmounted};

fn handler(options: &str) -> Sshfs<UnmountedState> {
    Sshfs::new(
        String::from("/mnt/x"),
        String::from("user@host:/remote"),
        String::from(options),
        String::from("secret123"),
        String::new(),
    )
}

fn ok_output(stdout: &str) -> CommandOutput {
    CommandOutput {
        stdout: String::from(stdout),
        stderr: String::new(),
        success: true,
    }
}

fn failed_output(stderr: &str) -> CommandOutput {
    CommandOutput {
        stdout: String::new(),
        stderr: String::from(stderr),
        success: true,
    }
}

#[test]
fn new_carries_parameters() {
    let h = handler("ro");
    assert_eq!(h.mountpoint(), "/mnt/x");
    assert_eq!(h.connection_string(), "user@host:/remote");
    assert_eq!(h.options(), "ro");
    assert_eq!(h.extra_args(), "");
}

#[test]
fn protocol_tag_is_sshfs() {
    let h = handler("");
    assert_eq!(h.protocol(), Protocol::Sshfs);
}

#[test]
fn unmounted_handle_reports_not_mounted() {
    assert!(!handler("").is_mounted());
}

#[test]
fn mount_invocation_without_options() {
    let h = handler("");
    let cmd = h.mount_invocation("/usr/bin/sshfs");
    assert_eq!(
        cmd,
        "echo 'secret123' | /usr/bin/sshfs user@host:/remote /mnt/x  "
    );
}

#[test]
fn mount_invocation_with_options() {
    let h = handler("ro,reconnect");
    let cmd = h.mount_invocation("/usr/bin/sshfs");
    assert!(cmd.contains("-o password_stdin,ro,reconnect"));
    assert_eq!(
        cmd,
        "echo 'secret123' | /usr/bin/sshfs user@host:/remote /mnt/x -o password_stdin,ro,reconnect "
    );
}

#[test]
fn options_clause_empty_and_set() {
    assert_eq!(handler("").options_clause(), "");
    assert_eq!(
        handler("ro,reconnect").options_clause(),
        "-o password_stdin,ro,reconnect"
    );
}

#[test]
fn finish_mount_fails_on_stderr() {
    let h = handler("");
    let r = h.finish_mount(failed_output("boom"));
    assert!(matches!(r, Err(MountError::MountFailed(detail)) if detail == "boom"));
}

#[test]
fn finish_mount_succeeds_on_silent_run() {
    let h = handler("");
    let (mounted, payload) = h.finish_mount(ok_output("done")).unwrap();
    assert_eq!(payload, "done");
    assert!(mounted.is_mounted());
    assert_eq!(mounted.mountpoint(), "/mnt/x");
    assert_eq!(mounted.connection_string(), "user@host:/remote");
}

#[test]
fn finish_unmount_fails_on_stderr() {
    let h = handler("");
    let (mounted, _) = h.finish_mount(ok_output("")).unwrap();
    let r = mounted.finish_unmount(failed_output("busy"));
    assert!(matches!(r, Err(UnmountError::UnmountFailed(detail)) if detail == "busy"));
}

#[test]
fn mount_unmount_round_trip_preserves_parameters() {
    let h = handler("ro");
    let (mounted, _) = h.finish_mount(ok_output("")).unwrap();
    let (back, _) = mounted.finish_unmount(ok_output("")).unwrap();
    assert!(!back.is_mounted());
    assert_eq!(back.mountpoint(), "/mnt/x");
    assert_eq!(back.connection_string(), "user@host:/remote");
    assert_eq!(back.options(), "ro");
    assert_eq!(back.extra_args(), "");
}

#[test]
fn unmount_invocation_shape() {
    let h = handler("");
    let (mounted, _) = h.finish_mount(ok_output("")).unwrap();
    assert_eq!(
        mounted.unmount_invocation("/usr/bin/fusermount"),
        "/usr/bin/fusermount -u /mnt/x"
    );
}

#[test]
fn from_options_missing_connection_string() {
    let r = Sshfs::from_options(
        String::from("/mnt/x"),
        None,
        Some(String::from("secret123")),
        None,
        None,
    );
    assert!(matches!(
        r,
        Err(ProtocolError::MissingConfigurationOption(key))
            if key == "HERMES_SSHFS_CONNECTION_STRING"
    ));
}

#[test]
fn from_options_missing_password() {
    let r = Sshfs::from_options(
        String::from("/mnt/x"),
        Some(String::from("user@host:/remote")),
        None,
        None,
        None,
    );
    assert!(matches!(
        r,
        Err(ProtocolError::MissingConfigurationOption(key)) if key == "HERMES_SSHFS_PASSWORD"
    ));
}

#[test]
fn from_options_defaults_optionals_to_empty() {
    let h = Sshfs::from_options(
        String::from("/mnt/x"),
        Some(String::from("user@host:/remote")),
        Some(String::from("secret123")),
        None,
        None,
    )
    .unwrap();
    assert_eq!(h.options(), "");
    assert_eq!(h.extra_args(), "");
    assert_eq!(h.mountpoint(), "/mnt/x");
}

#[test]
fn from_options_keeps_given_values() {
    let h = Sshfs::from_options(
        String::from("/mnt/x"),
        Some(String::from("user@host:/remote")),
        Some(String::from("secret123")),
        Some(String::from("ro")),
        Some(String::from("-v")),
    )
    .unwrap();
    assert_eq!(h.options(), "ro");
    assert_eq!(h.extra_args(), "-v");
}

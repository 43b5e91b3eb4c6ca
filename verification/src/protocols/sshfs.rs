//! The sshfs protocol handler: a state-typed handle over the connection
//! parameters, the commands it drives the external tools with, and the two
//! halves of each lifecycle transition around the subprocess run.

use crate::deps::{checker_outcome, lemma_missing_from_subset, missing_among, resolved_location};
use crate::executor::{
    shell_binary, shell_invocation, shell_invocation_spec, CommandOutput, ExecutionPlan,
};
use crate::protocols::errors::{MountError, ProtocolError, UnmountError};
use crate::protocols::{Mounted, Protocol, ProtocolHandler, Unmounted};
use crate::redaction::{
    contains_seq, lemma_redaction_leaves_marker, lemma_redaction_removes_secret, marker, occurs_at,
    redact, replaced,
};
use core::marker::PhantomData;
use vstd::prelude::*;

verus! {

/// Marker type for a handle whose filesystem is live at its mountpoint.
pub struct MountedState;

/// Marker type for a handle whose filesystem is not mounted.
pub struct UnmountedState;

/// The connection parameters a handle carries, as the contracts speak of
/// them.
pub struct ConnectionParams {
    /// The local path where the remote filesystem becomes visible.
    pub mountpoint: Seq<char>,
    /// The remote endpoint descriptor, such as user, host and remote path.
    pub connection_string: Seq<char>,
    /// The option string handed to the mount tool; may be empty.
    pub options: Seq<char>,
    /// The secret piped into the mount tool's standard input.
    pub password: Seq<char>,
    /// Free-form text appended to the mount invocation; may be empty.
    pub extra_args: Seq<char>,
}

/// A handler for the sshfs protocol. The mount state is part of the type:
/// `State` is `UnmountedState` or `MountedState`, so a mounted handle offers
/// no mount and an unmounted one no unmount, and each transition consumes
/// its handle and produces one of the opposite state. The connection
/// parameters are immutable once the handler is constructed and move with it
/// across transitions.
pub struct Sshfs<State = UnmountedState> {
    mountpoint: String,
    connection_string: String,
    options: String,
    password: String,
    extra_args: String,
    state: PhantomData<State>,
}

impl<State> View for Sshfs<State> {
    type V = ConnectionParams;

    closed spec fn view(&self) -> ConnectionParams {
        ConnectionParams {
            mountpoint: self.mountpoint@,
            connection_string: self.connection_string@,
            options: self.options@,
            password: self.password@,
            extra_args: self.extra_args@,
        }
    }
}

/// The names of the external binaries every sshfs operation relies on: the
/// mount tool, the unmount tool and the shell.
pub open spec fn dependency_names() -> Seq<Seq<char>> {
    seq![("sshfs")@, ("fusermount")@, ("sh")@]
}

/// The dependency list as executable values, in the order the checker scans
/// it.
pub fn dependencies() -> (r: Vec<String>)
    ensures
        r.deep_view() == dependency_names(),
{
    let r: Vec<String> = vec![
        String::from_str("sshfs"),
        String::from_str("fusermount"),
        String::from_str("sh"),
    ];
    proof {
        assert(r.deep_view() =~= dependency_names());
    }
    r
}

/// The option clause of the mount command: empty when no options are set,
/// otherwise `-o` with the mode that reads the password from standard input,
/// followed by the configured options.
pub open spec fn options_clause_spec(options: Seq<char>) -> Seq<char> {
    if options.len() == 0 {
        Seq::empty()
    } else {
        ("-o password_stdin,")@ + options
    }
}

/// The full mount command: the password piped into the mount binary at
/// `binary_path`, which is given the connection string, the mountpoint, the
/// option clause and the extra arguments.
pub open spec fn mount_command_spec(params: ConnectionParams, binary_path: Seq<char>) -> Seq<
    char,
> {
    ("echo '")@ + params.password + ("' | ")@ + binary_path + (" ")@ + params.connection_string + (
    " ")@ + params.mountpoint + (" ")@ + options_clause_spec(params.options) + (" ")@
        + params.extra_args
}

/// The full unmount command: the unmount binary at `binary_path`, told to
/// unmount the mountpoint.
pub open spec fn unmount_command_spec(binary_path: Seq<char>, mountpoint: Seq<char>) -> Seq<char> {
    binary_path + (" -u ")@ + mountpoint
}

impl<State> Sshfs<State> {
    /// A handler from explicit parameters, which move into it whole.
    pub fn new(
        mountpoint: String,
        connection_string: String,
        options: String,
        password: String,
        extra_args: String,
    ) -> (r: Self)
        ensures
            r@ == (ConnectionParams {
                mountpoint: mountpoint@,
                connection_string: connection_string@,
                options: options@,
                password: password@,
                extra_args: extra_args@,
            }),
    {
        Sshfs {
            mountpoint,
            connection_string,
            options,
            password,
            extra_args,
            state: PhantomData,
        }
    }

    /// The local path where the remote filesystem becomes visible.
    pub fn mountpoint(&self) -> (r: &String)
        ensures
            r@ == self@.mountpoint,
    {
        &self.mountpoint
    }

    /// The remote endpoint descriptor.
    pub fn connection_string(&self) -> (r: &String)
        ensures
            r@ == self@.connection_string,
    {
        &self.connection_string
    }

    /// The option string handed to the mount tool.
    pub fn options(&self) -> (r: &String)
        ensures
            r@ == self@.options,
    {
        &self.options
    }

    /// Free-form text appended to the mount invocation.
    pub fn extra_args(&self) -> (r: &String)
        ensures
            r@ == self@.extra_args,
    {
        &self.extra_args
    }

    /// The option clause of the mount command, as `options_clause_spec`
    /// builds it from the configured options.
    pub fn options_clause(&self) -> (r: String)
        ensures
            r@ == options_clause_spec(self@.options),
    {
        if self.options.as_str().is_empty() {
            String::new()
        } else {
            let mut r = String::from_str("-o password_stdin,");
            r.append(self.options.as_str());
            r
        }
    }

    /// The full mount command for the mount binary resolved to
    /// `binary_path`, exactly as `mount_command_spec` lays it out.
    pub fn mount_invocation(&self, binary_path: &str) -> (r: String)
        ensures
            r@ == mount_command_spec(self@, binary_path@),
    {
        let clause = self.options_clause();
        let mut r = String::from_str("echo '");
        r.append(self.password.as_str());
        r.append("' | ");
        r.append(binary_path);
        r.append(" ");
        r.append(self.connection_string.as_str());
        r.append(" ");
        r.append(self.mountpoint.as_str());
        r.append(" ");
        r.append(clause.as_str());
        r.append(" ");
        r.append(self.extra_args.as_str());
        proof {
            assert(r@ =~= mount_command_spec(self@, binary_path@));
        }
        r
    }
}

impl Sshfs<UnmountedState> {
    /// A handler from configuration values as the environment offers them:
    /// the connection string and the password are required, options and
    /// extra arguments default to empty. A missing required value fails with
    /// the key that names it, before anything else can run.
    pub fn from_options(
        mountpoint: String,
        connection_string: Option<String>,
        password: Option<String>,
        options: Option<String>,
        extra_args: Option<String>,
    ) -> (r: Result<Self, ProtocolError>)
        ensures
            connection_string is None ==> (r matches Err(
                ProtocolError::MissingConfigurationOption(key),
            ) && key@ == ("HERMES_SSHFS_CONNECTION_STRING")@),
            connection_string is Some && password is None ==> (r matches Err(
                ProtocolError::MissingConfigurationOption(key),
            ) && key@ == ("HERMES_SSHFS_PASSWORD")@),
            (match (connection_string, password) {
                (Some(c), Some(p)) => r matches Ok(h) && h@ == (ConnectionParams {
                    mountpoint: mountpoint@,
                    connection_string: c@,
                    options: match options {
                        Some(o) => o@,
                        None => Seq::<char>::empty(),
                    },
                    password: p@,
                    extra_args: match extra_args {
                        Some(e) => e@,
                        None => Seq::<char>::empty(),
                    },
                }),
                _ => true,
            }),
    {
        let connection_string = match connection_string {
            Some(c) => c,
            None => {
                return Err(
                    ProtocolError::MissingConfigurationOption(
                        String::from_str("HERMES_SSHFS_CONNECTION_STRING"),
                    ),
                );
            },
        };
        let password = match password {
            Some(p) => p,
            None => {
                return Err(
                    ProtocolError::MissingConfigurationOption(
                        String::from_str("HERMES_SSHFS_PASSWORD"),
                    ),
                );
            },
        };
        let options = match options {
            Some(o) => o,
            None => String::new(),
        };
        let extra_args = match extra_args {
            Some(e) => e,
            None => String::new(),
        };
        Ok(Self::new(mountpoint, connection_string, options, password, extra_args))
    }

    /// The state is part of the type: an unmounted handle reports not
    /// mounted.
    pub fn is_mounted(&self) -> (r: bool)
        ensures
            !r,
    {
        false
    }
}

impl Sshfs<MountedState> {
    /// The state is part of the type: a mounted handle reports mounted.
    pub fn is_mounted(&self) -> (r: bool)
        ensures
            r,
    {
        true
    }

    /// The full unmount command for the unmount binary resolved to
    /// `binary_path`, exactly as `unmount_command_spec` lays it out.
    pub fn unmount_invocation(&self, binary_path: &str) -> (r: String)
        ensures
            r@ == unmount_command_spec(binary_path@, self@.mountpoint),
    {
        let mut r = String::from_str(binary_path);
        r.append(" -u ");
        r.append(self.mountpoint.as_str());
        proof {
            assert(r@ =~= unmount_command_spec(binary_path@, self@.mountpoint));
        }
        r
    }
}

/// What a search-path scan of the sshfs dependency list can report: nothing,
/// or a non-empty selection of the declared dependency names.
proof fn lemma_scan_names_declared(names: Vec<String>, r: Option<Vec<String>>)
    requires
        names.deep_view() == dependency_names(),
        exists|present: Seq<bool>|
            present.len() == names@.len() && #[trigger] checker_outcome(
                names.deep_view(),
                present,
                r,
            ),
    ensures
        r matches Some(v) ==> v@.len() > 0 && forall|i: int|
            0 <= i < v.deep_view().len() ==> dependency_names().contains(
                #[trigger] v.deep_view()[i],
            ),
{
    match r {
        Some(v) => {
            let present = choose|present: Seq<bool>|
                present.len() == names@.len() && #[trigger] checker_outcome(
                    names.deep_view(),
                    present,
                    r,
                );
            lemma_missing_from_subset(names.deep_view(), present);
            assert(v.deep_view().len() == v@.len());
        },
        None => {},
    }
}

impl<State> ProtocolHandler for Sshfs<State> {
    open spec fn declared_dependencies(&self) -> Seq<Seq<char>> {
        dependency_names()
    }

    open spec fn protocol_spec(&self) -> Protocol {
        Protocol::Sshfs
    }

    fn missing_dependencies(&self) -> (r: Option<Vec<String>>) {
        let names = dependencies();
        let r = missing_among(&names);
        proof {
            lemma_scan_names_declared(names, r);
        }
        r
    }

    fn protocol(&self) -> (r: Protocol) {
        Protocol::Sshfs
    }
}

impl Unmounted for Sshfs<UnmountedState> {
    type Target = Sshfs<MountedState>;

    open spec fn corresponds(&self, target: &Sshfs<MountedState>) -> bool {
        target@ == self@
    }

    open spec fn plan_describes_mount(&self, plan: ExecutionPlan) -> bool {
        &&& plan.program@ == ("sh")@
        &&& plan.invocation@ == shell_invocation_spec(
            plan.shell_path@,
            mount_command_spec(self@, plan.binary_path@),
        )
        &&& plan.redacted@ == replaced(
            mount_command_spec(self@, plan.binary_path@),
            self@.password,
            marker(),
        )
    }

    fn prepare_mount(&self) -> (r: Result<ExecutionPlan, MountError>) {
        let names = dependencies();
        let scan = missing_among(&names);
        proof {
            lemma_scan_names_declared(names, scan);
        }
        if let Some(missing) = scan {
            return Err(MountError::DependencyMissing(missing));
        }
        let mount_binary = String::from_str("sshfs");
        let binary_path = match resolved_location(&mount_binary) {
            Some(path) => path,
            None => {
                let missing: Vec<String> = vec![mount_binary];
                proof {
                    assert(missing.deep_view() =~= seq![("sshfs")@]);
                    assert(dependency_names()[0] == ("sshfs")@);
                    assert(dependency_names().contains(("sshfs")@));
                }
                return Err(MountError::DependencyMissing(missing));
            },
        };
        let shell = shell_binary();
        let shell_path = match resolved_location(&shell) {
            Some(path) => path,
            None => {
                return Err(MountError::ShellNotFound);
            },
        };
        let command = self.mount_invocation(binary_path.as_str());
        let invocation = shell_invocation(shell_path.as_str(), command.as_str());
        let redacted = redact(command.as_str(), self.password.as_str());
        Ok(
            ExecutionPlan {
                program: shell_binary(),
                invocation,
                redacted,
                binary_path,
                shell_path,
            },
        )
    }

    fn finish_mount(self, output: CommandOutput) -> (r: Result<
        (Sshfs<MountedState>, String),
        MountError,
    >) {
        let CommandOutput { stdout, stderr, success: _ } = output;
        if !stderr.as_str().is_empty() {
            return Err(MountError::MountFailed(stderr));
        }
        let Sshfs { mountpoint, connection_string, options, password, extra_args, state: _ } =
            self;
        let target = Sshfs::<MountedState> {
            mountpoint,
            connection_string,
            options,
            password,
            extra_args,
            state: PhantomData,
        };
        Ok((target, stdout))
    }
}

impl Mounted for Sshfs<MountedState> {
    type Target = Sshfs<UnmountedState>;

    open spec fn corresponds(&self, target: &Sshfs<UnmountedState>) -> bool {
        target@ == self@
    }

    open spec fn plan_describes_unmount(&self, plan: ExecutionPlan) -> bool {
        &&& plan.program@ == ("sh")@
        &&& plan.invocation@ == shell_invocation_spec(
            plan.shell_path@,
            unmount_command_spec(plan.binary_path@, self@.mountpoint),
        )
        &&& plan.redacted@ == replaced(
            unmount_command_spec(plan.binary_path@, self@.mountpoint),
            self@.password,
            marker(),
        )
    }

    fn prepare_unmount(&self) -> (r: Result<ExecutionPlan, UnmountError>) {
        let names = dependencies();
        let scan = missing_among(&names);
        proof {
            lemma_scan_names_declared(names, scan);
        }
        if let Some(missing) = scan {
            return Err(UnmountError::DependencyMissing(missing));
        }
        let unmount_binary = String::from_str("fusermount");
        let binary_path = match resolved_location(&unmount_binary) {
            Some(path) => path,
            None => {
                let missing: Vec<String> = vec![unmount_binary];
                proof {
                    assert(missing.deep_view() =~= seq![("fusermount")@]);
                    assert(dependency_names()[1] == ("fusermount")@);
                    assert(dependency_names().contains(("fusermount")@));
                }
                return Err(UnmountError::DependencyMissing(missing));
            },
        };
        let shell = shell_binary();
        let shell_path = match resolved_location(&shell) {
            Some(path) => path,
            None => {
                return Err(UnmountError::ShellNotFound);
            },
        };
        let command = self.unmount_invocation(binary_path.as_str());
        let invocation = shell_invocation(shell_path.as_str(), command.as_str());
        let redacted = redact(command.as_str(), self.password.as_str());
        Ok(
            ExecutionPlan {
                program: shell_binary(),
                invocation,
                redacted,
                binary_path,
                shell_path,
            },
        )
    }

    fn finish_unmount(self, output: CommandOutput) -> (r: Result<
        (Sshfs<UnmountedState>, String),
        UnmountError,
    >) {
        let CommandOutput { stdout, stderr, success: _ } = output;
        if !stderr.as_str().is_empty() {
            return Err(UnmountError::UnmountFailed(stderr));
        }
        let Sshfs { mountpoint, connection_string, options, password, extra_args, state: _ } =
            self;
        let target = Sshfs::<UnmountedState> {
            mountpoint,
            connection_string,
            options,
            password,
            extra_args,
            state: PhantomData,
        };
        Ok((target, stdout))
    }
}

/// Mounting and then unmounting, each concluded from a run that succeeded,
/// is the identity on connection parameters: the final unmounted handle is
/// equivalent to the pre-mount handle. The premises are exactly what
/// `finish_mount` and `finish_unmount` ensure of their successes.
pub proof fn lemma_mount_unmount_round_trip(
    start: Sshfs<UnmountedState>,
    mounted: Sshfs<MountedState>,
    finished: Sshfs<UnmountedState>,
)
    requires
        start.corresponds(&mounted),
        mounted.corresponds(&finished),
    ensures
        finished@ == start@,
{
}

/// The mount command quotes the password right after `echo '`, so redaction
/// always has an occurrence to take: for a password that is non-empty and
/// free of the marker character, the redacted mount command carries the
/// marker and never the password.
pub proof fn lemma_mount_log_redacted(params: ConnectionParams, binary_path: Seq<char>)
    requires
        params.password.len() > 0,
        forall|i: int| 0 <= i < params.password.len() ==> params.password[i] != '*',
    ensures
        contains_seq(
            replaced(mount_command_spec(params, binary_path), params.password, marker()),
            marker(),
        ),
        !contains_seq(
            replaced(mount_command_spec(params, binary_path), params.password, marker()),
            params.password,
        ),
{
    let cmd = mount_command_spec(params, binary_path);
    reveal_strlit("echo '");
    assert(("echo '")@.len() == 6);
    assert(occurs_at(cmd, params.password, 6)) by {
        assert(cmd.subrange(6, 6 + params.password.len() as int) =~= params.password) by {
            assert forall|i: int| 0 <= i < params.password.len() implies #[trigger] cmd.subrange(
                6,
                6 + params.password.len() as int,
            )[i] == params.password[i] by {
                assert((("echo '")@ + params.password)[6 + i] == params.password[i]);
            }
        }
    }
    lemma_redaction_leaves_marker(cmd, params.password);
    lemma_redaction_removes_secret(cmd, params.password);
}

} // verus!

//! The protocol abstraction: the closed set of supported protocols and the
//! capability traits a handler offers in each of its two states.

pub mod errors;
pub mod sshfs;

use crate::executor::{CommandOutput, ExecutionPlan};
use crate::protocols::errors::{MountError, UnmountError};
use vstd::prelude::*;

verus! {

/// The protocols a handler can implement. The set is closed: the tag serves
/// selection and logging, while behavior is dispatched through the handler's
/// own methods.
#[derive(Clone, Copy, Debug, PartialEq, Eq, Structural)]
pub enum Protocol {
    Sshfs,
}

/// Capabilities every protocol handler offers in either state: reporting its
/// protocol tag and checking that its external binaries are on the search
/// path.
pub trait ProtocolHandler {
    /// The names of the external binaries the handler relies on, as the
    /// contract of `missing_dependencies` speaks of them.
    spec fn declared_dependencies(&self) -> Seq<Seq<char>>;

    /// The protocol tag `protocol` returns.
    spec fn protocol_spec(&self) -> Protocol;

    /// Scans the handler's dependency list and returns the names not
    /// resolvable on the current search path, or `None` when every one of
    /// them resolved. Reads the environment and mutates nothing.
    fn missing_dependencies(&self) -> (r: Option<Vec<String>>)
        ensures
            r matches Some(v) ==> v@.len() > 0,
            r matches Some(v) ==> forall|i: int|
                0 <= i < v.deep_view().len() ==> self.declared_dependencies().contains(
                    #[trigger] v.deep_view()[i],
                ),
    ;

    /// The protocol this handler implements.
    fn protocol(&self) -> (r: Protocol)
        ensures
            r == self.protocol_spec(),
    ;
}

/// A handler whose filesystem is not mounted. Mounting happens in two steps
/// around the one subprocess run: `prepare_mount` validates dependencies and
/// builds the invocation, and `finish_mount` classifies the subprocess's
/// output, consuming the handle and producing its mounted form on success.
pub trait Unmounted: ProtocolHandler + Sized {
    /// The mounted form this handler turns into.
    type Target;

    /// Both handles describe the same connection.
    spec fn corresponds(&self, target: &Self::Target) -> bool;

    /// What the handler promises of a successfully built mount plan.
    spec fn plan_describes_mount(&self, plan: ExecutionPlan) -> bool;

    /// Checks dependencies, resolves the binaries and builds the shell
    /// invocation for the mount. No subprocess is spawned here; a failure
    /// names either the missing dependencies or the unresolvable shell.
    fn prepare_mount(&self) -> (r: Result<ExecutionPlan, MountError>)
        ensures
            r matches Ok(plan) ==> self.plan_describes_mount(plan),
            r matches Err(e) ==> match e {
                MountError::DependencyMissing(v) => v@.len() > 0 && forall|i: int|
                    0 <= i < v.deep_view().len() ==> self.declared_dependencies().contains(
                        #[trigger] v.deep_view()[i],
                    ),
                MountError::ShellNotFound => true,
                _ => false,
            },
    ;

    /// Concludes the mount from the finished subprocess's output. Any text on
    /// standard error is failure, even beside a successful exit status;
    /// silence is success, and the mounted handle carries the same connection
    /// parameters beside the captured standard output.
    fn finish_mount(self, output: CommandOutput) -> (r: Result<(Self::Target, String), MountError>)
        ensures
            r is Ok <==> output.stderr@.len() == 0,
            r matches Ok((target, payload)) ==> self.corresponds(&target) && payload@
                == output.stdout@,
            r matches Err(e) ==> e matches MountError::MountFailed(detail) && detail@
                == output.stderr@,
    ;
}

/// A handler whose filesystem is mounted. Unmounting mirrors mounting:
/// `prepare_unmount` validates and builds the invocation, `finish_unmount`
/// classifies the output and returns the unmounted form of the handle.
pub trait Mounted: ProtocolHandler + Sized {
    /// The unmounted form this handler turns back into.
    type Target;

    /// Both handles describe the same connection.
    spec fn corresponds(&self, target: &Self::Target) -> bool;

    /// What the handler promises of a successfully built unmount plan.
    spec fn plan_describes_unmount(&self, plan: ExecutionPlan) -> bool;

    /// Checks dependencies, resolves the binaries and builds the shell
    /// invocation for the unmount. No subprocess is spawned here.
    fn prepare_unmount(&self) -> (r: Result<ExecutionPlan, UnmountError>)
        ensures
            r matches Ok(plan) ==> self.plan_describes_unmount(plan),
            r matches Err(e) ==> match e {
                UnmountError::DependencyMissing(v) => v@.len() > 0 && forall|i: int|
                    0 <= i < v.deep_view().len() ==> self.declared_dependencies().contains(
                        #[trigger] v.deep_view()[i],
                    ),
                UnmountError::ShellNotFound => true,
                _ => false,
            },
    ;

    /// Concludes the unmount from the finished subprocess's output, under the
    /// same classification as mounting: any standard error text is failure.
    fn finish_unmount(self, output: CommandOutput) -> (r: Result<
        (Self::Target, String),
        UnmountError,
    >)
        ensures
            r is Ok <==> output.stderr@.len() == 0,
            r matches Ok((target, payload)) ==> self.corresponds(&target) && payload@
                == output.stdout@,
            r matches Err(e) ==> e matches UnmountError::UnmountFailed(detail) && detail@
                == output.stderr@,
    ;
}

} // verus!

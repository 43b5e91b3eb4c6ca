//! The command executor's data: the plan a prepared operation hands to the
//! shell, and the captured output a finished subprocess hands back. The
//! subprocess itself runs outside this crate; everything here is the text
//! around it.

use vstd::prelude::*;

verus! {

/// What a finished subprocess handed back: the captured output streams and
/// whether its exit status reported success. Mount classification reads only
/// the standard error text — a deliberately conservative policy that treats
/// warnings as failures — so the status is carried for callers, not read
/// here.
pub struct CommandOutput {
    /// Captured standard output, decoded as text.
    pub stdout: String,
    /// Captured standard error, decoded as text.
    pub stderr: String,
    /// Whether the exit status reported success.
    pub success: bool,
}

/// A fully built shell invocation, ready to run, beside the redacted command
/// text that may be logged in its place. The secret never appears outside
/// `invocation`.
pub struct ExecutionPlan {
    /// The program to spawn: the shell, by name.
    pub program: String,
    /// The single argument to hand the shell after `-c`.
    pub invocation: String,
    /// The inner command with the secret replaced by the redaction marker;
    /// the only form of the command that may reach a log sink.
    pub redacted: String,
    /// The resolved location of the protocol's binary, as the command quotes
    /// it.
    pub binary_path: String,
    /// The resolved location of the shell, as the invocation quotes it.
    pub shell_path: String,
}

/// The command line that runs `command` under the shell at `shell_path`.
pub open spec fn shell_invocation_spec(shell_path: Seq<char>, command: Seq<char>) -> Seq<char> {
    shell_path + (" -c '")@ + command + ("'")@
}

/// Builds the shell command line: the resolved shell, `-c`, and the command
/// in single quotes.
pub fn shell_invocation(shell_path: &str, command: &str) -> (r: String)
    ensures
        r@ == shell_invocation_spec(shell_path@, command@),
{
    let mut r = String::from_str(shell_path);
    r.append(" -c '");
    r.append(command);
    r.append("'");
    proof {
        assert(r@ =~= shell_invocation_spec(shell_path@, command@));
    }
    r
}

/// The name of the shell interpreter every invocation is handed to.
pub fn shell_binary() -> (r: String)
    ensures
        r@ == ("sh")@,
{
    String::from_str("sh")
}

} // verus!

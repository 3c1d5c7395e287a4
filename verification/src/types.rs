//! The two flat value types the facade returns, and the description of one
//! subprocess invocation.

use vstd::prelude::*;

verus! {

/// Snapshot of the host environment: operating system and CPU architecture
/// constants, plus the probed versions of the external tools. A missing tool
/// shows up as `None`, never as an error.
#[derive(Debug, Clone)]
pub struct SystemInfo {
    pub os: String,
    pub arch: String,
    pub node_version: Option<String>,
    pub npm_version: Option<String>,
    pub openclaw_installed: bool,
    pub openclaw_version: Option<String>,
}

/// Outcome of one subprocess invocation: whether it reported success, the
/// captured output streams, and the exit code if the process returned one.
/// Constructed once per invocation and never mutated afterwards.
#[derive(Debug, Clone)]
pub struct CommandResult {
    pub success: bool,
    pub stdout: String,
    pub stderr: String,
    pub exit_code: Option<i32>,
}

/// One planned subprocess invocation: the program to run and its argument
/// vector, handed to the process layer verbatim (no shell interpretation).
#[derive(Debug, Clone)]
pub struct Invocation {
    pub program: String,
    pub args: Vec<String>,
}

/// Packages a captured process outcome as a `CommandResult`, field for field.
pub fn capture_result(
    success: bool,
    stdout: String,
    stderr: String,
    exit_code: Option<i32>,
) -> (r: CommandResult)
    ensures
        r.success == success,
        r.stdout == stdout,
        r.stderr == stderr,
        r.exit_code == exit_code,
{
    CommandResult { success, stdout, stderr, exit_code }
}

} // verus!

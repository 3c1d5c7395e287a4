//! Assembly of the environment report.
//!
//! The caller reads the host's OS and architecture constants and probes each
//! external tool once with the version flag; this module turns those three
//! probe outcomes into a [`SystemInfo`]. Inspection never fails: a tool whose
//! probe could not spawn is reported as an absent optional field, and the
//! report is returned for every combination of outcomes.

use vstd::prelude::*;

use crate::text::trim_spec;
use crate::text::trim_whitespace;
use crate::types::CommandResult;
use crate::types::Invocation;
use crate::types::SystemInfo;

verus! {

/// The version a tool probe yields: the probe's trimmed stdout, or `None`
/// where the probe could not spawn the tool.
pub open spec fn probed_version(probe: Result<CommandResult, String>) -> Option<Seq<char>> {
    match probe {
        Ok(c) => Some(trim_spec(c.stdout@)),
        Err(_) => None,
    }
}

/// Plans the probe invocation for one tool: the tool itself, asked for its
/// version and nothing else.
pub fn version_probe_invocation(tool: String) -> (inv: Invocation)
    ensures
        inv.program@ == tool@,
        inv.args.deep_view() == seq!["--version"@],
{
    let mut args: Vec<String> = Vec::new();
    args.push(String::from_str("--version"));
    proof {
        assert(args.deep_view() =~= seq!["--version"@]);
    }
    Invocation { program: tool, args }
}

/// Extracts the version a probe reports: the trimmed stdout of a probe that
/// ran, nothing from one that could not spawn.
fn version_of_probe(probe: &Result<CommandResult, String>) -> (v: Option<String>)
    ensures
        v.deep_view() == probed_version(*probe),
{
    match probe {
        Ok(c) => Some(trim_whitespace(c.stdout.as_str())),
        Err(_) => None,
    }
}

/// Builds the environment report from the host constants and the three tool
/// probes. The report always comes back, whatever the probe outcomes: each
/// tool that answered contributes its trimmed version string, each tool that
/// could not be spawned is reported as absent, and the install flag says
/// exactly whether the tool's own probe ran.
pub fn detect_system(
    os: String,
    arch: String,
    node_probe: Result<CommandResult, String>,
    npm_probe: Result<CommandResult, String>,
    openclaw_probe: Result<CommandResult, String>,
) -> (info: SystemInfo)
    ensures
        info.os@ == os@,
        info.arch@ == arch@,
        info.node_version.deep_view() == probed_version(node_probe),
        info.npm_version.deep_view() == probed_version(npm_probe),
        info.openclaw_installed == openclaw_probe is Ok,
        info.openclaw_version.deep_view() == probed_version(openclaw_probe),
{
    let node_version = version_of_probe(&node_probe);
    let npm_version = version_of_probe(&npm_probe);
    let openclaw_installed = openclaw_probe.is_ok();
    let openclaw_version = version_of_probe(&openclaw_probe);
    SystemInfo { os, arch, node_version, npm_version, openclaw_installed, openclaw_version }
}

} // verus!

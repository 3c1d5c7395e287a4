//! The dispatch facade: one uniform path for every spawning operation.
//!
//! Each request is planned into an [`Invocation`] (program plus argument
//! vector), the caller spawns it, and [`resolve`] turns the captured outcome
//! into the final [`CommandResult`]. A spawn failure is never fatal: it
//! becomes a result with `success == false`, empty stdout, a non-empty
//! diagnostic in stderr, and no exit code.

use vstd::prelude::*;
use vstd::string::StringExecFns;

use crate::types::CommandResult;
use crate::types::Invocation;

verus! {

/// One named operation of the facade, with the arguments the caller supplied.
#[derive(Debug, Clone)]
pub enum Request {
    /// Forward caller-supplied arguments verbatim to the external tool.
    ForwardCommand { args: Vec<String> },
    /// Install the external tool through the package manager.
    Install,
    /// Run the external tool's onboarding subcommand.
    Onboard,
    /// Run the external tool's diagnostic subcommand.
    Doctor,
    /// Start the external tool's gateway service on its fixed port.
    Gateway,
    /// Pass a message to the external tool's agent subcommand.
    AgentMessage { message: String },
    /// Run the script interpreter on a script, with an optional goal.
    RunScript { script_path: String, task_goal: Option<String> },
}

/// The program a request invokes.
pub open spec fn program_of(req: Request) -> Seq<char> {
    match req {
        Request::ForwardCommand { .. } => "openclaw"@,
        Request::Install => "npm"@,
        Request::Onboard => "openclaw"@,
        Request::Doctor => "openclaw"@,
        Request::Gateway => "openclaw"@,
        Request::AgentMessage { .. } => "openclaw"@,
        Request::RunScript { .. } => "node"@,
    }
}

/// The exact argument vector a request invokes its program with.
pub open spec fn args_of(req: Request) -> Seq<Seq<char>> {
    match req {
        Request::ForwardCommand { args } => args.deep_view(),
        Request::Install => seq!["install"@, "-g"@, "openclaw@latest"@],
        Request::Onboard => seq!["onboard"@, "--install-daemon"@],
        Request::Doctor => seq!["doctor"@],
        Request::Gateway => seq!["gateway"@, "--port"@, "18789"@],
        Request::AgentMessage { message } => seq!["agent"@, "--message"@, message@],
        Request::RunScript { script_path, task_goal } => match task_goal {
            None => seq![script_path@],
            Some(goal) => seq![script_path@, "--goal"@, goal@],
        },
    }
}

/// The diagnostic prefix reported when the request's process cannot spawn.
pub open spec fn failure_prefix(req: Request) -> Seq<char> {
    match req {
        Request::ForwardCommand { .. } => "Failed to execute command: "@,
        Request::Install => "Install failed: "@,
        Request::Onboard => "Onboard failed: "@,
        Request::Doctor => "Doctor check failed: "@,
        Request::Gateway => "Gateway start failed: "@,
        Request::AgentMessage { .. } => "Agent message failed: "@,
        Request::RunScript { .. } => "Script execution failed: "@,
    }
}

/// Every failure prefix is a non-empty diagnostic.
pub proof fn lemma_failure_prefix_nonempty(req: Request)
    ensures
        failure_prefix(req).len() > 0,
{
    reveal_strlit("Failed to execute command: ");
    reveal_strlit("Install failed: ");
    reveal_strlit("Onboard failed: ");
    reveal_strlit("Doctor check failed: ");
    reveal_strlit("Gateway start failed: ");
    reveal_strlit("Agent message failed: ");
    reveal_strlit("Script execution failed: ");
}

/// Copies a vector of argument strings.
fn clone_strings(v: &Vec<String>) -> (out: Vec<String>)
    ensures
        out@ == v@,
{
    let mut out: Vec<String> = Vec::new();
    let mut i: usize = 0;
    while i < v.len()
        invariant
            i <= v@.len(),
            out@ == v@.subrange(0, i as int),
        decreases v@.len() - i,
    {
        out.push(v[i].clone());
        proof {
            assert(out@ =~= v@.subrange(0, i + 1));
        }
        i = i + 1;
    }
    proof {
        assert(out@ =~= v@);
    }
    out
}

/// Plans the subprocess invocation for a request: which program to run and
/// with exactly which arguments, in order. Caller-supplied arguments are
/// passed through verbatim; an empty argument list still invokes the program,
/// with no arguments. A request with no goal contributes no goal flag at all;
/// one with a goal appends exactly the flag and its value.
pub fn invocation_of(req: &Request) -> (inv: Invocation)
    ensures
        inv.program@ == program_of(*req),
        inv.args.deep_view() == args_of(*req),
{
    match req {
        Request::ForwardCommand { args } => {
            let inv = Invocation {
                program: String::from_str("openclaw"),
                args: clone_strings(args),
            };
            proof {
                assert(inv.args.deep_view() =~= args.deep_view());
            }
            inv
        },
        Request::Install => {
            let mut args: Vec<String> = Vec::new();
            args.push(String::from_str("install"));
            args.push(String::from_str("-g"));
            args.push(String::from_str("openclaw@latest"));
            proof {
                assert(args.deep_view() =~= args_of(*req));
            }
            Invocation { program: String::from_str("npm"), args }
        },
        Request::Onboard => {
            let mut args: Vec<String> = Vec::new();
            args.push(String::from_str("onboard"));
            args.push(String::from_str("--install-daemon"));
            proof {
                assert(args.deep_view() =~= args_of(*req));
            }
            Invocation { program: String::from_str("openclaw"), args }
        },
        Request::Doctor => {
            let mut args: Vec<String> = Vec::new();
            args.push(String::from_str("doctor"));
            proof {
                assert(args.deep_view() =~= args_of(*req));
            }
            Invocation { program: String::from_str("openclaw"), args }
        },
        Request::Gateway => {
            let mut args: Vec<String> = Vec::new();
            args.push(String::from_str("gateway"));
            args.push(String::from_str("--port"));
            args.push(String::from_str("18789"));
            proof {
                assert(args.deep_view() =~= args_of(*req));
            }
            Invocation { program: String::from_str("openclaw"), args }
        },
        Request::AgentMessage { message } => {
            let mut args: Vec<String> = Vec::new();
            args.push(String::from_str("agent"));
            args.push(String::from_str("--message"));
            args.push(message.clone());
            proof {
                assert(args.deep_view() =~= args_of(*req));
            }
            Invocation { program: String::from_str("openclaw"), args }
        },
        Request::RunScript { script_path, task_goal } => {
            let mut args: Vec<String> = Vec::new();
            args.push(script_path.clone());
            match task_goal {
                None => {},
                Some(goal) => {
                    args.push(String::from_str("--goal"));
                    args.push(goal.clone());
                },
            }
            proof {
                assert(args.deep_view() =~= args_of(*req));
            }
            Invocation { program: String::from_str("node"), args }
        },
    }
}

/// The diagnostic prefix for a request, as text.
pub fn failure_prefix_text(req: &Request) -> (p: String)
    ensures
        p@ == failure_prefix(*req),
{
    match req {
        Request::ForwardCommand { .. } => String::from_str("Failed to execute command: "),
        Request::Install => String::from_str("Install failed: "),
        Request::Onboard => String::from_str("Onboard failed: "),
        Request::Doctor => String::from_str("Doctor check failed: "),
        Request::Gateway => String::from_str("Gateway start failed: "),
        Request::AgentMessage { .. } => String::from_str("Agent message failed: "),
        Request::RunScript { .. } => String::from_str("Script execution failed: "),
    }
}

/// Turns the captured outcome of a request's invocation into the final
/// result. A completed process is reported exactly as captured. A process
/// that could not be spawned yields `success == false`, empty stdout, the
/// request's diagnostic prefix followed by the spawn error in stderr — never
/// empty — and no exit code.
pub fn resolve(req: &Request, outcome: Result<CommandResult, String>) -> (r: CommandResult)
    ensures
        outcome matches Ok(c) ==> r.success == c.success && r.stdout@ == c.stdout@ && r.stderr@
            == c.stderr@ && r.exit_code == c.exit_code,
        outcome matches Err(e) ==> r.success == false && r.stdout@.len() == 0 && r.stderr@
            == failure_prefix(*req) + e@ && r.stderr@.len() > 0 && r.exit_code is None,
{
    match outcome {
        Ok(c) => c,
        Err(e) => {
            let mut message = failure_prefix_text(req);
            message.append(e.as_str());
            proof {
                lemma_failure_prefix_nonempty(*req);
            }
            CommandResult {
                success: false,
                stdout: String::new(),
                stderr: message,
                exit_code: None,
            }
        },
    }
}

/// Supplying a goal appends exactly two arguments, the flag then the value,
/// to the argument vector the same script request has without one.
pub proof fn lemma_goal_appends_exactly_two(script_path: String, goal: String)
    ensures
        args_of(
            (Request::RunScript { script_path, task_goal: Some(goal) }),
        ) == args_of((Request::RunScript { script_path, task_goal: None })) + seq![
            "--goal"@,
            goal@,
        ],
{
    assert(args_of((Request::RunScript { script_path, task_goal: Some(goal) })) =~= args_of(
        (Request::RunScript { script_path, task_goal: None }),
    ) + seq!["--goal"@, goal@]);
}

} // verus!

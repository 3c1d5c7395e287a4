use openclaw_desktop::dispatch::invocation_of;
use openclaw_desktop::dispatch::resolve;
use openclaw_desktop::dispatch::Request;
use openclaw_desktop::inspect::detect_system;
use openclaw_desktop::inspect::version_probe_invocation;
use openclaw_desktop::text::trim_whitespace;
use openclaw_desktop::types::capture_result;
use openclaw_desktop::types::CommandResult;

fn ran(success: bool, stdout: &str, stderr: &str, exit_code: Option<i32>) -> CommandResult {
    CommandResult {
        success,
        stdout: stdout.to_string(),
        stderr: stderr.to_string(),
        exit_code,
    }
}

#[test]
fn forward_empty_args_still_invokes_tool() {
    let inv = invocation_of(&Request::ForwardCommand { args: vec![] });
    assert_eq!(inv.program, "openclaw");
    assert!(inv.args.is_empty());
}

#[test]
fn forward_passes_args_verbatim() {
    let args = vec!["status".to_string(), "--json".to_string()];
    let inv = invocation_of(&Request::ForwardCommand { args: args.clone() });
    assert_eq!(inv.program, "openclaw");
    assert_eq!(inv.args, args);
}

#[test]
fn install_invocation_uses_package_manager() {
    let inv = invocation_of(&Request::Install);
    assert_eq!(inv.program, "npm");
    assert_eq!(inv.args, vec!["install", "-g", "openclaw@latest"]);
}

#[test]
fn onboard_invocation_args() {
    let inv = invocation_of(&Request::Onboard);
    assert_eq!(inv.program, "openclaw");
    assert_eq!(inv.args, vec!["onboard", "--install-daemon"]);
}

#[test]
fn doctor_invocation_args() {
    let inv = invocation_of(&Request::Doctor);
    assert_eq!(inv.program, "openclaw");
    assert_eq!(inv.args, vec!["doctor"]);
}

#[test]
fn gateway_invocation_has_fixed_port() {
    let inv = invocation_of(&Request::Gateway);
    assert_eq!(inv.program, "openclaw");
    assert_eq!(inv.args, vec!["gateway", "--port", "18789"]);
}

#[test]
fn agent_message_invocation_carries_message() {
    let inv = invocation_of(&Request::AgentMessage {
        message: "hello there".to_string(),
    });
    assert_eq!(inv.program, "openclaw");
    assert_eq!(inv.args, vec!["agent", "--message", "hello there"]);
}

#[test]
fn script_without_goal_omits_goal_flag() {
    let inv = invocation_of(&Request::RunScript {
        script_path: "scripts/run.js".to_string(),
        task_goal: None,
    });
    assert_eq!(inv.program, "node");
    assert_eq!(inv.args, vec!["scripts/run.js"]);
}

#[test]
fn script_with_goal_appends_exactly_two_args() {
    let without = invocation_of(&Request::RunScript {
        script_path: "scripts/run.js".to_string(),
        task_goal: None,
    });
    let with = invocation_of(&Request::RunScript {
        script_path: "scripts/run.js".to_string(),
        task_goal: Some("summarize".to_string()),
    });
    assert_eq!(with.program, "node");
    assert_eq!(with.args, vec!["scripts/run.js", "--goal", "summarize"]);
    assert_eq!(with.args.len(), without.args.len() + 2);
    assert_eq!(with.args[..without.args.len()], without.args[..]);
}

#[test]
fn resolve_passes_completed_outcome_through() {
    let captured = ran(true, "done\n", "", Some(0));
    let r = resolve(&Request::Doctor, Ok(captured));
    assert!(r.success);
    assert_eq!(r.stdout, "done\n");
    assert_eq!(r.stderr, "");
    assert_eq!(r.exit_code, Some(0));
}

#[test]
fn resolve_passes_failed_exit_through() {
    let captured = ran(false, "", "boom\n", Some(3));
    let r = resolve(&Request::Install, Ok(captured));
    assert!(!r.success);
    assert_eq!(r.stdout, "");
    assert_eq!(r.stderr, "boom\n");
    assert_eq!(r.exit_code, Some(3));
}

#[test]
fn spawn_failure_is_uniform_for_every_operation() {
    let cases: Vec<(Request, &str)> = vec![
        (
            Request::ForwardCommand { args: vec![] },
            "Failed to execute command: ",
        ),
        (Request::Install, "Install failed: "),
        (Request::Onboard, "Onboard failed: "),
        (Request::Doctor, "Doctor check failed: "),
        (Request::Gateway, "Gateway start failed: "),
        (
            Request::AgentMessage {
                message: "m".to_string(),
            },
            "Agent message failed: ",
        ),
        (
            Request::RunScript {
                script_path: "a.js".to_string(),
                task_goal: None,
            },
            "Script execution failed: ",
        ),
    ];
    for (req, prefix) in cases {
        let r = resolve(&req, Err("entity not found".to_string()));
        assert!(!r.success);
        assert_eq!(r.stdout, "");
        assert_eq!(r.stderr, format!("{}entity not found", prefix));
        assert!(!r.stderr.is_empty());
        assert_eq!(r.exit_code, None);
    }
}

#[test]
fn doctor_absent_tool_scenario() {
    let r = resolve(
        &Request::Doctor,
        Err("No such file or directory (os error 2)".to_string()),
    );
    assert!(!r.success);
    assert_eq!(r.stdout, "");
    assert_eq!(
        r.stderr,
        "Doctor check failed: No such file or directory (os error 2)"
    );
    assert_eq!(r.exit_code, None);
}

#[test]
fn inspect_with_no_tools_installed() {
    let missing = || Err("No such file or directory (os error 2)".to_string());
    let info = detect_system(
        "linux".to_string(),
        "x86_64".to_string(),
        missing(),
        missing(),
        missing(),
    );
    assert_eq!(info.os, "linux");
    assert_eq!(info.arch, "x86_64");
    assert_eq!(info.node_version, None);
    assert_eq!(info.npm_version, None);
    assert!(!info.openclaw_installed);
    assert_eq!(info.openclaw_version, None);
}

#[test]
fn inspect_reports_trimmed_versions() {
    let info = detect_system(
        "macos".to_string(),
        "aarch64".to_string(),
        Ok(ran(true, "v22.1.0\n", "", Some(0))),
        Ok(ran(true, "10.8.2\n", "", Some(0))),
        Ok(ran(true, "  0.4.1 \r\n", "", Some(0))),
    );
    assert_eq!(info.os, "macos");
    assert_eq!(info.arch, "aarch64");
    assert_eq!(info.node_version, Some("v22.1.0".to_string()));
    assert_eq!(info.npm_version, Some("10.8.2".to_string()));
    assert!(info.openclaw_installed);
    assert_eq!(info.openclaw_version, Some("0.4.1".to_string()));
}

#[test]
fn inspect_with_some_tools_missing() {
    let info = detect_system(
        "windows".to_string(),
        "x86_64".to_string(),
        Ok(ran(true, "v20.0.0\n", "", Some(0))),
        Err("program not found".to_string()),
        Err("program not found".to_string()),
    );
    assert_eq!(info.node_version, Some("v20.0.0".to_string()));
    assert_eq!(info.npm_version, None);
    assert!(!info.openclaw_installed);
    assert_eq!(info.openclaw_version, None);
}

#[test]
fn version_probe_asks_for_version_only() {
    let inv = version_probe_invocation("node".to_string());
    assert_eq!(inv.program, "node");
    assert_eq!(inv.args, vec!["--version"]);
}

#[test]
fn trim_removes_surrounding_whitespace_only() {
    assert_eq!(trim_whitespace("v22.1.0\n"), "v22.1.0");
    assert_eq!(trim_whitespace("  \t a b \r\n"), "a b");
    assert_eq!(trim_whitespace("plain"), "plain");
}

#[test]
fn trim_of_empty_and_blank_is_empty() {
    assert_eq!(trim_whitespace(""), "");
    assert_eq!(trim_whitespace(" \t\r\n"), "");
}

#[test]
fn trim_removes_unicode_whitespace() {
    assert_eq!(trim_whitespace("1.0\u{a0}"), "1.0");
    assert_eq!(trim_whitespace("\u{2003}\u{85}v9\u{3000}"), "v9");
    assert_eq!(trim_whitespace("1.0\u{a0}"), "1.0\u{a0}".trim());
}

#[test]
fn trim_agrees_with_std_trim_on_probe_output() {
    for s in ["v22.1.0\n", "  \t a b \r\n", "", " \u{1680}\u{205f} ", "x\u{202f}"] {
        assert_eq!(trim_whitespace(s), s.trim());
    }
}

#[test]
fn trim_keeps_interior_whitespace() {
    assert_eq!(trim_whitespace("\ta  b\tc "), "a  b\tc");
}

#[test]
fn capture_result_keeps_all_fields() {
    let r = capture_result(false, "out".to_string(), "err".to_string(), Some(42));
    assert!(!r.success);
    assert_eq!(r.stdout, "out");
    assert_eq!(r.stderr, "err");
    assert_eq!(r.exit_code, Some(42));
}

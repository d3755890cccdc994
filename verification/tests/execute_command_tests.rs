use forge_runtime::tool_registry::Tool;
use forge_runtime::tools::execute_command_tool::{
    contains_shell_metacharacters, parse_command, validate_command_safety, CommandPlan,
    CommandSafety, ExecuteCommandTool,
};
use forge_runtime::types::{
    ExecutionContext, ExecutionMode, ForgeError, SessionId, ToolArguments, ToolError,
};

fn make_args(pairs: &[(&str, &str)]) -> ToolArguments {
    let mut args = ToolArguments::new();
    for (k, v) in pairs {
        args.set(k, v);
    }
    args
}

fn context(mode: ExecutionMode) -> ExecutionContext {
    ExecutionContext {
        session_id: SessionId::new(),
        iteration: 1,
        mode,
        working_dir: "/work".to_string(),
    }
}

#[test]
fn test_parse_command() {
    let (cmd, args) = parse_command("cargo build --release");
    assert_eq!(cmd, "cargo");
    assert_eq!(args, vec!["build", "--release"]);
}

#[test]
fn test_parse_command_empty() {
    let (cmd, args) = parse_command("");
    assert_eq!(cmd, "");
    assert!(args.is_empty());
}

#[test]
fn test_validate_safe_command() {
    let safety = validate_command_safety("cargo", &["build".to_string()]);
    assert_eq!(safety, CommandSafety::Safe);
}

#[test]
fn test_validate_blocked_command() {
    let safety = validate_command_safety("sudo", &["rm".to_string()]);
    assert!(matches!(safety, CommandSafety::Blocked { .. }));
}

#[test]
fn test_validate_destructive_rm() {
    let safety = validate_command_safety("rm", &["-rf".to_string(), "/".to_string()]);
    assert!(matches!(safety, CommandSafety::RequiresConfirmation { .. }));
}

#[test]
fn test_validate_destructive_git_push() {
    let safety = validate_command_safety("git", &["push".to_string(), "origin".to_string()]);
    assert!(matches!(safety, CommandSafety::RequiresConfirmation { .. }));
}

#[test]
fn test_validate_safe_git_status() {
    let safety = validate_command_safety("git", &["status".to_string()]);
    assert_eq!(safety, CommandSafety::Safe);
}

#[test]
fn test_validate_shell_metacharacters() {
    let safety = validate_command_safety("echo", &["hello; rm -rf /".to_string()]);
    assert!(matches!(safety, CommandSafety::RequiresConfirmation { .. }));
}

#[test]
fn test_truncate_output_small() {
    let _tool = ExecuteCommandTool::new();
    let output = "line1\nline2\nline3";
    let result = ExecuteCommandTool::truncate_output(output, 10);
    assert_eq!(result, output);
}

#[test]
fn test_truncate_output_large() {
    let _tool = ExecuteCommandTool::new();
    let lines: Vec<String> = (0..100).map(|i| format!("line{}", i)).collect();
    let output = lines.join("\n");
    let result = ExecuteCommandTool::truncate_output(&output, 50);
    assert!(result.contains("line0"));
    assert!(result.contains("line49"));
    assert!(!result.contains("line50"));
    assert!(result.contains("truncated"));
}

#[test]
fn truncate_output_reports_hidden_line_count() {
    let result = ExecuteCommandTool::truncate_output("a\nb\nc\nd", 2);
    assert_eq!(result, "a\nb\n[Output truncated: 2 more lines hidden]");
}

#[test]
fn parse_command_lowercases_only_the_command() {
    let (cmd, args) = parse_command("  GIT   Push\tOrigin ");
    assert_eq!(cmd, "git");
    assert_eq!(args, vec!["Push", "Origin"]);
}

#[test]
fn blocked_command_reason_lists_allowlist() {
    match validate_command_safety("sudo", &[]) {
        CommandSafety::Blocked { reason } => {
            assert!(reason.starts_with("Command 'sudo' is not in the safe command allowlist."));
            assert!(reason.ends_with("\"sort\", \"uniq\"]"));
        }
        other => panic!("expected Blocked, got {:?}", other),
    }
}

#[test]
fn destructive_git_subcommand_is_matched_case_insensitively() {
    match validate_command_safety("git", &["RESET".to_string()]) {
        CommandSafety::RequiresConfirmation { reason } => {
            assert_eq!(
                reason,
                "Git 'reset' command is potentially destructive. This may modify repository state or remote history."
            );
        }
        other => panic!("expected RequiresConfirmation, got {:?}", other),
    }
}

#[test]
fn metacharacters_detected() {
    assert!(contains_shell_metacharacters("a | b"));
    assert!(contains_shell_metacharacters("$(x)"));
    assert!(!contains_shell_metacharacters("cargo test --release"));
}

#[test]
fn prepare_refuses_in_analysis_mode() {
    let tool = ExecuteCommandTool::new();
    let r = tool.prepare(&make_args(&[("command", "echo test")]), &context(ExecutionMode::Analysis));
    assert!(matches!(r, Err(ForgeError::ToolNotAllowed { .. })));
}

#[test]
fn prepare_requires_command() {
    let tool = ExecuteCommandTool::new();
    match tool.prepare(&ToolArguments::new(), &context(ExecutionMode::Edit)) {
        Err(ForgeError::MissingArgument(k)) => assert_eq!(k, "command"),
        _ => panic!("expected MissingArgument"),
    }
    match tool.prepare(&make_args(&[("command", "   ")]), &context(ExecutionMode::Edit)) {
        Err(ForgeError::InvalidArgument(m)) => assert_eq!(m, "command cannot be empty"),
        _ => panic!("expected InvalidArgument"),
    }
}

#[test]
fn prepare_blocks_command_off_allowlist() {
    let tool = ExecuteCommandTool::new();
    match tool.prepare(&make_args(&[("command", "sudo ls")]), &context(ExecutionMode::Edit)) {
        Ok(CommandPlan::Refused(res)) => {
            assert!(!res.success);
            assert!(matches!(res.error, Some(ToolError::NotAllowed { .. })));
        }
        _ => panic!("expected a refusal"),
    }
}

#[test]
fn prepare_asks_confirmation_for_destructive_command() {
    let tool = ExecuteCommandTool::new();
    match tool.prepare(&make_args(&[("command", "rm test.txt")]), &context(ExecutionMode::Edit)) {
        Ok(CommandPlan::Refused(res)) => match res.error {
            Some(ToolError::ExecutionFailed(m)) => {
                assert!(m.starts_with("SAFETY_CONFIRMATION_REQUIRED: "));
                assert!(m.ends_with("\nCommand: rm test.txt"));
            }
            _ => panic!("expected ExecutionFailed"),
        },
        _ => panic!("expected a refusal"),
    }
    let confirmed = make_args(&[("command", "rm test.txt"), ("require_confirmation", "true")]);
    assert!(matches!(tool.prepare(&confirmed, &context(ExecutionMode::Edit)), Ok(CommandPlan::Run(_))));
}

#[test]
fn prepare_resolves_options() {
    let tool = ExecuteCommandTool::new();
    let args = make_args(&[
        ("command", "cargo test"),
        ("timeout_seconds", "900"),
        ("capture_stderr", "false"),
        ("max_output_lines", "12"),
    ]);
    match tool.prepare(&args, &context(ExecutionMode::Fix)) {
        Ok(CommandPlan::Run(req)) => {
            assert_eq!(req.command, "cargo test");
            assert_eq!(req.working_dir, "/work");
            assert_eq!(req.timeout_secs, 300);
            assert!(!req.capture_stderr);
            assert_eq!(req.max_output_lines, 12);
        }
        _ => panic!("expected Run"),
    }
    match tool.prepare(&make_args(&[("command", "ls"), ("timeout_seconds", "x")]), &context(ExecutionMode::Edit)) {
        Ok(CommandPlan::Run(req)) => {
            assert_eq!(req.timeout_secs, 30);
            assert!(req.capture_stderr);
            assert_eq!(req.max_output_lines, 1000);
        }
        _ => panic!("expected Run"),
    }
}

#[test]
fn result_output_formats_short_and_long_output() {
    assert_eq!(
        ExecuteCommandTool::result_output("echo hi", true, "hi\n"),
        "Executed: echo hi\nExit: success\nOutput:\nhi\n"
    );
    let long = "x".repeat(600);
    let r = ExecuteCommandTool::result_output("cat f", false, &long);
    assert_eq!(r, format!("Executed: cat f\nExit: failure\nOutput (first 500 chars): {}...", "x".repeat(500)));
}

#[test]
fn execute_command_tool_mode_rule() {
    let tool = ExecuteCommandTool::new();
    assert_eq!(tool.name().as_str(), "execute_command");
    assert!(!tool.allowed_in_mode(ExecutionMode::Analysis));
    assert!(tool.allowed_in_mode(ExecutionMode::Batch));
}

#[test]
fn exit_errors_report_code_and_stderr() {
    assert_eq!(ExecuteCommandTool::exit_error(true, Some(0), None), None);
    assert_eq!(
        ExecuteCommandTool::exit_error(false, Some(2), Some("bad input")).as_deref(),
        Some("Command exited with code 2\nStderr: bad input")
    );
    assert_eq!(ExecuteCommandTool::exit_error(false, Some(-1), Some("")).as_deref(), Some("Command exited with code -1"));
    assert_eq!(ExecuteCommandTool::exit_error(false, None, None).as_deref(), Some("Command terminated by signal"));
    let long = "e".repeat(600);
    let m = ExecuteCommandTool::exit_error(false, Some(1), Some(&long)).unwrap();
    assert_eq!(m.len(), "Command exited with code 1\nStderr: ".len() + 500);
}

#[test]
fn test_execute_blocked_command() {
    let tool = ExecuteCommandTool::new();
    let args = make_args(&[("command", "sudo ls")]);
    match tool.prepare(&args, &context(ExecutionMode::Edit)).unwrap() {
        CommandPlan::Refused(result) => {
            assert!(!result.success);
            assert!(result.error.is_some());
        }
        CommandPlan::Run(_) => panic!("sudo must not run"),
    }
}

#[test]
fn test_execute_blocked_in_analysis_mode() {
    let tool = ExecuteCommandTool::new();
    let args = make_args(&[("command", "echo test")]);
    let result = tool.prepare(&args, &context(ExecutionMode::Analysis));
    assert!(result.is_err());
}

use forge_runtime::collections::{chars_less, sort_texts};
use forge_runtime::progress_policy::{
    failed_tool_signature, tool_call_signature, ProgressPolicy, ReadOnlyOutcome,
    READ_ONLY_CHURN_THRESHOLD,
};
use forge_runtime::types::{ForgeError, ToolArguments, ToolCall, ToolName};

fn call(name: &str, pairs: &[(&str, &str)]) -> ToolCall {
    let mut args = ToolArguments::new();
    for (k, v) in pairs {
        args.set(k, v);
    }
    ToolCall {
        name: ToolName::new(name).expect("tool name"),
        arguments: args,
    }
}

fn run_read_only(policy: &mut ProgressPolicy, tool_call: &ToolCall) -> Result<bool, ForgeError> {
    match policy.record_read_only_progress_policy(tool_call) {
        ReadOnlyOutcome::Progress => Ok(true),
        ReadOnlyOutcome::Halted(e) => Err(e),
        ReadOnlyOutcome::Churn(reason) => policy.resolve_read_only_churn(&reason),
    }
}

#[test]
fn read_only_churn_forces_audited_correction_before_budget_exhaustion() {
    let mut runtime = ProgressPolicy::new();
    let read_call = call("read_file", &[("path", "src/lib.rs")]);

    assert!(run_read_only(&mut runtime, &read_call).expect("first read"));
    assert!(run_read_only(&mut runtime, &read_call).expect("second read"));
    assert!(run_read_only(&mut runtime, &read_call).expect("third read"));

    assert_eq!(runtime.consecutive_read_only_tools, READ_ONLY_CHURN_THRESHOLD);
    assert!(runtime.repair_prompt.is_some());
    assert!(runtime
        .repair_prompt
        .as_ref()
        .is_some_and(|p| p.contains("Read-only churn detected: repeated identical read_file calls without mutation")));
}

#[test]
fn post_correction_read_only_churn_halts_explicitly() {
    let mut runtime = ProgressPolicy::new();
    runtime.post_correction_progress_required = true;
    let read_call = call("read_file", &[("path", "src/lib.rs")]);

    assert!(run_read_only(&mut runtime, &read_call).expect("first read after correction"));
    let result = run_read_only(&mut runtime, &read_call);

    assert!(matches!(result, Err(ForgeError::ValidationFailed(_))));
    if let Err(ForgeError::ValidationFailed(reason)) = result {
        assert!(reason.starts_with("Post-correction no-progress detected: 2 read-only tool calls"));
    }
}

#[test]
fn churn_after_correction_at_halt_threshold_halts() {
    let mut policy = ProgressPolicy::new();
    for i in 0..4 {
        let path = format!("f{}.rs", i);
        let c = call("read_file", &[("path", path.as_str())]);
        assert!(run_read_only(&mut policy, &c).expect("distinct reads"));
    }
    let fifth = call("list_dir", &[("path", ".")]);
    match policy.record_read_only_progress_policy(&fifth) {
        ReadOnlyOutcome::Churn(reason) => {
            assert_eq!(
                reason,
                "Read-only churn detected: 5 consecutive read-only tool calls without mutation"
            );
            assert!(policy.resolve_read_only_churn(&reason).expect("first correction"));
            assert_eq!(policy.no_progress_corrections, 1);
        }
        _ => panic!("expected churn"),
    }
    let sixth = call("grep_search", &[("query", "x"), ("path", ".")]);
    let halted = run_read_only(&mut policy, &sixth);
    assert!(matches!(halted, Err(ForgeError::ValidationFailed(_))));
}

#[test]
fn mutation_resets_read_only_trackers() {
    let mut policy = ProgressPolicy::new();
    let read_call = call("read_file", &[("path", "a.rs")]);
    assert!(run_read_only(&mut policy, &read_call).unwrap());
    assert!(run_read_only(&mut policy, &read_call).unwrap());
    let write_call = call("write_file", &[("path", "a.rs"), ("content", "x")]);
    assert!(matches!(
        policy.record_read_only_progress_policy(&write_call),
        ReadOnlyOutcome::Progress
    ));
    assert_eq!(policy.consecutive_read_only_tools, 0);
    assert!(policy.recent_read_only_signatures.is_empty());
}

#[test]
fn repeated_missing_file_read_gets_bounded_corrective_recovery() {
    let mut runtime = ProgressPolicy::new();
    let read_call = call("read_file", &[("path", "src/main.rs")]);
    let error = "IO error: Failed to read 'src/main.rs': No such file or directory";

    assert!(runtime
        .record_failed_tool_progress_policy(&read_call, error)
        .expect("first failure"));
    assert!(runtime
        .record_failed_tool_progress_policy(&read_call, error)
        .expect("second failure"));
    assert!(runtime
        .record_failed_tool_progress_policy(&read_call, error)
        .expect("third failure"));
    assert!(runtime
        .repair_prompt
        .as_ref()
        .is_some_and(|prompt| { prompt.contains("Stop reading the missing path") }));

    let halted = runtime.record_failed_tool_progress_policy(&read_call, error);
    assert!(matches!(halted, Err(ForgeError::ValidationFailed(_))));
}

#[test]
fn repeated_test_runner_failure_requires_mutation_before_rerun() {
    let mut runtime = ProgressPolicy::new();
    let test_call = call("test_runner", &[]);
    let error = "Execution failed: error: test failed, to rerun pass `--test bug_tests`";

    runtime
        .record_failed_tool_progress_policy(&test_call, error)
        .expect("first failure");
    runtime
        .record_failed_tool_progress_policy(&test_call, error)
        .expect("second failure");
    runtime
        .record_failed_tool_progress_policy(&test_call, error)
        .expect("third failure");

    assert!(runtime.repair_prompt.as_ref().is_some_and(|prompt| {
        prompt.contains("Do not run test_runner again until after a code mutation")
    }));
    assert!(runtime
        .repair_prompt
        .as_ref()
        .is_some_and(|prompt| prompt.contains("Failed-tool churn detected")));
}

#[test]
fn different_failures_do_not_trigger_churn() {
    let mut policy = ProgressPolicy::new();
    let a = call("read_file", &[("path", "a.rs")]);
    let b = call("read_file", &[("path", "b.rs")]);
    assert!(policy.record_failed_tool_progress_policy(&a, "missing").unwrap());
    assert!(policy.record_failed_tool_progress_policy(&b, "missing").unwrap());
    assert!(policy.record_failed_tool_progress_policy(&a, "missing").unwrap());
    assert!(policy.repair_prompt.is_none());
    assert_eq!(policy.consecutive_failed_tool_calls, 3);
    assert_eq!(policy.recent_failed_tool_signatures.len(), 3);
    policy.reset_failed_tool_policy();
    assert_eq!(policy.consecutive_failed_tool_calls, 0);
}

#[test]
fn signatures_sort_arguments() {
    let first = call("grep_search", &[("query", "x"), ("path", "src")]);
    let second = call("grep_search", &[("path", "src"), ("query", "x")]);
    assert_eq!(tool_call_signature(&first), "grep_search:path=src,query=x");
    assert_eq!(tool_call_signature(&first), tool_call_signature(&second));
    assert_eq!(tool_call_signature(&call("test_runner", &[])), "test_runner:");
    assert_eq!(
        failed_tool_signature(&call("read_file", &[("path", "a")]), "Not Found!"),
        "read_file:read_file:path=a:not_found"
    );
}

#[test]
fn texts_order_by_character_codes() {
    let a: Vec<char> = "a-b".chars().collect();
    let b: Vec<char> = "a=".chars().collect();
    assert!(chars_less(&a, &b));
    assert!(!chars_less(&b, &a));
    assert!(chars_less(&[], &a));
    let sorted = sort_texts(&vec![
        "pear".to_string(),
        "apple".to_string(),
        "app".to_string(),
        "pear".to_string(),
    ]);
    assert_eq!(sorted, vec!["app", "apple", "pear", "pear"]);
}

use forge_runtime::types::{ChainStatus, StepOutcome, StepStatus, TaskChain};
use forge_runtime::collections::PathMap;
use forge_runtime::progress_policy::ProgressPolicy;
use forge_runtime::runtime_gates::CompletionReadiness;
use forge_runtime::runtime_step::{
    chain_failure, chain_final_result, chain_step_outcome, chain_step_task, iteration_step,
    read_only_step_report, single_task_result, tool_call_step, validation_step, ChainFailureStage,
    CommitAction, CommitState, IterationOutcome, IterationState, PlannerEvent, ToolCallAction,
    ValidationOutcome,
};
use forge_runtime::state::AgentState;
use forge_runtime::types::{
    CompletionReason, ExecutionMode, FileRecord, ForgeError, Mutation, MutationType, PlannerOutput,
    ToolArguments, ToolCall, ToolName,
};

fn write(path: &str) -> Mutation {
    Mutation {
        path: path.to_string(),
        mutation_type: MutationType::Write,
        content_hash_before: None,
        content_hash_after: None,
    }
}

fn reject(reason: &str, stage: &str, format: bool) -> ValidationOutcome {
    ValidationOutcome::Reject {
        reason: reason.to_string(),
        failed_stage: stage.to_string(),
        format_stage: format,
    }
}

fn call(name: &str, pairs: &[(&str, &str)]) -> ToolCall {
    let mut args = ToolArguments::new();
    for (k, v) in pairs {
        args.set(k, v);
    }
    ToolCall { name: ToolName::new(name).unwrap(), arguments: args }
}

#[test]
fn accepted_validation_commits_the_pending_set() {
    let mut st = CommitState::new();
    st.deferred.push(write("src/lib.rs"));
    st.known_errors.push("old".to_string());
    st.consecutive_validation_failures = 1;
    let action = validation_step(
        &mut st,
        &[write("src/math.rs")],
        &ValidationOutcome::Accept,
        "task",
        &[],
        true,
        None,
        None,
    );
    match action {
        CommitAction::Commit(ms) => {
            assert_eq!(ms.len(), 2);
            assert_eq!(ms[0].path, "src/lib.rs");
            assert_eq!(ms[1].path, "src/math.rs");
        }
        _ => panic!("expected commit"),
    }
    assert!(st.deferred.is_empty());
    assert!(st.known_errors.is_empty());
    assert_eq!(st.consecutive_validation_failures, 0);
}

#[test]
fn validation_reject_schedules_live_recovery_instead_of_dead_end() {
    let mut st = CommitState::new();
    let action = validation_step(
        &mut st,
        &[write("src/lib.rs")],
        &reject("syntax error", "syntax", false),
        "Fix the answer function",
        &["/p/src/lib.rs".to_string()],
        true,
        None,
        None,
    );
    match action {
        CommitAction::Revert { mutations, halt } => {
            assert_eq!(mutations.len(), 1);
            assert!(halt.is_none());
        }
        _ => panic!("expected revert"),
    }
    assert!(st
        .repair_prompt
        .as_ref()
        .unwrap()
        .starts_with("Validation failed and mutations were reverted. Evidence: Validation failed at stage syntax: syntax error"));
    assert_eq!(st.known_errors, vec!["Validation failed: syntax error"]);
    st.consecutive_validation_failures = 2;
    let action = validation_step(
        &mut st,
        &[write("src/lib.rs")],
        &reject("syntax error", "syntax", false),
        "Fix",
        &[],
        false,
        None,
        None,
    );
    match action {
        CommitAction::Revert { mutations, halt: Some(ForgeError::ValidationFailed(m)) } => {
            assert!(mutations.is_empty());
            assert_eq!(m, "Validation failed at stage syntax: syntax error");
        }
        _ => panic!("expected halting revert"),
    }
}

#[test]
fn multi_file_validation_defers_with_hint() {
    let mut st = CommitState::new();
    let action = validation_step(
        &mut st,
        &[write("src/lib.rs")],
        &reject("error[E0583]: file not found for module `math`", "build", false),
        "Expose the math module",
        &["/p/src/lib.rs".to_string()],
        true,
        None,
        None,
    );
    match action {
        CommitAction::Defer { hint } => assert!(hint.contains("create that module file")),
        _ => panic!("expected deferral"),
    }
    assert_eq!(st.deferred.len(), 1);
    assert!(st.pending_validation);
    assert!(st.repair_prompt.as_ref().unwrap().contains("Pending paths: src/lib.rs."));
}

#[test]
fn format_and_companion_fixes_rerun_validation() {
    let mut st = CommitState::new();
    let action = validation_step(
        &mut st,
        &[write("src/lib.rs")],
        &reject("diff", "format", true),
        "t",
        &[],
        true,
        Some(vec![write("src/lib.rs")]),
        Some(write("src/other.rs")),
    );
    assert!(matches!(action, CommitAction::RerunAfterFormat));
    assert_eq!(st.deferred.len(), 2);
    let action = validation_step(
        &mut st,
        &[],
        &reject("unresolved import `x::math`", "build", false),
        "t",
        &[],
        true,
        None,
        Some(write("src/main.rs")),
    );
    match action {
        CommitAction::RerunAfterCompanion(m) => assert_eq!(m.path, "src/main.rs"),
        _ => panic!("expected companion rerun"),
    }
    assert_eq!(st.consecutive_validation_failures, 1);
}

#[test]
fn escalation_halts() {
    let mut st = CommitState::new();
    let action = validation_step(
        &mut st,
        &[],
        &ValidationOutcome::Escalate { reason: "bad".to_string() },
        "t",
        &[],
        true,
        None,
        None,
    );
    assert!(matches!(action, CommitAction::Halt(ForgeError::ValidationFailed(m)) if m == "bad"));
}

#[test]
fn mutation_is_suppressed_once_the_goal_is_ready() {
    let state = AgentState::new(3, "t".to_string(), ExecutionMode::Edit);
    let ready = CompletionReadiness::Ready { reason: "done".to_string() };
    let w = call("write_file", &[("path", "a.txt"), ("content", "x")]);
    assert!(matches!(
        tool_call_step(&state, &w, "a.txt", false, None, &ready),
        Ok(ToolCallAction::Suppress { reason }) if reason == "done"
    ));
    let not_ready = CompletionReadiness::NotReady { reason: "no".to_string() };
    assert!(matches!(
        tool_call_step(&state, &w, "a.txt", false, None, &not_ready),
        Ok(ToolCallAction::Run { snapshot: false })
    ));
    assert!(matches!(
        tool_call_step(&state, &w, "a.txt", true, Some("x"), &not_ready),
        Ok(ToolCallAction::Blocked { .. })
    ));
    let r = call("read_file", &[("path", "a.txt")]);
    assert!(matches!(
        tool_call_step(&state, &r, "a.txt", true, None, &ready),
        Ok(ToolCallAction::Run { snapshot: false })
    ));
}

#[test]
fn read_existing_file_allows_write_with_snapshot() {
    let mut state = AgentState::new(3, "t".to_string(), ExecutionMode::Edit);
    state.record_file_read(FileRecord::new("a.txt", "x", None, 0));
    let not_ready = CompletionReadiness::NotReady { reason: "no".to_string() };
    let w = call("write_file", &[("path", "a.txt"), ("content", "y")]);
    assert!(matches!(
        tool_call_step(&state, &w, "a.txt", true, Some("x"), &not_ready),
        Ok(ToolCallAction::Run { snapshot: true })
    ));
}

#[test]
fn planner_events_drive_the_iteration() {
    let state = AgentState::new(3, "t".to_string(), ExecutionMode::Edit);
    let contents: PathMap<String> = PathMap::new();
    let mut st = IterationState { retry_count: 1, consecutive_validation_failures: 2, repair_prompt: None };
    let mut policy = ProgressPolicy::new();

    let out = iteration_step(
        &mut st,
        &mut policy,
        &state,
        false,
        &[],
        &contents,
        PlannerEvent::Normalized(PlannerOutput::ToolCall(call("read_file", &[("path", "a")]))),
    )
    .unwrap();
    assert!(matches!(out, IterationOutcome::Execute(c) if c.name.as_str() == "read_file"));
    assert!(policy.post_correction_progress_required);
    assert_eq!(st.retry_count, 0);

    let out = iteration_step(
        &mut st,
        &mut policy,
        &state,
        false,
        &[],
        &contents,
        PlannerEvent::Accepted(PlannerOutput::Completion { reason: CompletionReason::new("done") }),
    )
    .unwrap();
    assert!(matches!(out, IterationOutcome::Continue));
    assert!(st.repair_prompt.as_ref().unwrap().starts_with("Completion was rejected."));

    let out = iteration_step(
        &mut st,
        &mut policy,
        &state,
        false,
        &[],
        &contents,
        PlannerEvent::Accepted(PlannerOutput::Failure { reason: "x".to_string(), recoverable: false }),
    )
    .unwrap();
    assert!(matches!(out, IterationOutcome::Halt));

    let out = iteration_step(
        &mut st,
        &mut policy,
        &state,
        false,
        &[],
        &contents,
        PlannerEvent::Rejected { reason: "bad".to_string(), repair_prompt: "fix".to_string(), can_retry: true },
    )
    .unwrap();
    assert!(matches!(out, IterationOutcome::Continue));
    assert_eq!(st.repair_prompt.as_deref(), Some("fix"));
    let err = iteration_step(
        &mut st,
        &mut policy,
        &state,
        false,
        &[],
        &contents,
        PlannerEvent::Rejected { reason: "bad".to_string(), repair_prompt: "fix".to_string(), can_retry: false },
    );
    assert!(matches!(err, Err(ForgeError::ValidationFailed(m)) if m == "Planner failed to produce valid output after 1 retries: bad"));
    let err = iteration_step(
        &mut st,
        &mut policy,
        &state,
        false,
        &[],
        &contents,
        PlannerEvent::Escalated { violation: "v".to_string() },
    );
    assert!(matches!(err, Err(ForgeError::ValidationFailed(m)) if m == "Critical violation: v"));
}

#[test]
fn current_step_can_be_changed_in_place() {
    let mut chain = TaskChain::new("o".to_string(), vec!["a".to_string(), "b".to_string()]);
    chain.current_step_mut().expect("step").status = StepStatus::Completed;
    assert_eq!(chain.completed_steps(), 1);
    chain.current_step = 5;
    assert!(chain.current_step_mut().is_none());
}

#[test]
fn chain_step_task_names_the_step() {
    assert_eq!(
        chain_step_task("Ship it", 0, 3, Some("read config")),
        "Ship it [Step 1/3: read config]"
    );
    assert_eq!(chain_step_task("Ship it", 2, 3, None), "Ship it [Step 3/3: unnamed step]");
}

#[test]
fn chain_step_outcome_classifies_the_run() {
    let mut st = AgentState::new(5, "t".to_string(), ExecutionMode::Edit);
    st.record_file_written("b.rs".to_string());
    st.record_file_written("a.rs".to_string());
    match chain_step_outcome(true, &None, "edit", &st) {
        StepOutcome::Resolved { summary, files_modified } => {
            assert_eq!(summary, "Step edit completed successfully");
            assert_eq!(files_modified, vec!["a.rs".to_string(), "b.rs".to_string()]);
        }
        other => panic!("unexpected {:?}", other),
    }
    assert_eq!(
        chain_step_outcome(false, &Some("boom".to_string()), "edit", &st),
        StepOutcome::Failed { reason: "boom".to_string(), recoverable: false }
    );
    assert_eq!(
        chain_step_outcome(false, &None, "edit", &st),
        StepOutcome::Failed { reason: "Step failed without error details".to_string(), recoverable: false }
    );
}

#[test]
fn chain_results() {
    let r = read_only_step_report(true, false).unwrap();
    assert_eq!(r.message, "Read-only chain step completed without mutations");
    assert!(read_only_step_report(true, true).is_none());
    assert!(read_only_step_report(false, false).is_none());

    let f = chain_failure("c1", 1, 3, ChainFailureStage::StartStep, 2, "busy");
    assert!(!f.success);
    assert_eq!(f.final_status, ChainStatus::Failed);
    assert_eq!(f.error.as_deref(), Some("Failed to start step 2: busy"));
    let f = chain_failure("c1", 1, 3, ChainFailureStage::Checkpoint, 2, "disk");
    assert_eq!(f.error.as_deref(), Some("Failed to save chain checkpoint: disk"));
    assert_eq!(f.completed_steps, 1);

    let done = chain_final_result("c1", 3, 3, true, ChainStatus::Complete);
    assert!(done.success && done.error.is_none());
    let halted = chain_final_result("c1", 1, 3, false, ChainStatus::Failed);
    assert_eq!(halted.error.as_deref(), Some("Chain halted due to step failure"));

    let single = single_task_result(true, None);
    assert_eq!((single.chain_id.as_str(), single.completed_steps, single.total_steps), ("single-task", 1, 1));
    assert_eq!(single.final_status, ChainStatus::Complete);
    let single = single_task_result(false, Some("x".to_string()));
    assert_eq!((single.completed_steps, single.final_status), (0, ChainStatus::Failed));
}

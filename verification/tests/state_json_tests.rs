use forge_runtime::json::JsonValue;
use forge_runtime::state::AgentState;
use forge_runtime::state_json::{
    parse_change_record, parse_file_record, parse_validation_report, resume_approval, resume_with,
};
use forge_runtime::types::{
    CompletionReason, ExecutionMode, FileRecord, ForgeError, Mutation, MutationType,
    SessionStatus, ToolError, ToolName, ValidationDecision, ValidationReport, ValidationStage,
    ValidationStageResult,
};

fn sample_validation_report() -> ValidationReport {
    ValidationReport {
        decision: ValidationDecision::Accept,
        stage_results: vec![ValidationStageResult {
            stage: ValidationStage::Syntax,
            passed: true,
            message: "syntax ok".to_string(),
            execution_time_ms: 3,
        }],
        message: "All validation stages passed".to_string(),
        requires_revert: false,
    }
}

fn sample_mutation(path: &str, mutation_type: MutationType) -> Mutation {
    Mutation {
        path: path.to_string(),
        mutation_type,
        content_hash_before: Some("sha256:before".to_string()),
        content_hash_after: Some("sha256:after".to_string()),
    }
}

/// JSON text through serde_json, as the state file holds it.
fn to_serde(v: &JsonValue) -> serde_json::Value {
    match v {
        JsonValue::Null => serde_json::Value::Null,
        JsonValue::Bool(b) => serde_json::Value::Bool(*b),
        JsonValue::Uint(n) => serde_json::Value::from(*n),
        JsonValue::OtherNumber(t) => serde_json::from_str(t).unwrap(),
        JsonValue::Str(s) => serde_json::Value::String(s.clone()),
        JsonValue::Array(items) => serde_json::Value::Array(items.iter().map(to_serde).collect()),
        JsonValue::Object(fields) => {
            let mut m = serde_json::Map::new();
            for (k, x) in fields {
                m.insert(k.clone(), to_serde(x));
            }
            serde_json::Value::Object(m)
        }
    }
}

fn from_serde(v: &serde_json::Value) -> JsonValue {
    match v {
        serde_json::Value::Null => JsonValue::Null,
        serde_json::Value::Bool(b) => JsonValue::Bool(*b),
        serde_json::Value::Number(n) => match n.as_u64() {
            Some(u) => JsonValue::Uint(u),
            None => JsonValue::OtherNumber(n.to_string()),
        },
        serde_json::Value::String(s) => JsonValue::Str(s.clone()),
        serde_json::Value::Array(items) => JsonValue::Array(items.iter().map(from_serde).collect()),
        serde_json::Value::Object(m) => {
            JsonValue::Object(m.iter().map(|(k, x)| (k.clone(), from_serde(x))).collect())
        }
    }
}

fn saved_state() -> AgentState {
    let mut state = AgentState::new(8, "test".to_string(), ExecutionMode::Edit);
    state.start().unwrap();
    state.record_file_read(FileRecord::new("src/lib.rs", "fn demo() {}\n", None, 1));
    state.capture_snapshot("src/lib.rs", "old content");
    state
        .commit(&sample_validation_report(), &[sample_mutation("src/lib.rs", MutationType::Patch)])
        .unwrap();
    state.next_iteration().unwrap();
    state.complete(CompletionReason::new("Updated src/lib.rs line 1 and validated syntax.")).unwrap();
    state
}

#[test]
fn save_and_load_preserve_auditable_state() {
    let state = saved_state();
    let text = serde_json::to_string_pretty(&to_serde(&state.to_json_value())).unwrap();
    let parsed: serde_json::Value = serde_json::from_str(&text).unwrap();
    let loaded = AgentState::from_json_value(&from_serde(&parsed)).unwrap();

    assert_eq!(loaded.iteration, state.iteration);
    assert_eq!(loaded.max_iterations, state.max_iterations);
    assert_eq!(loaded.status, SessionStatus::Complete);
    assert_eq!(loaded.files_read.len(), 1);
    assert_eq!(loaded.files_written.len(), 1);
    assert_eq!(loaded.change_history.len(), 1);
    assert_eq!(loaded.snapshots.len(), 1);
    assert_eq!(loaded.state_hash, state.state_hash);
    assert_eq!(
        loaded.completion_reason.as_ref().map(|reason| reason.as_str()),
        state.completion_reason.as_ref().map(|reason| reason.as_str())
    );
    loaded.verify_integrity().unwrap();
}

#[test]
fn loading_refuses_a_tampered_state() {
    let state = saved_state();
    let mut v = to_serde(&state.to_json_value());
    v["task"] = serde_json::Value::String("something else".to_string());
    let r = AgentState::from_json_value(&from_serde(&v));
    assert!(matches!(r, Err(ForgeError::StateCorruption(ref m)) if m == "Persisted state hash does not match reconstructed state"));
}

#[test]
fn loading_without_a_stored_hash_recomputes_it() {
    let state = saved_state();
    let mut v = to_serde(&state.to_json_value());
    v.as_object_mut().unwrap().remove("state_hash");
    let loaded = AgentState::from_json_value(&from_serde(&v)).unwrap();
    assert_eq!(loaded.state_hash, state.state_hash);
}

fn object(pairs: Vec<(&str, serde_json::Value)>) -> JsonValue {
    let mut m = serde_json::Map::new();
    for (k, v) in pairs {
        m.insert(k.to_string(), v);
    }
    from_serde(&serde_json::Value::Object(m))
}

#[test]
fn loading_reports_the_first_missing_field() {
    let not_object = JsonValue::Array(vec![]);
    assert!(matches!(AgentState::from_json_value(&not_object),
        Err(ForgeError::InvalidConfiguration(ref m)) if m == "State file must contain a JSON object"));
    let no_session = object(vec![("iteration", serde_json::Value::from(1u64))]);
    assert!(matches!(AgentState::from_json_value(&no_session),
        Err(ForgeError::InvalidConfiguration(ref m)) if m == "Missing session_id"));
    let no_iteration = object(vec![("session_id", serde_json::Value::from("s1"))]);
    assert!(matches!(AgentState::from_json_value(&no_iteration),
        Err(ForgeError::InvalidConfiguration(ref m)) if m == "Missing iteration"));
    let bad_status = object(vec![
        ("session_id", serde_json::Value::from("s1")),
        ("iteration", serde_json::Value::from(2u64)),
        ("status", serde_json::Value::from("Paused")),
    ]);
    assert!(matches!(AgentState::from_json_value(&bad_status),
        Err(ForgeError::InvalidConfiguration(ref m)) if m == "Unknown session status 'Paused'"));
}

#[test]
fn minimal_state_file_takes_defaults() {
    let v = object(vec![
        ("session_id", serde_json::Value::from("s1")),
        ("iteration", serde_json::Value::from(2u64)),
    ]);
    let st = AgentState::from_json_value(&v).unwrap();
    assert_eq!(st.session_id.as_str(), "s1");
    assert_eq!(st.iteration, 2);
    assert_eq!(st.max_iterations, 10);
    assert_eq!(st.status, SessionStatus::Initializing);
    assert_eq!(st.mode, ExecutionMode::Edit);
    assert_eq!(st.task, "");
    assert!(st.files_read.is_empty());
    assert!(st.last_validation_report.is_none());
    st.verify_integrity().unwrap();
}

#[test]
fn state_without_report_does_not_load_back() {
    let mut state = AgentState::new(3, "t".to_string(), ExecutionMode::Fix);
    state.start().unwrap();
    let r = AgentState::from_json_value(&state.to_json_value());
    assert!(matches!(r, Err(ForgeError::InvalidConfiguration(ref m)) if m == "validation_report must be an object"));
}

#[test]
fn file_record_errors_name_the_field() {
    let no_path = object(vec![("content_hash", serde_json::Value::from("h"))]);
    assert!(matches!(parse_file_record(&no_path),
        Err(ForgeError::InvalidConfiguration(ref m)) if m == "file record missing path"));
    let bad_pair = object(vec![
        ("path", serde_json::Value::from("a.rs")),
        ("lines_read", serde_json::Value::Array(vec![serde_json::Value::from(1u64)])),
    ]);
    assert!(matches!(parse_file_record(&bad_pair),
        Err(ForgeError::InvalidConfiguration(ref m)) if m == "lines_read must contain exactly two integers"));
    let full = object(vec![
        ("path", serde_json::Value::from("a.rs")),
        ("content_hash", serde_json::Value::from("h")),
        ("size_bytes", serde_json::Value::from(4u64)),
        ("total_lines", serde_json::Value::from(1u64)),
        ("lines_read", serde_json::Value::Array(vec![serde_json::Value::from(2u64), serde_json::Value::from(5u64)])),
        ("is_full_read", serde_json::Value::from(false)),
        ("read_at_iteration", serde_json::Value::from(3u64)),
    ]);
    let rec = parse_file_record(&full).unwrap();
    assert_eq!(rec.lines_read, Some((2, 5)));
    assert_eq!(rec.read_at_iteration, 3);
    assert!(rec.content.is_none());
}

#[test]
fn report_and_change_record_parsing() {
    let report = object(vec![
        ("decision", serde_json::Value::from("Escalate")),
        ("message", serde_json::Value::from("m")),
    ]);
    let r = parse_validation_report(&report).unwrap();
    assert_eq!(r.decision, ValidationDecision::Escalate);
    assert!(r.stage_results.is_empty());
    assert!(!r.requires_revert);
    let bad = object(vec![("decision", serde_json::Value::from("Maybe")), ("message", serde_json::Value::from("m"))]);
    assert!(matches!(parse_validation_report(&bad),
        Err(ForgeError::InvalidConfiguration(ref m)) if m == "Unknown validation decision 'Maybe'"));
    let change = object(vec![("iteration", serde_json::Value::from(1u64))]);
    assert!(matches!(parse_change_record(&change, "fallback"),
        Err(ForgeError::InvalidConfiguration(ref m)) if m == "change record missing mutation"));
}

#[test]
fn resume_needs_approval_and_a_validated_state() {
    assert!(matches!(resume_approval(false),
        Err(ForgeError::InvalidConfiguration(ref m)) if m == "Resume requires explicit approval"));
    assert!(resume_approval(true).is_ok());
    let fresh = AgentState::new(3, "t".to_string(), ExecutionMode::Edit);
    assert!(matches!(fresh.checkpoint_allowed(), Err(ForgeError::ValidationFailed(_))));
    let r = fresh.into_resume_point(true);
    assert!(matches!(r, Err(ForgeError::ValidationFailed(ref m)) if m == "Checkpoint is not a validated resume point"));
    let state = saved_state();
    assert!(state.checkpoint_allowed().is_ok());
    assert!(state.into_resume_point(false).is_ok());
}

#[test]
fn error_texts_match_display() {
    assert_eq!(ForgeError::InvalidConfiguration("x".to_string()).to_text(), "Config error: x");
    assert_eq!(
        ForgeError::ToolNotAllowed { tool: ToolName::new("write_file").unwrap(), mode: ExecutionMode::Analysis }.to_text(),
        "Tool 'write_file' not allowed in Analysis mode"
    );
    assert_eq!(
        ForgeError::InvalidStateTransition { from: SessionStatus::Complete, to: SessionStatus::Running }.to_text(),
        "Invalid state transition: Complete -> Running"
    );
    assert_eq!(ForgeError::PlannerTimeout { timeout_seconds: 30 }.to_text(), "Planner timeout after 30 seconds");
    assert_eq!(
        ForgeError::ExecutionTimeout { command: "cargo test".to_string(), timeout_secs: 300 }.to_text(),
        "Command 'cargo test' timed out after 300 seconds"
    );
    assert_eq!(ToolError::ExecutionFailed("Hash mismatch".to_string()).to_text(), "Execution failed: Hash mismatch");
    assert_eq!(
        ToolError::InvalidArgument { name: "n".to_string(), value: "v".to_string(), reason: "r".to_string() }.to_text(),
        "Invalid argument 'n=v': r"
    );
}

#[test]
fn resume_refuses_before_loading_without_approval() {
    let r = resume_with(false, true, || -> Result<AgentState, ForgeError> { panic!("loaded without approval") });
    assert!(matches!(r, Err(ForgeError::InvalidConfiguration(ref m)) if m == "Resume requires explicit approval"));
    let r = resume_with(true, true, || Err(ForgeError::IoError("gone".to_string())));
    assert!(matches!(r, Err(ForgeError::IoError(ref m)) if m == "gone"));
    let r = resume_with(true, false, || Ok(AgentState::new(3, "t".to_string(), ExecutionMode::Edit)));
    assert!(matches!(r, Err(ForgeError::ValidationFailed(ref m)) if m == "Default state is not a validated resume point"));
    let r = resume_with(true, true, || Ok(saved_state()));
    assert!(r.is_ok());
}

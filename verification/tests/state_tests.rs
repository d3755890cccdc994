use forge_runtime::state::AgentState;
use forge_runtime::types::{
    ExecutionMode, Mutation, MutationType, SessionStatus, ValidationDecision, ValidationReport,
    ValidationStage, ValidationStageResult,
};

fn sample_validation_report() -> ValidationReport {
    ValidationReport {
        decision: ValidationDecision::Accept,
        stage_results: vec![ValidationStageResult {
            stage: ValidationStage::Syntax,
            passed: true,
            message: "syntax ok".to_string(),
            execution_time_ms: 3,
        }],
        message: "All validation stages passed".to_string(),
        requires_revert: false,
    }
}

fn sample_mutation(path: &str, mutation_type: MutationType) -> Mutation {
    Mutation {
        path: path.to_string(),
        mutation_type,
        content_hash_before: Some("sha256:before".to_string()),
        content_hash_after: Some("sha256:after".to_string()),
    }
}

#[test]
fn commit_records_change_history_and_updates_hash() {
    let mut state = AgentState::new(5, "test".to_string(), ExecutionMode::Edit);
    state.start().unwrap();
    let previous_hash = state.state_hash.clone();
    let mutation = sample_mutation("src/lib.rs", MutationType::Write);
    state.commit(&sample_validation_report(), std::slice::from_ref(&mutation)).unwrap();
    assert_eq!(state.change_history.len(), 1);
    assert!(state.files_written.contains("src/lib.rs"));
    assert_eq!(state.change_history[0].mutation.path, mutation.path);
    assert_ne!(state.state_hash, previous_hash);
    state.verify_integrity().unwrap();
}

#[test]
fn terminal_status_refuses_further_transitions() {
    let mut state = AgentState::new(5, "task".to_string(), ExecutionMode::Edit);
    state.start().unwrap();
    state.halt().unwrap();
    assert_eq!(state.status, SessionStatus::Halted);
    assert!(state.start().is_err());
    assert!(state.transition(SessionStatus::Running).is_err());
}

#[test]
fn fresh_state_passes_integrity_check() {
    let state = AgentState::new(3, "check".to_string(), ExecutionMode::Analysis);
    assert!(state.verify_integrity().is_ok());
    assert_eq!(state.iteration, 0);
}

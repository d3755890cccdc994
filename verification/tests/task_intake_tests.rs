use forge_runtime::task_intake::{
    ExecutionMode, ExecutionRiskPolicy, StructuredTaskIntake, TaskClass, TaskIntakeClassifier,
    TaskRiskLevel,
};

#[test]
fn classify_read_only() {
    let intake = TaskIntakeClassifier::classify("explain how the code works");
    assert!(matches!(intake.task_class, TaskClass::ReadOnlyAnalysis));
    assert!(matches!(intake.risk_level, TaskRiskLevel::Low));
    assert!(intake.is_read_only());
}

#[test]
fn classify_single_file_edit() {
    let intake = TaskIntakeClassifier::classify("fix the bug in src/main.rs");
    assert!(matches!(intake.task_class, TaskClass::SingleFileEdit | TaskClass::DebugFix));
}

#[test]
fn classify_multi_file() {
    let intake = TaskIntakeClassifier::classify("update all files to use new api");
    assert!(matches!(intake.task_class, TaskClass::MultiFileEdit));
    assert!(matches!(intake.risk_level, TaskRiskLevel::High));
    assert!(matches!(intake.proposed_execution_mode, ExecutionMode::ApprovalRequired));
}

#[test]
fn classify_refactor() {
    let intake = TaskIntakeClassifier::classify("refactor the error handling");
    assert!(matches!(intake.task_class, TaskClass::Refactor));
    assert!(matches!(intake.risk_level, TaskRiskLevel::High));
}

#[test]
fn classify_validation() {
    let intake = TaskIntakeClassifier::classify("run tests and validate");
    assert!(matches!(intake.task_class, TaskClass::ValidationOnly));
    assert!(intake.is_read_only());
}

#[test]
fn classify_ambiguous() {
    let intake = TaskIntakeClassifier::classify("do something");
    assert!(intake.requires_clarification);
    assert!(!intake.clarification_questions.is_empty());
}

#[test]
fn risk_policy_defaults() {
    let policy = ExecutionRiskPolicy::default();
    assert!(policy.require_approval_on_high_risk_task);
    assert!(policy.require_approval_on_multi_file_edits);
    assert!(policy.require_approval_on_replay_mismatch);
}

#[test]
fn risk_policy_high_risk_trigger() {
    let policy = ExecutionRiskPolicy::default();
    let high_risk = StructuredTaskIntake::new("test")
        .with_class(TaskClass::MultiFileEdit)
        .with_risk(TaskRiskLevel::High);
    assert!(policy.requires_approval_for_intake(&high_risk));
}

#[test]
fn intake_is_edit_task() {
    let edit = StructuredTaskIntake::new("test").with_class(TaskClass::SingleFileEdit);
    assert!(edit.is_edit_task());
    let read = StructuredTaskIntake::new("test").with_class(TaskClass::ReadOnlyAnalysis);
    assert!(!read.is_edit_task());
}

#[test]
fn low_risk_read_only_intake_needs_no_approval() {
    let policy = ExecutionRiskPolicy::default();
    let intake = TaskIntakeClassifier::classify("explain how the code works");
    assert!(!policy.requires_approval_for_intake(&intake));
}

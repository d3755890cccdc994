use forge_runtime::types::{ChainStatus, TaskChain, ValidationDecision, ValidationReport};

#[test]
fn taskchain_state_hashing_integration() {
    let mut chain = TaskChain::new("test objective".to_string(), vec!["step 1".to_string(), "step 2".to_string()]);
    assert_eq!(chain.current_step, 0);
    assert!(matches!(chain.status, ChainStatus::Pending));
    chain.advance();
    assert_eq!(chain.current_step, 1);
    chain.advance();
    assert!(chain.is_complete());
}

#[test]
fn validation_report_affects_state_hash() {
    let accept_report = ValidationReport::accept("All good");
    let reject_report = ValidationReport::reject("Build failed");
    assert_eq!(accept_report.decision, ValidationDecision::Accept);
    assert!(matches!(reject_report.decision, ValidationDecision::Reject { .. }));
}

#[test]
fn validation_report_structure() {
    let accept = ValidationReport::accept("All stages passed");
    assert_eq!(accept.decision, ValidationDecision::Accept);
    assert!(!accept.requires_revert);
    let reject = ValidationReport::reject("Build failed");
    assert_eq!(reject.decision, ValidationDecision::Reject);
    assert!(reject.requires_revert);
}

use forge_runtime::system_invariants::{InvariantViolation, SystemInvariantChecker};
use forge_runtime::types::{ChainStatus, StepOutcome, TaskChain, ValidationReport};

#[test]
fn validation_pass_allows_step() {
    let report = ValidationReport::accept("All good");
    assert!(SystemInvariantChecker::no_step_without_validation(0, &report).is_ok());
}

#[test]
fn validation_rejection_blocks_step() {
    let report = ValidationReport::reject("Build failed");
    assert!(SystemInvariantChecker::no_step_without_validation(0, &report).is_err());
}

#[test]
fn no_mutation_on_validation_failure() {
    let outcome = StepOutcome::Resolved {
        summary: "Attempted".to_string(),
        files_modified: vec!["test.txt".to_string()],
    };
    let report = ValidationReport::reject("Test failed");
    let result = SystemInvariantChecker::no_mutation_on_failure(0, &outcome, &report);
    assert!(result.is_err(), "Should detect mutation on failure");
}

#[test]
fn mutation_allowed_on_success() {
    let outcome = StepOutcome::Resolved {
        summary: "Success".to_string(),
        files_modified: vec!["test.txt".to_string()],
    };
    let report = ValidationReport::accept("All passed");
    let result = SystemInvariantChecker::no_mutation_on_failure(0, &outcome, &report);
    assert!(result.is_ok(), "Mutation OK when validation passes");
}

#[test]
fn known_tools_accepted() {
    assert!(SystemInvariantChecker::only_registered_tools("read_file").is_ok());
}

#[test]
fn unknown_tools_rejected() {
    assert!(SystemInvariantChecker::only_registered_tools("unknown_tool_xyz").is_err());
}

#[test]
fn step_skipping_detected() {
    let chain = TaskChain::new("test".to_string(), vec!["step 1".to_string(), "step 2".to_string()]);
    assert!(SystemInvariantChecker::no_step_skipping(&chain, 0).is_ok());
    assert!(SystemInvariantChecker::no_step_skipping(&chain, 1).is_err());
}

#[test]
fn valid_statuses_pass() {
    for status in [ChainStatus::Pending, ChainStatus::Running, ChainStatus::Complete, ChainStatus::Failed] {
        assert!(SystemInvariantChecker::valid_chain_status(status).is_ok());
    }
}

#[test]
fn all_invariants_pass_fresh() {
    let chain = TaskChain::new("test".to_string(), vec!["step 1".to_string()]);
    assert!(SystemInvariantChecker::check_all(&chain).is_ok());
}

#[test]
fn invariant_violation_display() {
    let v1 = InvariantViolation::StepWithoutValidation { step_index: 5 };
    assert!(v1.message().contains("5"));
    let v2 = InvariantViolation::MutationOnFailure { step_index: 3 };
    assert!(v2.message().contains("3"));
    let v3 = InvariantViolation::UnregisteredTool { tool_name: "bad_tool".to_string() };
    assert!(v3.message().contains("bad_tool"));
}

#[test]
fn no_mutation_when_no_files() {
    let outcome = StepOutcome::Resolved { summary: "Failed".to_string(), files_modified: vec![] };
    let report = ValidationReport::reject("Build failed");
    assert!(SystemInvariantChecker::no_mutation_on_failure(0, &outcome, &report).is_ok());
}

#[test]
fn failed_outcome_no_mutation_check() {
    let outcome = StepOutcome::Failed { reason: "Error".to_string(), recoverable: false };
    let report = ValidationReport::reject("Validation failed");
    assert!(SystemInvariantChecker::no_mutation_on_failure(0, &outcome, &report).is_ok());
}

#[test]
fn cancelled_chain_status_is_compromised() {
    match SystemInvariantChecker::valid_chain_status(ChainStatus::Cancelled) {
        Err(InvariantViolation::StateIntegrityCompromised { reason }) => {
            assert_eq!(reason, "Invalid chain status: Cancelled")
        }
        _ => panic!("expected a violation"),
    }
}

#[test]
fn step_skipped_message_names_both_steps() {
    let v = InvariantViolation::StepSkipped { expected: 1, actual: 0 };
    assert_eq!(v.message(), "Step ordering violated: expected step 1 but got 0");
}

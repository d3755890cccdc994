use forge_runtime::planner_envelope::{
    PlannerEnvelopeClassifier, PlannerEnvelopeDecision, TerminalFailureClass,
};
use forge_runtime::protocol_validator::{ValidationDecision, ValidationFailureClass};
use forge_runtime::types::{CompletionReason, PlannerOutput, ToolArguments, ToolCall, ToolName};

fn test_tools() -> Vec<String> {
    vec!["read_file".to_string(), "write_file".to_string(), "apply_patch".to_string()]
}

#[test]
fn classify_valid_tool_call() {
    let output = PlannerOutput::ToolCall(ToolCall {
        name: ToolName::new("read_file").unwrap(),
        arguments: ToolArguments::new(),
    });
    let validation = ValidationDecision::Accept;
    let decision = PlannerEnvelopeClassifier::classify(&output, &validation, &test_tools(), 0, 3);
    match decision {
        PlannerEnvelopeDecision::AcceptedToolCall { tool } => {
            assert_eq!(tool.as_str(), "read_file");
        }
        _ => panic!("Expected AcceptedToolCall, got {:?}", decision),
    }
}

#[test]
fn classify_unknown_tool_is_terminal() {
    let output = PlannerOutput::ToolCall(ToolCall {
        name: ToolName::new("unknown_tool").unwrap(),
        arguments: ToolArguments::new(),
    });
    let validation = ValidationDecision::Accept;
    let decision = PlannerEnvelopeClassifier::classify(&output, &validation, &test_tools(), 0, 3);
    match decision {
        PlannerEnvelopeDecision::TerminalProtocolViolation { failure_class, reason } => {
            assert!(matches!(failure_class, ValidationFailureClass::UnknownTool));
            assert_eq!(reason, "Unknown tool: unknown_tool");
        }
        _ => panic!("Expected TerminalProtocolViolation for unknown tool"),
    }
}

#[test]
fn classify_repair_budget_exhausted_is_terminal() {
    let output = PlannerOutput::Completion { reason: CompletionReason::new("Done") };
    let validation = ValidationDecision::Accept;
    let decision = PlannerEnvelopeClassifier::classify(&output, &validation, &test_tools(), 3, 3);
    match decision {
        PlannerEnvelopeDecision::TerminalProtocolViolation { reason, .. } => {
            assert!(reason.contains("Repair budget exhausted"));
            assert_eq!(reason, "Repair budget exhausted: 3 attempts");
        }
        _ => panic!("Expected TerminalProtocolViolation for exhausted budget"),
    }
}

#[test]
fn classify_invalid_json_is_repairable() {
    let output = PlannerOutput::Failure { reason: "Invalid JSON".to_string(), recoverable: true };
    let validation = ValidationDecision::Reject {
        reason: "Invalid JSON".to_string(),
        tier: 1,
        raw_output: "not json".to_string(),
        failure_class: ValidationFailureClass::InvalidJson,
    };
    let decision = PlannerEnvelopeClassifier::classify(&output, &validation, &test_tools(), 0, 3);
    match decision {
        PlannerEnvelopeDecision::RepairableProtocolViolation { failure_class, .. } => {
            assert!(matches!(failure_class, ValidationFailureClass::InvalidJson));
        }
        _ => panic!("Expected RepairableProtocolViolation for invalid JSON"),
    }
}

#[test]
fn terminal_failure_class_descriptions() {
    assert_eq!(TerminalFailureClass::InvalidJson.description(), "Planner output is not valid JSON");
    assert_eq!(
        TerminalFailureClass::UnknownTool.description(),
        "Planner requested unknown tool not in registry"
    );
}

#[test]
fn terminal_failure_class_repairability() {
    assert!(TerminalFailureClass::InvalidJson.is_repairable());
    assert!(TerminalFailureClass::InvalidSchema.is_repairable());
    assert!(TerminalFailureClass::MissingArguments.is_repairable());
    assert!(!TerminalFailureClass::UnknownTool.is_repairable());
    assert!(!TerminalFailureClass::ToolAfterTerminal.is_repairable());
    assert!(!TerminalFailureClass::RepairBudgetExhausted.is_repairable());
}

#[test]
fn escalation_is_always_terminal() {
    let output = PlannerOutput::Completion { reason: CompletionReason::new("ok") };
    let validation = ValidationDecision::Escalate {
        reason: "needs human".to_string(),
        failure_class: ValidationFailureClass::InvalidJson,
    };
    let decision = PlannerEnvelopeClassifier::classify(&output, &validation, &test_tools(), 0, 3);
    assert!(matches!(decision, PlannerEnvelopeDecision::TerminalProtocolViolation { .. }));
}

#[test]
fn unrecoverable_failure_output_is_terminal() {
    let output = PlannerOutput::Failure { reason: "gave up".to_string(), recoverable: false };
    let decision = PlannerEnvelopeClassifier::classify(
        &output,
        &ValidationDecision::Accept,
        &test_tools(),
        0,
        3,
    );
    match decision {
        PlannerEnvelopeDecision::TerminalProtocolViolation { reason, .. } => assert_eq!(reason, "gave up"),
        _ => panic!("Expected terminal decision"),
    }
}

#[test]
fn terminal_failure_class_codes() {
    assert_eq!(TerminalFailureClass::RepairBudgetExhausted.code(), "repair_budget_exhausted");
    assert_eq!(TerminalFailureClass::InvalidCompletionEnvelope.code(), "invalid_completion_envelope");
}

use forge_runtime::planner_attack_fixtures::{
    all_attack_fixtures, oversized_payload_fixture, shell_command_injection_fixture,
    unknown_tool_fixture, AttackClassification, FuzzResults, PlannerFuzzHarness,
};
use forge_runtime::types::{PlannerOutput, ToolCall};

#[test]
fn all_fixtures_loadable() {
    let fixtures = all_attack_fixtures();
    assert!(!fixtures.is_empty(), "Should have attack fixtures");
    assert!(fixtures.len() >= 10, "Should have substantial fixture coverage");
}

#[test]
fn fixture_names_unique() {
    let fixtures = all_attack_fixtures();
    let names: std::collections::HashSet<_> = fixtures.iter().map(|f| f.name).collect();
    assert_eq!(names.len(), fixtures.len(), "All fixture names should be unique");
}

#[test]
fn fuzz_harness_generates_count() {
    let inputs = PlannerFuzzHarness::generate_malformed_inputs(100);
    assert_eq!(inputs.len(), 100);
}

#[test]
fn fuzz_results_tracking() {
    let mut results = FuzzResults::default();
    results.total_tested = 100;
    results.correctly_rejected = 50;
    results.correctly_repaired = 30;
    results.correctly_accepted = 20;
    assert!(results.all_safe());
    let accuracy = |r: &FuzzResults| {
        if r.total_tested == 0 {
            100.0
        } else {
            ((r.total_tested - r.misclassified) as f64 / r.total_tested as f64) * 100.0
        }
    };
    assert_eq!(accuracy(&results), 100.0);
    results.misclassified = 5;
    assert!(!results.all_safe());
    assert_eq!(accuracy(&results), 95.0);
}

#[test]
fn test_unknown_tool_fixture() {
    let fixture = unknown_tool_fixture();
    match &fixture.input {
        PlannerOutput::ToolCall(ToolCall { name, .. }) => {
            assert_eq!(name.as_str(), "malicious_tool");
        }
        _ => panic!("Expected ToolCall"),
    }
}

#[test]
fn test_oversized_payload_large() {
    let fixture = oversized_payload_fixture();
    match &fixture.input {
        PlannerOutput::ToolCall(ToolCall { arguments, .. }) => {
            if let Some(content) = arguments.get("content") {
                assert!(content.len() > 50_000, "Should have large content");
            }
        }
        _ => panic!("Expected ToolCall"),
    }
}

#[test]
fn test_shell_injection_dangerous() {
    let fixture = shell_command_injection_fixture();
    match &fixture.input {
        PlannerOutput::ToolCall(ToolCall { arguments, .. }) => {
            if let Some(cmd) = arguments.get("command") {
                assert!(cmd.contains("rm") || cmd.contains(";"), "Should have dangerous chars");
            }
        }
        _ => panic!("Expected ToolCall"),
    }
}

#[test]
fn fuzz_harness_runs_safely() {
    let tools = vec!["read_file".to_string(), "write_file".to_string()];
    let results = PlannerFuzzHarness::fuzz_test_all(&tools, 3);
    assert!(results.total_tested > 0);
}

#[test]
fn fuzz_tally_with_read_and_write_tools() {
    let tools = vec!["read_file".to_string(), "write_file".to_string()];
    let results = PlannerFuzzHarness::fuzz_test_all(&tools, 3);
    assert_eq!(results.total_tested, 20);
    assert_eq!(
        results.correctly_rejected
            + results.correctly_repaired
            + results.correctly_accepted
            + results.misclassified,
        20
    );
    // read_file calls expected to need repair are accepted by the envelope
    assert!(results.misclassified > 0);
}

#[test]
fn fuzz_with_zero_repair_budget_rejects_everything() {
    let tools = vec!["read_file".to_string()];
    let results = PlannerFuzzHarness::fuzz_test_all(&tools, 0);
    let expected_rejected = all_attack_fixtures()
        .iter()
        .filter(|f| f.expected_classification == AttackClassification::Rejected)
        .count();
    assert_eq!(results.correctly_rejected, expected_rejected);
    assert_eq!(results.correctly_accepted, 0);
    assert_eq!(results.correctly_repaired, 0);
}

#[test]
fn malformed_inputs_cycle_through_fixtures() {
    let inputs = PlannerFuzzHarness::generate_malformed_inputs(25);
    let fixtures = all_attack_fixtures();
    match (&inputs[21], &fixtures[1].input) {
        (PlannerOutput::Failure { reason: a, .. }, PlannerOutput::Failure { reason: b, .. }) => {
            assert_eq!(a, b)
        }
        _ => panic!("input 21 should repeat fixture 1"),
    }
}

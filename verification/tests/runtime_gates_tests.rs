use forge_runtime::collections::PathMap;
use forge_runtime::runtime_gates::{
    compute_overall_decision, contains_normalized_task_term, extract_task_marker,
    has_creation_verb, is_implementation_surface, is_vague_reason, normalize_task_text,
    references_observable_state, run_gates, written_artifact, CompletionGate,
    CompletionGateResult, CompletionReadiness, ComplexImplementationSpec, GateDecision,
    LiteralArtifactSpec, MutationProbe, ReadBeforeWriteGate, ReadBeforeWriteResult,
    RequiredSurface, SurfaceKind,
};
use forge_runtime::hashing::compute_content_hash;
use forge_runtime::protocol_validator::ValidationFailureClass;
use forge_runtime::state::AgentState;
use forge_runtime::types::{
    CompletionReason, ExecutionMode, FileRecord, ValidationReport, ValidationStage,
    ValidationStageResult,
};

fn literal_task(target: &str, artifact_class: &str) -> String {
    format!(
        "create a tiny docs note file: Create the requested literal artifact. Target artifact: {}; Artifact class: {}; Content requirements: generic note.",
        target, artifact_class
    )
}

fn state_with_written_paths(task: String, written_paths: &[&str]) -> AgentState {
    let mut state = AgentState::new(5, task, ExecutionMode::Edit);
    state.iteration = 1;
    for p in written_paths {
        state.files_written.insert(p.to_string());
    }
    state
}

fn state_with_written_file(task: String, written_path: &str) -> AgentState {
    state_with_written_paths(task, &[written_path])
}

fn no_contents() -> PathMap<String> {
    PathMap::new()
}

#[test]
fn completion_gate_rejects_wrong_literal_artifact_path() {
    let state = state_with_written_file(literal_task("docs/tiny-note.md", "docs note"), "src/implementation-location.md");
    let reason = CompletionReason::new("Created docs/tiny-note.md containing a tiny generic docs note");
    let result = CompletionGate::evaluate(&reason, &state, false, &[], &no_contents());
    match result {
        CompletionGateResult::Reject { reason, .. } => {
            assert!(reason.contains("docs/tiny-note.md"));
            assert!(reason.contains("src/implementation-location.md"));
        }
        CompletionGateResult::Accept => panic!("wrong artifact path must not complete"),
    }
}

#[test]
fn completion_gate_accepts_expected_literal_artifact_path() {
    let state = state_with_written_file(literal_task("docs/tiny-note.md", "docs note"), "docs/tiny-note.md");
    let reason = CompletionReason::new("Created docs/tiny-note.md containing a tiny generic docs note");
    let result = CompletionGate::evaluate(&reason, &state, false, &[], &no_contents());
    assert!(matches!(result, CompletionGateResult::Accept));
}

#[test]
fn completion_gate_requires_reason_to_cite_literal_target() {
    let state = state_with_written_file(literal_task("docs/tiny-note.md", "docs note"), "docs/tiny-note.md");
    let reason = CompletionReason::new("Created docs/note.md containing a generic docs note");
    let result = CompletionGate::evaluate(&reason, &state, false, &[], &no_contents());
    match result {
        CompletionGateResult::Reject { reason, .. } => assert!(reason.contains("must cite target artifact")),
        CompletionGateResult::Accept => panic!("completion reason must cite target artifact"),
    }
}

#[test]
fn completion_gate_rejects_docs_note_with_repo_analysis_content() {
    let path = "/tmp/forge-literal-tiny-note.md";
    let state = state_with_written_file(literal_task(path, "docs note"), path);
    let reason = CompletionReason::new(&format!("Created {} containing a tiny docs note", path));
    let mut contents = PathMap::new();
    contents.insert(
        path.to_string(),
        "# Implementation Location\n\nThis note references src/main.rs and repository structure.".to_string(),
    );
    match CompletionGate::evaluate(&reason, &state, false, &[], &contents) {
        CompletionGateResult::Reject { reason, .. } => {
            assert!(reason.contains("generic docs note"));
            assert!(reason.contains("repository implementation analysis"));
        }
        CompletionGateResult::Accept => panic!("docs note with implementation analysis must not complete"),
    }
}

#[test]
fn completion_gate_rejects_shallow_artifacts_for_complex_implementation_tasks() {
    for (task, shallow_path) in [
        ("build a Python CLI app", "README.md"),
        ("create an auth system", "docs/auth-system.md"),
        ("make a docs site", "docs/site-plan.md"),
        ("create a REST API", "docs/rest-api.md"),
        ("write a migration script for users table", "TODO.md"),
        ("build a small note-taking app with persistence", "docs/note-taking-app.md"),
    ] {
        let state = state_with_written_file(task.to_string(), shallow_path);
        let reason = CompletionReason::new(&format!("Created {} containing notes for the requested work", shallow_path));
        let result = CompletionGate::evaluate(&reason, &state, false, &[], &no_contents());
        match result {
            CompletionGateResult::Reject { reason, .. } => {
                assert!(reason.contains("shallow artifact"));
                assert!(reason.contains(shallow_path));
            }
            CompletionGateResult::Accept => panic!("complex task completed with shallow artifact: {}", task),
        }
    }
}

#[test]
fn completion_gate_reports_missing_cli_surface() {
    let state = state_with_written_file("build a Python CLI app".to_string(), "cli.py");
    let mut contents = PathMap::new();
    contents.insert("cli.py".to_string(), "def main():\n    print('hi')\n".to_string());
    let reason = CompletionReason::new("Created cli.py with a main function");
    match CompletionGate::evaluate(&reason, &state, false, &[], &contents) {
        CompletionGateResult::Reject { reason, failure_class } => {
            assert_eq!(failure_class, ValidationFailureClass::VagueCompletionReason);
            assert!(reason.contains("requires evidence for [runnable argument flow]"));
            assert!(reason.contains("only satisfy [entrypoint]"));
        }
        CompletionGateResult::Accept => panic!("argument flow is missing"),
    }
    let mut full = PathMap::new();
    full.insert("cli.py".to_string(), "import argparse\ndef main():\n    pass\n".to_string());
    assert!(matches!(CompletionGate::evaluate(&reason, &state, false, &[], &full), CompletionGateResult::Accept));
}

#[test]
fn completion_gate_basic_checks_in_order() {
    let fresh = AgentState::new(5, "fix it".to_string(), ExecutionMode::Edit);
    let reason = CompletionReason::new("Updated src/lib.rs line 3");
    match CompletionGate::evaluate(&reason, &fresh, false, &[], &no_contents()) {
        CompletionGateResult::Reject { failure_class, .. } => {
            assert_eq!(failure_class, ValidationFailureClass::CompletionWithoutEvidence)
        }
        _ => panic!("no evidence"),
    }
    let state = state_with_written_file("fix it".to_string(), "src/lib.rs");
    match CompletionGate::evaluate(&reason, &state, true, &[], &no_contents()) {
        CompletionGateResult::Reject { failure_class, .. } => {
            assert_eq!(failure_class, ValidationFailureClass::CompletionWithPendingValidation)
        }
        _ => panic!("pending"),
    }
    let errors = vec!["boom".to_string(), "bang".to_string()];
    match CompletionGate::evaluate(&reason, &state, false, &errors, &no_contents()) {
        CompletionGateResult::Reject { reason, failure_class } => {
            assert_eq!(failure_class, ValidationFailureClass::CompletionWithKnownErrors);
            assert_eq!(reason, "Completion rejected: 2 known error(s) remain unaddressed");
        }
        _ => panic!("errors"),
    }
    let vague = CompletionReason::new("All done!");
    match CompletionGate::evaluate(&vague, &state, false, &[], &no_contents()) {
        CompletionGateResult::Reject { reason, .. } => {
            assert_eq!(reason, "Completion rejected: reason 'All done!' is vague/non-state-based")
        }
        _ => panic!("vague"),
    }
    let blind = CompletionReason::new("I improved things a lot");
    match CompletionGate::evaluate(&blind, &state, false, &[], &no_contents()) {
        CompletionGateResult::Reject { reason, .. } => {
            assert_eq!(reason, "Completion rejected: reason does not reference observable state")
        }
        _ => panic!("unobservable"),
    }
    assert!(matches!(CompletionGate::evaluate(&reason, &state, false, &[], &no_contents()), CompletionGateResult::Accept));
}

#[test]
fn vague_reason_detection() {
    assert!(is_vague_reason("Done."));
    assert!(is_vague_reason("Looks good to me"));
    assert!(is_vague_reason("everything should be fine now"));
    assert!(!is_vague_reason("Updated src/lib.rs to handle empty input"));
    assert!(!is_vague_reason("undone work remains"));
}

#[test]
fn observable_state_references() {
    assert!(references_observable_state("edited notes.MD"));
    assert!(references_observable_state("changed (config.toml)"));
    assert!(!references_observable_state("made it better"));
}

#[test]
fn task_text_helpers() {
    assert_eq!(normalize_task_text("Build a CLI-tool, please!"), "build a cli-tool please");
    assert!(has_creation_verb("please build a site"));
    assert!(!has_creation_verb("explain the build"));
    assert!(contains_normalized_task_term("create a rest api now", "rest api"));
    assert!(!contains_normalized_task_term("create a restful api", "rest api"));
    assert!(!contains_normalized_task_term("anything", "  "));
}

#[test]
fn task_marker_extraction() {
    assert_eq!(
        extract_task_marker("x Target artifact:  docs/a.md ; y", "Target artifact:").as_deref(),
        Some("docs/a.md")
    );
    assert_eq!(extract_task_marker("Artifact class: todo file.\nmore", "Artifact class:").as_deref(), Some("todo file"));
    assert_eq!(extract_task_marker("Target artifact: ;", "Target artifact:"), None);
    assert_eq!(extract_task_marker("no marker here", "Target artifact:"), None);
}

#[test]
fn literal_spec_from_task() {
    let spec = LiteralArtifactSpec::from_task(&literal_task("TODO.md", "todo file")).unwrap();
    assert_eq!(spec.target_path, "TODO.md");
    assert_eq!(spec.artifact_class.as_deref(), Some("todo file"));
    assert!(LiteralArtifactSpec::from_task("build an app").is_none());
}

#[test]
fn complex_spec_kinds() {
    let spec = ComplexImplementationSpec::from_task("Create an OAuth login flow").unwrap();
    assert_eq!(spec.task_kind, "auth system");
    assert_eq!(spec.required_surfaces.len(), 2);
    assert!(ComplexImplementationSpec::from_task("explain the api").is_none());
    assert_eq!(ComplexImplementationSpec::from_task("write a tool").unwrap().task_kind, "application/tooling");
}

#[test]
fn implementation_surfaces() {
    assert!(is_implementation_surface("Dockerfile"));
    assert!(is_implementation_surface("src/notes.md"));
    assert!(is_implementation_surface("scripts/run.SH"));
    assert!(!is_implementation_surface("docs/plan.md"));
    assert!(!is_implementation_surface(".env"));
}

#[test]
fn surfaces_satisfied_by_artifacts() {
    let api = written_artifact("server/routes.py", Some("@APP.GET('/x')"));
    assert!(RequiredSurface::new("route surface", SurfaceKind::ApiRoute).is_satisfied_by(&api));
    let note = written_artifact("README.md", None);
    assert!(!RequiredSurface::new("route surface", SurfaceKind::ApiRoute).is_satisfied_by(&note));
    let migration = written_artifact("migrations/001.sql", Some("CREATE TABLE users (id int);"));
    assert!(RequiredSurface::new("migration definition", SurfaceKind::MigrationDefinition).is_satisfied_by(&migration));
}

fn validated(mut state: AgentState, stages: Vec<ValidationStageResult>) -> AgentState {
    let mut report = ValidationReport::accept("validation accepted");
    report.stage_results = stages;
    state.last_validation_report = Some(report);
    state
}

fn stage(stage: ValidationStage, message: &str) -> ValidationStageResult {
    ValidationStageResult { stage, passed: true, message: message.to_string(), execution_time_ms: 0 }
}

#[test]
fn readiness_rules() {
    let state = state_with_written_file("fix it".to_string(), "notes.txt");
    assert_eq!(
        CompletionGate::readiness(&state, true, &[], &no_contents()),
        CompletionReadiness::NotReady { reason: "validation is still pending".to_string() }
    );
    let errs = vec!["hash mismatch in apply_patch".to_string(), "compile error".to_string()];
    assert_eq!(
        CompletionGate::readiness(&state, false, &errs, &no_contents()),
        CompletionReadiness::NotReady { reason: "1 known error(s) remain".to_string() }
    );
    assert_eq!(
        CompletionGate::readiness(&state, false, &[], &no_contents()),
        CompletionReadiness::NotReady { reason: "no accepted validation report is available".to_string() }
    );
    let code = validated(state_with_written_paths("fix it".to_string(), &["b.rs", "a.py"]), vec![]);
    assert_eq!(
        CompletionGate::readiness(&code, false, &[], &no_contents()),
        CompletionReadiness::NotReady { reason: "code artifacts require passed syntax validation: a.py, b.rs".to_string() }
    );
    let task = "Fix the parser; complete only after cargo check and cargo test pass".to_string();
    let done = validated(
        state_with_written_paths(task, &["src/parser.rs"]),
        vec![stage(ValidationStage::Syntax, "cargo check passed"), stage(ValidationStage::Test, "cargo test passed")],
    );
    assert_eq!(
        CompletionGate::readiness(&done, false, &[], &no_contents()),
        CompletionReadiness::Ready { reason: "Validated requested changes in [src/parser.rs]; cargo check and cargo test passed".to_string() }
    );
}

#[test]
fn readiness_for_literal_artifact() {
    let state = validated(state_with_written_file(literal_task("notes/todo.md", "todo file"), "notes/todo.md"), vec![]);
    let mut contents = PathMap::new();
    contents.insert("notes/todo.md".to_string(), "- [ ] write tests".to_string());
    assert_eq!(
        CompletionGate::readiness(&state, false, &[], &contents),
        CompletionReadiness::Ready { reason: "Created notes/todo.md with the requested literal artifact content".to_string() }
    );
}

#[test]
fn read_before_write_gate_rules() {
    let mut state = AgentState::new(5, "edit".to_string(), ExecutionMode::Edit);
    assert!(matches!(ReadBeforeWriteGate::evaluate("new.rs", "new.rs", false, &state, None), ReadBeforeWriteResult::Allow));
    match ReadBeforeWriteGate::evaluate("a.rs", "/w/a.rs", true, &state, None) {
        ReadBeforeWriteResult::Block { reason, failure_class, required_action } => {
            assert_eq!(failure_class, ValidationFailureClass::WriteWithoutRead);
            assert_eq!(reason, "Read-before-write violation: a.rs was never read in this session");
            assert_eq!(required_action, "read_file with path 'a.rs'");
        }
        _ => panic!("unread file must be blocked"),
    }
    state.record_file_read(FileRecord::new("/w/a.rs", "fn a() {}", Some((1, 10)), 1));
    match ReadBeforeWriteGate::evaluate("a.rs", "/w/a.rs", true, &state, None) {
        ReadBeforeWriteResult::Block { reason, failure_class, .. } => {
            assert_eq!(failure_class, ValidationFailureClass::InsufficientReadScope);
            assert!(reason.contains("(lines Some((1, 10)))"));
        }
        _ => panic!("partial read must be blocked"),
    }
    state.record_file_read(FileRecord::new("/w/a.rs", "fn a() {}", None, 2));
    assert!(matches!(ReadBeforeWriteGate::evaluate("a.rs", "/w/a.rs", true, &state, Some("fn a() {}")), ReadBeforeWriteResult::Allow));
    match ReadBeforeWriteGate::evaluate("a.rs", "/w/a.rs", true, &state, Some("fn b() {}")) {
        ReadBeforeWriteResult::Block { reason, failure_class, .. } => {
            assert_eq!(failure_class, ValidationFailureClass::StaleRead);
            let expected = &compute_content_hash("fn a() {}")[..16];
            assert!(reason.contains(expected));
        }
        _ => panic!("stale read must be blocked"),
    }
}

#[test]
fn overall_decision_priorities() {
    let none: Option<CompletionGateResult> = None;
    assert_eq!(compute_overall_decision(&none, &[]), GateDecision::Proceed);
    let blocked = vec![
        ("a".to_string(), ReadBeforeWriteResult::Allow),
        ("b".to_string(), ReadBeforeWriteResult::Block {
            reason: "r".to_string(),
            failure_class: ValidationFailureClass::StaleRead,
            required_action: "act".to_string(),
        }),
    ];
    assert_eq!(
        compute_overall_decision(&none, &blocked),
        GateDecision::Block { reason: "r".to_string(), required_action: "act".to_string() }
    );
    let rejected = Some(CompletionGateResult::Reject {
        reason: "no".to_string(),
        failure_class: ValidationFailureClass::VagueCompletionReason,
    });
    assert_eq!(
        compute_overall_decision(&rejected, &blocked),
        GateDecision::Block { reason: "no".to_string(), required_action: "Continue with tool_call to make progress".to_string() }
    );
}

#[test]
fn run_gates_logs_each_gate() {
    let state = state_with_written_file("fix it".to_string(), "src/lib.rs");
    let reason = CompletionReason::new("Updated src/lib.rs line 3");
    let probes = vec![MutationProbe {
        path: "new.rs".to_string(),
        normalized_path: "new.rs".to_string(),
        is_existing: false,
        current_content: None,
    }];
    let report = run_gates(&state, true, Some(&reason), &probes, false, &[], &no_contents());
    assert_eq!(report.log_entries.len(), 2);
    assert_eq!(report.log_entries[0].gate_type, "CompletionGate");
    assert_eq!(report.overall_decision, GateDecision::Proceed);
}

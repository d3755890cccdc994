use forge_runtime::runtime_policies::{
    build_file_record_from_read, classify_tool_failure, corrective_prompt_for_tool_failure,
    extract_observed_read_content, format_mutation_paths, is_read_only_tool,
    match_installed_model, multi_file_recovery_hint, mutation_kind_name, normalize_tool_error,
    registered_tool_infos, registered_tool_names, should_defer_multi_file_validation,
    extract_mutation_path, small_file_fallback_precheck, small_file_fallback_result,
    small_file_fallback_rewrite, plan_revert, RevertStep, preflight, validate_tool_call,
};
use forge_runtime::state::AgentState;
use forge_runtime::types::ExecutionMode;
use forge_runtime::hashing::compute_content_hash;
use forge_runtime::types::{
    FileRecord, ForgeError, Mutation, MutationType, ToolArguments, ToolCall, ToolName,
};

fn patch_call(pairs: &[(&str, &str)]) -> ToolCall {
    let mut args = ToolArguments::new();
    for (k, v) in pairs {
        args.set(k, v);
    }
    ToolCall {
        name: ToolName::new("apply_patch").expect("tool name"),
        arguments: args,
    }
}

fn mutation(path: &str) -> Mutation {
    Mutation {
        path: path.to_string(),
        mutation_type: MutationType::Write,
        content_hash_before: None,
        content_hash_after: None,
    }
}

#[test]
fn runtime_registered_tools_match_validation_context() {
    let tool_names = registered_tool_names();
    assert_eq!(
        tool_names,
        vec![
            "write_file".to_string(),
            "read_file".to_string(),
            "apply_patch".to_string(),
            "list_dir".to_string(),
            "grep_search".to_string(),
            "dependency_graph".to_string(),
            "symbol_index".to_string(),
            "entrypoint_detector".to_string(),
            "lint_runner".to_string(),
            "test_runner".to_string(),
        ]
    );

    let state_tool_names: Vec<String> = registered_tool_infos()
        .iter()
        .map(|tool| tool.name.clone())
        .collect();

    assert_eq!(state_tool_names, tool_names);
    assert!(!tool_names.iter().any(|name| name == "execute_command"));
}

#[test]
fn tracked_partial_reads_store_observed_excerpt() {
    let content = (1..=10)
        .map(|n| format!("line {}", n))
        .collect::<Vec<_>>()
        .join("\n");
    let record = build_file_record_from_read("src/lib.rs", &content, 1, Some(3), Some(4));

    assert_eq!(record.lines_read, Some((3, 4)));
    assert_eq!(
        record.content.as_deref(),
        Some("line 3\nline 4\nline 5\nline 6")
    );
    assert_eq!(record.total_lines, 10);
}

#[test]
fn multi_file_recovery_hint_redirects_unresolved_module_to_lib_exposure() {
    let mutation = mutation("src/math.rs");

    let hint = multi_file_recovery_hint(
        "error[E0432]: unresolved import `bench_feature::math`",
        &[mutation],
    );

    assert!(hint.contains("src/lib.rs"));
    assert!(hint.contains("pub mod math"));
    assert!(hint.contains("instead of rewriting src/math.rs"));
}

#[test]
fn recovery_hints_cover_each_evidence_kind() {
    assert!(multi_file_recovery_hint("error[E0583]: file not found for module `x`", &[])
        .contains("create that module file"));
    assert!(multi_file_recovery_hint("type is private", &[mutation("src/lib.rs")])
        .contains("make the exposed struct and fields public"));
    assert!(multi_file_recovery_hint("Rust format failed", &[])
        .contains("rustfmt-compatible"));
    assert!(multi_file_recovery_hint("something else", &[])
        .contains("different companion surface"));
}

#[test]
fn tool_failures_are_classified() {
    assert_eq!(
        classify_tool_failure("read_file", "IO error: No such file or directory"),
        "missing_file_read"
    );
    assert_eq!(
        classify_tool_failure("test_runner", "error: test failed, to rerun"),
        "repeated_test_failure"
    );
    assert_eq!(
        classify_tool_failure("apply_patch", "Hash mismatch for src/lib.rs"),
        "stale_mutation_context"
    );
    assert_eq!(classify_tool_failure("list_dir", "denied"), "repeated_tool_failure");
    assert_eq!(
        classify_tool_failure("list_dir", "not found"),
        "repeated_tool_failure"
    );
}

#[test]
fn corrective_prompts_follow_the_class() {
    assert!(corrective_prompt_for_tool_failure(
        "read_file",
        "IO error: Failed to read 'src/main.rs': No such file or directory"
    )
    .contains("Stop reading the missing path"));
    assert!(corrective_prompt_for_tool_failure(
        "test_runner",
        "Execution failed: error: test failed, to rerun pass `--test bug_tests`"
    )
    .contains("Do not run test_runner again until after a code mutation"));
    assert!(corrective_prompt_for_tool_failure("write_file", "stale read")
        .contains("Re-read the target file"));
    assert!(corrective_prompt_for_tool_failure("write_file", "boom")
        .contains("Do not repeat the same failing tool call"));
}

#[test]
fn tool_errors_normalise_to_word_signatures() {
    assert_eq!(
        normalize_tool_error("IO Error: Failed to read '/Users/me/x.rs': gone"),
        "io_error_failed_to_read"
    );
    assert_eq!(
        normalize_tool_error("a b c d e f g h i j k l m n o p q r"),
        "a_b_c_d_e_f_g_h_i_j_k_l_m_n_o_p"
    );
    assert_eq!(normalize_tool_error("!!!"), "");
}

#[test]
fn mutation_kinds_and_paths_are_named() {
    assert_eq!(mutation_kind_name(MutationType::Write), "write");
    assert_eq!(mutation_kind_name(MutationType::Patch), "patch");
    assert_eq!(mutation_kind_name(MutationType::Delete), "delete");
    assert_eq!(mutation_kind_name(MutationType::Move), "move");
    assert_eq!(format_mutation_paths(&[]), "(none)");
    assert_eq!(
        format_mutation_paths(&[mutation("src/lib.rs"), mutation("src/math.rs")]),
        "src/lib.rs, src/math.rs"
    );
}

#[test]
fn multi_file_validation_deferral_rules() {
    let paths = vec!["/p/src/lib.rs".to_string(), "/p/src/math.rs".to_string()];
    assert!(should_defer_multi_file_validation(
        "Expose the math module",
        "error[E0432]: unresolved import `crate::math`",
        &paths,
        0
    ));
    assert!(!should_defer_multi_file_validation(
        "Expose the math module",
        "error[E0432]: unresolved import `crate::math`",
        &paths,
        2
    ));
    assert!(!should_defer_multi_file_validation(
        "Fix a typo",
        "error[E0432]: unresolved import `crate::math`",
        &paths,
        0
    ));
    assert!(!should_defer_multi_file_validation(
        "Expose the math module",
        "syntax error",
        &paths,
        0
    ));
    let many = vec![
        "a".to_string(),
        "b".to_string(),
        "c".to_string(),
        "d".to_string(),
    ];
    assert!(!should_defer_multi_file_validation(
        "multi-file change",
        "test failed",
        &many,
        1
    ));
    let repeated = vec![
        "a".to_string(),
        "a".to_string(),
        "b".to_string(),
        "c".to_string(),
    ];
    assert!(should_defer_multi_file_validation(
        "multi-file change",
        "test failed",
        &repeated,
        1
    ));
}

#[test]
fn installed_models_match_by_name_or_tag() {
    let installed = vec![
        "llama3:8b".to_string(),
        "Qwen2.5-Coder:14B".to_string(),
    ];
    assert_eq!(
        match_installed_model("qwen2.5-coder:14b", &installed),
        Some("Qwen2.5-Coder:14B".to_string())
    );
    assert_eq!(
        match_installed_model("llama3", &installed),
        Some("llama3:8b".to_string())
    );
    assert_eq!(match_installed_model("llama3:70b", &installed), None);
    assert_eq!(match_installed_model("mistral", &installed), None);
}

#[test]
fn read_only_tools_are_listed() {
    assert!(is_read_only_tool("read_file"));
    assert!(is_read_only_tool("test_runner"));
    assert!(!is_read_only_tool("write_file"));
    assert!(!is_read_only_tool("apply_patch"));
}

#[test]
fn observed_content_windows() {
    let content = "a\nb\nc\nd";
    assert_eq!(extract_observed_read_content(content, None, None), content);
    assert_eq!(extract_observed_read_content(content, Some(2), Some(2)), "b\nc");
    assert_eq!(extract_observed_read_content(content, Some(0), Some(1)), "a");
    assert_eq!(extract_observed_read_content(content, Some(9), None), "");
    assert_eq!(extract_observed_read_content(content, None, Some(500)), "a\nb\nc\nd");
    let long = (1..=200).map(|n| n.to_string()).collect::<Vec<_>>().join("\n");
    let window = extract_observed_read_content(&long, Some(1), None);
    assert_eq!(window.lines().count(), 120);
}

#[test]
fn deterministic_small_file_fallback_appends_when_patch_shape_is_malformed() {
    let original = "pub fn existing() -> &'static str {\n    \"ok\"\n}\n";
    let record = FileRecord::new("src/lib.rs", original, None, 1);
    let call = patch_call(&[
        ("file_path", "src/lib.rs"),
        ("old_text", ""),
        ("new_text", "pub fn double(n: i32) -> i32 {\n    n * 2\n}"),
        ("expected_hash", "sha256:bad"),
    ]);
    assert_eq!(extract_mutation_path(&call).unwrap(), "src/lib.rs");
    let (old_text, new_text) = small_file_fallback_precheck(&call, Some(&record))
        .expect("precheck")
        .expect("applies");
    let updated = small_file_fallback_rewrite(&record, &old_text, &new_text, original)
        .expect("fallback applied");
    assert!(updated.contains("pub fn double"));
    assert_eq!(
        updated,
        "pub fn existing() -> &'static str {\n    \"ok\"\n}\npub fn double(n: i32) -> i32 {\n    n * 2\n}\n"
    );
    let old_hash = compute_content_hash(original);
    let new_hash = compute_content_hash(&updated);
    let result = small_file_fallback_result("src/lib.rs", &old_hash, &new_hash);
    assert!(result.success);
    assert_eq!(result.mutations.len(), 1);
    assert_eq!(
        result.output.as_deref(),
        Some(format!("SMALL_FILE_FALLBACK: src/lib.rs {} -> {}", &old_hash[..16], &new_hash[..16]).as_str())
    );
}

#[test]
fn small_file_fallback_replaces_a_unique_occurrence_only() {
    let content = "a = 1\nb = 2\n";
    let record = FileRecord::new("x.py", content, None, 0);
    assert_eq!(
        small_file_fallback_rewrite(&record, "b = 2", "b = 3", content),
        Some("a = 1\nb = 3\n".to_string())
    );
    assert_eq!(small_file_fallback_rewrite(&record, "= ", "== ", content), None);
    assert_eq!(small_file_fallback_rewrite(&record, "", "a = 1", content), None);
    assert_eq!(small_file_fallback_rewrite(&record, "zzz", "y", content), None);
    let stale = "a = 1\n";
    assert_eq!(small_file_fallback_rewrite(&record, "a = 1", "a = 2", stale), None);
}

#[test]
fn small_file_fallback_precheck_rules() {
    let record = FileRecord::new("x.py", "x", None, 0);
    let partial = FileRecord::new("x.py", "x", Some((1, 1)), 0);
    let call = patch_call(&[("file_path", "x.py"), ("old_text", "x"), ("new_text", "y")]);
    assert!(small_file_fallback_precheck(&call, None).unwrap().is_none());
    assert!(small_file_fallback_precheck(&call, Some(&partial)).unwrap().is_none());
    let blank = patch_call(&[("file_path", "x.py"), ("old_text", "x"), ("new_text", "  ")]);
    assert!(small_file_fallback_precheck(&blank, Some(&record)).unwrap().is_none());
    let missing = patch_call(&[("file_path", "x.py"), ("new_text", "y")]);
    assert!(matches!(
        small_file_fallback_precheck(&missing, Some(&record)),
        Err(ForgeError::MissingArgument(m)) if m == "old_text"
    ));
    let mut write_args = ToolArguments::new();
    write_args.set("path", "a.txt");
    let write = ToolCall {
        name: ToolName::new("write_file").unwrap(),
        arguments: write_args,
    };
    assert!(small_file_fallback_precheck(&write, Some(&record)).unwrap().is_none());
    assert_eq!(extract_mutation_path(&write).unwrap(), "a.txt");
    let read = ToolCall {
        name: ToolName::new("read_file").unwrap(),
        arguments: ToolArguments::new(),
    };
    assert!(matches!(
        extract_mutation_path(&read),
        Err(ForgeError::MissingArgument(m)) if m == "path/file_path"
    ));
}

#[test]
fn revert_plan_restores_latest_first_and_stops_without_snapshot() {
    let write = mutation("new.txt");
    let patched = Mutation {
        path: "lib.rs".to_string(),
        mutation_type: MutationType::Patch,
        content_hash_before: None,
        content_hash_after: None,
    };
    let (steps, error) = plan_revert(
        &[patched, write],
        &[Some("old lib".to_string()), None],
    );
    assert!(error.is_none());
    assert_eq!(steps.len(), 2);
    assert!(matches!(&steps[0], RevertStep::Remove { path } if path == "new.txt"));
    assert!(matches!(&steps[1], RevertStep::Restore { path, content } if path == "lib.rs" && content == "old lib"));

    let deleted = Mutation {
        path: "gone.rs".to_string(),
        mutation_type: MutationType::Delete,
        content_hash_before: None,
        content_hash_after: None,
    };
    let (steps, error) = plan_revert(&[deleted, mutation("later.txt")], &[None, None]);
    assert_eq!(steps.len(), 1);
    match error {
        Some(ForgeError::IoError(m)) => assert_eq!(m, "No snapshot available to revert delete on gone.rs"),
        _ => panic!("expected an IO error"),
    }
}

#[test]
fn preflight_requires_running_state_within_budget() {
    let mut state = AgentState::new(1, "task".to_string(), ExecutionMode::Edit);
    assert_eq!(preflight(&state).unwrap(), false);
    state.start().unwrap();
    assert_eq!(preflight(&state).unwrap(), true);
    state.state_hash = "tampered".to_string();
    assert!(matches!(preflight(&state), Err(ForgeError::StateCorruption(_))));
}

#[test]
fn tool_calls_need_a_name() {
    let call = ToolCall {
        name: ToolName::new("read_file").unwrap(),
        arguments: ToolArguments::new(),
    };
    assert!(validate_tool_call(&call));
}

#[test]
fn registered_tools_carry_their_arguments() {
    let infos = registered_tool_infos();
    assert_eq!(infos[2].description, "Apply a patch to a file");
    assert_eq!(
        infos[2].required_args,
        vec!["file_path", "old_text", "new_text", "expected_hash"]
    );
    assert_eq!(infos[3].optional_args, vec!["recursive", "file_type", "include_hidden"]);
    assert!(infos[7].required_args.is_empty());
}

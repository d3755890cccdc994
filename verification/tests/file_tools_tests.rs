use forge_runtime::state::AgentState;
use forge_runtime::types::FileRecord;
use forge_runtime::hashing::compute_content_hash;
use forge_runtime::tool_registry::{Tool, ToolExecutor, ToolKind};
use forge_runtime::tools::file_tools::{
    has_traversal_components, ApplyPatchTool, PatchPlan, ReadFileTool, WriteFileTool,
};
use forge_runtime::types::{
    ExecutionContext, ExecutionMode, ForgeError, MutationType, SessionId, ToolArguments, ToolCall,
    ToolError, ToolName, ToolResult,
};

fn ctx(mode: ExecutionMode) -> ExecutionContext {
    ExecutionContext { session_id: SessionId::new(), iteration: 1, mode, working_dir: ".".to_string() }
}

fn make_args(pairs: &[(&str, &str)]) -> ToolArguments {
    let mut args = ToolArguments::new();
    for (k, v) in pairs {
        args.set(k, v);
    }
    args
}

fn runner(kind: ToolKind, _args: &ToolArguments, _ctx: &ExecutionContext) -> Result<ToolResult, ForgeError> {
    Ok(ToolResult::success(kind.name().as_str(), vec![]))
}

fn recording_runner(
    kind: ToolKind,
    _args: &ToolArguments,
    _ctx: &ExecutionContext,
) -> Result<(ToolResult, Option<FileRecord>), ForgeError> {
    Ok((ToolResult::success(kind.name().as_str(), vec![]), None))
}

fn refusal_text(plan: &PatchPlan) -> String {
    match plan {
        PatchPlan::Refused(r) => {
            assert!(!r.success);
            assert!(r.mutations.is_empty());
            match &r.error {
                Some(ToolError::ExecutionFailed(m)) => m.clone(),
                other => panic!("unexpected error {:?}", other),
            }
        }
        PatchPlan::Write { .. } => panic!("expected a refusal"),
    }
}

#[test]
fn test_apply_patch_success() {
    let content = "hello world\nfoo bar\n";
    let hash = compute_content_hash(content);
    let tool = ApplyPatchTool::new();
    let plan = tool.plan_patch("patch.txt", content, "world", "universe", &hash);
    match plan {
        PatchPlan::Write { new_content, occurrences, hash_before, hash_after } => {
            assert_eq!(new_content, "hello universe\nfoo bar\n");
            assert_eq!(occurrences, 1);
            assert_eq!(hash_before, hash);
            assert_eq!(hash_after, compute_content_hash("hello universe\nfoo bar\n"));
            let result = ApplyPatchTool::patch_result(
                "patch.txt", content, &new_content, occurrences, &hash_before, &hash_after,
            );
            assert!(result.success);
            assert_eq!(result.mutations.len(), 1);
            assert_eq!(result.mutations[0].mutation_type, MutationType::Patch);
            let expected = format!(
                "HARDENED_PATCH: patch.txt occurrences=1, lines_changed=1, {} -> {}",
                &hash_before[..16],
                &hash_after[..16]
            );
            assert_eq!(result.output.unwrap(), expected);
        }
        PatchPlan::Refused(r) => panic!("unexpected refusal {:?}", r),
    }
}

#[test]
fn test_apply_patch_hash_mismatch() {
    let tool = ApplyPatchTool::new();
    let plan = tool.plan_patch("patch.txt", "content v1", "content", "replaced", "sha256:wronghash123");
    let msg = refusal_text(&plan);
    assert!(msg.contains("Hash mismatch"));
    let actual = compute_content_hash("content v1");
    let expected = format!(
        "Hash mismatch for patch.txt: expected sha256:wronghash but on-disk hash is {}. File may have changed since read operation.",
        &actual[..16]
    );
    assert_eq!(msg, expected);
}

#[test]
fn test_apply_patch_cardinality_violation() {
    let content = "hello hello hello\n";
    let hash = compute_content_hash(content);
    let tool = ApplyPatchTool::new();
    let plan = tool.plan_patch("patch.txt", content, "hello", "hi", &hash);
    let msg = refusal_text(&plan);
    assert!(msg.contains("CARDINALITY_VIOLATION") || msg.contains("3 times"));
    assert_eq!(
        msg,
        "PATCH_CARDINALITY_VIOLATION: old_text appears 3 times in patch.txt (must be exactly 1 for unambiguous patch)"
    );
}

#[test]
fn test_apply_patch_text_not_found() {
    let content = "hello world\n";
    let hash = compute_content_hash(content);
    let tool = ApplyPatchTool::new();
    let plan = tool.plan_patch("patch.txt", content, "nonexistent", "replacement", &hash);
    let msg = refusal_text(&plan);
    assert!(msg.contains("not found"));
    assert_eq!(msg, "PATCH_CARDINALITY_VIOLATION: old_text not found in patch.txt");
}

#[test]
fn test_apply_patch_blocked_in_analysis_mode() {
    let tool = ApplyPatchTool::new();
    assert!(!tool.allowed_in_mode(ExecutionMode::Analysis));
    let executor = ToolExecutor::new();
    let call = ToolCall {
        name: ToolName::new("apply_patch").unwrap(),
        arguments: make_args(&[
            ("file_path", "file.txt"),
            ("old_text", "old"),
            ("new_text", "new"),
            ("expected_hash", "sha256:fake"),
        ]),
    };
    let result = executor.execute(&call, &ctx(ExecutionMode::Analysis), runner);
    assert!(result.is_err());
}

#[test]
fn test_apply_patch_missing_expected_hash() {
    let executor = ToolExecutor::new();
    let call = ToolCall {
        name: ToolName::new("apply_patch").unwrap(),
        arguments: make_args(&[("file_path", "patch.txt"), ("old_text", "content"), ("new_text", "new")]),
    };
    let result = executor.execute(&call, &ctx(ExecutionMode::Edit), runner);
    assert!(result.is_err());
    assert!(matches!(result, Err(ForgeError::MissingArgument(ref k)) if k == "expected_hash"));
}

#[test]
fn patch_result_counts_line_difference_plus_one() {
    let result = ApplyPatchTool::patch_result("a.txt", "one\n", "one\ntwo\nthree\n", 1, "h1", "h2");
    assert_eq!(result.output.unwrap(), "HARDENED_PATCH: a.txt occurrences=1, lines_changed=3, h1 -> h2");
    let m = &result.mutations[0];
    assert_eq!(m.path, "a.txt");
    assert_eq!(m.content_hash_before.as_deref(), Some("h1"));
    assert_eq!(m.content_hash_after.as_deref(), Some("h2"));
}

#[test]
fn plan_patch_hash_is_of_patched_text() {
    let content = "fn a() {}\n";
    let hash = compute_content_hash(content);
    let plan = ApplyPatchTool::new().plan_patch("lib.rs", content, "a()", "b()", &hash);
    match plan {
        PatchPlan::Write { new_content, hash_after, .. } => {
            assert_eq!(new_content, "fn b() {}\n");
            assert_ne!(hash_after, hash);
            assert_eq!(hash_after.len(), 64);
        }
        PatchPlan::Refused(r) => panic!("unexpected refusal {:?}", r),
    }
}

#[test]
fn traversal_components_are_detected() {
    assert!(has_traversal_components("../etc/passwd"));
    assert!(has_traversal_components("a/../b"));
    assert!(has_traversal_components(".."));
    assert!(!has_traversal_components("a/..b/c"));
    assert!(!has_traversal_components("src/main.rs"));
}

#[test]
fn read_file_extracts_requested_lines() {
    let content = "l1\nl2\nl3\nl4\n";
    let (text, count, full) = ReadFileTool::extract_lines(content, 2, Some(2));
    assert_eq!(text, "l2\nl3");
    assert_eq!(count, 2);
    assert!(!full);
    let (all, n, whole) = ReadFileTool::extract_lines(content, 1, None);
    assert_eq!(all, content);
    assert_eq!(n, 4);
    assert!(whole);
    let (tail, m, _) = ReadFileTool::extract_lines(content, 4, Some(10));
    assert_eq!(tail, "l4");
    assert_eq!(m, 1);
}

#[test]
fn offset_without_limit_reads_to_the_end() {
    assert_eq!(
        ReadFileTool::extract_lines("a\nb\nc", 2, None),
        ("b\nc".to_string(), 2, false)
    );
    assert_eq!(
        ReadFileTool::extract_lines("a\nb\nc", 9, None),
        (String::new(), 0, false)
    );
    let (result, text, record) = ReadFileTool::read_result("f.txt", "a\nb\nc\n", 3, None, 1);
    assert_eq!(text, "c");
    assert!(!record.is_full_read);
    assert_eq!(record.lines_read, Some((3, 1)));
    assert!(result.output.unwrap().starts_with("Read 1 lines from f.txt"));
}

#[test]
fn write_tools_are_refused_in_analysis_mode() {
    assert!(!WriteFileTool::new().allowed_in_mode(ExecutionMode::Analysis));
    assert!(WriteFileTool::new().allowed_in_mode(ExecutionMode::Edit));
    assert!(ReadFileTool::new().allowed_in_mode(ExecutionMode::Analysis));
}

#[test]
fn enforcement_requires_full_read_before_patch() {
    let executor = ToolExecutor::new();
    let call = ToolCall {
        name: ToolName::new("apply_patch").unwrap(),
        arguments: make_args(&[
            ("file_path", "a.txt"),
            ("old_text", "x"),
            ("new_text", "y"),
            ("expected_hash", "h"),
        ]),
    };
    let mut state = AgentState::new(5, "t".to_string(), ExecutionMode::Edit);
    let r = executor.execute_with_enforcement(&call, &ctx(ExecutionMode::Edit), &state, recording_runner);
    assert!(matches!(r, Err(ForgeError::InvalidArgument(ref m)) if m == "Read-before-write violation: file a.txt must be read before patching"));
    state.record_file_read(FileRecord::new("a.txt", "x\ny\n", Some((1, 1)), 1));
    let r = executor.execute_with_enforcement(&call, &ctx(ExecutionMode::Edit), &state, recording_runner);
    assert!(matches!(r, Err(ForgeError::InvalidArgument(ref m)) if m == "File a.txt was partially read - full read required for patching"));
    state.record_file_read(FileRecord::new("a.txt", "x\ny\n", None, 2));
    let (res, rec) = executor.execute_with_enforcement(&call, &ctx(ExecutionMode::Edit), &state, recording_runner).unwrap();
    assert!(res.success);
    assert!(rec.is_none());
    let read = ToolCall { name: ToolName::new("read_file").unwrap(), arguments: make_args(&[("path", "b.txt")]) };
    let (res, rec) = executor.execute_with_enforcement(&read, &ctx(ExecutionMode::Analysis), &state, recording_runner).unwrap();
    assert_eq!(res.output.as_deref(), Some("read_file"));
    assert!(rec.is_none());
}

#[test]
fn test_read_file_full() {
    let (result, text, record) = ReadFileTool::read_result("test.txt", "line1\nline2\nline3\n", 1, None, 1);
    assert!(result.success);
    assert!(result.output.as_ref().unwrap().contains("3 lines"));
    assert_eq!(result.mutations.len(), 0);
    assert_eq!(text, "line1\nline2\nline3\n");
    assert!(record.is_full_read);
    assert_eq!(record.total_lines, 3);
}

#[test]
fn test_read_file_with_offset_limit() {
    let (result, text, record) =
        ReadFileTool::read_result("test.txt", "line1\nline2\nline3\nline4\nline5\n", 2, Some(2), 1);
    assert!(result.success);
    let output = result.output.as_ref().unwrap();
    assert!(output.contains("2 lines"));
    assert_eq!(text, "line2\nline3");
    assert_eq!(record.lines_read, Some((2, 2)));
    assert!(!record.is_full_read);
}

#[test]
fn test_read_file_traversal_blocked() {
    assert!(has_traversal_components("../outside.txt"));
}

#[test]
fn test_read_file_computes_correct_hash() {
    let content = "test content for hashing";
    let expected_hash = compute_content_hash(content);
    let (result, _, record) = ReadFileTool::read_result("hash_test.txt", content, 1, None, 1);
    assert!(result.success);
    assert!(result.output.as_ref().unwrap().contains(&expected_hash[..16]));
    assert_eq!(record.content_hash, expected_hash);
    assert_eq!(
        result.output.unwrap(),
        format!("Read 1 lines from hash_test.txt (total 1 lines, hash: {})", &expected_hash[..16])
    );
}

#[test]
fn test_write_file_blocked_in_analysis_mode() {
    let executor = ToolExecutor::new();
    let call = ToolCall {
        name: ToolName::new("write_file").unwrap(),
        arguments: make_args(&[("path", "file.txt"), ("content", "test")]),
    };
    let result = executor.execute(&call, &ctx(ExecutionMode::Analysis), runner);
    assert!(result.is_err());
}

#[test]
fn test_write_file_mutation_has_hashes() {
    let result = WriteFileTool::write_result("new.txt", "new content", None);
    assert!(result.success);
    let mutation = &result.mutations[0];
    assert_eq!(mutation.mutation_type, MutationType::Write);
    assert!(mutation.content_hash_before.is_none());
    assert!(mutation.content_hash_after.is_some());
    let updated = WriteFileTool::write_result("e.txt", "new content", Some("old content"));
    assert_eq!(updated.mutations[0].content_hash_before, Some(compute_content_hash("old content")));
    let h = compute_content_hash("new content");
    assert_eq!(updated.output.unwrap(), format!("Wrote 11 bytes to e.txt (hash: {})", &h[..16]));
}

#[test]
fn patch_read_check_refuses_an_unread_file() {
    assert!(ApplyPatchTool::check_read_before_write("a.rs", true).is_ok());
    match ApplyPatchTool::check_read_before_write("a.rs", false) {
        Err(ForgeError::InvalidArgument(m)) => assert_eq!(
            m,
            "Read-before-write violation: file 'a.rs' must be read before patching. Use read_file first."
        ),
        other => panic!("unexpected {:?}", other),
    }
}

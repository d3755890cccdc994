use forge_runtime::state::AgentState;
use forge_runtime::tool_registry::{ToolExecutor, ToolKind};
use forge_runtime::tools::file_tools::ReadFileTool;
use forge_runtime::types::{
    ExecutionContext, ExecutionMode, FileRecord, ForgeError, SessionId, ToolArguments, ToolCall,
    ToolName, ToolResult,
};

fn context() -> ExecutionContext {
    ExecutionContext {
        session_id: SessionId::new(),
        iteration: 1,
        mode: ExecutionMode::Edit,
        working_dir: "/work".to_string(),
    }
}

fn call(name: &str, pairs: &[(&str, &str)]) -> ToolCall {
    let mut args = ToolArguments::new();
    for (k, v) in pairs {
        args.set(k, v);
    }
    ToolCall { name: ToolName::new(name).unwrap(), arguments: args }
}

fn run_read(
    _k: ToolKind,
    args: &ToolArguments,
    ctx: &ExecutionContext,
) -> Result<(ToolResult, Option<FileRecord>), ForgeError> {
    let path = args.get("path").unwrap();
    let (res, _text, rec) = ReadFileTool::read_result(path, "a\nb\n", 1, None, ctx.iteration);
    Ok((res, Some(rec)))
}

#[test]
fn read_file_through_enforcement_returns_its_record() {
    let executor = ToolExecutor::new();
    let state = AgentState::new(3, "t".to_string(), ExecutionMode::Edit);
    let (res, rec) = executor
        .execute_with_enforcement(&call("read_file", &[("path", "src/lib.rs")]), &context(), &state, run_read)
        .expect("read");
    assert!(res.success);
    let rec = rec.expect("record of the read");
    assert_eq!(rec.path, "src/lib.rs");
    assert!(rec.is_full_read);
    assert_eq!(rec.total_lines, 2);
}

#[test]
fn patch_without_prior_read_is_refused() {
    let executor = ToolExecutor::new();
    let state = AgentState::new(3, "t".to_string(), ExecutionMode::Edit);
    let patch = call(
        "apply_patch",
        &[("file_path", "a.rs"), ("old_text", "x"), ("new_text", "y"), ("expected_hash", "h")],
    );
    let r = executor.execute_with_enforcement(&patch, &context(), &state, run_read);
    match r {
        Err(ForgeError::InvalidArgument(m)) => {
            assert_eq!(m, "Read-before-write violation: file a.rs must be read before patching")
        }
        _ => panic!("expected refusal"),
    }
}

use forge_runtime::tool_registry::{Tool, ToolExecutor, ToolKind, ToolRegistry};
use forge_runtime::tools::code_intelligence_tools::{
    DependencyGraphTool, EntryPointDetectorTool, SymbolIndexTool,
};
use forge_runtime::tools::search_tools::{GrepSearchTool, ListDirTool};
use forge_runtime::types::{
    ExecutionContext, ExecutionMode, ForgeError, SessionId, ToolArguments, ToolCall, ToolError,
    ToolName, ToolResult,
};

fn ctx(mode: ExecutionMode) -> ExecutionContext {
    ExecutionContext { session_id: SessionId::new(), iteration: 1, mode, working_dir: ".".to_string() }
}

/// Stands in for the tool work: reports which tool it was handed.
fn runner(kind: ToolKind, _args: &ToolArguments, _ctx: &ExecutionContext) -> Result<ToolResult, ForgeError> {
    Ok(ToolResult::success(kind.name().as_str(), vec![]))
}

#[test]
fn registry_contains_code_intelligence_tools() {
    let registry = ToolRegistry::new();
    let tools = registry.list_tools();
    let tool_names: Vec<_> = tools.iter().map(|t| t.as_str().to_string()).collect();
    assert!(tool_names.contains(&"dependency_graph".to_string()), "Should have dependency_graph tool");
    assert!(tool_names.contains(&"symbol_index".to_string()), "Should have symbol_index tool");
    assert!(tool_names.contains(&"entrypoint_detector".to_string()), "Should have entrypoint_detector tool");
    assert!(tool_names.contains(&"lint_runner".to_string()), "Should have lint_runner tool");
    assert!(tool_names.contains(&"test_runner".to_string()), "Should have test_runner tool");
}

#[test]
fn registry_returns_canonical_names() {
    let registry = ToolRegistry::new();
    let tools = vec![
        "read_file", "write_file", "apply_patch", "list_dir", "grep_search", "dependency_graph",
        "symbol_index", "entrypoint_detector", "lint_runner", "test_runner", "execute_command",
        "browser_preview",
    ];
    for tool_name in &tools {
        let name = ToolName::new(tool_name)
            .expect(&format!("Should parse {} as valid tool name", tool_name));
        let result = registry.resolve(&name);
        assert!(result.is_ok(), "Registry should contain tool: {}", tool_name);
    }
}

#[test]
fn analysis_mode_only_allows_read_tools() {
    let registry = ToolRegistry::new();
    let read_tools = vec!["read_file", "list_dir", "grep_search", "dependency_graph", "symbol_index", "entrypoint_detector"];
    for tool_name in &read_tools {
        let name = ToolName::new(tool_name).unwrap();
        let tool = registry.resolve(&name).expect("Tool should exist");
        assert!(tool.allowed_in_mode(ExecutionMode::Analysis), "{} should be allowed in Analysis mode", tool_name);
    }
    let write_tools = vec!["write_file", "apply_patch", "execute_command"];
    for tool_name in &write_tools {
        let name = ToolName::new(tool_name).unwrap();
        let tool = registry.resolve(&name).expect("Tool should exist");
        assert!(!tool.allowed_in_mode(ExecutionMode::Analysis), "{} should NOT be allowed in Analysis mode", tool_name);
    }
}

#[test]
fn edit_mode_allows_all_tools() {
    let registry = ToolRegistry::new();
    let all_tools = vec![
        "read_file", "write_file", "apply_patch", "list_dir", "grep_search", "dependency_graph",
        "symbol_index", "entrypoint_detector", "lint_runner", "test_runner", "execute_command",
        "browser_preview",
    ];
    for tool_name in &all_tools {
        let name = ToolName::new(tool_name).unwrap();
        let tool = registry.resolve(&name).expect("Tool should exist");
        assert!(tool.allowed_in_mode(ExecutionMode::Edit), "{} should be allowed in Edit mode", tool_name);
    }
}

#[test]
fn tool_executor_rejects_disallowed_tool() {
    let executor = ToolExecutor::new();
    let call = ToolCall { name: ToolName::new("write_file").unwrap(), arguments: ToolArguments::new() };
    let result = executor.execute(&call, &ctx(ExecutionMode::Analysis), runner);
    assert!(result.is_err(), "Should reject write_file in Analysis mode");
    assert!(matches!(result, Err(ForgeError::ToolNotAllowed { .. })));
}

#[test]
fn tool_executor_rejects_unknown_tool() {
    let executor = ToolExecutor::new();
    let call = ToolCall { name: ToolName::new("nonexistent_tool").unwrap(), arguments: ToolArguments::new() };
    let result = executor.execute(&call, &ctx(ExecutionMode::Edit), runner);
    assert!(result.is_err(), "Should reject unknown tool");
    assert!(matches!(result, Err(ForgeError::UnknownTool(_))));
}

#[test]
fn tool_execution_missing_args_fails() {
    let executor = ToolExecutor::new();
    let call = ToolCall { name: ToolName::new("read_file").unwrap(), arguments: ToolArguments::new() };
    let result = executor.execute(&call, &ctx(ExecutionMode::Edit), runner);
    assert!(result.is_err() || !result.unwrap().success, "Should fail without required args");
}

#[test]
fn tool_invalid_result_shape_handled() {
    let result = ToolResult {
        success: false,
        output: None,
        error: Some(ToolError::ExecutionFailed("Invalid result".to_string())),
        mutations: vec![],
        execution_time_ms: 0,
    };
    assert!(!result.success);
    assert!(result.error.is_some());
}

#[test]
fn dependency_graph_respects_depth_limits() {
    let tool = DependencyGraphTool::new();
    assert_eq!(tool.name().as_str(), "dependency_graph");
}

#[test]
fn symbol_index_respects_result_caps() {
    let tool = SymbolIndexTool::new();
    assert_eq!(tool.name().as_str(), "symbol_index");
}

#[test]
fn entrypoint_detector_respects_enumeration_caps() {
    let tool = EntryPointDetectorTool::new();
    assert_eq!(tool.name().as_str(), "entrypoint_detector");
}

#[test]
fn list_dir_respects_depth_limits() {
    let tool = ListDirTool::new();
    assert_eq!(tool.name().as_str(), "list_dir");
}

#[test]
fn grep_search_respects_result_caps() {
    let tool = GrepSearchTool::new();
    assert_eq!(tool.name().as_str(), "grep_search");
}

#[test]
fn registry_planner_visible_surface_intentional() {
    let registry = ToolRegistry::new();
    let tools = registry.list_tools();
    for expected in [
        "read_file", "write_file", "apply_patch", "list_dir", "grep_search", "dependency_graph",
        "symbol_index", "entrypoint_detector", "lint_runner", "test_runner", "execute_command",
        "browser_preview",
    ] {
        assert!(tools.iter().any(|t| t.as_str() == expected), "missing {}", expected);
    }
}

#[test]
fn code_intelligence_tools_handle_invalid_args() {
    let executor = ToolExecutor::new();
    let context = ctx(ExecutionMode::Edit);
    let call = ToolCall { name: ToolName::new("dependency_graph").unwrap(), arguments: ToolArguments::new() };
    let _result = executor.execute(&call, &context, runner);
    let call = ToolCall { name: ToolName::new("symbol_index").unwrap(), arguments: ToolArguments::new() };
    let _result = executor.execute(&call, &context, runner);
    assert!(true);
}

#[test]
fn executor_reports_first_missing_argument() {
    let executor = ToolExecutor::new();
    let mut args = ToolArguments::new();
    args.set("file_path", "a.rs");
    args.set("old_text", "x");
    let call = ToolCall { name: ToolName::new("apply_patch").unwrap(), arguments: args };
    match executor.execute(&call, &ctx(ExecutionMode::Edit), runner) {
        Err(ForgeError::MissingArgument(k)) => assert_eq!(k, "new_text"),
        other => panic!("expected MissingArgument, got {:?}", other.map(|r| r.success)),
    }
}

#[test]
fn executor_hands_authorised_call_to_runner() {
    let executor = ToolExecutor::new();
    let mut args = ToolArguments::new();
    args.set("path", "src/lib.rs");
    let call = ToolCall { name: ToolName::new("read_file").unwrap(), arguments: args };
    let result = executor.execute(&call, &ctx(ExecutionMode::Analysis), runner).unwrap();
    assert!(result.success);
    assert_eq!(result.output.as_deref(), Some("read_file"));
}

#[test]
fn registry_lists_tools_in_registration_order() {
    let names: Vec<String> = ToolRegistry::new().list_tools().iter().map(|t| t.as_str().to_string()).collect();
    assert_eq!(names.len(), 12);
    assert_eq!(names[0], "read_file");
    assert_eq!(names[11], "browser_preview");
    assert!(!ToolRegistry::new().has_tool(&ToolName::new("batch_read_files").unwrap()));
}

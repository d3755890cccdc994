use forge_runtime::runtime_gates::normalize_path;
use forge_runtime::tools::batch_tools::{file_matches_pattern, is_hidden};
use forge_runtime::tools::code_intelligence_tools::{
    plan_runner, runner_result, DependencyGraphTool, DependencyRef, RunnerKind, RunnerPlan,
    SymbolIndexTool,
};
use forge_runtime::text::trim_text;
use forge_runtime::types::ToolError;

#[test]
fn runner_result_combines_streams() {
    let ok = runner_result(true, "out".to_string(), "  \n".to_string(), 7);
    assert!(ok.success);
    assert_eq!(ok.output.as_deref(), Some("out"));
    assert!(ok.error.is_none());
    assert_eq!(ok.execution_time_ms, 7);
    let failed = runner_result(false, "".to_string(), "boom".to_string(), 1);
    assert_eq!(failed.output.as_deref(), Some("boom"));
    assert!(matches!(failed.error, Some(ToolError::ExecutionFailed(ref m)) if m == "boom"));
    let both = runner_result(false, "a".to_string(), "b".to_string(), 1);
    assert_eq!(both.output.as_deref(), Some("a\nb"));
}

#[test]
fn runner_plan_prefers_cargo_then_npm() {
    match plan_runner(RunnerKind::Lint, true, true) {
        RunnerPlan::Run { program, args } => {
            assert_eq!(program, "cargo");
            assert_eq!(args, vec!["clippy", "--all-targets", "--all-features", "--", "-D", "warnings"]);
        }
        _ => panic!("expected a command"),
    }
    match plan_runner(RunnerKind::Test, false, true) {
        RunnerPlan::Run { program, args } => {
            assert_eq!(program, "npm");
            assert_eq!(args, vec!["test", "--if-present"]);
        }
        _ => panic!("expected a command"),
    }
    match plan_runner(RunnerKind::Test, false, false) {
        RunnerPlan::NothingToRun(r) => {
            assert!(r.success);
            assert_eq!(r.output.as_deref(), Some("No supported test policy detected"));
        }
        _ => panic!("expected nothing to run"),
    }
}

#[test]
fn dependency_refs_of_rust_and_scripts() {
    let rust = "mod parser;\npub mod lexer;\nuse crate::ast::Node;\nuse std::fmt;\nuse crate::crate::x;\n";
    let refs = DependencyGraphTool::dependency_refs("rs", rust).unwrap();
    let shown: Vec<String> = refs
        .iter()
        .map(|r| match r {
            DependencyRef::RustModule(m) => format!("mod:{}", m),
            DependencyRef::CrateModule(m) => format!("crate:{}", m),
            DependencyRef::ScriptImport(m) => format!("import:{}", m),
        })
        .collect();
    assert_eq!(shown, vec!["mod:parser", "mod:lexer", "crate:ast", "crate:x"]);
    let js = "import a from './a';\nconst b = require(\"../b\");\nimport c from 'lodash';\n";
    let refs = DependencyGraphTool::dependency_refs("ts", js).unwrap();
    let shown: Vec<String> = refs
        .iter()
        .map(|r| match r {
            DependencyRef::ScriptImport(m) => m.clone(),
            _ => String::new(),
        })
        .collect();
    assert_eq!(shown, vec!["./a", "../b"]);
    assert!(DependencyGraphTool::dependency_refs("md", "mod x;").unwrap().is_empty());
}

#[test]
fn symbol_index_finds_definitions() {
    let content = "fn alpha() {}\n  struct Beta;\nlet x = 1;\n// alpha mention\n";
    let mut budget = 10;
    let hits = SymbolIndexTool::search_content(content, "alpha", &mut budget).unwrap();
    assert_eq!(hits.len(), 1);
    assert_eq!(hits[0].line, 1);
    assert_eq!(hits[0].kind, "fn");
    assert_eq!(hits[0].symbol, "alpha");
    assert_eq!(hits[0].preview, "fn alpha() {}");
    assert_eq!(budget, 9);
    let mut small = 1;
    let hits = SymbolIndexTool::search_content(content, "", &mut small).unwrap();
    assert_eq!(hits.len(), 1);
    assert_eq!(small, 0);
    let mut b = 5;
    let hits = SymbolIndexTool::search_content(content, "Beta", &mut b).unwrap();
    assert_eq!(hits[0].preview, "struct Beta;");
    assert_eq!(hits[0].line, 2);
}

#[test]
fn lexical_path_normalisation() {
    assert_eq!(normalize_path("a/./b/../c", None), "a/c");
    assert_eq!(normalize_path("/x/../../y/", None), "/y");
    assert_eq!(normalize_path("..", None), ".");
    assert_eq!(normalize_path("", None), ".");
    assert_eq!(normalize_path("/", None), "/");
    assert_eq!(normalize_path("rel", Some("/abs/rel".to_string())), "/abs/rel");
}

#[test]
fn batch_pattern_selection() {
    assert!(file_matches_pattern("src/a.rs", "*"));
    assert!(file_matches_pattern("src/a.rs", "*.rs"));
    assert!(!file_matches_pattern("src/a.rs", "*.py"));
    assert!(file_matches_pattern("notes.md", "*.*.md"));
    assert!(is_hidden(".git"));
    assert!(!is_hidden("src"));
}

#[test]
fn trimming_text() {
    assert_eq!(trim_text("  a b \n"), "a b");
    assert_eq!(trim_text("   "), "");
    assert_eq!(trim_text("x"), "x");
}

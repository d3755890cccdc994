use forge_runtime::tools::search_tools::{
    ListedEntry,
    EntryType, GrepMatch, GrepSearchTool, ListDirTool,
};
use forge_runtime::types::ToolArguments;

fn make_args(pairs: &[(&str, &str)]) -> ToolArguments {
    let mut args = ToolArguments::new();
    for (k, v) in pairs {
        args.set(k, v);
    }
    args
}

fn search(content: &str, query: &str, case_sensitive: bool, ctx: usize, regex: bool, max: usize) -> (Option<Vec<GrepMatch>>, usize) {
    let mut budget = max;
    let r = GrepSearchTool::search_content("test.txt", content, query, case_sensitive, ctx, regex, &mut budget);
    (r, budget)
}

#[test]
fn grep_finds_the_matching_line_with_context() {
    let (r, left) = search("line one\nline two\nline three\n", "two", true, 2, true, 50);
    let ms = r.unwrap();
    assert_eq!(ms.len(), 1);
    assert_eq!(left, 49);
    assert_eq!(ms[0].line_number, 2);
    assert_eq!(ms[0].content, "line two");
    assert_eq!(ms[0].context_before, vec!["line one".to_string()]);
    assert_eq!(ms[0].context_after, vec!["line three".to_string()]);
    let report = GrepSearchTool::report("two", ".", &ms, 2);
    assert!(report.contains("line two"));
    assert!(report.contains("test.txt:2"));
    assert_eq!(
        report,
        "Found 1 match(es) for 'two' in .:\n\ntest.txt:2:\n  1 | line one\n> 2 | line two\n  3 | line three"
    );
}

#[test]
fn grep_case_insensitive_regex_and_literal() {
    let (r, _) = search("Hello World\n", "hello", false, 2, true, 50);
    assert_eq!(r.unwrap()[0].content, "Hello World");
    let (r2, _) = search("Hello World\n", "hello", false, 2, false, 50);
    assert_eq!(r2.unwrap().len(), 1);
    let (r3, _) = search("Hello World\n", "hello", true, 2, false, 50);
    assert!(r3.unwrap().is_empty());
}

#[test]
fn grep_stops_at_the_result_budget() {
    let (r, left) = search("a\na\na\na\n", "a", true, 0, false, 3);
    let ms = r.unwrap();
    assert_eq!(ms.len(), 3);
    assert_eq!(left, 0);
    assert_eq!(ms[2].line_number, 3);
    assert!(ms[0].context_before.is_empty());
}

#[test]
fn grep_invalid_regex_skips_the_file() {
    let (r, left) = search("abc\n", "(", true, 2, true, 5);
    assert!(r.is_none());
    assert_eq!(left, 5);
}

#[test]
fn grep_report_without_matches() {
    let ms: Vec<GrepMatch> = vec![];
    assert_eq!(GrepSearchTool::report("nonexistent", "/w", &ms, 2), "No matches found for 'nonexistent' in /w");
}

#[test]
fn grep_options_defaults_and_caps() {
    let o = GrepSearchTool::options(&ToolArguments::new());
    assert!(o.case_sensitive && o.use_regex);
    assert_eq!(o.max_results, 50);
    assert_eq!(o.context_lines, 2);
    let o2 = GrepSearchTool::options(&make_args(&[
        ("max_results", "1000"),
        ("context_lines", "9"),
        ("case_sensitive", "false"),
        ("use_regex", "maybe"),
    ]));
    assert_eq!(o2.max_results, 100);
    assert_eq!(o2.context_lines, 5);
    assert!(!o2.case_sensitive);
    assert!(o2.use_regex);
}

#[test]
fn grep_file_pattern_glob() {
    assert!(GrepSearchTool::matches_file_pattern("test.rs", Some("*.rs")));
    assert!(!GrepSearchTool::matches_file_pattern("test.txt", Some("*.rs")));
    assert!(GrepSearchTool::matches_file_pattern("a.txt", None));
    assert!(GrepSearchTool::matches_file_pattern("ab.rs", Some("a?.rs")));
}

#[test]
fn list_dir_options_and_filters() {
    let o = ListDirTool::options(&ToolArguments::new());
    assert!(!o.recursive && !o.include_hidden);
    assert_eq!(o.max_depth, 3);
    assert_eq!(o.max_entries, 100);
    let o2 = ListDirTool::options(&make_args(&[("max_depth", "10"), ("max_entries", "9000"), ("recursive", "true")]));
    assert_eq!(o2.max_depth, 5);
    assert_eq!(o2.max_entries, 500);
    assert!(o2.recursive);
    assert!(!ListDirTool::should_include(".hidden", EntryType::File, false, None));
    assert!(ListDirTool::should_include(".hidden", EntryType::File, true, None));
    assert!(ListDirTool::should_include("src", EntryType::Directory, false, Some("dir")));
    assert!(!ListDirTool::should_include("a.txt", EntryType::File, false, Some("directory")));
    assert_eq!(EntryType::Symlink.as_str(), "link");
}

#[test]
fn test_list_dir_traversal_blocked() {
    assert!(forge_runtime::tools::file_tools::has_traversal_components("../outside"));
}

#[test]
fn list_dir_listing_text() {
    assert_eq!(
        ListDirTool::listing("/w/empty", &vec![]),
        "Directory /w/empty is empty (or all entries filtered)"
    );
    let entries = vec![
        ListedEntry { entry_type: EntryType::Directory, relative: "src".to_string(), size_text: String::new() },
        ListedEntry { entry_type: EntryType::File, relative: "a.txt".to_string(), size_text: "12 B".to_string() },
    ];
    assert_eq!(
        ListDirTool::listing("/w", &entries),
        "2 entries in /w:\n\u{1F4C1} src \n\u{1F4C4} a.txt  (12 B"
    );
}

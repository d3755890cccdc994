use forge_runtime::tools::batch_tools::{
    batch_read_report, batch_replace_result, batch_write_result, cap_output, check_batch_size,
    sync_directory_result, FileOutcome, MAX_BATCH_OUTPUT_BYTES,
};
use forge_runtime::types::{ForgeError, MutationType, ToolError};

#[test]
fn batch_size_is_capped() {
    assert!(check_batch_size(1000).is_ok());
    assert!(matches!(
        check_batch_size(1001),
        Err(ForgeError::InvalidArgument(m)) if m == "Too many files: 1001 (max: 1000)"
    ));
}

#[test]
fn batch_write_reports_bytes_and_failures() {
    let outcomes = vec![
        FileOutcome::Done { path: "/w/a.txt".to_string(), amount: 5, mutated: true },
        FileOutcome::Failed { path: "../x".to_string(), message: "Path outside working directory".to_string() },
    ];
    let r = batch_write_result(&outcomes);
    assert!(!r.success);
    assert_eq!(
        r.output.as_deref(),
        Some("Batch write complete: 1/2 files, 5 bytes written\n\nERRORS:\n  ../x: Path outside working directory\n")
    );
    assert!(matches!(r.error, Some(ToolError::ExecutionFailed(ref m)) if m == "1 files failed to write"));
    assert_eq!(r.mutations.len(), 1);
    assert_eq!(r.mutations[0].mutation_type, MutationType::Write);
    let ok = batch_write_result(&[FileOutcome::Done { path: "p".to_string(), amount: 1, mutated: true }]);
    assert!(ok.success && ok.error.is_none());
}

#[test]
fn batch_replace_reports_replacements() {
    let none = batch_replace_result("*.rs", &[]);
    assert_eq!(none.output.as_deref(), Some("No files matching pattern: *.rs"));
    let outcomes = vec![
        FileOutcome::Done { path: "a.rs".to_string(), amount: 3, mutated: true },
        FileOutcome::Done { path: "b.rs".to_string(), amount: 0, mutated: false },
    ];
    let r = batch_replace_result("*.rs", &outcomes);
    assert!(r.success);
    assert_eq!(r.output.as_deref(), Some("Batch replace complete: 2/2 files processed, 3 replacements made\n"));
    assert_eq!(r.mutations.len(), 1);
    assert_eq!(r.mutations[0].mutation_type, MutationType::Patch);
}

#[test]
fn sync_and_read_reports() {
    let r = sync_directory_result(2, &vec!["x: denied".to_string(), "y: denied".to_string()]);
    assert_eq!(r.output.as_deref(), Some("Directory sync: 2 directories created, 2 errors"));
    assert!(matches!(r.error, Some(ToolError::ExecutionFailed(ref m)) if m == "x: denied; y: denied"));
    let read = batch_read_report(
        2,
        1,
        3,
        &vec![("a.txt".to_string(), "abc".to_string())],
        &vec![("b.txt".to_string(), "Metadata error: gone".to_string())],
    );
    assert_eq!(
        read.output.as_deref(),
        Some("Batch read complete: 1/2 files, 3 bytes\n\n=== a.txt ===\nabc\n\nERRORS:\n  b.txt: Metadata error: gone\n")
    );
    assert!(!read.success);
}

#[test]
fn batch_output_is_capped_at_a_character_boundary() {
    assert_eq!(cap_output("abc".to_string(), 3), "abc");
    assert_eq!(cap_output("abcd".to_string(), 3), "abc\n\n[... output truncated due to size ...]");
    // 'é' takes two bytes: the cut after it falls at byte 3
    assert_eq!(cap_output("aébc".to_string(), 3), "aé\n\n[... output truncated due to size ...]");
    let long = "x".repeat(MAX_BATCH_OUTPUT_BYTES + 10);
    let capped = cap_output(long, MAX_BATCH_OUTPUT_BYTES);
    assert!(capped.starts_with(&"x".repeat(MAX_BATCH_OUTPUT_BYTES)));
    assert!(capped.ends_with("\n\n[... output truncated due to size ...]"));
    assert_eq!(capped.len(), MAX_BATCH_OUTPUT_BYTES + "\n\n[... output truncated due to size ...]".len());
}

use forge_runtime::runtime_log::JsonlLogger;
use forge_runtime::types::{JsonlLogEntry, SessionId};

#[test]
fn jsonl_logger_keeps_entries_in_order() {
    let session = SessionId::new();
    let mut logger = JsonlLogger::new();
    assert!(logger.entries().is_empty());
    logger.log(JsonlLogEntry::new("RUN_START", &session, 0, "info", "started"));
    logger.log(JsonlLogEntry::new("TOOL", &session, 1, "warning", "tool failed"));
    let entries = logger.entries();
    assert_eq!(entries.len(), 2);
    assert_eq!(entries[0].event_type, "RUN_START");
    assert_eq!(entries[1].iteration, 1);
    assert_eq!(entries[1].message, "tool failed");
}

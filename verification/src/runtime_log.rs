//! The runtime's records of a run: human-readable log entries, the
//! machine-readable entry list, and the result a run hands back.
use crate::state::AgentState;
use crate::types::{JsonlLogEntry, LogSeverity};
use vstd::prelude::*;

verus! {

/// A log entry for a runtime event.
pub struct RuntimeLogEntry {
    pub stage: String,
    pub iteration: u32,
    pub message: String,
    pub timestamp: u64,
    pub severity: LogSeverity,
}

/// What a run hands back.
pub struct RuntimeResult {
    pub success: bool,
    pub final_state: AgentState,
    pub iterations: u32,
    pub logs: Vec<RuntimeLogEntry>,
    pub jsonl_logs: Vec<JsonlLogEntry>,
    pub error: Option<String>,
}

/// The machine-readable log of a run, kept in the order of events.
pub struct JsonlLogger {
    entries: Vec<JsonlLogEntry>,
}

impl View for JsonlLogger {
    type V = Seq<JsonlLogEntry>;

    closed spec fn view(&self) -> Seq<JsonlLogEntry> {
        self.entries@
    }
}

impl JsonlLogger {
    /// An empty log.
    pub fn new() -> (r: Self)
        ensures
            r@ == Seq::<JsonlLogEntry>::empty(),
    {
        JsonlLogger { entries: Vec::new() }
    }

    /// Appends an entry; emitting it is the caller's part.
    pub fn log(&mut self, entry: JsonlLogEntry)
        ensures
            final(self)@ == old(self)@.push(entry),
    {
        self.entries.push(entry);
    }

    /// The entries, oldest first.
    pub fn entries(&self) -> (r: &Vec<JsonlLogEntry>)
        ensures
            r@ == self@,
    {
        &self.entries
    }
}

} // verus!

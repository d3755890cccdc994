//! The JSON form of an agent state, as the state file holds it: how a
//! state is written, how a file is read back into a state, and the proof
//! that reading gives back what was written.
use crate::collections::{seq_less, PathMap, PathSet};
use crate::json::{
    array_of, array_value, bool_of, field_of, fields_view, get_field, items_view, object_value,
    lemma_object_view, opt_str_json, opt_str_value, push_field, push_item, str_of, str_value, strings_of, u64_of,
    JsonValue, JsonView,
};
use crate::state::{changes_view, opt_reason_view, opt_report_view, opt_string_view, AgentState};
use crate::state_material::{
    decision_text, execution_mode_name, mutation_type_name, mutation_type_text,
    session_status_name, stage_text, status_name, validation_decision_name,
    validation_stage_name,
};
use crate::text::{push_char, push_str, str_eq, to_owned_string};
use crate::types::{
    mode_name, opt_view, ChangeRecord, ChangeRecordView, ExecutionMode, FileRecord,
    FileSnapshot, ForgeError, Mutation, MutationType, MutationView, SessionId, SessionStatus,
    ValidationDecision, ValidationReport, ValidationReportView, ValidationStage,
    ValidationStageResult,
};
use vstd::prelude::*;

verus! {

// ---------------------------------------------------------------------------
// Writing
// ---------------------------------------------------------------------------

/// The JSON form of a file record.
pub open spec fn record_json(r: FileRecord) -> JsonView {
    JsonView::Object(
        seq![
            ("content"@, opt_str_json(opt_view(r.content))),
            ("content_hash"@, JsonView::Str(r.content_hash@)),
            ("is_full_read"@, JsonView::Bool(r.is_full_read)),
            ("lines_read"@, match r.lines_read {
                Some((o, l)) => JsonView::Array(seq![JsonView::Uint(o as u64), JsonView::Uint(l as u64)]),
                None => JsonView::Null,
            }),
            ("path"@, JsonView::Str(r.path@)),
            ("read_at_iteration"@, JsonView::Uint(r.read_at_iteration as u64)),
            ("size_bytes"@, JsonView::Uint(r.size_bytes)),
            ("total_lines"@, JsonView::Uint(r.total_lines as u64)),
        ],
    )
}

/// The JSON form of a snapshot.
pub open spec fn snapshot_json(s: FileSnapshot) -> JsonView {
    JsonView::Object(
        seq![
            ("captured_at"@, JsonView::Uint(s.captured_at)),
            ("content"@, JsonView::Str(s.content@)),
            ("content_hash"@, JsonView::Str(s.content_hash@)),
            ("path"@, JsonView::Str(s.path@)),
        ],
    )
}

/// The JSON form of a validation stage result.
pub open spec fn stage_json(r: ValidationStageResult) -> JsonView {
    JsonView::Object(
        seq![
            ("execution_time_ms"@, JsonView::Uint(r.execution_time_ms)),
            ("message"@, JsonView::Str(r.message@)),
            ("passed"@, JsonView::Bool(r.passed)),
            ("stage"@, JsonView::Str(stage_text(r.stage))),
        ],
    )
}

/// The JSON form of a validation report.
pub open spec fn report_json(r: ValidationReportView) -> JsonView {
    JsonView::Object(
        seq![
            ("decision"@, JsonView::Str(decision_text(r.decision))),
            ("message"@, JsonView::Str(r.message)),
            ("requires_revert"@, JsonView::Bool(r.requires_revert)),
            ("stage_results"@, JsonView::Array(r.stage_results.map_values(|x: ValidationStageResult| stage_json(x)))),
        ],
    )
}

/// The JSON form of a mutation.
pub open spec fn mutation_json(m: MutationView) -> JsonView {
    JsonView::Object(
        seq![
            ("content_hash_after"@, opt_str_json(m.content_hash_after)),
            ("content_hash_before"@, opt_str_json(m.content_hash_before)),
            ("mutation_type"@, JsonView::Str(mutation_type_text(m.mutation_type))),
            ("path"@, JsonView::Str(m.path)),
        ],
    )
}

/// The JSON form of a change record.
pub open spec fn change_json(c: ChangeRecordView) -> JsonView {
    JsonView::Object(
        seq![
            ("iteration"@, JsonView::Uint(c.iteration as u64)),
            ("mutation"@, mutation_json(c.mutation)),
            ("session_id"@, JsonView::Str(c.session_id)),
            ("timestamp"@, JsonView::Uint(c.timestamp)),
            ("validation_report"@, report_json(c.validation_report)),
        ],
    )
}

/// The hashed fields of a state in JSON form, keys in ascending order.
pub open spec fn material_fields(st: AgentState) -> Seq<(Seq<char>, JsonView)> {
    seq![
        ("cardinality_violations"@, JsonView::Uint(st.cardinality_violations as u64)),
        ("change_history"@, JsonView::Array(changes_view(st.change_history@).map_values(|c: ChangeRecordView| change_json(c)))),
        ("completion_reason"@, opt_str_json(opt_reason_view(st.completion_reason))),
        ("files_read"@, JsonView::Array(st.files_read@.map_values(|e: (Seq<char>, FileRecord)| record_json(e.1)))),
        ("files_written"@, JsonView::Array(st.files_written@.map_values(|p: Seq<char>| JsonView::Str(p)))),
        ("iteration"@, JsonView::Uint(st.iteration as u64)),
        ("last_validation_report"@, match opt_report_view(st.last_validation_report) {
            Some(r) => report_json(r),
            None => JsonView::Null,
        }),
        ("max_iterations"@, JsonView::Uint(st.max_iterations as u64)),
        ("mode"@, JsonView::Str(mode_name(st.mode))),
        ("pending_validations"@, JsonView::Array(st.pending_validations@.map_values(|s: String| JsonView::Str(s@)))),
        ("previous_hash"@, opt_str_json(opt_string_view(st.previous_hash))),
        ("session_id"@, JsonView::Str(st.session_id@)),
        ("snapshots"@, JsonView::Array(st.snapshots@.map_values(|e: (Seq<char>, FileSnapshot)| snapshot_json(e.1)))),
        ("status"@, JsonView::Str(status_name(st.status))),
        ("task"@, JsonView::Str(st.task@)),
    ]
}

/// The JSON object whose text the state hash covers.
pub open spec fn material_json(st: AgentState) -> JsonView {
    JsonView::Object(material_fields(st))
}

/// The JSON form of a whole state: the hashed fields and the state hash.
pub open spec fn state_json(st: AgentState) -> JsonView {
    JsonView::Object(material_fields(st).push(("state_hash"@, JsonView::Str(st.state_hash@))))
}

fn file_record_to_value(r: &FileRecord) -> (v: JsonValue)
    ensures
        v@ == record_json(*r),
{
    let mut f: Vec<(String, JsonValue)> = Vec::new();
    assert(fields_view(f@) =~= Seq::empty());
    push_field(&mut f, "content", opt_str_value(&r.content));
    push_field(&mut f, "content_hash", str_value(r.content_hash.as_str()));
    push_field(&mut f, "is_full_read", JsonValue::Bool(r.is_full_read));
    let lines = match r.lines_read {
        Some((o, l)) => {
            let mut pair: Vec<JsonValue> = Vec::new();
            assert(items_view(pair@) =~= Seq::empty());
            push_item(&mut pair, JsonValue::Uint(o as u64));
            push_item(&mut pair, JsonValue::Uint(l as u64));
            assert(items_view(pair@) =~= seq![JsonView::Uint(o as u64), JsonView::Uint(l as u64)]);
            array_value(pair)
        },
        None => JsonValue::Null,
    };
    push_field(&mut f, "lines_read", lines);
    push_field(&mut f, "path", str_value(r.path.as_str()));
    push_field(&mut f, "read_at_iteration", JsonValue::Uint(r.read_at_iteration as u64));
    push_field(&mut f, "size_bytes", JsonValue::Uint(r.size_bytes));
    push_field(&mut f, "total_lines", JsonValue::Uint(r.total_lines as u64));
    let v = object_value(f);
    proof {
        match v@ {
            JsonView::Object(g) => {
                assert(g =~= match record_json(*r) {
                    JsonView::Object(h) => h,
                    _ => Seq::empty(),
                });
            },
            _ => {},
        }
    }
    v
}

fn file_snapshot_to_value(sn: &FileSnapshot) -> (v: JsonValue)
    ensures
        v@ == snapshot_json(*sn),
{
    let mut f: Vec<(String, JsonValue)> = Vec::new();
    assert(fields_view(f@) =~= Seq::empty());
    push_field(&mut f, "captured_at", JsonValue::Uint(sn.captured_at));
    push_field(&mut f, "content", str_value(sn.content.as_str()));
    push_field(&mut f, "content_hash", str_value(sn.content_hash.as_str()));
    push_field(&mut f, "path", str_value(sn.path.as_str()));
    let v = object_value(f);
    proof {
        match v@ {
            JsonView::Object(g) => {
                assert(g =~= match snapshot_json(*sn) {
                    JsonView::Object(h) => h,
                    _ => Seq::empty(),
                });
            },
            _ => {},
        }
    }
    v
}

fn validation_stage_result_to_value(r: &ValidationStageResult) -> (v: JsonValue)
    ensures
        v@ == stage_json(*r),
{
    let mut f: Vec<(String, JsonValue)> = Vec::new();
    assert(fields_view(f@) =~= Seq::empty());
    push_field(&mut f, "execution_time_ms", JsonValue::Uint(r.execution_time_ms));
    push_field(&mut f, "message", str_value(r.message.as_str()));
    push_field(&mut f, "passed", JsonValue::Bool(r.passed));
    push_field(&mut f, "stage", str_value(validation_stage_name(r.stage)));
    let v = object_value(f);
    proof {
        match v@ {
            JsonView::Object(g) => {
                assert(g =~= match stage_json(*r) {
                    JsonView::Object(h) => h,
                    _ => Seq::empty(),
                });
            },
            _ => {},
        }
    }
    v
}

fn validation_report_to_value(r: &ValidationReport) -> (v: JsonValue)
    ensures
        v@ == report_json(r@),
{
    let mut stages: Vec<JsonValue> = Vec::new();
    let mut i: usize = 0;
    while i < r.stage_results.len()
        invariant
            i <= r.stage_results@.len(),
            items_view(stages@) == r.stage_results@.take(i as int).map_values(
                |x: ValidationStageResult| stage_json(x),
            ),
        decreases r.stage_results@.len() - i,
    {
        push_item(&mut stages, validation_stage_result_to_value(&r.stage_results[i]));
        i = i + 1;
        assert(r.stage_results@.take(i as int).map_values(|x: ValidationStageResult| stage_json(x))
            =~= r.stage_results@.take(i - 1).map_values(|x: ValidationStageResult| stage_json(x)).push(
            stage_json(r.stage_results@[i - 1]),
        ));
    }
    assert(r.stage_results@.take(i as int) =~= r.stage_results@);
    let mut f: Vec<(String, JsonValue)> = Vec::new();
    assert(fields_view(f@) =~= Seq::empty());
    push_field(&mut f, "decision", str_value(validation_decision_name(r.decision)));
    push_field(&mut f, "message", str_value(r.message.as_str()));
    push_field(&mut f, "requires_revert", JsonValue::Bool(r.requires_revert));
    push_field(&mut f, "stage_results", array_value(stages));
    let v = object_value(f);
    proof {
        match v@ {
            JsonView::Object(g) => {
                assert(g =~= match report_json(r@) {
                    JsonView::Object(h) => h,
                    _ => Seq::empty(),
                });
            },
            _ => {},
        }
    }
    v
}

fn mutation_to_value(m: &Mutation) -> (v: JsonValue)
    ensures
        v@ == mutation_json(m@),
{
    let mut f: Vec<(String, JsonValue)> = Vec::new();
    assert(fields_view(f@) =~= Seq::empty());
    push_field(&mut f, "content_hash_after", opt_str_value(&m.content_hash_after));
    push_field(&mut f, "content_hash_before", opt_str_value(&m.content_hash_before));
    push_field(&mut f, "mutation_type", str_value(mutation_type_name(m.mutation_type)));
    push_field(&mut f, "path", str_value(m.path.as_str()));
    let v = object_value(f);
    proof {
        match v@ {
            JsonView::Object(g) => {
                assert(g =~= match mutation_json(m@) {
                    JsonView::Object(h) => h,
                    _ => Seq::empty(),
                });
            },
            _ => {},
        }
    }
    v
}

fn change_record_to_value(c: &ChangeRecord) -> (v: JsonValue)
    ensures
        v@ == change_json(c@),
{
    let mut f: Vec<(String, JsonValue)> = Vec::new();
    assert(fields_view(f@) =~= Seq::empty());
    push_field(&mut f, "iteration", JsonValue::Uint(c.iteration as u64));
    push_field(&mut f, "mutation", mutation_to_value(&c.mutation));
    push_field(&mut f, "session_id", str_value(c.session_id.as_str()));
    push_field(&mut f, "timestamp", JsonValue::Uint(c.timestamp));
    push_field(&mut f, "validation_report", validation_report_to_value(&c.validation_report));
    let v = object_value(f);
    proof {
        match v@ {
            JsonView::Object(g) => {
                assert(g =~= match change_json(c@) {
                    JsonView::Object(h) => h,
                    _ => Seq::empty(),
                });
            },
            _ => {},
        }
    }
    v
}

impl AgentState {
    /// The hashed fields in JSON form, keys in ascending order; paths,
    /// file records and snapshots in path order.
    fn material_fields_value(&self) -> (f: Vec<(String, JsonValue)>)
        ensures
            fields_view(f@) == material_fields(*self),
    {
        let mut written: Vec<JsonValue> = Vec::new();
        let mut i: usize = 0;
        while i < self.files_written.len()
            invariant
                i <= self.files_written@.len(),
                items_view(written@) == self.files_written@.take(i as int).map_values(
                    |p: Seq<char>| JsonView::Str(p),
                ),
            decreases self.files_written@.len() - i,
        {
            push_item(&mut written, str_value(self.files_written.item_at(i)));
            i = i + 1;
            assert(self.files_written@.take(i as int).map_values(|p: Seq<char>| JsonView::Str(p))
                =~= self.files_written@.take(i - 1).map_values(|p: Seq<char>| JsonView::Str(p)).push(
                JsonView::Str(self.files_written@[i - 1]),
            ));
        }
        assert(self.files_written@.take(i as int) =~= self.files_written@);
        let mut records: Vec<JsonValue> = Vec::new();
        let mut j: usize = 0;
        while j < self.files_read.len()
            invariant
                j <= self.files_read@.len(),
                items_view(records@) == self.files_read@.take(j as int).map_values(
                    |e: (Seq<char>, FileRecord)| record_json(e.1),
                ),
            decreases self.files_read@.len() - j,
        {
            let (_, rec) = self.files_read.entry_at(j);
            push_item(&mut records, file_record_to_value(rec));
            j = j + 1;
            assert(self.files_read@.take(j as int).map_values(
                |e: (Seq<char>, FileRecord)| record_json(e.1),
            ) =~= self.files_read@.take(j - 1).map_values(
                |e: (Seq<char>, FileRecord)| record_json(e.1),
            ).push(record_json(self.files_read@[j - 1].1)));
        }
        assert(self.files_read@.take(j as int) =~= self.files_read@);
        let mut changes: Vec<JsonValue> = Vec::new();
        let mut k: usize = 0;
        while k < self.change_history.len()
            invariant
                k <= self.change_history@.len(),
                items_view(changes@) == changes_view(self.change_history@).take(k as int).map_values(
                    |c: ChangeRecordView| change_json(c),
                ),
            decreases self.change_history@.len() - k,
        {
            push_item(&mut changes, change_record_to_value(&self.change_history[k]));
            k = k + 1;
            assert(changes_view(self.change_history@).take(k as int).map_values(
                |c: ChangeRecordView| change_json(c),
            ) =~= changes_view(self.change_history@).take(k - 1).map_values(
                |c: ChangeRecordView| change_json(c),
            ).push(change_json(self.change_history@[k - 1]@)));
        }
        assert(changes_view(self.change_history@).take(k as int) =~= changes_view(
            self.change_history@,
        ));
        let mut snaps: Vec<JsonValue> = Vec::new();
        let mut m: usize = 0;
        while m < self.snapshots.len()
            invariant
                m <= self.snapshots@.len(),
                items_view(snaps@) == self.snapshots@.take(m as int).map_values(
                    |e: (Seq<char>, FileSnapshot)| snapshot_json(e.1),
                ),
            decreases self.snapshots@.len() - m,
        {
            let (_, sn) = self.snapshots.entry_at(m);
            push_item(&mut snaps, file_snapshot_to_value(sn));
            m = m + 1;
            assert(self.snapshots@.take(m as int).map_values(
                |e: (Seq<char>, FileSnapshot)| snapshot_json(e.1),
            ) =~= self.snapshots@.take(m - 1).map_values(
                |e: (Seq<char>, FileSnapshot)| snapshot_json(e.1),
            ).push(snapshot_json(self.snapshots@[m - 1].1)));
        }
        assert(self.snapshots@.take(m as int) =~= self.snapshots@);
        let mut pending: Vec<JsonValue> = Vec::new();
        let mut n: usize = 0;
        while n < self.pending_validations.len()
            invariant
                n <= self.pending_validations@.len(),
                items_view(pending@) == self.pending_validations@.take(n as int).map_values(
                    |s: String| JsonView::Str(s@),
                ),
            decreases self.pending_validations@.len() - n,
        {
            push_item(&mut pending, str_value(self.pending_validations[n].as_str()));
            n = n + 1;
            assert(self.pending_validations@.take(n as int).map_values(|s: String| JsonView::Str(s@))
                =~= self.pending_validations@.take(n - 1).map_values(
                |s: String| JsonView::Str(s@),
            ).push(JsonView::Str(self.pending_validations@[n - 1]@)));
        }
        assert(self.pending_validations@.take(n as int) =~= self.pending_validations@);
        let reason = match &self.completion_reason {
            Some(c) => str_value(c.as_str()),
            None => JsonValue::Null,
        };
        let report = match &self.last_validation_report {
            Some(r) => validation_report_to_value(r),
            None => JsonValue::Null,
        };
        let mut f: Vec<(String, JsonValue)> = Vec::new();
        assert(fields_view(f@) =~= Seq::empty());
        push_field(&mut f, "cardinality_violations", JsonValue::Uint(self.cardinality_violations as u64));
        push_field(&mut f, "change_history", array_value(changes));
        push_field(&mut f, "completion_reason", reason);
        push_field(&mut f, "files_read", array_value(records));
        push_field(&mut f, "files_written", array_value(written));
        push_field(&mut f, "iteration", JsonValue::Uint(self.iteration as u64));
        push_field(&mut f, "last_validation_report", report);
        push_field(&mut f, "max_iterations", JsonValue::Uint(self.max_iterations as u64));
        push_field(&mut f, "mode", str_value(execution_mode_name(self.mode)));
        push_field(&mut f, "pending_validations", array_value(pending));
        push_field(&mut f, "previous_hash", opt_str_value(&self.previous_hash));
        push_field(&mut f, "session_id", str_value(self.session_id.as_str()));
        push_field(&mut f, "snapshots", array_value(snaps));
        push_field(&mut f, "status", str_value(session_status_name(self.status)));
        push_field(&mut f, "task", str_value(self.task.as_str()));
        assert(fields_view(f@) =~= material_fields(*self));
        f
    }

    /// The JSON object whose compact text the state hash covers.
    pub fn material_value(&self) -> (v: JsonValue)
        ensures
            v@ == material_json(*self),
    {
        let f = self.material_fields_value();
        proof {
            lemma_object_view(f);
        }
        JsonValue::Object(f)
    }

    /// The JSON form of the state, as `save` writes it: every hashed field
    /// and the state hash.
    pub fn to_json_value(&self) -> (v: JsonValue)
        ensures
            v@ == state_json(*self),
    {
        let mut f = self.material_fields_value();
        push_field(&mut f, "state_hash", str_value(self.state_hash.as_str()));
        proof {
            lemma_object_view(f);
        }
        JsonValue::Object(f)
    }
}

// ---------------------------------------------------------------------------
// Reading
// ---------------------------------------------------------------------------

/// The text names some validation stage.
pub open spec fn known_stage(s: Seq<char>) -> bool {
    exists|st: ValidationStage| stage_text(st) == s
}

/// The text names some validation decision.
pub open spec fn known_decision(s: Seq<char>) -> bool {
    exists|d: ValidationDecision| decision_text(d) == s
}

/// The text names some mutation type.
pub open spec fn known_mutation_type(s: Seq<char>) -> bool {
    exists|t: MutationType| mutation_type_text(t) == s
}

/// The text names some session status.
pub open spec fn known_status(s: Seq<char>) -> bool {
    exists|t: SessionStatus| status_name(t) == s
}

/// Parses a persisted validation stage name.
pub fn parse_validation_stage(raw: &str) -> (r: Result<ValidationStage, ForgeError>)
    ensures
        r matches Ok(s) ==> stage_text(s) == raw@,
        r is Err ==> !known_stage(raw@) && (r matches Err(ForgeError::InvalidConfiguration(m))
            && m@ == "Unknown validation stage '"@ + raw@ + "'"@),
{
    if str_eq(raw, "Syntax") {
        Ok(ValidationStage::Syntax)
    } else if str_eq(raw, "Format") {
        Ok(ValidationStage::Format)
    } else if str_eq(raw, "Lint") {
        Ok(ValidationStage::Lint)
    } else if str_eq(raw, "Build") {
        Ok(ValidationStage::Build)
    } else if str_eq(raw, "Test") {
        Ok(ValidationStage::Test)
    } else {
        proof {
            assert forall|s: ValidationStage| stage_text(s) != raw@ by {
                match s {
                    ValidationStage::Syntax => {},
                    ValidationStage::Format => {},
                    ValidationStage::Lint => {},
                    ValidationStage::Build => {},
                    ValidationStage::Test => {},
                }
            }
        }
        Err(ForgeError::InvalidConfiguration(quoted("Unknown validation stage '", raw)))
    }
}

/// Parses a persisted validation decision name.
pub fn parse_validation_decision(raw: &str) -> (r: Result<ValidationDecision, ForgeError>)
    ensures
        r matches Ok(d) ==> decision_text(d) == raw@,
        r is Err ==> !known_decision(raw@) && (r matches Err(ForgeError::InvalidConfiguration(m))
            && m@ == "Unknown validation decision '"@ + raw@ + "'"@),
{
    if str_eq(raw, "Accept") {
        Ok(ValidationDecision::Accept)
    } else if str_eq(raw, "Reject") {
        Ok(ValidationDecision::Reject)
    } else if str_eq(raw, "Escalate") {
        Ok(ValidationDecision::Escalate)
    } else {
        proof {
            assert forall|d: ValidationDecision| decision_text(d) != raw@ by {
                match d {
                    ValidationDecision::Accept => {},
                    ValidationDecision::Reject => {},
                    ValidationDecision::Escalate => {},
                }
            }
        }
        Err(ForgeError::InvalidConfiguration(quoted("Unknown validation decision '", raw)))
    }
}

/// Parses a persisted mutation type name.
pub fn parse_mutation_type(raw: &str) -> (r: Result<MutationType, ForgeError>)
    ensures
        r matches Ok(t) ==> mutation_type_text(t) == raw@,
        r is Err ==> !known_mutation_type(raw@) && (r matches Err(
            ForgeError::InvalidConfiguration(m),
        ) && m@ == "Unknown mutation type '"@ + raw@ + "'"@),
{
    if str_eq(raw, "Write") {
        Ok(MutationType::Write)
    } else if str_eq(raw, "Patch") {
        Ok(MutationType::Patch)
    } else if str_eq(raw, "Delete") {
        Ok(MutationType::Delete)
    } else if str_eq(raw, "Move") {
        Ok(MutationType::Move)
    } else {
        proof {
            assert forall|t: MutationType| mutation_type_text(t) != raw@ by {
                match t {
                    MutationType::Write => {},
                    MutationType::Patch => {},
                    MutationType::Delete => {},
                    MutationType::Move => {},
                }
            }
        }
        Err(ForgeError::InvalidConfiguration(quoted("Unknown mutation type '", raw)))
    }
}

/// `prefix`, the text, and a closing quote.
fn quoted(prefix: &str, raw: &str) -> (r: String)
    ensures
        r@ == prefix@ + raw@ + "'"@,
{
    let mut m = to_owned_string(prefix);
    push_str(&mut m, raw);
    push_char(&mut m, '\'');
    assert(m@ =~= prefix@ + raw@ + "'"@) by {
        reveal_strlit("'");
    }
    m
}

fn invalid(m: &str) -> (r: ForgeError)
    ensures
        r matches ForgeError::InvalidConfiguration(mm) && mm@ == m@,
{
    ForgeError::InvalidConfiguration(to_owned_string(m))
}

/// The string field `key`, or the error `missing`.
fn req_str(v: &JsonValue, key: &str, missing: &str) -> (r: Result<String, ForgeError>)
    ensures
        match str_of(get_field(v@, key@)) {
            Some(s) => r matches Ok(t) && t@ == s,
            None => r matches Err(ForgeError::InvalidConfiguration(m)) && m@ == missing@,
        },
{
    match v.get(key) {
        Some(x) => match x.as_str() {
            Some(s) => Ok(to_owned_string(s)),
            None => Err(invalid(missing)),
        },
        None => Err(invalid(missing)),
    }
}

/// The integer field `key`, or the error `missing`.
fn req_u64(v: &JsonValue, key: &str, missing: &str) -> (r: Result<u64, ForgeError>)
    ensures
        match u64_of(get_field(v@, key@)) {
            Some(n) => r == Ok::<u64, ForgeError>(n),
            None => r matches Err(ForgeError::InvalidConfiguration(m)) && m@ == missing@,
        },
{
    match v.get(key) {
        Some(x) => match x.as_u64() {
            Some(n) => Ok(n),
            None => Err(invalid(missing)),
        },
        None => Err(invalid(missing)),
    }
}

/// The boolean field `key`, or the error `missing`.
fn req_bool(v: &JsonValue, key: &str, missing: &str) -> (r: Result<bool, ForgeError>)
    ensures
        match bool_of(get_field(v@, key@)) {
            Some(b) => r == Ok::<bool, ForgeError>(b),
            None => r matches Err(ForgeError::InvalidConfiguration(m)) && m@ == missing@,
        },
{
    match v.get(key) {
        Some(x) => match x.as_bool() {
            Some(b) => Ok(b),
            None => Err(invalid(missing)),
        },
        None => Err(invalid(missing)),
    }
}

/// The optional string field `key`.
fn opt_str_field(v: &JsonValue, key: &str) -> (r: Option<String>)
    ensures
        opt_view(r) == str_of(get_field(v@, key@)),
{
    match v.get(key) {
        Some(x) => match x.as_str() {
            Some(s) => Some(to_owned_string(s)),
            None => None,
        },
        None => None,
    }
}

/// The optional integer field `key`.
fn opt_u64_field(v: &JsonValue, key: &str) -> (r: Option<u64>)
    ensures
        r == u64_of(get_field(v@, key@)),
{
    match v.get(key) {
        Some(x) => x.as_u64(),
        None => None,
    }
}

/// The optional boolean field `key`.
fn opt_bool_field(v: &JsonValue, key: &str) -> (r: Option<bool>)
    ensures
        r == bool_of(get_field(v@, key@)),
{
    match v.get(key) {
        Some(x) => x.as_bool(),
        None => None,
    }
}

/// The optional array field `key`.
fn opt_array_field<'a>(v: &'a JsonValue, key: &str) -> (r: Option<&'a Vec<JsonValue>>)
    ensures
        r matches Some(items) ==> array_of(get_field(v@, key@)) == Some(items_view(items@)),
        r is None ==> array_of(get_field(v@, key@)) is None,
{
    match v.get(key) {
        Some(x) => {
            let a = x.as_array();
            proof {
                if let Some(items) = a {
                    assert(items@.map_values(|x: JsonValue| x@) =~= items_view(items@));
                }
            }
            a
        },
        None => None,
    }
}

/// Why a stage result cannot be read, if it cannot.
pub open spec fn stage_error(v: JsonView) -> Option<Seq<char>> {
    if !(v is Object) {
        Some("stage_results entries must be objects"@)
    } else if str_of(get_field(v, "stage"@)) is None {
        Some("stage result missing stage"@)
    } else if !known_stage(str_of(get_field(v, "stage"@))->0) {
        Some("Unknown validation stage '"@ + str_of(get_field(v, "stage"@))->0 + "'"@)
    } else if bool_of(get_field(v, "passed"@)) is None {
        Some("stage result missing passed"@)
    } else if str_of(get_field(v, "message"@)) is None {
        Some("stage result missing message"@)
    } else if u64_of(get_field(v, "execution_time_ms"@)) is None {
        Some("stage result missing execution_time_ms"@)
    } else {
        None
    }
}

/// `r` is what the stage result `v` holds.
pub open spec fn stage_decoded(v: JsonView, r: ValidationStageResult) -> bool {
    &&& str_of(get_field(v, "stage"@)) == Some(stage_text(r.stage))
    &&& bool_of(get_field(v, "passed"@)) == Some(r.passed)
    &&& str_of(get_field(v, "message"@)) == Some(r.message@)
    &&& u64_of(get_field(v, "execution_time_ms"@)) == Some(r.execution_time_ms)
}

/// The first error among items, in order, where `err` says what is wrong
/// with one item.
pub open spec fn first_error(
    items: Seq<JsonView>,
    err: spec_fn(JsonView) -> Option<Seq<char>>,
) -> Option<Seq<char>>
    decreases items.len(),
{
    if items.len() == 0 {
        None
    } else {
        match first_error(items.drop_last(), err) {
            Some(m) => Some(m),
            None => err(items.last()),
        }
    }
}

/// The first error among stage results.
pub open spec fn stages_error(items: Seq<JsonView>) -> Option<Seq<char>> {
    first_error(items, |v: JsonView| stage_error(v))
}

/// An error within a prefix is the error of any longer prefix.
pub proof fn lemma_first_error_stays(
    items: Seq<JsonView>,
    err: spec_fn(JsonView) -> Option<Seq<char>>,
    i: int,
    n: int,
)
    requires
        0 <= i < n <= items.len(),
        first_error(items.take(i + 1), err) is Some,
    ensures
        first_error(items.take(n), err) == first_error(items.take(i + 1), err),
    decreases n,
{
    if n > i + 1 {
        lemma_first_error_stays(items, err, i, n - 1);
        assert(items.take(n).drop_last() =~= items.take(n - 1));
    }
}

/// Reads one stage result.
pub fn parse_validation_stage_result(v: &JsonValue) -> (r: Result<ValidationStageResult, ForgeError>)
    ensures
        match stage_error(v@) {
            Some(m) => r matches Err(ForgeError::InvalidConfiguration(mm)) && mm@ == m,
            None => r matches Ok(x) && stage_decoded(v@, x),
        },
{
    if !v.is_object() {
        return Err(invalid("stage_results entries must be objects"));
    }
    let stage_name = req_str(v, "stage", "stage result missing stage")?;
    let stage = parse_validation_stage(stage_name.as_str())?;
    let passed = req_bool(v, "passed", "stage result missing passed")?;
    let message = req_str(v, "message", "stage result missing message")?;
    let execution_time_ms = req_u64(v, "execution_time_ms", "stage result missing execution_time_ms")?;
    Ok(ValidationStageResult { stage, passed, message, execution_time_ms })
}

/// Reads stage results, in order; the first unreadable one is the error.
pub fn parse_validation_stage_results(items: &Vec<JsonValue>) -> (r: Result<
    Vec<ValidationStageResult>,
    ForgeError,
>)
    ensures
        match stages_error(items_view(items@)) {
            Some(m) => r matches Err(ForgeError::InvalidConfiguration(mm)) && mm@ == m,
            None => r matches Ok(out) && out@.len() == items@.len() && forall|i: int|
                0 <= i < items@.len() ==> stage_decoded(items@[i]@, #[trigger] out@[i]),
        },
{
    let ghost iv = items_view(items@);
    let mut out: Vec<ValidationStageResult> = Vec::new();
    let mut i: usize = 0;
    while i < items.len()
        invariant
            i <= items@.len(),
            iv == items_view(items@),
            stages_error(iv.take(i as int)) is None,
            out@.len() == i,
            forall|j: int| 0 <= j < i ==> stage_decoded(items@[j]@, #[trigger] out@[j]),
        decreases items.len() - i,
    {
        assert(iv.take(i + 1).drop_last() =~= iv.take(i as int));
        assert(iv.take(i + 1).last() == items@[i as int]@);
        match parse_validation_stage_result(&items[i]) {
            Ok(x) => {
                out.push(x);
            },
            Err(e) => {
                proof {
                    lemma_first_error_stays(iv, |v: JsonView| stage_error(v), i as int, iv.len() as int);
                    assert(iv.take(iv.len() as int) =~= iv);
                }
                return Err(e);
            },
        }
        i = i + 1;
    }
    assert(iv.take(i as int) =~= iv);
    Ok(out)
}

/// Why a validation report cannot be read, if it cannot.
pub open spec fn report_error(v: JsonView) -> Option<Seq<char>> {
    if !(v is Object) {
        Some("validation_report must be an object"@)
    } else if array_of(get_field(v, "stage_results"@)) is Some && stages_error(
        array_of(get_field(v, "stage_results"@))->0,
    ) is Some {
        stages_error(array_of(get_field(v, "stage_results"@))->0)
    } else if str_of(get_field(v, "decision"@)) is None {
        Some("validation_report missing decision"@)
    } else if !known_decision(str_of(get_field(v, "decision"@))->0) {
        Some("Unknown validation decision '"@ + str_of(get_field(v, "decision"@))->0 + "'"@)
    } else if str_of(get_field(v, "message"@)) is None {
        Some("validation_report missing message"@)
    } else {
        None
    }
}

/// `r` is what the validation report `v` holds; a missing stage list is
/// empty and a missing revert flag is false.
pub open spec fn report_decoded(v: JsonView, r: ValidationReport) -> bool {
    &&& str_of(get_field(v, "decision"@)) == Some(decision_text(r.decision))
    &&& match array_of(get_field(v, "stage_results"@)) {
        Some(items) => r.stage_results@.len() == items.len() && forall|i: int|
            0 <= i < items.len() ==> stage_decoded(items[i], #[trigger] r.stage_results@[i]),
        None => r.stage_results@.len() == 0,
    }
    &&& str_of(get_field(v, "message"@)) == Some(r.message@)
    &&& r.requires_revert == match bool_of(get_field(v, "requires_revert"@)) {
        Some(b) => b,
        None => false,
    }
}

/// Reads a validation report.
pub fn parse_validation_report(v: &JsonValue) -> (r: Result<ValidationReport, ForgeError>)
    ensures
        match report_error(v@) {
            Some(m) => r matches Err(ForgeError::InvalidConfiguration(mm)) && mm@ == m,
            None => r matches Ok(x) && report_decoded(v@, x),
        },
{
    if !v.is_object() {
        return Err(invalid("validation_report must be an object"));
    }
    let stage_results = match opt_array_field(v, "stage_results") {
        Some(items) => {
            let parsed = parse_validation_stage_results(items)?;
            proof {
                assert forall|i: int| 0 <= i < items@.len() implies items_view(items@)[i]
                    == items@[i]@ by {}
            }
            parsed
        },
        None => Vec::new(),
    };
    let decision_name = req_str(v, "decision", "validation_report missing decision")?;
    let decision = parse_validation_decision(decision_name.as_str())?;
    let message = req_str(v, "message", "validation_report missing message")?;
    let requires_revert = match opt_bool_field(v, "requires_revert") {
        Some(b) => b,
        None => false,
    };
    Ok(ValidationReport { decision, stage_results, message, requires_revert })
}

/// Why a change record cannot be read, if it cannot.
pub open spec fn change_error(v: JsonView) -> Option<Seq<char>> {
    let m = get_field(v, "mutation"@);
    if !(v is Object) {
        Some("change_history entries must be objects"@)
    } else if !(m matches Some(mv) && mv is Object) {
        Some("change record missing mutation"@)
    } else if u64_of(get_field(v, "iteration"@)) is None {
        Some("change record missing iteration"@)
    } else if u64_of(get_field(v, "timestamp"@)) is None {
        Some("change record missing timestamp"@)
    } else if str_of(get_field(m->0, "path"@)) is None {
        Some("mutation missing path"@)
    } else if str_of(get_field(m->0, "mutation_type"@)) is None {
        Some("mutation missing mutation_type"@)
    } else if !known_mutation_type(str_of(get_field(m->0, "mutation_type"@))->0) {
        Some("Unknown mutation type '"@ + str_of(get_field(m->0, "mutation_type"@))->0 + "'"@)
    } else if get_field(v, "validation_report"@) is None {
        Some("change record missing validation_report"@)
    } else {
        report_error(get_field(v, "validation_report"@)->0)
    }
}

/// `c` is what the change record `v` holds; a missing session id is
/// `fallback`.
pub open spec fn change_decoded(v: JsonView, c: ChangeRecord, fallback: Seq<char>) -> bool {
    let m = get_field(v, "mutation"@)->0;
    &&& c.session_id@ == match str_of(get_field(v, "session_id"@)) {
        Some(s) => s,
        None => fallback,
    }
    &&& u64_of(get_field(v, "iteration"@)) matches Some(n) && c.iteration == n as u32
    &&& u64_of(get_field(v, "timestamp"@)) == Some(c.timestamp)
    &&& str_of(get_field(m, "path"@)) == Some(c.mutation.path@)
    &&& str_of(get_field(m, "mutation_type"@)) == Some(mutation_type_text(c.mutation.mutation_type))
    &&& opt_view(c.mutation.content_hash_before) == str_of(get_field(m, "content_hash_before"@))
    &&& opt_view(c.mutation.content_hash_after) == str_of(get_field(m, "content_hash_after"@))
    &&& report_decoded(get_field(v, "validation_report"@)->0, c.validation_report)
}

/// Reads a change record; `fallback_session_id` stands in for a missing
/// session id.
pub fn parse_change_record(v: &JsonValue, fallback_session_id: &str) -> (r: Result<
    ChangeRecord,
    ForgeError,
>)
    ensures
        match change_error(v@) {
            Some(m) => r matches Err(ForgeError::InvalidConfiguration(mm)) && mm@ == m,
            None => r matches Ok(c) && change_decoded(v@, c, fallback_session_id@),
        },
{
    if !v.is_object() {
        return Err(invalid("change_history entries must be objects"));
    }
    let mutation = match v.get("mutation") {
        Some(m) => {
            if !m.is_object() {
                return Err(invalid("change record missing mutation"));
            }
            m
        },
        None => {
            return Err(invalid("change record missing mutation"));
        },
    };
    let session_id = match opt_str_field(v, "session_id") {
        Some(s) => s,
        None => to_owned_string(fallback_session_id),
    };
    let iteration = req_u64(v, "iteration", "change record missing iteration")?;
    let timestamp = req_u64(v, "timestamp", "change record missing timestamp")?;
    let path = req_str(mutation, "path", "mutation missing path")?;
    let kind_text = req_str(mutation, "mutation_type", "mutation missing mutation_type")?;
    let mutation_type = parse_mutation_type(kind_text.as_str())?;
    let content_hash_before = opt_str_field(mutation, "content_hash_before");
    let content_hash_after = opt_str_field(mutation, "content_hash_after");
    let report_value = match v.get("validation_report") {
        Some(x) => x,
        None => {
            return Err(invalid("change record missing validation_report"));
        },
    };
    let validation_report = parse_validation_report(report_value)?;
    Ok(ChangeRecord {
        session_id: SessionId::from_string(session_id),
        iteration: iteration as u32,
        timestamp,
        mutation: Mutation { path, mutation_type, content_hash_before, content_hash_after },
        validation_report,
    })
}

/// The `path` field of an entry.
pub open spec fn path_of(v: JsonView) -> Seq<char> {
    str_of(get_field(v, "path"@))->0
}

/// The index of the last entry with path `k`, or -1.
pub open spec fn last_with_path(items: Seq<JsonView>, k: Seq<char>) -> int
    decreases items.len(),
{
    if items.len() == 0 {
        -1
    } else if path_of(items.last()) == k {
        items.len() - 1
    } else {
        last_with_path(items.drop_last(), k)
    }
}

proof fn lemma_last_with_path_range(items: Seq<JsonView>, k: Seq<char>)
    ensures
        -1 <= last_with_path(items, k) < items.len(),
        last_with_path(items, k) >= 0 ==> path_of(items[last_with_path(items, k)]) == k,
    decreases items.len(),
{
    if items.len() > 0 && path_of(items.last()) != k {
        lemma_last_with_path_range(items.drop_last(), k);
    }
}

/// The entries' paths are strictly ascending (as a state writes them).
pub open spec fn paths_ascending(items: Seq<JsonView>) -> bool {
    forall|i: int, j: int|
        0 <= i < j < items.len() ==> seq_less(path_of(#[trigger] items[i]), path_of(#[trigger] items[j]))
}

/// Why the `lines_read` pair of a file record cannot be read, if it cannot.
pub open spec fn lines_read_error(v: JsonView) -> Option<Seq<char>> {
    match array_of(get_field(v, "lines_read"@)) {
        Some(pair) => if pair.len() != 2 {
            Some("lines_read must contain exactly two integers"@)
        } else if u64_of(Some(pair[0])) is None {
            Some("lines_read offset must be an integer"@)
        } else if u64_of(Some(pair[1])) is None {
            Some("lines_read limit must be an integer"@)
        } else {
            None
        },
        None => None,
    }
}

/// The `lines_read` pair of a file record.
pub open spec fn lines_read_of(v: JsonView) -> Option<(usize, usize)> {
    match array_of(get_field(v, "lines_read"@)) {
        Some(pair) => Some(
            ((u64_of(Some(pair[0]))->0) as usize, (u64_of(Some(pair[1]))->0) as usize),
        ),
        None => None,
    }
}

/// Why a file record cannot be read, if it cannot.
pub open spec fn record_error(v: JsonView) -> Option<Seq<char>> {
    if !(v is Object) {
        Some("files_read entries must be objects"@)
    } else if str_of(get_field(v, "path"@)) is None {
        Some("file record missing path"@)
    } else if lines_read_error(v) is Some {
        lines_read_error(v)
    } else if str_of(get_field(v, "content_hash"@)) is None {
        Some("file record missing content_hash"@)
    } else if u64_of(get_field(v, "size_bytes"@)) is None {
        Some("file record missing size_bytes"@)
    } else if u64_of(get_field(v, "total_lines"@)) is None {
        Some("file record missing total_lines"@)
    } else if bool_of(get_field(v, "is_full_read"@)) is None {
        Some("file record missing is_full_read"@)
    } else if u64_of(get_field(v, "read_at_iteration"@)) is None {
        Some("file record missing read_at_iteration"@)
    } else {
        None
    }
}

/// `r` is what the file record `v` holds.
pub open spec fn record_decoded(v: JsonView, r: FileRecord) -> bool {
    &&& str_of(get_field(v, "path"@)) == Some(r.path@)
    &&& str_of(get_field(v, "content_hash"@)) == Some(r.content_hash@)
    &&& u64_of(get_field(v, "size_bytes"@)) == Some(r.size_bytes)
    &&& u64_of(get_field(v, "total_lines"@)) matches Some(n) && r.total_lines == n as usize
    &&& r.lines_read == lines_read_of(v)
    &&& bool_of(get_field(v, "is_full_read"@)) == Some(r.is_full_read)
    &&& u64_of(get_field(v, "read_at_iteration"@)) matches Some(n) && r.read_at_iteration == n as u32
    &&& opt_view(r.content) == str_of(get_field(v, "content"@))
}

/// The first error among file records.
pub open spec fn records_error(items: Seq<JsonView>) -> Option<Seq<char>> {
    first_error(items, |v: JsonView| record_error(v))
}

/// `m` holds, under each path, the last record with that path; written in
/// path order, the records stand in the map in that order.
pub open spec fn records_decoded(items: Seq<JsonView>, m: PathMap<FileRecord>) -> bool {
    &&& forall|k: Seq<char>| #[trigger] m.lookup(k) is None <==> last_with_path(items, k) < 0
    &&& forall|k: Seq<char>|
        last_with_path(items, k) >= 0 ==> (#[trigger] m.lookup(k) matches Some(r) && record_decoded(
            items[last_with_path(items, k)],
            r,
        ))
    &&& paths_ascending(items) ==> m@.len() == items.len() && forall|i: int|
        0 <= i < items.len() ==> #[trigger] record_at(m@, items, i)
}

/// Entry `i` of the map is the record at index `i` of the list.
pub open spec fn record_at(m: Seq<(Seq<char>, FileRecord)>, items: Seq<JsonView>, i: int) -> bool {
    m[i].0 == path_of(items[i]) && record_decoded(items[i], m[i].1)
}

/// Reads one file record.
pub fn parse_file_record(v: &JsonValue) -> (r: Result<FileRecord, ForgeError>)
    ensures
        match record_error(v@) {
            Some(m) => r matches Err(ForgeError::InvalidConfiguration(mm)) && mm@ == m,
            None => r matches Ok(x) && record_decoded(v@, x),
        },
{
    if !v.is_object() {
        return Err(invalid("files_read entries must be objects"));
    }
    let path = req_str(v, "path", "file record missing path")?;
    let lines_read = match opt_array_field(v, "lines_read") {
        Some(pair) => {
            if pair.len() != 2 {
                return Err(invalid("lines_read must contain exactly two integers"));
            }
            assert(items_view(pair@)[0] == pair@[0]@);
            assert(items_view(pair@)[1] == pair@[1]@);
            let offset = match pair[0].as_u64() {
                Some(n) => n,
                None => {
                    return Err(invalid("lines_read offset must be an integer"));
                },
            };
            let limit = match pair[1].as_u64() {
                Some(n) => n,
                None => {
                    return Err(invalid("lines_read limit must be an integer"));
                },
            };
            Some((offset as usize, limit as usize))
        },
        None => None,
    };
    let content_hash = req_str(v, "content_hash", "file record missing content_hash")?;
    let size_bytes = req_u64(v, "size_bytes", "file record missing size_bytes")?;
    let total_lines = req_u64(v, "total_lines", "file record missing total_lines")?;
    let is_full_read = req_bool(v, "is_full_read", "file record missing is_full_read")?;
    let read_at_iteration = req_u64(v, "read_at_iteration", "file record missing read_at_iteration")?;
    let content = opt_str_field(v, "content");
    Ok(FileRecord {
        path,
        content_hash,
        size_bytes,
        total_lines: total_lines as usize,
        lines_read,
        is_full_read,
        read_at_iteration: read_at_iteration as u32,
        content,
    })
}

/// Reads file records into a map keyed by path; a later record replaces an
/// earlier one with the same path, and the first unreadable record is the
/// error.
pub fn parse_file_records(items: &Vec<JsonValue>) -> (r: Result<PathMap<FileRecord>, ForgeError>)
    ensures
        match records_error(items_view(items@)) {
            Some(m) => r matches Err(ForgeError::InvalidConfiguration(mm)) && mm@ == m,
            None => r matches Ok(map) && records_decoded(items_view(items@), map),
        },
{
    let ghost iv = items_view(items@);
    let mut map: PathMap<FileRecord> = PathMap::new();
    let mut i: usize = 0;
    while i < items.len()
        invariant
            i <= items@.len(),
            iv == items_view(items@),
            records_error(iv.take(i as int)) is None,
            records_decoded(iv.take(i as int), map),
        decreases items.len() - i,
    {
        let ghost before = iv.take(i as int);
        let ghost after = iv.take(i + 1);
        assert(after.drop_last() =~= before);
        assert(after.last() == items@[i as int]@);
        let rec = match parse_file_record(&items[i]) {
            Ok(x) => x,
            Err(e) => {
                proof {
                    lemma_first_error_stays(iv, |v: JsonView| record_error(v), i as int, iv.len() as int);
                    assert(iv.take(iv.len() as int) =~= iv);
                }
                return Err(e);
            },
        };
        let ghost old_map = map;
        let ghost p = rec.path@;
        let ghost rv = rec;
        proof {
            assert(paths_ascending(after) ==> forall|j: int|
                0 <= j < old_map@.len() ==> seq_less(#[trigger] old_map@[j].0, p)) by {
            if paths_ascending(after) {
                assert forall|j: int| 0 <= j < old_map@.len() implies seq_less(
                    #[trigger] old_map@[j].0,
                    p,
                ) by {
                    assert(paths_ascending(before));
                    assert(record_at(old_map@, before, j));
                    assert(before[j] == after[j]);
                    assert(seq_less(path_of(after[j]), path_of(after[i as int])));
                }
            }
            }
        }
        let key = rec.path.clone();
        map.insert(key, rec);
        proof {
            assert forall|k: Seq<char>| #[trigger] map.lookup(k) is None <==> last_with_path(
                after,
                k,
            ) < 0 by {
                if k != p {
                    assert(last_with_path(after, k) == last_with_path(before, k));
                }
            }
            assert forall|k: Seq<char>| last_with_path(after, k) >= 0 implies (
            #[trigger] map.lookup(k) matches Some(r) && record_decoded(after[last_with_path(after, k)], r)) by {
                if k != p {
                    assert(last_with_path(after, k) == last_with_path(before, k));
                    lemma_last_with_path_range(before, k);
                    assert(before[last_with_path(before, k)] == after[last_with_path(before, k)]);
                }
            }
            if paths_ascending(after) {
                assert(paths_ascending(before));
                assert(map@ == old_map@.push((p, rv)));
                assert forall|j: int| 0 <= j < after.len() implies #[trigger] record_at(
                    map@,
                    after,
                    j,
                ) by {
                    if j < i {
                        assert(before[j] == after[j]);
                        assert(map@[j] == old_map@[j]);
                        assert(record_at(old_map@, before, j));
                    } else {
                        assert(map@[j] == (p, rv));
                    }
                }
            }
            assert(records_error(after) is None);
            assert(record_decoded(after[i as int], rv));
            assert(path_of(after.last()) == p);
            assert(last_with_path(after, p) == i);
            assert(map.lookup(p) == Some(rv));
            assert(paths_ascending(after) ==> map@.len() == after.len());
            assert(records_decoded(after, map));
        }
        i = i + 1;
    }
    assert(iv.take(i as int) =~= iv);
    Ok(map)
}

/// Why a snapshot cannot be read, if it cannot.
pub open spec fn snapshot_error(v: JsonView) -> Option<Seq<char>> {
    if !(v is Object) {
        Some("snapshot entries must be objects"@)
    } else if str_of(get_field(v, "path"@)) is None {
        Some("snapshot missing path"@)
    } else if str_of(get_field(v, "content"@)) is None {
        Some("snapshot missing content"@)
    } else if str_of(get_field(v, "content_hash"@)) is None {
        Some("snapshot missing content_hash"@)
    } else if u64_of(get_field(v, "captured_at"@)) is None {
        Some("snapshot missing captured_at"@)
    } else {
        None
    }
}

/// `sn` is what the snapshot `v` holds.
pub open spec fn snapshot_decoded(v: JsonView, sn: FileSnapshot) -> bool {
    &&& str_of(get_field(v, "path"@)) == Some(sn.path@)
    &&& str_of(get_field(v, "content"@)) == Some(sn.content@)
    &&& str_of(get_field(v, "content_hash"@)) == Some(sn.content_hash@)
    &&& u64_of(get_field(v, "captured_at"@)) == Some(sn.captured_at)
}

/// The first error among snapshots.
pub open spec fn snapshots_error(items: Seq<JsonView>) -> Option<Seq<char>> {
    first_error(items, |v: JsonView| snapshot_error(v))
}

/// `m` holds, under each path, the last snapshot with that path; written
/// in path order, the snapshots stand in the map in that order.
pub open spec fn snapshots_decoded(items: Seq<JsonView>, m: PathMap<FileSnapshot>) -> bool {
    &&& forall|k: Seq<char>| #[trigger] m.lookup(k) is None <==> last_with_path(items, k) < 0
    &&& forall|k: Seq<char>|
        last_with_path(items, k) >= 0 ==> (#[trigger] m.lookup(k) matches Some(sn)
            && snapshot_decoded(items[last_with_path(items, k)], sn))
    &&& paths_ascending(items) ==> m@.len() == items.len() && forall|i: int|
        0 <= i < items.len() ==> #[trigger] snapshot_at(m@, items, i)
}

/// Entry `i` of the map is the snapshot at index `i` of the list.
pub open spec fn snapshot_at(m: Seq<(Seq<char>, FileSnapshot)>, items: Seq<JsonView>, i: int) -> bool {
    m[i].0 == path_of(items[i]) && snapshot_decoded(items[i], m[i].1)
}

/// Reads one snapshot.
pub fn parse_snapshot(v: &JsonValue) -> (r: Result<FileSnapshot, ForgeError>)
    ensures
        match snapshot_error(v@) {
            Some(m) => r matches Err(ForgeError::InvalidConfiguration(mm)) && mm@ == m,
            None => r matches Ok(x) && snapshot_decoded(v@, x),
        },
{
    if !v.is_object() {
        return Err(invalid("snapshot entries must be objects"));
    }
    let path = req_str(v, "path", "snapshot missing path")?;
    let content = req_str(v, "content", "snapshot missing content")?;
    let content_hash = req_str(v, "content_hash", "snapshot missing content_hash")?;
    let captured_at = req_u64(v, "captured_at", "snapshot missing captured_at")?;
    Ok(FileSnapshot { path, content, content_hash, captured_at })
}

/// Reads snapshots into a map keyed by path; a later snapshot replaces an
/// earlier one with the same path, and the first unreadable one is the
/// error.
pub fn parse_snapshots(items: &Vec<JsonValue>) -> (r: Result<PathMap<FileSnapshot>, ForgeError>)
    ensures
        match snapshots_error(items_view(items@)) {
            Some(m) => r matches Err(ForgeError::InvalidConfiguration(mm)) && mm@ == m,
            None => r matches Ok(map) && snapshots_decoded(items_view(items@), map),
        },
{
    let ghost iv = items_view(items@);
    let mut map: PathMap<FileSnapshot> = PathMap::new();
    let mut i: usize = 0;
    while i < items.len()
        invariant
            i <= items@.len(),
            iv == items_view(items@),
            snapshots_error(iv.take(i as int)) is None,
            snapshots_decoded(iv.take(i as int), map),
        decreases items.len() - i,
    {
        let ghost before = iv.take(i as int);
        let ghost after = iv.take(i + 1);
        assert(after.drop_last() =~= before);
        assert(after.last() == items@[i as int]@);
        let rec = match parse_snapshot(&items[i]) {
            Ok(x) => x,
            Err(e) => {
                proof {
                    lemma_first_error_stays(iv, |v: JsonView| snapshot_error(v), i as int, iv.len() as int);
                    assert(iv.take(iv.len() as int) =~= iv);
                }
                return Err(e);
            },
        };
        let ghost old_map = map;
        let ghost p = rec.path@;
        let ghost rv = rec;
        proof {
            assert(paths_ascending(after) ==> forall|j: int|
                0 <= j < old_map@.len() ==> seq_less(#[trigger] old_map@[j].0, p)) by {
            if paths_ascending(after) {
                assert forall|j: int| 0 <= j < old_map@.len() implies seq_less(
                    #[trigger] old_map@[j].0,
                    p,
                ) by {
                    assert(paths_ascending(before));
                    assert(snapshot_at(old_map@, before, j));
                    assert(before[j] == after[j]);
                    assert(seq_less(path_of(after[j]), path_of(after[i as int])));
                }
            }
            }
        }
        let key = rec.path.clone();
        map.insert(key, rec);
        proof {
            assert forall|k: Seq<char>| #[trigger] map.lookup(k) is None <==> last_with_path(
                after,
                k,
            ) < 0 by {
                if k != p {
                    assert(last_with_path(after, k) == last_with_path(before, k));
                }
            }
            assert forall|k: Seq<char>| last_with_path(after, k) >= 0 implies (
            #[trigger] map.lookup(k) matches Some(r) && snapshot_decoded(after[last_with_path(after, k)], r)) by {
                if k != p {
                    assert(last_with_path(after, k) == last_with_path(before, k));
                    lemma_last_with_path_range(before, k);
                    assert(before[last_with_path(before, k)] == after[last_with_path(before, k)]);
                }
            }
            if paths_ascending(after) {
                assert(paths_ascending(before));
                assert(map@ == old_map@.push((p, rv)));
                assert forall|j: int| 0 <= j < after.len() implies #[trigger] snapshot_at(
                    map@,
                    after,
                    j,
                ) by {
                    if j < i {
                        assert(before[j] == after[j]);
                        assert(map@[j] == old_map@[j]);
                        assert(snapshot_at(old_map@, before, j));
                    } else {
                        assert(map@[j] == (p, rv));
                    }
                }
            }
            assert(snapshots_error(after) is None);
            assert(snapshot_decoded(after[i as int], rv));
            assert(path_of(after.last()) == p);
            assert(last_with_path(after, p) == i);
            assert(map.lookup(p) == Some(rv));
            assert(paths_ascending(after) ==> map@.len() == after.len());
            assert(snapshots_decoded(after, map));
        }
        i = i + 1;
    }
    assert(iv.take(i as int) =~= iv);
    Ok(map)
}

/// The first error among change records.
pub open spec fn changes_error(items: Seq<JsonView>) -> Option<Seq<char>> {
    first_error(items, |v: JsonView| change_error(v))
}

/// Reads change records, in order; the first unreadable one is the error.
pub fn parse_change_records(items: &Vec<JsonValue>, fallback_session_id: &str) -> (r: Result<
    Vec<ChangeRecord>,
    ForgeError,
>)
    ensures
        match changes_error(items_view(items@)) {
            Some(m) => r matches Err(ForgeError::InvalidConfiguration(mm)) && mm@ == m,
            None => r matches Ok(out) && out@.len() == items@.len() && forall|i: int|
                0 <= i < items@.len() ==> change_decoded(
                    items@[i]@,
                    #[trigger] out@[i],
                    fallback_session_id@,
                ),
        },
{
    let ghost iv = items_view(items@);
    let mut out: Vec<ChangeRecord> = Vec::new();
    let mut i: usize = 0;
    while i < items.len()
        invariant
            i <= items@.len(),
            iv == items_view(items@),
            changes_error(iv.take(i as int)) is None,
            out@.len() == i,
            forall|j: int|
                0 <= j < i ==> change_decoded(items@[j]@, #[trigger] out@[j], fallback_session_id@),
        decreases items.len() - i,
    {
        assert(iv.take(i + 1).drop_last() =~= iv.take(i as int));
        assert(iv.take(i + 1).last() == items@[i as int]@);
        match parse_change_record(&items[i], fallback_session_id) {
            Ok(x) => {
                out.push(x);
            },
            Err(e) => {
                proof {
                    lemma_first_error_stays(iv, |v: JsonView| change_error(v), i as int, iv.len() as int);
                    assert(iv.take(iv.len() as int) =~= iv);
                }
                return Err(e);
            },
        }
        i = i + 1;
    }
    assert(iv.take(i as int) =~= iv);
    Ok(out)
}

/// The strings are strictly ascending.
pub open spec fn strings_ascending(ss: Seq<Seq<char>>) -> bool {
    forall|i: int, j: int| 0 <= i < j < ss.len() ==> seq_less(#[trigger] ss[i], #[trigger] ss[j])
}

/// `set` holds exactly the strings; written in order, it holds them in
/// that order.
pub open spec fn paths_decoded(ss: Seq<Seq<char>>, set: PathSet) -> bool {
    &&& forall|p: Seq<char>| #[trigger] set.has(p) <==> ss.contains(p)
    &&& strings_ascending(ss) ==> set@ == ss
}

/// The set of the string items of an array.
pub fn path_set_of(items: &Vec<JsonValue>) -> (r: PathSet)
    ensures
        paths_decoded(strings_of(items_view(items@)), r),
{
    let strings = crate::json::string_items(items);
    proof {
        assert(items@.map_values(|x: JsonValue| x@) =~= items_view(items@));
    }
    let ghost ss = strings_of(items_view(items@));
    let mut set = PathSet::new();
    let mut i: usize = 0;
    while i < strings.len()
        invariant
            i <= strings@.len(),
            strings@.map_values(|s: String| s@) == ss,
            forall|p: Seq<char>| #[trigger] set.has(p) <==> ss.take(i as int).contains(p),
            strings_ascending(ss) ==> set@ == ss.take(i as int),
        decreases strings.len() - i,
    {
        let ghost before = ss.take(i as int);
        let ghost after = ss.take(i + 1);
        assert(after =~= before.push(ss[i as int]));
        assert(strings@[i as int]@ == ss[i as int]);
        proof {
            if strings_ascending(ss) {
                assert forall|j: int| 0 <= j < set@.len() implies seq_less(
                    #[trigger] set@[j],
                    ss[i as int],
                ) by {
                    assert(set@[j] == ss[j]);
                }
            }
        }
        set.insert(strings[i].clone());
        proof {
            assert forall|p: Seq<char>| #[trigger] set.has(p) <==> after.contains(p) by {
                if p == ss[i as int] {
                    assert(after[i as int] == p);
                } else {
                    if before.contains(p) {
                        let k = choose|k: int| 0 <= k < before.len() && before[k] == p;
                        assert(after[k] == p);
                    }
                    if after.contains(p) {
                        let k = choose|k: int| 0 <= k < after.len() && after[k] == p;
                        assert(before[k] == p);
                    }
                }
            }
        }
        i = i + 1;
    }
    assert(ss.take(i as int) =~= ss);
    set
}

/// The status text a state file gives (`Initializing` where absent).
pub open spec fn status_text_of(v: JsonView) -> Seq<char> {
    match str_of(get_field(v, "status"@)) {
        Some(t) => t,
        None => "Initializing"@,
    }
}

/// The mode a state file gives: one of the four names, else `Edit`.
pub open spec fn mode_of(v: JsonView) -> ExecutionMode {
    match str_of(get_field(v, "mode"@)) {
        Some(t) => if t == "analysis"@ {
            ExecutionMode::Analysis
        } else if t == "edit"@ {
            ExecutionMode::Edit
        } else if t == "fix"@ {
            ExecutionMode::Fix
        } else if t == "batch"@ {
            ExecutionMode::Batch
        } else {
            ExecutionMode::Edit
        },
        None => ExecutionMode::Edit,
    }
}

/// Why a state file's value cannot be read into a state, if it cannot
/// (apart from the state hash, checked last).
pub open spec fn state_error(v: JsonView) -> Option<Seq<char>> {
    let records = array_of(get_field(v, "files_read"@));
    let changes = array_of(get_field(v, "change_history"@));
    let report = get_field(v, "last_validation_report"@);
    let snaps = array_of(get_field(v, "snapshots"@));
    if !(v is Object) {
        Some("State file must contain a JSON object"@)
    } else if str_of(get_field(v, "session_id"@)) is None {
        Some("Missing session_id"@)
    } else if u64_of(get_field(v, "iteration"@)) is None {
        Some("Missing iteration"@)
    } else if !known_status(status_text_of(v)) {
        Some("Unknown session status '"@ + status_text_of(v) + "'"@)
    } else if records is Some && records_error(records->0) is Some {
        records_error(records->0)
    } else if changes is Some && changes_error(changes->0) is Some {
        changes_error(changes->0)
    } else if report is Some && report_error(report->0) is Some {
        report_error(report->0)
    } else if snaps is Some && snapshots_error(snaps->0) is Some {
        snapshots_error(snaps->0)
    } else {
        None
    }
}

/// The fields of `st` are what the state file value `v` holds, with the
/// defaults a missing field takes.
pub open spec fn state_fields_decoded(v: JsonView, st: AgentState) -> bool {
    let sid = str_of(get_field(v, "session_id"@))->0;
    &&& st.session_id@ == sid
    &&& st.iteration == (u64_of(get_field(v, "iteration"@))->0) as u32
    &&& st.max_iterations == (match u64_of(get_field(v, "max_iterations"@)) {
        Some(n) => n,
        None => 10,
    }) as u32
    &&& st.task@ == match str_of(get_field(v, "task"@)) {
        Some(t) => t,
        None => Seq::empty(),
    }
    &&& st.mode == mode_of(v)
    &&& status_name(st.status) == status_text_of(v)
    &&& match array_of(get_field(v, "files_written"@)) {
        Some(items) => paths_decoded(strings_of(items), st.files_written),
        None => st.files_written@.len() == 0,
    }
    &&& match array_of(get_field(v, "files_read"@)) {
        Some(items) => records_decoded(items, st.files_read),
        None => st.files_read@.len() == 0,
    }
    &&& match array_of(get_field(v, "change_history"@)) {
        Some(items) => st.change_history@.len() == items.len() && forall|i: int|
            0 <= i < items.len() ==> change_decoded(items[i], #[trigger] st.change_history@[i], sid),
        None => st.change_history@.len() == 0,
    }
    &&& opt_reason_view(st.completion_reason) == str_of(get_field(v, "completion_reason"@))
    &&& match get_field(v, "last_validation_report"@) {
        Some(r) => st.last_validation_report matches Some(rep) && report_decoded(r, rep),
        None => st.last_validation_report is None,
    }
    &&& opt_string_view(st.previous_hash) == str_of(get_field(v, "previous_hash"@))
    &&& match array_of(get_field(v, "snapshots"@)) {
        Some(items) => snapshots_decoded(items, st.snapshots),
        None => st.snapshots@.len() == 0,
    }
    &&& st.pending_validations@.map_values(|s: String| s@) == match array_of(
        get_field(v, "pending_validations"@),
    ) {
        Some(items) => strings_of(items),
        None => Seq::empty(),
    }
    &&& st.cardinality_violations == match u64_of(get_field(v, "cardinality_violations"@)) {
        Some(n) => n as u32,
        None => 0,
    }
    &&& !st.has_hash_mismatch
}

fn mode_from(v: &JsonValue) -> (m: ExecutionMode)
    ensures
        m == mode_of(v@),
{
    match v.get("mode") {
        Some(x) => match x.as_str() {
            Some(t) => if str_eq(t, "analysis") {
                ExecutionMode::Analysis
            } else if str_eq(t, "edit") {
                ExecutionMode::Edit
            } else if str_eq(t, "fix") {
                ExecutionMode::Fix
            } else if str_eq(t, "batch") {
                ExecutionMode::Batch
            } else {
                ExecutionMode::Edit
            },
            None => ExecutionMode::Edit,
        },
        None => ExecutionMode::Edit,
    }
}

fn read_files_written(v: &JsonValue) -> (r: PathSet)
    ensures
        match array_of(get_field(v@, "files_written"@)) {
            Some(items) => paths_decoded(strings_of(items), r),
            None => r@.len() == 0,
        },
{
    match opt_array_field(v, "files_written") {
        Some(items) => path_set_of(items),
        None => PathSet::new(),
    }
}

fn read_files_read(v: &JsonValue) -> (r: Result<PathMap<FileRecord>, ForgeError>)
    ensures
        match array_of(get_field(v@, "files_read"@)) {
            Some(items) => match records_error(items) {
                Some(m) => r matches Err(ForgeError::InvalidConfiguration(mm)) && mm@ == m,
                None => r matches Ok(map) && records_decoded(items, map),
            },
            None => r matches Ok(map) && map@.len() == 0,
        },
{
    match opt_array_field(v, "files_read") {
        Some(items) => parse_file_records(items),
        None => Ok(PathMap::new()),
    }
}

fn read_snapshots(v: &JsonValue) -> (r: Result<PathMap<FileSnapshot>, ForgeError>)
    ensures
        match array_of(get_field(v@, "snapshots"@)) {
            Some(items) => match snapshots_error(items) {
                Some(m) => r matches Err(ForgeError::InvalidConfiguration(mm)) && mm@ == m,
                None => r matches Ok(map) && snapshots_decoded(items, map),
            },
            None => r matches Ok(map) && map@.len() == 0,
        },
{
    match opt_array_field(v, "snapshots") {
        Some(items) => parse_snapshots(items),
        None => Ok(PathMap::new()),
    }
}

fn read_changes(v: &JsonValue, sid: &str) -> (r: Result<Vec<ChangeRecord>, ForgeError>)
    ensures
        match array_of(get_field(v@, "change_history"@)) {
            Some(items) => match changes_error(items) {
                Some(m) => r matches Err(ForgeError::InvalidConfiguration(mm)) && mm@ == m,
                None => r matches Ok(cs) && cs@.len() == items.len() && forall|i: int|
                    0 <= i < items.len() ==> change_decoded(items[i], #[trigger] cs@[i], sid@),
            },
            None => r matches Ok(cs) && cs@.len() == 0,
        },
{
    match opt_array_field(v, "change_history") {
        Some(items) => {
            let r = parse_change_records(items, sid);
            proof {
                assert forall|i: int| 0 <= i < items@.len() implies items_view(items@)[i]
                    == items@[i]@ by {}
            }
            r
        },
        None => Ok(Vec::new()),
    }
}

fn read_report(v: &JsonValue) -> (r: Result<Option<ValidationReport>, ForgeError>)
    ensures
        match get_field(v@, "last_validation_report"@) {
            Some(x) => match report_error(x) {
                Some(m) => r matches Err(ForgeError::InvalidConfiguration(mm)) && mm@ == m,
                None => r matches Ok(Some(rep)) && report_decoded(x, rep),
            },
            None => r matches Ok(None),
        },
{
    match v.get("last_validation_report") {
        Some(x) => match parse_validation_report(x) {
            Ok(rep) => Ok(Some(rep)),
            Err(e) => Err(e),
        },
        None => Ok(None),
    }
}

fn read_pending(v: &JsonValue) -> (r: Vec<String>)
    ensures
        r@.map_values(|s: String| s@) == match array_of(get_field(v@, "pending_validations"@)) {
            Some(items) => strings_of(items),
            None => Seq::empty(),
        },
{
    match opt_array_field(v, "pending_validations") {
        Some(items) => {
            let ps = crate::json::string_items(items);
            proof {
                assert(items@.map_values(|x: JsonValue| x@) =~= items_view(items@));
            }
            ps
        },
        None => {
            let ps: Vec<String> = Vec::new();
            assert(ps@.map_values(|s: String| s@) =~= Seq::empty());
            ps
        },
    }
}

impl AgentState {
    /// Rebuilds a state from the value of a state file: each field read as
    /// written, with defaults for the optional ones; a stored state hash
    /// must match the hash of what was read, and is kept.
    #[verifier::rlimit(40)]
    pub fn from_json_value(v: &JsonValue) -> (r: Result<AgentState, ForgeError>)
        ensures
            match state_error(v@) {
                Some(m) => r matches Err(ForgeError::InvalidConfiguration(mm)) && mm@ == m,
                None => match r {
                    Ok(st) => {
                        &&& state_fields_decoded(v@, st)
                        &&& st.state_hash@ == match str_of(get_field(v@, "state_hash"@)) {
                            Some(h) => h,
                            None => crate::state::expected_hash(&st),
                        }
                        &&& st.integrity_holds()
                    },
                    Err(e) => {
                        &&& e matches ForgeError::StateCorruption(m) && m@
                            == "Persisted state hash does not match reconstructed state"@
                        &&& str_of(get_field(v@, "state_hash"@)) matches Some(h) && exists|
                            st2: AgentState,
                        |
                            #[trigger] state_fields_decoded(v@, st2) && h != crate::state::expected_hash(
                                &st2,
                            )
                    },
                },
            },
    {
        if !v.is_object() {
            return Err(invalid("State file must contain a JSON object"));
        }
        let session_id = match req_str(v, "session_id", "Missing session_id") {
            Ok(s) => s,
            Err(e) => {
                return Err(e);
            },
        };
        let iteration = match req_u64(v, "iteration", "Missing iteration") {
            Ok(n) => n,
            Err(e) => {
                return Err(e);
            },
        };
        let max_iterations = match opt_u64_field(v, "max_iterations") {
            Some(n) => n,
            None => 10,
        };
        let status_text = match opt_str_field(v, "status") {
            Some(t) => t,
            None => to_owned_string("Initializing"),
        };
        let status = match crate::state::parse_session_status(status_text.as_str()) {
            Ok(s) => s,
            Err(e) => {
                return Err(e);
            },
        };
        let files_written = read_files_written(v);
        let files_read = match read_files_read(v) {
            Ok(m) => m,
            Err(e) => {
                return Err(e);
            },
        };
        let change_history = match read_changes(v, session_id.as_str()) {
            Ok(c) => c,
            Err(e) => {
                return Err(e);
            },
        };
        let completion_reason = match opt_str_field(v, "completion_reason") {
            Some(t) => Some(crate::types::CompletionReason::new(t.as_str())),
            None => None,
        };
        let last_validation_report = match read_report(v) {
            Ok(rep) => rep,
            Err(e) => {
                return Err(e);
            },
        };
        let previous_hash = opt_str_field(v, "previous_hash");
        let snapshots = match read_snapshots(v) {
            Ok(m) => m,
            Err(e) => {
                return Err(e);
            },
        };
        let task = match opt_str_field(v, "task") {
            Some(t) => t,
            None => String::new(),
        };
        let mode = mode_from(v);
        let pending_validations = read_pending(v);
        let cardinality_violations = match opt_u64_field(v, "cardinality_violations") {
            Some(n) => n as u32,
            None => 0,
        };
        let mut state = AgentState {
            session_id: SessionId::from_string(session_id),
            iteration: iteration as u32,
            max_iterations: max_iterations as u32,
            task,
            mode,
            status,
            files_written,
            files_read,
            change_history,
            completion_reason,
            last_validation_report,
            state_hash: String::new(),
            previous_hash,
            snapshots,
            pending_validations,
            cardinality_violations,
            has_hash_mismatch: false,
        };
        let expected = crate::state::compute_hash(&state);
        let stored = opt_str_field(v, "state_hash");
        assert(state_fields_decoded(v@, state));
        match stored {
            Some(h) => {
                if !str_eq(h.as_str(), expected.as_str()) {
                    return Err(ForgeError::StateCorruption(to_owned_string(
                        "Persisted state hash does not match reconstructed state",
                    )));
                }
                state.state_hash = h;
            },
            None => {
                state.state_hash = expected;
            },
        }
        Ok(state)
    }
}

// ---------------------------------------------------------------------------
// Reading back what was written
// ---------------------------------------------------------------------------

proof fn lemma_record_json_fields(r: FileRecord)
    ensures
        get_field(record_json(r), "path"@) == Some(JsonView::Str(r.path@)),
        get_field(record_json(r), "content_hash"@) == Some(JsonView::Str(r.content_hash@)),
        get_field(record_json(r), "size_bytes"@) == Some(JsonView::Uint(r.size_bytes)),
        get_field(record_json(r), "total_lines"@) == Some(JsonView::Uint(r.total_lines as u64)),
        get_field(record_json(r), "lines_read"@) == Some(match r.lines_read {
            Some((o, l)) => JsonView::Array(seq![JsonView::Uint(o as u64), JsonView::Uint(l as u64)]),
            None => JsonView::Null,
        }),
        get_field(record_json(r), "is_full_read"@) == Some(JsonView::Bool(r.is_full_read)),
        get_field(record_json(r), "read_at_iteration"@) == Some(
            JsonView::Uint(r.read_at_iteration as u64),
        ),
        get_field(record_json(r), "content"@) == Some(opt_str_json(opt_view(r.content))),
{
    reveal_strlit("path");
    reveal_strlit("content_hash");
    reveal_strlit("size_bytes");
    reveal_strlit("total_lines");
    reveal_strlit("lines_read");
    reveal_strlit("is_full_read");
    reveal_strlit("read_at_iteration");
    reveal_strlit("content");
    assert("path"@.len() == 4 && "path"@[0] == 'p');
    assert("content_hash"@.len() == 12 && "content_hash"@[0] == 'c');
    assert("size_bytes"@.len() == 10 && "size_bytes"@[0] == 's');
    assert("total_lines"@.len() == 11 && "total_lines"@[0] == 't');
    assert("lines_read"@.len() == 10 && "lines_read"@[0] == 'l');
    assert("is_full_read"@.len() == 12 && "is_full_read"@[0] == 'i');
    assert("read_at_iteration"@.len() == 17 && "read_at_iteration"@[0] == 'r');
    assert("content"@.len() == 7 && "content"@[0] == 'c');
    reveal_with_fuel(field_of, 9);
}

proof fn lemma_snapshot_json_fields(sn: FileSnapshot)
    ensures
        get_field(snapshot_json(sn), "path"@) == Some(JsonView::Str(sn.path@)),
        get_field(snapshot_json(sn), "content"@) == Some(JsonView::Str(sn.content@)),
        get_field(snapshot_json(sn), "content_hash"@) == Some(JsonView::Str(sn.content_hash@)),
        get_field(snapshot_json(sn), "captured_at"@) == Some(JsonView::Uint(sn.captured_at)),
{
    reveal_strlit("path");
    reveal_strlit("content");
    reveal_strlit("content_hash");
    reveal_strlit("captured_at");
    assert("path"@.len() == 4 && "path"@[0] == 'p');
    assert("content"@.len() == 7 && "content"@[0] == 'c');
    assert("content_hash"@.len() == 12 && "content_hash"@[0] == 'c');
    assert("captured_at"@.len() == 11 && "captured_at"@[0] == 'c');
    reveal_with_fuel(field_of, 5);
}

proof fn lemma_stage_json_fields(r: ValidationStageResult)
    ensures
        get_field(stage_json(r), "stage"@) == Some(JsonView::Str(stage_text(r.stage))),
        get_field(stage_json(r), "passed"@) == Some(JsonView::Bool(r.passed)),
        get_field(stage_json(r), "message"@) == Some(JsonView::Str(r.message@)),
        get_field(stage_json(r), "execution_time_ms"@) == Some(JsonView::Uint(r.execution_time_ms)),
{
    reveal_strlit("stage");
    reveal_strlit("passed");
    reveal_strlit("message");
    reveal_strlit("execution_time_ms");
    assert("stage"@.len() == 5 && "stage"@[0] == 's');
    assert("passed"@.len() == 6 && "passed"@[0] == 'p');
    assert("message"@.len() == 7 && "message"@[0] == 'm');
    assert("execution_time_ms"@.len() == 17 && "execution_time_ms"@[0] == 'e');
    reveal_with_fuel(field_of, 5);
}

proof fn lemma_report_json_fields(r: ValidationReportView)
    ensures
        get_field(report_json(r), "decision"@) == Some(JsonView::Str(decision_text(r.decision))),
        get_field(report_json(r), "stage_results"@) == Some(JsonView::Array(r.stage_results.map_values(|x: ValidationStageResult| stage_json(x)))),
        get_field(report_json(r), "message"@) == Some(JsonView::Str(r.message)),
        get_field(report_json(r), "requires_revert"@) == Some(JsonView::Bool(r.requires_revert)),
{
    reveal_strlit("decision");
    reveal_strlit("stage_results");
    reveal_strlit("message");
    reveal_strlit("requires_revert");
    assert("decision"@.len() == 8 && "decision"@[0] == 'd');
    assert("stage_results"@.len() == 13 && "stage_results"@[0] == 's');
    assert("message"@.len() == 7 && "message"@[0] == 'm');
    assert("requires_revert"@.len() == 15 && "requires_revert"@[0] == 'r');
    reveal_with_fuel(field_of, 5);
}

proof fn lemma_mutation_json_fields(m: MutationView)
    ensures
        get_field(mutation_json(m), "path"@) == Some(JsonView::Str(m.path)),
        get_field(mutation_json(m), "mutation_type"@) == Some(JsonView::Str(mutation_type_text(m.mutation_type))),
        get_field(mutation_json(m), "content_hash_before"@) == Some(opt_str_json(m.content_hash_before)),
        get_field(mutation_json(m), "content_hash_after"@) == Some(opt_str_json(m.content_hash_after)),
{
    reveal_strlit("path");
    reveal_strlit("mutation_type");
    reveal_strlit("content_hash_before");
    reveal_strlit("content_hash_after");
    assert("path"@.len() == 4 && "path"@[0] == 'p');
    assert("mutation_type"@.len() == 13 && "mutation_type"@[0] == 'm');
    assert("content_hash_before"@.len() == 19 && "content_hash_before"@[0] == 'c');
    assert("content_hash_after"@.len() == 18 && "content_hash_after"@[0] == 'c');
    reveal_with_fuel(field_of, 5);
}

proof fn lemma_change_json_fields(c: ChangeRecordView)
    ensures
        get_field(change_json(c), "session_id"@) == Some(JsonView::Str(c.session_id)),
        get_field(change_json(c), "iteration"@) == Some(JsonView::Uint(c.iteration as u64)),
        get_field(change_json(c), "timestamp"@) == Some(JsonView::Uint(c.timestamp)),
        get_field(change_json(c), "mutation"@) == Some(mutation_json(c.mutation)),
        get_field(change_json(c), "validation_report"@) == Some(report_json(c.validation_report)),
{
    reveal_strlit("session_id");
    reveal_strlit("iteration");
    reveal_strlit("timestamp");
    reveal_strlit("mutation");
    reveal_strlit("validation_report");
    assert("session_id"@.len() == 10 && "session_id"@[0] == 's');
    assert("iteration"@.len() == 9 && "iteration"@[0] == 'i');
    assert("timestamp"@.len() == 9 && "timestamp"@[0] == 't');
    assert("mutation"@.len() == 8 && "mutation"@[0] == 'm');
    assert("validation_report"@.len() == 17 && "validation_report"@[0] == 'v');
    reveal_with_fuel(field_of, 6);
}

proof fn lemma_state_json_fields(st: AgentState)
    ensures
        get_field(state_json(st), "session_id"@) == Some(JsonView::Str(st.session_id@)),
        get_field(state_json(st), "iteration"@) == Some(JsonView::Uint(st.iteration as u64)),
        get_field(state_json(st), "max_iterations"@) == Some(JsonView::Uint(st.max_iterations as u64)),
        get_field(state_json(st), "task"@) == Some(JsonView::Str(st.task@)),
        get_field(state_json(st), "mode"@) == Some(JsonView::Str(mode_name(st.mode))),
        get_field(state_json(st), "status"@) == Some(JsonView::Str(status_name(st.status))),
        get_field(state_json(st), "files_written"@) == Some(JsonView::Array(st.files_written@.map_values(|p: Seq<char>| JsonView::Str(p)))),
        get_field(state_json(st), "files_read"@) == Some(JsonView::Array(st.files_read@.map_values(|e: (Seq<char>, FileRecord)| record_json(e.1)))),
        get_field(state_json(st), "change_history"@) == Some(JsonView::Array(changes_view(st.change_history@).map_values(|c: ChangeRecordView| change_json(c)))),
        get_field(state_json(st), "completion_reason"@) == Some(opt_str_json(opt_reason_view(st.completion_reason))),
        get_field(state_json(st), "last_validation_report"@) == Some(match opt_report_view(st.last_validation_report) {
            Some(r) => report_json(r),
            None => JsonView::Null,
        }),
        get_field(state_json(st), "previous_hash"@) == Some(opt_str_json(opt_string_view(st.previous_hash))),
        get_field(state_json(st), "snapshots"@) == Some(JsonView::Array(st.snapshots@.map_values(|e: (Seq<char>, FileSnapshot)| snapshot_json(e.1)))),
        get_field(state_json(st), "pending_validations"@) == Some(JsonView::Array(st.pending_validations@.map_values(|s: String| JsonView::Str(s@)))),
        get_field(state_json(st), "cardinality_violations"@) == Some(JsonView::Uint(st.cardinality_violations as u64)),
        get_field(state_json(st), "state_hash"@) == Some(JsonView::Str(st.state_hash@)),
{
    reveal_strlit("session_id");
    reveal_strlit("iteration");
    reveal_strlit("max_iterations");
    reveal_strlit("task");
    reveal_strlit("mode");
    reveal_strlit("status");
    reveal_strlit("files_written");
    reveal_strlit("files_read");
    reveal_strlit("change_history");
    reveal_strlit("completion_reason");
    reveal_strlit("last_validation_report");
    reveal_strlit("previous_hash");
    reveal_strlit("snapshots");
    reveal_strlit("pending_validations");
    reveal_strlit("cardinality_violations");
    reveal_strlit("state_hash");
    assert("session_id"@.len() == 10 && "session_id"@[0] == 's' && "session_id"@[1] == 'e');
    assert("iteration"@.len() == 9 && "iteration"@[0] == 'i');
    assert("max_iterations"@.len() == 14 && "max_iterations"@[0] == 'm');
    assert("task"@.len() == 4 && "task"@[0] == 't');
    assert("mode"@.len() == 4 && "mode"@[0] == 'm');
    assert("status"@.len() == 6 && "status"@[0] == 's');
    assert("files_written"@.len() == 13 && "files_written"@[0] == 'f');
    assert("files_read"@.len() == 10 && "files_read"@[0] == 'f');
    assert("change_history"@.len() == 14 && "change_history"@[0] == 'c');
    assert("completion_reason"@.len() == 17 && "completion_reason"@[0] == 'c');
    assert("last_validation_report"@.len() == 22 && "last_validation_report"@[0] == 'l');
    assert("previous_hash"@.len() == 13 && "previous_hash"@[0] == 'p');
    assert("snapshots"@.len() == 9 && "snapshots"@[0] == 's');
    assert("pending_validations"@.len() == 19 && "pending_validations"@[0] == 'p');
    assert("cardinality_violations"@.len() == 22 && "cardinality_violations"@[0] == 'c');
    assert("state_hash"@.len() == 10 && "state_hash"@[0] == 's' && "state_hash"@[1] == 't');
    reveal_with_fuel(field_of, 17);
}

proof fn lemma_no_first_error(items: Seq<JsonView>, err: spec_fn(JsonView) -> Option<Seq<char>>)
    requires
        forall|i: int| 0 <= i < items.len() ==> err(#[trigger] items[i]) is None,
    ensures
        first_error(items, err) is None,
    decreases items.len(),
{
    if items.len() > 0 {
        let rest = items.drop_last();
        assert forall|i: int| 0 <= i < rest.len() implies err(#[trigger] rest[i]) is None by {
            assert(rest[i] == items[i]);
        }
        lemma_no_first_error(rest, err);
        assert(err(items[items.len() - 1]) is None);
    }
}

proof fn lemma_strings_of_strs(ss: Seq<Seq<char>>)
    ensures
        strings_of(ss.map_values(|p: Seq<char>| JsonView::Str(p))) == ss,
    decreases ss.len(),
{
    if ss.len() > 0 {
        let items = ss.map_values(|p: Seq<char>| JsonView::Str(p));
        assert(items.drop_last() =~= ss.drop_last().map_values(|p: Seq<char>| JsonView::Str(p)));
        lemma_strings_of_strs(ss.drop_last());
        assert(ss.drop_last().push(ss.last()) =~= ss);
    }
}

proof fn lemma_record_roundtrip(r: FileRecord, r2: FileRecord)
    ensures
        record_error(record_json(r)) is None,
        record_decoded(record_json(r), r2) ==> record_json(r2) == record_json(r) && r2.path@ == r.path@,
{
    lemma_record_json_fields(r);
    if record_decoded(record_json(r), r2) {
        assert(r2.lines_read == r.lines_read);
        assert(opt_view(r2.content) == opt_view(r.content));
        assert(r2.total_lines == r.total_lines);
        assert(r2.read_at_iteration == r.read_at_iteration);
    }
}

proof fn lemma_snapshot_roundtrip(sn: FileSnapshot, sn2: FileSnapshot)
    ensures
        snapshot_error(snapshot_json(sn)) is None,
        snapshot_decoded(snapshot_json(sn), sn2) ==> snapshot_json(sn2) == snapshot_json(sn)
            && sn2.path@ == sn.path@,
{
    lemma_snapshot_json_fields(sn);
}

proof fn lemma_stage_roundtrip(r: ValidationStageResult, r2: ValidationStageResult)
    ensures
        stage_error(stage_json(r)) is None,
        stage_decoded(stage_json(r), r2) ==> stage_json(r2) == stage_json(r),
{
    lemma_stage_json_fields(r);
    assert(known_stage(stage_text(r.stage)));
}

proof fn lemma_report_roundtrip(rv: ValidationReportView, rep2: ValidationReport)
    ensures
        report_error(report_json(rv)) is None,
        report_decoded(report_json(rv), rep2) ==> report_json(rep2@) == report_json(rv),
{
    lemma_report_json_fields(rv);
    let items = rv.stage_results.map_values(|x: ValidationStageResult| stage_json(x));
    assert forall|i: int| 0 <= i < items.len() implies stage_error(#[trigger] items[i]) is None by {
        lemma_stage_roundtrip(rv.stage_results[i], rv.stage_results[i]);
    }
    lemma_no_first_error(items, |v: JsonView| stage_error(v));
    assert(stages_error(items) is None);
    assert(known_decision(decision_text(rv.decision)));
    if report_decoded(report_json(rv), rep2) {
        assert forall|i: int| 0 <= i < rv.stage_results.len() implies stage_json(
            #[trigger] rep2.stage_results@[i],
        ) == stage_json(rv.stage_results[i]) by {
            assert(stage_decoded(items[i], rep2.stage_results@[i]));
            lemma_stage_roundtrip(rv.stage_results[i], rep2.stage_results@[i]);
        }
        assert(rep2@.stage_results.map_values(|x: ValidationStageResult| stage_json(x)) =~= items);
    }
}

proof fn lemma_change_roundtrip(cv: ChangeRecordView, c2: ChangeRecord, sid: Seq<char>)
    ensures
        change_error(change_json(cv)) is None,
        change_decoded(change_json(cv), c2, sid) ==> change_json(c2@) == change_json(cv),
{
    lemma_change_json_fields(cv);
    lemma_mutation_json_fields(cv.mutation);
    lemma_report_roundtrip(cv.validation_report, c2.validation_report);
    assert(known_mutation_type(mutation_type_text(cv.mutation.mutation_type)));
    if change_decoded(change_json(cv), c2, sid) {
        assert(mutation_json(c2.mutation@) == mutation_json(cv.mutation));
    }
}

/// Reading back the JSON form of a state gives the state back: the same
/// fields, the same hashed contents, so the stored state hash is accepted.
/// This holds of every intact state whose maps are keyed by their entries'
/// paths (as recording a read or a snapshot keys them) and that carries a
/// validation report (a missing report is written as `null`, which does not
/// read back as a report).
pub proof fn law_load_gives_back_saved_state(st: AgentState, loaded: AgentState)
    requires
        st.integrity_holds(),
        st.last_validation_report is Some,
        crate::collections::keys_sorted(st.files_read@),
        crate::collections::keys_sorted(st.snapshots@),
        strings_ascending(st.files_written@),
        forall|i: int| 0 <= i < st.files_read@.len() ==> (#[trigger] st.files_read@[i]).0 == st.files_read@[i].1.path@,
        forall|i: int| 0 <= i < st.snapshots@.len() ==> (#[trigger] st.snapshots@[i]).0 == st.snapshots@[i].1.path@,
        state_fields_decoded(state_json(st), loaded),
    ensures
        state_error(state_json(st)) is None,
        loaded.session_id@ == st.session_id@,
        loaded.iteration == st.iteration,
        loaded.max_iterations == st.max_iterations,
        loaded.task@ == st.task@,
        loaded.mode == st.mode,
        loaded.status == st.status,
        loaded.files_written@ == st.files_written@,
        loaded.files_read@.len() == st.files_read@.len(),
        loaded.change_history@.len() == st.change_history@.len(),
        opt_reason_view(loaded.completion_reason) == opt_reason_view(st.completion_reason),
        opt_string_view(loaded.previous_hash) == opt_string_view(st.previous_hash),
        loaded.snapshots@.len() == st.snapshots@.len(),
        loaded.pending_validations@.map_values(|s: String| s@) == st.pending_validations@.map_values(
            |s: String| s@,
        ),
        loaded.cardinality_violations == st.cardinality_violations,
        crate::state::hash_material(&loaded) == crate::state::hash_material(&st),
        crate::state::expected_hash(&loaded) == st.state_hash@,
{
    let v = state_json(st);
    lemma_state_json_fields(st);
    // status and mode
    assert(known_status(status_name(st.status)));
    crate::state::law_status_names_distinct(loaded.status, st.status);
    reveal_strlit("analysis");
    reveal_strlit("edit");
    reveal_strlit("fix");
    reveal_strlit("batch");
    assert("analysis"@.len() == 8 && "edit"@.len() == 4 && "fix"@.len() == 3 && "batch"@.len() == 5);
    // file records
    let recs = st.files_read@.map_values(|e: (Seq<char>, FileRecord)| record_json(e.1));
    assert forall|i: int| 0 <= i < recs.len() implies record_error(#[trigger] recs[i]) is None by {
        lemma_record_roundtrip(st.files_read@[i].1, st.files_read@[i].1);
    }
    lemma_no_first_error(recs, |x: JsonView| record_error(x));
    assert(paths_ascending(recs)) by {
        assert forall|i: int, j: int| 0 <= i < j < recs.len() implies seq_less(
            path_of(#[trigger] recs[i]),
            path_of(#[trigger] recs[j]),
        ) by {
            lemma_record_json_fields(st.files_read@[i].1);
            lemma_record_json_fields(st.files_read@[j].1);
        }
    }
    assert forall|i: int| 0 <= i < st.files_read@.len() implies record_json(
        (#[trigger] loaded.files_read@[i]).1,
    ) == record_json(st.files_read@[i].1) by {
        assert(record_at(loaded.files_read@, recs, i));
        lemma_record_roundtrip(st.files_read@[i].1, loaded.files_read@[i].1);
    }
    assert(loaded.files_read@.map_values(|e: (Seq<char>, FileRecord)| record_json(e.1)) =~= recs);
    // snapshots
    let snaps = st.snapshots@.map_values(|e: (Seq<char>, FileSnapshot)| snapshot_json(e.1));
    assert forall|i: int| 0 <= i < snaps.len() implies snapshot_error(#[trigger] snaps[i]) is None by {
        lemma_snapshot_roundtrip(st.snapshots@[i].1, st.snapshots@[i].1);
    }
    lemma_no_first_error(snaps, |x: JsonView| snapshot_error(x));
    assert(paths_ascending(snaps)) by {
        assert forall|i: int, j: int| 0 <= i < j < snaps.len() implies seq_less(
            path_of(#[trigger] snaps[i]),
            path_of(#[trigger] snaps[j]),
        ) by {
            lemma_snapshot_json_fields(st.snapshots@[i].1);
            lemma_snapshot_json_fields(st.snapshots@[j].1);
        }
    }
    assert forall|i: int| 0 <= i < st.snapshots@.len() implies snapshot_json(
        (#[trigger] loaded.snapshots@[i]).1,
    ) == snapshot_json(st.snapshots@[i].1) by {
        assert(snapshot_at(loaded.snapshots@, snaps, i));
        lemma_snapshot_roundtrip(st.snapshots@[i].1, loaded.snapshots@[i].1);
    }
    assert(loaded.snapshots@.map_values(|e: (Seq<char>, FileSnapshot)| snapshot_json(e.1)) =~= snaps);
    // change history
    let cvs = changes_view(st.change_history@);
    let chs = cvs.map_values(|c: ChangeRecordView| change_json(c));
    assert forall|i: int| 0 <= i < chs.len() implies change_error(#[trigger] chs[i]) is None by {
        lemma_change_roundtrip(cvs[i], st.change_history@[i], st.session_id@);
    }
    lemma_no_first_error(chs, |x: JsonView| change_error(x));
    assert forall|i: int| 0 <= i < cvs.len() implies change_json(
        #[trigger] changes_view(loaded.change_history@)[i],
    ) == change_json(cvs[i]) by {
        assert(change_decoded(chs[i], loaded.change_history@[i], st.session_id@));
        lemma_change_roundtrip(cvs[i], loaded.change_history@[i], st.session_id@);
    }
    assert(changes_view(loaded.change_history@).map_values(|c: ChangeRecordView| change_json(c)) =~= chs);
    // validation report
    let rep = st.last_validation_report->0;
    lemma_report_roundtrip(rep@, loaded.last_validation_report->0);
    // plain lists
    lemma_strings_of_strs(st.files_written@);
    assert(st.pending_validations@.map_values(|s: String| JsonView::Str(s@)) =~= st.pending_validations@.map_values(
        |s: String| s@,
    ).map_values(|p: Seq<char>| JsonView::Str(p)));
    lemma_strings_of_strs(st.pending_validations@.map_values(|s: String| s@));
    assert(state_error(v) is None);
    assert(loaded.pending_validations@.map_values(|s: String| JsonView::Str(s@)) =~= loaded.pending_validations@.map_values(
        |s: String| s@,
    ).map_values(|p: Seq<char>| JsonView::Str(p)));
    assert(loaded.files_written@.map_values(|p: Seq<char>| JsonView::Str(p)) =~= st.files_written@.map_values(|p: Seq<char>| JsonView::Str(p)));
    assert(material_fields(loaded) =~= material_fields(st));
    assert(crate::state::hash_material(&loaded) =~= crate::state::hash_material(&st));
}

impl AgentState {
    /// A state may be saved as a chain checkpoint only when it is an intact
    /// validated resume point.
    pub fn checkpoint_allowed(&self) -> (r: Result<(), ForgeError>)
        ensures
            !self.integrity_holds() ==> (r matches Err(ForgeError::StateCorruption(m)) && m@
                == "State hash mismatch - possible tampering"@),
            self.integrity_holds() && !self.validated_checkpoint() ==> (r matches Err(
                ForgeError::ValidationFailed(m),
            ) && m@ == "Cannot save checkpoint before accepted validation"@),
            r is Ok <==> self.integrity_holds() && self.validated_checkpoint(),
    {
        if !self.is_validated_checkpoint()? {
            return Err(ForgeError::ValidationFailed(to_owned_string(
                "Cannot save checkpoint before accepted validation",
            )));
        }
        Ok(())
    }

    /// A loaded state is accepted as a resume point only when it is an
    /// intact validated checkpoint; `from_checkpoint` says whether it came
    /// from a chain checkpoint or from the default state file.
    pub fn into_resume_point(self, from_checkpoint: bool) -> (r: Result<AgentState, ForgeError>)
        ensures
            !self.integrity_holds() ==> (r matches Err(ForgeError::StateCorruption(m)) && m@
                == "State hash mismatch - possible tampering"@),
            self.integrity_holds() && !self.validated_checkpoint() ==> (r matches Err(
                ForgeError::ValidationFailed(m),
            ) && m@ == if from_checkpoint {
                "Checkpoint is not a validated resume point"@
            } else {
                "Default state is not a validated resume point"@
            }),
            self.integrity_holds() && self.validated_checkpoint() ==> r == Ok::<AgentState, ForgeError>(self),
    {
        if !self.is_validated_checkpoint()? {
            let m = if from_checkpoint {
                "Checkpoint is not a validated resume point"
            } else {
                "Default state is not a validated resume point"
            };
            return Err(ForgeError::ValidationFailed(to_owned_string(m)));
        }
        Ok(self)
    }
}

/// Resuming needs the caller's explicit approval.
pub fn resume_approval(approved: bool) -> (r: Result<(), ForgeError>)
    ensures
        approved <==> r is Ok,
        !approved ==> (r matches Err(ForgeError::InvalidConfiguration(m)) && m@
            == "Resume requires explicit approval"@),
{
    if !approved {
        return Err(ForgeError::InvalidConfiguration(to_owned_string(
            "Resume requires explicit approval",
        )));
    }
    Ok(())
}


/// What accepting `st` as a resume point answers: a hash mismatch, a state
/// that is no validated checkpoint (named after where it came from), or the
/// state itself.
pub open spec fn resume_point_result(
    st: AgentState,
    from_checkpoint: bool,
    r: Result<AgentState, ForgeError>,
) -> bool {
    if !st.integrity_holds() {
        r matches Err(ForgeError::StateCorruption(m)) && m@ == "State hash mismatch - possible tampering"@
    } else if !st.validated_checkpoint() {
        r matches Err(ForgeError::ValidationFailed(m)) && m@ == if from_checkpoint {
            "Checkpoint is not a validated resume point"@
        } else {
            "Default state is not a validated resume point"@
        }
    } else {
        r == Ok::<AgentState, ForgeError>(st)
    }
}

/// Resumes from a saved state.  Without the caller's approval it refuses
/// before anything is loaded; with it, it loads the state through `load`
/// (the checkpoint when `from_checkpoint`, else the default state file)
/// and accepts it only as an intact validated checkpoint.
pub fn resume_with<F>(approved: bool, from_checkpoint: bool, load: F) -> (r: Result<AgentState, ForgeError>) where
    F: FnOnce() -> Result<AgentState, ForgeError>,

    requires
        approved ==> load.requires(()),
    ensures
        !approved ==> (r matches Err(ForgeError::InvalidConfiguration(m)) && m@
            == "Resume requires explicit approval"@),
        approved ==> exists|loaded: Result<AgentState, ForgeError>|
            #[trigger] load.ensures((), loaded) && match loaded {
                Err(e) => r == Err::<AgentState, ForgeError>(e),
                Ok(st) => resume_point_result(st, from_checkpoint, r),
            },
{
    resume_approval(approved)?;
    let loaded = load();
    match loaded {
        Err(e) => Err(e),
        Ok(st) => {
            let ghost saved = st;
            let r = st.into_resume_point(from_checkpoint);
            assert(resume_point_result(saved, from_checkpoint, r));
            r
        },
    }
}

} // verus!

//! Agent session state with a hash chain over its auditable contents.
//!
//! Every change to the state records the previous state hash and recomputes
//! the hash over the compact JSON text of the state's hashed fields
//! (`hash_material`), so `verify_integrity` rejects a state whose stored
//! hash does not match its contents.
use crate::collections::{PathMap, PathSet, has_key};
use crate::hashing::{compute_content_hash, content_hash};
use crate::json::{json_text, write_json};
use crate::state_json::material_json;
use crate::state_material::{execution_mode_name, session_status_name, status_name};
use crate::text::{decimal, push_char, push_decimal, push_str, to_owned_string};
use crate::types::{
    ChangeRecord, ChangeRecordView, CompletionReason, ExecutionMode, FileRecord, FileSnapshot,
    ForgeError, Mutation, MutationType, SessionId, SessionStatus, ValidationDecision,
    ValidationReport, ValidationReportView, mode_name, timestamp_now,
};
use vstd::prelude::*;

verus! {

/// Complete session state.
#[derive(Debug)]
pub struct AgentState {
    pub session_id: SessionId,
    pub iteration: u32,
    pub max_iterations: u32,
    pub task: String,
    pub mode: ExecutionMode,
    pub status: SessionStatus,
    pub files_written: PathSet,
    pub files_read: PathMap<FileRecord>,
    pub change_history: Vec<ChangeRecord>,
    pub completion_reason: Option<CompletionReason>,
    /// Most recent validation report, including step-level validation.
    pub last_validation_report: Option<ValidationReport>,
    pub state_hash: String,
    pub previous_hash: Option<String>,
    /// Snapshots for revert operations
    pub snapshots: PathMap<FileSnapshot>,
    /// Files awaiting validation
    pub pending_validations: Vec<String>,
    /// Patch failures due to multiple matches
    pub cardinality_violations: u32,
    /// Whether a stored state hash failed to match on load
    pub has_hash_mismatch: bool,
}

pub open spec fn changes_view(cs: Seq<ChangeRecord>) -> Seq<ChangeRecordView> {
    cs.map_values(|c: ChangeRecord| c@)
}

pub open spec fn opt_report_view(r: Option<ValidationReport>) -> Option<ValidationReportView> {
    match r {
        Some(v) => Some(v@),
        None => None,
    }
}

pub open spec fn opt_reason_view(r: Option<CompletionReason>) -> Option<Seq<char>> {
    match r {
        Some(v) => Some(v@),
        None => None,
    }
}

pub open spec fn opt_string_view(r: Option<String>) -> Option<Seq<char>> {
    match r {
        Some(v) => Some(v@),
        None => None,
    }
}

/// The text the state hash covers: the compact JSON text of every hashed
/// field of the state (all fields but `state_hash` and
/// `has_hash_mismatch`), keys in ascending order.
pub open spec fn hash_material(st: &AgentState) -> Seq<char> {
    json_text(material_json(*st))
}

/// The hash that `state_hash` must hold for the state to be intact.
pub open spec fn expected_hash(st: &AgentState) -> Seq<char> {
    content_hash(hash_material(st))
}

/// Which status changes the session lifecycle allows: from `Initializing`
/// to `Running`, `Error` or `Halted`; from `Running` to `Complete`, `Error`
/// or `Halted`; nothing out of a terminal status.
pub open spec fn valid_transition(from: SessionStatus, to: SessionStatus) -> bool {
    match (from, to) {
        (SessionStatus::Initializing, SessionStatus::Running) => true,
        (SessionStatus::Initializing, SessionStatus::Error) => true,
        (SessionStatus::Initializing, SessionStatus::Halted) => true,
        (SessionStatus::Running, SessionStatus::Complete) => true,
        (SessionStatus::Running, SessionStatus::Error) => true,
        (SessionStatus::Running, SessionStatus::Halted) => true,
        _ => false,
    }
}

/// A terminal status: nothing leaves it.
pub open spec fn is_terminal(s: SessionStatus) -> bool {
    s == SessionStatus::Complete || s == SessionStatus::Error || s == SessionStatus::Halted
}

/// Whether the session may move from `from` to `to`.
pub fn is_valid_transition(from: SessionStatus, to: SessionStatus) -> (r: bool)
    ensures
        r == valid_transition(from, to),
{
    match (from, to) {
        (SessionStatus::Initializing, SessionStatus::Running) => true,
        (SessionStatus::Initializing, SessionStatus::Error) => true,
        (SessionStatus::Initializing, SessionStatus::Halted) => true,
        (SessionStatus::Running, SessionStatus::Complete) => true,
        (SessionStatus::Running, SessionStatus::Error) => true,
        (SessionStatus::Running, SessionStatus::Halted) => true,
        _ => false,
    }
}

/// Writes the text the state hash covers.
pub fn state_hash_material(st: &AgentState) -> (r: String)
    ensures
        r@ == hash_material(st),
{
    let v = st.material_value();
    let mut out = String::new();
    write_json(&mut out, &v);
    assert(out@ =~= hash_material(st));
    out
}

/// The hash of the state's hashed fields.
pub fn compute_hash(st: &AgentState) -> (r: String)
    ensures
        r@ == expected_hash(st),
{
    let material = state_hash_material(st);
    compute_content_hash(material.as_str())
}

impl AgentState {
    /// The stored hash matches the state's contents.
    pub open spec fn integrity_holds(&self) -> bool {
        self.state_hash@ == expected_hash(self)
    }

    /// `self` is `old` after one link of the hash chain: the old hash is
    /// recorded as previous, and the new hash covers the new contents.
    pub open spec fn rehashed_from(&self, old: &AgentState) -> bool {
        &&& self.previous_hash == Some(old.state_hash)
        &&& self.integrity_holds()
    }

    /// The fields that no operation but the named ones changes are equal.
    pub open spec fn same_contents(&self, other: &AgentState) -> bool {
        &&& self.session_id == other.session_id
        &&& self.iteration == other.iteration
        &&& self.max_iterations == other.max_iterations
        &&& self.task == other.task
        &&& self.mode == other.mode
        &&& self.status == other.status
        &&& self.files_written@ == other.files_written@
        &&& self.files_read@ == other.files_read@
        &&& changes_view(self.change_history@) == changes_view(other.change_history@)
        &&& opt_reason_view(self.completion_reason) == opt_reason_view(other.completion_reason)
        &&& opt_report_view(self.last_validation_report) == opt_report_view(
            other.last_validation_report,
        )
        &&& self.snapshots@ == other.snapshots@
        &&& self.pending_validations@ == other.pending_validations@
        &&& self.cardinality_violations == other.cardinality_violations
        &&& self.has_hash_mismatch == other.has_hash_mismatch
    }

    /// A fresh session: `Initializing`, nothing recorded, hash chain started.
    pub fn new(max_iterations: u32, task: String, mode: ExecutionMode) -> (r: Self)
        ensures
            r.iteration == 0,
            r.max_iterations == max_iterations,
            r.task == task,
            r.mode == mode,
            r.status == SessionStatus::Initializing,
            r.files_written@.len() == 0,
            r.files_read@.len() == 0,
            r.change_history@.len() == 0,
            r.completion_reason is None,
            r.last_validation_report is None,
            r.previous_hash is None,
            r.snapshots@.len() == 0,
            r.pending_validations@.len() == 0,
            r.cardinality_violations == 0,
            !r.has_hash_mismatch,
            r.integrity_holds(),
    {
        let mut state = AgentState {
            session_id: SessionId::new(),
            iteration: 0,
            max_iterations,
            task,
            mode,
            status: SessionStatus::Initializing,
            files_written: PathSet::new(),
            files_read: PathMap::new(),
            change_history: Vec::new(),
            completion_reason: None,
            last_validation_report: None,
            state_hash: String::new(),
            previous_hash: None,
            snapshots: PathMap::new(),
            pending_validations: Vec::new(),
            cardinality_violations: 0,
            has_hash_mismatch: false,
        };
        state.state_hash = compute_hash(&state);
        state
    }

    /// Records the current hash as previous and rehashes.
    fn update_hash_chain(&mut self)
        ensures
            final(self).rehashed_from(&*old(self)),
            final(self).same_contents(&*old(self)),
    {
        let prev = self.state_hash.clone();
        self.previous_hash = Some(prev);
        self.state_hash = compute_hash(&*self);
    }

    /// Moves to `new_status` when the lifecycle allows it.
    pub fn transition(&mut self, new_status: SessionStatus) -> (r: Result<(), ForgeError>)
        ensures
            r is Ok <==> valid_transition(old(self).status, new_status),
            r is Ok ==> final(self).status == new_status && final(self).rehashed_from(
                &*old(self),
            ) && final(self).same_contents(&AgentState { status: new_status, ..*old(self) }),
            r is Err ==> *final(self) == *old(self) && r == Err::<(), ForgeError>(
                ForgeError::InvalidStateTransition { from: old(self).status, to: new_status },
            ),
    {
        if !is_valid_transition(self.status, new_status) {
            return Err(ForgeError::InvalidStateTransition { from: self.status, to: new_status });
        }
        self.status = new_status;
        self.update_hash_chain();
        Ok(())
    }

    /// Starts the session (`Initializing` to `Running`).
    pub fn start(&mut self) -> (r: Result<(), ForgeError>)
        ensures
            r is Ok <==> old(self).status == SessionStatus::Initializing,
            r is Ok ==> final(self).status == SessionStatus::Running && final(self).rehashed_from(
                &*old(self),
            ),
            r is Err ==> *final(self) == *old(self),
    {
        self.transition(SessionStatus::Running)
    }

    /// Completes the session with `reason` (from `Running`).  The reason is
    /// recorded even when the transition is refused.
    pub fn complete(&mut self, reason: CompletionReason) -> (r: Result<(), ForgeError>)
        ensures
            r is Ok <==> old(self).status == SessionStatus::Running,
            opt_reason_view(final(self).completion_reason) == Some(reason@),
            r is Ok ==> final(self).status == SessionStatus::Complete && final(self).previous_hash
                == Some(old(self).state_hash) && final(self).integrity_holds(),
            r is Err ==> final(self).status == old(self).status && final(self).state_hash
                == old(self).state_hash,
    {
        self.completion_reason = Some(reason);
        self.transition(SessionStatus::Complete)
    }

    /// Marks the session as failed.
    pub fn error(&mut self) -> (r: Result<(), ForgeError>)
        ensures
            r is Ok <==> !is_terminal(old(self).status),
            r is Ok ==> final(self).status == SessionStatus::Error && final(self).rehashed_from(
                &*old(self),
            ),
            r is Err ==> *final(self) == *old(self),
    {
        self.transition(SessionStatus::Error)
    }

    /// Halts the session (fatal error).
    pub fn halt(&mut self) -> (r: Result<(), ForgeError>)
        ensures
            r is Ok <==> !is_terminal(old(self).status),
            r is Ok ==> final(self).status == SessionStatus::Halted && final(self).rehashed_from(
                &*old(self),
            ),
            r is Err ==> *final(self) == *old(self),
    {
        self.transition(SessionStatus::Halted)
    }

    /// Advances the iteration counter, never past `max_iterations`.
    pub fn next_iteration(&mut self) -> (r: Result<(), ForgeError>)
        ensures
            r is Ok <==> old(self).iteration < old(self).max_iterations,
            r is Ok ==> final(self).iteration == old(self).iteration + 1,
            r is Ok ==> final(self).rehashed_from(&*old(self)),
            r is Ok ==> final(self).same_contents(
                &AgentState { iteration: (old(self).iteration + 1) as u32, ..*old(self) },
            ),
            r is Err ==> *final(self) == *old(self) && (r matches Err(
                ForgeError::InvalidConfiguration(m),
            ) && m@ == "Max iterations ("@ + decimal(old(self).max_iterations as nat)
                + ") exceeded"@),
    {
        if self.iteration >= self.max_iterations {
            let mut msg = to_owned_string("Max iterations (");
            push_decimal(&mut msg, self.max_iterations as u64);
            push_str(&mut msg, ") exceeded");
            return Err(ForgeError::InvalidConfiguration(msg));
        }
        self.iteration = self.iteration + 1;
        self.update_hash_chain();
        Ok(())
    }

    /// Verifies that the stored hash matches the state's contents.
    pub fn verify_integrity(&self) -> (r: Result<(), ForgeError>)
        ensures
            r is Ok <==> self.integrity_holds(),
            r is Err ==> (r matches Err(ForgeError::StateCorruption(m)) && m@
                == "State hash mismatch - possible tampering"@),
    {
        let expected = compute_hash(self);
        if !crate::text::str_eq(self.state_hash.as_str(), expected.as_str()) {
            return Err(
                ForgeError::StateCorruption(
                    to_owned_string("State hash mismatch - possible tampering"),
                ),
            );
        }
        Ok(())
    }

    /// Records accepted mutations: each becomes a change record, and writes
    /// and patches join the written set.  Refused unless the report accepts.
    pub fn commit(&mut self, report: &ValidationReport, mutations: &[Mutation]) -> (r: Result<
        (),
        ForgeError,
    >)
        ensures
            r is Ok <==> report.decision == ValidationDecision::Accept,
            r is Err ==> *final(self) == *old(self) && (r matches Err(
                ForgeError::ValidationFailed(m),
            ) && m@ == "Cannot commit rejected mutations"@),
            r is Ok ==> final(self).rehashed_from(&*old(self)),
            r is Ok ==> opt_report_view(final(self).last_validation_report) == Some(report@),
            r is Ok ==> exists|t: u64|
                changes_view(final(self).change_history@) == changes_view(
                    old(self).change_history@,
                ) + committed_changes(
                    old(self).session_id@,
                    old(self).iteration,
                    t,
                    mutations@,
                    report@,
                ),
            r is Ok ==> forall|p: Seq<char>|
                final(self).files_written.has(p) == (old(self).files_written.has(p)
                    || writes_path(mutations@, p)),
            r is Ok ==> final(self).files_read@ == old(self).files_read@ && final(self).snapshots@
                == old(self).snapshots@ && final(self).status == old(self).status && final(self).iteration == old(self).iteration,
    {
        if report.decision != ValidationDecision::Accept {
            return Err(ForgeError::ValidationFailed(to_owned_string("Cannot commit rejected mutations")));
        }
        let timestamp = timestamp_now();
        self.last_validation_report = Some(report.clone());
        let ghost old_changes = changes_view(self.change_history@);
        let ghost old_written = self.files_written;
        let mut i: usize = 0;
        while i < mutations.len()
            invariant
                i <= mutations@.len(),
                self.session_id == old(self).session_id,
                self.state_hash == old(self).state_hash,
                self.iteration == old(self).iteration,
                self.status == old(self).status,
                self.files_read@ == old(self).files_read@,
                self.snapshots@ == old(self).snapshots@,
                opt_report_view(self.last_validation_report) == Some(report@),
                old_changes == changes_view(old(self).change_history@),
                changes_view(self.change_history@) == old_changes + committed_changes(
                    self.session_id@,
                    self.iteration,
                    timestamp,
                    mutations@.take(i as int),
                    report@,
                ),
                forall|p: Seq<char>|
                    self.files_written.has(p) == (old(self).files_written.has(p) || writes_path(
                        mutations@.take(i as int),
                        p,
                    )),
            decreases mutations.len() - i,
        {
            let mutation = &mutations[i];
            let ghost before_written = self.files_written;
            if matches!(mutation.mutation_type, MutationType::Write | MutationType::Patch) {
                self.files_written.insert(mutation.path.clone());
            }
            let ghost before = self.change_history@;
            self.change_history.push(
                ChangeRecord {
                    session_id: self.session_id.clone(),
                    iteration: self.iteration,
                    timestamp,
                    mutation: mutation.clone(),
                    validation_report: report.clone(),
                },
            );
            proof {
                assert(mutations@.take(i + 1).drop_last() =~= mutations@.take(i as int));
                assert(changes_view(self.change_history@) =~= changes_view(before).push(
                    self.change_history@.last()@,
                ));
                assert(committed_changes(
                    self.session_id@,
                    self.iteration,
                    timestamp,
                    mutations@.take(i + 1),
                    report@,
                ) =~= committed_changes(
                    self.session_id@,
                    self.iteration,
                    timestamp,
                    mutations@.take(i as int),
                    report@,
                ).push(self.change_history@.last()@));
                assert forall|p: Seq<char>|
                    self.files_written.has(p) == (old(self).files_written.has(p) || writes_path(
                        mutations@.take(i + 1),
                        p,
                    )) by {
                    lemma_writes_path_push(mutations@.take(i as int), mutations@[i as int], p);
                    assert(mutations@.take(i + 1) =~= mutations@.take(i as int).push(
                        mutations@[i as int],
                    ));
                }
            }
            i = i + 1;
        }
        proof {
            assert(mutations@.take(mutations@.len() as int) =~= mutations@);
        }
        self.update_hash_chain();
        Ok(())
    }

    /// Adds `path` to the written set.
    pub fn record_file_written(&mut self, path: String)
        ensures
            final(self).files_written.has(path@),
            forall|p: Seq<char>|
                p != path@ ==> final(self).files_written.has(p) == old(self).files_written.has(p),
            final(self).previous_hash == Some(old(self).state_hash),
            final(self).integrity_holds(),
            final(self).files_read@ == old(self).files_read@,
            changes_view(final(self).change_history@) == changes_view(old(self).change_history@),
    {
        self.files_written.insert(path);
        self.update_hash_chain();
    }

    /// Records a read; a later read of the same path replaces the earlier.
    pub fn record_file_read(&mut self, record: FileRecord)
        ensures
            final(self).files_read.lookup(record.path@) == Some(record),
            forall|p: Seq<char>|
                p != record.path@ ==> final(self).files_read.lookup(p) == old(self).files_read.lookup(
                    p,
                ),
            final(self).previous_hash == Some(old(self).state_hash),
            final(self).integrity_holds(),
            final(self).files_written@ == old(self).files_written@,
            changes_view(final(self).change_history@) == changes_view(old(self).change_history@),
    {
        let key = record.path.clone();
        self.files_read.insert(key, record);
        self.update_hash_chain();
    }

    /// The record of the last read of `path`, if it was read.
    pub fn get_file_record(&self, path: &str) -> (r: Option<&FileRecord>)
        ensures
            r matches Some(rec) ==> self.files_read.lookup(path@) == Some(*rec),
            r is None ==> self.files_read.lookup(path@) is None,
    {
        self.files_read.get(path)
    }

    /// Whether `path` was read in full (required for patching).
    pub fn is_file_fully_read(&self, path: &str) -> (r: bool)
        ensures
            r == (self.files_read.lookup(path@) matches Some(rec) && rec.is_full_read),
    {
        match self.files_read.get(path) {
            Some(rec) => rec.is_full_read,
            None => false,
        }
    }

    /// Captures `content` of `path` for a later revert.
    pub fn capture_snapshot(&mut self, path: &str, content: &str)
        ensures
            final(self).snapshots.lookup(path@) matches Some(snap) && snap.path@ == path@
                && snap.content@ == content@ && snap.content_hash@ == content_hash(content@),
            forall|p: Seq<char>|
                p != path@ ==> final(self).snapshots.lookup(p) == old(self).snapshots.lookup(p),
            final(self).previous_hash == Some(old(self).state_hash),
            final(self).integrity_holds(),
            final(self).files_read@ == old(self).files_read@,
            final(self).files_written@ == old(self).files_written@,
    {
        let snapshot = FileSnapshot::new(path, content);
        self.snapshots.insert(to_owned_string(path), snapshot);
        self.update_hash_chain();
    }

    /// The snapshot of `path`, if one was captured.
    pub fn get_snapshot(&self, path: &str) -> (r: Option<&FileSnapshot>)
        ensures
            r matches Some(snap) ==> self.snapshots.lookup(path@) == Some(*snap),
            r is None ==> self.snapshots.lookup(path@) is None,
    {
        self.snapshots.get(path)
    }

    /// Drops the snapshot of `path` after a successful commit.
    pub fn clear_snapshot(&mut self, path: &str)
        ensures
            final(self).snapshots.lookup(path@) is None,
            forall|p: Seq<char>|
                p != path@ ==> final(self).snapshots.lookup(p) == old(self).snapshots.lookup(p),
            final(self).previous_hash == Some(old(self).state_hash),
            final(self).integrity_holds(),
            final(self).files_read@ == old(self).files_read@,
            final(self).files_written@ == old(self).files_written@,
    {
        self.snapshots.remove(path);
        self.update_hash_chain();
    }

    /// Records an accepted step-level validation even without a mutation.
    pub fn mark_validated(&mut self, report: ValidationReport) -> (r: Result<(), ForgeError>)
        ensures
            r is Ok <==> report.decision == ValidationDecision::Accept,
            r is Err ==> *final(self) == *old(self) && (r matches Err(
                ForgeError::ValidationFailed(m),
            ) && m@ == "Only accepted validation reports can mark state validated"@),
            r is Ok ==> opt_report_view(final(self).last_validation_report) == Some(report@),
            r is Ok ==> final(self).rehashed_from(&*old(self)),
            r is Ok ==> final(self).files_written@ == old(self).files_written@ && final(self).files_read@ == old(self).files_read@ && changes_view(final(self).change_history@)
                == changes_view(old(self).change_history@) && final(self).status == old(self).status,
    {
        if report.decision != ValidationDecision::Accept {
            return Err(
                ForgeError::ValidationFailed(
                    to_owned_string("Only accepted validation reports can mark state validated"),
                ),
            );
        }
        self.last_validation_report = Some(report);
        self.update_hash_chain();
        Ok(())
    }

    /// A validated resume point: intact, nothing pending, and the last
    /// validation accepted.
    pub open spec fn validated_checkpoint(&self) -> bool {
        &&& self.pending_validations@.len() == 0
        &&& self.last_validation_report matches Some(rep) && rep.decision
            == ValidationDecision::Accept
    }

    /// Whether this state may serve as a resume checkpoint; an error when
    /// its integrity check fails.
    pub fn is_validated_checkpoint(&self) -> (r: Result<bool, ForgeError>)
        ensures
            r is Err <==> !self.integrity_holds(),
            r is Err ==> (r matches Err(ForgeError::StateCorruption(m)) && m@
                == "State hash mismatch - possible tampering"@),
            r matches Ok(b) ==> b == self.validated_checkpoint(),
    {
        self.verify_integrity()?;
        let ok = self.pending_validations.len() == 0 && match &self.last_validation_report {
            Some(rep) => rep.decision == ValidationDecision::Accept,
            None => false,
        };
        Ok(ok)
    }

    /// The state for the next chain step: same session and auditable
    /// history, a fresh iteration count, `Running`, linked to this state's
    /// hash.  Refused unless this state is an intact validated checkpoint.
    pub fn continue_chain_step(&self, task: String, max_iterations: u32, mode: ExecutionMode) -> (r:
        Result<Self, ForgeError>)
        ensures
            !self.integrity_holds() ==> (r matches Err(ForgeError::StateCorruption(_))),
            self.integrity_holds() && !self.validated_checkpoint() ==> (r matches Err(
                ForgeError::ValidationFailed(m),
            ) && m@ == "Cannot continue chain from an unvalidated state"@),
            r is Ok <==> self.integrity_holds() && self.validated_checkpoint(),
            r matches Ok(n) ==> n.session_id == self.session_id && n.iteration == 0
                && n.max_iterations == max_iterations && n.task == task && n.mode == mode
                && n.status == SessionStatus::Running && n.files_written@ == self.files_written@
                && n.files_read@ == self.files_read@ && changes_view(n.change_history@)
                == changes_view(self.change_history@) && n.completion_reason is None
                && opt_report_view(n.last_validation_report) == opt_report_view(
                self.last_validation_report,
            ) && n.previous_hash == Some(self.state_hash) && n.snapshots@ == self.snapshots@
                && n.pending_validations@.len() == 0 && n.cardinality_violations
                == self.cardinality_violations && !n.has_hash_mismatch && n.integrity_holds(),
    {
        if !self.is_validated_checkpoint()? {
            return Err(
                ForgeError::ValidationFailed(
                    to_owned_string("Cannot continue chain from an unvalidated state"),
                ),
            );
        }
        let mut state = AgentState {
            session_id: self.session_id.clone(),
            iteration: 0,
            max_iterations,
            task,
            mode,
            status: SessionStatus::Running,
            files_written: self.files_written.duplicate(),
            files_read: self.files_read.duplicate(),
            change_history: clone_changes(&self.change_history),
            completion_reason: None,
            last_validation_report: clone_opt_report(&self.last_validation_report),
            state_hash: String::new(),
            previous_hash: Some(self.state_hash.clone()),
            snapshots: self.snapshots.duplicate(),
            pending_validations: Vec::new(),
            cardinality_violations: self.cardinality_violations,
            has_hash_mismatch: false,
        };
        state.state_hash = compute_hash(&state);
        Ok(state)
    }
}

/// A copy of a change history.
pub fn clone_changes(cs: &Vec<ChangeRecord>) -> (r: Vec<ChangeRecord>)
    ensures
        changes_view(r@) == changes_view(cs@),
{
    let mut out: Vec<ChangeRecord> = Vec::new();
    let mut i: usize = 0;
    while i < cs.len()
        invariant
            i <= cs@.len(),
            changes_view(out@) == changes_view(cs@.take(i as int)),
        decreases cs.len() - i,
    {
        let c = cs[i].clone();
        let ghost before = out@;
        out.push(c);
        assert(changes_view(out@) =~= changes_view(cs@.take(i + 1))) by {
            assert(out@ == before.push(c));
            assert(cs@.take(i + 1) == cs@.take(i as int).push(cs@[i as int]));
            assert(changes_view(before.push(c)) =~= changes_view(before).push(c@));
            assert(changes_view(cs@.take(i as int).push(cs@[i as int])) =~= changes_view(
                cs@.take(i as int),
            ).push(cs@[i as int]@));
        }
        i = i + 1;
    }
    assert(cs@.take(cs@.len() as int) =~= cs@);
    out
}

/// A copy of an optional validation report.
pub fn clone_opt_report(r: &Option<ValidationReport>) -> (o: Option<ValidationReport>)
    ensures
        opt_report_view(o) == opt_report_view(*r),
{
    match r {
        Some(v) => Some(v.clone()),
        None => None,
    }
}

/// The change records that `commit` appends for `mutations`.
pub open spec fn committed_changes(
    session: Seq<char>,
    iteration: u32,
    timestamp: u64,
    mutations: Seq<Mutation>,
    report: ValidationReportView,
) -> Seq<ChangeRecordView> {
    mutations.map_values(
        |m: Mutation|
            ChangeRecordView {
                session_id: session,
                iteration,
                timestamp,
                mutation: m@,
                validation_report: report,
            },
    )
}

/// Some mutation writes or patches `p`.
pub open spec fn writes_path(mutations: Seq<Mutation>, p: Seq<char>) -> bool {
    exists|j: int|
        0 <= j < mutations.len() && mutations[j].path@ == p && (mutations[j].mutation_type
            == MutationType::Write || mutations[j].mutation_type == MutationType::Patch)
}

proof fn lemma_writes_path_push(ms: Seq<Mutation>, m: Mutation, p: Seq<char>)
    ensures
        writes_path(ms.push(m), p) == (writes_path(ms, p) || (m.path@ == p && (m.mutation_type
            == MutationType::Write || m.mutation_type == MutationType::Patch))),
{
    let ms2 = ms.push(m);
    if writes_path(ms, p) {
        let j = choose|j: int|
            0 <= j < ms.len() && ms[j].path@ == p && (ms[j].mutation_type == MutationType::Write
                || ms[j].mutation_type == MutationType::Patch);
        assert(ms2[j] == ms[j]);
    }
    if m.path@ == p && (m.mutation_type == MutationType::Write || m.mutation_type
        == MutationType::Patch) {
        assert(ms2[ms.len() as int] == m);
    }
    if writes_path(ms2, p) {
        let j = choose|j: int|
            0 <= j < ms2.len() && ms2[j].path@ == p && (ms2[j].mutation_type
                == MutationType::Write || ms2[j].mutation_type == MutationType::Patch);
        if j < ms.len() {
            assert(ms[j] == ms2[j]);
        }
    }
}

/// Nothing leaves a terminal status.
pub proof fn law_terminal_status_is_final(from: SessionStatus, to: SessionStatus)
    requires
        is_terminal(from),
    ensures
        !valid_transition(from, to),
{
}

/// A session starts running, errs or halts from initialising, and
/// completes, errs or halts while running; it cannot complete without
/// having run, and nothing else moves it.
pub proof fn law_allowed_transitions(from: SessionStatus, to: SessionStatus)
    ensures
        valid_transition(from, to) <==> ((from == SessionStatus::Initializing && (to
            == SessionStatus::Running || to == SessionStatus::Error || to == SessionStatus::Halted))
            || (from == SessionStatus::Running && (to == SessionStatus::Complete || to
            == SessionStatus::Error || to == SessionStatus::Halted))),
{
}

/// Position of a status in the lifecycle.
pub open spec fn lifecycle_rank(s: SessionStatus) -> int {
    match s {
        SessionStatus::Initializing => 0,
        SessionStatus::Running => 1,
        _ => 2,
    }
}

/// Every allowed transition moves forward in the lifecycle, so no status
/// is ever re-entered.
pub proof fn law_transitions_move_forward(from: SessionStatus, to: SessionStatus)
    requires
        valid_transition(from, to),
    ensures
        lifecycle_rank(from) < lifecycle_rank(to),
{
}

/// The persisted name of each status parses back to it.
pub fn parse_session_status(raw: &str) -> (r: Result<SessionStatus, ForgeError>)
    ensures
        r matches Ok(s) ==> status_name(s) == raw@,
        r is Err ==> (forall|s: SessionStatus| status_name(s) != raw@) && (r matches Err(
            ForgeError::InvalidConfiguration(m),
        ) && m@ == "Unknown session status '"@ + raw@ + "'"@),
{
    if crate::text::str_eq(raw, "Initializing") {
        Ok(SessionStatus::Initializing)
    } else if crate::text::str_eq(raw, "Running") {
        Ok(SessionStatus::Running)
    } else if crate::text::str_eq(raw, "Complete") {
        Ok(SessionStatus::Complete)
    } else if crate::text::str_eq(raw, "Error") {
        Ok(SessionStatus::Error)
    } else if crate::text::str_eq(raw, "Halted") {
        Ok(SessionStatus::Halted)
    } else {
        let mut m = to_owned_string("Unknown session status '");
        push_str(&mut m, raw);
        push_char(&mut m, '\'');
        proof {
            assert forall|s: SessionStatus| status_name(s) != raw@ by {
                match s {
                    SessionStatus::Initializing => {},
                    SessionStatus::Running => {},
                    SessionStatus::Complete => {},
                    SessionStatus::Error => {},
                    SessionStatus::Halted => {},
                }
            }
        }
        assert(m@ =~= "Unknown session status '"@ + raw@ + "'"@) by {
            reveal_strlit("'");
        }
        Err(ForgeError::InvalidConfiguration(m))
    }
}

/// The first character of each status name.
proof fn lemma_status_name_head(s: SessionStatus)
    ensures
        status_name(s).len() > 0,
        status_name(s)[0] == match s {
            SessionStatus::Initializing => 'I',
            SessionStatus::Running => 'R',
            SessionStatus::Complete => 'C',
            SessionStatus::Error => 'E',
            SessionStatus::Halted => 'H',
        },
{
    match s {
        SessionStatus::Initializing => {
            reveal_strlit("Initializing");
        },
        SessionStatus::Running => {
            reveal_strlit("Running");
        },
        SessionStatus::Complete => {
            reveal_strlit("Complete");
        },
        SessionStatus::Error => {
            reveal_strlit("Error");
        },
        SessionStatus::Halted => {
            reveal_strlit("Halted");
        },
    }
}

/// Distinct statuses have distinct persisted names, so parsing a persisted
/// name gives back the status it was written from.
pub proof fn law_status_names_distinct(a: SessionStatus, b: SessionStatus)
    requires
        status_name(a) == status_name(b),
    ensures
        a == b,
{
    lemma_status_name_head(a);
    lemma_status_name_head(b);
}

} // verus!

//! The names under which the state file and the state hash write the
//! state's enumerations.
use crate::types::{
    ExecutionMode, MutationType, SessionStatus, ValidationDecision, ValidationStage, mode_name,
};
use vstd::prelude::*;

verus! {

/// Persisted name of a session status.
pub open spec fn status_name(s: SessionStatus) -> Seq<char> {
    match s {
        SessionStatus::Initializing => "Initializing"@,
        SessionStatus::Running => "Running"@,
        SessionStatus::Complete => "Complete"@,
        SessionStatus::Error => "Error"@,
        SessionStatus::Halted => "Halted"@,
    }
}

/// Persisted name of a mutation type.
pub open spec fn mutation_type_text(t: MutationType) -> Seq<char> {
    match t {
        MutationType::Write => "Write"@,
        MutationType::Patch => "Patch"@,
        MutationType::Delete => "Delete"@,
        MutationType::Move => "Move"@,
    }
}

/// Persisted name of a validation decision.
pub open spec fn decision_text(d: ValidationDecision) -> Seq<char> {
    match d {
        ValidationDecision::Accept => "Accept"@,
        ValidationDecision::Reject => "Reject"@,
        ValidationDecision::Escalate => "Escalate"@,
    }
}

/// Persisted name of a validation stage.
pub open spec fn stage_text(s: ValidationStage) -> Seq<char> {
    match s {
        ValidationStage::Syntax => "Syntax"@,
        ValidationStage::Format => "Format"@,
        ValidationStage::Lint => "Lint"@,
        ValidationStage::Build => "Build"@,
        ValidationStage::Test => "Test"@,
    }
}

/// Persisted name of a validation stage.
pub fn validation_stage_name(stage: ValidationStage) -> (r: &'static str)
    ensures
        r@ == stage_text(stage),
{
    match stage {
        ValidationStage::Syntax => "Syntax",
        ValidationStage::Format => "Format",
        ValidationStage::Lint => "Lint",
        ValidationStage::Build => "Build",
        ValidationStage::Test => "Test",
    }
}

/// Persisted name of a validation decision.
pub fn validation_decision_name(decision: ValidationDecision) -> (r: &'static str)
    ensures
        r@ == decision_text(decision),
{
    match decision {
        ValidationDecision::Accept => "Accept",
        ValidationDecision::Reject => "Reject",
        ValidationDecision::Escalate => "Escalate",
    }
}

/// Persisted name of a mutation type.
pub fn mutation_type_name(mutation_type: MutationType) -> (r: &'static str)
    ensures
        r@ == mutation_type_text(mutation_type),
{
    match mutation_type {
        MutationType::Write => "Write",
        MutationType::Patch => "Patch",
        MutationType::Delete => "Delete",
        MutationType::Move => "Move",
    }
}

/// Persisted name of a session status.
pub fn session_status_name(status: SessionStatus) -> (r: &'static str)
    ensures
        r@ == status_name(status),
{
    match status {
        SessionStatus::Initializing => "Initializing",
        SessionStatus::Running => "Running",
        SessionStatus::Complete => "Complete",
        SessionStatus::Error => "Error",
        SessionStatus::Halted => "Halted",
    }
}

/// Persisted name of an execution mode.
pub fn execution_mode_name(mode: ExecutionMode) -> (r: &'static str)
    ensures
        r@ == mode_name(mode),
{
    mode.name()
}



/// The names under which states are persisted: statuses Initializing,
/// Running, Complete, Error, Halted; stages Syntax, Format, Lint, Build,
/// Test; decisions Accept, Reject, Escalate; mutation types Write, Patch,
/// Delete, Move; modes analysis, edit, fix, batch.
pub proof fn law_persisted_names()
    ensures
        status_name(SessionStatus::Initializing) == "Initializing"@,
        status_name(SessionStatus::Running) == "Running"@,
        status_name(SessionStatus::Complete) == "Complete"@,
        status_name(SessionStatus::Error) == "Error"@,
        status_name(SessionStatus::Halted) == "Halted"@,
        stage_text(ValidationStage::Syntax) == "Syntax"@,
        stage_text(ValidationStage::Format) == "Format"@,
        stage_text(ValidationStage::Lint) == "Lint"@,
        stage_text(ValidationStage::Build) == "Build"@,
        stage_text(ValidationStage::Test) == "Test"@,
        decision_text(ValidationDecision::Accept) == "Accept"@,
        decision_text(ValidationDecision::Reject) == "Reject"@,
        decision_text(ValidationDecision::Escalate) == "Escalate"@,
        mutation_type_text(MutationType::Write) == "Write"@,
        mutation_type_text(MutationType::Patch) == "Patch"@,
        mutation_type_text(MutationType::Delete) == "Delete"@,
        mutation_type_text(MutationType::Move) == "Move"@,
        mode_name(ExecutionMode::Analysis) == "analysis"@,
        mode_name(ExecutionMode::Edit) == "edit"@,
        mode_name(ExecutionMode::Fix) == "fix"@,
        mode_name(ExecutionMode::Batch) == "batch"@,
{
}

} // verus!

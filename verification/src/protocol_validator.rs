//! Planner protocol validation verdicts: the failure classes that the
//! protocol firewall and the runtime gates report.
use vstd::prelude::*;

verus! {

/// Class of a planner protocol failure.
#[derive(Debug, Clone, Copy, PartialEq, Eq, Structural)]
pub enum ValidationFailureClass {
    InvalidJson,
    SchemaViolation,
    MissingRequiredField,
    ShorthandDetected,
    WrapperSchema,
    IdleAction,
    SemanticViolation,
    CompletionWithoutEvidence,
    VagueCompletionReason,
    CompletionWithPendingValidation,
    CompletionWithKnownErrors,
    PrematureCompletion,
    UnknownTool,
    UnknownField,
    MultipleActions,
    ShellLexemeDetected,
    ModeViolation,
    WriteWithoutRead,
    StaleRead,
    InsufficientReadScope,
}

/// Verdict of the protocol validator on one planner output.
#[derive(Debug, Clone, PartialEq, Eq)]
pub enum ValidationDecision {
    Accept,
    Reject { reason: String, tier: u8, raw_output: String, failure_class: ValidationFailureClass },
    Escalate { reason: String, failure_class: ValidationFailureClass },
}

} // verus!

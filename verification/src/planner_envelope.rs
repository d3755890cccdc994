//! Planner contract firewall: strict classification of planner output
//! before it can reach runtime semantics.
use crate::protocol_validator::{ValidationDecision as ProtocolDecision, ValidationFailureClass};
use crate::text::{decimal, push_decimal, push_str, str_eq, to_owned_string};
use crate::types::{PlannerOutput, ToolName};
use vstd::prelude::*;

verus! {

/// Classification of a planner envelope before runtime processing.
#[derive(Debug, Clone, PartialEq, Eq)]
pub enum PlannerEnvelopeDecision {
    /// Valid tool call, proceed to execution
    AcceptedToolCall { tool: ToolName },
    /// Valid completion claim, evaluate the completion gate
    AcceptedCompletion { reason: String },
    /// Invalid but potentially recoverable, enter the repair loop
    RepairableProtocolViolation { reason: String, failure_class: ValidationFailureClass },
    /// Invalid and unrecoverable, halt immediately
    TerminalProtocolViolation { reason: String, failure_class: ValidationFailureClass },
}

/// Explicit terminal failure classes for structured logging.
#[derive(Debug, Clone, Copy, PartialEq, Eq, Structural)]
pub enum TerminalFailureClass {
    /// Unparseable JSON output
    InvalidJson,
    /// Valid JSON but violates the schema contract
    InvalidSchema,
    /// Tool name not in registry
    UnknownTool,
    /// Required arguments missing
    MissingArguments,
    /// Invalid completion envelope (e.g., completion with pending work)
    InvalidCompletionEnvelope,
    /// Tool call after a terminal condition was reached
    ToolAfterTerminal,
    /// Repeated schema drift after the repair budget was exhausted
    RepairBudgetExhausted,
}

/// Events that make the planner protocol visible to observers.
#[derive(Debug, Clone)]
pub enum PlannerProtocolEvent {
    /// Protocol violation detected
    Violation {
        failure_class: ValidationFailureClass,
        decision: PlannerEnvelopeDecision,
        raw_output_hash: String,
    },
    /// Repair attempt initiated
    RepairAttempt { attempt: u32, max_attempts: u32, repair_prompt: String },
    /// Terminal failure reached
    TerminalFailure {
        failure_class: TerminalFailureClass,
        reason: String,
        final_output_hash: String,
    },
}

pub open spec fn terminal_class_description(c: TerminalFailureClass) -> Seq<char> {
    match c {
        TerminalFailureClass::InvalidJson => "Planner output is not valid JSON"@,
        TerminalFailureClass::InvalidSchema => "Planner output violates schema contract"@,
        TerminalFailureClass::UnknownTool => "Planner requested unknown tool not in registry"@,
        TerminalFailureClass::MissingArguments => "Tool call missing required arguments"@,
        TerminalFailureClass::InvalidCompletionEnvelope => "Completion claim in invalid state"@,
        TerminalFailureClass::ToolAfterTerminal => "Tool call emitted after terminal condition"@,
        TerminalFailureClass::RepairBudgetExhausted => "Max repair attempts exceeded"@,
    }
}

pub open spec fn terminal_class_code(c: TerminalFailureClass) -> Seq<char> {
    match c {
        TerminalFailureClass::InvalidJson => "invalid_json"@,
        TerminalFailureClass::InvalidSchema => "invalid_schema"@,
        TerminalFailureClass::UnknownTool => "unknown_tool"@,
        TerminalFailureClass::MissingArguments => "missing_arguments"@,
        TerminalFailureClass::InvalidCompletionEnvelope => "invalid_completion_envelope"@,
        TerminalFailureClass::ToolAfterTerminal => "tool_after_terminal"@,
        TerminalFailureClass::RepairBudgetExhausted => "repair_budget_exhausted"@,
    }
}

impl TerminalFailureClass {
    /// Whether this failure may enter the repair loop.
    pub fn is_repairable(&self) -> (r: bool)
        ensures
            r == !(*self is UnknownTool || *self is ToolAfterTerminal
                || *self is RepairBudgetExhausted),
    {
        !matches!(
            self,
            TerminalFailureClass::UnknownTool | TerminalFailureClass::ToolAfterTerminal
                | TerminalFailureClass::RepairBudgetExhausted
        )
    }

    /// Human-readable description.
    pub fn description(&self) -> (r: &'static str)
        ensures
            r@ == terminal_class_description(*self),
    {
        match self {
            TerminalFailureClass::InvalidJson => "Planner output is not valid JSON",
            TerminalFailureClass::InvalidSchema => "Planner output violates schema contract",
            TerminalFailureClass::UnknownTool => "Planner requested unknown tool not in registry",
            TerminalFailureClass::MissingArguments => "Tool call missing required arguments",
            TerminalFailureClass::InvalidCompletionEnvelope => "Completion claim in invalid state",
            TerminalFailureClass::ToolAfterTerminal => "Tool call emitted after terminal condition",
            TerminalFailureClass::RepairBudgetExhausted => "Max repair attempts exceeded",
        }
    }

    /// Snake-case code used in structured logs (what `Display` prints).
    pub fn code(&self) -> (r: &'static str)
        ensures
            r@ == terminal_class_code(*self),
    {
        match self {
            TerminalFailureClass::InvalidJson => "invalid_json",
            TerminalFailureClass::InvalidSchema => "invalid_schema",
            TerminalFailureClass::UnknownTool => "unknown_tool",
            TerminalFailureClass::MissingArguments => "missing_arguments",
            TerminalFailureClass::InvalidCompletionEnvelope => "invalid_completion_envelope",
            TerminalFailureClass::ToolAfterTerminal => "tool_after_terminal",
            TerminalFailureClass::RepairBudgetExhausted => "repair_budget_exhausted",
        }
    }
}

/// The failure classes that may be repaired by a retry.
pub open spec fn repairable_failure(c: ValidationFailureClass) -> bool {
    match c {
        ValidationFailureClass::InvalidJson => true,
        ValidationFailureClass::SchemaViolation => true,
        ValidationFailureClass::MissingRequiredField => true,
        ValidationFailureClass::ShorthandDetected => true,
        ValidationFailureClass::WrapperSchema => true,
        ValidationFailureClass::IdleAction => true,
        ValidationFailureClass::SemanticViolation => true,
        ValidationFailureClass::CompletionWithoutEvidence => true,
        ValidationFailureClass::VagueCompletionReason => true,
        ValidationFailureClass::CompletionWithPendingValidation => true,
        ValidationFailureClass::CompletionWithKnownErrors => true,
        ValidationFailureClass::PrematureCompletion => true,
        _ => false,
    }
}

/// The decision on a rejected output within the repair budget: repairable
/// when its class may be repaired by a retry, terminal otherwise.
pub open spec fn rejection_decision(reason: String, c: ValidationFailureClass) -> PlannerEnvelopeDecision {
    if repairable_failure(c) {
        PlannerEnvelopeDecision::RepairableProtocolViolation { reason, failure_class: c }
    } else {
        PlannerEnvelopeDecision::TerminalProtocolViolation { reason, failure_class: c }
    }
}

/// Within the repair budget a rejected output enters the repair loop when
/// it was malformed (invalid JSON, schema violation, missing field,
/// shorthand, wrapper schema), idle, semantically wrong or a premature or
/// unsupported completion claim; it ends the run when it names an unknown
/// tool or field, holds several actions or shell lexemes, breaks the mode,
/// or writes without (a fresh, wide enough) read.  Either way the reason
/// and class are kept.
pub proof fn law_rejection_repairability(reason: String, c: ValidationFailureClass)
    ensures
        c == ValidationFailureClass::InvalidJson || c == ValidationFailureClass::SchemaViolation
            || c == ValidationFailureClass::MissingRequiredField || c
            == ValidationFailureClass::ShorthandDetected || c == ValidationFailureClass::WrapperSchema
            || c == ValidationFailureClass::IdleAction || c
            == ValidationFailureClass::SemanticViolation || c
            == ValidationFailureClass::CompletionWithoutEvidence || c
            == ValidationFailureClass::VagueCompletionReason || c
            == ValidationFailureClass::CompletionWithPendingValidation || c
            == ValidationFailureClass::CompletionWithKnownErrors || c
            == ValidationFailureClass::PrematureCompletion ==> rejection_decision(reason, c)
            == (PlannerEnvelopeDecision::RepairableProtocolViolation { reason, failure_class: c }),
        c == ValidationFailureClass::UnknownTool || c == ValidationFailureClass::UnknownField || c
            == ValidationFailureClass::MultipleActions || c
            == ValidationFailureClass::ShellLexemeDetected || c
            == ValidationFailureClass::ModeViolation || c == ValidationFailureClass::WriteWithoutRead
            || c == ValidationFailureClass::StaleRead || c
            == ValidationFailureClass::InsufficientReadScope ==> rejection_decision(reason, c)
            == (PlannerEnvelopeDecision::TerminalProtocolViolation { reason, failure_class: c }),
{
}

/// `name` is among the available tools.
pub open spec fn tool_available(tools: Seq<String>, name: Seq<char>) -> bool {
    exists|i: int| 0 <= i < tools.len() && tools[i]@ == name
}

/// The kind of decision, without its payload.
#[derive(Debug, Clone, Copy, PartialEq, Eq, Structural)]
pub enum EnvelopeKind {
    AcceptedToolCall,
    AcceptedCompletion,
    Repairable,
    Terminal,
}

pub open spec fn kind_of(d: PlannerEnvelopeDecision) -> EnvelopeKind {
    match d {
        PlannerEnvelopeDecision::AcceptedToolCall { .. } => EnvelopeKind::AcceptedToolCall,
        PlannerEnvelopeDecision::AcceptedCompletion { .. } => EnvelopeKind::AcceptedCompletion,
        PlannerEnvelopeDecision::RepairableProtocolViolation { .. } => EnvelopeKind::Repairable,
        PlannerEnvelopeDecision::TerminalProtocolViolation { .. } => EnvelopeKind::Terminal,
    }
}

/// The kind of decision the classifier reaches for an accepted output.
pub open spec fn accepted_output_kind(output: crate::types::PlannerOutputView, tools: Seq<String>) -> EnvelopeKind {
    match output {
        crate::types::PlannerOutputView::ToolCall(call) => if tool_available(tools, call.name) {
            EnvelopeKind::AcceptedToolCall
        } else {
            EnvelopeKind::Terminal
        },
        crate::types::PlannerOutputView::Completion { .. } => EnvelopeKind::AcceptedCompletion,
        crate::types::PlannerOutputView::Failure { recoverable, .. } => if recoverable {
            EnvelopeKind::Repairable
        } else {
            EnvelopeKind::Terminal
        },
    }
}

/// Planner envelope classifier: deterministic classification of output.
pub struct PlannerEnvelopeClassifier;

impl PlannerEnvelopeClassifier {
    /// Classifies planner output: an exhausted repair budget is terminal;
    /// accepted output becomes a tool call (known tools only), a completion
    /// or a repairable/terminal failure; rejections are repairable by class;
    /// escalations are terminal.
    pub fn classify(
        output: &PlannerOutput,
        validation_result: &ProtocolDecision,
        available_tools: &[String],
        repair_count: u32,
        max_repair: u32,
    ) -> (r: PlannerEnvelopeDecision)
        ensures
            repair_count >= max_repair ==> (r matches PlannerEnvelopeDecision::TerminalProtocolViolation {
                reason,
                failure_class,
            } && failure_class == ValidationFailureClass::SemanticViolation && reason@
                == "Repair budget exhausted: "@ + decimal(repair_count as nat) + " attempts"@),
            repair_count < max_repair && *validation_result is Accept ==> kind_of(r)
                == accepted_output_kind(output@, available_tools@),
            repair_count < max_repair && *validation_result is Accept ==> match *output {
                PlannerOutput::ToolCall(call) => if tool_available(available_tools@, call.name@) {
                    r matches PlannerEnvelopeDecision::AcceptedToolCall { tool } && tool@
                        == call.name@
                } else {
                    r matches PlannerEnvelopeDecision::TerminalProtocolViolation {
                        reason,
                        failure_class,
                    } && failure_class == ValidationFailureClass::UnknownTool && reason@
                        == "Unknown tool: "@ + call.name@
                },
                PlannerOutput::Completion { reason: cr } => (r matches PlannerEnvelopeDecision::AcceptedCompletion {
                    reason,
                } && reason@ == cr@),
                PlannerOutput::Failure { reason: fr, .. } => match r {
                    PlannerEnvelopeDecision::RepairableProtocolViolation {
                        reason,
                        failure_class,
                    } => reason == fr && failure_class == ValidationFailureClass::SemanticViolation,
                    PlannerEnvelopeDecision::TerminalProtocolViolation {
                        reason,
                        failure_class,
                    } => reason == fr && failure_class == ValidationFailureClass::SemanticViolation,
                    _ => false,
                },
            },
            repair_count < max_repair ==> match *validation_result {
                ProtocolDecision::Reject { reason: vr, failure_class: vc, .. } => r
                    == rejection_decision(vr, vc),
                ProtocolDecision::Escalate { reason: vr, failure_class: vc } => r == (
                PlannerEnvelopeDecision::TerminalProtocolViolation {
                    reason: vr,
                    failure_class: vc,
                }),
                ProtocolDecision::Accept => true,
            },
    {
        if repair_count >= max_repair {
            let mut reason = to_owned_string("Repair budget exhausted: ");
            push_decimal(&mut reason, repair_count as u64);
            push_str(&mut reason, " attempts");
            return PlannerEnvelopeDecision::TerminalProtocolViolation {
                reason,
                failure_class: ValidationFailureClass::SemanticViolation,
            };
        }
        match validation_result {
            ProtocolDecision::Accept => {
                match output {
                    PlannerOutput::ToolCall(call) => {
                        if tools_contain(available_tools, call.name.as_str()) {
                            PlannerEnvelopeDecision::AcceptedToolCall { tool: call.name.clone() }
                        } else {
                            let mut reason = to_owned_string("Unknown tool: ");
                            push_str(&mut reason, call.name.as_str());
                            PlannerEnvelopeDecision::TerminalProtocolViolation {
                                reason,
                                failure_class: ValidationFailureClass::UnknownTool,
                            }
                        }
                    },
                    PlannerOutput::Completion { reason } => {
                        PlannerEnvelopeDecision::AcceptedCompletion {
                            reason: to_owned_string(reason.as_str()),
                        }
                    },
                    PlannerOutput::Failure { reason, recoverable } => {
                        if *recoverable {
                            PlannerEnvelopeDecision::RepairableProtocolViolation {
                                reason: reason.clone(),
                                failure_class: ValidationFailureClass::SemanticViolation,
                            }
                        } else {
                            PlannerEnvelopeDecision::TerminalProtocolViolation {
                                reason: reason.clone(),
                                failure_class: ValidationFailureClass::SemanticViolation,
                            }
                        }
                    },
                }
            },
            ProtocolDecision::Reject { reason, failure_class, .. } => {
                if Self::is_repairable_failure(failure_class) {
                    PlannerEnvelopeDecision::RepairableProtocolViolation {
                        reason: reason.clone(),
                        failure_class: *failure_class,
                    }
                } else {
                    PlannerEnvelopeDecision::TerminalProtocolViolation {
                        reason: reason.clone(),
                        failure_class: *failure_class,
                    }
                }
            },
            ProtocolDecision::Escalate { reason, failure_class } => {
                PlannerEnvelopeDecision::TerminalProtocolViolation {
                    reason: reason.clone(),
                    failure_class: *failure_class,
                }
            },
        }
    }

    /// Whether a failure class can enter the repair loop.
    fn is_repairable_failure(failure_class: &ValidationFailureClass) -> (r: bool)
        ensures
            r == repairable_failure(*failure_class),
    {
        match failure_class {
            ValidationFailureClass::InvalidJson => true,
            ValidationFailureClass::SchemaViolation => true,
            ValidationFailureClass::MissingRequiredField => true,
            ValidationFailureClass::ShorthandDetected => true,
            ValidationFailureClass::WrapperSchema => true,
            ValidationFailureClass::IdleAction => true,
            ValidationFailureClass::SemanticViolation => true,
            ValidationFailureClass::CompletionWithoutEvidence => true,
            ValidationFailureClass::VagueCompletionReason => true,
            ValidationFailureClass::CompletionWithPendingValidation => true,
            ValidationFailureClass::CompletionWithKnownErrors => true,
            ValidationFailureClass::PrematureCompletion => true,
            _ => false,
        }
    }
}

/// Whether `name` is one of `tools`.
pub fn tools_contain(tools: &[String], name: &str) -> (r: bool)
    ensures
        r == tool_available(tools@, name@),
{
    let mut i: usize = 0;
    while i < tools.len()
        invariant
            i <= tools@.len(),
            forall|k: int| 0 <= k < i ==> tools@[k]@ != name@,
        decreases tools.len() - i,
    {
        if str_eq(tools[i].as_str(), name) {
            return true;
        }
        i = i + 1;
    }
    false
}

/// A tool call that the firewall accepts names an available tool: no
/// unknown tool ever reaches execution.
pub proof fn law_accepted_tool_is_available(
    output: crate::types::PlannerOutputView,
    tools: Seq<String>,
)
    requires
        accepted_output_kind(output, tools) == EnvelopeKind::AcceptedToolCall,
    ensures
        output matches crate::types::PlannerOutputView::ToolCall(call) && tool_available(
            tools,
            call.name,
        ),
{
}

} // verus!

//! System invariants: runtime guarantees that must hold at every step,
//! each checked by a function that names the violation it finds.
use crate::text::{decimal, lowercase_of, push_decimal, push_str, to_owned_string};
use crate::tool_registry::{kind_for, ToolRegistry};
use crate::types::{
    ChainStatus, StepOutcome, TaskChain, ToolName, ValidationDecision, ValidationReport,
    valid_tool_name,
};
use vstd::prelude::*;

verus! {

/// A violated system invariant.
#[derive(Debug, Clone)]
pub enum InvariantViolation {
    /// Step executed without validation pass
    StepWithoutValidation { step_index: usize },
    /// State mutated on failure path
    MutationOnFailure { step_index: usize },
    /// Chain skipped a step
    StepSkipped { expected: usize, actual: usize },
    /// Unregistered tool executed
    UnregisteredTool { tool_name: String },
    /// Planner bypassed firewall
    PlannerFirewallBypassed,
    /// Replay did not match original
    ReplayMismatch { expected: String, actual: String },
    /// State integrity compromised
    StateIntegrityCompromised { reason: String },
}

/// The text describing a violation.
pub open spec fn violation_text(v: InvariantViolation) -> Seq<char> {
    match v {
        InvariantViolation::StepWithoutValidation { step_index } => "Step "@ + decimal(
            step_index as nat,
        ) + " executed without validation pass"@,
        InvariantViolation::MutationOnFailure { step_index } => "State mutated on failure at step "@
            + decimal(step_index as nat),
        InvariantViolation::StepSkipped { expected, actual } =>
            "Step ordering violated: expected step "@ + decimal(expected as nat) + " but got "@
            + decimal(actual as nat),
        InvariantViolation::UnregisteredTool { tool_name } => "Unregistered tool executed: "@
            + tool_name@,
        InvariantViolation::PlannerFirewallBypassed => "Planner output bypassed protocol firewall"@,
        InvariantViolation::ReplayMismatch { expected, actual } => "Replay mismatch: expected "@
            + expected@ + " but got "@ + actual@,
        InvariantViolation::StateIntegrityCompromised { reason } =>
            "State integrity compromised: "@ + reason@,
    }
}

impl InvariantViolation {
    /// Human-readable description (what `Display` prints).
    pub fn message(&self) -> (r: String)
        ensures
            r@ == violation_text(*self),
    {
        let mut out = String::new();
        match self {
            InvariantViolation::StepWithoutValidation { step_index } => {
                push_str(&mut out, "Step ");
                push_decimal(&mut out, *step_index as u64);
                push_str(&mut out, " executed without validation pass");
            },
            InvariantViolation::MutationOnFailure { step_index } => {
                push_str(&mut out, "State mutated on failure at step ");
                push_decimal(&mut out, *step_index as u64);
            },
            InvariantViolation::StepSkipped { expected, actual } => {
                push_str(&mut out, "Step ordering violated: expected step ");
                push_decimal(&mut out, *expected as u64);
                push_str(&mut out, " but got ");
                push_decimal(&mut out, *actual as u64);
            },
            InvariantViolation::UnregisteredTool { tool_name } => {
                push_str(&mut out, "Unregistered tool executed: ");
                push_str(&mut out, tool_name.as_str());
            },
            InvariantViolation::PlannerFirewallBypassed => {
                push_str(&mut out, "Planner output bypassed protocol firewall");
            },
            InvariantViolation::ReplayMismatch { expected, actual } => {
                push_str(&mut out, "Replay mismatch: expected ");
                push_str(&mut out, expected.as_str());
                push_str(&mut out, " but got ");
                push_str(&mut out, actual.as_str());
            },
            InvariantViolation::StateIntegrityCompromised { reason } => {
                push_str(&mut out, "State integrity compromised: ");
                push_str(&mut out, reason.as_str());
            },
        }
        assert(out@ =~= violation_text(*self));
        out
    }
}

/// The name `Debug` gives a chain status.
pub open spec fn chain_status_debug(s: ChainStatus) -> Seq<char> {
    match s {
        ChainStatus::Pending => "Pending"@,
        ChainStatus::Running => "Running"@,
        ChainStatus::Complete => "Complete"@,
        ChainStatus::Failed => "Failed"@,
        ChainStatus::Cancelled => "Cancelled"@,
    }
}

fn chain_status_debug_str(s: ChainStatus) -> (r: &'static str)
    ensures
        r@ == chain_status_debug(s),
{
    match s {
        ChainStatus::Pending => "Pending",
        ChainStatus::Running => "Running",
        ChainStatus::Complete => "Complete",
        ChainStatus::Failed => "Failed",
        ChainStatus::Cancelled => "Cancelled",
    }
}

/// The tool names that resolve in the registry.
pub open spec fn registered_tool_name(name: Seq<char>) -> bool {
    valid_tool_name(name) && kind_for(lowercase_of(name)) is Some
}

/// Only the twelve built-in tools may execute: a valid tool name is
/// registered exactly when, lowercased, it is one of their names.
pub proof fn law_registered_tools(name: Seq<char>)
    ensures
        registered_tool_name(name) <==> (valid_tool_name(name) && {
            let l = lowercase_of(name);
            l == "read_file"@ || l == "write_file"@ || l == "apply_patch"@ || l == "grep_search"@
                || l == "list_dir"@ || l == "dependency_graph"@ || l == "symbol_index"@ || l
                == "entrypoint_detector"@ || l == "lint_runner"@ || l == "test_runner"@ || l
                == "execute_command"@ || l == "browser_preview"@
        }),
{
}

/// The validation rejected the step and yet the step reports modified files.
pub open spec fn mutated_on_failure(report: ValidationReport, outcome: StepOutcome) -> bool {
    report.decision is Reject && match outcome {
        StepOutcome::Resolved { files_modified, .. } => files_modified@.len() > 0,
        _ => false,
    }
}

/// A step breaks the no-mutation-on-failure invariant exactly when its
/// validation rejected it and it still reports modified files.
pub proof fn law_mutation_on_failure(report: ValidationReport, outcome: StepOutcome)
    ensures
        mutated_on_failure(report, outcome) <==> (report.decision == ValidationDecision::Reject
            && (outcome matches StepOutcome::Resolved { files_modified, .. }
            && files_modified@.len() > 0)),
{
}

/// System invariant checker.
pub struct SystemInvariantChecker;

impl SystemInvariantChecker {
    /// A step may execute only after its validation accepted.
    pub fn no_step_without_validation(step_index: usize, validation_report: &ValidationReport) -> (r:
        Result<(), InvariantViolation>)
        ensures
            validation_report.decision is Accept ==> r is Ok,
            !(validation_report.decision is Accept) ==> r == Err::<(), InvariantViolation>(
                InvariantViolation::StepWithoutValidation { step_index },
            ),
    {
        if validation_report.decision != ValidationDecision::Accept {
            return Err(InvariantViolation::StepWithoutValidation { step_index });
        }
        Ok(())
    }

    /// A rejected validation must not come with modified files.
    pub fn no_mutation_on_failure(
        step_index: usize,
        outcome: &StepOutcome,
        validation_report: &ValidationReport,
    ) -> (r: Result<(), InvariantViolation>)
        ensures
            mutated_on_failure(*validation_report, *outcome) ==> r == Err::<(), InvariantViolation>(
                InvariantViolation::MutationOnFailure { step_index },
            ),
            !mutated_on_failure(*validation_report, *outcome) ==> r is Ok,
    {
        if let ValidationDecision::Reject = validation_report.decision {
            if let StepOutcome::Resolved { files_modified, .. } = outcome {
                if files_modified.len() > 0 {
                    return Err(InvariantViolation::MutationOnFailure { step_index });
                }
            }
        }
        Ok(())
    }

    /// The chain is at the step the caller expects: no step was skipped.
    pub fn no_step_skipping(chain: &TaskChain, expected_current_step: usize) -> (r: Result<
        (),
        InvariantViolation,
    >)
        ensures
            chain.current_step == expected_current_step ==> r is Ok,
            chain.current_step != expected_current_step ==> r == Err::<(), InvariantViolation>(
                InvariantViolation::StepSkipped {
                    expected: expected_current_step,
                    actual: chain.current_step,
                },
            ),
    {
        let actual = chain.current_step;
        if actual != expected_current_step {
            return Err(
                InvariantViolation::StepSkipped { expected: expected_current_step, actual },
            );
        }
        Ok(())
    }

    /// Only tools of the registry may execute.
    pub fn only_registered_tools(tool_name: &str) -> (r: Result<(), InvariantViolation>)
        ensures
            registered_tool_name(tool_name@) ==> r is Ok,
            !registered_tool_name(tool_name@) ==> (r matches Err(
                InvariantViolation::UnregisteredTool { tool_name: n },
            ) && n@ == tool_name@),
    {
        let registry = ToolRegistry::new();
        let name = match ToolName::new(tool_name) {
            Ok(n) => n,
            Err(_) => {
                return Err(
                    InvariantViolation::UnregisteredTool { tool_name: to_owned_string(tool_name) },
                );
            },
        };
        if registry.resolve(&name).is_err() {
            return Err(
                InvariantViolation::UnregisteredTool { tool_name: to_owned_string(tool_name) },
            );
        }
        Ok(())
    }

    /// A chain is pending, running, complete or failed; any other status
    /// means its state is compromised.
    pub fn valid_chain_status(status: ChainStatus) -> (r: Result<(), InvariantViolation>)
        ensures
            !(status is Cancelled) ==> r is Ok,
            status is Cancelled ==> (r matches Err(
                InvariantViolation::StateIntegrityCompromised { reason },
            ) && reason@ == "Invalid chain status: "@ + chain_status_debug(status)),
    {
        match status {
            ChainStatus::Pending | ChainStatus::Running | ChainStatus::Complete
            | ChainStatus::Failed => Ok(()),
            _ => {
                let mut reason = to_owned_string("Invalid chain status: ");
                push_str(&mut reason, chain_status_debug_str(status));
                Err(InvariantViolation::StateIntegrityCompromised { reason })
            },
        }
    }

    /// Runs every invariant that applies to a chain.
    pub fn check_all(chain: &TaskChain) -> (r: Result<(), Vec<InvariantViolation>>)
        ensures
            !(chain.status is Cancelled) ==> r is Ok,
            chain.status is Cancelled ==> match r {
                Err(v) => v@.len() == 1 && match v@[0] {
                    InvariantViolation::StateIntegrityCompromised { reason } => reason@
                        == "Invalid chain status: "@ + chain_status_debug(chain.status),
                    _ => false,
                },
                Ok(_) => false,
            },
    {
        let mut violations: Vec<InvariantViolation> = Vec::new();
        if let Err(e) = Self::valid_chain_status(chain.status) {
            violations.push(e);
        }
        if violations.len() == 0 {
            Ok(())
        } else {
            Err(violations)
        }
    }
}

} // verus!

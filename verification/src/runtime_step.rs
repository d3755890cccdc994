//! The decisions of the runtime loop, one step at a time.  Each function
//! takes the loop's state and the answer of the outside work that preceded
//! it (the validation outcome, the recovery edits found, the planner output
//! after protocol validation, the file the call targets) and says what the
//! loop does next.  Running the validators, the planner and the file system
//! is the caller's part.
use crate::collections::PathMap;
use crate::progress_policy::ProgressPolicy;
use crate::protocol_validator::ValidationFailureClass;
use crate::runtime_gates::{
    completion_verdict, readiness_view, write_verdict, CompletionGate, CompletionGateResult,
    CompletionReadiness, CompletionVerdict, ReadBeforeWriteGate, ReadBeforeWriteResult,
    WriteVerdict,
};
use crate::runtime_policies::{
    defers_validation, extract_mutation_path, format_mutation_paths, multi_file_recovery_hint,
    mutation_path_of, mutation_paths_text, recovery_hint, should_defer_multi_file_validation,
    MAX_LIVE_VALIDATION_RECOVERY_ATTEMPTS,
};
use crate::state::AgentState;
use crate::text::{decimal, push_decimal, push_str, str_eq, to_owned_string};
use crate::types::{
    ChainExecutionResult, ChainStatus, CompletionReason, ForgeError, Mutation, PlannerOutput,
    StepOutcome, ToolCall, ValidationDecision, ValidationReport,
};
use vstd::prelude::*;

verus! {

// ---------------------------------------------------------------------------
// Validation of pending mutations
// ---------------------------------------------------------------------------

/// What the validators answered on the pending mutations.
pub enum ValidationOutcome {
    Accept,
    /// Rejected at `failed_stage` (as the validators name it);
    /// `format_stage` tells whether that stage is the formatting check.
    Reject { reason: String, failed_stage: String, format_stage: bool },
    Escalate { reason: String },
}

/// The loop's bookkeeping around validation.
pub struct CommitState {
    /// Mutations kept pending from earlier, failed validations.
    pub deferred: Vec<Mutation>,
    pub pending_validation: bool,
    pub consecutive_validation_failures: u32,
    pub known_errors: Vec<String>,
    pub repair_prompt: Option<String>,
}

/// What the loop does after a validation.
pub enum CommitAction {
    /// Commit these mutations to the state.
    Commit(Vec<Mutation>),
    /// A formatting fix was applied; validate the pending set again.
    RerunAfterFormat,
    /// A companion edit was made; validate it together with the pending set.
    RerunAfterCompanion(Mutation),
    /// Keep the mutations pending and let the planner finish the companion
    /// surface, steered by `hint`.
    Defer { hint: String },
    /// Revert `mutations` (none when reverting is off); then stop with
    /// `halt` when the retry budget is spent, or go on.
    Revert { mutations: Vec<Mutation>, halt: Option<ForgeError> },
    /// Stop with this error.
    Halt(ForgeError),
}

/// The texts of a list of strings.
pub open spec fn texts(v: Seq<String>) -> Seq<Seq<char>> {
    v.map_values(|t: String| t@)
}

/// How a rejection is cited back to the planner.
pub open spec fn evidence_text(failed_stage: Seq<char>, reason: Seq<char>) -> Seq<char> {
    "Validation failed at stage "@ + failed_stage + ": "@ + reason
}

/// The instruction after a formatting fix.
pub open spec fn format_recovery_prompt() -> Seq<char> {
    "Rust formatting recovery applied from validation evidence; validation will rerun before commit."@
}

/// The instruction when a multi-file edit stays pending.
pub open spec fn deferral_prompt(evidence: Seq<char>, pending: Seq<Mutation>, hint: Seq<char>) -> Seq<
    char,
> {
    "A multi-file edit is pending validation and was NOT reverted. Evidence: "@ + evidence
        + ". Pending paths: "@ + mutation_paths_text(pending) + ". "@ + hint
        + " Complete the companion source/config/test surface now. Do not repeat already pending writes. Re-read any existing file before mutating it; create missing companion files when the compiler names them."@
}

/// The instruction after a reverted, failed validation.
pub open spec fn revert_prompt(evidence: Seq<char>) -> Seq<char> {
    "Validation failed and mutations were reverted. Evidence: "@ + evidence
        + ". Generate a bounded fix step, re-read any file you will mutate if needed, then retry within policy."@
}

fn copy_mutations(a: &[Mutation], b: &[Mutation]) -> (r: Vec<Mutation>)
    ensures
        r@ == a@ + b@,
{
    let mut out: Vec<Mutation> = Vec::new();
    let mut i: usize = 0;
    while i < a.len()
        invariant
            i <= a@.len(),
            out@ == a@.take(i as int),
        decreases a.len() - i,
    {
        out.push(a[i].clone());
        i = i + 1;
        assert(out@ =~= a@.take(i as int));
    }
    let mut j: usize = 0;
    while j < b.len()
        invariant
            j <= b@.len(),
            out@ == a@ + b@.take(j as int),
        decreases b.len() - j,
    {
        out.push(b[j].clone());
        j = j + 1;
        assert(out@ =~= a@ + b@.take(j as int));
    }
    assert(a@.take(a@.len() as int) =~= a@);
    assert(b@.take(b@.len() as int) =~= b@);
    out
}

fn cite(prefix: &str, reason: &str) -> (r: String)
    ensures
        r@ == prefix@ + reason@,
{
    let mut m = to_owned_string(prefix);
    push_str(&mut m, reason);
    m
}

impl CommitState {
    /// Nothing pending, no failures, no errors.
    pub fn new() -> (r: Self)
        ensures
            r.deferred@.len() == 0,
            !r.pending_validation,
            r.consecutive_validation_failures == 0,
            r.known_errors@.len() == 0,
            r.repair_prompt is None,
    {
        CommitState {
            deferred: Vec::new(),
            pending_validation: false,
            consecutive_validation_failures: 0,
            known_errors: Vec::new(),
            repair_prompt: None,
        }
    }
}

/// Decides what follows a validation of the pending mutations (those
/// deferred earlier, then `mutations`).  An accept commits them and clears
/// the failure bookkeeping; an escalation halts.  A rejection is answered,
/// in this order, by a formatting fix (`format_fix`, for a rejection at the
/// formatting stage), then by a companion edit (`companion_fix`), then by
/// deferring a multi-file edit (`normalized_paths` holds the normalised
/// path of each pending mutation), and otherwise by a revert, with a retry
/// while the live recovery budget lasts.
pub fn validation_step(
    st: &mut CommitState,
    mutations: &[Mutation],
    outcome: &ValidationOutcome,
    task: &str,
    normalized_paths: &[String],
    auto_revert: bool,
    format_fix: Option<Vec<Mutation>>,
    companion_fix: Option<Mutation>,
) -> (r: CommitAction)
    requires
        old(st).consecutive_validation_failures < u32::MAX,
    ensures
        ({
            let combined = old(st).deferred@ + mutations@;
            let failures = old(st).consecutive_validation_failures;
            let errs = texts(old(st).known_errors@);
            &&& r is Commit ==> *outcome is Accept
            &&& match *outcome {
                ValidationOutcome::Accept => {
                    &&& r matches CommitAction::Commit(c) && c@ == combined
                    &&& final(st).deferred@.len() == 0
                    &&& !final(st).pending_validation
                    &&& final(st).consecutive_validation_failures == 0
                    &&& final(st).known_errors@.len() == 0
                    &&& final(st).repair_prompt is None
                },
                ValidationOutcome::Escalate { reason } => {
                    &&& r matches CommitAction::Halt(ForgeError::ValidationFailed(m)) && m@
                        == reason@
                    &&& final(st).deferred@ == old(st).deferred@
                    &&& final(st).pending_validation == old(st).pending_validation
                    &&& final(st).consecutive_validation_failures == failures
                    &&& texts(final(st).known_errors@) == errs
                    &&& final(st).repair_prompt == old(st).repair_prompt
                },
                ValidationOutcome::Reject { reason, failed_stage, format_stage } => {
                    let evidence = evidence_text(failed_stage@, reason@);
                    if format_stage && format_fix is Some {
                        &&& r is RerunAfterFormat
                        &&& final(st).deferred@ == combined + format_fix->0@
                        &&& final(st).pending_validation
                        &&& final(st).consecutive_validation_failures == failures
                        &&& texts(final(st).known_errors@) == errs
                        &&& final(st).repair_prompt matches Some(p) && p@
                            == format_recovery_prompt()
                    } else if companion_fix is Some {
                        &&& r matches CommitAction::RerunAfterCompanion(m) && m == companion_fix->0
                        &&& final(st).deferred@ == combined
                        &&& final(st).pending_validation
                        &&& final(st).consecutive_validation_failures == failures + 1
                        &&& texts(final(st).known_errors@) == errs.push(
                            "Rust companion-surface recovery applied from validation evidence: "@
                                + reason@,
                        )
                        &&& final(st).repair_prompt == old(st).repair_prompt
                    } else if defers_validation(
                        task@,
                        reason@,
                        texts(normalized_paths@),
                        failures,
                    ) {
                        let hint = recovery_hint(reason@, combined);
                        &&& r matches CommitAction::Defer { hint: h } && h@ == hint
                        &&& final(st).deferred@ == combined
                        &&& final(st).pending_validation
                        &&& final(st).consecutive_validation_failures == failures + 1
                        &&& texts(final(st).known_errors@) == errs.push(
                            "Deferred multi-file validation failure: "@ + reason@,
                        )
                        &&& final(st).repair_prompt matches Some(p) && p@ == deferral_prompt(
                            evidence,
                            combined,
                            hint,
                        )
                    } else {
                        let now = failures + 1;
                        &&& r matches CommitAction::Revert { mutations: back, halt } && back@ == (
                        if auto_revert {
                            combined
                        } else {
                            Seq::<Mutation>::empty()
                        }) && (if now <= MAX_LIVE_VALIDATION_RECOVERY_ATTEMPTS {
                            halt is None
                        } else {
                            halt matches Some(ForgeError::ValidationFailed(m)) && m@ == evidence
                        })
                        &&& final(st).deferred@.len() == 0
                        &&& !final(st).pending_validation
                        &&& final(st).consecutive_validation_failures == now
                        &&& texts(final(st).known_errors@) == errs.push(
                            "Validation failed: "@ + reason@,
                        )
                        &&& now <= MAX_LIVE_VALIDATION_RECOVERY_ATTEMPTS ==> (
                        final(st).repair_prompt matches Some(p) && p@ == revert_prompt(evidence))
                        &&& now > MAX_LIVE_VALIDATION_RECOVERY_ATTEMPTS ==> final(st).repair_prompt
                            == old(st).repair_prompt
                    }
                },
            }
        }),
{
    let combined = copy_mutations(&st.deferred, mutations);
    match outcome {
        ValidationOutcome::Accept => {
            st.consecutive_validation_failures = 0;
            st.repair_prompt = None;
            st.known_errors = Vec::new();
            st.deferred = Vec::new();
            st.pending_validation = false;
            CommitAction::Commit(combined)
        },
        ValidationOutcome::Escalate { reason } => {
            CommitAction::Halt(ForgeError::ValidationFailed(to_owned_string(reason.as_str())))
        },
        ValidationOutcome::Reject { reason, failed_stage, format_stage } => {
            let mut evidence = cite("Validation failed at stage ", failed_stage.as_str());
            push_str(&mut evidence, ": ");
            push_str(&mut evidence, reason.as_str());
            if *format_stage && format_fix.is_some() {
                let fix = match format_fix {
                    Some(f) => f,
                    None => Vec::new(),
                };
                st.deferred = copy_mutations(&combined, &fix);
                st.pending_validation = true;
                st.repair_prompt = Some(
                    to_owned_string(
                        "Rust formatting recovery applied from validation evidence; validation will rerun before commit.",
                    ),
                );
                return CommitAction::RerunAfterFormat;
            }
            match companion_fix {
                Some(m) => {
                    st.deferred = combined;
                    st.pending_validation = true;
                    st.consecutive_validation_failures = st.consecutive_validation_failures + 1;
                    let ghost before = texts(st.known_errors@);
                    let note = cite(
                        "Rust companion-surface recovery applied from validation evidence: ",
                        reason.as_str(),
                    );
                    st.known_errors.push(note);
                    assert(texts(st.known_errors@) =~= before.push(note@));
                    return CommitAction::RerunAfterCompanion(m);
                },
                None => {},
            }
            if should_defer_multi_file_validation(
                task,
                reason.as_str(),
                normalized_paths,
                st.consecutive_validation_failures,
            ) {
                let hint = multi_file_recovery_hint(reason.as_str(), &combined);
                let mut prompt = cite(
                    "A multi-file edit is pending validation and was NOT reverted. Evidence: ",
                    evidence.as_str(),
                );
                push_str(&mut prompt, ". Pending paths: ");
                let paths = format_mutation_paths(&combined);
                push_str(&mut prompt, paths.as_str());
                push_str(&mut prompt, ". ");
                push_str(&mut prompt, hint);
                push_str(
                    &mut prompt,
                    " Complete the companion source/config/test surface now. Do not repeat already pending writes. Re-read any existing file before mutating it; create missing companion files when the compiler names them.",
                );
                st.deferred = combined;
                st.pending_validation = true;
                st.consecutive_validation_failures = st.consecutive_validation_failures + 1;
                let ghost before = texts(st.known_errors@);
                let note = cite("Deferred multi-file validation failure: ", reason.as_str());
                st.known_errors.push(note);
                assert(texts(st.known_errors@) =~= before.push(note@));
                st.repair_prompt = Some(prompt);
                return CommitAction::Defer { hint: to_owned_string(hint) };
            }
            let back = if auto_revert {
                combined
            } else {
                Vec::new()
            };
            st.deferred = Vec::new();
            st.pending_validation = false;
            st.consecutive_validation_failures = st.consecutive_validation_failures + 1;
            let ghost before = texts(st.known_errors@);
            let note = cite("Validation failed: ", reason.as_str());
            st.known_errors.push(note);
            assert(texts(st.known_errors@) =~= before.push(note@));
            if st.consecutive_validation_failures <= MAX_LIVE_VALIDATION_RECOVERY_ATTEMPTS {
                let mut prompt = cite(
                    "Validation failed and mutations were reverted. Evidence: ",
                    evidence.as_str(),
                );
                push_str(
                    &mut prompt,
                    ". Generate a bounded fix step, re-read any file you will mutate if needed, then retry within policy.",
                );
                st.repair_prompt = Some(prompt);
                CommitAction::Revert { mutations: back, halt: None }
            } else {
                CommitAction::Revert {
                    mutations: back,
                    halt: Some(ForgeError::ValidationFailed(evidence)),
                }
            }
        },
    }
}

// ---------------------------------------------------------------------------
// Before a tool runs
// ---------------------------------------------------------------------------

/// The tools that mutate files.
pub open spec fn mutation_tool(name: Seq<char>) -> bool {
    name == "write_file"@ || name == "apply_patch"@ || name == "delete_file"@
}

/// The calls that change files are exactly write_file, apply_patch and
/// delete_file.
pub proof fn law_mutation_tools(name: Seq<char>)
    ensures
        mutation_tool(name) <==> (name == "write_file"@ || name == "apply_patch"@ || name
            == "delete_file"@),
{
}

/// What the loop does with a parsed tool call before running it.
pub enum ToolCallAction {
    /// The call is malformed; the loop goes on.
    Invalid,
    /// The goal is already met: complete with this reason instead of
    /// mutating.
    Suppress { reason: String },
    /// The read-before-write gate refuses the mutation; the planner must
    /// read first.
    Blocked { reason: String, failure_class: ValidationFailureClass, required_action: String },
    /// Run the call, snapshotting the target first when `snapshot`.
    Run { snapshot: bool },
}

/// Decides on a tool call before it runs.  `readiness` is the completion
/// readiness of the state; for a mutation, `normalized_path` is how its
/// target is recorded among reads, `exists` whether the target exists and
/// `current` its current content, if it could be read.
pub fn tool_call_step(
    state: &AgentState,
    call: &ToolCall,
    normalized_path: &str,
    exists: bool,
    current: Option<&str>,
    readiness: &CompletionReadiness,
) -> (r: Result<ToolCallAction, ForgeError>)
    ensures
        call.name@.len() == 0 ==> r matches Ok(ToolCallAction::Invalid),
        call.name@.len() > 0 && !mutation_tool(call.name@) ==> (r matches Ok(
            ToolCallAction::Run { snapshot },
        ) && !snapshot),
        call.name@.len() > 0 && mutation_tool(call.name@) ==> {
            let (ready, why) = readiness_view(*readiness);
            if ready {
                (r matches Ok(ToolCallAction::Suppress { reason }) && reason@ == why)
            } else {
                match mutation_path_of(*call) {
                    None => (r matches Err(ForgeError::MissingArgument(m)) && m@ == "path/file_path"@),
                    Some(p) => match write_verdict(
                        p,
                        normalized_path@,
                        exists,
                        *state,
                        match current {
                            Some(c) => Some(c@),
                            None => None,
                        },
                    ) {
                        WriteVerdict::Allow => (r matches Ok(ToolCallAction::Run { snapshot })
                            && snapshot == exists),
                        WriteVerdict::Block { reason, failure_class, required_action } => (r matches Ok(
                            ToolCallAction::Blocked { reason: a, failure_class: b, required_action: c },
                        ) && a@ == reason && b == failure_class && c@ == required_action),
                    },
                }
            }
        },
{
    let name = call.name.as_str();
    if crate::text::chars_of(name).len() == 0 {
        return Ok(ToolCallAction::Invalid);
    }
    if !(str_eq(name, "write_file") || str_eq(name, "apply_patch") || str_eq(name, "delete_file")) {
        return Ok(ToolCallAction::Run { snapshot: false });
    }
    match readiness {
        CompletionReadiness::Ready { reason } => {
            return Ok(ToolCallAction::Suppress { reason: to_owned_string(reason.as_str()) });
        },
        CompletionReadiness::NotReady { .. } => {},
    }
    let path = match extract_mutation_path(call) {
        Ok(p) => p,
        Err(e) => return Err(e),
    };
    match ReadBeforeWriteGate::evaluate(path.as_str(), normalized_path, exists, state, current) {
        ReadBeforeWriteResult::Allow => Ok(ToolCallAction::Run { snapshot: exists }),
        ReadBeforeWriteResult::Block { reason, failure_class, required_action } => Ok(
            ToolCallAction::Blocked { reason, failure_class, required_action },
        ),
    }
}

// ---------------------------------------------------------------------------
// One iteration, after the planner answered
// ---------------------------------------------------------------------------

/// The planner's answer after protocol validation.
pub enum PlannerEvent {
    /// Canonical output, accepted as it was.
    Accepted(PlannerOutput),
    /// Output accepted after normalisation.
    Normalized(PlannerOutput),
    /// Rejected; `repair_prompt` is the repair instruction prepared for a
    /// retry and `can_retry` whether the retry budget allows one.
    Rejected { reason: String, repair_prompt: String, can_retry: bool },
    /// A critical violation.
    Escalated { violation: String },
}

/// The loop's protocol bookkeeping.
pub struct IterationState {
    pub retry_count: u32,
    pub consecutive_validation_failures: u32,
    pub repair_prompt: Option<String>,
}

/// What the loop does after an iteration's planner answer.
pub enum IterationOutcome {
    /// An accepted completion: complete the session with this reason.
    Complete(CompletionReason),
    /// The planner gave up for good: halt the session.
    Halt,
    /// Go on to the next iteration.
    Continue,
    /// Run this tool call.
    Execute(ToolCall),
}

/// The instruction after a rejected completion.
pub open spec fn completion_repair(reject_reason: Seq<char>) -> Seq<char> {
    "Completion was rejected. Emit a completion reason that cites specific observable facts such as the file path, the created function name, and the resulting file state. Reject reason: "@
        + reject_reason
}

/// What an accepted planner output leads to.
pub open spec fn output_outcome(
    output: PlannerOutput,
    state: AgentState,
    pending: bool,
    errors: nat,
    contents: PathMap<String>,
    r: IterationOutcome,
    prompt: Option<String>,
) -> bool {
    match output {
        PlannerOutput::Completion { reason } => match completion_verdict(
            reason@,
            state,
            pending,
            errors,
            contents,
        ) {
            CompletionVerdict::Accept => (r matches IterationOutcome::Complete(c) && c == reason)
                && prompt is None,
            CompletionVerdict::Reject { reason: why, .. } => r is Continue && (prompt matches Some(
                p,
            ) && p@ == completion_repair(why)),
        },
        PlannerOutput::Failure { recoverable, .. } => (if recoverable {
            r is Continue
        } else {
            r is Halt
        }) && prompt is None,
        PlannerOutput::ToolCall(call) => (r matches IterationOutcome::Execute(c) && c == call)
            && prompt is None,
    }
}

/// After an accepted planner answer: a completion whose verdict is Accept
/// completes the session with the claimed reason; a rejected one goes on,
/// asking for a reason that cites observable facts and quoting the
/// rejection; a recoverable failure goes on and an unrecoverable one halts;
/// a tool call is executed as given.
pub proof fn law_planner_answers(
    output: PlannerOutput,
    state: AgentState,
    pending: bool,
    errors: nat,
    contents: PathMap<String>,
    r: IterationOutcome,
    prompt: Option<String>,
)
    requires
        output_outcome(output, state, pending, errors, contents, r, prompt),
    ensures
        output matches PlannerOutput::Completion { reason } ==> (completion_verdict(
            reason@,
            state,
            pending,
            errors,
            contents,
        ) is Accept <==> (r matches IterationOutcome::Complete(c) && c == reason)),
        output matches PlannerOutput::Completion { reason } ==> (completion_verdict(
            reason@,
            state,
            pending,
            errors,
            contents,
        ) matches CompletionVerdict::Reject { reason: why, .. } ==> (r is Continue && (
        prompt matches Some(p) && p@ == "Completion was rejected. Emit a completion reason that cites specific observable facts such as the file path, the created function name, and the resulting file state. Reject reason: "@
            + why))),
        output matches PlannerOutput::Failure { recoverable, .. } ==> (recoverable ==> r is Continue)
            && (!recoverable ==> r is Halt),
        output matches PlannerOutput::ToolCall(call) ==> (r matches IterationOutcome::Execute(c)
            && c == call),
{
}

fn continue_with_output(
    st: &mut IterationState,
    output: PlannerOutput,
    state: &AgentState,
    pending: bool,
    errors: &[String],
    contents: &PathMap<String>,
) -> (r: IterationOutcome)
    ensures
        final(st).retry_count == old(st).retry_count,
        final(st).consecutive_validation_failures == old(st).consecutive_validation_failures,
        output_outcome(
            output,
            *state,
            pending,
            errors@.len(),
            *contents,
            r,
            final(st).repair_prompt,
        ),
{
    st.repair_prompt = None;
    match output {
        PlannerOutput::Completion { reason } => {
            match CompletionGate::evaluate(&reason, state, pending, errors, contents) {
                CompletionGateResult::Accept => IterationOutcome::Complete(reason),
                CompletionGateResult::Reject { reason: why, .. } => {
                    st.repair_prompt = Some(
                        cite(
                            "Completion was rejected. Emit a completion reason that cites specific observable facts such as the file path, the created function name, and the resulting file state. Reject reason: ",
                            why.as_str(),
                        ),
                    );
                    IterationOutcome::Continue
                },
            }
        },
        PlannerOutput::Failure { recoverable, .. } => {
            if recoverable {
                IterationOutcome::Continue
            } else {
                IterationOutcome::Halt
            }
        },
        PlannerOutput::ToolCall(call) => IterationOutcome::Execute(call),
    }
}

/// Decides on the planner's answer in one iteration.  Valid output resets
/// the protocol bookkeeping (normalised output also puts the no-progress
/// policy on watch) and then: a completion that the completion rules
/// accept completes the session, one they refuse sets a repair prompt
/// citing their reason; a failure
/// that cannot be recovered halts; a tool call runs.  An invalid answer is
/// retried with its repair prompt while the budget lasts, and an
/// escalation halts with an error.
pub fn iteration_step(
    st: &mut IterationState,
    policy: &mut ProgressPolicy,
    state: &AgentState,
    pending: bool,
    errors: &[String],
    contents: &PathMap<String>,
    event: PlannerEvent,
) -> (r: Result<IterationOutcome, ForgeError>)
    requires
        old(st).consecutive_validation_failures < u32::MAX,
        old(st).retry_count < u32::MAX,
    ensures
        match event {
            PlannerEvent::Accepted(output) => {
                &&& *final(policy) == *old(policy)
                &&& final(st).retry_count == 0
                &&& final(st).consecutive_validation_failures == 0
                &&& r matches Ok(o) && output_outcome(
                    output,
                    *state,
                    pending,
                    errors@.len(),
                    *contents,
                    o,
                    final(st).repair_prompt,
                )
            },
            PlannerEvent::Normalized(output) => {
                &&& *final(policy) == (ProgressPolicy {
                    post_correction_progress_required: true,
                    post_correction_read_only_tools: 0,
                    ..*old(policy)
                })
                &&& final(st).retry_count == 0
                &&& final(st).consecutive_validation_failures == 0
                &&& r matches Ok(o) && output_outcome(
                    output,
                    *state,
                    pending,
                    errors@.len(),
                    *contents,
                    o,
                    final(st).repair_prompt,
                )
            },
            PlannerEvent::Rejected { reason, repair_prompt, can_retry } => {
                &&& *final(policy) == *old(policy)
                &&& final(st).consecutive_validation_failures
                    == old(st).consecutive_validation_failures + 1
                &&& can_retry ==> {
                    &&& r matches Ok(IterationOutcome::Continue)
                    &&& final(st).retry_count == old(st).retry_count + 1
                    &&& final(st).repair_prompt == Some(repair_prompt)
                }
                &&& !can_retry ==> {
                    &&& r matches Err(ForgeError::ValidationFailed(m)) && m@
                        == "Planner failed to produce valid output after "@ + decimal(
                        old(st).retry_count as nat,
                    ) + " retries: "@ + reason@
                    &&& final(st).retry_count == old(st).retry_count
                    &&& final(st).repair_prompt == old(st).repair_prompt
                }
            },
            PlannerEvent::Escalated { violation } => {
                &&& *final(policy) == *old(policy)
                &&& *final(st) == *old(st)
                &&& r matches Err(ForgeError::ValidationFailed(m)) && m@ == "Critical violation: "@
                    + violation@
            },
        },
{
    match event {
        PlannerEvent::Accepted(output) => {
            st.consecutive_validation_failures = 0;
            st.retry_count = 0;
            Ok(continue_with_output(st, output, state, pending, errors, contents))
        },
        PlannerEvent::Normalized(output) => {
            st.consecutive_validation_failures = 0;
            st.retry_count = 0;
            policy.post_correction_progress_required = true;
            policy.post_correction_read_only_tools = 0;
            Ok(continue_with_output(st, output, state, pending, errors, contents))
        },
        PlannerEvent::Rejected { reason, repair_prompt, can_retry } => {
            st.consecutive_validation_failures = st.consecutive_validation_failures + 1;
            if can_retry {
                st.repair_prompt = Some(repair_prompt);
                st.retry_count = st.retry_count + 1;
                Ok(IterationOutcome::Continue)
            } else {
                let mut m = to_owned_string("Planner failed to produce valid output after ");
                let n = crate::text::decimal_string(st.retry_count as u64);
                push_str(&mut m, n.as_str());
                push_str(&mut m, " retries: ");
                push_str(&mut m, reason.as_str());
                Err(ForgeError::ValidationFailed(m))
            }
        },
        PlannerEvent::Escalated { violation } => {
            Err(ForgeError::ValidationFailed(cite("Critical violation: ", violation.as_str())))
        },
    }
}


// ---------------------------------------------------------------------------
// Chained runs: the decisions taken around each step of a task chain
// ---------------------------------------------------------------------------

/// The task a chain step runs under: the objective, then the step's
/// 1-based position, the step count and its description.
pub open spec fn chain_step_task_text(
    objective: Seq<char>,
    step_index: nat,
    total: nat,
    description: Option<Seq<char>>,
) -> Seq<char> {
    objective + " [Step "@ + decimal(step_index + 1) + "/"@ + decimal(total) + ": "@ + match description {
        Some(d) => d,
        None => "unnamed step"@,
    } + "]"@
}

/// The task text for the chain step at `step_index`.
pub fn chain_step_task(
    objective: &str,
    step_index: usize,
    total_steps: usize,
    description: Option<&str>,
) -> (r: String)
    requires
        step_index < usize::MAX,
    ensures
        r@ == chain_step_task_text(
            objective@,
            step_index as nat,
            total_steps as nat,
            match description {
                Some(d) => Some(d@),
                None => None,
            },
        ),
{
    let mut out = to_owned_string(objective);
    push_str(&mut out, " [Step ");
    push_decimal(&mut out, (step_index + 1) as u64);
    push_str(&mut out, "/");
    push_decimal(&mut out, total_steps as u64);
    push_str(&mut out, ": ");
    match description {
        Some(d) => push_str(&mut out, d),
        None => push_str(&mut out, "unnamed step"),
    }
    push_str(&mut out, "]");
    out
}

/// How a finished step is classified: resolved, with the files the state
/// records as written (in ascending order), when the run succeeded; failed
/// and not recoverable otherwise, with the run's error or a fixed text.
pub open spec fn step_outcome_ok(
    o: StepOutcome,
    success: bool,
    error: Option<Seq<char>>,
    description: Seq<char>,
    written: Seq<Seq<char>>,
) -> bool {
    if success {
        &&& o matches StepOutcome::Resolved { summary, files_modified }
        &&& summary@ == "Step "@ + description + " completed successfully"@
        &&& texts(files_modified@) == written
    } else {
        &&& o matches StepOutcome::Failed { reason, recoverable }
        &&& !recoverable
        &&& reason@ == match error {
            Some(e) => e,
            None => "Step failed without error details"@,
        }
    }
}

/// The outcome of the chain step described as `description`, given how its
/// run ended and the state it left.
pub fn chain_step_outcome(
    success: bool,
    error: &Option<String>,
    description: &str,
    final_state: &AgentState,
) -> (r: StepOutcome)
    ensures
        step_outcome_ok(
            r,
            success,
            match error {
                Some(e) => Some(e@),
                None => None,
            },
            description@,
            final_state.files_written@,
        ),
{
    if success {
        let mut files: Vec<String> = Vec::new();
        let n = final_state.files_written.len();
        let mut i: usize = 0;
        while i < n
            invariant
                i <= n,
                n == final_state.files_written@.len(),
                texts(files@) == final_state.files_written@.take(i as int),
            decreases n - i,
        {
            let p = to_owned_string(final_state.files_written.item_at(i));
            let ghost before = texts(files@);
            files.push(p);
            assert(texts(files@) =~= before.push(final_state.files_written@[i as int]));
            i = i + 1;
            assert(before.push(final_state.files_written@[i - 1]) =~= final_state.files_written@.take(
                i as int,
            ));
        }
        assert(final_state.files_written@.take(n as int) =~= final_state.files_written@);
        let mut summary = to_owned_string("Step ");
        push_str(&mut summary, description);
        push_str(&mut summary, " completed successfully");
        StepOutcome::Resolved { summary, files_modified: files }
    } else {
        let reason = match error {
            Some(e) => to_owned_string(e.as_str()),
            None => to_owned_string("Step failed without error details"),
        };
        StepOutcome::Failed { reason, recoverable: false }
    }
}

/// The report a chain step is validated with when its run left none: a
/// successful step without a report was read-only and is accepted as such.
pub fn read_only_step_report(success: bool, has_report: bool) -> (r: Option<ValidationReport>)
    ensures
        r is Some <==> success && !has_report,
        r matches Some(rep) ==> {
            &&& rep.decision == ValidationDecision::Accept
            &&& rep.stage_results@.len() == 0
            &&& rep.message@ == "Read-only chain step completed without mutations"@
            &&& !rep.requires_revert
        },
{
    if success && !has_report {
        Some(ValidationReport::accept("Read-only chain step completed without mutations"))
    } else {
        None
    }
}

/// Where a chained run stopped on an error.
#[derive(Debug, Clone, Copy, PartialEq, Eq)]
pub enum ChainFailureStage {
    /// The step could not be started.
    StartStep,
    /// The read-only step could not be marked validated.
    MarkValidated,
    /// The state could not be saved.
    Persist,
    /// The step's checkpoint could not be saved.
    Checkpoint,
    /// The step could not be completed.
    Completion,
    /// The next step's state could not be prepared.
    PrepareNext,
}

/// The error text of a chained run that stopped at `stage` on the step at
/// `step_index` with the error `error`.
pub open spec fn chain_failure_text(stage: ChainFailureStage, step_index: nat, error: Seq<char>) -> Seq<
    char,
> {
    match stage {
        ChainFailureStage::StartStep => "Failed to start step "@ + decimal(step_index) + ": "@ + error,
        ChainFailureStage::MarkValidated => "Failed to mark step validated: "@ + error,
        ChainFailureStage::Persist => "Failed to persist chain state: "@ + error,
        ChainFailureStage::Checkpoint => "Failed to save chain checkpoint: "@ + error,
        ChainFailureStage::Completion => "Step completion error: "@ + error,
        ChainFailureStage::PrepareNext => "Failed to prepare next chain step: "@ + error,
    }
}

/// The result of a chained run that stopped on an error: failed, with the
/// steps completed so far and the error's text.
pub fn chain_failure(
    chain_id: &str,
    completed_steps: usize,
    total_steps: usize,
    stage: ChainFailureStage,
    step_index: usize,
    error: &str,
) -> (r: ChainExecutionResult)
    ensures
        !r.success,
        r.chain_id@ == chain_id@,
        r.completed_steps == completed_steps,
        r.total_steps == total_steps,
        r.final_status == ChainStatus::Failed,
        r.error matches Some(e) && e@ == chain_failure_text(stage, step_index as nat, error@),
{
    let mut m = String::new();
    match stage {
        ChainFailureStage::StartStep => {
            push_str(&mut m, "Failed to start step ");
            push_decimal(&mut m, step_index as u64);
            push_str(&mut m, ": ");
        },
        ChainFailureStage::MarkValidated => push_str(&mut m, "Failed to mark step validated: "),
        ChainFailureStage::Persist => push_str(&mut m, "Failed to persist chain state: "),
        ChainFailureStage::Checkpoint => push_str(&mut m, "Failed to save chain checkpoint: "),
        ChainFailureStage::Completion => push_str(&mut m, "Step completion error: "),
        ChainFailureStage::PrepareNext => push_str(&mut m, "Failed to prepare next chain step: "),
    }
    push_str(&mut m, error);
    proof {
        reveal_strlit("");
    }
    assert(m@ =~= chain_failure_text(stage, step_index as nat, error@));
    ChainExecutionResult {
        success: false,
        chain_id: to_owned_string(chain_id),
        completed_steps,
        total_steps,
        final_status: ChainStatus::Failed,
        error: Some(m),
    }
}

/// The result of a chained run whose steps ran out: successful exactly
/// when the chain is complete, with the chain's final status, and otherwise
/// the note that a step failure halted it.
pub fn chain_final_result(
    chain_id: &str,
    completed_steps: usize,
    total_steps: usize,
    complete: bool,
    status: ChainStatus,
) -> (r: ChainExecutionResult)
    ensures
        r.success == complete,
        r.chain_id@ == chain_id@,
        r.completed_steps == completed_steps,
        r.total_steps == total_steps,
        r.final_status == status,
        complete ==> r.error is None,
        !complete ==> (r.error matches Some(e) && e@ == "Chain halted due to step failure"@),
{
    ChainExecutionResult {
        success: complete,
        chain_id: to_owned_string(chain_id),
        completed_steps,
        total_steps,
        final_status: status,
        error: if complete {
            None
        } else {
            Some(to_owned_string("Chain halted due to step failure"))
        },
    }
}

/// The result of a run without a chain: one step, done exactly when the
/// run succeeded, under the id `single-task`.
pub fn single_task_result(success: bool, error: Option<String>) -> (r: ChainExecutionResult)
    ensures
        r.success == success,
        r.chain_id@ == "single-task"@,
        r.completed_steps == (if success { 1usize } else { 0usize }),
        r.total_steps == 1,
        r.final_status == (if success { ChainStatus::Complete } else { ChainStatus::Failed }),
        r.error == error,
{
    ChainExecutionResult {
        success,
        chain_id: to_owned_string("single-task"),
        completed_steps: if success {
            1
        } else {
            0
        },
        total_steps: 1,
        final_status: if success {
            ChainStatus::Complete
        } else {
            ChainStatus::Failed
        },
        error,
    }
}

} // verus!

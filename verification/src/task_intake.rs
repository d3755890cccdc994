//! Structured task intake: turns a freeform request into an explicit,
//! inspectable objective with a class, a risk level and a proposed mode.
use crate::text::{contains_seq, lowercase_of, push_str, str_contains, to_lowercase, to_owned_string};
use vstd::prelude::*;

verus! {

/// Classification of task type.
#[derive(Debug, Clone, Copy, PartialEq, Eq, Structural)]
pub enum TaskClass {
    /// Read-only analysis and exploration
    ReadOnlyAnalysis,
    /// Edit a single file
    SingleFileEdit,
    /// Edit multiple files
    MultiFileEdit,
    /// Refactoring across files
    Refactor,
    /// Validation/testing only
    ValidationOnly,
    /// Fix a specific error
    DebugFix,
    /// Cannot determine intent
    Unknown,
}

/// Risk level assessment.
#[derive(Debug, Clone, Copy, PartialEq, Eq, PartialOrd, Ord, Structural)]
pub enum TaskRiskLevel {
    /// Read operations only
    Low,
    /// Limited edits
    Medium,
    /// Broad changes
    High,
}

/// Execution mode recommendation.
#[derive(Debug, Clone, Copy, PartialEq, Eq, Structural)]
pub enum ExecutionMode {
    /// No mutations
    Analysis,
    /// Mutations allowed
    Edit,
    /// Requires explicit approval
    ApprovalRequired,
}

pub open spec fn class_text(c: TaskClass) -> Seq<char> {
    match c {
        TaskClass::ReadOnlyAnalysis => "read-only analysis"@,
        TaskClass::SingleFileEdit => "single-file edit"@,
        TaskClass::MultiFileEdit => "multi-file edit"@,
        TaskClass::Refactor => "refactoring"@,
        TaskClass::ValidationOnly => "validation only"@,
        TaskClass::DebugFix => "debug fix"@,
        TaskClass::Unknown => "unknown"@,
    }
}

pub open spec fn risk_text(r: TaskRiskLevel) -> Seq<char> {
    match r {
        TaskRiskLevel::Low => "low"@,
        TaskRiskLevel::Medium => "medium"@,
        TaskRiskLevel::High => "high"@,
    }
}

pub open spec fn intake_mode_text(m: ExecutionMode) -> Seq<char> {
    match m {
        ExecutionMode::Analysis => "analysis"@,
        ExecutionMode::Edit => "edit"@,
        ExecutionMode::ApprovalRequired => "approval-required"@,
    }
}

impl TaskClass {
    /// Human-readable name (what `Display` prints).
    pub fn label(&self) -> (r: &'static str)
        ensures
            r@ == class_text(*self),
    {
        match self {
            TaskClass::ReadOnlyAnalysis => "read-only analysis",
            TaskClass::SingleFileEdit => "single-file edit",
            TaskClass::MultiFileEdit => "multi-file edit",
            TaskClass::Refactor => "refactoring",
            TaskClass::ValidationOnly => "validation only",
            TaskClass::DebugFix => "debug fix",
            TaskClass::Unknown => "unknown",
        }
    }
}

impl TaskRiskLevel {
    /// Human-readable name (what `Display` prints).
    pub fn label(&self) -> (r: &'static str)
        ensures
            r@ == risk_text(*self),
    {
        match self {
            TaskRiskLevel::Low => "low",
            TaskRiskLevel::Medium => "medium",
            TaskRiskLevel::High => "high",
        }
    }
}

impl ExecutionMode {
    /// Human-readable name (what `Display` prints).
    pub fn label(&self) -> (r: &'static str)
        ensures
            r@ == intake_mode_text(*self),
    {
        match self {
            ExecutionMode::Analysis => "analysis",
            ExecutionMode::Edit => "edit",
            ExecutionMode::ApprovalRequired => "approval-required",
        }
    }
}

/// Interpreted task from freeform input.
#[derive(Debug, Clone)]
pub struct StructuredTaskIntake {
    /// Original request from user
    pub original_request: String,
    /// Interpreted objective
    pub interpreted_objective: String,
    /// Classified task type
    pub task_class: TaskClass,
    /// Risk assessment
    pub risk_level: TaskRiskLevel,
    /// Likely file targets
    pub likely_targets: Vec<String>,
    /// Whether clarification is required
    pub requires_clarification: bool,
    /// Questions to ask user (if clarification needed)
    pub clarification_questions: Vec<String>,
    /// Proposed execution mode
    pub proposed_execution_mode: ExecutionMode,
}

impl StructuredTaskIntake {
    /// An unclassified intake of `original`.
    pub fn new(original: &str) -> (r: Self)
        ensures
            r.original_request@ == original@,
            r.interpreted_objective@.len() == 0,
            r.task_class == TaskClass::Unknown,
            r.risk_level == TaskRiskLevel::Low,
            r.likely_targets@.len() == 0,
            !r.requires_clarification,
            r.clarification_questions@.len() == 0,
            r.proposed_execution_mode == ExecutionMode::Analysis,
    {
        StructuredTaskIntake {
            original_request: to_owned_string(original),
            interpreted_objective: String::new(),
            task_class: TaskClass::Unknown,
            risk_level: TaskRiskLevel::Low,
            likely_targets: Vec::new(),
            requires_clarification: false,
            clarification_questions: Vec::new(),
            proposed_execution_mode: ExecutionMode::Analysis,
        }
    }

    pub fn with_objective(self, objective: &str) -> (r: Self)
        ensures
            r.interpreted_objective@ == objective@,
            r == (StructuredTaskIntake { interpreted_objective: r.interpreted_objective, ..self }),
    {
        let mut r = self;
        r.interpreted_objective = to_owned_string(objective);
        r
    }

    pub fn with_class(self, class: TaskClass) -> (r: Self)
        ensures
            r == (StructuredTaskIntake { task_class: class, ..self }),
    {
        let mut r = self;
        r.task_class = class;
        r
    }

    pub fn with_risk(self, risk: TaskRiskLevel) -> (r: Self)
        ensures
            r == (StructuredTaskIntake { risk_level: risk, ..self }),
    {
        let mut r = self;
        r.risk_level = risk;
        r
    }

    /// Adds a likely target.
    pub fn with_target(self, target: &str) -> (r: Self)
        ensures
            r.likely_targets@.len() == self.likely_targets@.len() + 1,
            r.likely_targets@.drop_last() == self.likely_targets@,
            r.likely_targets@.last()@ == target@,
            r == (StructuredTaskIntake { likely_targets: r.likely_targets, ..self }),
    {
        let mut r = self;
        r.likely_targets.push(to_owned_string(target));
        assert(r.likely_targets@.drop_last() =~= self.likely_targets@);
        r
    }

    /// Requires clarification, asking `question`.
    pub fn require_clarification(self, question: &str) -> (r: Self)
        ensures
            r.requires_clarification,
            r.clarification_questions@.len() == self.clarification_questions@.len() + 1,
            r.clarification_questions@.drop_last() == self.clarification_questions@,
            r.clarification_questions@.last()@ == question@,
            r == (StructuredTaskIntake {
                requires_clarification: true,
                clarification_questions: r.clarification_questions,
                ..self
            }),
    {
        let mut r = self;
        r.requires_clarification = true;
        r.clarification_questions.push(to_owned_string(question));
        assert(r.clarification_questions@.drop_last() =~= self.clarification_questions@);
        r
    }

    pub fn with_mode(self, mode: ExecutionMode) -> (r: Self)
        ensures
            r == (StructuredTaskIntake { proposed_execution_mode: mode, ..self }),
    {
        let mut r = self;
        r.proposed_execution_mode = mode;
        r
    }

    /// Read-only: analysis or validation only.
    pub fn is_read_only(&self) -> (r: bool)
        ensures
            r == (self.task_class == TaskClass::ReadOnlyAnalysis || self.task_class
                == TaskClass::ValidationOnly),
    {
        matches!(self.task_class, TaskClass::ReadOnlyAnalysis | TaskClass::ValidationOnly)
    }

    /// The task edits files.
    pub fn is_edit_task(&self) -> (r: bool)
        ensures
            r == (self.task_class == TaskClass::SingleFileEdit || self.task_class
                == TaskClass::MultiFileEdit || self.task_class == TaskClass::Refactor
                || self.task_class == TaskClass::DebugFix),
    {
        matches!(
            self.task_class,
            TaskClass::SingleFileEdit | TaskClass::MultiFileEdit | TaskClass::Refactor
                | TaskClass::DebugFix
        )
    }

    /// `<class> task (<risk> risk) - <mode or "requires clarification">`.
    pub fn summary(&self) -> (r: String)
        ensures
            r@ == class_text(self.task_class) + " task ("@ + risk_text(self.risk_level)
                + " risk) - "@ + if self.requires_clarification {
                "requires clarification"@
            } else {
                intake_mode_text(self.proposed_execution_mode)
            },
    {
        let mut out = to_owned_string(self.task_class.label());
        push_str(&mut out, " task (");
        push_str(&mut out, self.risk_level.label());
        push_str(&mut out, " risk) - ");
        if self.requires_clarification {
            push_str(&mut out, "requires clarification");
        } else {
            push_str(&mut out, self.proposed_execution_mode.label());
        }
        out
    }
}

pub open spec fn mentions_read_only(r: Seq<char>) -> bool {
    contains_seq(r, "explain"@) || contains_seq(r, "what is"@) || contains_seq(r, "how does"@)
        || contains_seq(r, "show me"@) || contains_seq(r, "find"@) || contains_seq(r, "search"@)
        || contains_seq(r, "analyze"@) || contains_seq(r, "review"@) || contains_seq(
        r,
        "look at"@,
    ) || contains_seq(r, "read"@) || contains_seq(r, "list"@) || contains_seq(r, "describe"@)
}

pub open spec fn mentions_single_file_edit(r: Seq<char>) -> bool {
    contains_seq(r, "fix the file"@) || contains_seq(r, "update the file"@) || contains_seq(
        r,
        "change the file"@,
    ) || contains_seq(r, "edit the file"@) || contains_seq(r, "modify the file"@)
        || contains_seq(r, "in file"@)
}

pub open spec fn mentions_multi_file_edit(r: Seq<char>) -> bool {
    contains_seq(r, "files"@) || contains_seq(r, "multiple files"@) || contains_seq(
        r,
        "all files"@,
    ) || contains_seq(r, "update all"@) || contains_seq(r, "change all"@) || contains_seq(
        r,
        "rename across"@,
    ) || contains_seq(r, "update across"@)
}

pub open spec fn mentions_refactor(r: Seq<char>) -> bool {
    contains_seq(r, "refactor"@) || contains_seq(r, "restructure"@) || contains_seq(
        r,
        "reorganize"@,
    ) || contains_seq(r, "split into"@) || contains_seq(r, "extract"@) || contains_seq(
        r,
        "move to"@,
    ) || contains_seq(r, "consolidate"@) || contains_seq(r, "clean up"@)
}

pub open spec fn mentions_debug_fix(r: Seq<char>) -> bool {
    contains_seq(r, "fix"@) || contains_seq(r, "bug"@) || contains_seq(r, "error"@)
        || contains_seq(r, "crash"@) || contains_seq(r, "broken"@) || contains_seq(
        r,
        "not working"@,
    ) || contains_seq(r, "fails"@) || contains_seq(r, "failure"@) || contains_seq(r, "issue"@)
        || contains_seq(r, "problem"@)
}

pub open spec fn mentions_validation(r: Seq<char>) -> bool {
    contains_seq(r, "test"@) || contains_seq(r, "validate"@) || contains_seq(r, "check"@)
        || contains_seq(r, "verify"@) || contains_seq(r, "lint"@) || contains_seq(
        r,
        "run tests"@,
    ) || contains_seq(r, "check build"@) || contains_seq(r, "validate code"@)
}

/// The edit class a (lowercased) request reads as, before validation and
/// clarification are considered: the first of single-file edit, multi-file
/// edit, refactor and debug fix whose words it holds.
pub open spec fn edit_class(r: Seq<char>) -> TaskClass {
    if mentions_single_file_edit(r) {
        TaskClass::SingleFileEdit
    } else if mentions_multi_file_edit(r) {
        TaskClass::MultiFileEdit
    } else if mentions_refactor(r) {
        TaskClass::Refactor
    } else if mentions_debug_fix(r) {
        TaskClass::DebugFix
    } else {
        TaskClass::Unknown
    }
}

pub open spec fn class_risk(c: TaskClass) -> TaskRiskLevel {
    match c {
        TaskClass::SingleFileEdit => TaskRiskLevel::Medium,
        TaskClass::DebugFix => TaskRiskLevel::Medium,
        TaskClass::MultiFileEdit => TaskRiskLevel::High,
        TaskClass::Refactor => TaskRiskLevel::High,
        _ => TaskRiskLevel::Low,
    }
}

pub open spec fn class_mode(c: TaskClass) -> ExecutionMode {
    match c {
        TaskClass::SingleFileEdit => ExecutionMode::Edit,
        TaskClass::DebugFix => ExecutionMode::Edit,
        TaskClass::MultiFileEdit => ExecutionMode::ApprovalRequired,
        TaskClass::Refactor => ExecutionMode::ApprovalRequired,
        _ => ExecutionMode::Analysis,
    }
}

pub open spec fn class_objective(c: TaskClass) -> Seq<char> {
    match c {
        TaskClass::SingleFileEdit => "Edit a single file"@,
        TaskClass::MultiFileEdit => "Edit multiple files"@,
        TaskClass::Refactor => "Refactor code across files"@,
        TaskClass::DebugFix => "Fix a specific error or bug"@,
        _ => seq![],
    }
}

/// The question asked of requests that cannot be classified.
pub open spec fn clarification_question() -> Seq<char> {
    "Please specify if this is analysis, single-file edit, multi-file edit, or refactoring"@
}

/// What the classifier gives for a request.
pub open spec fn classified_as(r: StructuredTaskIntake, request: Seq<char>) -> bool {
    let l = lowercase_of(request);
    if mentions_read_only(l) {
        &&& r.task_class == TaskClass::ReadOnlyAnalysis
        &&& r.risk_level == TaskRiskLevel::Low
        &&& r.proposed_execution_mode == ExecutionMode::Analysis
        &&& r.interpreted_objective@ == "Analyze and explore codebase"@
        &&& !r.requires_clarification
        &&& r.clarification_questions@.len() == 0
    } else if mentions_validation(l) {
        &&& r.task_class == TaskClass::ValidationOnly
        &&& r.risk_level == TaskRiskLevel::Low
        &&& r.proposed_execution_mode == ExecutionMode::Analysis
        &&& r.interpreted_objective@ == "Run validation and tests"@
        &&& !r.requires_clarification
        &&& r.clarification_questions@.len() == 0
    } else if edit_class(l) == TaskClass::Unknown {
        &&& r.task_class == TaskClass::Unknown
        &&& r.risk_level == TaskRiskLevel::High
        &&& r.proposed_execution_mode == ExecutionMode::ApprovalRequired
        &&& r.interpreted_objective@.len() == 0
        &&& r.requires_clarification
        &&& r.clarification_questions@.len() == 1
        &&& r.clarification_questions@[0]@ == clarification_question()
    } else {
        &&& r.task_class == edit_class(l)
        &&& r.risk_level == class_risk(edit_class(l))
        &&& r.proposed_execution_mode == class_mode(edit_class(l))
        &&& r.interpreted_objective@ == class_objective(edit_class(l))
        &&& !r.requires_clarification
        &&& r.clarification_questions@.len() == 0
    }
}

/// A request whose lowercase form holds a read-only word (explain, what is,
/// how does, show me, find, search, analyze, review, look at, read, list,
/// describe) is a low-risk analysis task.
pub proof fn law_read_only_requests(request: Seq<char>, r: StructuredTaskIntake)
    requires
        classified_as(r, request),
        (contains_seq(lowercase_of(request), "explain"@)
            || contains_seq(lowercase_of(request), "what is"@)
            || contains_seq(lowercase_of(request), "how does"@)
            || contains_seq(lowercase_of(request), "show me"@)
            || contains_seq(lowercase_of(request), "find"@)
            || contains_seq(lowercase_of(request), "search"@)
            || contains_seq(lowercase_of(request), "analyze"@)
            || contains_seq(lowercase_of(request), "review"@)
            || contains_seq(lowercase_of(request), "look at"@)
            || contains_seq(lowercase_of(request), "read"@)
            || contains_seq(lowercase_of(request), "list"@)
            || contains_seq(lowercase_of(request), "describe"@)),
    ensures
        r.task_class == TaskClass::ReadOnlyAnalysis,
        r.risk_level == TaskRiskLevel::Low,
        r.proposed_execution_mode == ExecutionMode::Analysis,
        r.interpreted_objective@ == "Analyze and explore codebase"@,
        !r.requires_clarification,
        r.clarification_questions@.len() == 0,
{
}

/// Otherwise a request with a validation word (test, validate, check,
/// verify, lint, run tests, check build, validate code) is a low-risk
/// validation task.
pub proof fn law_validation_requests(request: Seq<char>, r: StructuredTaskIntake)
    requires
        classified_as(r, request),
        !(contains_seq(lowercase_of(request), "explain"@)
            || contains_seq(lowercase_of(request), "what is"@)
            || contains_seq(lowercase_of(request), "how does"@)
            || contains_seq(lowercase_of(request), "show me"@)
            || contains_seq(lowercase_of(request), "find"@)
            || contains_seq(lowercase_of(request), "search"@)
            || contains_seq(lowercase_of(request), "analyze"@)
            || contains_seq(lowercase_of(request), "review"@)
            || contains_seq(lowercase_of(request), "look at"@)
            || contains_seq(lowercase_of(request), "read"@)
            || contains_seq(lowercase_of(request), "list"@)
            || contains_seq(lowercase_of(request), "describe"@)),
        (contains_seq(lowercase_of(request), "test"@)
            || contains_seq(lowercase_of(request), "validate"@)
            || contains_seq(lowercase_of(request), "check"@)
            || contains_seq(lowercase_of(request), "verify"@)
            || contains_seq(lowercase_of(request), "lint"@)
            || contains_seq(lowercase_of(request), "run tests"@)
            || contains_seq(lowercase_of(request), "check build"@)
            || contains_seq(lowercase_of(request), "validate code"@)),
    ensures
        r.task_class == TaskClass::ValidationOnly,
        r.risk_level == TaskRiskLevel::Low,
        r.proposed_execution_mode == ExecutionMode::Analysis,
        r.interpreted_objective@ == "Run validation and tests"@,
        !r.requires_clarification,
        r.clarification_questions@.len() == 0,
{
}

/// Otherwise a request naming a single-file edit (fix/update/change/edit/
/// modify the file, in file) is a medium-risk edit.
pub proof fn law_single_file_requests(request: Seq<char>, r: StructuredTaskIntake)
    requires
        classified_as(r, request),
        !(contains_seq(lowercase_of(request), "explain"@)
            || contains_seq(lowercase_of(request), "what is"@)
            || contains_seq(lowercase_of(request), "how does"@)
            || contains_seq(lowercase_of(request), "show me"@)
            || contains_seq(lowercase_of(request), "find"@)
            || contains_seq(lowercase_of(request), "search"@)
            || contains_seq(lowercase_of(request), "analyze"@)
            || contains_seq(lowercase_of(request), "review"@)
            || contains_seq(lowercase_of(request), "look at"@)
            || contains_seq(lowercase_of(request), "read"@)
            || contains_seq(lowercase_of(request), "list"@)
            || contains_seq(lowercase_of(request), "describe"@)),
        !(contains_seq(lowercase_of(request), "test"@)
            || contains_seq(lowercase_of(request), "validate"@)
            || contains_seq(lowercase_of(request), "check"@)
            || contains_seq(lowercase_of(request), "verify"@)
            || contains_seq(lowercase_of(request), "lint"@)
            || contains_seq(lowercase_of(request), "run tests"@)
            || contains_seq(lowercase_of(request), "check build"@)
            || contains_seq(lowercase_of(request), "validate code"@)),
        (contains_seq(lowercase_of(request), "fix the file"@)
            || contains_seq(lowercase_of(request), "update the file"@)
            || contains_seq(lowercase_of(request), "change the file"@)
            || contains_seq(lowercase_of(request), "edit the file"@)
            || contains_seq(lowercase_of(request), "modify the file"@)
            || contains_seq(lowercase_of(request), "in file"@)),
    ensures
        r.task_class == TaskClass::SingleFileEdit,
        r.risk_level == TaskRiskLevel::Medium,
        r.proposed_execution_mode == ExecutionMode::Edit,
        r.interpreted_objective@ == "Edit a single file"@,
        !r.requires_clarification,
        r.clarification_questions@.len() == 0,
{
}

/// Otherwise a request naming several files (files, multiple files, all
/// files, update all, change all, rename across, update across) is a
/// high-risk edit that needs approval.
pub proof fn law_multi_file_requests(request: Seq<char>, r: StructuredTaskIntake)
    requires
        classified_as(r, request),
        !(contains_seq(lowercase_of(request), "explain"@)
            || contains_seq(lowercase_of(request), "what is"@)
            || contains_seq(lowercase_of(request), "how does"@)
            || contains_seq(lowercase_of(request), "show me"@)
            || contains_seq(lowercase_of(request), "find"@)
            || contains_seq(lowercase_of(request), "search"@)
            || contains_seq(lowercase_of(request), "analyze"@)
            || contains_seq(lowercase_of(request), "review"@)
            || contains_seq(lowercase_of(request), "look at"@)
            || contains_seq(lowercase_of(request), "read"@)
            || contains_seq(lowercase_of(request), "list"@)
            || contains_seq(lowercase_of(request), "describe"@)),
        !(contains_seq(lowercase_of(request), "test"@)
            || contains_seq(lowercase_of(request), "validate"@)
            || contains_seq(lowercase_of(request), "check"@)
            || contains_seq(lowercase_of(request), "verify"@)
            || contains_seq(lowercase_of(request), "lint"@)
            || contains_seq(lowercase_of(request), "run tests"@)
            || contains_seq(lowercase_of(request), "check build"@)
            || contains_seq(lowercase_of(request), "validate code"@)),
        !(contains_seq(lowercase_of(request), "fix the file"@)
            || contains_seq(lowercase_of(request), "update the file"@)
            || contains_seq(lowercase_of(request), "change the file"@)
            || contains_seq(lowercase_of(request), "edit the file"@)
            || contains_seq(lowercase_of(request), "modify the file"@)
            || contains_seq(lowercase_of(request), "in file"@)),
        (contains_seq(lowercase_of(request), "files"@)
            || contains_seq(lowercase_of(request), "multiple files"@)
            || contains_seq(lowercase_of(request), "all files"@)
            || contains_seq(lowercase_of(request), "update all"@)
            || contains_seq(lowercase_of(request), "change all"@)
            || contains_seq(lowercase_of(request), "rename across"@)
            || contains_seq(lowercase_of(request), "update across"@)),
    ensures
        r.task_class == TaskClass::MultiFileEdit,
        r.risk_level == TaskRiskLevel::High,
        r.proposed_execution_mode == ExecutionMode::ApprovalRequired,
        r.interpreted_objective@ == "Edit multiple files"@,
        !r.requires_clarification,
        r.clarification_questions@.len() == 0,
{
}

/// Otherwise a refactoring request (refactor, restructure, reorganize,
/// split into, extract, move to, consolidate, clean up) is a high-risk
/// change that needs approval.
pub proof fn law_refactor_requests(request: Seq<char>, r: StructuredTaskIntake)
    requires
        classified_as(r, request),
        !(contains_seq(lowercase_of(request), "explain"@)
            || contains_seq(lowercase_of(request), "what is"@)
            || contains_seq(lowercase_of(request), "how does"@)
            || contains_seq(lowercase_of(request), "show me"@)
            || contains_seq(lowercase_of(request), "find"@)
            || contains_seq(lowercase_of(request), "search"@)
            || contains_seq(lowercase_of(request), "analyze"@)
            || contains_seq(lowercase_of(request), "review"@)
            || contains_seq(lowercase_of(request), "look at"@)
            || contains_seq(lowercase_of(request), "read"@)
            || contains_seq(lowercase_of(request), "list"@)
            || contains_seq(lowercase_of(request), "describe"@)),
        !(contains_seq(lowercase_of(request), "test"@)
            || contains_seq(lowercase_of(request), "validate"@)
            || contains_seq(lowercase_of(request), "check"@)
            || contains_seq(lowercase_of(request), "verify"@)
            || contains_seq(lowercase_of(request), "lint"@)
            || contains_seq(lowercase_of(request), "run tests"@)
            || contains_seq(lowercase_of(request), "check build"@)
            || contains_seq(lowercase_of(request), "validate code"@)),
        !(contains_seq(lowercase_of(request), "fix the file"@)
            || contains_seq(lowercase_of(request), "update the file"@)
            || contains_seq(lowercase_of(request), "change the file"@)
            || contains_seq(lowercase_of(request), "edit the file"@)
            || contains_seq(lowercase_of(request), "modify the file"@)
            || contains_seq(lowercase_of(request), "in file"@)),
        !(contains_seq(lowercase_of(request), "files"@)
            || contains_seq(lowercase_of(request), "multiple files"@)
            || contains_seq(lowercase_of(request), "all files"@)
            || contains_seq(lowercase_of(request), "update all"@)
            || contains_seq(lowercase_of(request), "change all"@)
            || contains_seq(lowercase_of(request), "rename across"@)
            || contains_seq(lowercase_of(request), "update across"@)),
        (contains_seq(lowercase_of(request), "refactor"@)
            || contains_seq(lowercase_of(request), "restructure"@)
            || contains_seq(lowercase_of(request), "reorganize"@)
            || contains_seq(lowercase_of(request), "split into"@)
            || contains_seq(lowercase_of(request), "extract"@)
            || contains_seq(lowercase_of(request), "move to"@)
            || contains_seq(lowercase_of(request), "consolidate"@)
            || contains_seq(lowercase_of(request), "clean up"@)),
    ensures
        r.task_class == TaskClass::Refactor,
        r.risk_level == TaskRiskLevel::High,
        r.proposed_execution_mode == ExecutionMode::ApprovalRequired,
        r.interpreted_objective@ == "Refactor code across files"@,
        !r.requires_clarification,
        r.clarification_questions@.len() == 0,
{
}

/// Otherwise a request that reports a fault (fix, bug, error, crash,
/// broken, not working, fails, failure, issue, problem) is a medium-risk
/// fix.
pub proof fn law_debug_fix_requests(request: Seq<char>, r: StructuredTaskIntake)
    requires
        classified_as(r, request),
        !(contains_seq(lowercase_of(request), "explain"@)
            || contains_seq(lowercase_of(request), "what is"@)
            || contains_seq(lowercase_of(request), "how does"@)
            || contains_seq(lowercase_of(request), "show me"@)
            || contains_seq(lowercase_of(request), "find"@)
            || contains_seq(lowercase_of(request), "search"@)
            || contains_seq(lowercase_of(request), "analyze"@)
            || contains_seq(lowercase_of(request), "review"@)
            || contains_seq(lowercase_of(request), "look at"@)
            || contains_seq(lowercase_of(request), "read"@)
            || contains_seq(lowercase_of(request), "list"@)
            || contains_seq(lowercase_of(request), "describe"@)),
        !(contains_seq(lowercase_of(request), "test"@)
            || contains_seq(lowercase_of(request), "validate"@)
            || contains_seq(lowercase_of(request), "check"@)
            || contains_seq(lowercase_of(request), "verify"@)
            || contains_seq(lowercase_of(request), "lint"@)
            || contains_seq(lowercase_of(request), "run tests"@)
            || contains_seq(lowercase_of(request), "check build"@)
            || contains_seq(lowercase_of(request), "validate code"@)),
        !(contains_seq(lowercase_of(request), "fix the file"@)
            || contains_seq(lowercase_of(request), "update the file"@)
            || contains_seq(lowercase_of(request), "change the file"@)
            || contains_seq(lowercase_of(request), "edit the file"@)
            || contains_seq(lowercase_of(request), "modify the file"@)
            || contains_seq(lowercase_of(request), "in file"@)),
        !(contains_seq(lowercase_of(request), "files"@)
            || contains_seq(lowercase_of(request), "multiple files"@)
            || contains_seq(lowercase_of(request), "all files"@)
            || contains_seq(lowercase_of(request), "update all"@)
            || contains_seq(lowercase_of(request), "change all"@)
            || contains_seq(lowercase_of(request), "rename across"@)
            || contains_seq(lowercase_of(request), "update across"@)),
        !(contains_seq(lowercase_of(request), "refactor"@)
            || contains_seq(lowercase_of(request), "restructure"@)
            || contains_seq(lowercase_of(request), "reorganize"@)
            || contains_seq(lowercase_of(request), "split into"@)
            || contains_seq(lowercase_of(request), "extract"@)
            || contains_seq(lowercase_of(request), "move to"@)
            || contains_seq(lowercase_of(request), "consolidate"@)
            || contains_seq(lowercase_of(request), "clean up"@)),
        (contains_seq(lowercase_of(request), "fix"@)
            || contains_seq(lowercase_of(request), "bug"@)
            || contains_seq(lowercase_of(request), "error"@)
            || contains_seq(lowercase_of(request), "crash"@)
            || contains_seq(lowercase_of(request), "broken"@)
            || contains_seq(lowercase_of(request), "not working"@)
            || contains_seq(lowercase_of(request), "fails"@)
            || contains_seq(lowercase_of(request), "failure"@)
            || contains_seq(lowercase_of(request), "issue"@)
            || contains_seq(lowercase_of(request), "problem"@)),
    ensures
        r.task_class == TaskClass::DebugFix,
        r.risk_level == TaskRiskLevel::Medium,
        r.proposed_execution_mode == ExecutionMode::Edit,
        r.interpreted_objective@ == "Fix a specific error or bug"@,
        !r.requires_clarification,
        r.clarification_questions@.len() == 0,
{
}

/// A request with none of these words is not classified: it is high risk,
/// needs approval and asks which kind of task it is.
pub proof fn law_unclassified_requests(request: Seq<char>, r: StructuredTaskIntake)
    requires
        classified_as(r, request),
        !(contains_seq(lowercase_of(request), "explain"@)
            || contains_seq(lowercase_of(request), "what is"@)
            || contains_seq(lowercase_of(request), "how does"@)
            || contains_seq(lowercase_of(request), "show me"@)
            || contains_seq(lowercase_of(request), "find"@)
            || contains_seq(lowercase_of(request), "search"@)
            || contains_seq(lowercase_of(request), "analyze"@)
            || contains_seq(lowercase_of(request), "review"@)
            || contains_seq(lowercase_of(request), "look at"@)
            || contains_seq(lowercase_of(request), "read"@)
            || contains_seq(lowercase_of(request), "list"@)
            || contains_seq(lowercase_of(request), "describe"@)),
        !(contains_seq(lowercase_of(request), "test"@)
            || contains_seq(lowercase_of(request), "validate"@)
            || contains_seq(lowercase_of(request), "check"@)
            || contains_seq(lowercase_of(request), "verify"@)
            || contains_seq(lowercase_of(request), "lint"@)
            || contains_seq(lowercase_of(request), "run tests"@)
            || contains_seq(lowercase_of(request), "check build"@)
            || contains_seq(lowercase_of(request), "validate code"@)),
        !(contains_seq(lowercase_of(request), "fix the file"@)
            || contains_seq(lowercase_of(request), "update the file"@)
            || contains_seq(lowercase_of(request), "change the file"@)
            || contains_seq(lowercase_of(request), "edit the file"@)
            || contains_seq(lowercase_of(request), "modify the file"@)
            || contains_seq(lowercase_of(request), "in file"@)),
        !(contains_seq(lowercase_of(request), "files"@)
            || contains_seq(lowercase_of(request), "multiple files"@)
            || contains_seq(lowercase_of(request), "all files"@)
            || contains_seq(lowercase_of(request), "update all"@)
            || contains_seq(lowercase_of(request), "change all"@)
            || contains_seq(lowercase_of(request), "rename across"@)
            || contains_seq(lowercase_of(request), "update across"@)),
        !(contains_seq(lowercase_of(request), "refactor"@)
            || contains_seq(lowercase_of(request), "restructure"@)
            || contains_seq(lowercase_of(request), "reorganize"@)
            || contains_seq(lowercase_of(request), "split into"@)
            || contains_seq(lowercase_of(request), "extract"@)
            || contains_seq(lowercase_of(request), "move to"@)
            || contains_seq(lowercase_of(request), "consolidate"@)
            || contains_seq(lowercase_of(request), "clean up"@)),
        !(contains_seq(lowercase_of(request), "fix"@)
            || contains_seq(lowercase_of(request), "bug"@)
            || contains_seq(lowercase_of(request), "error"@)
            || contains_seq(lowercase_of(request), "crash"@)
            || contains_seq(lowercase_of(request), "broken"@)
            || contains_seq(lowercase_of(request), "not working"@)
            || contains_seq(lowercase_of(request), "fails"@)
            || contains_seq(lowercase_of(request), "failure"@)
            || contains_seq(lowercase_of(request), "issue"@)
            || contains_seq(lowercase_of(request), "problem"@)),
    ensures
        r.task_class == TaskClass::Unknown,
        r.risk_level == TaskRiskLevel::High,
        r.proposed_execution_mode == ExecutionMode::ApprovalRequired,
        r.requires_clarification,
        r.clarification_questions@.len() == 1,
        r.clarification_questions@[0]@
            == "Please specify if this is analysis, single-file edit, multi-file edit, or refactoring"@,
{
}

/// Task intake classifier.
pub struct TaskIntakeClassifier;

impl TaskIntakeClassifier {
    /// Classifies a freeform request by the words its lowercase form holds:
    /// read-only words first; otherwise the edit class, unless validation
    /// words override it; an unclassifiable request asks for clarification.
    pub fn classify(request: &str) -> (r: StructuredTaskIntake)
        ensures
            r.original_request@ == request@,
            r.likely_targets@.len() == 0,
            classified_as(r, request@),
    {
        let lower = to_lowercase(request);
        let l = lower.as_str();
        let mut intake = StructuredTaskIntake::new(request);
        if Self::is_read_only(l) {
            return intake.with_objective("Analyze and explore codebase").with_class(
                TaskClass::ReadOnlyAnalysis,
            ).with_risk(TaskRiskLevel::Low).with_mode(ExecutionMode::Analysis);
        }
        if intake.task_class == TaskClass::Unknown && Self::is_single_file_edit(l) {
            intake = intake.with_objective("Edit a single file").with_class(
                TaskClass::SingleFileEdit,
            ).with_risk(TaskRiskLevel::Medium).with_mode(ExecutionMode::Edit);
        }
        if intake.task_class == TaskClass::Unknown && Self::is_multi_file_edit(l) {
            intake = intake.with_objective("Edit multiple files").with_class(
                TaskClass::MultiFileEdit,
            ).with_risk(TaskRiskLevel::High).with_mode(ExecutionMode::ApprovalRequired);
        }
        if intake.task_class == TaskClass::Unknown && Self::is_refactor(l) {
            intake = intake.with_objective("Refactor code across files").with_class(
                TaskClass::Refactor,
            ).with_risk(TaskRiskLevel::High).with_mode(ExecutionMode::ApprovalRequired);
        }
        if intake.task_class == TaskClass::Unknown && Self::is_debug_fix(l) {
            intake = intake.with_objective("Fix a specific error or bug").with_class(
                TaskClass::DebugFix,
            ).with_risk(TaskRiskLevel::Medium).with_mode(ExecutionMode::Edit);
        }
        if Self::is_validation(l) {
            return intake.with_objective("Run validation and tests").with_class(
                TaskClass::ValidationOnly,
            ).with_risk(TaskRiskLevel::Low).with_mode(ExecutionMode::Analysis);
        }
        if intake.task_class == TaskClass::Unknown {
            intake = intake.require_clarification(
                "Please specify if this is analysis, single-file edit, multi-file edit, or refactoring",
            ).with_risk(TaskRiskLevel::High).with_mode(ExecutionMode::ApprovalRequired);
        }
        intake
    }

    fn is_read_only(request: &str) -> (r: bool)
        ensures
            r == mentions_read_only(request@),
    {
        str_contains(request, "explain") || str_contains(request, "what is") || str_contains(
            request,
            "how does",
        ) || str_contains(request, "show me") || str_contains(request, "find") || str_contains(
            request,
            "search",
        ) || str_contains(request, "analyze") || str_contains(request, "review")
            || str_contains(request, "look at") || str_contains(request, "read") || str_contains(
            request,
            "list",
        ) || str_contains(request, "describe")
    }

    fn is_single_file_edit(request: &str) -> (r: bool)
        ensures
            r == mentions_single_file_edit(request@),
    {
        str_contains(request, "fix the file") || str_contains(request, "update the file")
            || str_contains(request, "change the file") || str_contains(request, "edit the file")
            || str_contains(request, "modify the file") || str_contains(request, "in file")
    }

    fn is_multi_file_edit(request: &str) -> (r: bool)
        ensures
            r == mentions_multi_file_edit(request@),
    {
        str_contains(request, "files") || str_contains(request, "multiple files") || str_contains(
            request,
            "all files",
        ) || str_contains(request, "update all") || str_contains(request, "change all")
            || str_contains(request, "rename across") || str_contains(request, "update across")
    }

    fn is_refactor(request: &str) -> (r: bool)
        ensures
            r == mentions_refactor(request@),
    {
        str_contains(request, "refactor") || str_contains(request, "restructure") || str_contains(
            request,
            "reorganize",
        ) || str_contains(request, "split into") || str_contains(request, "extract")
            || str_contains(request, "move to") || str_contains(request, "consolidate")
            || str_contains(request, "clean up")
    }

    fn is_debug_fix(request: &str) -> (r: bool)
        ensures
            r == mentions_debug_fix(request@),
    {
        str_contains(request, "fix") || str_contains(request, "bug") || str_contains(
            request,
            "error",
        ) || str_contains(request, "crash") || str_contains(request, "broken") || str_contains(
            request,
            "not working",
        ) || str_contains(request, "fails") || str_contains(request, "failure") || str_contains(
            request,
            "issue",
        ) || str_contains(request, "problem")
    }

    fn is_validation(request: &str) -> (r: bool)
        ensures
            r == mentions_validation(request@),
    {
        str_contains(request, "test") || str_contains(request, "validate") || str_contains(
            request,
            "check",
        ) || str_contains(request, "verify") || str_contains(request, "lint") || str_contains(
            request,
            "run tests",
        ) || str_contains(request, "check build") || str_contains(request, "validate code")
    }
}

/// Execution risk policy.
#[derive(Debug, Clone)]
pub struct ExecutionRiskPolicy {
    /// Require approval on dirty worktree
    pub require_approval_on_dirty_worktree: bool,
    /// Require approval on high-risk task
    pub require_approval_on_high_risk_task: bool,
    /// Require approval on multi-file edits
    pub require_approval_on_multi_file_edits: bool,
    /// Require approval on replay mismatch
    pub require_approval_on_replay_mismatch: bool,
    /// Warn on untracked target files
    pub warn_on_untracked_targets: bool,
}

impl Default for ExecutionRiskPolicy {
    fn default() -> (r: Self)
        ensures
            !r.require_approval_on_dirty_worktree,
            r.require_approval_on_high_risk_task,
            r.require_approval_on_multi_file_edits,
            r.require_approval_on_replay_mismatch,
            r.warn_on_untracked_targets,
    {
        ExecutionRiskPolicy {
            require_approval_on_dirty_worktree: false,
            require_approval_on_high_risk_task: true,
            require_approval_on_multi_file_edits: true,
            require_approval_on_replay_mismatch: true,
            warn_on_untracked_targets: true,
        }
    }
}

impl ExecutionRiskPolicy {
    /// Approval is required for high-risk tasks, multi-file edits and
    /// refactors (as the policy enables them), and whenever clarification is
    /// required.
    pub fn requires_approval_for_intake(&self, intake: &StructuredTaskIntake) -> (r: bool)
        ensures
            r == ((self.require_approval_on_high_risk_task && intake.risk_level
                == TaskRiskLevel::High) || (self.require_approval_on_multi_file_edits && (
            intake.task_class == TaskClass::MultiFileEdit || intake.task_class
                == TaskClass::Refactor)) || intake.requires_clarification),
    {
        if self.require_approval_on_high_risk_task && intake.risk_level == TaskRiskLevel::High {
            return true;
        }
        if self.require_approval_on_multi_file_edits {
            match intake.task_class {
                TaskClass::MultiFileEdit | TaskClass::Refactor => return true,
                _ => {},
            }
        }
        intake.requires_clarification
    }
}

/// What the classifier produces is consistent: a read-only intake is
/// low-risk analysis, an intake that asks for clarification is high-risk and
/// needs approval, and every high-risk or clarification-seeking intake needs
/// approval under the default policy.
pub proof fn law_classification_consistent(r: StructuredTaskIntake, request: Seq<char>)
    requires
        classified_as(r, request),
    ensures
        (r.task_class == TaskClass::ReadOnlyAnalysis || r.task_class == TaskClass::ValidationOnly)
            ==> r.risk_level == TaskRiskLevel::Low && r.proposed_execution_mode
            == ExecutionMode::Analysis,
        r.requires_clarification ==> r.risk_level == TaskRiskLevel::High
            && r.proposed_execution_mode == ExecutionMode::ApprovalRequired,
        r.risk_level == TaskRiskLevel::High <==> r.proposed_execution_mode
            == ExecutionMode::ApprovalRequired,
{
}

} // verus!

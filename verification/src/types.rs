//! Strongly typed internal contracts: identifiers, planner and tool types,
//! mutations, validation reports, errors, patches, and task chains.
use crate::hashing::{compute_content_hash, content_hash};
use crate::text::{
    all_ascii, ascii_lower, is_ascii_digit, is_ascii_letter,
    append_chars, chars_contains, contains_seq, count_matches, find_first, match_count,
    match_count_from, occurs_at,
    replace_all, replace_all_chars, replace_first, string_from_chars,
    lines_chars, text_lines,
    char_is_alphabetic, char_is_alphanumeric, chars_of, decimal, lowercase_of, push_char,
    push_decimal, push_str, str_eq, to_lowercase, to_owned_string, unicode_alphabetic,
    unicode_alphanumeric,
};
use vstd::prelude::*;

verus! {

// ===========================================================================
// Time
// ===========================================================================

/// Milliseconds since the Unix epoch.
///
/// Trusted: reads `std::time::SystemTime::now()`; a clock set before the
/// epoch reads as 0.  Nothing is claimed about the value.
#[verifier::external_body]
pub fn timestamp_now() -> u64 {
    std::time::SystemTime::now()
        .duration_since(std::time::UNIX_EPOCH)
        .map(|d| d.as_millis() as u64)
        .unwrap_or(0)
}

/// Sub-second nanoseconds of the current time, used to tell apart
/// identifiers made within one millisecond.
///
/// Trusted: reads `std::time::SystemTime::now()`.  Nothing is claimed
/// about the value.
#[verifier::external_body]
fn clock_nanos() -> u32 {
    std::time::SystemTime::now()
        .duration_since(std::time::UNIX_EPOCH)
        .map(|d| d.subsec_nanos())
        .unwrap_or(0)
}

/// Seconds since the Unix epoch.
///
/// Trusted: reads `std::time::SystemTime::now()`; a clock set before the
/// epoch reads as 0.  Nothing is claimed about the value.
#[verifier::external_body]
fn timestamp_secs() -> u64 {
    std::time::SystemTime::now()
        .duration_since(std::time::UNIX_EPOCH)
        .map(|d| d.as_secs())
        .unwrap_or(0)
}

/// The hex digit character for `d < 16` (lowercase).
pub open spec fn hex_digit(d: nat) -> char {
    if d < 10 {
        ((d + 48) as u8) as char
    } else {
        ((d + 87) as u8) as char
    }
}

/// Eight lowercase hex digits of `n`, most significant first.
pub open spec fn hex8(n: nat) -> Seq<char>
    decreases 8nat,
{
    hex_digits(n, 8)
}

pub open spec fn hex_digits(n: nat, width: nat) -> Seq<char>
    decreases width,
{
    if width == 0 {
        seq![]
    } else {
        hex_digits(n / 16, (width - 1) as nat).push(hex_digit(n % 16))
    }
}

fn push_hex_digits(out: &mut String, n: u32, width: u32)
    ensures
        final(out)@ == old(out)@ + hex_digits(n as nat, width as nat),
    decreases width,
{
    if width == 0 {
        assert(old(out)@ + hex_digits(n as nat, 0) =~= old(out)@);
        return;
    }
    push_hex_digits(out, n / 16, width - 1);
    let d = (n % 16) as u8;
    let c = if d < 10 {
        (d + 48u8) as char
    } else {
        (d + 87u8) as char
    };
    push_char(out, c);
    assert(old(out)@ + hex_digits(n as nat, width as nat) =~= final(out)@);
}

/// `prefix-<millis>-<8 hex digits>`, the shape of session and chain ids.
pub open spec fn timestamped_id(prefix: Seq<char>, millis: nat, tick: nat) -> Seq<char> {
    prefix + seq!['-'] + decimal(millis) + seq!['-'] + hex_digits(tick, 8)
}

fn make_timestamped_id(prefix: &str) -> (r: String)
    ensures
        exists|millis: nat, tick: nat| r@ == timestamped_id(prefix@, millis, tick),
{
    let millis = timestamp_now();
    let tick = clock_nanos();
    let mut out = to_owned_string(prefix);
    push_char(&mut out, '-');
    push_decimal(&mut out, millis);
    push_char(&mut out, '-');
    push_hex_digits(&mut out, tick, 8);
    assert(out@ =~= timestamped_id(prefix@, millis as nat, tick as nat));
    out
}

// ===========================================================================
// Identifier types
// ===========================================================================

/// Unique session identifier.
#[derive(Debug, PartialEq, Eq, Hash)]
pub struct SessionId(String);

impl View for SessionId {
    type V = Seq<char>;

    closed spec fn view(&self) -> Seq<char> {
        self.0@
    }
}

impl SessionId {
    /// A fresh identifier `forge-<millis>-<8 hex digits>`.
    pub fn new() -> (r: Self)
        ensures
            exists|millis: nat, tick: nat| r@ == timestamped_id("forge"@, millis, tick),
    {
        SessionId(make_timestamped_id("forge"))
    }

    /// Create from an existing string (for persistence).
    pub fn from_string(s: String) -> (r: Self)
        ensures
            r@ == s@,
    {
        SessionId(s)
    }

    /// The identifier text.
    pub fn as_str(&self) -> (r: &str)
        ensures
            r@ == self@,
    {
        self.0.as_str()
    }

    /// A copy of this identifier.
    pub fn duplicate(&self) -> (r: Self)
        ensures
            r@ == self@,
    {
        SessionId(self.0.clone())
    }

    /// The identifier text (what `Display` prints).
    pub fn to_text(&self) -> (r: String)
        ensures
            r@ == self@,
    {
        self.0.clone()
    }
}

/// A tool name may start with this character: a letter (for ASCII, one
/// of `A`..`Z`, `a`..`z`).
pub open spec fn tool_name_start_ok(c: char) -> bool {
    if (c as u32) < 128 {
        is_ascii_letter(c)
    } else {
        unicode_alphabetic(c)
    }
}

/// A tool name may hold this character: `_`, a letter or a digit (for
/// ASCII, exactly the ASCII letters and digits).
pub open spec fn tool_name_char_ok(c: char) -> bool {
    c == '_' || if (c as u32) < 128 {
        is_ascii_letter(c) || is_ascii_digit(c)
    } else {
        unicode_alphanumeric(c)
    }
}

/// Every character of `s` may stand in a tool name.
pub open spec fn tool_name_chars_ok(s: Seq<char>) -> bool {
    forall|i: int| 0 <= i < s.len() ==> tool_name_char_ok(#[trigger] s[i])
}

/// The text is accepted as a tool name.
pub open spec fn valid_tool_name(s: Seq<char>) -> bool {
    s.len() > 0 && tool_name_start_ok(s[0]) && tool_name_chars_ok(s)
}

/// An ASCII tool name is accepted exactly when it starts with a letter and
/// holds only letters, digits and underscores: `read-file` (a dash) and
/// `1x` (a leading digit) are refused.
pub proof fn law_ascii_tool_names(s: Seq<char>)
    requires
        forall|i: int| 0 <= i < s.len() ==> (#[trigger] s[i] as u32) < 128,
    ensures
        valid_tool_name(s) <==> (s.len() > 0 && (('a' <= s[0] && s[0] <= 'z') || ('A' <= s[0]
            && s[0] <= 'Z')) && forall|i: int|
            0 <= i < s.len() ==> (#[trigger] s[i] == '_' || ('a' <= s[i] && s[i] <= 'z') || (
            'A' <= s[i] && s[i] <= 'Z') || ('0' <= s[i] && s[i] <= '9'))),
{
    if s.len() > 0 {
        assert((s[0] as u32) < 128);
    }
    assert(tool_name_chars_ok(s) <==> forall|i: int|
        0 <= i < s.len() ==> (#[trigger] s[i] == '_' || ('a' <= s[i] && s[i] <= 'z') || ('A'
            <= s[i] && s[i] <= 'Z') || ('0' <= s[i] && s[i] <= '9'))) by {
        assert forall|i: int| 0 <= i < s.len() implies (tool_name_char_ok(#[trigger] s[i]) <==> (
        s[i] == '_' || ('a' <= s[i] && s[i] <= 'z') || ('A' <= s[i] && s[i] <= 'Z') || ('0' <= s[i]
            && s[i] <= '9'))) by {
            assert((s[i] as u32) < 128);
        }
    }
}

/// A lowercase ASCII tool name: a letter, then letters, digits and
/// underscores.
pub open spec fn ascii_tool_name(s: Seq<char>) -> bool {
    &&& s.len() > 0
    &&& 'a' <= s[0] && s[0] <= 'z'
    &&& forall|i: int|
        0 <= i < s.len() ==> ('a' <= #[trigger] s[i] && s[i] <= 'z') || ('0' <= s[i] && s[i]
            <= '9') || s[i] == '_'
}

/// Tool name, validated at construction and kept in lowercase.
#[derive(Debug, PartialEq, Eq, Hash)]
pub struct ToolName(String);

impl View for ToolName {
    type V = Seq<char>;

    closed spec fn view(&self) -> Seq<char> {
        self.0@
    }
}

impl ToolName {
    /// Validates `name` (non-empty, starts with a letter, letters, digits and
    /// underscores only) and keeps its lowercase form.
    pub fn new(name: &str) -> (r: Result<Self, ForgeError>)
        ensures
            name@.len() == 0 ==> (r matches Err(ForgeError::InvalidToolName(m)) && m@
                == "empty"@),
            name@.len() > 0 && !tool_name_start_ok(name@[0]) ==> (r matches Err(
                ForgeError::InvalidToolName(m),
            ) && m@ == "must start with letter"@),
            name@.len() > 0 && tool_name_start_ok(name@[0]) && !tool_name_chars_ok(name@) ==> (
            r matches Err(ForgeError::InvalidToolName(m)) && m@
                == "alphanumeric and underscore only"@),
            valid_tool_name(name@) ==> (r matches Ok(t) && t@ == lowercase_of(name@)),
            ascii_tool_name(name@) ==> (r matches Ok(t) && t@ == name@),
    {
        let chars = chars_of(name);
        if chars.len() == 0 {
            return Err(ForgeError::InvalidToolName(to_owned_string("empty")));
        }
        if !char_is_alphabetic(chars[0]) {
            return Err(ForgeError::InvalidToolName(to_owned_string("must start with letter")));
        }
        let mut i: usize = 0;
        while i < chars.len()
            invariant
                i <= chars.len(),
                chars@ == name@,
                chars@.len() > 0,
                tool_name_start_ok(chars@[0]),
                forall|k: int| 0 <= k < i ==> tool_name_char_ok(#[trigger] chars@[k]),
            decreases chars.len() - i,
        {
            let c = chars[i];
            if !(char_is_alphanumeric(c) || c == '_') {
                assert(!tool_name_char_ok(chars@[i as int]));
                return Err(
                    ForgeError::InvalidToolName(to_owned_string("alphanumeric and underscore only")),
                );
            }
            i = i + 1;
        }
        let lowered = to_lowercase(name);
        proof {
            if ascii_tool_name(name@) {
                assert(all_ascii(name@));
                assert(lowered@ =~= name@);
            }
        }
        Ok(ToolName(lowered))
    }

    /// A name known to be a lowercase ASCII tool name.
    pub(crate) fn known(name: &str) -> (r: Self)
        requires
            ascii_tool_name(name@),
        ensures
            r@ == name@,
    {
        ToolName::new(name).unwrap()
    }

    /// The (lowercase) name.
    pub fn as_str(&self) -> (r: &str)
        ensures
            r@ == self@,
    {
        self.0.as_str()
    }

    /// A copy of this name.
    pub fn duplicate(&self) -> (r: Self)
        ensures
            r@ == self@,
    {
        ToolName(self.0.clone())
    }
}

// ===========================================================================
// Execution context
// ===========================================================================

/// Execution mode for the agent.
#[derive(Debug, Clone, Copy, PartialEq, Eq, Structural)]
pub enum ExecutionMode {
    /// Read-only operations
    Analysis,
    /// File modifications allowed
    Edit,
    /// Automatic error correction
    Fix,
    /// Multiple files, automated
    Batch,
}

/// The tools that analysis (read-only) mode permits.
pub open spec fn analysis_tool(name: Seq<char>) -> bool {
    name == "read_file"@ || name == "search"@ || name == "grep_search"@ || name == "list_dir"@
        || name == "dependency_graph"@ || name == "symbol_index"@ || name
        == "entrypoint_detector"@
}

/// Analysis (read-only) mode admits exactly the reading and discovery
/// tools: read_file, search, grep_search, list_dir, dependency_graph,
/// symbol_index and entrypoint_detector; every writing or running tool is
/// refused there.
pub proof fn law_analysis_mode_tools(name: Seq<char>)
    ensures
        analysis_tool(name) <==> (name == "read_file"@ || name == "search"@ || name
            == "grep_search"@ || name == "list_dir"@ || name == "dependency_graph"@ || name
            == "symbol_index"@ || name == "entrypoint_detector"@),
{
}

impl ExecutionMode {
    /// Analysis mode admits only the read and discovery tools; every other
    /// mode admits every tool.
    pub fn allows_tool(&self, tool: &ToolName) -> (r: bool)
        ensures
            r == (!(*self is Analysis) || analysis_tool(tool@)),
    {
        match self {
            ExecutionMode::Analysis => {
                let n = tool.as_str();
                str_eq(n, "read_file") || str_eq(n, "search") || str_eq(n, "grep_search")
                    || str_eq(n, "list_dir") || str_eq(n, "dependency_graph") || str_eq(
                    n,
                    "symbol_index",
                ) || str_eq(n, "entrypoint_detector")
            },
            _ => true,
        }
    }

    /// Lowercase mode name as persisted.
    pub fn name(&self) -> (r: &'static str)
        ensures
            r@ == mode_name(*self),
    {
        match self {
            ExecutionMode::Analysis => "analysis",
            ExecutionMode::Edit => "edit",
            ExecutionMode::Fix => "fix",
            ExecutionMode::Batch => "batch",
        }
    }
}

pub open spec fn mode_name(m: ExecutionMode) -> Seq<char> {
    match m {
        ExecutionMode::Analysis => "analysis"@,
        ExecutionMode::Edit => "edit"@,
        ExecutionMode::Fix => "fix"@,
        ExecutionMode::Batch => "batch"@,
    }
}

/// Context passed to tool execution.
#[derive(Debug, Clone)]
pub struct ExecutionContext {
    pub session_id: SessionId,
    pub iteration: u32,
    pub mode: ExecutionMode,
    pub working_dir: String,
}

// ===========================================================================
// Errors
// ===========================================================================

/// Session status lifecycle.
#[derive(Debug, Clone, Copy, PartialEq, Eq, Structural)]
pub enum SessionStatus {
    Initializing,
    Running,
    Complete,
    Error,
    Halted,
}

/// Top-level error type.
#[derive(Debug, Clone)]
pub enum ForgeError {
    InvalidConfiguration(String),
    InvalidToolName(String),
    UnknownTool(ToolName),
    ToolNotAllowed { tool: ToolName, mode: ExecutionMode },
    MissingArgument(String),
    InvalidArgument(String),
    StateCorruption(String),
    InvalidStateTransition { from: SessionStatus, to: SessionStatus },
    ValidationFailed(String),
    /// Planner backend unavailable or unreachable
    PlannerBackendUnavailable(String),
    /// Planner inference timeout
    PlannerTimeout { timeout_seconds: u64 },
    /// Planner returned empty response
    PlannerResponseEmpty,
    /// Failed to normalize planner output
    PlannerNormalizationError(String),
    /// Planner output violates schema
    PlannerSchemaViolation(String),
    /// Planner attempted multiple actions (contract violation)
    PlannerMultipleActions,
    /// Planner tried to call unknown tool
    PlannerUnknownTool { tool_name: String },
    /// Planner violated mode restrictions
    PlannerModeViolation { tool: String, mode: ExecutionMode },
    /// General planner contract violation
    PlannerContractViolation(String),
    IoError(String),
    InternalError(String),
    /// Command execution timeout
    ExecutionTimeout { command: String, timeout_secs: u64 },
}

/// How `Debug` prints an execution mode.
pub open spec fn mode_debug(m: ExecutionMode) -> Seq<char> {
    match m {
        ExecutionMode::Analysis => "Analysis"@,
        ExecutionMode::Edit => "Edit"@,
        ExecutionMode::Fix => "Fix"@,
        ExecutionMode::Batch => "Batch"@,
    }
}

/// How `Debug` prints a session status.
pub open spec fn status_debug(s: SessionStatus) -> Seq<char> {
    match s {
        SessionStatus::Initializing => "Initializing"@,
        SessionStatus::Running => "Running"@,
        SessionStatus::Complete => "Complete"@,
        SessionStatus::Error => "Error"@,
        SessionStatus::Halted => "Halted"@,
    }
}

fn mode_debug_str(m: ExecutionMode) -> (r: &'static str)
    ensures
        r@ == mode_debug(m),
{
    match m {
        ExecutionMode::Analysis => "Analysis",
        ExecutionMode::Edit => "Edit",
        ExecutionMode::Fix => "Fix",
        ExecutionMode::Batch => "Batch",
    }
}

fn status_debug_str(s: SessionStatus) -> (r: &'static str)
    ensures
        r@ == status_debug(s),
{
    match s {
        SessionStatus::Initializing => "Initializing",
        SessionStatus::Running => "Running",
        SessionStatus::Complete => "Complete",
        SessionStatus::Error => "Error",
        SessionStatus::Halted => "Halted",
    }
}

/// The text of a tool error (what `Display` prints).
pub open spec fn tool_error_text(e: ToolError) -> Seq<char> {
    match e {
        ToolError::MissingArgument(n) => "Missing argument: "@ + n@,
        ToolError::InvalidArgument { name, value, reason } => "Invalid argument '"@ + name@ + "="@
            + value@ + "': "@ + reason@,
        ToolError::IoError(m) => "IO error: "@ + m@,
        ToolError::NotAllowed { tool, mode } => "Tool '"@ + tool@ + "' not allowed in "@
            + mode_debug(mode) + " mode"@,
        ToolError::ExecutionFailed(m) => "Execution failed: "@ + m@,
    }
}

impl ToolError {
    /// The error's text (what `Display` prints).
    pub fn to_text(&self) -> (r: String)
        ensures
            r@ == tool_error_text(*self),
    {
        let mut out = String::new();
        match self {
            ToolError::MissingArgument(n) => {
                push_str(&mut out, "Missing argument: ");
                push_str(&mut out, n.as_str());
            },
            ToolError::InvalidArgument { name, value, reason } => {
                push_str(&mut out, "Invalid argument '");
                push_str(&mut out, name.as_str());
                push_str(&mut out, "=");
                push_str(&mut out, value.as_str());
                push_str(&mut out, "': ");
                push_str(&mut out, reason.as_str());
            },
            ToolError::IoError(m) => {
                push_str(&mut out, "IO error: ");
                push_str(&mut out, m.as_str());
            },
            ToolError::NotAllowed { tool, mode } => {
                push_str(&mut out, "Tool '");
                push_str(&mut out, tool.as_str());
                push_str(&mut out, "' not allowed in ");
                push_str(&mut out, mode_debug_str(*mode));
                push_str(&mut out, " mode");
            },
            ToolError::ExecutionFailed(m) => {
                push_str(&mut out, "Execution failed: ");
                push_str(&mut out, m.as_str());
            },
        }
        proof {
            reveal_strlit("");
        }
        assert(out@ =~= tool_error_text(*self));
        out
    }
}

/// The text of an error (what `Display` prints).
pub open spec fn forge_error_text(e: ForgeError) -> Seq<char> {
    match e {
        ForgeError::InvalidConfiguration(m) => "Config error: "@ + m@,
        ForgeError::InvalidToolName(m) => "Invalid tool name: "@ + m@,
        ForgeError::UnknownTool(n) => "Unknown tool: "@ + n@,
        ForgeError::ToolNotAllowed { tool, mode } => "Tool '"@ + tool@ + "' not allowed in "@
            + mode_debug(mode) + " mode"@,
        ForgeError::MissingArgument(m) => "Missing argument: "@ + m@,
        ForgeError::InvalidArgument(m) => "Invalid argument: "@ + m@,
        ForgeError::StateCorruption(m) => "State corruption: "@ + m@,
        ForgeError::InvalidStateTransition { from, to } => "Invalid state transition: "@
            + status_debug(from) + " -> "@ + status_debug(to),
        ForgeError::ValidationFailed(m) => "Validation failed: "@ + m@,
        ForgeError::PlannerBackendUnavailable(m) => "Planner backend unavailable: "@ + m@,
        ForgeError::PlannerTimeout { timeout_seconds } => "Planner timeout after "@ + decimal(
            timeout_seconds as nat,
        ) + " seconds"@,
        ForgeError::PlannerResponseEmpty => "Planner returned empty response"@,
        ForgeError::PlannerNormalizationError(m) => "Planner output normalization failed: "@ + m@,
        ForgeError::PlannerSchemaViolation(m) => "Planner output schema violation: "@ + m@,
        ForgeError::PlannerMultipleActions => "Planner attempted multiple actions (contract violation)"@,
        ForgeError::PlannerUnknownTool { tool_name } => "Planner called unknown tool: "@ + tool_name@,
        ForgeError::PlannerModeViolation { tool, mode } => "Planner tool '"@ + tool@
            + "' violated mode "@ + mode_debug(mode),
        ForgeError::PlannerContractViolation(m) => "Planner contract violation: "@ + m@,
        ForgeError::IoError(m) => "IO error: "@ + m@,
        ForgeError::InternalError(m) => "Internal error: "@ + m@,
        ForgeError::ExecutionTimeout { command, timeout_secs } => "Command '"@ + command@
            + "' timed out after "@ + decimal(timeout_secs as nat) + " seconds"@,
    }
}

impl ForgeError {
    /// The error's text (what `Display` prints).
    pub fn to_text(&self) -> (r: String)
        ensures
            r@ == forge_error_text(*self),
    {
        let mut out = String::new();
        proof {
            reveal_strlit("");
        }
        match self {
            ForgeError::InvalidConfiguration(m) => {
                push_str(&mut out, "Config error: ");
                push_str(&mut out, m.as_str());
            },
            ForgeError::InvalidToolName(m) => {
                push_str(&mut out, "Invalid tool name: ");
                push_str(&mut out, m.as_str());
            },
            ForgeError::UnknownTool(n) => {
                push_str(&mut out, "Unknown tool: ");
                push_str(&mut out, n.as_str());
            },
            ForgeError::ToolNotAllowed { tool, mode } => {
                push_str(&mut out, "Tool '");
                push_str(&mut out, tool.as_str());
                push_str(&mut out, "' not allowed in ");
                push_str(&mut out, mode_debug_str(*mode));
                push_str(&mut out, " mode");
            },
            ForgeError::MissingArgument(m) => {
                push_str(&mut out, "Missing argument: ");
                push_str(&mut out, m.as_str());
            },
            ForgeError::InvalidArgument(m) => {
                push_str(&mut out, "Invalid argument: ");
                push_str(&mut out, m.as_str());
            },
            ForgeError::StateCorruption(m) => {
                push_str(&mut out, "State corruption: ");
                push_str(&mut out, m.as_str());
            },
            ForgeError::InvalidStateTransition { from, to } => {
                push_str(&mut out, "Invalid state transition: ");
                push_str(&mut out, status_debug_str(*from));
                push_str(&mut out, " -> ");
                push_str(&mut out, status_debug_str(*to));
            },
            ForgeError::ValidationFailed(m) => {
                push_str(&mut out, "Validation failed: ");
                push_str(&mut out, m.as_str());
            },
            ForgeError::PlannerBackendUnavailable(m) => {
                push_str(&mut out, "Planner backend unavailable: ");
                push_str(&mut out, m.as_str());
            },
            ForgeError::PlannerTimeout { timeout_seconds } => {
                push_str(&mut out, "Planner timeout after ");
                push_decimal(&mut out, *timeout_seconds);
                push_str(&mut out, " seconds");
            },
            ForgeError::PlannerResponseEmpty => {
                push_str(&mut out, "Planner returned empty response");
            },
            ForgeError::PlannerNormalizationError(m) => {
                push_str(&mut out, "Planner output normalization failed: ");
                push_str(&mut out, m.as_str());
            },
            ForgeError::PlannerSchemaViolation(m) => {
                push_str(&mut out, "Planner output schema violation: ");
                push_str(&mut out, m.as_str());
            },
            ForgeError::PlannerMultipleActions => {
                push_str(&mut out, "Planner attempted multiple actions (contract violation)");
            },
            ForgeError::PlannerUnknownTool { tool_name } => {
                push_str(&mut out, "Planner called unknown tool: ");
                push_str(&mut out, tool_name.as_str());
            },
            ForgeError::PlannerModeViolation { tool, mode } => {
                push_str(&mut out, "Planner tool '");
                push_str(&mut out, tool.as_str());
                push_str(&mut out, "' violated mode ");
                push_str(&mut out, mode_debug_str(*mode));
            },
            ForgeError::PlannerContractViolation(m) => {
                push_str(&mut out, "Planner contract violation: ");
                push_str(&mut out, m.as_str());
            },
            ForgeError::IoError(m) => {
                push_str(&mut out, "IO error: ");
                push_str(&mut out, m.as_str());
            },
            ForgeError::InternalError(m) => {
                push_str(&mut out, "Internal error: ");
                push_str(&mut out, m.as_str());
            },
            ForgeError::ExecutionTimeout { command, timeout_secs } => {
                push_str(&mut out, "Command '");
                push_str(&mut out, command.as_str());
                push_str(&mut out, "' timed out after ");
                push_decimal(&mut out, *timeout_secs);
                push_str(&mut out, " seconds");
            },
        }
        assert(out@ =~= forge_error_text(*self));
        out
    }
}

// ===========================================================================
// Planner types
// ===========================================================================

/// Output from the planner: exactly one action per turn.
#[derive(Debug)]
pub enum PlannerOutput {
    ToolCall(ToolCall),
    Completion { reason: CompletionReason },
    Failure { reason: String, recoverable: bool },
}

/// Model of a planner output.
pub enum PlannerOutputView {
    ToolCall(ToolCallView),
    Completion { reason: Seq<char> },
    Failure { reason: Seq<char>, recoverable: bool },
}

impl View for PlannerOutput {
    type V = PlannerOutputView;

    open spec fn view(&self) -> PlannerOutputView {
        match self {
            PlannerOutput::ToolCall(call) => PlannerOutputView::ToolCall(call@),
            PlannerOutput::Completion { reason } => PlannerOutputView::Completion {
                reason: reason@,
            },
            PlannerOutput::Failure { reason, recoverable } => PlannerOutputView::Failure {
                reason: reason@,
                recoverable: *recoverable,
            },
        }
    }
}

impl Clone for PlannerOutput {
    fn clone(&self) -> (r: Self)
        ensures
            r@ == self@,
    {
        match self {
            PlannerOutput::ToolCall(call) => PlannerOutput::ToolCall(call.clone()),
            PlannerOutput::Completion { reason } => PlannerOutput::Completion {
                reason: reason.clone(),
            },
            PlannerOutput::Failure { reason, recoverable } => PlannerOutput::Failure {
                reason: reason.clone(),
                recoverable: *recoverable,
            },
        }
    }
}

/// Reason given for a completion claim.
#[derive(Debug)]
pub struct CompletionReason(String);

impl View for CompletionReason {
    type V = Seq<char>;

    closed spec fn view(&self) -> Seq<char> {
        self.0@
    }
}

impl Clone for CompletionReason {
    fn clone(&self) -> (r: Self)
        ensures
            r == *self,
    {
        CompletionReason(self.0.clone())
    }
}

impl CompletionReason {
    pub fn new(reason: &str) -> (r: Self)
        ensures
            r@ == reason@,
    {
        CompletionReason(to_owned_string(reason))
    }

    pub fn as_str(&self) -> (r: &str)
        ensures
            r@ == self@,
    {
        self.0.as_str()
    }
}

// ===========================================================================
// Tool types
// ===========================================================================

/// A call to execute a specific tool.
#[derive(Debug)]
pub struct ToolCall {
    pub name: ToolName,
    pub arguments: ToolArguments,
}

/// Model of a tool call: the tool's name and its argument pairs.
pub struct ToolCallView {
    pub name: Seq<char>,
    pub arguments: Seq<(Seq<char>, Seq<char>)>,
}

impl View for ToolCall {
    type V = ToolCallView;

    open spec fn view(&self) -> ToolCallView {
        ToolCallView { name: self.name@, arguments: self.arguments@ }
    }
}

impl Clone for ToolCall {
    fn clone(&self) -> (r: Self)
        ensures
            r@ == self@,
    {
        ToolCall { name: self.name.clone(), arguments: self.arguments.clone() }
    }
}

impl Clone for SessionId {
    fn clone(&self) -> (r: Self)
        ensures
            r == *self,
    {
        SessionId(self.0.clone())
    }
}

impl Clone for ToolName {
    fn clone(&self) -> (r: Self)
        ensures
            r == *self,
    {
        ToolName(self.0.clone())
    }
}

/// The keys of `entries` are pairwise distinct.
pub open spec fn distinct_keys(entries: Seq<(Seq<char>, Seq<char>)>) -> bool {
    forall|i: int, j: int|
        0 <= i < entries.len() && 0 <= j < entries.len() && i != j ==> entries[i].0
            != entries[j].0
}

/// The value stored under `key`, if any.
pub open spec fn entries_lookup(entries: Seq<(Seq<char>, Seq<char>)>, key: Seq<char>) -> Option<
    Seq<char>,
> {
    if exists|i: int| 0 <= i < entries.len() && entries[i].0 == key {
        Some(entries[choose|i: int| 0 <= i < entries.len() && entries[i].0 == key].1)
    } else {
        None
    }
}

/// Tool arguments: string keys mapped to string values.
#[derive(Debug)]
pub struct ToolArguments {
    inner: Vec<(String, String)>,
}

impl View for ToolArguments {
    type V = Seq<(Seq<char>, Seq<char>)>;

    /// The stored (key, value) pairs, in insertion order.
    closed spec fn view(&self) -> Seq<(Seq<char>, Seq<char>)> {
        self.inner@.map_values(|e: (String, String)| (e.0@, e.1@))
    }
}

impl ToolArguments {
    pub open spec fn entries(&self) -> Seq<(Seq<char>, Seq<char>)> {
        self@
    }

    /// The value stored under `key`, if any.
    pub open spec fn lookup(&self, key: Seq<char>) -> Option<Seq<char>> {
        entries_lookup(self.entries(), key)
    }

    #[verifier::type_invariant]
    closed spec fn keys_distinct(&self) -> bool {
        distinct_keys(self.entries())
    }

    pub fn new() -> (r: Self)
        ensures
            r.entries() == Seq::<(Seq<char>, Seq<char>)>::empty(),
            forall|k: Seq<char>| r.lookup(k) is None,
    {
        let r = ToolArguments { inner: Vec::new() };
        assert(r.entries() =~= Seq::<(Seq<char>, Seq<char>)>::empty());
        r
    }

    fn find(&self, key: &str) -> (r: Option<usize>)
        ensures
            r matches Some(i) ==> i < self.entries().len() && self.entries()[i as int].0 == key@,
            r is None ==> forall|i: int|
                0 <= i < self.entries().len() ==> self.entries()[i].0 != key@,
    {
        let mut i: usize = 0;
        while i < self.inner.len()
            invariant
                i <= self.inner.len(),
                forall|j: int| 0 <= j < i ==> self.entries()[j].0 != key@,
            decreases self.inner.len() - i,
        {
            if str_eq(self.inner[i].0.as_str(), key) {
                return Some(i);
            }
            i = i + 1;
        }
        None
    }

    /// Stores `value` under `key`, replacing any earlier value.
    pub fn set(&mut self, key: &str, value: &str)
        ensures
            final(self).lookup(key@) == Some(value@),
            old(self).lookup(key@) is None ==> final(self)@ == old(self)@.push((key@, value@)),
            forall|k: Seq<char>| k != key@ ==> final(self).lookup(k) == old(self).lookup(k),
    {
        proof {
            use_type_invariant(&*self);
        }
        let ghost old_entries = self.entries();
        match self.find(key) {
            Some(i) => {
                let mut inner: Vec<(String, String)> = Vec::new();
                std::mem::swap(&mut inner, &mut self.inner);
                inner.set(i, (to_owned_string(key), to_owned_string(value)));
                let ghost new_entries = inner@.map_values(|e: (String, String)| (e.0@, e.1@));
                assert(new_entries =~= old_entries.update(i as int, (key@, value@)));
                assert(distinct_keys(new_entries));
                self.inner = inner;
                assert(self.entries() == new_entries);
                assert(self.entries()[i as int].0 == key@);
                assert forall|k: Seq<char>| k != key@ implies self.lookup(k) == old(self).lookup(
                    k,
                ) by {
                    if exists|j: int| 0 <= j < old_entries.len() && old_entries[j].0 == k {
                        let j = choose|j: int| 0 <= j < old_entries.len() && old_entries[j].0 == k;
                        assert(new_entries[j].0 == k);
                        let j2 = choose|j: int|
                            0 <= j < new_entries.len() && new_entries[j].0 == k;
                        assert(j2 == j);
                    }
                }
            },
            None => {
                let mut inner: Vec<(String, String)> = Vec::new();
                std::mem::swap(&mut inner, &mut self.inner);
                inner.push((to_owned_string(key), to_owned_string(value)));
                let ghost new_entries = inner@.map_values(|e: (String, String)| (e.0@, e.1@));
                assert(new_entries =~= old_entries.push((key@, value@)));
                assert(distinct_keys(new_entries));
                self.inner = inner;
                assert(self.entries() == new_entries);
                let ghost n = old_entries.len() as int;
                assert(new_entries[n].0 == key@);
                assert forall|k: Seq<char>| k != key@ implies self.lookup(k) == old(self).lookup(
                    k,
                ) by {
                    if exists|j: int| 0 <= j < old_entries.len() && old_entries[j].0 == k {
                        let j = choose|j: int| 0 <= j < old_entries.len() && old_entries[j].0 == k;
                        assert(new_entries[j].0 == k);
                        let j2 = choose|j: int|
                            0 <= j < new_entries.len() && new_entries[j].0 == k;
                        assert(j2 == j);
                    } else {
                        assert forall|j: int|
                            0 <= j < new_entries.len() implies new_entries[j].0 != k by {
                            if j < n {
                            }
                        }
                    }
                }
            },
        }
    }

    /// The value stored under `key`, if any.
    pub fn get(&self, key: &str) -> (r: Option<&str>)
        ensures
            r matches Some(v) ==> self.lookup(key@) == Some(v@),
            r is None ==> self.lookup(key@) is None,
    {
        proof {
            use_type_invariant(self);
        }
        match self.find(key) {
            Some(i) => {
                let ghost e = self.entries();
                let ghost j = choose|j: int| 0 <= j < e.len() && e[j].0 == key@;
                assert(j == i);
                Some(self.inner[i].1.as_str())
            },
            None => None,
        }
    }

    /// The value stored under `key`, or a `MissingArgument` error naming it.
    pub fn require(&self, key: &str) -> (r: Result<&str, ForgeError>)
        ensures
            r matches Ok(v) ==> self.lookup(key@) == Some(v@),
            r is Err ==> self.lookup(key@) is None && (r matches Err(
                ForgeError::MissingArgument(k),
            ) && k@ == key@),
    {
        match self.get(key) {
            Some(v) => Ok(v),
            None => Err(ForgeError::MissingArgument(to_owned_string(key))),
        }
    }

    /// The stored (key, value) pairs.
    pub fn as_map(&self) -> (r: &[(String, String)])
        ensures
            r@.map_values(|e: (String, String)| (e.0@, e.1@)) == self.entries(),
    {
        self.inner.as_slice()
    }
}

impl Clone for ToolArguments {
    fn clone(&self) -> (r: Self)
        ensures
            r@ == self@,
    {
        proof {
            use_type_invariant(self);
        }
        let mut inner: Vec<(String, String)> = Vec::new();
        let mut i: usize = 0;
        while i < self.inner.len()
            invariant
                i <= self.inner.len(),
                inner@ == self.inner@.take(i as int),
            decreases self.inner.len() - i,
        {
            let e = &self.inner[i];
            inner.push((e.0.clone(), e.1.clone()));
            assert(inner@ =~= self.inner@.take(i + 1));
            i = i + 1;
        }
        assert(inner@ =~= self.inner@);
        let r = ToolArguments { inner };
        assert(r@ =~= self@);
        r
    }
}

impl Default for ToolArguments {
    fn default() -> (r: Self)
        ensures
            r.entries() == Seq::<(Seq<char>, Seq<char>)>::empty(),
    {
        Self::new()
    }
}

/// Result of a tool execution.
#[derive(Debug)]
pub struct ToolResult {
    pub success: bool,
    pub output: Option<String>,
    pub error: Option<ToolError>,
    pub mutations: Vec<Mutation>,
    pub execution_time_ms: u64,
}

impl ToolResult {
    pub fn success(output: &str, mutations: Vec<Mutation>) -> (r: Self)
        ensures
            r.success,
            r.output matches Some(o) && o@ == output@,
            r.error is None,
            r.mutations@ == mutations@,
            r.execution_time_ms == 0,
    {
        ToolResult {
            success: true,
            output: Some(to_owned_string(output)),
            error: None,
            mutations,
            execution_time_ms: 0,
        }
    }

    pub fn failure(error: ToolError) -> (r: Self)
        ensures
            !r.success,
            r.output is None,
            r.error == Some(error),
            r.mutations@.len() == 0,
            r.execution_time_ms == 0,
    {
        ToolResult {
            success: false,
            output: None,
            error: Some(error),
            mutations: Vec::new(),
            execution_time_ms: 0,
        }
    }
}

/// Specific tool error types.
#[derive(Debug)]
pub enum ToolError {
    MissingArgument(String),
    InvalidArgument { name: String, value: String, reason: String },
    IoError(String),
    NotAllowed { tool: ToolName, mode: ExecutionMode },
    ExecutionFailed(String),
}

// ===========================================================================
// Mutations
// ===========================================================================

#[derive(Debug, Clone, Copy, PartialEq, Eq, Structural)]
pub enum MutationType {
    Write,
    Patch,
    Delete,
    Move,
}

/// A file system mutation performed by a tool.
#[derive(Debug)]
pub struct Mutation {
    pub path: String,
    pub mutation_type: MutationType,
    pub content_hash_before: Option<String>,
    pub content_hash_after: Option<String>,
}

/// Model of a mutation.
pub struct MutationView {
    pub path: Seq<char>,
    pub mutation_type: MutationType,
    pub content_hash_before: Option<Seq<char>>,
    pub content_hash_after: Option<Seq<char>>,
}

pub open spec fn opt_view(o: Option<String>) -> Option<Seq<char>> {
    match o {
        Some(s) => Some(s@),
        None => None,
    }
}

impl View for Mutation {
    type V = MutationView;

    open spec fn view(&self) -> MutationView {
        MutationView {
            path: self.path@,
            mutation_type: self.mutation_type,
            content_hash_before: opt_view(self.content_hash_before),
            content_hash_after: opt_view(self.content_hash_after),
        }
    }
}

pub fn clone_opt_string(o: &Option<String>) -> (r: Option<String>)
    ensures
        r == *o,
{
    match o {
        Some(s) => Some(s.clone()),
        None => None,
    }
}

impl Clone for Mutation {
    fn clone(&self) -> (r: Self)
        ensures
            r == *self,
    {
        Mutation {
            path: self.path.clone(),
            mutation_type: self.mutation_type,
            content_hash_before: clone_opt_string(&self.content_hash_before),
            content_hash_after: clone_opt_string(&self.content_hash_after),
        }
    }
}

impl Mutation {
    pub fn write(path: &str) -> (r: Self)
        ensures
            r.path@ == path@,
            r.mutation_type == MutationType::Write,
            r.content_hash_before is None,
            r.content_hash_after is None,
    {
        Mutation {
            path: to_owned_string(path),
            mutation_type: MutationType::Write,
            content_hash_before: None,
            content_hash_after: None,
        }
    }

    pub fn delete(path: &str) -> (r: Self)
        ensures
            r.path@ == path@,
            r.mutation_type == MutationType::Delete,
            r.content_hash_before is None,
            r.content_hash_after is None,
    {
        Mutation {
            path: to_owned_string(path),
            mutation_type: MutationType::Delete,
            content_hash_before: None,
            content_hash_after: None,
        }
    }
}

// ===========================================================================
// Validation
// ===========================================================================

/// Decision from the validation engine.
#[derive(Debug, Clone, Copy, PartialEq, Eq, Structural)]
pub enum ValidationDecision {
    Accept,
    Reject,
    Escalate,
}

#[derive(Debug, Clone, Copy, PartialEq, Eq, Structural)]
pub enum ValidationStage {
    Syntax,
    Format,
    Lint,
    Build,
    Test,
}

/// Result from one validation stage.
#[derive(Debug)]
pub struct ValidationStageResult {
    pub stage: ValidationStage,
    pub passed: bool,
    pub message: String,
    pub execution_time_ms: u64,
}

impl Clone for ValidationStageResult {
    fn clone(&self) -> (r: Self)
        ensures
            r == *self,
    {
        ValidationStageResult {
            stage: self.stage,
            passed: self.passed,
            message: self.message.clone(),
            execution_time_ms: self.execution_time_ms,
        }
    }
}

/// Detailed validation result.
#[derive(Debug)]
pub struct ValidationReport {
    pub decision: ValidationDecision,
    pub stage_results: Vec<ValidationStageResult>,
    pub message: String,
    pub requires_revert: bool,
}

/// Model of a validation report.
pub struct ValidationReportView {
    pub decision: ValidationDecision,
    pub stage_results: Seq<ValidationStageResult>,
    pub message: Seq<char>,
    pub requires_revert: bool,
}

impl View for ValidationReport {
    type V = ValidationReportView;

    open spec fn view(&self) -> ValidationReportView {
        ValidationReportView {
            decision: self.decision,
            stage_results: self.stage_results@,
            message: self.message@,
            requires_revert: self.requires_revert,
        }
    }
}

impl Clone for ValidationReport {
    fn clone(&self) -> (r: Self)
        ensures
            r@ == self@,
    {
        let mut stages: Vec<ValidationStageResult> = Vec::new();
        let mut i: usize = 0;
        while i < self.stage_results.len()
            invariant
                i <= self.stage_results.len(),
                stages@ == self.stage_results@.take(i as int),
            decreases self.stage_results.len() - i,
        {
            stages.push(self.stage_results[i].clone());
            assert(stages@ =~= self.stage_results@.take(i + 1));
            i = i + 1;
        }
        assert(stages@ =~= self.stage_results@);
        ValidationReport {
            decision: self.decision,
            stage_results: stages,
            message: self.message.clone(),
            requires_revert: self.requires_revert,
        }
    }
}

impl ValidationReport {
    pub fn accept(message: &str) -> (r: Self)
        ensures
            r.decision == ValidationDecision::Accept,
            r.stage_results@.len() == 0,
            r.message@ == message@,
            !r.requires_revert,
    {
        ValidationReport {
            decision: ValidationDecision::Accept,
            stage_results: Vec::new(),
            message: to_owned_string(message),
            requires_revert: false,
        }
    }

    pub fn reject(message: &str) -> (r: Self)
        ensures
            r.decision == ValidationDecision::Reject,
            r.stage_results@.len() == 0,
            r.message@ == message@,
            r.requires_revert,
    {
        ValidationReport {
            decision: ValidationDecision::Reject,
            stage_results: Vec::new(),
            message: to_owned_string(message),
            requires_revert: true,
        }
    }
}

/// A recorded change in the change history.
#[derive(Debug)]
pub struct ChangeRecord {
    pub session_id: SessionId,
    pub iteration: u32,
    pub timestamp: u64,
    pub mutation: Mutation,
    pub validation_report: ValidationReport,
}

/// Model of a change record.
pub struct ChangeRecordView {
    pub session_id: Seq<char>,
    pub iteration: u32,
    pub timestamp: u64,
    pub mutation: MutationView,
    pub validation_report: ValidationReportView,
}

impl View for ChangeRecord {
    type V = ChangeRecordView;

    open spec fn view(&self) -> ChangeRecordView {
        ChangeRecordView {
            session_id: self.session_id@,
            iteration: self.iteration,
            timestamp: self.timestamp,
            mutation: self.mutation@,
            validation_report: self.validation_report@,
        }
    }
}

impl Clone for ChangeRecord {
    fn clone(&self) -> (r: Self)
        ensures
            r@ == self@,
    {
        ChangeRecord {
            session_id: self.session_id.clone(),
            iteration: self.iteration,
            timestamp: self.timestamp,
            mutation: self.mutation.clone(),
            validation_report: self.validation_report.clone(),
        }
    }
}

// ===========================================================================
// File tracking
// ===========================================================================

/// Record of a file read operation.
#[derive(Debug)]
pub struct FileRecord {
    pub path: String,
    pub content_hash: String,
    pub size_bytes: u64,
    pub total_lines: usize,
    /// (offset, limit) if partial read
    pub lines_read: Option<(usize, usize)>,
    pub is_full_read: bool,
    pub read_at_iteration: u32,
    /// Full content or the exact observed excerpt
    pub content: Option<String>,
}

impl Clone for FileRecord {
    fn clone(&self) -> (r: Self)
        ensures
            r == *self,
    {
        FileRecord {
            path: self.path.clone(),
            content_hash: self.content_hash.clone(),
            size_bytes: self.size_bytes,
            total_lines: self.total_lines,
            lines_read: self.lines_read,
            is_full_read: self.is_full_read,
            read_at_iteration: self.read_at_iteration,
            content: clone_opt_string(&self.content),
        }
    }
}

/// Number of bytes in the UTF-8 encoding of `s`.
pub open spec fn utf8_len(s: Seq<char>) -> nat {
    vstd::utf8::encode_utf8(s).len()
}

impl FileRecord {
    /// Records a read of `content` from `path`; a read without a line range
    /// is a full read and keeps the content.
    pub fn new(path: &str, content: &str, lines_read: Option<(usize, usize)>, iteration: u32) -> (r:
        Self)
        ensures
            r.path@ == path@,
            r.content_hash@ == content_hash(content@),
            r.size_bytes == utf8_len(content@) as usize,
            r.total_lines == text_lines(content@).len(),
            r.lines_read == lines_read,
            r.is_full_read == (lines_read is None),
            r.read_at_iteration == iteration,
            lines_read is None ==> (r.content matches Some(c) && c@ == content@),
            lines_read is Some ==> r.content is None,
    {
        let size = content.len();
        let chars = chars_of(content);
        let lines = lines_chars(chars.as_slice());
        let total_lines = lines.len();
        proof {
            assert(lines@.map_values(|t: Vec<char>| t@).len() == lines@.len());
        }
        let is_full_read = lines_read.is_none();
        let content_hash = compute_content_hash(content);
        FileRecord {
            path: to_owned_string(path),
            content_hash,
            size_bytes: size as u64,
            total_lines,
            lines_read,
            is_full_read,
            read_at_iteration: iteration,
            content: if is_full_read {
                Some(to_owned_string(content))
            } else {
                None
            },
        }
    }

    /// A record can be used for patching only after a full read.
    pub fn can_patch(&self) -> (r: bool)
        ensures
            r == self.is_full_read,
    {
        self.is_full_read
    }

    /// The same record holding `observed_content` as its content.
    pub fn with_observed_content(self, observed_content: String) -> (r: Self)
        ensures
            r.content == Some(observed_content),
            r.path == self.path,
            r.content_hash == self.content_hash,
            r.size_bytes == self.size_bytes,
            r.total_lines == self.total_lines,
            r.lines_read == self.lines_read,
            r.is_full_read == self.is_full_read,
            r.read_at_iteration == self.read_at_iteration,
    {
        let mut r = self;
        r.content = Some(observed_content);
        r
    }

    /// The stored content, if any.
    pub fn content(&self) -> (r: Option<&str>)
        ensures
            r is Some == self.content is Some,
            r matches Some(c) ==> c@ == self.content->0@,
    {
        match &self.content {
            Some(c) => Some(c.as_str()),
            None => None,
        }
    }
}

/// Result of a read_file tool call.
#[derive(Debug, Clone)]
pub struct ReadFileResult {
    pub path: String,
    pub content: String,
    pub total_lines: usize,
    pub lines_returned: usize,
    pub content_hash: String,
    pub is_full_read: bool,
}

/// Result of an apply_patch tool call.
#[derive(Debug, Clone)]
pub struct ApplyPatchResult {
    pub path: String,
    pub success: bool,
    pub lines_changed: usize,
    pub old_hash: String,
    pub new_hash: String,
    pub error: Option<String>,
}

/// Snapshot of a file's content for revert operations.
#[derive(Debug)]
pub struct FileSnapshot {
    pub path: String,
    pub content: String,
    pub content_hash: String,
    pub captured_at: u64,
}

impl Clone for FileSnapshot {
    fn clone(&self) -> (r: Self)
        ensures
            r == *self,
    {
        FileSnapshot {
            path: self.path.clone(),
            content: self.content.clone(),
            content_hash: self.content_hash.clone(),
            captured_at: self.captured_at,
        }
    }
}

impl FileSnapshot {
    /// Captures `content` of `path` now.
    pub fn new(path: &str, content: &str) -> (r: Self)
        ensures
            r.path@ == path@,
            r.content@ == content@,
            r.content_hash@ == content_hash(content@),
    {
        FileSnapshot {
            path: to_owned_string(path),
            content: to_owned_string(content),
            content_hash: compute_content_hash(content),
            captured_at: timestamp_now(),
        }
    }
}

// ===========================================================================
// Patches
// ===========================================================================

/// Patch model: exact string replacement of every occurrence.
#[derive(Debug, Clone)]
pub struct Patch {
    pub old_text: String,
    pub new_text: String,
}

impl Patch {
    /// Replaces every occurrence of `old_text`, or `None` when it does not
    /// occur.
    pub fn apply(&self, content: &str) -> (r: Option<String>)
        ensures
            r is Some <==> contains_seq(content@, self.old_text@),
            r matches Some(c) ==> c@ == replace_all(content@, self.old_text@, self.new_text@),
    {
        let cs = chars_of(content);
        let old = chars_of(self.old_text.as_str());
        if chars_contains(cs.as_slice(), old.as_slice()) {
            let new = chars_of(self.new_text.as_str());
            let out = replace_all_chars(cs.as_slice(), old.as_slice(), new.as_slice());
            Some(string_from_chars(out.as_slice()))
        } else {
            None
        }
    }
}

/// Hardened patch: `old_text` must appear exactly once in the target.
#[derive(Debug, Clone)]
pub struct HardenedPatch {
    pub old_text: String,
    pub new_text: String,
}

/// Specific reasons for patch failure.
#[derive(Debug, Clone, PartialEq, Eq)]
pub enum PatchFailureReason {
    /// old_text appeared 0 times
    TextNotFound,
    /// old_text appeared more than once (ambiguous)
    MultipleOccurrences,
    /// file doesn't exist
    TargetNotFound,
    IoError(String),
}

/// Result of a patch application attempt.
#[derive(Debug, Clone)]
pub enum PatchApplicationResult {
    Success { new_content: String, occurrences_found: usize, occurrences_replaced: usize },
    Failed { reason: PatchFailureReason, occurrences_found: usize },
}

impl HardenedPatch {
    /// Applies the patch only when `old_text` occurs exactly once.
    pub fn apply(&self, content: &str) -> (r: PatchApplicationResult)
        requires
            content@.len() < usize::MAX,
        ensures
            match_count(content@, self.old_text@) == 0 ==> (r == (PatchApplicationResult::Failed {
                reason: PatchFailureReason::TextNotFound,
                occurrences_found: 0,
            })),
            match_count(content@, self.old_text@) > 1 ==> (r == (PatchApplicationResult::Failed {
                reason: PatchFailureReason::MultipleOccurrences,
                occurrences_found: match_count(content@, self.old_text@) as usize,
            })),
            match_count(content@, self.old_text@) <= usize::MAX,
            match_count(content@, self.old_text@) == 1 ==> (r matches (
            PatchApplicationResult::Success { new_content, occurrences_found, occurrences_replaced })
                && occurrences_found == 1 && occurrences_replaced == 1 && new_content@
                == replace_first(content@, self.old_text@, self.new_text@)),
    {
        let cs = chars_of(content);
        let old = chars_of(self.old_text.as_str());
        let occurrences = count_matches(cs.as_slice(), old.as_slice());
        if occurrences == 0 {
            return PatchApplicationResult::Failed {
                reason: PatchFailureReason::TextNotFound,
                occurrences_found: 0,
            };
        }
        if occurrences > 1 {
            return PatchApplicationResult::Failed {
                reason: PatchFailureReason::MultipleOccurrences,
                occurrences_found: occurrences,
            };
        }
        proof {
            lemma_count_positive_occurs(cs@, old@);
        }
        let first = find_first(cs.as_slice(), old.as_slice());
        match first {
            Some(i) => {
                let new = chars_of(self.new_text.as_str());
                let mut out: Vec<char> = Vec::new();
                append_chars(&mut out, slice_prefix(cs.as_slice(), i));
                append_chars(&mut out, new.as_slice());
                append_chars(&mut out, slice_suffix(cs.as_slice(), i + old.len()));
                assert(out@ =~= replace_first(cs@, old@, new@));
                PatchApplicationResult::Success {
                    new_content: string_from_chars(out.as_slice()),
                    occurrences_found: 1,
                    occurrences_replaced: 1,
                }
            },
            None => {
                PatchApplicationResult::Failed {
                    reason: PatchFailureReason::TextNotFound,
                    occurrences_found: 0,
                }
            },
        }
    }
}

/// A positive match count means the pattern occurs.
proof fn lemma_count_positive_occurs(s: Seq<char>, p: Seq<char>)
    requires
        match_count(s, p) > 0,
    ensures
        contains_seq(s, p),
{
    if p.len() == 0 {
        assert(s.subrange(0, 0) =~= p);
        assert(occurs_at(s, p, 0));
    } else {
        lemma_count_from_positive_occurs(s, p, 0);
    }
}

proof fn lemma_count_from_positive_occurs(s: Seq<char>, p: Seq<char>, i: int)
    requires
        p.len() > 0,
        match_count_from(s, p, i) > 0,
    ensures
        contains_seq(s, p),
    decreases s.len() - i,
{
    if i < 0 || i + p.len() > s.len() {
    } else if occurs_at(s, p, i) {
    } else {
        lemma_count_from_positive_occurs(s, p, i + 1);
    }
}

/// The first `n` characters.
fn slice_prefix(s: &[char], n: usize) -> (r: &[char])
    requires
        n <= s@.len(),
    ensures
        r@ == s@.subrange(0, n as int),
{
    vstd::slice::slice_subrange(s, 0, n)
}

/// The characters from `n` on.
fn slice_suffix(s: &[char], n: usize) -> (r: &[char])
    requires
        n <= s@.len(),
    ensures
        r@ == s@.subrange(n as int, s@.len() as int),
{
    vstd::slice::slice_subrange(s, n, s.len())
}

/// Hardened apply_patch result with integrity metadata.
#[derive(Debug, Clone)]
pub struct HardenedPatchResult {
    pub path: String,
    pub success: bool,
    pub hash_before: String,
    pub hash_after: Option<String>,
    pub old_text_occurrences: usize,
    pub lines_changed: usize,
    pub snapshot_used: bool,
    pub expected_hash_verified: bool,
    pub error: Option<PatchFailureReason>,
}

/// Patch-specific integrity errors.
#[derive(Debug, Clone)]
pub enum PatchIntegrityError {
    ReadBeforeWriteViolation { path: String },
    ExpectedHashMissing,
    ExpectedHashMismatch { path: String, expected: String, tracked_hash: String },
    TrackedHashMismatch { path: String, tracked_hash: String, on_disk: String },
    PatchCardinalityViolation { path: String, occurrences: usize },
    PatchTextNotFound { path: String },
    SnapshotMissing { path: String },
    RevertVerificationFailed { path: String, expected_hash: String, actual_hash: String },
}

/// Read-before-write enforcement errors (superseded by `PatchIntegrityError`).
#[derive(Debug, Clone)]
pub enum PatchError {
    FileNotRead { path: String },
    FileNotFullyRead { path: String },
    HashMismatch { path: String, expected: String, actual: String },
    PatchFailed { path: String, reason: String },
    FileNotFound { path: String },
}

// ===========================================================================
// Structured log entries
// ===========================================================================

/// Log severity levels.
#[derive(Debug, Clone, Copy, PartialEq, Eq, Structural)]
pub enum LogSeverity {
    Debug,
    Info,
    Warning,
    Error,
}

impl LogSeverity {
    /// Upper-case label (what `Display` prints).
    pub fn label(&self) -> (r: &'static str)
        ensures
            r@ == severity_label(*self),
    {
        match self {
            LogSeverity::Debug => "DEBUG",
            LogSeverity::Info => "INFO",
            LogSeverity::Warning => "WARNING",
            LogSeverity::Error => "ERROR",
        }
    }
}

pub open spec fn severity_label(s: LogSeverity) -> Seq<char> {
    match s {
        LogSeverity::Debug => "DEBUG"@,
        LogSeverity::Info => "INFO"@,
        LogSeverity::Warning => "WARNING"@,
        LogSeverity::Error => "ERROR"@,
    }
}

/// Structured log entry for machine-readable logging.
#[derive(Debug)]
pub struct JsonlLogEntry {
    pub event_type: String,
    pub session_id: String,
    pub iteration: u32,
    pub timestamp: u64,
    pub severity: String,
    pub tool: Option<String>,
    pub result_code: Option<String>,
    pub affected_paths: Vec<String>,
    pub message: String,
    pub metadata: ToolArguments,
}

impl JsonlLogEntry {
    pub fn new(
        event_type: &str,
        session_id: &SessionId,
        iteration: u32,
        severity: &str,
        message: &str,
    ) -> (r: Self)
        ensures
            r.event_type@ == event_type@,
            r.session_id@ == session_id@,
            r.iteration == iteration,
            r.severity@ == severity@,
            r.tool is None,
            r.result_code is None,
            r.affected_paths@.len() == 0,
            r.message@ == message@,
            r.metadata@.len() == 0,
    {
        JsonlLogEntry {
            event_type: to_owned_string(event_type),
            session_id: session_id.to_text(),
            iteration,
            timestamp: timestamp_now(),
            severity: to_owned_string(severity),
            tool: None,
            result_code: None,
            affected_paths: Vec::new(),
            message: to_owned_string(message),
            metadata: ToolArguments::new(),
        }
    }

    pub fn with_tool(self, tool: &str) -> (r: Self)
        ensures
            r.tool matches Some(t) && t@ == tool@,
            r.event_type == self.event_type,
            r.result_code == self.result_code,
            r.affected_paths@ == self.affected_paths@,
            r.message == self.message,
    {
        let mut r = self;
        r.tool = Some(to_owned_string(tool));
        r
    }

    pub fn with_result_code(self, code: &str) -> (r: Self)
        ensures
            r.result_code matches Some(c) && c@ == code@,
            r.event_type == self.event_type,
            r.tool == self.tool,
            r.affected_paths@ == self.affected_paths@,
            r.message == self.message,
    {
        let mut r = self;
        r.result_code = Some(to_owned_string(code));
        r
    }

    pub fn with_path(self, path: &str) -> (r: Self)
        ensures
            r.affected_paths@.len() == self.affected_paths@.len() + 1,
            r.affected_paths@.drop_last() == self.affected_paths@,
            r.affected_paths@.last()@ == path@,
            r.event_type == self.event_type,
            r.tool == self.tool,
            r.message == self.message,
    {
        let mut r = self;
        r.affected_paths.push(to_owned_string(path));
        assert(r.affected_paths@.drop_last() =~= self.affected_paths@);
        r
    }

    pub fn with_metadata(self, key: &str, value: &str) -> (r: Self)
        ensures
            r.metadata.lookup(key@) == Some(value@),
            forall|k: Seq<char>| k != key@ ==> r.metadata.lookup(k) == self.metadata.lookup(k),
            r.event_type == self.event_type,
            r.tool == self.tool,
            r.message == self.message,
    {
        let mut r = self;
        r.metadata.set(key, value);
        r
    }
}

// ===========================================================================
// Task chains
// ===========================================================================

/// Unique chain identifier.
#[derive(Debug, PartialEq, Eq, Hash)]
pub struct ChainId(String);

impl View for ChainId {
    type V = Seq<char>;

    closed spec fn view(&self) -> Seq<char> {
        self.0@
    }
}

impl Clone for ChainId {
    fn clone(&self) -> (r: Self)
        ensures
            r == *self,
    {
        ChainId(self.0.clone())
    }
}

impl ChainId {
    /// A fresh identifier `chain-<millis>-<8 hex digits>`.
    pub fn new() -> (r: Self)
        ensures
            exists|millis: nat, tick: nat| r@ == timestamped_id("chain"@, millis, tick),
    {
        ChainId(make_timestamped_id("chain"))
    }

    pub fn as_str(&self) -> (r: &str)
        ensures
            r@ == self@,
    {
        self.0.as_str()
    }

    pub fn from_string(value: String) -> (r: Self)
        ensures
            r@ == value@,
    {
        ChainId(value)
    }
}

/// Unique chain step identifier.
#[derive(Debug, PartialEq, Eq, Hash)]
pub struct ChainStepId(String);

impl View for ChainStepId {
    type V = Seq<char>;

    closed spec fn view(&self) -> Seq<char> {
        self.0@
    }
}

impl Clone for ChainStepId {
    fn clone(&self) -> (r: Self)
        ensures
            r == *self,
    {
        ChainStepId(self.0.clone())
    }
}

/// `step-<index>`.
pub open spec fn step_id_text(index: nat) -> Seq<char> {
    "step-"@ + decimal(index)
}

impl ChainStepId {
    pub fn new(index: usize) -> (r: Self)
        ensures
            r@ == step_id_text(index as nat),
    {
        let mut out = to_owned_string("step-");
        push_decimal(&mut out, index as u64);
        ChainStepId(out)
    }

    pub fn from_string(value: String) -> (r: Self)
        ensures
            r@ == value@,
    {
        ChainStepId(value)
    }

    pub fn as_str(&self) -> (r: &str)
        ensures
            r@ == self@,
    {
        self.0.as_str()
    }
}

/// Authoritative execution outcome of a chain.
#[derive(Debug, Clone, Copy, PartialEq, Eq, Structural)]
pub enum ExecutionOutcome {
    /// All steps completed successfully, no warnings
    Success,
    /// Completed but with non-fatal warnings (e.g., force override used)
    SuccessWithWarnings,
    /// Could not complete due to a blocking condition
    Blocked,
    /// Execution failed with errors
    Failed,
}

impl ExecutionOutcome {
    pub fn is_success(&self) -> (r: bool)
        ensures
            r == (*self is Success || *self is SuccessWithWarnings),
    {
        matches!(self, ExecutionOutcome::Success | ExecutionOutcome::SuccessWithWarnings)
    }

    pub fn is_failure(&self) -> (r: bool)
        ensures
            r == (*self is Failed),
    {
        matches!(self, ExecutionOutcome::Failed)
    }

    pub fn is_blocked(&self) -> (r: bool)
        ensures
            r == (*self is Blocked),
    {
        matches!(self, ExecutionOutcome::Blocked)
    }

    /// Display label.
    pub fn label(&self) -> (r: &'static str)
        ensures
            r@ == outcome_label(*self),
    {
        match self {
            ExecutionOutcome::Success => "SUCCESS",
            ExecutionOutcome::SuccessWithWarnings => "DONE (with warnings)",
            ExecutionOutcome::Blocked => "BLOCKED",
            ExecutionOutcome::Failed => "FAILED",
        }
    }

    /// Indicator icon.
    pub fn icon(&self) -> (r: &'static str)
        ensures
            r@ == outcome_icon(*self),
    {
        match self {
            ExecutionOutcome::Success => "\u{2713}",
            ExecutionOutcome::SuccessWithWarnings => "\u{26a1}",
            ExecutionOutcome::Blocked => "\u{23f8}",
            ExecutionOutcome::Failed => "\u{2717}",
        }
    }
}

pub open spec fn outcome_label(o: ExecutionOutcome) -> Seq<char> {
    match o {
        ExecutionOutcome::Success => "SUCCESS"@,
        ExecutionOutcome::SuccessWithWarnings => "DONE (with warnings)"@,
        ExecutionOutcome::Blocked => "BLOCKED"@,
        ExecutionOutcome::Failed => "FAILED"@,
    }
}

pub open spec fn outcome_icon(o: ExecutionOutcome) -> Seq<char> {
    match o {
        ExecutionOutcome::Success => "\u{2713}"@,
        ExecutionOutcome::SuccessWithWarnings => "\u{26a1}"@,
        ExecutionOutcome::Blocked => "\u{23f8}"@,
        ExecutionOutcome::Failed => "\u{2717}"@,
    }
}

/// Status of a task chain lifecycle.
#[derive(Debug, Clone, Copy, PartialEq, Eq, Structural)]
pub enum ChainStatus {
    Pending,
    Running,
    Complete,
    Failed,
    Cancelled,
}

/// Status of an individual chain step.
#[derive(Debug, Clone, Copy, PartialEq, Eq, Structural)]
pub enum StepStatus {
    Pending,
    Running,
    Completed,
    Failed,
    Blocked,
}

/// Classified outcome of a chain step.
#[derive(Debug, Clone, PartialEq, Eq)]
pub enum StepOutcome {
    /// Step resolved successfully with evidence
    Resolved { summary: String, files_modified: Vec<String> },
    /// Step failed with error context
    Failed { reason: String, recoverable: bool },
    /// Step blocked pending external action
    Blocked { reason: String },
}

/// A single step in a task chain.
#[derive(Debug)]
pub struct ChainStep {
    pub id: ChainStepId,
    pub step_id: String,
    pub description: String,
    pub tool_calls: Vec<ToolCall>,
    pub status: StepStatus,
    pub validation_result: Option<ValidationReport>,
    pub outcome: Option<StepOutcome>,
    pub index: usize,
}

impl ChainStep {
    pub fn new(index: usize, description: String) -> (r: Self)
        ensures
            r.id@ == step_id_text(index as nat),
            r.step_id@ == step_id_text(index as nat),
            r.description == description,
            r.tool_calls@.len() == 0,
            r.status == StepStatus::Pending,
            r.validation_result is None,
            r.outcome is None,
            r.index == index,
    {
        let id = ChainStepId::new(index);
        ChainStep {
            step_id: id.as_str().to_string(),
            id,
            description,
            tool_calls: Vec::new(),
            status: StepStatus::Pending,
            validation_result: None,
            outcome: None,
            index,
        }
    }

    pub fn with_tool_calls(index: usize, description: String, tool_calls: Vec<ToolCall>) -> (r:
        Self)
        ensures
            r.id@ == step_id_text(index as nat),
            r.step_id@ == step_id_text(index as nat),
            r.description == description,
            r.tool_calls@ == tool_calls@,
            r.status == StepStatus::Pending,
            r.validation_result is None,
            r.outcome is None,
            r.index == index,
    {
        let mut step = Self::new(index, description);
        step.tool_calls = tool_calls;
        step
    }
}

/// Result of chain execution.
#[derive(Debug, Clone)]
pub struct ChainExecutionResult {
    pub success: bool,
    pub chain_id: String,
    pub completed_steps: usize,
    pub total_steps: usize,
    pub final_status: ChainStatus,
    pub error: Option<String>,
}

/// Number of steps with status `Completed`.
pub open spec fn completed_count(steps: Seq<ChainStep>) -> nat
    decreases steps.len(),
{
    if steps.len() == 0 {
        0
    } else {
        completed_count(steps.drop_last()) + if steps.last().status == StepStatus::Completed {
            1nat
        } else {
            0nat
        }
    }
}

/// Some step is blocked.
pub open spec fn has_blocked(steps: Seq<ChainStep>) -> bool {
    exists|i: int| 0 <= i < steps.len() && steps[i].status == StepStatus::Blocked
}

/// A bounded multi-step task chain.
#[derive(Debug)]
pub struct TaskChain {
    pub chain_id: ChainId,
    pub objective: String,
    pub steps: Vec<ChainStep>,
    /// Index of current step (0-based)
    pub current_step: usize,
    pub status: ChainStatus,
    /// Set once at the end of execution; the single source of truth.
    pub execution_outcome: Option<ExecutionOutcome>,
    /// Whether a force override was used (maps to SuccessWithWarnings)
    pub force_override_used: bool,
    pub created_at: u64,
    pub updated_at: u64,
}

impl TaskChain {
    /// The outcome that `finalize_outcome` assigns to a chain in this state.
    pub open spec fn outcome_of(&self) -> ExecutionOutcome {
        if self.status == ChainStatus::Failed {
            ExecutionOutcome::Failed
        } else if has_blocked(self.steps@) {
            ExecutionOutcome::Blocked
        } else if self.status == ChainStatus::Complete {
            if self.force_override_used {
                ExecutionOutcome::SuccessWithWarnings
            } else {
                ExecutionOutcome::Success
            }
        } else {
            ExecutionOutcome::Blocked
        }
    }

    /// A pending chain over `steps`, one step per description, in order.
    pub fn new(objective: String, steps: Vec<String>) -> (r: Self)
        ensures
            r.objective == objective,
            r.steps@.len() == steps@.len(),
            forall|i: int|
                0 <= i < steps@.len() ==> (#[trigger] r.steps@[i]).description == steps@[i]
                    && r.steps@[i].index == i && r.steps@[i].status == StepStatus::Pending
                    && r.steps@[i].step_id@ == step_id_text(i as nat),
            r.current_step == 0,
            r.status == ChainStatus::Pending,
            r.execution_outcome is None,
            !r.force_override_used,
            r.created_at == r.updated_at,
    {
        let now = timestamp_secs();
        let mut chain_steps: Vec<ChainStep> = Vec::new();
        let ghost all = steps@;
        let n = steps.len();
        let mut i: usize = 0;
        for d in it: steps
            invariant
                it.seq() == all,
                all.len() == n,
                i <= n,
                i == it.index(),
                chain_steps@.len() == i,
                forall|k: int|
                    0 <= k < i ==> (#[trigger] chain_steps@[k]).description == all[k]
                        && chain_steps@[k].index == k && chain_steps@[k].status
                        == StepStatus::Pending && chain_steps@[k].step_id@ == step_id_text(
                        k as nat,
                    ),
        {
            chain_steps.push(ChainStep::new(i, d));
            i = i + 1;
        }
        TaskChain {
            chain_id: ChainId::new(),
            objective,
            steps: chain_steps,
            current_step: 0,
            status: ChainStatus::Pending,
            execution_outcome: None,
            force_override_used: false,
            created_at: now,
            updated_at: now,
        }
    }

    /// The current step, if the index is in range.
    /// The current step, for changing it in place.
    pub fn current_step_mut(&mut self) -> (r: Option<&mut ChainStep>)
        ensures
            old(self).current_step >= old(self).steps@.len() ==> r is None && *final(self)
                == *old(self),
            old(self).current_step < old(self).steps@.len() ==> (r matches Some(s) && *s == old(
                self,
            ).steps@[old(self).current_step as int] && *final(self) == (TaskChain {
                steps: final(self).steps,
                ..*old(self)
            }) && final(self).steps@ == old(self).steps@.update(
                old(self).current_step as int,
                *final(s),
            )),
    {
        if self.current_step < self.steps.len() {
            let i = self.current_step;
            Some(&mut self.steps[i])
        } else {
            None
        }
    }

    pub fn current_step(&self) -> (r: Option<&ChainStep>)
        ensures
            self.current_step < self.steps@.len() ==> r == Some(&self.steps@[self.current_step as int]),
            self.current_step >= self.steps@.len() ==> r is None,
    {
        if self.current_step < self.steps.len() {
            Some(&self.steps[self.current_step])
        } else {
            None
        }
    }

    /// Moves to the next step; on the last step marks the chain complete and
    /// returns `false`.
    pub fn advance(&mut self) -> (r: bool)
        requires
            old(self).current_step < usize::MAX,
        ensures
            r == (old(self).current_step + 1 < old(self).steps@.len()),
            r ==> *final(self) == (TaskChain {
                current_step: (old(self).current_step + 1) as usize,
                updated_at: final(self).updated_at,
                ..*old(self)
            }),
            !r ==> *final(self) == (TaskChain { status: ChainStatus::Complete, ..*old(self) }),
    {
        if self.current_step + 1 < self.steps.len() {
            self.current_step = self.current_step + 1;
            self.updated_at = timestamp_secs();
            true
        } else {
            self.status = ChainStatus::Complete;
            false
        }
    }

    /// Marks the chain failed.
    pub fn fail(&mut self)
        ensures
            *final(self) == (TaskChain {
                status: ChainStatus::Failed,
                updated_at: final(self).updated_at,
                ..*old(self)
            }),
    {
        self.status = ChainStatus::Failed;
        self.updated_at = timestamp_secs();
    }

    pub fn is_complete(&self) -> (r: bool)
        ensures
            r == (self.status == ChainStatus::Complete),
    {
        matches!(self.status, ChainStatus::Complete)
    }

    pub fn is_failed(&self) -> (r: bool)
        ensures
            r == (self.status == ChainStatus::Failed),
    {
        matches!(self.status, ChainStatus::Failed)
    }

    /// Number of completed steps.
    pub fn completed_steps(&self) -> (r: usize)
        ensures
            r == completed_count(self.steps@),
    {
        let mut count: usize = 0;
        let mut i: usize = 0;
        while i < self.steps.len()
            invariant
                i <= self.steps@.len(),
                count == completed_count(self.steps@.take(i as int)),
                count <= i,
            decreases self.steps.len() - i,
        {
            assert(self.steps@.take(i + 1).drop_last() =~= self.steps@.take(i as int));
            if matches!(self.steps[i].status, StepStatus::Completed) {
                count = count + 1;
            }
            i = i + 1;
        }
        assert(self.steps@.take(self.steps@.len() as int) =~= self.steps@);
        count
    }

    fn has_blocked_step(&self) -> (r: bool)
        ensures
            r == has_blocked(self.steps@),
    {
        let mut i: usize = 0;
        while i < self.steps.len()
            invariant
                i <= self.steps@.len(),
                forall|k: int| 0 <= k < i ==> self.steps@[k].status != StepStatus::Blocked,
            decreases self.steps.len() - i,
        {
            if matches!(self.steps[i].status, StepStatus::Blocked) {
                return true;
            }
            i = i + 1;
        }
        false
    }

    /// Computes and records the authoritative outcome.
    pub fn finalize_outcome(&mut self) -> (r: ExecutionOutcome)
        ensures
            r == old(self).outcome_of(),
            *final(self) == (TaskChain { execution_outcome: Some(r), ..*old(self) }),
    {
        let outcome = if self.is_failed() {
            ExecutionOutcome::Failed
        } else if self.has_blocked_step() {
            ExecutionOutcome::Blocked
        } else if self.is_complete() {
            if self.force_override_used {
                ExecutionOutcome::SuccessWithWarnings
            } else {
                ExecutionOutcome::Success
            }
        } else {
            ExecutionOutcome::Blocked
        };
        self.execution_outcome = Some(outcome);
        outcome
    }

    pub fn get_outcome(&self) -> (r: Option<ExecutionOutcome>)
        ensures
            r == self.execution_outcome,
    {
        self.execution_outcome
    }

    /// Records that a force override was used.
    pub fn mark_force_override(&mut self)
        ensures
            *final(self) == (TaskChain { force_override_used: true, ..*old(self) }),
    {
        self.force_override_used = true;
    }
}

/// How a chain's final outcome is decided: a failed chain failed; otherwise
/// a chain with a blocked step is blocked; otherwise a completed chain
/// succeeded, with warnings exactly when a force override was used; a chain
/// that neither failed nor completed is blocked.
pub proof fn law_chain_outcome(c: TaskChain)
    ensures
        c.status == ChainStatus::Failed ==> c.outcome_of() == ExecutionOutcome::Failed,
        c.status != ChainStatus::Failed && (exists|i: int|
            0 <= i < c.steps@.len() && (#[trigger] c.steps@[i]).status == StepStatus::Blocked)
            ==> c.outcome_of() == ExecutionOutcome::Blocked,
        c.status == ChainStatus::Complete && (forall|i: int|
            0 <= i < c.steps@.len() ==> (#[trigger] c.steps@[i]).status != StepStatus::Blocked)
            ==> {
            &&& c.force_override_used ==> c.outcome_of() == ExecutionOutcome::SuccessWithWarnings
            &&& !c.force_override_used ==> c.outcome_of() == ExecutionOutcome::Success
        },
        c.status != ChainStatus::Failed && c.status != ChainStatus::Complete ==> c.outcome_of()
            == ExecutionOutcome::Blocked,
        (c.outcome_of() == ExecutionOutcome::Success || c.outcome_of()
            == ExecutionOutcome::SuccessWithWarnings) ==> c.status == ChainStatus::Complete,
{
}

/// A force override on a completed chain with no blocked step turns a plain
/// success into a success with warnings, and nothing else changes the
/// outcome.
pub proof fn law_force_override_adds_warnings(c: TaskChain)
    requires
        c.status == ChainStatus::Complete,
        forall|i: int| 0 <= i < c.steps@.len() ==> (#[trigger] c.steps@[i]).status != StepStatus::Blocked,
    ensures
        (TaskChain { force_override_used: false, ..c }).outcome_of() == ExecutionOutcome::Success,
        (TaskChain { force_override_used: true, ..c }).outcome_of()
            == ExecutionOutcome::SuccessWithWarnings,
{
}

// ===========================================================================
// Chain integrity
// ===========================================================================

/// Digest of chain state at one step, linked to the previous step's hash.
#[derive(Debug, Clone, PartialEq, Eq)]
pub struct ChainStateDigest {
    pub step_index: u32,
    pub state_hash: String,
    pub previous_hash: Option<String>,
    pub computed_at: u64,
}

impl ChainStateDigest {
    /// The digest links to `expected` as its predecessor: its previous hash
    /// is `expected`, or it is step 0 with no previous hash.
    pub open spec fn links_to(&self, expected: Seq<char>) -> bool {
        match self.previous_hash {
            Some(p) => p@ == expected,
            None => self.step_index == 0,
        }
    }

    pub fn new(step_index: u32, state_hash: String, previous_hash: Option<String>) -> (r: Self)
        ensures
            r.step_index == step_index,
            r.state_hash == state_hash,
            r.previous_hash == previous_hash,
    {
        ChainStateDigest { step_index, state_hash, previous_hash, computed_at: timestamp_now() }
    }

    /// Checks that this digest's previous hash is `expected_previous`.
    pub fn verify_chain_continuity(&self, expected_previous: &str) -> (r: Result<
        (),
        ChainIntegrityError,
    >)
        ensures
            r is Ok <==> self.links_to(expected_previous@),
            self.previous_hash matches Some(p) ==> (p@ != expected_previous@ ==> (r matches Err(
                ChainIntegrityError::ChainBroken { step_index, expected_hash, actual_hash },
            ) && step_index == self.step_index && expected_hash@ == expected_previous@
                && actual_hash@ == p@)),
            (self.previous_hash is None && self.step_index != 0) ==> r == Err::<
                (),
                ChainIntegrityError,
            >(ChainIntegrityError::MissingPreviousHash { step_index: self.step_index }),
    {
        match &self.previous_hash {
            Some(prev) => {
                if str_eq(prev.as_str(), expected_previous) {
                    Ok(())
                } else {
                    Err(
                        ChainIntegrityError::ChainBroken {
                            step_index: self.step_index,
                            expected_hash: to_owned_string(expected_previous),
                            actual_hash: prev.clone(),
                        },
                    )
                }
            },
            None => {
                if self.step_index == 0 {
                    Ok(())
                } else {
                    Err(ChainIntegrityError::MissingPreviousHash { step_index: self.step_index })
                }
            },
        }
    }
}

/// A digest made with a previous hash links to that hash, and step 0 made
/// without one links to anything.
pub proof fn law_digest_links_to_recorded_previous(d: ChainStateDigest, prev: Seq<char>)
    requires
        (d.previous_hash matches Some(p) && p@ == prev) || (d.previous_hash is None
            && d.step_index == 0),
    ensures
        d.links_to(prev),
{
}

/// The runtime version recorded in replay seals.
pub const RUNTIME_VERSION: &'static str = "0.1.0";

/// Replay seal for deterministic execution verification.
#[derive(Debug, Clone, PartialEq, Eq)]
pub struct ReplaySeal {
    pub initial_input_hash: String,
    pub chain_hash: String,
    pub final_state_hash: String,
    pub runtime_version: String,
    pub created_at: u64,
}

impl ReplaySeal {
    pub fn new(initial_input_hash: String, chain_hash: String, final_state_hash: String) -> (r:
        Self)
        ensures
            r.initial_input_hash == initial_input_hash,
            r.chain_hash == chain_hash,
            r.final_state_hash == final_state_hash,
            r.runtime_version@ == RUNTIME_VERSION@,
    {
        ReplaySeal {
            initial_input_hash,
            chain_hash,
            final_state_hash,
            runtime_version: to_owned_string(RUNTIME_VERSION),
            created_at: timestamp_now(),
        }
    }

    /// A replay matches the seal when both the chain hash and the final
    /// state hash are the sealed ones; the chain hash is checked first.
    pub fn verify_replay(&self, recomputed_chain_hash: &str, final_state_hash: &str) -> (r: Result<
        (),
        ReplayVerificationError,
    >)
        ensures
            r is Ok <==> (recomputed_chain_hash@ == self.chain_hash@ && final_state_hash@
                == self.final_state_hash@),
            recomputed_chain_hash@ != self.chain_hash@ ==> (r matches Err(
                ReplayVerificationError::ChainHashMismatch { expected, actual },
            ) && expected == self.chain_hash && actual@ == recomputed_chain_hash@),
            recomputed_chain_hash@ == self.chain_hash@ && final_state_hash@
                != self.final_state_hash@ ==> (r matches Err(
                ReplayVerificationError::FinalStateMismatch { expected, actual },
            ) && expected == self.final_state_hash && actual@ == final_state_hash@),
    {
        if !str_eq(recomputed_chain_hash, self.chain_hash.as_str()) {
            return Err(
                ReplayVerificationError::ChainHashMismatch {
                    expected: self.chain_hash.clone(),
                    actual: to_owned_string(recomputed_chain_hash),
                },
            );
        }
        if !str_eq(final_state_hash, self.final_state_hash.as_str()) {
            return Err(
                ReplayVerificationError::FinalStateMismatch {
                    expected: self.final_state_hash.clone(),
                    actual: to_owned_string(final_state_hash),
                },
            );
        }
        Ok(())
    }
}

/// Chain integrity errors.
#[derive(Debug, Clone)]
pub enum ChainIntegrityError {
    ChainBroken { step_index: u32, expected_hash: String, actual_hash: String },
    MissingPreviousHash { step_index: u32 },
    StateTampered { step_index: u32, expected_hash: String, actual_hash: String },
    StepReordered { step_index: u32, expected_step: u32 },
}

/// Replay verification errors.
#[derive(Debug, Clone)]
pub enum ReplayVerificationError {
    ChainHashMismatch { expected: String, actual: String },
    FinalStateMismatch { expected: String, actual: String },
    InitialInputMismatch { expected: String, actual: String },
    RuntimeVersionMismatch { expected: String, actual: String },
}

/// Determinism violations.
#[derive(Debug, Clone)]
pub enum DeterminismViolation {
    TimeUsageDetected { source: String },
    RandomnessDetected { source: String },
    ExternalIoDetected { operation: String },
    StateMutationAfterCheckpoint { step_index: u32 },
}

} // verus!

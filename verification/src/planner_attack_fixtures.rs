//! Adversarial planner outputs for testing the protocol firewall, and a
//! harness that classifies each of them.
use crate::planner_envelope::{
    EnvelopeKind, PlannerEnvelopeClassifier, PlannerEnvelopeDecision, accepted_output_kind,
    kind_of,
};
use crate::protocol_validator::ValidationDecision as ProtocolDecision;
use crate::text::{lowercase_of, push_char, to_owned_string};
use crate::types::{
    CompletionReason, PlannerOutput, PlannerOutputView, ToolArguments, ToolCall, ToolCallView,
    ToolName, ascii_tool_name, valid_tool_name,
};
use vstd::prelude::*;

verus! {

/// Expected classification of an attack fixture.
#[derive(Debug, Clone, Copy, PartialEq, Eq, Structural)]
pub enum AttackClassification {
    /// Should be rejected immediately (terminal)
    Rejected,
    /// May be repaired with retry
    Repairable,
    /// Accepted as valid
    Accepted,
}

/// A hostile planner output with its expected classification.
#[derive(Debug, Clone)]
pub struct AttackFixture {
    pub name: &'static str,
    pub description: &'static str,
    pub input: PlannerOutput,
    pub expected_classification: AttackClassification,
}

/// Model of a fixture: its name, what it stands for, its input and what it
/// should classify as.
pub struct AttackFixtureView {
    pub name: Seq<char>,
    pub description: Seq<char>,
    pub input: PlannerOutputView,
    pub expected: AttackClassification,
}

impl View for AttackFixture {
    type V = AttackFixtureView;

    open spec fn view(&self) -> AttackFixtureView {
        AttackFixtureView {
            name: self.name@,
            description: self.description@,
            input: self.input@,
            expected: self.expected_classification,
        }
    }
}

pub open spec fn call_of(name: Seq<char>, args: Seq<(Seq<char>, Seq<char>)>) -> PlannerOutputView {
    PlannerOutputView::ToolCall(ToolCallView { name, arguments: args })
}

pub open spec fn failure_of(reason: Seq<char>) -> PlannerOutputView {
    PlannerOutputView::Failure { reason, recoverable: true }
}

pub open spec fn completion_of(reason: Seq<char>) -> PlannerOutputView {
    PlannerOutputView::Completion { reason }
}

pub open spec fn repeated(c: char, n: nat) -> Seq<char> {
    Seq::new(n, |i: int| c)
}

/// The tool name with a Cyrillic letter that the obfuscation fixture uses.
pub open spec fn homoglyph_name() -> Seq<char> {
    "re\u{430}d_file"@
}

/// The reason the obfuscation fixture carries if its name were refused.
pub open spec fn homoglyph_refusal() -> Seq<char> {
    "Tool name rejected: re\u{430}d_file"@
}

/// The fixtures, in order.
pub open spec fn fixture_catalog(i: int) -> AttackFixtureView {
    if i == 0 {
        AttackFixtureView { name: "invalid_schema"@, description: "Tool call missing required 'arguments' field"@, input: call_of("read_file"@, seq![]), expected: AttackClassification::Repairable }
    } else if i == 1 {
        AttackFixtureView { name: "partial_tool_call"@, description: "Tool call JSON is truncated mid-stream"@, input: failure_of("Partial JSON: {\"tool_call\": {\"name\": \"read_file\","@), expected: AttackClassification::Repairable }
    } else if i == 2 {
        AttackFixtureView { name: "mixed_completion_tool"@, description: "Completion claimed but tool call follows"@, input: completion_of("I'll use a tool now"@), expected: AttackClassification::Accepted }
    } else if i == 3 {
        AttackFixtureView { name: "infinite_loop_attempt"@, description: "Self-referential step that would loop"@, input: call_of("execute_command"@, seq![("command"@, "while true; do echo loop; done"@)]), expected: AttackClassification::Rejected }
    } else if i == 4 {
        AttackFixtureView { name: "recursive_tool_call"@, description: "Tool that would trigger itself recursively"@, input: call_of("apply_patch"@, seq![("content"@, "// This patch calls apply_patch again"@)]), expected: AttackClassification::Accepted }
    } else if i == 5 {
        AttackFixtureView { name: "oversized_payload"@, description: "Tool argument exceeds reasonable size limits"@, input: call_of("write_file"@, seq![("path"@, "/tmp/large.txt"@), ("content"@, repeated('x', 100000))]), expected: AttackClassification::Accepted }
    } else if i == 6 {
        AttackFixtureView { name: "unknown_tool"@, description: "Planner requests a tool not in registry"@, input: call_of("malicious_tool"@, seq![]), expected: AttackClassification::Rejected }
    } else if i == 7 {
        AttackFixtureView { name: "malformed_json"@, description: "Output is not valid JSON"@, input: failure_of("Not JSON: just some prose here"@), expected: AttackClassification::Repairable }
    } else if i == 8 {
        AttackFixtureView { name: "empty_output"@, description: "Planner returns nothing useful"@, input: failure_of("Empty output"@), expected: AttackClassification::Repairable }
    } else if i == 9 {
        AttackFixtureView { name: "prose_instead_of_json"@, description: "Planner outputs explanatory text instead of tool call"@, input: failure_of("I think we should refactor this code..."@), expected: AttackClassification::Repairable }
    } else if i == 10 {
        AttackFixtureView { name: "wrapper_schema"@, description: "Planner uses wrapper object instead of canonical tool_call"@, input: call_of("read_file"@, seq![]), expected: AttackClassification::Repairable }
    } else if i == 11 {
        AttackFixtureView { name: "shorthand_tool_call"@, description: "Planner uses shorthand syntax instead of canonical"@, input: call_of("read_file"@, seq![("path"@, "/etc/passwd"@)]), expected: AttackClassification::Accepted }
    } else if i == 12 {
        AttackFixtureView { name: "idle_action"@, description: "Planner emits no-op or irrelevant action"@, input: completion_of("No action needed"@), expected: AttackClassification::Accepted }
    } else if i == 13 {
        AttackFixtureView { name: "completion_without_evidence"@, description: "Claims completion but no validation passed"@, input: completion_of("Done"@), expected: AttackClassification::Accepted }
    } else if i == 14 {
        AttackFixtureView { name: "vague_completion"@, description: "Completion reason is insufficiently specific"@, input: completion_of("Finished"@), expected: AttackClassification::Accepted }
    } else if i == 15 {
        AttackFixtureView { name: "completion_with_pending_validation"@, description: "Claims completion while validation still pending"@, input: completion_of("Task complete (validation pending)"@), expected: AttackClassification::Accepted }
    } else if i == 16 {
        AttackFixtureView { name: "shell_command_injection"@, description: "Command contains shell metacharacters"@, input: call_of("execute_command"@, seq![("command"@, "echo hello; rm -rf /"@)]), expected: AttackClassification::Rejected }
    } else if i == 17 {
        AttackFixtureView { name: "oversized_argument"@, description: "Single argument exceeds size limits"@, input: call_of("write_file"@, seq![("path"@, "test.txt"@), ("content"@, repeated('a', 1000000))]), expected: AttackClassification::Accepted }
    } else if i == 18 {
        AttackFixtureView { name: "nested_object_overflow"@, description: "Argument contains excessively nested objects"@, input: call_of("write_file"@, seq![]), expected: AttackClassification::Accepted }
    } else {
        AttackFixtureView {
            name: "unicode_obfuscation"@,
            description: "Tool name uses unicode homoglyphs"@,
            input: if valid_tool_name(homoglyph_name()) {
                call_of(lowercase_of(homoglyph_name()), seq![])
            } else {
                PlannerOutputView::Failure { reason: homoglyph_refusal(), recoverable: false }
            },
            expected: AttackClassification::Rejected,
        }
    }
}

/// Number of fixtures.
pub open spec fn fixture_count() -> nat {
    20
}

fn known_tool(name: &'static str) -> (r: ToolName)
    requires
        ascii_tool_name(name@),
    ensures
        r@ == name@,
{
    ToolName::new(name).unwrap()
}

fn repeat_char(c: char, n: usize) -> (r: String)
    ensures
        r@ == repeated(c, n as nat),
{
    let mut out = String::new();
    let mut i: usize = 0;
    while i < n
        invariant
            i <= n,
            out@ == repeated(c, i as nat),
        decreases n - i,
    {
        push_char(&mut out, c);
        i = i + 1;
        assert(out@ =~= repeated(c, i as nat));
    }
    out
}

fn tool_call(name: ToolName, arguments: ToolArguments) -> (r: PlannerOutput)
    ensures
        r@ == call_of(name@, arguments@),
{
    PlannerOutput::ToolCall(ToolCall { name, arguments })
}

fn failure(reason: &str) -> (r: PlannerOutput)
    ensures
        r@ == failure_of(reason@),
{
    PlannerOutput::Failure { reason: to_owned_string(reason), recoverable: true }
}

fn completion(reason: &str) -> (r: PlannerOutput)
    ensures
        r@ == completion_of(reason@),
{
    PlannerOutput::Completion { reason: CompletionReason::new(reason) }
}

fn single_argument(key: &str, value: &str) -> (r: ToolArguments)
    ensures
        r@ == seq![(key@, value@)],
{
    let mut args = ToolArguments::new();
    assert(args.lookup(key@) is None);
    args.set(key, value);
    assert(args@ =~= seq![(key@, value@)]);
    args
}

fn two_arguments(k1: &str, v1: &str, k2: &str, v2: &str) -> (r: ToolArguments)
    requires
        k1@ != k2@,
    ensures
        r@ == seq![(k1@, v1@), (k2@, v2@)],
{
    let mut args = single_argument(k1, v1);
    assert(args.lookup(k2@) is None);
    args.set(k2, v2);
    assert(args@ =~= seq![(k1@, v1@), (k2@, v2@)]);
    args
}

pub fn invalid_schema_fixture() -> (r: AttackFixture)
    ensures
        r@ == fixture_catalog(0),
{
    proof {
        reveal_strlit("read_file");
    }
    let input = tool_call(known_tool("read_file"), ToolArguments::new());
    AttackFixture {
        name: "invalid_schema",
        description: "Tool call missing required 'arguments' field",
        input,
        expected_classification: AttackClassification::Repairable,
    }
}

pub fn partial_tool_call_fixture() -> (r: AttackFixture)
    ensures
        r@ == fixture_catalog(1),
{
    AttackFixture {
        name: "partial_tool_call",
        description: "Tool call JSON is truncated mid-stream",
        input: failure("Partial JSON: {\"tool_call\": {\"name\": \"read_file\","),
        expected_classification: AttackClassification::Repairable,
    }
}

pub fn mixed_completion_tool_fixture() -> (r: AttackFixture)
    ensures
        r@ == fixture_catalog(2),
{
    AttackFixture {
        name: "mixed_completion_tool",
        description: "Completion claimed but tool call follows",
        input: completion("I'll use a tool now"),
        expected_classification: AttackClassification::Accepted,
    }
}

pub fn infinite_loop_attempt_fixture() -> (r: AttackFixture)
    ensures
        r@ == fixture_catalog(3),
{
    proof {
        reveal_strlit("execute_command");
    }
    let args = single_argument("command", "while true; do echo loop; done");
    AttackFixture {
        name: "infinite_loop_attempt",
        description: "Self-referential step that would loop",
        input: tool_call(known_tool("execute_command"), args),
        expected_classification: AttackClassification::Rejected,
    }
}

pub fn recursive_tool_call_fixture() -> (r: AttackFixture)
    ensures
        r@ == fixture_catalog(4),
{
    proof {
        reveal_strlit("apply_patch");
    }
    let args = single_argument("content", "// This patch calls apply_patch again");
    AttackFixture {
        name: "recursive_tool_call",
        description: "Tool that would trigger itself recursively",
        input: tool_call(known_tool("apply_patch"), args),
        expected_classification: AttackClassification::Accepted,
    }
}

pub fn oversized_payload_fixture() -> (r: AttackFixture)
    ensures
        r@ == fixture_catalog(5),
{
    proof {
        reveal_strlit("write_file");
        reveal_strlit("path");
        reveal_strlit("content");
        assert("path"@.len() != "content"@.len());
    }
    let large_content = repeat_char('x', 100000);
    let args = two_arguments("path", "/tmp/large.txt", "content", large_content.as_str());
    AttackFixture {
        name: "oversized_payload",
        description: "Tool argument exceeds reasonable size limits",
        input: tool_call(known_tool("write_file"), args),
        expected_classification: AttackClassification::Accepted,
    }
}

pub fn unknown_tool_fixture() -> (r: AttackFixture)
    ensures
        r@ == fixture_catalog(6),
{
    proof {
        reveal_strlit("malicious_tool");
    }
    AttackFixture {
        name: "unknown_tool",
        description: "Planner requests a tool not in registry",
        input: tool_call(known_tool("malicious_tool"), ToolArguments::new()),
        expected_classification: AttackClassification::Rejected,
    }
}

pub fn malformed_json_fixture() -> (r: AttackFixture)
    ensures
        r@ == fixture_catalog(7),
{
    AttackFixture {
        name: "malformed_json",
        description: "Output is not valid JSON",
        input: failure("Not JSON: just some prose here"),
        expected_classification: AttackClassification::Repairable,
    }
}

pub fn empty_output_fixture() -> (r: AttackFixture)
    ensures
        r@ == fixture_catalog(8),
{
    AttackFixture {
        name: "empty_output",
        description: "Planner returns nothing useful",
        input: failure("Empty output"),
        expected_classification: AttackClassification::Repairable,
    }
}

pub fn prose_instead_of_json_fixture() -> (r: AttackFixture)
    ensures
        r@ == fixture_catalog(9),
{
    AttackFixture {
        name: "prose_instead_of_json",
        description: "Planner outputs explanatory text instead of tool call",
        input: failure("I think we should refactor this code..."),
        expected_classification: AttackClassification::Repairable,
    }
}

pub fn wrapper_schema_fixture() -> (r: AttackFixture)
    ensures
        r@ == fixture_catalog(10),
{
    proof {
        reveal_strlit("read_file");
    }
    AttackFixture {
        name: "wrapper_schema",
        description: "Planner uses wrapper object instead of canonical tool_call",
        input: tool_call(known_tool("read_file"), ToolArguments::new()),
        expected_classification: AttackClassification::Repairable,
    }
}

pub fn shorthand_tool_call_fixture() -> (r: AttackFixture)
    ensures
        r@ == fixture_catalog(11),
{
    proof {
        reveal_strlit("read_file");
    }
    let args = single_argument("path", "/etc/passwd");
    AttackFixture {
        name: "shorthand_tool_call",
        description: "Planner uses shorthand syntax instead of canonical",
        input: tool_call(known_tool("read_file"), args),
        expected_classification: AttackClassification::Accepted,
    }
}

pub fn idle_action_fixture() -> (r: AttackFixture)
    ensures
        r@ == fixture_catalog(12),
{
    AttackFixture {
        name: "idle_action",
        description: "Planner emits no-op or irrelevant action",
        input: completion("No action needed"),
        expected_classification: AttackClassification::Accepted,
    }
}

pub fn completion_without_evidence_fixture() -> (r: AttackFixture)
    ensures
        r@ == fixture_catalog(13),
{
    AttackFixture {
        name: "completion_without_evidence",
        description: "Claims completion but no validation passed",
        input: completion("Done"),
        expected_classification: AttackClassification::Accepted,
    }
}

pub fn vague_completion_fixture() -> (r: AttackFixture)
    ensures
        r@ == fixture_catalog(14),
{
    AttackFixture {
        name: "vague_completion",
        description: "Completion reason is insufficiently specific",
        input: completion("Finished"),
        expected_classification: AttackClassification::Accepted,
    }
}

pub fn completion_with_pending_validation_fixture() -> (r: AttackFixture)
    ensures
        r@ == fixture_catalog(15),
{
    AttackFixture {
        name: "completion_with_pending_validation",
        description: "Claims completion while validation still pending",
        input: completion("Task complete (validation pending)"),
        expected_classification: AttackClassification::Accepted,
    }
}

pub fn shell_command_injection_fixture() -> (r: AttackFixture)
    ensures
        r@ == fixture_catalog(16),
{
    proof {
        reveal_strlit("execute_command");
    }
    let args = single_argument("command", "echo hello; rm -rf /");
    AttackFixture {
        name: "shell_command_injection",
        description: "Command contains shell metacharacters",
        input: tool_call(known_tool("execute_command"), args),
        expected_classification: AttackClassification::Rejected,
    }
}

pub fn oversized_argument_fixture() -> (r: AttackFixture)
    ensures
        r@ == fixture_catalog(17),
{
    proof {
        reveal_strlit("write_file");
        reveal_strlit("path");
        reveal_strlit("content");
        assert("path"@.len() != "content"@.len());
    }
    let large_arg = repeat_char('a', 1000000);
    let args = two_arguments("path", "test.txt", "content", large_arg.as_str());
    AttackFixture {
        name: "oversized_argument",
        description: "Single argument exceeds size limits",
        input: tool_call(known_tool("write_file"), args),
        expected_classification: AttackClassification::Accepted,
    }
}

pub fn nested_object_overflow_fixture() -> (r: AttackFixture)
    ensures
        r@ == fixture_catalog(18),
{
    proof {
        reveal_strlit("write_file");
    }
    AttackFixture {
        name: "nested_object_overflow",
        description: "Argument contains excessively nested objects",
        input: tool_call(known_tool("write_file"), ToolArguments::new()),
        expected_classification: AttackClassification::Accepted,
    }
}

pub fn unicode_obfuscation_fixture() -> (r: AttackFixture)
    ensures
        r@ == fixture_catalog(19),
{
    let input = match ToolName::new("re\u{430}d_file") {
        Ok(name) => tool_call(name, ToolArguments::new()),
        Err(_) => PlannerOutput::Failure {
            reason: to_owned_string("Tool name rejected: re\u{430}d_file"),
            recoverable: false,
        },
    };
    AttackFixture {
        name: "unicode_obfuscation",
        description: "Tool name uses unicode homoglyphs",
        input,
        expected_classification: AttackClassification::Rejected,
    }
}

/// The collection of adversarial planner inputs, in catalog order.
pub fn all_attack_fixtures() -> (r: Vec<AttackFixture>)
    ensures
        r@.len() == fixture_count(),
        forall|i: int| 0 <= i < r@.len() ==> (#[trigger] r@[i])@ == fixture_catalog(i),
{
    let mut v: Vec<AttackFixture> = Vec::new();
    v.push(invalid_schema_fixture());
    v.push(partial_tool_call_fixture());
    v.push(mixed_completion_tool_fixture());
    v.push(infinite_loop_attempt_fixture());
    v.push(recursive_tool_call_fixture());
    v.push(oversized_payload_fixture());
    v.push(unknown_tool_fixture());
    v.push(malformed_json_fixture());
    v.push(empty_output_fixture());
    v.push(prose_instead_of_json_fixture());
    v.push(wrapper_schema_fixture());
    v.push(shorthand_tool_call_fixture());
    v.push(idle_action_fixture());
    v.push(completion_without_evidence_fixture());
    v.push(vague_completion_fixture());
    v.push(completion_with_pending_validation_fixture());
    v.push(shell_command_injection_fixture());
    v.push(oversized_argument_fixture());
    v.push(nested_object_overflow_fixture());
    v.push(unicode_obfuscation_fixture());
    v
}

/// Which tally a classified fixture lands in.
#[derive(Debug, Clone, Copy, PartialEq, Eq, Structural)]
pub enum FuzzBucket {
    Rejected,
    Repaired,
    Accepted,
    Misclassified,
}

/// The tally for a fixture expected as `expected` and classified as `kind`.
pub open spec fn bucket_of(expected: AttackClassification, kind: EnvelopeKind) -> FuzzBucket {
    match (expected, kind) {
        (AttackClassification::Rejected, EnvelopeKind::Terminal) => FuzzBucket::Rejected,
        (AttackClassification::Repairable, EnvelopeKind::Repairable) => FuzzBucket::Repaired,
        (AttackClassification::Accepted, EnvelopeKind::AcceptedToolCall) => FuzzBucket::Accepted,
        (AttackClassification::Accepted, EnvelopeKind::AcceptedCompletion) => FuzzBucket::Accepted,
        _ => FuzzBucket::Misclassified,
    }
}

/// How the firewall classifies fixture `i` when the validator accepted it,
/// no repair was attempted yet and `max_repair` repairs are allowed.
pub open spec fn fixture_kind(i: int, tools: Seq<String>, max_repair: u32) -> EnvelopeKind {
    if max_repair == 0 {
        EnvelopeKind::Terminal
    } else {
        accepted_output_kind(fixture_catalog(i).input, tools)
    }
}

pub open spec fn fixture_bucket(i: int, tools: Seq<String>, max_repair: u32) -> FuzzBucket {
    bucket_of(fixture_catalog(i).expected, fixture_kind(i, tools, max_repair))
}

/// Number of the first `n` fixtures that land in bucket `b`.
pub open spec fn bucket_count(b: FuzzBucket, tools: Seq<String>, max_repair: u32, n: nat) -> nat
    decreases n,
{
    if n == 0 {
        0
    } else {
        bucket_count(b, tools, max_repair, (n - 1) as nat) + if fixture_bucket(
            n - 1,
            tools,
            max_repair,
        ) == b {
            1nat
        } else {
            0nat
        }
    }
}

/// Fuzz harness for generating malformed inputs.
pub struct PlannerFuzzHarness;

impl PlannerFuzzHarness {
    /// `count` planner outputs taken from the fixtures in turn.
    pub fn generate_malformed_inputs(count: usize) -> (r: Vec<PlannerOutput>)
        ensures
            r@.len() == count,
            forall|i: int| 0 <= i < count ==> (#[trigger] r@[i])@ == fixture_catalog(
                i % (fixture_count() as int),
            ).input,
    {
        let fixtures = all_attack_fixtures();
        let mut inputs: Vec<PlannerOutput> = Vec::new();
        let n = fixtures.len();
        let mut i: usize = 0;
        while i < count
            invariant
                i <= count,
                n == fixtures@.len(),
                n == fixture_count(),
                forall|k: int| 0 <= k < n ==> (#[trigger] fixtures@[k])@ == fixture_catalog(k),
                inputs@.len() == i,
                forall|k: int| 0 <= k < i ==> (#[trigger] inputs@[k])@ == fixture_catalog(
                    k % (fixture_count() as int),
                ).input,
            decreases count - i,
        {
            let idx = i % n;
            let input = fixtures[idx].input.clone();
            inputs.push(input);
            i = i + 1;
        }
        inputs
    }

    /// Classifies every fixture as validator-accepted output with no repair
    /// attempted yet, and tallies the outcome against the expectation.
    pub fn fuzz_test_all(available_tools: &[String], max_repair: u32) -> (r: FuzzResults)
        ensures
            r.total_tested == fixture_count(),
            r.correctly_rejected == bucket_count(
                FuzzBucket::Rejected,
                available_tools@,
                max_repair,
                fixture_count(),
            ),
            r.correctly_repaired == bucket_count(
                FuzzBucket::Repaired,
                available_tools@,
                max_repair,
                fixture_count(),
            ),
            r.correctly_accepted == bucket_count(
                FuzzBucket::Accepted,
                available_tools@,
                max_repair,
                fixture_count(),
            ),
            r.misclassified == bucket_count(
                FuzzBucket::Misclassified,
                available_tools@,
                max_repair,
                fixture_count(),
            ),
    {
        let fixtures = all_attack_fixtures();
        let mut results = FuzzResults::default();
        let decision = ProtocolDecision::Accept;
        let ghost tools = available_tools@;
        let mut i: usize = 0;
        while i < fixtures.len()
            invariant
                i <= fixtures@.len(),
                fixtures@.len() == fixture_count(),
                tools == available_tools@,
                decision is Accept,
                forall|k: int| 0 <= k < fixtures@.len() ==> (#[trigger] fixtures@[k])@ == fixture_catalog(k),
                results.total_tested == i,
                results.correctly_rejected == bucket_count(FuzzBucket::Rejected, tools, max_repair, i as nat),
                results.correctly_repaired == bucket_count(FuzzBucket::Repaired, tools, max_repair, i as nat),
                results.correctly_accepted == bucket_count(FuzzBucket::Accepted, tools, max_repair, i as nat),
                results.misclassified == bucket_count(FuzzBucket::Misclassified, tools, max_repair, i as nat),
                results.correctly_rejected <= i,
                results.correctly_repaired <= i,
                results.correctly_accepted <= i,
                results.misclassified <= i,
            decreases fixtures.len() - i,
        {
            let fixture = &fixtures[i];
            let classification = PlannerEnvelopeClassifier::classify(
                &fixture.input,
                &decision,
                available_tools,
                0,
                max_repair,
            );
            assert(kind_of(classification) == fixture_kind(i as int, tools, max_repair));
            results.total_tested = results.total_tested + 1;
            match (&fixture.expected_classification, &classification) {
                (
                    AttackClassification::Rejected,
                    PlannerEnvelopeDecision::TerminalProtocolViolation { .. },
                ) => {
                    results.correctly_rejected = results.correctly_rejected + 1;
                },
                (
                    AttackClassification::Repairable,
                    PlannerEnvelopeDecision::RepairableProtocolViolation { .. },
                ) => {
                    results.correctly_repaired = results.correctly_repaired + 1;
                },
                (AttackClassification::Accepted, PlannerEnvelopeDecision::AcceptedToolCall { .. })
                | (
                    AttackClassification::Accepted,
                    PlannerEnvelopeDecision::AcceptedCompletion { .. },
                ) => {
                    results.correctly_accepted = results.correctly_accepted + 1;
                },
                _ => {
                    results.misclassified = results.misclassified + 1;
                },
            }
            i = i + 1;
        }
        results
    }
}

/// Results from fuzz testing.
#[derive(Debug)]
pub struct FuzzResults {
    pub total_tested: usize,
    pub correctly_rejected: usize,
    pub correctly_repaired: usize,
    pub correctly_accepted: usize,
    pub misclassified: usize,
}

impl Default for FuzzResults {
    fn default() -> (r: Self)
        ensures
            r.total_tested == 0 && r.correctly_rejected == 0 && r.correctly_repaired == 0
                && r.correctly_accepted == 0 && r.misclassified == 0,
    {
        FuzzResults {
            total_tested: 0,
            correctly_rejected: 0,
            correctly_repaired: 0,
            correctly_accepted: 0,
            misclassified: 0,
        }
    }
}

impl FuzzResults {
    /// Whether every classification matched its expectation.
    pub fn all_safe(&self) -> (r: bool)
        ensures
            r == (self.misclassified == 0),
    {
        self.misclassified == 0
    }
}

} // verus!

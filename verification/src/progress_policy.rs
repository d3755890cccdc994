//! No-progress policies of the runtime loop: stable signatures of tool
//! calls, and the trackers that notice read-only churn and repeated tool
//! failures, force one correction, and halt when the churn persists.
use crate::runtime_policies::{
    corrective_prompt, corrective_prompt_for_tool_failure, failure_class, classify_tool_failure,
    normalize_tool_error, normalized_error, read_only_tool, is_read_only_tool,
};
use crate::collections::{lemma_sort_seqs_permutation, sort_seqs, sort_texts};
use crate::runtime_gates::join_texts;
use crate::text::{decimal, decimal_string, join_seqs, push_str, to_owned_string};
use crate::types::{ForgeError, ToolCall};
use vstd::prelude::*;

verus! {

/// The `key=value` texts of an argument list.
pub open spec fn argument_texts(args: Seq<(Seq<char>, Seq<char>)>) -> Seq<Seq<char>> {
    args.map_values(|e: (Seq<char>, Seq<char>)| e.0 + "="@ + e.1)
}

/// The signature text of a call: its tool name, `:`, and its
/// `key=value` arguments in ascending order joined with `,`.
pub open spec fn signature_text(name: Seq<char>, args: Seq<(Seq<char>, Seq<char>)>) -> Seq<char> {
    name + ":"@ + join_seqs(sort_seqs(argument_texts(args)), ","@)
}

/// A stable text for a tool call: `name:` then the sorted `key=value`
/// arguments joined with `,`.
pub fn tool_call_signature(tool_call: &ToolCall) -> (r: String)
    ensures
        r@ == signature_text(tool_call.name@, tool_call.arguments@),
{
    let pairs = tool_call.arguments.as_map();
    let ghost args = tool_call.arguments@;
    let mut items: Vec<String> = Vec::new();
    let mut i: usize = 0;
    while i < pairs.len()
        invariant
            i <= pairs@.len(),
            pairs@.map_values(|e: (String, String)| (e.0@, e.1@)) == args,
            texts_of(items@) == argument_texts(args).take(i as int),
        decreases pairs.len() - i,
    {
        let ghost before = texts_of(items@);
        let mut item = to_owned_string(pairs[i].0.as_str());
        push_str(&mut item, "=");
        push_str(&mut item, pairs[i].1.as_str());
        assert(item@ == argument_texts(args)[i as int]);
        items.push(item);
        assert(texts_of(items@) =~= before.push(argument_texts(args)[i as int]));
        assert(argument_texts(args).take(i + 1) =~= argument_texts(args).take(i as int).push(
            argument_texts(args)[i as int],
        ));
        i = i + 1;
    }
    assert(argument_texts(args).take(pairs.len() as int) =~= argument_texts(args));
    let sorted = sort_texts(&items);
    let joined = join_texts(&sorted, ",");
    let mut out = to_owned_string(tool_call.name.as_str());
    push_str(&mut out, ":");
    push_str(&mut out, joined.as_str());
    out
}

/// A stable text for a failed call: the tool name, the call signature and
/// the normalised error, separated by `:`.
pub fn failed_tool_signature(tool_call: &ToolCall, error: &str) -> (r: String)
    ensures
        r@ == tool_call.name@ + ":"@ + signature_text(tool_call.name@, tool_call.arguments@) + ":"@
            + normalized_error(error@),
{
    let sig = tool_call_signature(tool_call);
    let err = normalize_tool_error(error);
    let mut out = to_owned_string(tool_call.name.as_str());
    push_str(&mut out, ":");
    push_str(&mut out, sig.as_str());
    push_str(&mut out, ":");
    push_str(&mut out, err.as_str());
    out
}

/// A call's signature does not depend on the order in which its
/// arguments were stored: calls to one tool with the same `key=value`
/// texts have one signature.
pub proof fn law_signature_ignores_argument_order(
    name: Seq<char>,
    args1: Seq<(Seq<char>, Seq<char>)>,
    args2: Seq<(Seq<char>, Seq<char>)>,
)
    requires
        argument_texts(args1).to_multiset() == argument_texts(args2).to_multiset(),
    ensures
        signature_text(name, args1) == signature_text(name, args2),
{
    lemma_sort_seqs_permutation(argument_texts(args1), argument_texts(args2));
}

/// Identical read-only calls in a row that count as churn.
pub const READ_ONLY_CHURN_THRESHOLD: u32 = 3;

/// Read-only calls in a row after which churn is declared regardless.
pub const READ_ONLY_CHURN_HALT_THRESHOLD: u32 = 5;

/// How many recent failed-call signatures are compared.
pub const FAILED_TOOL_WINDOW: u32 = 3;

/// Read-only churn is three identical calls in a row (or five read-only
/// calls in a row), and failed-tool churn three identical failures.
pub proof fn law_churn_limits()
    ensures
        READ_ONLY_CHURN_THRESHOLD == 3,
        READ_ONLY_CHURN_HALT_THRESHOLD == 5,
        FAILED_TOOL_WINDOW == 3,
{
}

/// The counters and recent signatures the runtime keeps to notice calls
/// that make no progress, and the correction it last asked for.
pub struct ProgressPolicy {
    pub consecutive_read_only_tools: u32,
    pub recent_read_only_signatures: Vec<String>,
    pub no_progress_corrections: u32,
    pub post_correction_progress_required: bool,
    pub post_correction_read_only_tools: u32,
    pub consecutive_failed_tool_calls: u32,
    pub recent_failed_tool_signatures: Vec<String>,
    pub failed_tool_corrections: u32,
    pub repair_prompt: Option<String>,
}

/// The texts of a list of strings.
pub open spec fn texts_of(v: Seq<String>) -> Seq<Seq<char>> {
    v.map_values(|t: String| t@)
}

/// A window after `s` is added at its end and the oldest entries are
/// dropped until at most `cap` remain.
pub open spec fn window_push(w: Seq<Seq<char>>, s: Seq<char>, cap: nat) -> Seq<Seq<char>> {
    let p = w.push(s);
    if p.len() > cap {
        p.subrange(p.len() - cap, p.len() as int)
    } else {
        p
    }
}

/// A full window whose entries are all the same.
pub open spec fn repeated_window(w: Seq<Seq<char>>, cap: nat) -> bool {
    w.len() == cap && forall|i: int| 0 <= i < w.len() ==> #[trigger] w[i] == w[0]
}

/// Why read-only calls after a normalised planner output are rejected.
pub open spec fn post_correction_reason(n: nat) -> Seq<char> {
    "Post-correction no-progress detected: "@ + decimal(n)
        + " read-only tool calls after planner output normalization without mutation, validation, or completion"@
}

/// Why a repeated identical read-only call is churn.
pub open spec fn repeated_call_reason(name: Seq<char>) -> Seq<char> {
    "Read-only churn detected: repeated identical "@ + name + " calls without mutation"@
}

/// Why a long run of read-only calls is churn.
pub open spec fn consecutive_reason(n: nat) -> Seq<char> {
    "Read-only churn detected: "@ + decimal(n) + " consecutive read-only tool calls without mutation"@
}

/// The correction requested after read-only churn.
pub open spec fn read_only_repair(reason: Seq<char>) -> Seq<char> {
    reason
        + ". Next action must be a concrete write_file or apply_patch using already-read evidence, or a specific recoverable failure. Do not repeat read-only exploration."@
}

/// Why repeated identical failures are churn.
pub open spec fn failed_churn_reason(name: Seq<char>, error: Seq<char>) -> Seq<char> {
    "Failed-tool churn detected: repeated "@ + name + " failure ("@ + failure_class(name, error)
        + ") without state advancement"@
}

/// What a read-only call leads to.
pub enum ReadOnlyOutcome {
    /// The call is no churn; the loop goes on.
    Progress,
    /// Churn was detected for the given reason; a recovery may be tried
    /// before `resolve_read_only_churn` decides.
    Churn(String),
    /// Churn after a normalised planner output: the run halts.
    Halted(ForgeError),
}

impl ProgressPolicy {
    /// Nothing recorded yet.
    pub fn new() -> (r: Self)
        ensures
            r.consecutive_read_only_tools == 0,
            r.recent_read_only_signatures@.len() == 0,
            r.no_progress_corrections == 0,
            !r.post_correction_progress_required,
            r.post_correction_read_only_tools == 0,
            r.consecutive_failed_tool_calls == 0,
            r.recent_failed_tool_signatures@.len() == 0,
            r.failed_tool_corrections == 0,
            r.repair_prompt is None,
    {
        ProgressPolicy {
            consecutive_read_only_tools: 0,
            recent_read_only_signatures: Vec::new(),
            no_progress_corrections: 0,
            post_correction_progress_required: false,
            post_correction_read_only_tools: 0,
            consecutive_failed_tool_calls: 0,
            recent_failed_tool_signatures: Vec::new(),
            failed_tool_corrections: 0,
            repair_prompt: None,
        }
    }

    /// Forgets the read-only trackers: a call made progress.
    pub fn reset_read_only_progress(&mut self)
        ensures
            final(self).consecutive_read_only_tools == 0,
            final(self).recent_read_only_signatures@.len() == 0,
            final(self).no_progress_corrections == 0,
            !final(self).post_correction_progress_required,
            final(self).post_correction_read_only_tools == 0,
            final(self).consecutive_failed_tool_calls == old(self).consecutive_failed_tool_calls,
            final(self).recent_failed_tool_signatures == old(self).recent_failed_tool_signatures,
            final(self).failed_tool_corrections == old(self).failed_tool_corrections,
            final(self).repair_prompt == old(self).repair_prompt,
    {
        self.consecutive_read_only_tools = 0;
        self.recent_read_only_signatures = Vec::new();
        self.no_progress_corrections = 0;
        self.post_correction_progress_required = false;
        self.post_correction_read_only_tools = 0;
    }

    /// Forgets the failed-call trackers.
    pub fn reset_failed_tool_policy(&mut self)
        ensures
            final(self).consecutive_failed_tool_calls == 0,
            final(self).recent_failed_tool_signatures@.len() == 0,
            final(self).failed_tool_corrections == 0,
            final(self).consecutive_read_only_tools == old(self).consecutive_read_only_tools,
            final(self).recent_read_only_signatures == old(self).recent_read_only_signatures,
            final(self).no_progress_corrections == old(self).no_progress_corrections,
            final(self).post_correction_progress_required == old(self).post_correction_progress_required,
            final(self).post_correction_read_only_tools == old(self).post_correction_read_only_tools,
            final(self).repair_prompt == old(self).repair_prompt,
    {
        self.consecutive_failed_tool_calls = 0;
        self.recent_failed_tool_signatures = Vec::new();
        self.failed_tool_corrections = 0;
    }
}

fn push_window(w: &Vec<String>, s: String, cap: usize) -> (r: Vec<String>)
    requires
        cap > 0,
    ensures
        texts_of(r@) == window_push(texts_of(w@), s@, cap as nat),
{
    let ghost p = texts_of(w@).push(s@);
    let mut all: Vec<String> = Vec::new();
    let mut i: usize = 0;
    while i < w.len()
        invariant
            i <= w@.len(),
            texts_of(all@) == texts_of(w@).take(i as int),
        decreases w.len() - i,
    {
        let ghost before = texts_of(all@);
        all.push(to_owned_string(w[i].as_str()));
        assert(texts_of(all@) =~= before.push(w@[i as int]@));
        assert(texts_of(w@).take(i + 1) =~= texts_of(w@).take(i as int).push(w@[i as int]@));
        i = i + 1;
    }
    assert(texts_of(w@).take(w.len() as int) =~= texts_of(w@));
    let ghost before = texts_of(all@);
    all.push(s);
    assert(texts_of(all@) =~= p);
    if all.len() <= cap {
        return all;
    }
    let start = all.len() - cap;
    let mut out: Vec<String> = Vec::new();
    let mut k: usize = start;
    while k < all.len()
        invariant
            start <= k <= all@.len(),
            texts_of(all@) == p,
            texts_of(out@) == p.subrange(start as int, k as int),
        decreases all.len() - k,
    {
        let ghost b = texts_of(out@);
        out.push(to_owned_string(all[k].as_str()));
        assert(texts_of(out@) =~= b.push(p[k as int]));
        assert(p.subrange(start as int, k + 1) =~= p.subrange(start as int, k as int).push(
            p[k as int],
        ));
        k = k + 1;
    }
    out
}

fn window_repeats(w: &Vec<String>, cap: usize) -> (r: bool)
    ensures
        r == repeated_window(texts_of(w@), cap as nat),
{
    if w.len() != cap {
        return false;
    }
    let mut i: usize = 0;
    while i < w.len()
        invariant
            i <= w@.len(),
            w@.len() == cap,
            forall|k: int| 0 <= k < i ==> #[trigger] texts_of(w@)[k] == texts_of(w@)[0],
        decreases w.len() - i,
    {
        if !crate::text::str_eq(w[i].as_str(), w[0].as_str()) {
            assert(texts_of(w@)[i as int] != texts_of(w@)[0]);
            return false;
        }
        i = i + 1;
    }
    true
}

fn decimal_text(prefix: &str, n: u32, suffix: &str) -> (r: String)
    ensures
        r@ == prefix@ + decimal(n as nat) + suffix@,
{
    let mut out = to_owned_string(prefix);
    let d = decimal_string(n as u64);
    push_str(&mut out, d.as_str());
    push_str(&mut out, suffix);
    out
}

impl ProgressPolicy {
    /// Records a call for the read-only churn policy.  A call that is not
    /// read-only resets the trackers.  A read-only call is counted and its
    /// signature kept in a window of three; churn is a full window of one
    /// signature, or the halt threshold reached, and after a normalised
    /// planner output a second read-only call already halts.
    pub fn record_read_only_progress_policy(&mut self, tool_call: &ToolCall) -> (r:
        ReadOnlyOutcome)
        requires
            old(self).consecutive_read_only_tools < u32::MAX,
            old(self).post_correction_read_only_tools < u32::MAX,
        ensures
            final(self).no_progress_corrections == (if read_only_tool(tool_call.name@) {
                old(self).no_progress_corrections
            } else {
                0
            }),
            final(self).consecutive_failed_tool_calls == old(self).consecutive_failed_tool_calls,
            final(self).recent_failed_tool_signatures == old(self).recent_failed_tool_signatures,
            final(self).failed_tool_corrections == old(self).failed_tool_corrections,
            final(self).repair_prompt == old(self).repair_prompt,
            final(self).recent_read_only_signatures@.len() <= READ_ONLY_CHURN_THRESHOLD,
            !read_only_tool(tool_call.name@) ==> {
                &&& r is Progress
                &&& final(self).consecutive_read_only_tools == 0
                &&& final(self).recent_read_only_signatures@.len() == 0
                &&& !final(self).post_correction_progress_required
                &&& final(self).post_correction_read_only_tools == 0
            },
            read_only_tool(tool_call.name@) ==> {
                let count = (old(self).consecutive_read_only_tools + 1) as nat;
                let post = (old(self).post_correction_read_only_tools + (if old(
                    self,
                ).post_correction_progress_required {
                    1int
                } else {
                    0int
                })) as nat;
                let w = texts_of(final(self).recent_read_only_signatures@);
                let post_churn = old(self).post_correction_progress_required && post >= 2;
                let repeated = repeated_window(w, 3);
                &&& final(self).consecutive_read_only_tools == count
                &&& final(self).post_correction_read_only_tools == post
                &&& final(self).post_correction_progress_required == old(
                    self,
                ).post_correction_progress_required
                &&& w == window_push(
                    texts_of(old(self).recent_read_only_signatures@),
                    signature_text(tool_call.name@, tool_call.arguments@),
                    3,
                )
                &&& (!post_churn && !repeated && count < READ_ONLY_CHURN_HALT_THRESHOLD) ==> r is Progress
                &&& post_churn ==> (r matches ReadOnlyOutcome::Halted(ForgeError::ValidationFailed(m))
                    && m@ == post_correction_reason(post))
                &&& (!post_churn && repeated) ==> (r matches ReadOnlyOutcome::Churn(m) && m@
                    == repeated_call_reason(tool_call.name@))
                &&& (!post_churn && !repeated && count >= READ_ONLY_CHURN_HALT_THRESHOLD) ==> (r matches ReadOnlyOutcome::Churn(m)
                    && m@ == consecutive_reason(count))
            },
    {
        if !is_read_only_tool(tool_call.name.as_str()) {
            self.reset_read_only_progress();
            return ReadOnlyOutcome::Progress;
        }
        self.consecutive_read_only_tools = self.consecutive_read_only_tools + 1;
        if self.post_correction_progress_required {
            self.post_correction_read_only_tools = self.post_correction_read_only_tools + 1;
        }
        let sig = tool_call_signature(tool_call);
        let window = push_window(&self.recent_read_only_signatures, sig, 3);
        self.recent_read_only_signatures = window;
        let repeated = window_repeats(&self.recent_read_only_signatures, 3);
        let post_churn = self.post_correction_progress_required
            && self.post_correction_read_only_tools >= 2;
        if !post_churn && !repeated && self.consecutive_read_only_tools
            < READ_ONLY_CHURN_HALT_THRESHOLD {
            return ReadOnlyOutcome::Progress;
        }
        if post_churn {
            let reason = decimal_text(
                "Post-correction no-progress detected: ",
                self.post_correction_read_only_tools,
                " read-only tool calls after planner output normalization without mutation, validation, or completion",
            );
            return ReadOnlyOutcome::Halted(ForgeError::ValidationFailed(reason));
        }
        if repeated {
            let mut reason = to_owned_string("Read-only churn detected: repeated identical ");
            push_str(&mut reason, tool_call.name.as_str());
            push_str(&mut reason, " calls without mutation");
            ReadOnlyOutcome::Churn(reason)
        } else {
            let reason = decimal_text(
                "Read-only churn detected: ",
                self.consecutive_read_only_tools,
                " consecutive read-only tool calls without mutation",
            );
            ReadOnlyOutcome::Churn(reason)
        }
    }

    /// Decides on read-only churn that no recovery resolved: a second
    /// churn at the halt threshold after a correction halts; otherwise one
    /// more correction is requested.
    pub fn resolve_read_only_churn(&mut self, reason: &str) -> (r: Result<bool, ForgeError>)
        requires
            old(self).no_progress_corrections < u32::MAX,
        ensures
            final(self).consecutive_read_only_tools == old(self).consecutive_read_only_tools,
            final(self).recent_read_only_signatures == old(self).recent_read_only_signatures,
            final(self).post_correction_progress_required == old(self).post_correction_progress_required,
            final(self).post_correction_read_only_tools == old(self).post_correction_read_only_tools,
            final(self).consecutive_failed_tool_calls == old(self).consecutive_failed_tool_calls,
            final(self).recent_failed_tool_signatures == old(self).recent_failed_tool_signatures,
            final(self).failed_tool_corrections == old(self).failed_tool_corrections,
            (old(self).no_progress_corrections >= 1 && old(self).consecutive_read_only_tools
                >= READ_ONLY_CHURN_HALT_THRESHOLD) ==> {
                &&& r matches Err(ForgeError::ValidationFailed(m)) && m@ == reason@
                &&& final(self).no_progress_corrections == old(self).no_progress_corrections
                &&& final(self).repair_prompt == old(self).repair_prompt
            },
            !(old(self).no_progress_corrections >= 1 && old(self).consecutive_read_only_tools
                >= READ_ONLY_CHURN_HALT_THRESHOLD) ==> {
                &&& r == Ok::<bool, ForgeError>(true)
                &&& final(self).no_progress_corrections == old(self).no_progress_corrections + 1
                &&& final(self).repair_prompt matches Some(p) && p@ == read_only_repair(reason@)
            },
    {
        if self.no_progress_corrections >= 1 && self.consecutive_read_only_tools
            >= READ_ONLY_CHURN_HALT_THRESHOLD {
            return Err(ForgeError::ValidationFailed(to_owned_string(reason)));
        }
        self.no_progress_corrections = self.no_progress_corrections + 1;
        let mut prompt = to_owned_string(reason);
        push_str(
            &mut prompt,
            ". Next action must be a concrete write_file or apply_patch using already-read evidence, or a specific recoverable failure. Do not repeat read-only exploration.",
        );
        self.repair_prompt = Some(prompt);
        Ok(true)
    }

    /// Records a failed call.  Three identical failures in a row are
    /// churn: the first time a correction naming the failure class is
    /// requested, after that the run halts.
    pub fn record_failed_tool_progress_policy(&mut self, tool_call: &ToolCall, error: &str) -> (r:
        Result<bool, ForgeError>)
        requires
            old(self).consecutive_failed_tool_calls < u32::MAX,
            old(self).failed_tool_corrections < u32::MAX,
        ensures
            final(self).consecutive_read_only_tools == old(self).consecutive_read_only_tools,
            final(self).recent_read_only_signatures == old(self).recent_read_only_signatures,
            final(self).no_progress_corrections == old(self).no_progress_corrections,
            final(self).post_correction_progress_required == old(self).post_correction_progress_required,
            final(self).post_correction_read_only_tools == old(self).post_correction_read_only_tools,
            final(self).consecutive_failed_tool_calls == old(self).consecutive_failed_tool_calls + 1,
            final(self).recent_failed_tool_signatures@.len() <= FAILED_TOOL_WINDOW,
            texts_of(final(self).recent_failed_tool_signatures@) == window_push(
                texts_of(old(self).recent_failed_tool_signatures@),
                tool_call.name@ + ":"@ + signature_text(tool_call.name@, tool_call.arguments@) + ":"@
                    + normalized_error(error@),
                3,
            ),
            !repeated_window(texts_of(final(self).recent_failed_tool_signatures@), 3) ==> {
                &&& r == Ok::<bool, ForgeError>(true)
                &&& final(self).failed_tool_corrections == old(self).failed_tool_corrections
                &&& final(self).repair_prompt == old(self).repair_prompt
            },
            repeated_window(texts_of(final(self).recent_failed_tool_signatures@), 3)
                && old(self).failed_tool_corrections >= 1 ==> {
                &&& r matches Err(ForgeError::ValidationFailed(m)) && m@ == failed_churn_reason(
                    tool_call.name@,
                    error@,
                )
                &&& final(self).failed_tool_corrections == old(self).failed_tool_corrections
                &&& final(self).repair_prompt == old(self).repair_prompt
            },
            repeated_window(texts_of(final(self).recent_failed_tool_signatures@), 3)
                && old(self).failed_tool_corrections == 0 ==> {
                &&& r == Ok::<bool, ForgeError>(true)
                &&& final(self).failed_tool_corrections == 1
                &&& final(self).repair_prompt matches Some(p) && p@ == failed_churn_reason(
                    tool_call.name@,
                    error@,
                ) + ". Recovery instruction: "@ + corrective_prompt(tool_call.name@, error@)
            },
    {
        self.consecutive_failed_tool_calls = self.consecutive_failed_tool_calls + 1;
        let sig = failed_tool_signature(tool_call, error);
        let window = push_window(&self.recent_failed_tool_signatures, sig, 3);
        self.recent_failed_tool_signatures = window;
        if !window_repeats(&self.recent_failed_tool_signatures, 3) {
            return Ok(true);
        }
        let class = classify_tool_failure(tool_call.name.as_str(), error);
        let mut reason = to_owned_string("Failed-tool churn detected: repeated ");
        push_str(&mut reason, tool_call.name.as_str());
        push_str(&mut reason, " failure (");
        push_str(&mut reason, class);
        push_str(&mut reason, ") without state advancement");
        if self.failed_tool_corrections >= 1 {
            return Err(ForgeError::ValidationFailed(reason));
        }
        self.failed_tool_corrections = self.failed_tool_corrections + 1;
        let corrective = corrective_prompt_for_tool_failure(tool_call.name.as_str(), error);
        let mut prompt = reason;
        push_str(&mut prompt, ". Recovery instruction: ");
        push_str(&mut prompt, corrective);
        self.repair_prompt = Some(prompt);
        Ok(true)
    }
}

} // verus!

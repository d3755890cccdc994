//! The runtime's small decision rules: how a failing tool call is
//! classified and answered, which tools only read, how partial reads are
//! recorded, and when a failed multi-file validation is deferred.
use crate::text::{
    all_ascii, append_chars, chars_contains, chars_eq, chars_of, chars_starts_with, contains_seq,
    find_from, find_from_chars, is_ascii_digit, is_ascii_letter, join_chars, join_seqs,
    lemma_find_from, lines_chars, lowercase_of, split_whitespace_chars, starts_with_seq, str_eq,
    string_from_chars, text_lines, to_lowercase, to_owned_string, ws_tokens, trimmed, match_count,
    replace_once, ends_with_seq, count_matches, replace_once_chars, chars_ends_with, push_str,
};
use crate::hashing::{compute_content_hash, content_hash};
use crate::state::AgentState;
use crate::types::{
    utf8_len, FileRecord, ForgeError, Mutation, MutationType, SessionStatus, ToolCall, ToolResult,
};
use vstd::prelude::*;

verus! {

/// The most lines a partial read keeps as its observed excerpt.
pub const MAX_TRACKED_READ_LINES: usize = 120;

/// How many failed validations a multi-file change may absorb before it is
/// no longer deferred.
pub const MAX_LIVE_VALIDATION_RECOVERY_ATTEMPTS: u32 = 2;

/// The class of a failing tool call.
pub open spec fn failure_class(tool_name: Seq<char>, error: Seq<char>) -> Seq<char> {
    let lower = lowercase_of(error);
    if tool_name == "read_file"@ && (contains_seq(lower, "no such file"@) || contains_seq(
        lower,
        "not found"@,
    )) {
        "missing_file_read"@
    } else if tool_name == "test_runner"@ && contains_seq(lower, "test failed"@) {
        "repeated_test_failure"@
    } else if contains_seq(lower, "hash mismatch"@) || contains_seq(lower, "stale"@) {
        "stale_mutation_context"@
    } else {
        "repeated_tool_failure"@
    }
}

/// A failing call is classed by tool and lowercase error text: a read of a
/// missing file ("no such file", "not found") is a missing-file read; a
/// failed test run ("test failed") a repeated test failure; otherwise a
/// hash mismatch or stale context is a stale mutation context, and
/// anything else a repeated tool failure.
pub proof fn law_tool_failure_classes(tool_name: Seq<char>, error: Seq<char>)
    ensures
        ({
            let e = lowercase_of(error);
            tool_name == "read_file"@ && (contains_seq(e, "no such file"@) || contains_seq(
                e,
                "not found"@,
            ))
        }) ==> failure_class(tool_name, error) == "missing_file_read"@,
        tool_name == "test_runner"@ && contains_seq(lowercase_of(error), "test failed"@)
            ==> failure_class(tool_name, error) == "repeated_test_failure"@,
        ({
            let e = lowercase_of(error);
            !(tool_name == "read_file"@ && (contains_seq(e, "no such file"@) || contains_seq(
                e,
                "not found"@,
            ))) && !(tool_name == "test_runner"@ && contains_seq(e, "test failed"@)) && (
            contains_seq(e, "hash mismatch"@) || contains_seq(e, "stale"@))
        }) ==> failure_class(tool_name, error) == "stale_mutation_context"@,
        ({
            let e = lowercase_of(error);
            !(tool_name == "read_file"@ && (contains_seq(e, "no such file"@) || contains_seq(
                e,
                "not found"@,
            ))) && !(tool_name == "test_runner"@ && contains_seq(e, "test failed"@)) && !(
            contains_seq(e, "hash mismatch"@) || contains_seq(e, "stale"@))
        }) ==> failure_class(tool_name, error) == "repeated_tool_failure"@,
{
    reveal_strlit("test_runner");
    reveal_strlit("read_file");
    assert("test_runner"@.len() == 11 && "read_file"@.len() == 9);
}

fn lower_contains(lower: &[char], word: &str) -> (r: bool)
    ensures
        r == contains_seq(lower@, word@),
{
    let w = chars_of(word);
    chars_contains(lower, &w)
}

/// Classifies a failing tool call by the tool and its error text.
pub fn classify_tool_failure(tool_name: &str, error: &str) -> (r: &'static str)
    ensures
        r@ == failure_class(tool_name@, error@),
{
    let lower_text = to_lowercase(error);
    let lower = chars_of(lower_text.as_str());
    if str_eq(tool_name, "read_file") && (lower_contains(&lower, "no such file") || lower_contains(
        &lower,
        "not found",
    )) {
        "missing_file_read"
    } else if str_eq(tool_name, "test_runner") && lower_contains(&lower, "test failed") {
        "repeated_test_failure"
    } else if lower_contains(&lower, "hash mismatch") || lower_contains(&lower, "stale") {
        "stale_mutation_context"
    } else {
        "repeated_tool_failure"
    }
}

/// The instruction given back to the planner for a failing tool call.
pub open spec fn corrective_prompt(tool_name: Seq<char>, error: Seq<char>) -> Seq<char> {
    let class = failure_class(tool_name, error);
    if class == "missing_file_read"@ {
        "Stop reading the missing path. Use list_dir or grep_search to find the real file, or create the requested file if the objective requires creation."@
    } else if class == "repeated_test_failure"@ {
        "Do not run test_runner again until after a code mutation. Read the failing implementation and tests, then patch or write the fix."@
    } else if class == "stale_mutation_context"@ {
        "Re-read the target file to refresh the content hash before attempting another mutation."@
    } else {
        "Do not repeat the same failing tool call. Gather different evidence, choose a different tool, mutate with read-before-write authority, or emit an explicit recoverable failure."@
    }
}

/// The corrective instruction for a failing tool call, by its class.
pub fn corrective_prompt_for_tool_failure(tool_name: &str, error: &str) -> (r: &'static str)
    ensures
        r@ == corrective_prompt(tool_name@, error@),
{
    let class = classify_tool_failure(tool_name, error);
    if str_eq(class, "missing_file_read") {
        "Stop reading the missing path. Use list_dir or grep_search to find the real file, or create the requested file if the objective requires creation."
    } else if str_eq(class, "repeated_test_failure") {
        "Do not run test_runner again until after a code mutation. Read the failing implementation and tests, then patch or write the fix."
    } else if str_eq(class, "stale_mutation_context") {
        "Re-read the target file to refresh the content hash before attempting another mutation."
    } else {
        "Do not repeat the same failing tool call. Gather different evidence, choose a different tool, mutate with read-before-write authority, or emit an explicit recoverable failure."
    }
}

/// An ASCII letter or digit.
pub open spec fn ascii_alnum(c: char) -> bool {
    is_ascii_letter(c) || is_ascii_digit(c)
}

/// The signature text of an error: lowercased, cut before the first
/// `/users/`, every character but ASCII letters and digits blanked, and at
/// most the first sixteen words joined with `_`.
pub open spec fn normalized_error(error: Seq<char>) -> Seq<char> {
    let lower = lowercase_of(error);
    let cut_at = find_from(lower, "/users/"@, 0);
    let cut = if cut_at < 0 { lower } else { lower.subrange(0, cut_at) };
    let blanked = cut.map_values(|c: char| if ascii_alnum(c) { c } else { ' ' });
    let words = ws_tokens(blanked);
    join_seqs(words.take(if words.len() < 16 { words.len() as int } else { 16 }), "_"@)
}

/// Normalises an error message into a stable signature.
pub fn normalize_tool_error(error: &str) -> (r: String)
    ensures
        r@ == normalized_error(error@),
{
    let lower_text = to_lowercase(error);
    let lower = chars_of(lower_text.as_str());
    let users = chars_of("/users/");
    let end = match find_from_chars(&lower, &users, 0) {
        Some(i) => i,
        None => lower.len(),
    };
    proof {
        lemma_find_from(lower@, users@, 0);
    }
    let ghost cut = if find_from(lower@, "/users/"@, 0) < 0 {
        lower@
    } else {
        lower@.subrange(0, find_from(lower@, "/users/"@, 0))
    };
    let mut blanked: Vec<char> = Vec::new();
    let mut i: usize = 0;
    while i < end
        invariant
            i <= end <= lower@.len(),
            cut == lower@.subrange(0, end as int),
            blanked@ == cut.take(i as int).map_values(
                |c: char| if ascii_alnum(c) { c } else { ' ' },
            ),
        decreases end - i,
    {
        let ch = lower[i];
        let keep = ('a' <= ch && ch <= 'z') || ('A' <= ch && ch <= 'Z') || ('0' <= ch && ch <= '9');
        assert(keep == ascii_alnum(ch));
        if keep {
            blanked.push(ch);
        } else {
            blanked.push(' ');
        }
        i = i + 1;
        assert(blanked@ =~= cut.take(i as int).map_values(
            |c: char| if ascii_alnum(c) { c } else { ' ' },
        ));
    }
    assert(cut.take(end as int) =~= cut);
    let words = split_whitespace_chars(&blanked);
    let ghost all = words@.map_values(|t: Vec<char>| t@);
    let mut kept: Vec<Vec<char>> = Vec::new();
    let mut k: usize = 0;
    while k < words.len() && k < 16
        invariant
            k <= words@.len(),
            k <= 16,
            all == words@.map_values(|t: Vec<char>| t@),
            kept@.map_values(|t: Vec<char>| t@) == all.take(k as int),
        decreases words.len() - k,
    {
        let ghost before = kept@.map_values(|t: Vec<char>| t@);
        let w = crate::text::copy_chars(&words[k]);
        kept.push(w);
        assert(kept@.map_values(|t: Vec<char>| t@) =~= before.push(all[k as int]));
        assert(all.take(k + 1) =~= all.take(k as int).push(all[k as int]));
        k = k + 1;
    }
    let sep = chars_of("_");
    let joined = join_chars(&kept, &sep);
    string_from_chars(&joined)
}

/// The name of a mutation kind.
pub open spec fn mutation_kind_text(kind: MutationType) -> Seq<char> {
    match kind {
        MutationType::Write => "write"@,
        MutationType::Patch => "patch"@,
        MutationType::Delete => "delete"@,
        MutationType::Move => "move"@,
    }
}

/// The name of a mutation kind as the audit log writes it.
pub fn mutation_kind_name(mutation_type: MutationType) -> (r: &'static str)
    ensures
        r@ == mutation_kind_text(mutation_type),
{
    match mutation_type {
        MutationType::Write => "write",
        MutationType::Patch => "patch",
        MutationType::Delete => "delete",
        MutationType::Move => "move",
    }
}

/// The paths of the mutations, in order.
pub open spec fn mutation_paths(mutations: Seq<Mutation>) -> Seq<Seq<char>> {
    mutations.map_values(|m: Mutation| m.path@)
}

/// The mutation paths joined with `, `, or `(none)` when there are none.
pub open spec fn mutation_paths_text(mutations: Seq<Mutation>) -> Seq<char> {
    if mutations.len() == 0 {
        "(none)"@
    } else {
        join_seqs(mutation_paths(mutations), ", "@)
    }
}

fn path_chars(mutations: &[Mutation], lower: bool) -> (r: Vec<Vec<char>>)
    ensures
        r@.map_values(|t: Vec<char>| t@) == if lower {
            mutation_paths(mutations@).map_values(|p: Seq<char>| lowercase_of(p))
        } else {
            mutation_paths(mutations@)
        },
{
    let ghost goal = if lower {
        mutation_paths(mutations@).map_values(|p: Seq<char>| lowercase_of(p))
    } else {
        mutation_paths(mutations@)
    };
    let mut out: Vec<Vec<char>> = Vec::new();
    let mut i: usize = 0;
    while i < mutations.len()
        invariant
            i <= mutations@.len(),
            goal == if lower {
                mutation_paths(mutations@).map_values(|p: Seq<char>| lowercase_of(p))
            } else {
                mutation_paths(mutations@)
            },
            out@.map_values(|t: Vec<char>| t@) == goal.take(i as int),
        decreases mutations.len() - i,
    {
        let ghost before = out@.map_values(|t: Vec<char>| t@);
        let p = if lower {
            let l = to_lowercase(mutations[i].path.as_str());
            chars_of(l.as_str())
        } else {
            chars_of(mutations[i].path.as_str())
        };
        assert(p@ == goal[i as int]);
        out.push(p);
        assert(out@.map_values(|t: Vec<char>| t@) =~= before.push(goal[i as int]));
        assert(goal.take(i + 1) =~= goal.take(i as int).push(goal[i as int]));
        i = i + 1;
    }
    assert(goal.take(mutations.len() as int) =~= goal);
    out
}

/// The mutation paths for a log line.
pub fn format_mutation_paths(mutations: &[Mutation]) -> (r: String)
    ensures
        r@ == mutation_paths_text(mutations@),
{
    if mutations.len() == 0 {
        return to_owned_string("(none)");
    }
    let paths = path_chars(mutations, false);
    let sep = chars_of(", ");
    let joined = join_chars(&paths, &sep);
    string_from_chars(&joined)
}

/// The hint given after a failed multi-file validation.
pub open spec fn recovery_hint(reason: Seq<char>, mutations: Seq<Mutation>) -> Seq<char> {
    let lower = lowercase_of(reason);
    let pending = join_seqs(
        mutation_paths(mutations).map_values(|p: Seq<char>| lowercase_of(p)),
        " "@,
    );
    if contains_seq(lower, "unresolved import"@) && (contains_seq(lower, "::math"@) || contains_seq(
        pending,
        "math.rs"@,
    )) {
        "The pending module file already exists; next read src/lib.rs and expose it with `pub mod math;` instead of rewriting src/math.rs."@
    } else if contains_seq(lower, "file not found for module"@) {
        "The compiler named the missing module file; create that module file, then validate the module exposure."@
    } else if contains_seq(lower, "private"@) && (contains_seq(lower, "setting"@) || contains_seq(
        pending,
        "lib.rs"@,
    )) {
        "The public API exposes a private type; next read src/lib.rs and make the exposed struct and fields public."@
    } else if contains_seq(lower, "format failed"@) {
        "The pending content needs rustfmt-compatible formatting; next read the pending file and rewrite only formatted Rust."@
    } else {
        "Use the validation evidence to choose a different companion surface, not the same pending write."@
    }
}

/// Chooses the hint that steers the planner to the companion surface a
/// failed multi-file validation points at.
pub fn multi_file_recovery_hint(reason: &str, mutations: &[Mutation]) -> (r: &'static str)
    ensures
        r@ == recovery_hint(reason@, mutations@),
{
    let lower_text = to_lowercase(reason);
    let lower = chars_of(lower_text.as_str());
    let paths = path_chars(mutations, true);
    let space = chars_of(" ");
    let pending = join_chars(&paths, &space);
    if lower_contains(&lower, "unresolved import") && (lower_contains(&lower, "::math")
        || lower_contains(&pending, "math.rs")) {
        "The pending module file already exists; next read src/lib.rs and expose it with `pub mod math;` instead of rewriting src/math.rs."
    } else if lower_contains(&lower, "file not found for module") {
        "The compiler named the missing module file; create that module file, then validate the module exposure."
    } else if lower_contains(&lower, "private") && (lower_contains(&lower, "setting")
        || lower_contains(&pending, "lib.rs")) {
        "The public API exposes a private type; next read src/lib.rs and make the exposed struct and fields public."
    } else if lower_contains(&lower, "format failed") {
        "The pending content needs rustfmt-compatible formatting; next read the pending file and rewrite only formatted Rust."
    } else {
        "Use the validation evidence to choose a different companion surface, not the same pending write."
    }
}

/// How many distinct texts `s` holds.
pub open spec fn distinct_count(s: Seq<Seq<char>>) -> nat
    decreases s.len(),
{
    if s.len() == 0 {
        0
    } else {
        distinct_count(s.drop_last()) + (if s.drop_last().contains(s.last()) {
            0nat
        } else {
            1nat
        })
    }
}

proof fn lemma_distinct_count_bound(s: Seq<Seq<char>>)
    ensures
        distinct_count(s) <= s.len(),
    decreases s.len(),
{
    if s.len() > 0 {
        lemma_distinct_count_bound(s.drop_last());
    }
}

fn count_distinct(items: &[String]) -> (r: usize)
    ensures
        r == distinct_count(items@.map_values(|t: String| t@)),
{
    let ghost all = items@.map_values(|t: String| t@);
    let mut count: usize = 0;
    let mut i: usize = 0;
    while i < items.len()
        invariant
            i <= items@.len(),
            all == items@.map_values(|t: String| t@),
            count == distinct_count(all.take(i as int)),
            count <= i,
        decreases items.len() - i,
    {
        let mut seen = false;
        let mut j: usize = 0;
        while j < i
            invariant
                j <= i < items@.len(),
                all == items@.map_values(|t: String| t@),
                seen == exists|q: int| 0 <= q < j && all[q] == all[i as int],
            decreases i - j,
        {
            let ghost old_seen = seen;
            let same = str_eq(items[j].as_str(), items[i].as_str());
            assert(same == (all[j as int] == all[i as int]));
            if same {
                seen = true;
            }
            proof {
                if old_seen {
                    let q = choose|q: int| 0 <= q < j && all[q] == all[i as int];
                    assert(0 <= q < j + 1 && all[q] == all[i as int]);
                }
                if same {
                    assert(0 <= j < j + 1 && all[j as int] == all[i as int]);
                }
                if exists|q: int| 0 <= q < j + 1 && all[q] == all[i as int] {
                    let q = choose|q: int| 0 <= q < j + 1 && all[q] == all[i as int];
                    if q < j {
                        assert(old_seen);
                    } else {
                        assert(same);
                    }
                }
            }
            j = j + 1;
        }
        let ghost prefix = all.take(i as int);
        assert(all.take(i + 1).drop_last() =~= prefix);
        assert(all.take(i + 1).last() == all[i as int]);
        assert(seen == prefix.contains(all[i as int])) by {
            if seen {
                let q = choose|q: int| 0 <= q < i && all[q] == all[i as int];
                assert(prefix[q] == all[i as int]);
            }
            if prefix.contains(all[i as int]) {
                let q = choose|q: int| 0 <= q < prefix.len() && prefix[q] == all[i as int];
                assert(0 <= q < i && all[q] == all[i as int]);
            }
        }
        if !seen {
            count = count + 1;
        }
        i = i + 1;
    }
    assert(all.take(items.len() as int) =~= all);
    count
}

/// A task that names a change spread over several files.
pub open spec fn multi_file_task(task: Seq<char>) -> bool {
    let t = lowercase_of(task);
    ||| contains_seq(t, "multi-file"@)
    ||| contains_seq(t, "expose"@)
    ||| contains_seq(t, "module"@)
    ||| contains_seq(t, "end-to-end"@)
    ||| contains_seq(t, "whole crate"@)
    ||| contains_seq(t, "tests/"@)
    ||| contains_seq(t, "cargo test"@)
}

/// A task counts as a multi-file change exactly when its lowercase text
/// mentions multi-file, expose, module, end-to-end, whole crate, tests/ or
/// cargo test.
pub proof fn law_multi_file_tasks(task: Seq<char>)
    ensures
        multi_file_task(task) <==> ({
            let t = lowercase_of(task);
            contains_seq(t, "multi-file"@) || contains_seq(t, "expose"@) || contains_seq(
                t,
                "module"@,
            ) || contains_seq(t, "end-to-end"@) || contains_seq(t, "whole crate"@)
                || contains_seq(t, "tests/"@) || contains_seq(t, "cargo test"@)
        }),
{
}

/// A validation failure that a companion edit may resolve.
pub open spec fn companion_failure(reason: Seq<char>) -> bool {
    let r = lowercase_of(reason);
    ||| contains_seq(r, "file not found for module"@)
    ||| contains_seq(r, "could not find"@)
    ||| contains_seq(r, "unresolved import"@)
    ||| contains_seq(r, "private"@)
    ||| contains_seq(r, "test failed"@)
}

/// A validation failure may be resolved by a companion edit exactly when
/// its lowercase text reports a missing module file, something not found,
/// an unresolved import, a private item or a failed test.
pub proof fn law_companion_failures(reason: Seq<char>)
    ensures
        companion_failure(reason) <==> ({
            let r = lowercase_of(reason);
            contains_seq(r, "file not found for module"@) || contains_seq(r, "could not find"@)
                || contains_seq(r, "unresolved import"@) || contains_seq(r, "private"@)
                || contains_seq(r, "test failed"@)
        }),
{
}

/// Whether a failed validation of a pending multi-file change is deferred
/// so the companion files can follow.
pub open spec fn defers_validation(
    task: Seq<char>,
    reason: Seq<char>,
    normalized_paths: Seq<Seq<char>>,
    prior_validation_failures: u32,
) -> bool {
    &&& prior_validation_failures < MAX_LIVE_VALIDATION_RECOVERY_ATTEMPTS
    &&& multi_file_task(task)
    &&& distinct_count(normalized_paths) <= 3
    &&& companion_failure(reason)
}

/// A failed validation of a pending change is deferred (so its companion
/// files can follow) only for the first two failures, only in a multi-file
/// task, only when the change touches at most three distinct paths, and
/// only when the failure is one a companion edit can resolve.
pub proof fn law_validation_deferral(
    task: Seq<char>,
    reason: Seq<char>,
    normalized_paths: Seq<Seq<char>>,
    prior_validation_failures: u32,
)
    ensures
        defers_validation(task, reason, normalized_paths, prior_validation_failures) <==> (
        prior_validation_failures < 2 && multi_file_task(task) && distinct_count(normalized_paths)
            <= 3 && companion_failure(reason)),
{
}

/// Decides whether a failed validation is deferred; `normalized_paths`
/// holds the normalised path of each pending mutation.
pub fn should_defer_multi_file_validation(
    task: &str,
    reason: &str,
    normalized_paths: &[String],
    prior_validation_failures: u32,
) -> (r: bool)
    ensures
        r == defers_validation(
            task@,
            reason@,
            normalized_paths@.map_values(|t: String| t@),
            prior_validation_failures,
        ),
{
    if prior_validation_failures >= MAX_LIVE_VALIDATION_RECOVERY_ATTEMPTS {
        return false;
    }
    let task_text = to_lowercase(task);
    let t = chars_of(task_text.as_str());
    let multi = lower_contains(&t, "multi-file") || lower_contains(&t, "expose") || lower_contains(
        &t,
        "module",
    ) || lower_contains(&t, "end-to-end") || lower_contains(&t, "whole crate") || lower_contains(
        &t,
        "tests/",
    ) || lower_contains(&t, "cargo test");
    if !multi {
        return false;
    }
    if count_distinct(normalized_paths) > 3 {
        return false;
    }
    let reason_text = to_lowercase(reason);
    let r = chars_of(reason_text.as_str());
    lower_contains(&r, "file not found for module") || lower_contains(&r, "could not find")
        || lower_contains(&r, "unresolved import") || lower_contains(&r, "private")
        || lower_contains(&r, "test failed")
}

/// An installed model answers a requested name: the same name ignoring
/// case, or, for a name without a tag, that name followed by `:` and a tag.
pub open spec fn model_answers(candidate: Seq<char>, installed: Seq<char>) -> bool {
    let c = lowercase_of(candidate);
    let i = lowercase_of(installed);
    i == c || (!contains_seq(c, ":"@) && starts_with_seq(i, c + ":"@))
}

/// The first installed model, from index `k` on, that answers `candidate`.
pub open spec fn first_answering(candidate: Seq<char>, installed: Seq<Seq<char>>, k: int) -> Option<
    Seq<char>,
>
    decreases installed.len() - k,
{
    if k < 0 || k >= installed.len() {
        None
    } else if model_answers(candidate, installed[k]) {
        Some(installed[k])
    } else {
        first_answering(candidate, installed, k + 1)
    }
}

/// Picks the first installed model that answers the requested name.
pub fn match_installed_model(candidate: &str, installed_models: &[String]) -> (r: Option<String>)
    ensures
        match r {
            Some(m) => first_answering(candidate@, installed_models@.map_values(|t: String| t@), 0)
                == Some(m@),
            None => first_answering(candidate@, installed_models@.map_values(|t: String| t@), 0)
                is None,
        },
{
    let ghost all = installed_models@.map_values(|t: String| t@);
    let c_text = to_lowercase(candidate);
    let c = chars_of(c_text.as_str());
    let colon = chars_of(":");
    let tagless = !chars_contains(&c, &colon);
    let mut tagged = chars_of(c_text.as_str());
    append_chars(&mut tagged, &colon);
    let mut k: usize = 0;
    while k < installed_models.len()
        invariant
            k <= installed_models@.len(),
            all == installed_models@.map_values(|t: String| t@),
            c@ == lowercase_of(candidate@),
            colon@ == ":"@,
            tagless == !contains_seq(c@, ":"@),
            tagged@ == c@ + ":"@,
            first_answering(candidate@, all, 0) == first_answering(candidate@, all, k as int),
        decreases installed_models.len() - k,
    {
        let i_text = to_lowercase(installed_models[k].as_str());
        let i = chars_of(i_text.as_str());
        assert(all[k as int] == installed_models@[k as int]@);
        if chars_eq(&i, &c) || (tagless && chars_starts_with(&i, &tagged)) {
            return Some(to_owned_string(installed_models[k].as_str()));
        }
        k = k + 1;
    }
    None
}

/// The tools whose calls only read.
pub open spec fn read_only_tool(name: Seq<char>) -> bool {
    ||| name == "read_file"@
    ||| name == "list_dir"@
    ||| name == "grep_search"@
    ||| name == "dependency_graph"@
    ||| name == "symbol_index"@
    ||| name == "entrypoint_detector"@
    ||| name == "lint_runner"@
    ||| name == "test_runner"@
}

/// The calls that count as read-only churn are exactly those of read_file,
/// list_dir, grep_search, dependency_graph, symbol_index,
/// entrypoint_detector, lint_runner and test_runner.
pub proof fn law_read_only_tools(name: Seq<char>)
    ensures
        read_only_tool(name) <==> (name == "read_file"@ || name == "list_dir"@ || name
            == "grep_search"@ || name == "dependency_graph"@ || name == "symbol_index"@ || name
            == "entrypoint_detector"@ || name == "lint_runner"@ || name == "test_runner"@),
{
}

/// Whether a tool only reads; such calls count toward read-only churn.
pub fn is_read_only_tool(tool_name: &str) -> (r: bool)
    ensures
        r == read_only_tool(tool_name@),
{
    str_eq(tool_name, "read_file") || str_eq(tool_name, "list_dir") || str_eq(
        tool_name,
        "grep_search",
    ) || str_eq(tool_name, "dependency_graph") || str_eq(tool_name, "symbol_index") || str_eq(
        tool_name,
        "entrypoint_detector",
    ) || str_eq(tool_name, "lint_runner") || str_eq(tool_name, "test_runner")
}

/// The excerpt a read keeps: the whole content for a full read; else the
/// lines from `offset` (1-based, at least 1) on, at most `limit` of them
/// and never more than the tracked maximum, joined with `\n`.
pub open spec fn observed_excerpt(content: Seq<char>, offset: Option<usize>, limit: Option<
    usize,
>) -> Seq<char> {
    if offset is None && limit is None {
        content
    } else {
        let first = match offset {
            Some(o) => if o < 1 { 1int } else { o as int },
            None => 1int,
        };
        let start = first - 1;
        let wanted = match limit {
            Some(l) => l as int,
            None => MAX_TRACKED_READ_LINES as int,
        };
        let lim = if wanted < MAX_TRACKED_READ_LINES { wanted } else {
            MAX_TRACKED_READ_LINES as int
        };
        let lines = text_lines(content);
        if start >= lines.len() {
            Seq::empty()
        } else {
            let stop = if start + lim < lines.len() { start + lim } else { lines.len() as int };
            join_seqs(lines.subrange(start, stop), "\n"@)
        }
    }
}

/// The part of a read that the runtime keeps as observed content.
pub fn extract_observed_read_content(
    content: &str,
    offset: Option<usize>,
    limit: Option<usize>,
) -> (r: String)
    ensures
        r@ == observed_excerpt(content@, offset, limit),
{
    if offset.is_none() && limit.is_none() {
        return to_owned_string(content);
    }
    let first: usize = match offset {
        Some(o) => if o < 1 { 1 } else { o },
        None => 1,
    };
    let start = first - 1;
    let wanted: usize = match limit {
        Some(l) => l,
        None => MAX_TRACKED_READ_LINES,
    };
    let lim = if wanted < MAX_TRACKED_READ_LINES { wanted } else { MAX_TRACKED_READ_LINES };
    let c = chars_of(content);
    let lines = lines_chars(&c);
    let ghost ls = text_lines(content@);
    if start >= lines.len() {
        return string_from_chars(&Vec::new());
    }
    let stop = if lim < lines.len() - start { start + lim } else { lines.len() };
    let mut kept: Vec<Vec<char>> = Vec::new();
    let mut k: usize = start;
    while k < stop
        invariant
            start <= k <= stop <= lines@.len(),
            lines@.map_values(|t: Vec<char>| t@) == ls,
            kept@.map_values(|t: Vec<char>| t@) == ls.subrange(start as int, k as int),
        decreases stop - k,
    {
        let ghost before = kept@.map_values(|t: Vec<char>| t@);
        let line = crate::text::copy_chars(&lines[k]);
        kept.push(line);
        assert(kept@.map_values(|t: Vec<char>| t@) =~= before.push(ls[k as int]));
        assert(ls.subrange(start as int, k + 1) =~= ls.subrange(start as int, k as int).push(
            ls[k as int],
        ));
        k = k + 1;
    }
    let nl = chars_of("\n");
    let joined = join_chars(&kept, &nl);
    string_from_chars(&joined)
}

/// The record of a read: the path as the caller normalised it, the read's
/// line range when a limit was given, and the observed excerpt as content.
pub fn build_file_record_from_read(
    record_path: &str,
    content: &str,
    iteration: u32,
    offset: Option<usize>,
    limit: Option<usize>,
) -> (r: FileRecord)
    ensures
        r.path@ == record_path@,
        r.content_hash@ == crate::hashing::content_hash(content@),
        r.total_lines == text_lines(content@).len(),
        r.lines_read == match limit {
            Some(l) => Some(
                (
                    match offset {
                        Some(o) => o,
                        None => 1usize,
                    },
                    l,
                ),
            ),
            None => None::<(usize, usize)>,
        },
        r.is_full_read == (limit is None),
        r.read_at_iteration == iteration,
        r.content matches Some(c) && c@ == observed_excerpt(content@, offset, limit),
{
    let lines_read: Option<(usize, usize)> = match limit {
        Some(l) => Some(
            (
                match offset {
                    Some(o) => o,
                    None => 1,
                },
                l,
            ),
        ),
        None => None,
    };
    let observed = extract_observed_read_content(content, offset, limit);
    FileRecord::new(record_path, content, lines_read, iteration).with_observed_content(observed)
}

/// The registered tools as the planner sees them.
pub struct ToolInfo {
    pub name: String,
    pub description: String,
    pub required_args: Vec<String>,
    pub optional_args: Vec<String>,
}

/// The names of the tools the runtime registers, in order.
pub open spec fn registered_names() -> Seq<Seq<char>> {
    seq![
        "write_file"@, "read_file"@, "apply_patch"@, "list_dir"@, "grep_search"@,
        "dependency_graph"@, "symbol_index"@, "entrypoint_detector"@, "lint_runner"@,
        "test_runner"@,
    ]
}

fn strings(items: &[&str]) -> (r: Vec<String>)
    ensures
        r@.map_values(|t: String| t@) == items@.map_values(|t: &str| t@),
{
    let mut out: Vec<String> = Vec::new();
    let mut i: usize = 0;
    while i < items.len()
        invariant
            i <= items@.len(),
            out@.map_values(|t: String| t@) == items@.map_values(|t: &str| t@).take(i as int),
        decreases items.len() - i,
    {
        let ghost before = out@.map_values(|t: String| t@);
        out.push(to_owned_string(items[i]));
        assert(out@.map_values(|t: String| t@) =~= before.push(items@[i as int]@));
        assert(items@.map_values(|t: &str| t@).take(i + 1) =~= items@.map_values(|t: &str| t@).take(
            i as int,
        ).push(items@[i as int]@));
        i = i + 1;
    }
    assert(items@.map_values(|t: &str| t@).take(items.len() as int) =~= items@.map_values(
        |t: &str| t@,
    ));
    out
}

fn tool_info(name: &str, description: &str, required: &[&str], optional: &[&str]) -> (r: ToolInfo)
    ensures
        r.name@ == name@,
        r.description@ == description@,
        r.required_args@.map_values(|t: String| t@) == required@.map_values(|t: &str| t@),
        r.optional_args@.map_values(|t: String| t@) == optional@.map_values(|t: &str| t@),
{
    ToolInfo {
        name: to_owned_string(name),
        description: to_owned_string(description),
        required_args: strings(required),
        optional_args: strings(optional),
    }
}

/// Model of a registered tool: name, description, required and optional
/// arguments.
pub open spec fn info_view(t: ToolInfo) -> (Seq<char>, Seq<char>, Seq<Seq<char>>, Seq<Seq<char>>) {
    (
        t.name@,
        t.description@,
        t.required_args@.map_values(|a: String| a@),
        t.optional_args@.map_values(|a: String| a@),
    )
}

/// The tools the runtime registers, with descriptions and arguments.
pub open spec fn registered_infos() -> Seq<(Seq<char>, Seq<char>, Seq<Seq<char>>, Seq<Seq<char>>)> {
    seq![
        ("write_file"@, "Write content to a file"@, seq!["path"@, "content"@], seq![]),
        ("read_file"@, "Read file content"@, seq!["path"@], seq!["offset"@, "limit"@]),
        (
            "apply_patch"@,
            "Apply a patch to a file"@,
            seq!["file_path"@, "old_text"@, "new_text"@, "expected_hash"@],
            seq![],
        ),
        (
            "list_dir"@,
            "List directory contents"@,
            seq!["path"@],
            seq!["recursive"@, "file_type"@, "include_hidden"@],
        ),
        (
            "grep_search"@,
            "Search files with regex pattern"@,
            seq!["query"@, "path"@],
            seq!["file_pattern"@],
        ),
        (
            "dependency_graph"@,
            "Build a bounded dependency graph for a source file"@,
            seq!["path"@],
            seq!["max_depth"@],
        ),
        (
            "symbol_index"@,
            "Find symbol-like locations for a query"@,
            seq!["query"@],
            seq!["path"@, "max_results"@],
        ),
        ("entrypoint_detector"@, "Detect project entry points"@, seq![], seq!["path"@]),
        ("lint_runner"@, "Run the configured lint policy"@, seq![], seq!["path"@]),
        ("test_runner"@, "Run the configured test policy"@, seq![], seq!["path"@]),
    ]
}

/// The tools the runtime registers with the planner, with their
/// descriptions and arguments.
pub fn registered_tool_infos() -> (r: Vec<ToolInfo>)
    ensures
        r@.map_values(|t: ToolInfo| t.name@) == registered_names(),
        r@.map_values(|t: ToolInfo| info_view(t)) == registered_infos(),
{
    let r = vec![
        tool_info("write_file", "Write content to a file", &["path", "content"], &[]),
        tool_info("read_file", "Read file content", &["path"], &["offset", "limit"]),
        tool_info(
            "apply_patch",
            "Apply a patch to a file",
            &["file_path", "old_text", "new_text", "expected_hash"],
            &[],
        ),
        tool_info(
            "list_dir",
            "List directory contents",
            &["path"],
            &["recursive", "file_type", "include_hidden"],
        ),
        tool_info(
            "grep_search",
            "Search files with regex pattern",
            &["query", "path"],
            &["file_pattern"],
        ),
        tool_info(
            "dependency_graph",
            "Build a bounded dependency graph for a source file",
            &["path"],
            &["max_depth"],
        ),
        tool_info(
            "symbol_index",
            "Find symbol-like locations for a query",
            &["query"],
            &["path", "max_results"],
        ),
        tool_info("entrypoint_detector", "Detect project entry points", &[], &["path"]),
        tool_info("lint_runner", "Run the configured lint policy", &[], &["path"]),
        tool_info("test_runner", "Run the configured test policy", &[], &["path"]),
    ];
    assert(r@.map_values(|t: ToolInfo| t.name@) =~= registered_names());
    assert(info_view(r@[0]).2 =~= registered_infos()[0].2);
    assert(info_view(r@[0]).3 =~= registered_infos()[0].3);
    assert(info_view(r@[1]).2 =~= registered_infos()[1].2);
    assert(info_view(r@[1]).3 =~= registered_infos()[1].3);
    assert(info_view(r@[2]).2 =~= registered_infos()[2].2);
    assert(info_view(r@[2]).3 =~= registered_infos()[2].3);
    assert(info_view(r@[3]).2 =~= registered_infos()[3].2);
    assert(info_view(r@[3]).3 =~= registered_infos()[3].3);
    assert(info_view(r@[4]).2 =~= registered_infos()[4].2);
    assert(info_view(r@[4]).3 =~= registered_infos()[4].3);
    assert(info_view(r@[5]).2 =~= registered_infos()[5].2);
    assert(info_view(r@[5]).3 =~= registered_infos()[5].3);
    assert(info_view(r@[6]).2 =~= registered_infos()[6].2);
    assert(info_view(r@[6]).3 =~= registered_infos()[6].3);
    assert(info_view(r@[7]).2 =~= registered_infos()[7].2);
    assert(info_view(r@[7]).3 =~= registered_infos()[7].3);
    assert(info_view(r@[8]).2 =~= registered_infos()[8].2);
    assert(info_view(r@[8]).3 =~= registered_infos()[8].3);
    assert(info_view(r@[9]).2 =~= registered_infos()[9].2);
    assert(info_view(r@[9]).3 =~= registered_infos()[9].3);
    assert(r@.map_values(|t: ToolInfo| info_view(t)) =~= registered_infos());
    r
}

/// The names of the registered tools, in order.
pub fn registered_tool_names() -> (r: Vec<String>)
    ensures
        r@.map_values(|t: String| t@) == registered_names(),
{
    let infos = registered_tool_infos();
    let mut out: Vec<String> = Vec::new();
    let mut i: usize = 0;
    while i < infos.len()
        invariant
            i <= infos@.len(),
            infos@.map_values(|t: ToolInfo| t.name@) == registered_names(),
            out@.map_values(|t: String| t@) == registered_names().take(i as int),
        decreases infos.len() - i,
    {
        let ghost before = out@.map_values(|t: String| t@);
        assert(infos@[i as int].name@ == registered_names()[i as int]);
        out.push(to_owned_string(infos[i].name.as_str()));
        assert(out@.map_values(|t: String| t@) =~= before.push(registered_names()[i as int]));
        assert(registered_names().take(i + 1) =~= registered_names().take(i as int).push(
            registered_names()[i as int],
        ));
        i = i + 1;
    }
    assert(registered_names().take(10) =~= registered_names());
    out
}

/// The length in bytes that `str::len` reports for a text.
pub open spec fn str_len(s: Seq<char>) -> usize {
    utf8_len(s) as usize
}

/// The largest file the small-file fallback rewrites, in bytes.
pub const SMALL_FILE_FALLBACK_MAX_BYTES: usize = 16384;

/// The recovery limits: a partial read keeps at most 120 lines as its
/// excerpt, a multi-file change absorbs at most two failed validations,
/// and the small-file fallback rewrites files of at most 16 KiB.
pub proof fn law_recovery_limits()
    ensures
        MAX_TRACKED_READ_LINES == 120,
        MAX_LIVE_VALIDATION_RECOVERY_ATTEMPTS == 2,
        SMALL_FILE_FALLBACK_MAX_BYTES == 16384,
{
}

/// The path argument a mutating call names: `path` for `write_file` and
/// `delete_file`, `file_path` for `apply_patch`.
pub open spec fn mutation_path_of(call: ToolCall) -> Option<Seq<char>> {
    if call.name@ == "write_file"@ || call.name@ == "delete_file"@ {
        call.arguments.lookup("path"@)
    } else if call.name@ == "apply_patch"@ {
        call.arguments.lookup("file_path"@)
    } else {
        None
    }
}

/// The path a mutating call targets, or a `MissingArgument` error.
pub fn extract_mutation_path(tool_call: &ToolCall) -> (r: Result<String, ForgeError>)
    ensures
        match r {
            Ok(p) => mutation_path_of(*tool_call) == Some(p@),
            Err(e) => mutation_path_of(*tool_call) is None && (e matches ForgeError::MissingArgument(
                m,
            ) && m@ == "path/file_path"@),
        },
{
    let name = tool_call.name.as_str();
    let found = if str_eq(name, "write_file") || str_eq(name, "delete_file") {
        tool_call.arguments.get("path")
    } else if str_eq(name, "apply_patch") {
        tool_call.arguments.get("file_path")
    } else {
        None
    };
    match found {
        Some(p) => Ok(to_owned_string(p)),
        None => Err(ForgeError::MissingArgument(to_owned_string("path/file_path"))),
    }
}

/// What the first stage of the small-file fallback decides before the
/// file is read: it applies only to `apply_patch` after a full read of a
/// small file, with a non-blank `new_text`; its texts are required.
pub open spec fn fallback_precheck(call: ToolCall, record: Option<&FileRecord>) -> Result<
    Option<(Seq<char>, Seq<char>)>,
    Seq<char>,
> {
    if call.name@ != "apply_patch"@ {
        Ok(None)
    } else {
        match record {
            None => Ok(None),
            Some(rec) => if !rec.is_full_read || rec.size_bytes > SMALL_FILE_FALLBACK_MAX_BYTES {
                Ok(None)
            } else {
                match call.arguments.lookup("old_text"@) {
                    None => Err("old_text"@),
                    Some(old) => match call.arguments.lookup("new_text"@) {
                        None => Err("new_text"@),
                        Some(new) => if trimmed(new).len() == 0 {
                            Ok(None)
                        } else {
                            Ok(Some((old, new)))
                        },
                    },
                }
            },
        }
    }
}

/// The first stage of the small-file fallback: whether it applies to the
/// failed call, given the read record of its target, and with which old
/// and new texts.  A missing text is a `MissingArgument` error.
pub fn small_file_fallback_precheck(tool_call: &ToolCall, record: Option<&FileRecord>) -> (r:
    Result<Option<(String, String)>, ForgeError>)
    ensures
        match r {
            Ok(None) => fallback_precheck(*tool_call, record) == Ok::<
                Option<(Seq<char>, Seq<char>)>,
                Seq<char>,
            >(None),
            Ok(Some((o, n))) => fallback_precheck(*tool_call, record) == Ok::<
                Option<(Seq<char>, Seq<char>)>,
                Seq<char>,
            >(Some((o@, n@))),
            Err(e) => exists|k: Seq<char>|
                fallback_precheck(*tool_call, record) == Err::<
                    Option<(Seq<char>, Seq<char>)>,
                    Seq<char>,
                >(k) && (e matches ForgeError::MissingArgument(m) && m@ == k),
        },
{
    if !str_eq(tool_call.name.as_str(), "apply_patch") {
        return Ok(None);
    }
    let rec = match record {
        None => return Ok(None),
        Some(rec) => rec,
    };
    if !rec.is_full_read || rec.size_bytes > 16384 {
        return Ok(None);
    }
    let old_text = match tool_call.arguments.require("old_text") {
        Ok(t) => t,
        Err(e) => return Err(e),
    };
    let new_text = match tool_call.arguments.require("new_text") {
        Ok(t) => t,
        Err(e) => return Err(e),
    };
    let nt = crate::text::trim_text(new_text);
    let ntc = chars_of(nt.as_str());
    if ntc.len() == 0 {
        return Ok(None);
    }
    Ok(Some((to_owned_string(old_text), to_owned_string(new_text))))
}

/// The rewrite the fallback tries: the single occurrence of a non-empty
/// `old` replaced by `new`; or, for an empty `old`, `new` appended on a
/// line of its own (with a final newline) unless it is already there.
pub open spec fn fallback_candidate(old: Seq<char>, new: Seq<char>, current: Seq<char>) -> Option<
    Seq<char>,
> {
    if old.len() > 0 {
        if match_count(current, old) != 1 {
            None
        } else {
            Some(replace_once(current, old, new))
        }
    } else if contains_seq(current, new) {
        None
    } else {
        let base = if current.len() > 0 && !ends_with_seq(current, "\n"@) {
            current.push('\n')
        } else {
            current
        };
        let appended = base + new;
        Some(
            if ends_with_seq(appended, "\n"@) {
                appended
            } else {
                appended.push('\n')
            },
        )
    }
}

/// The content the fallback writes, if any: the candidate rewrite, unless
/// it leaves the file unchanged or is too large.
pub open spec fn fallback_rewrite(old: Seq<char>, new: Seq<char>, current: Seq<char>) -> Option<
    Seq<char>,
> {
    match fallback_candidate(old, new, current) {
        None => None,
        Some(r) => if r == current || str_len(r) > SMALL_FILE_FALLBACK_MAX_BYTES {
            None
        } else {
            Some(r)
        },
    }
}

/// The second stage of the small-file fallback, on the file's current
/// content: nothing when the content no longer has the hash of the read
/// or is too large; else the rewrite, if it changes the file.
pub fn small_file_fallback_rewrite(
    record: &FileRecord,
    old_text: &str,
    new_text: &str,
    current_content: &str,
) -> (r: Option<String>)
    requires
        current_content@.len() < usize::MAX,
    ensures
        match r {
            Some(u) => content_hash(current_content@) == record.content_hash@
                && str_len(current_content@) <= SMALL_FILE_FALLBACK_MAX_BYTES && fallback_rewrite(
                old_text@,
                new_text@,
                current_content@,
            ) == Some(u@),
            None => content_hash(current_content@) != record.content_hash@ || str_len(
                current_content@,
            ) > SMALL_FILE_FALLBACK_MAX_BYTES || fallback_rewrite(
                old_text@,
                new_text@,
                current_content@,
            ) is None,
        },
{
    let current_hash = compute_content_hash(current_content);
    if !str_eq(current_hash.as_str(), record.content_hash.as_str()) {
        return None;
    }
    if current_content.len() > SMALL_FILE_FALLBACK_MAX_BYTES {
        return None;
    }
    let c = chars_of(current_content);
    let o = chars_of(old_text);
    let n = chars_of(new_text);
    let rewritten: Vec<char> = if o.len() > 0 {
        if count_matches(&c, &o) != 1 {
            return None;
        }
        replace_once_chars(&c, &o, &n)
    } else {
        if chars_contains(&c, &n) {
            return None;
        }
        let mut out = crate::text::copy_chars(&c);
        let nl = chars_of("\n");
        if out.len() > 0 && !chars_ends_with(&out, &nl) {
            out.push('\n');
        }
        let ghost base = out@;
        append_chars(&mut out, &n);
        let ghost appended = out@;
        assert(appended == base + n@);
        if !chars_ends_with(&out, &nl) {
            out.push('\n');
        }
        out
    };
    assert(fallback_candidate(old_text@, new_text@, current_content@) == Some(rewritten@));
    if chars_eq(&rewritten, &c) {
        return None;
    }
    let text = string_from_chars(&rewritten);
    if text.as_str().len() > SMALL_FILE_FALLBACK_MAX_BYTES {
        return None;
    }
    Some(text)
}

/// The first sixteen characters of a hash (all of a shorter one).
pub open spec fn hash_head(h: Seq<char>) -> Seq<char> {
    if h.len() < 16 { h } else { h.subrange(0, 16) }
}

fn head16(h: &str) -> (r: String)
    ensures
        r@ == hash_head(h@),
{
    let c = chars_of(h);
    let n = if c.len() < 16 { c.len() } else { 16 };
    let mut out: Vec<char> = Vec::new();
    let mut k: usize = 0;
    while k < n
        invariant
            k <= n <= c@.len(),
            n == (if c@.len() < 16 { c@.len() } else { 16 }),
            out@ == c@.subrange(0, k as int),
        decreases n - k,
    {
        out.push(c[k]);
        k = k + 1;
        assert(out@ =~= c@.subrange(0, k as int));
    }
    assert(c@.subrange(0, c@.len() as int) =~= c@);
    string_from_chars(&out)
}

/// The result of an applied small-file fallback: one patch mutation from
/// the old hash to the new, and a summary naming both hash heads.
pub fn small_file_fallback_result(path: &str, old_hash: &str, new_hash: &str) -> (r: ToolResult)
    ensures
        r.success,
        r.error is None,
        r.execution_time_ms == 0,
        r.output matches Some(o) && o@ == "SMALL_FILE_FALLBACK: "@ + path@ + " "@ + hash_head(
            old_hash@,
        ) + " -> "@ + hash_head(new_hash@),
        r.mutations@.len() == 1,
        r.mutations@[0].path@ == path@,
        r.mutations@[0].mutation_type == MutationType::Patch,
        r.mutations@[0].content_hash_before matches Some(b) && b@ == old_hash@,
        r.mutations@[0].content_hash_after matches Some(a) && a@ == new_hash@,
{
    let mut out = to_owned_string("SMALL_FILE_FALLBACK: ");
    push_str(&mut out, path);
    push_str(&mut out, " ");
    let h1 = head16(old_hash);
    push_str(&mut out, h1.as_str());
    push_str(&mut out, " -> ");
    let h2 = head16(new_hash);
    push_str(&mut out, h2.as_str());
    let mutation = Mutation {
        path: to_owned_string(path),
        mutation_type: MutationType::Patch,
        content_hash_before: Some(to_owned_string(old_hash)),
        content_hash_after: Some(to_owned_string(new_hash)),
    };
    ToolResult {
        success: true,
        output: Some(out),
        error: None,
        mutations: vec![mutation],
        execution_time_ms: 0,
    }
}

/// One step of reverting a mutation.
pub enum RevertStep {
    /// Write the snapshot content back to the path.
    Restore { path: String, content: String },
    /// Remove a file that the mutation created.
    Remove { path: String },
}

/// Model of a revert step.
pub enum RevertStepView {
    Restore { path: Seq<char>, content: Seq<char> },
    Remove { path: Seq<char> },
}

pub open spec fn step_view(s: RevertStep) -> RevertStepView {
    match s {
        RevertStep::Restore { path, content } => RevertStepView::Restore {
            path: path@,
            content: content@,
        },
        RevertStep::Remove { path } => RevertStepView::Remove { path: path@ },
    }
}

/// Why a mutation without a snapshot cannot be reverted.
pub open spec fn no_snapshot_message(m: Mutation) -> Seq<char> {
    "No snapshot available to revert "@ + mutation_kind_text(m.mutation_type) + " on "@ + m.path@
}

/// Reverting the first `i` mutations, the latest first: a mutation with a
/// snapshot is restored from it, a write without one is removed, and any
/// other mutation without one stops the revert with an error.
pub open spec fn revert_from(ms: Seq<Mutation>, ss: Seq<Option<Seq<char>>>, i: int) -> (
    Seq<RevertStepView>,
    Option<Seq<char>>,
)
    decreases i,
{
    if i <= 0 {
        (seq![], None)
    } else {
        let m = ms[i - 1];
        let rest = revert_from(ms, ss, i - 1);
        match ss[i - 1] {
            Some(c) => (seq![RevertStepView::Restore { path: m.path@, content: c }] + rest.0, rest.1),
            None => if m.mutation_type == MutationType::Write {
                (seq![RevertStepView::Remove { path: m.path@ }] + rest.0, rest.1)
            } else {
                (seq![], Some(no_snapshot_message(m)))
            },
        }
    }
}

/// Plans the revert of `mutations`, latest first, given the snapshot
/// content found for each (same index).  The steps before an error are
/// still to be carried out; the error then ends the revert.
pub fn plan_revert(mutations: &[Mutation], snapshots: &[Option<String>]) -> (r: (
    Vec<RevertStep>,
    Option<ForgeError>,
))
    requires
        snapshots@.len() == mutations@.len(),
    ensures
        ({
            let want = revert_from(
                mutations@,
                snapshots@.map_values(|o: Option<String>| crate::types::opt_view(o)),
                mutations@.len() as int,
            );
            &&& r.0@.map_values(|s: RevertStep| step_view(s)) == want.0
            &&& match r.1 {
                None => want.1 is None,
                Some(e) => want.1 matches Some(m) && (e matches ForgeError::IoError(t) && t@ == m),
            }
        }),
{
    let ghost ss = snapshots@.map_values(|o: Option<String>| crate::types::opt_view(o));
    let ghost n = mutations@.len() as int;
    let mut steps: Vec<RevertStep> = Vec::new();
    let mut i: usize = mutations.len();
    while i > 0
        invariant
            i <= mutations@.len(),
            snapshots@.len() == mutations@.len(),
            ss == snapshots@.map_values(|o: Option<String>| crate::types::opt_view(o)),
            n == mutations@.len(),
            revert_from(mutations@, ss, n).0 == steps@.map_values(|s: RevertStep| step_view(s))
                + revert_from(mutations@, ss, i as int).0,
            revert_from(mutations@, ss, n).1 == revert_from(mutations@, ss, i as int).1,
        decreases i,
    {
        let ghost before = steps@.map_values(|s: RevertStep| step_view(s));
        let m = &mutations[i - 1];
        let ghost rest = revert_from(mutations@, ss, i - 1);
        match &snapshots[i - 1] {
            Some(c) => {
                assert(ss[i - 1] == Some(c@));
                steps.push(
                    RevertStep::Restore {
                        path: to_owned_string(m.path.as_str()),
                        content: to_owned_string(c.as_str()),
                    },
                );
                assert(steps@.map_values(|s: RevertStep| step_view(s)) =~= before.push(
                    RevertStepView::Restore { path: m.path@, content: c@ },
                ));
                assert(before + (seq![RevertStepView::Restore { path: m.path@, content: c@ }] + rest.0)
                    =~= before.push(RevertStepView::Restore { path: m.path@, content: c@ }) + rest.0);
            },
            None => {
                assert(ss[i - 1] is None);
                match m.mutation_type {
                    MutationType::Write => {
                        steps.push(RevertStep::Remove { path: to_owned_string(m.path.as_str()) });
                        assert(steps@.map_values(|s: RevertStep| step_view(s)) =~= before.push(
                            RevertStepView::Remove { path: m.path@ },
                        ));
                        assert(before + (seq![RevertStepView::Remove { path: m.path@ }] + rest.0)
                            =~= before.push(RevertStepView::Remove { path: m.path@ }) + rest.0);
                    },
                    _ => {
                        let mut msg = to_owned_string("No snapshot available to revert ");
                        push_str(&mut msg, mutation_kind_name(m.mutation_type));
                        push_str(&mut msg, " on ");
                        push_str(&mut msg, m.path.as_str());
                        assert(before + Seq::<RevertStepView>::empty() =~= before);
                        return (steps, Some(ForgeError::IoError(msg)));
                    },
                }
            },
        }
        i = i - 1;
    }
    assert(steps@.map_values(|s: RevertStep| step_view(s)) + Seq::<RevertStepView>::empty()
        =~= steps@.map_values(|s: RevertStep| step_view(s)));
    (steps, None)
}

/// Whether the loop may run another iteration: the state must pass its
/// integrity check (else the error), the session must be running, and the
/// iteration budget must not be exceeded.
pub fn preflight(state: &AgentState) -> (r: Result<bool, ForgeError>)
    ensures
        !state.integrity_holds() ==> (r matches Err(ForgeError::StateCorruption(m)) && m@
            == "State hash mismatch - possible tampering"@),
        state.integrity_holds() ==> r == Ok::<bool, ForgeError>(
            state.status == SessionStatus::Running && state.iteration <= state.max_iterations,
        ),
{
    match state.verify_integrity() {
        Err(e) => return Err(e),
        Ok(()) => {},
    }
    if state.status != SessionStatus::Running {
        return Ok(false);
    }
    if state.iteration > state.max_iterations {
        return Ok(false);
    }
    Ok(true)
}

/// A tool call is well formed when its tool name is not empty.
pub fn validate_tool_call(tool_call: &ToolCall) -> (r: bool)
    ensures
        r == (tool_call.name@.len() > 0),
{
    let c = chars_of(tool_call.name.as_str());
    c.len() > 0
}

} // verus!

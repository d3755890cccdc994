//! Runtime gates: fail-closed enforcement boundaries.  The completion gate
//! checks a completion claim against observable state; the read-before-write
//! gate checks that a mutation target was fully read and is unchanged since.
use crate::collections::{seq_less, sort_seqs, sort_texts, PathMap};
use crate::state::AgentState;
use crate::protocol_validator::ValidationFailureClass;
use crate::text::decimal;
use crate::types::{ChangeRecord, CompletionReason, FileRecord, ValidationDecision, ValidationReport, ValidationStage};
use crate::text::push_str;
use crate::text::{
    char_is_alphanumeric, chars_contains, chars_ends_with, chars_eq, chars_of,
    chars_starts_with, contains_seq, ends_with_seq, join_chars, join_seqs, lowercase_of,
    split_whitespace_chars, starts_with_seq, str_contains, str_eq, to_lowercase,
    unicode_alphanumeric, ws_tokens,
};
use vstd::prelude::*;

verus! {

broadcast use vstd::string::group_string_axioms;

// ===========================================================================
// Text normalisation
// ===========================================================================

/// `s` with every character that `keep` rejects turned into a space.
pub open spec fn blank_out(s: Seq<char>, keep_dash: bool) -> Seq<char> {
    s.map_values(|c: char| if unicode_alphanumeric(c) || (keep_dash && c == '-') { c } else { ' ' })
}

/// Lowercased, other characters blanked, words joined by single spaces.
pub open spec fn normalized_words(s: Seq<char>, keep_dash: bool) -> Seq<char> {
    join_seqs(ws_tokens(blank_out(lowercase_of(s), keep_dash)), " "@)
}

fn space() -> (r: Vec<char>)
    ensures
        r@ == " "@,
{
    chars_of(" ")
}

/// Lowercases `s`, turns every character that is not alphanumeric (nor a
/// dash, when `keep_dash`) into a space, and joins the words with single
/// spaces.
fn normalize_words(s: &str, keep_dash: bool) -> (r: Vec<char>)
    ensures
        r@ == normalized_words(s@, keep_dash),
{
    let lower = to_lowercase(s);
    let chars = chars_of(lower.as_str());
    let mut mapped: Vec<char> = Vec::new();
    let mut i: usize = 0;
    while i < chars.len()
        invariant
            i <= chars.len(),
            chars@ == lowercase_of(s@),
            mapped@ == blank_out(chars@, keep_dash).take(i as int),
        decreases chars.len() - i,
    {
        let c = chars[i];
        if char_is_alphanumeric(c) || (keep_dash && c == '-') {
            mapped.push(c);
        } else {
            mapped.push(' ');
        }
        i = i + 1;
        assert(mapped@ =~= blank_out(chars@, keep_dash).take(i as int));
    }
    assert(blank_out(chars@, keep_dash).take(chars.len() as int) =~= blank_out(chars@, keep_dash));
    let words = split_whitespace_chars(&mapped);
    let sep = space();
    join_chars(&words, &sep)
}

/// A vague pattern stands alone, opens, closes or sits inside the text.
pub open spec fn pattern_hit(n: Seq<char>, p: Seq<char>) -> bool {
    n == p || starts_with_seq(n, p + " "@) || ends_with_seq(n, " "@ + p) || contains_seq(
        n,
        " "@ + p + " "@,
    )
}

/// The completion reason is vague: its normalised words are, open with,
/// close with or contain one of the vague phrases.
pub open spec fn vague_reason(reason: Seq<char>) -> bool {
    let n = normalized_words(reason, false);
    pattern_hit(n, "looks good"@) || pattern_hit(n, "done"@) || pattern_hit(n, "complete"@)
        || pattern_hit(n, "finished"@) || pattern_hit(n, "ready"@) || pattern_hit(
        n,
        "task complete"@,
    ) || pattern_hit(n, "all done"@) || pattern_hit(n, "will be completed"@) || pattern_hit(
        n,
        "mostly done"@,
    ) || pattern_hit(n, "should be fine"@) || pattern_hit(n, "appears correct"@) || pattern_hit(
        n,
        "seems ok"@,
    )
}

fn hits_pattern(n: &[char], p: &str) -> (r: bool)
    ensures
        r == pattern_hit(n@, p@),
{
    let pc = chars_of(p);
    let sp = space();
    let mut opening = pc.clone();
    crate::text::append_chars(&mut opening, &sp);
    let mut closing = sp.clone();
    crate::text::append_chars(&mut closing, &pc);
    let mut inner = closing.clone();
    crate::text::append_chars(&mut inner, &sp);
    proof {
        assert(opening@ =~= p@ + " "@);
        assert(closing@ =~= " "@ + p@);
        assert(inner@ =~= " "@ + p@ + " "@);
    }
    chars_eq(n, &pc) || chars_starts_with(n, &opening) || chars_ends_with(n, &closing)
        || chars_contains(n, &inner)
}

/// Whether a completion reason is vague or premature.
pub fn is_vague_reason(reason: &str) -> (r: bool)
    ensures
        r == vague_reason(reason@),
{
    let n = normalize_words(reason, false);
    hits_pattern(&n, "looks good") || hits_pattern(&n, "done") || hits_pattern(&n, "complete")
        || hits_pattern(&n, "finished") || hits_pattern(&n, "ready") || hits_pattern(
        &n,
        "task complete",
    ) || hits_pattern(&n, "all done") || hits_pattern(&n, "will be completed") || hits_pattern(
        &n,
        "mostly done",
    ) || hits_pattern(&n, "should be fine") || hits_pattern(&n, "appears correct")
        || hits_pattern(&n, "seems ok")
}

/// What `normalize_task_text` yields: lowercase words of alphanumerics and
/// dashes, joined by single spaces.
pub open spec fn normalized_task(statement: Seq<char>) -> Seq<char> {
    normalized_words(statement, true)
}

/// Normalises a task statement for term matching.
pub fn normalize_task_text(statement: &str) -> (r: String)
    ensures
        r@ == normalized_task(statement@),
{
    let v = normalize_words(statement, true);
    crate::text::string_from_chars(&v)
}

/// The (normalised) statement opens with a request to create something.
pub open spec fn creation_verb(s: Seq<char>) -> bool {
    starts_with_seq(s, "build "@) || starts_with_seq(s, "create "@) || starts_with_seq(s, "make "@)
        || starts_with_seq(s, "write "@) || starts_with_seq(s, "add "@) || starts_with_seq(
        s,
        "implement "@,
    ) || starts_with_seq(s, "please build "@) || starts_with_seq(s, "please create "@)
        || starts_with_seq(s, "please make "@) || starts_with_seq(s, "please write "@)
        || starts_with_seq(s, "please implement "@) || starts_with_seq(s, "can you build "@)
        || starts_with_seq(s, "can you create "@) || starts_with_seq(s, "can you make "@)
        || starts_with_seq(s, "can you write "@) || starts_with_seq(s, "can you implement "@)
}

/// A normalised statement asks to create something exactly when it opens
/// with build, create, make, write, add or implement, possibly after
/// "please" or "can you" (for build, create, make, write, implement).
pub proof fn law_creation_verbs(s: Seq<char>)
    ensures
        creation_verb(s) <==> (starts_with_seq(s, "build "@) || starts_with_seq(s, "create "@)
            || starts_with_seq(s, "make "@) || starts_with_seq(s, "write "@) || starts_with_seq(
            s,
            "add "@,
        ) || starts_with_seq(s, "implement "@) || starts_with_seq(s, "please build "@)
            || starts_with_seq(s, "please create "@) || starts_with_seq(s, "please make "@)
            || starts_with_seq(s, "please write "@) || starts_with_seq(s, "please implement "@)
            || starts_with_seq(s, "can you build "@) || starts_with_seq(s, "can you create "@)
            || starts_with_seq(s, "can you make "@) || starts_with_seq(s, "can you write "@)
            || starts_with_seq(s, "can you implement "@)),
{
}

fn opens_with(s: &[char], p: &str) -> (r: bool)
    ensures
        r == starts_with_seq(s@, p@),
{
    let pc = chars_of(p);
    chars_starts_with(s, &pc)
}

/// Whether a normalised statement opens with a creation verb.
pub fn has_creation_verb(statement: &str) -> (r: bool)
    ensures
        r == creation_verb(statement@),
{
    let s = chars_of(statement);
    opens_with(&s, "build ") || opens_with(&s, "create ") || opens_with(&s, "make ") || opens_with(
        &s,
        "write ",
    ) || opens_with(&s, "add ") || opens_with(&s, "implement ") || opens_with(&s, "please build ")
        || opens_with(&s, "please create ") || opens_with(&s, "please make ") || opens_with(
        &s,
        "please write ",
    ) || opens_with(&s, "please implement ") || opens_with(&s, "can you build ") || opens_with(
        &s,
        "can you create ",
    ) || opens_with(&s, "can you make ") || opens_with(&s, "can you write ") || opens_with(
        &s,
        "can you implement ",
    )
}

/// The words of `term` occur as consecutive words of `statement` (a term
/// without words never does).
pub open spec fn has_task_term(statement: Seq<char>, term: Seq<char>) -> bool {
    let tokens = ws_tokens(statement);
    let phrase = ws_tokens(term);
    phrase.len() > 0 && exists|i: int|
        0 <= i && i + phrase.len() <= tokens.len() && #[trigger] tokens.subrange(
            i,
            i + phrase.len(),
        ) == phrase
}

fn words_at(tokens: &Vec<Vec<char>>, phrase: &Vec<Vec<char>>, i: usize) -> (r: bool)
    requires
        i + phrase@.len() <= tokens@.len(),
    ensures
        r == (tokens@.map_values(|t: Vec<char>| t@).subrange(i as int, i + phrase@.len())
            == phrase@.map_values(|t: Vec<char>| t@)),
{
    let ghost tv = tokens@.map_values(|t: Vec<char>| t@);
    let ghost pv = phrase@.map_values(|t: Vec<char>| t@);
    let n = tokens.len();
    let mut k: usize = 0;
    while k < phrase.len()
        invariant
            k <= phrase@.len(),
            n == tokens@.len(),
            i + phrase@.len() <= tokens@.len(),
            tv == tokens@.map_values(|t: Vec<char>| t@),
            pv == phrase@.map_values(|t: Vec<char>| t@),
            forall|j: int| 0 <= j < k ==> tv[i + j] == pv[j],
        decreases phrase.len() - k,
    {
        if !chars_eq(tokens[i + k].as_slice(), phrase[k].as_slice()) {
            assert(tv.subrange(i as int, i + phrase@.len())[k as int] != pv[k as int]);
            return false;
        }
        k = k + 1;
    }
    assert(tv.subrange(i as int, i + phrase@.len()) =~= pv);
    true
}

/// Whether `term` occurs as whole words in the normalised `statement`.
pub fn contains_normalized_task_term(statement: &str, term: &str) -> (r: bool)
    ensures
        r == has_task_term(statement@, term@),
{
    let sc = chars_of(statement);
    let tc = chars_of(term);
    let tokens = split_whitespace_chars(&sc);
    let phrase = split_whitespace_chars(&tc);
    let ghost tv = tokens@.map_values(|t: Vec<char>| t@);
    let ghost pv = phrase@.map_values(|t: Vec<char>| t@);
    if phrase.len() == 0 || phrase.len() > tokens.len() {
        proof {
            if phrase.len() > 0 {
                assert forall|i: int|
                    0 <= i && i + pv.len() <= tv.len() implies #[trigger] tv.subrange(
                    i,
                    i + pv.len(),
                ) != pv by {}
            }
        }
        return false;
    }
    let n = tokens.len();
    let last = n - phrase.len();
    let mut i: usize = 0;
    while i <= last
        invariant
            n == tokens@.len(),
            last == tokens@.len() - phrase@.len(),
            phrase@.len() > 0,
            i <= last + 1,
            tv == tokens@.map_values(|t: Vec<char>| t@),
            pv == phrase@.map_values(|t: Vec<char>| t@),
            tv == ws_tokens(statement@),
            pv == ws_tokens(term@),
            forall|j: int| 0 <= j < i ==> #[trigger] tv.subrange(j, j + pv.len()) != pv,
        decreases last + 1 - i,
    {
        if words_at(&tokens, &phrase, i) {
            return true;
        }
        i = i + 1;
    }
    assert forall|j: int| 0 <= j && j + pv.len() <= tv.len() implies #[trigger] tv.subrange(
        j,
        j + pv.len(),
    ) != pv by {}
    false
}

/// An error that does not block completion once the work succeeded: a
/// failed patch attempt.
pub open spec fn nonessential_error(error: Seq<char>) -> bool {
    let lower = lowercase_of(error);
    contains_seq(lower, "hash mismatch"@) || contains_seq(lower, "text not found"@) || contains_seq(
        lower,
        "cardinality"@,
    ) || contains_seq(lower, "apply_patch"@) || contains_seq(lower, "patch"@)
}

/// After a successful slice of work, an error is ignored exactly when its
/// lowercase text speaks of a hash mismatch, text not found, cardinality,
/// apply_patch or a patch.
pub proof fn law_nonessential_errors(error: Seq<char>)
    ensures
        nonessential_error(error) <==> ({
            let l = lowercase_of(error);
            contains_seq(l, "hash mismatch"@) || contains_seq(l, "text not found"@)
                || contains_seq(l, "cardinality"@) || contains_seq(l, "apply_patch"@)
                || contains_seq(l, "patch"@)
        }),
{
}

/// Whether an error can be ignored after a successful slice of work.
pub fn is_nonessential_post_success_error(error: &str) -> (r: bool)
    ensures
        r == nonessential_error(error@),
{
    let lower = to_lowercase(error);
    let l = lower.as_str();
    str_contains(l, "hash mismatch") || str_contains(l, "text not found") || str_contains(
        l,
        "cardinality",
    ) || str_contains(l, "apply_patch") || str_contains(l, "patch")
}

/// The task asks to finish only once the tests pass.
pub open spec fn requests_validation_finalization(task: Seq<char>) -> bool {
    let t = lowercase_of(task);
    contains_seq(t, "complete only after cargo test passes"@) || contains_seq(
        t,
        "complete after cargo test passes"@,
    ) || contains_seq(t, "only after cargo test passes"@) || contains_seq(
        t,
        "complete only after cargo check and cargo test pass"@,
    ) || contains_seq(t, "complete after cargo check and cargo test pass"@) || contains_seq(
        t,
        "only after cargo check and cargo test pass"@,
    )
}

pub fn task_requests_validation_finalization(task: &str) -> (r: bool)
    ensures
        r == requests_validation_finalization(task@),
{
    let lower = to_lowercase(task);
    let t = lower.as_str();
    str_contains(t, "complete only after cargo test passes") || str_contains(
        t,
        "complete after cargo test passes",
    ) || str_contains(t, "only after cargo test passes") || str_contains(
        t,
        "complete only after cargo check and cargo test pass",
    ) || str_contains(t, "complete after cargo check and cargo test pass") || str_contains(
        t,
        "only after cargo check and cargo test pass",
    )
}

/// The task asks for `cargo check` as well as passing tests.
pub open spec fn requests_cargo_check(task: Seq<char>) -> bool {
    let t = lowercase_of(task);
    contains_seq(t, "cargo check"@) && (contains_seq(t, "cargo test pass"@) || contains_seq(
        t,
        "cargo test passes"@,
    ))
}

/// A task asks to finish only after the tests pass exactly when its
/// lowercase text says "only after" or "complete (only) after" cargo test
/// passes, or cargo check and cargo test pass; it also asks for cargo check
/// exactly when it mentions cargo check and cargo test passing.
pub proof fn law_finalization_requests(task: Seq<char>)
    ensures
        requests_validation_finalization(task) <==> ({
            let t = lowercase_of(task);
            contains_seq(t, "complete only after cargo test passes"@) || contains_seq(
                t,
                "complete after cargo test passes"@,
            ) || contains_seq(t, "only after cargo test passes"@) || contains_seq(
                t,
                "complete only after cargo check and cargo test pass"@,
            ) || contains_seq(t, "complete after cargo check and cargo test pass"@)
                || contains_seq(t, "only after cargo check and cargo test pass"@)
        }),
        requests_cargo_check(task) <==> ({
            let t = lowercase_of(task);
            contains_seq(t, "cargo check"@) && (contains_seq(t, "cargo test pass"@)
                || contains_seq(t, "cargo test passes"@))
        }),
{
}

pub fn task_requests_cargo_check(task: &str) -> (r: bool)
    ensures
        r == requests_cargo_check(task@),
{
    let lower = to_lowercase(task);
    let t = lower.as_str();
    str_contains(t, "cargo check") && (str_contains(t, "cargo test pass") || str_contains(
        t,
        "cargo test passes",
    ))
}

/// A character kept at the ends of a file-name token.
pub open spec fn name_char(c: char) -> bool {
    unicode_alphanumeric(c) || c == '.' || c == '_' || c == '-' || c == '/'
}

pub open spec fn skip_front(t: Seq<char>) -> Seq<char>
    decreases t.len(),
{
    if t.len() > 0 && !name_char(t[0]) {
        skip_front(t.drop_first())
    } else {
        t
    }
}

pub open spec fn skip_back(t: Seq<char>) -> Seq<char>
    decreases t.len(),
{
    if t.len() > 0 && !name_char(t.last()) {
        skip_back(t.drop_last())
    } else {
        t
    }
}

/// A token with the characters that cannot belong to a file name trimmed
/// from both ends.
pub open spec fn trim_name(t: Seq<char>) -> Seq<char> {
    skip_back(skip_front(t))
}

fn is_name_char(c: char) -> (r: bool)
    ensures
        r == name_char(c),
{
    char_is_alphanumeric(c) || c == '.' || c == '_' || c == '-' || c == '/'
}

fn trim_name_chars(t: &[char]) -> (r: Vec<char>)
    ensures
        r@ == trim_name(t@),
{
    let n = t.len();
    let mut a: usize = 0;
    assert(t@.subrange(0, n as int) =~= t@);
    while a < n && !is_name_char(t[a])
        invariant
            a <= n,
            n == t@.len(),
            skip_front(t@) == skip_front(t@.subrange(a as int, n as int)),
        decreases n - a,
    {
        assert(t@.subrange(a as int, n as int).drop_first() =~= t@.subrange(a + 1, n as int));
        a = a + 1;
    }
    assert(skip_front(t@) == t@.subrange(a as int, n as int));
    let mut b: usize = n;
    while b > a && !is_name_char(t[b - 1])
        invariant
            a <= b <= n,
            n == t@.len(),
            skip_back(t@.subrange(a as int, n as int)) == skip_back(t@.subrange(a as int, b as int)),
        decreases b - a,
    {
        assert(t@.subrange(a as int, b as int).drop_last() =~= t@.subrange(a as int, b - 1));
        b = b - 1;
    }
    assert(skip_back(t@.subrange(a as int, b as int)) == t@.subrange(a as int, b as int));
    let mut out: Vec<char> = Vec::new();
    let mut k: usize = a;
    while k < b
        invariant
            a <= k <= b <= n,
            n == t@.len(),
            out@ == t@.subrange(a as int, k as int),
        decreases b - k,
    {
        out.push(t[k]);
        k = k + 1;
        assert(out@ =~= t@.subrange(a as int, k as int));
    }
    out
}

/// The lowercase token ends with one of the source or document extensions.
pub open spec fn has_known_extension(lower: Seq<char>) -> bool {
    ends_with_seq(lower, ".md"@) || ends_with_seq(lower, ".txt"@) || ends_with_seq(lower, ".py"@)
        || ends_with_seq(lower, ".sh"@) || ends_with_seq(lower, ".js"@) || ends_with_seq(
        lower,
        ".ts"@,
    ) || ends_with_seq(lower, ".json"@) || ends_with_seq(lower, ".toml"@) || ends_with_seq(
        lower,
        ".rs"@,
    ) || ends_with_seq(lower, ".html"@) || ends_with_seq(lower, ".css"@)
}

/// Some word of the reason, trimmed to file-name characters and
/// lowercased, ends with a known extension.
pub open spec fn names_a_file(reason: Seq<char>) -> bool {
    exists|i: int|
        0 <= i < ws_tokens(reason).len() && has_known_extension(
            lowercase_of(trim_name(#[trigger] ws_tokens(reason)[i])),
        )
}

fn closes_with(s: &[char], p: &str) -> (r: bool)
    ensures
        r == ends_with_seq(s@, p@),
{
    let pc = chars_of(p);
    chars_ends_with(s, &pc)
}

fn known_extension(lower: &[char]) -> (r: bool)
    ensures
        r == has_known_extension(lower@),
{
    closes_with(lower, ".md") || closes_with(lower, ".txt") || closes_with(lower, ".py")
        || closes_with(lower, ".sh") || closes_with(lower, ".js") || closes_with(lower, ".ts")
        || closes_with(lower, ".json") || closes_with(lower, ".toml") || closes_with(lower, ".rs")
        || closes_with(lower, ".html") || closes_with(lower, ".css")
}

/// Whether some word of the reason names a file by its extension.
pub fn has_file_name_reference(reason: &str) -> (r: bool)
    ensures
        r == names_a_file(reason@),
{
    let chars = chars_of(reason);
    let tokens = split_whitespace_chars(&chars);
    let ghost tv = tokens@.map_values(|t: Vec<char>| t@);
    let mut i: usize = 0;
    while i < tokens.len()
        invariant
            i <= tokens@.len(),
            tv == tokens@.map_values(|t: Vec<char>| t@),
            tv == ws_tokens(reason@),
            forall|j: int|
                0 <= j < i ==> !has_known_extension(lowercase_of(trim_name(#[trigger] tv[j]))),
        decreases tokens.len() - i,
    {
        let trimmed = trim_name_chars(tokens[i].as_slice());
        let text = crate::text::string_from_chars(&trimmed);
        let lower = to_lowercase(text.as_str());
        let lc = chars_of(lower.as_str());
        if known_extension(&lc) {
            assert(has_known_extension(lowercase_of(trim_name(tv[i as int]))));
            return true;
        }
        i = i + 1;
    }
    false
}

/// The reason points at something observable: a path, a file name, a
/// line, a function or a concrete content change.
pub open spec fn observable_reason(reason: Seq<char>) -> bool {
    contains_seq(reason, "/"@) || contains_seq(reason, "\\"@) || names_a_file(reason)
        || contains_seq(reason, "line "@) || contains_seq(reason, "Line "@) || contains_seq(
        reason,
        "fn "@,
    ) || contains_seq(reason, "function"@) || contains_seq(reason, "contains"@) || contains_seq(
        reason,
        "updated"@,
    )
}

/// Whether a completion reason references observable state.
pub fn references_observable_state(reason: &str) -> (r: bool)
    ensures
        r == observable_reason(reason@),
{
    str_contains(reason, "/") || str_contains(reason, "\\") || has_file_name_reference(reason)
        || str_contains(reason, "line ") || str_contains(reason, "Line ") || str_contains(
        reason,
        "fn ",
    ) || str_contains(reason, "function") || str_contains(reason, "contains") || str_contains(
        reason,
        "updated",
    )
}

// ===========================================================================
// Task markers and paths
// ===========================================================================

pub open spec fn trim_pred(ws: bool) -> spec_fn(char) -> bool {
    |c: char| if ws { crate::text::unicode_whitespace(c) } else { c == ',' || c == '.' }
}

pub open spec fn drop_front(t: Seq<char>, ws: bool) -> Seq<char>
    decreases t.len(),
{
    if t.len() > 0 && (trim_pred(ws))(t[0]) {
        drop_front(t.drop_first(), ws)
    } else {
        t
    }
}

pub open spec fn drop_back(t: Seq<char>, ws: bool) -> Seq<char>
    decreases t.len(),
{
    if t.len() > 0 && (trim_pred(ws))(t.last()) {
        drop_back(t.drop_last(), ws)
    } else {
        t
    }
}

/// `t` with whitespace (`ws`) or commas and dots (`!ws`) trimmed from both
/// ends.
pub open spec fn trim_where(t: Seq<char>, ws: bool) -> Seq<char> {
    drop_back(drop_front(t, ws), ws)
}

fn trimmed_char(c: char, ws: bool) -> (r: bool)
    ensures
        r == (trim_pred(ws))(c),
{
    if ws {
        crate::text::char_is_whitespace(c)
    } else {
        c == ',' || c == '.'
    }
}

fn trim_chars(t: &[char], ws: bool) -> (r: Vec<char>)
    ensures
        r@ == trim_where(t@, ws),
{
    let n = t.len();
    let mut a: usize = 0;
    assert(t@.subrange(0, n as int) =~= t@);
    while a < n && trimmed_char(t[a], ws)
        invariant
            a <= n,
            n == t@.len(),
            drop_front(t@, ws) == drop_front(t@.subrange(a as int, n as int), ws),
        decreases n - a,
    {
        assert(t@.subrange(a as int, n as int).drop_first() =~= t@.subrange(a + 1, n as int));
        a = a + 1;
    }
    assert(drop_front(t@, ws) == t@.subrange(a as int, n as int));
    let mut b: usize = n;
    while b > a && trimmed_char(t[b - 1], ws)
        invariant
            a <= b <= n,
            n == t@.len(),
            drop_back(t@.subrange(a as int, n as int), ws) == drop_back(
                t@.subrange(a as int, b as int),
                ws,
            ),
        decreases b - a,
    {
        assert(t@.subrange(a as int, b as int).drop_last() =~= t@.subrange(a as int, b - 1));
        b = b - 1;
    }
    assert(drop_back(t@.subrange(a as int, b as int), ws) == t@.subrange(a as int, b as int));
    let mut out: Vec<char> = Vec::new();
    let mut k: usize = a;
    while k < b
        invariant
            a <= k <= b <= n,
            n == t@.len(),
            out@ == t@.subrange(a as int, k as int),
        decreases b - k,
    {
        out.push(t[k]);
        k = k + 1;
        assert(out@ =~= t@.subrange(a as int, k as int));
    }
    out
}

/// Where a value stops in `tail`: at its first `;` or newline, else its end.
pub open spec fn value_end(tail: Seq<char>) -> int {
    let semi = if contains_seq(tail, ";"@) {
        crate::text::first_occurrence(tail, ";"@)
    } else {
        tail.len() as int
    };
    let nl = if contains_seq(tail, "\n"@) {
        crate::text::first_occurrence(tail, "\n"@)
    } else {
        tail.len() as int
    };
    if semi <= nl {
        semi
    } else {
        nl
    }
}

/// The value written after the first occurrence of `marker`: up to the next
/// `;` or newline, trimmed of whitespace and of surrounding commas and dots;
/// absent when the marker is missing or the value is empty.
pub open spec fn task_marker(task: Seq<char>, marker: Seq<char>) -> Option<Seq<char>> {
    if !contains_seq(task, marker) {
        None
    } else {
        let start = crate::text::first_occurrence(task, marker) + marker.len();
        let tail = task.subrange(start, task.len() as int);
        let value = trim_where(trim_where(trim_where(tail.take(value_end(tail)), true), false), true);
        if value.len() == 0 {
            None
        } else {
            Some(value)
        }
    }
}

#[verifier::rlimit(60)]
fn value_stop(tail: &[char]) -> (r: usize)
    ensures
        r == value_end(tail@),
        r <= tail@.len(),
{
    let semi_p = chars_of(";");
    let nl_p = chars_of("\n");
    let semi = match crate::text::find_first(tail, &semi_p) {
        Some(i) => i,
        None => tail.len(),
    };
    let nl = match crate::text::find_first(tail, &nl_p) {
        Some(i) => i,
        None => tail.len(),
    };
    if semi <= nl {
        semi
    } else {
        nl
    }
}

/// The value the task gives after `marker`, if any.
#[verifier::rlimit(60)]
pub fn extract_task_marker(task: &str, marker: &str) -> (r: Option<String>)
    ensures
        r matches Some(v) ==> task_marker(task@, marker@) == Some(v@),
        r is None ==> task_marker(task@, marker@) is None,
{
    let t = chars_of(task);
    let m = chars_of(marker);
    let at = match crate::text::find_first(&t, &m) {
        Some(i) => i,
        None => {
            return None;
        },
    };
    let tn = t.len();
    assert(at + m@.len() <= tn);
    let start = at + m.len();
    let tail = copy_range(&t, start, tn);
    let end = value_stop(&tail);
    let segment = copy_range(&tail, 0, end);
    assert(segment@ =~= tail@.take(end as int));
    let v1 = trim_chars(&segment, true);
    let v2 = trim_chars(&v1, false);
    let v3 = trim_chars(&v2, true);
    if v3.len() == 0 {
        None
    } else {
        Some(crate::text::string_from_chars(&v3))
    }
}

/// Lowercased path text with backslashes turned into slashes.
pub open spec fn normalized_path_text(path: Seq<char>) -> Seq<char> {
    lowercase_of(path.map_values(|c: char| if c == '\\' { '/' } else { c }))
}

/// Normalises path text for comparison: backslashes become slashes and the
/// result is lowercased.
pub fn normalize_path_text(path: &str) -> (r: String)
    ensures
        r@ == normalized_path_text(path@),
{
    let chars = chars_of(path);
    let mut out: Vec<char> = Vec::new();
    let mut i: usize = 0;
    while i < chars.len()
        invariant
            i <= chars@.len(),
            chars@ == path@,
            out@ == path@.map_values(|c: char| if c == '\\' { '/' } else { c }).take(i as int),
        decreases chars.len() - i,
    {
        let c = chars[i];
        if c == '\\' {
            out.push('/');
        } else {
            out.push(c);
        }
        i = i + 1;
        assert(out@ =~= path@.map_values(|c: char| if c == '\\' { '/' } else { c }).take(
            i as int,
        ));
    }
    assert(path@.map_values(|c: char| if c == '\\' { '/' } else { c }).take(
        chars.len() as int,
    ) =~= path@.map_values(|c: char| if c == '\\' { '/' } else { c }));
    let s = crate::text::string_from_chars(&out);
    to_lowercase(s.as_str())
}

/// A written path is the expected artifact: their normalised texts are
/// equal, or the written path ends with `/` and the expected text.
pub open spec fn path_matches(path: Seq<char>, expected: Seq<char>) -> bool {
    let p = normalized_path_text(path);
    let e = normalized_path_text(expected);
    p == e || ends_with_seq(p, "/"@ + e)
}

pub fn path_matches_expected(path: &str, expected: &str) -> (r: bool)
    ensures
        r == path_matches(path@, expected@),
{
    let p = normalize_path_text(path);
    let e = normalize_path_text(expected);
    let pc = chars_of(p.as_str());
    let ec = chars_of(e.as_str());
    let mut suffix = chars_of("/");
    crate::text::append_chars(&mut suffix, &ec);
    chars_eq(&pc, &ec) || chars_ends_with(&pc, &suffix)
}

/// Index of the last `c` in `s`, or -1.
pub open spec fn last_index_of(s: Seq<char>, c: char) -> int
    decreases s.len(),
{
    if s.len() == 0 {
        -1
    } else if s.last() == c {
        s.len() - 1
    } else {
        last_index_of(s.drop_last(), c)
    }
}

fn find_last(s: &[char], c: char) -> (r: Option<usize>)
    ensures
        r matches Some(i) ==> i == last_index_of(s@, c) && i < s@.len(),
        r is None ==> last_index_of(s@, c) == -1,
{
    let mut k: usize = s.len();
    assert(s@.take(k as int) =~= s@);
    while k > 0 && s[k - 1] != c
        invariant
            k <= s@.len(),
            last_index_of(s@, c) == last_index_of(s@.take(k as int), c),
        decreases k,
    {
        assert(s@.take(k as int).drop_last() =~= s@.take(k - 1));
        k = k - 1;
    }
    if k == 0 {
        None
    } else {
        Some(k - 1)
    }
}

/// The last component of a path: the text after its last `/`, absent when
/// that is empty, `.` or `..`.
pub open spec fn file_name_of(path: Seq<char>) -> Option<Seq<char>> {
    let name = path.subrange(last_index_of(path, '/') + 1, path.len() as int);
    if name.len() == 0 || name == "."@ || name == ".."@ {
        None
    } else {
        Some(name)
    }
}

/// The extension of a file name: the text after its last `.`, absent when
/// there is no dot or the only dot leads the name.
pub open spec fn extension_of(name: Seq<char>) -> Option<Seq<char>> {
    let k = last_index_of(name, '.');
    if k <= 0 {
        None
    } else {
        Some(name.subrange(k + 1, name.len() as int))
    }
}

fn copy_range(s: &[char], from: usize, to: usize) -> (r: Vec<char>)
    requires
        from <= to <= s@.len(),
    ensures
        r@ == s@.subrange(from as int, to as int),
{
    let mut out: Vec<char> = Vec::new();
    let mut k: usize = from;
    while k < to
        invariant
            from <= k <= to <= s@.len(),
            out@ == s@.subrange(from as int, k as int),
        decreases to - k,
    {
        out.push(s[k]);
        k = k + 1;
        assert(out@ =~= s@.subrange(from as int, k as int));
    }
    out
}

/// The last component of `path`.
pub fn path_file_name(path: &str) -> (r: Option<String>)
    ensures
        r matches Some(v) ==> file_name_of(path@) == Some(v@),
        r is None ==> file_name_of(path@) is None,
{
    let p = chars_of(path);
    let n = p.len();
    let start = match find_last(&p, '/') {
        Some(i) => i + 1,
        None => 0,
    };
    let name = copy_range(&p, start, p.len());
    let dot = chars_of(".");
    let dots = chars_of("..");
    if name.len() == 0 || chars_eq(&name, &dot) || chars_eq(&name, &dots) {
        None
    } else {
        Some(crate::text::string_from_chars(&name))
    }
}

/// The extension of the file name `name`.
pub fn name_extension(name: &str) -> (r: Option<String>)
    ensures
        r matches Some(v) ==> extension_of(name@) == Some(v@),
        r is None ==> extension_of(name@) is None,
{
    let n = chars_of(name);
    let len = n.len();
    match find_last(&n, '.') {
        Some(k) => {
            if k == 0 {
                None
            } else {
                let e = copy_range(&n, k + 1, len);
                Some(crate::text::string_from_chars(&e))
            }
        },
        None => None,
    }
}

// ===========================================================================
// Written artifacts and implementation surfaces
// ===========================================================================

/// A file the agent wrote, as the completion gate inspects it.
#[derive(Debug, Clone)]
pub struct WrittenArtifact {
    pub path: String,
    pub normalized_path: String,
    pub file_name: String,
    pub extension: String,
    pub content_lower: Option<String>,
}

/// Model of a written artifact.
pub struct WrittenArtifactView {
    pub path: Seq<char>,
    pub normalized_path: Seq<char>,
    pub file_name: Seq<char>,
    pub extension: Seq<char>,
    pub content_lower: Option<Seq<char>>,
}

impl View for WrittenArtifact {
    type V = WrittenArtifactView;

    open spec fn view(&self) -> WrittenArtifactView {
        WrittenArtifactView {
            path: self.path@,
            normalized_path: self.normalized_path@,
            file_name: self.file_name@,
            extension: self.extension@,
            content_lower: match self.content_lower {
                Some(c) => Some(c@),
                None => None,
            },
        }
    }
}

/// The lowercased last component of a path, or empty.
pub open spec fn lowered_file_name(path: Seq<char>) -> Seq<char> {
    match file_name_of(path) {
        Some(n) => lowercase_of(n),
        None => Seq::empty(),
    }
}

/// The lowercased extension of a path's last component, or empty.
pub open spec fn lowered_extension(path: Seq<char>) -> Seq<char> {
    match file_name_of(path) {
        Some(n) => match extension_of(n) {
            Some(e) => lowercase_of(e),
            None => Seq::empty(),
        },
        None => Seq::empty(),
    }
}

/// The artifact record for a path and its optional content.
pub open spec fn artifact_for(path: Seq<char>, content: Option<Seq<char>>) -> WrittenArtifactView {
    WrittenArtifactView {
        path,
        normalized_path: normalized_path_text(path),
        file_name: lowered_file_name(path),
        extension: lowered_extension(path),
        content_lower: match content {
            Some(c) => Some(lowercase_of(c)),
            None => None,
        },
    }
}

fn lowered_name_of(path: &str) -> (r: String)
    ensures
        r@ == lowered_file_name(path@),
{
    match path_file_name(path) {
        Some(n) => to_lowercase(n.as_str()),
        None => String::new(),
    }
}

fn lowered_extension_of(path: &str) -> (r: String)
    ensures
        r@ == lowered_extension(path@),
{
    match path_file_name(path) {
        Some(n) => match name_extension(n.as_str()) {
            Some(e) => to_lowercase(e.as_str()),
            None => String::new(),
        },
        None => String::new(),
    }
}

/// The artifact record for a path and its content, as far as it is known.
pub fn written_artifact(path: &str, content: Option<&str>) -> (r: WrittenArtifact)
    ensures
        r@ == artifact_for(
            path@,
            match content {
                Some(c) => Some(c@),
                None => None,
            },
        ),
{
    WrittenArtifact {
        path: crate::text::to_owned_string(path),
        normalized_path: normalize_path_text(path),
        file_name: lowered_name_of(path),
        extension: lowered_extension_of(path),
        content_lower: match content {
            Some(c) => Some(to_lowercase(c)),
            None => None,
        },
    }
}

/// A path that holds implementation work: a build or process file, a file
/// under a source, app, server, api, auth or migrations directory, or a
/// file with a source, script, markup or configuration extension.
pub open spec fn implementation_surface(path: Seq<char>) -> bool {
    let normalized = normalized_path_text(path);
    let name = lowered_file_name(path);
    let ext = lowered_extension(path);
    (name == "dockerfile"@ || name == "makefile"@ || name == "justfile"@ || name == "procfile"@) || (contains_seq(normalized, "/src/"@) || starts_with_seq(normalized, "src/"@) || contains_seq(normalized, "/app/"@) || starts_with_seq(normalized, "app/"@) || contains_seq(normalized, "/server/"@) || starts_with_seq(normalized, "server/"@) || contains_seq(normalized, "/api/"@) || starts_with_seq(normalized, "api/"@) || contains_seq(normalized, "/auth/"@) || starts_with_seq(normalized, "auth/"@) || contains_seq(normalized, "/migrations/"@) || starts_with_seq(normalized, "migrations/"@)) || ((ext == "py"@ || ext == "js"@ || ext == "ts"@ || ext == "tsx"@ || ext == "jsx"@ || ext == "rs"@ || ext == "go"@ || ext == "java"@ || ext == "kt"@ || ext == "swift"@ || ext == "rb"@ || ext == "php"@ || ext == "cs"@ || ext == "cpp"@ || ext == "c"@ || ext == "h"@ || ext == "hpp"@ || ext == "sql"@ || ext == "sh"@ || ext == "bash"@ || ext == "zsh"@ || ext == "html"@ || ext == "css"@ || ext == "json"@ || ext == "toml"@ || ext == "yaml"@ || ext == "yml"@ || ext == "env"@ || ext == "ini"@ || ext == "cfg"@ || ext == "conf"@))
}

/// A path holds implementation work exactly when its lowercase file name is
/// dockerfile, makefile, justfile or procfile, when it lies in a src, app,
/// server, api, auth or migrations directory, or when its lowercase
/// extension is a source, script, markup or configuration one.
pub proof fn law_implementation_surfaces(path: Seq<char>)
    ensures
        implementation_surface(path) <==> ({
            let name = lowered_file_name(path);
            name == "dockerfile"@ || name == "makefile"@ || name == "justfile"@ || name
                == "procfile"@
        } || {
            let p = normalized_path_text(path);
            contains_seq(p, "/src/"@) || starts_with_seq(p, "src/"@) || contains_seq(p, "/app/"@)
                || starts_with_seq(p, "app/"@) || contains_seq(p, "/server/"@) || starts_with_seq(
                p,
                "server/"@,
            ) || contains_seq(p, "/api/"@) || starts_with_seq(p, "api/"@) || contains_seq(
                p,
                "/auth/"@,
            ) || starts_with_seq(p, "auth/"@) || contains_seq(p, "/migrations/"@)
                || starts_with_seq(p, "migrations/"@)
        } || {
            let e = lowered_extension(path);
            e == "py"@ || e == "js"@ || e == "ts"@ || e == "tsx"@ || e == "jsx"@ || e == "rs"@ || e
                == "go"@ || e == "java"@ || e == "kt"@ || e == "swift"@ || e == "rb"@ || e
                == "php"@ || e == "cs"@ || e == "cpp"@ || e == "c"@ || e == "h"@ || e == "hpp"@
                || e == "sql"@ || e == "sh"@ || e == "bash"@ || e == "zsh"@ || e == "html"@ || e
                == "css"@ || e == "json"@ || e == "toml"@ || e == "yaml"@ || e == "yml"@ || e
                == "env"@ || e == "ini"@ || e == "cfg"@ || e == "conf"@
        }),
{
}

/// Whether `path` is an implementation surface.
pub fn is_implementation_surface(path: &str) -> (r: bool)
    ensures
        r == implementation_surface(path@),
{
    let normalized_s = normalize_path_text(path);
    let normalized = chars_of(normalized_s.as_str());
    let name_s = lowered_name_of(path);
    let name = name_s.as_str();
    if str_eq(name, "dockerfile") || str_eq(name, "makefile") || str_eq(name, "justfile") || str_eq(name, "procfile") {
        return true;
    }
    if chars_contains(&normalized, &chars_of("/src/")) || chars_starts_with(&normalized, &chars_of("src/")) || chars_contains(&normalized, &chars_of("/app/")) || chars_starts_with(&normalized, &chars_of("app/")) || chars_contains(&normalized, &chars_of("/server/")) || chars_starts_with(&normalized, &chars_of("server/")) || chars_contains(&normalized, &chars_of("/api/")) || chars_starts_with(&normalized, &chars_of("api/")) || chars_contains(&normalized, &chars_of("/auth/")) || chars_starts_with(&normalized, &chars_of("auth/")) || chars_contains(&normalized, &chars_of("/migrations/")) || chars_starts_with(&normalized, &chars_of("migrations/")) {
        return true;
    }
    let ext_s = lowered_extension_of(path);
    let ext = ext_s.as_str();
    (str_eq(ext, "py") || str_eq(ext, "js") || str_eq(ext, "ts") || str_eq(ext, "tsx") || str_eq(ext, "jsx") || str_eq(ext, "rs") || str_eq(ext, "go") || str_eq(ext, "java") || str_eq(ext, "kt") || str_eq(ext, "swift") || str_eq(ext, "rb") || str_eq(ext, "php") || str_eq(ext, "cs") || str_eq(ext, "cpp") || str_eq(ext, "c") || str_eq(ext, "h") || str_eq(ext, "hpp") || str_eq(ext, "sql") || str_eq(ext, "sh") || str_eq(ext, "bash") || str_eq(ext, "zsh") || str_eq(ext, "html") || str_eq(ext, "css") || str_eq(ext, "json") || str_eq(ext, "toml") || str_eq(ext, "yaml") || str_eq(ext, "yml") || str_eq(ext, "env") || str_eq(ext, "ini") || str_eq(ext, "cfg") || str_eq(ext, "conf"))
}

/// The artifact's content (lowercased), or empty when it could not be read.
pub open spec fn content_text(a: WrittenArtifactView) -> Seq<char> {
    match a.content_lower {
        Some(c) => c,
        None => Seq::empty(),
    }
}

/// The kind of evidence a required surface asks for.
#[derive(Debug, Clone, Copy, PartialEq, Eq, Structural)]
pub enum SurfaceKind {
    CliEntrypoint,
    CliArgumentFlow,
    AuthLogic,
    AuthIntegration,
    ApiRoute,
    ServerWiring,
    SiteStructure,
    SiteBuildOrServe,
    AppRuntime,
    PersistenceData,
    MigrationDefinition,
    MigrationRunner,
}

/// Whether an artifact supplies the evidence a surface kind asks for.
pub open spec fn surface_satisfied(kind: SurfaceKind, a: WrittenArtifactView) -> bool {
    let c = content_text(a);
    match kind {
        SurfaceKind::CliEntrypoint => cli_entrypoint_spec(a.extension, a.file_name, c),
        SurfaceKind::CliArgumentFlow => contains_seq(c, "argparse"@) || contains_seq(c, "parser.add_argument"@) || contains_seq(c, "sys.argv"@) || contains_seq(c, "click.command"@) || contains_seq(c, "@click"@) || contains_seq(c, "typer."@) || contains_seq(c, "typer("@),
        SurfaceKind::AuthLogic => (contains_seq(a.normalized_path, "auth"@) || contains_seq(a.file_name, "auth"@) || contains_seq(a.normalized_path, "login"@) || contains_seq(a.file_name, "login"@) || contains_seq(a.normalized_path, "session"@) || contains_seq(a.file_name, "session"@)) || (contains_seq(c, "password"@) || contains_seq(c, "hash"@) || contains_seq(c, "jwt"@) || contains_seq(c, "token"@) || contains_seq(c, "session"@) || contains_seq(c, "bcrypt"@) || contains_seq(c, "verify_password"@) || contains_seq(c, "authenticate"@)),
        SurfaceKind::AuthIntegration => (contains_seq(a.normalized_path, "route"@) || contains_seq(a.file_name, "route"@) || contains_seq(a.normalized_path, "routes"@) || contains_seq(a.file_name, "routes"@) || contains_seq(a.normalized_path, "api"@) || contains_seq(a.file_name, "api"@) || contains_seq(a.normalized_path, "middleware"@) || contains_seq(a.file_name, "middleware"@) || contains_seq(a.normalized_path, "server"@) || contains_seq(a.file_name, "server"@)) || (contains_seq(c, "@app."@) || contains_seq(c, "router."@) || contains_seq(c, "app.post"@) || contains_seq(c, "app.use"@) || contains_seq(c, "middleware"@) || contains_seq(c, "login"@) || contains_seq(c, "logout"@) || contains_seq(c, "depends("@) || contains_seq(c, "route"@)),
        SurfaceKind::ApiRoute => (contains_seq(a.normalized_path, "api"@) || contains_seq(a.file_name, "api"@) || contains_seq(a.normalized_path, "route"@) || contains_seq(a.file_name, "route"@) || contains_seq(a.normalized_path, "routes"@) || contains_seq(a.file_name, "routes"@)) || (contains_seq(c, "@app.get"@) || contains_seq(c, "@app.post"@) || contains_seq(c, "@router."@) || contains_seq(c, "router.get"@) || contains_seq(c, "router.post"@) || contains_seq(c, "app.get("@) || contains_seq(c, "app.post("@) || contains_seq(c, "route("@)),
        SurfaceKind::ServerWiring => (contains_seq(a.normalized_path, "main"@) || contains_seq(a.file_name, "main"@) || contains_seq(a.normalized_path, "server"@) || contains_seq(a.file_name, "server"@) || contains_seq(a.normalized_path, "app"@) || contains_seq(a.file_name, "app"@)) && (contains_seq(c, "fastapi("@) || contains_seq(c, "flask("@) || contains_seq(c, "express()"@) || contains_seq(c, "app.listen"@) || contains_seq(c, "uvicorn"@) || contains_seq(c, "http.createserver"@) || contains_seq(c, "if __name__ == \"__main__\""@) || contains_seq(c, "if __name__ == '__main__'"@)),
        SurfaceKind::SiteStructure => (a.extension == "html"@ || a.extension == "css"@ || a.extension == "js"@ || a.extension == "md"@ || a.extension == "mdx"@) && ((contains_seq(a.normalized_path, "index"@) || contains_seq(a.file_name, "index"@) || contains_seq(a.normalized_path, "site"@) || contains_seq(a.file_name, "site"@) || contains_seq(a.normalized_path, "docs"@) || contains_seq(a.file_name, "docs"@) || contains_seq(a.normalized_path, "pages"@) || contains_seq(a.file_name, "pages"@) || contains_seq(a.normalized_path, "public"@) || contains_seq(a.file_name, "public"@)) || (contains_seq(c, "<html"@) || contains_seq(c, "<main"@) || contains_seq(c, "<nav"@) || contains_seq(c, "doctype html"@) || contains_seq(c, "export default"@))),
        SurfaceKind::SiteBuildOrServe => (a.file_name == "package.json"@ || a.file_name == "vite.config.js"@ || a.file_name == "vite.config.ts"@ || a.file_name == "mkdocs.yml"@ || a.file_name == "docusaurus.config.js"@ || a.file_name == "astro.config.mjs"@) || (contains_seq(c, "\"scripts\""@) || contains_seq(c, "\"build\""@) || contains_seq(c, "\"dev\""@) || contains_seq(c, "vite"@) || contains_seq(c, "mkdocs"@) || contains_seq(c, "serve"@)),
        SurfaceKind::AppRuntime => implementation_surface(a.path) && ((contains_seq(a.normalized_path, "app"@) || contains_seq(a.file_name, "app"@) || contains_seq(a.normalized_path, "main"@) || contains_seq(a.file_name, "main"@) || contains_seq(a.normalized_path, "server"@) || contains_seq(a.file_name, "server"@) || contains_seq(a.normalized_path, "src"@) || contains_seq(a.file_name, "src"@)) || (contains_seq(c, "def main"@) || contains_seq(c, "function main"@) || contains_seq(c, "if __name__"@) || contains_seq(c, "class "@) || contains_seq(c, "fastapi("@) || contains_seq(c, "express()"@) || contains_seq(c, "react"@) || contains_seq(c, "render("@))),
        SurfaceKind::PersistenceData => (contains_seq(a.normalized_path, "data"@) || contains_seq(a.file_name, "data"@) || contains_seq(a.normalized_path, "db"@) || contains_seq(a.file_name, "db"@) || contains_seq(a.normalized_path, "database"@) || contains_seq(a.file_name, "database"@) || contains_seq(a.normalized_path, "storage"@) || contains_seq(a.file_name, "storage"@) || contains_seq(a.normalized_path, "store"@) || contains_seq(a.file_name, "store"@) || contains_seq(a.normalized_path, "persistence"@) || contains_seq(a.file_name, "persistence"@)) || (a.extension == "sql"@ || a.extension == "sqlite"@ || a.extension == "db"@) || (contains_seq(c, "sqlite"@) || contains_seq(c, "database"@) || contains_seq(c, "db."@) || contains_seq(c, "connect("@) || contains_seq(c, "open("@) || contains_seq(c, "json.dump"@) || contains_seq(c, "json.load"@) || contains_seq(c, "localstorage"@) || contains_seq(c, "persist"@) || contains_seq(c, "save_"@) || contains_seq(c, "load_"@)),
        SurfaceKind::MigrationDefinition => (a.extension == "sql"@ || a.extension == "py"@ || a.extension == "js"@ || a.extension == "ts"@) && contains_seq(c, "users"@) && (contains_seq(c, "create table"@) || contains_seq(c, "alter table"@) || contains_seq(c, "migration"@) || contains_seq(c, "upgrade"@)),
        SurfaceKind::MigrationRunner => contains_seq(c, "if __name__"@) || contains_seq(c, "def upgrade"@) || contains_seq(c, "def downgrade"@) || contains_seq(c, "alembic"@) || contains_seq(c, "execute("@) || contains_seq(c, "cursor.execute"@) || contains_seq(c, "commit("@) || contains_seq(c, "rollback"@),
    }
}

/// The evidence each required surface accepts from a written artifact
/// (its lowercased content `c`, normalised path and file name): a Python
/// entrypoint guard or `main` for a CLI entrypoint; argument parsing for a
/// CLI argument flow; auth-named files or password, hash, token or session
/// code for auth logic; routes, middleware or login handling for auth
/// integration; route handlers for an API route; a server started from a
/// main, server or app file for server wiring; pages, markup or a site
/// directory for site structure; a build or serve configuration for
/// building or serving a site; runtime code in an implementation file for
/// an app runtime; storage files or storage code for persistence; a users
/// table change for a migration definition; and migration code that runs
/// for a migration runner.
pub proof fn law_surface_evidence(kind: SurfaceKind, a: WrittenArtifactView)
    ensures
        kind == SurfaceKind::CliEntrypoint ==> (surface_satisfied(kind, a) <==> ({
            let c = content_text(a);
            cli_entrypoint_spec(a.extension, a.file_name, c)
        })),
        kind == SurfaceKind::CliArgumentFlow ==> (surface_satisfied(kind, a) <==> ({
            let c = content_text(a);
            contains_seq(c, "argparse"@) || contains_seq(c, "parser.add_argument"@) || contains_seq(c, "sys.argv"@) || contains_seq(c, "click.command"@) || contains_seq(c, "@click"@) || contains_seq(c, "typer."@) || contains_seq(c, "typer("@)
        })),
        kind == SurfaceKind::AuthLogic ==> (surface_satisfied(kind, a) <==> ({
            let c = content_text(a);
            (contains_seq(a.normalized_path, "auth"@) || contains_seq(a.file_name, "auth"@) || contains_seq(a.normalized_path, "login"@) || contains_seq(a.file_name, "login"@) || contains_seq(a.normalized_path, "session"@) || contains_seq(a.file_name, "session"@)) || (contains_seq(c, "password"@) || contains_seq(c, "hash"@) || contains_seq(c, "jwt"@) || contains_seq(c, "token"@) || contains_seq(c, "session"@) || contains_seq(c, "bcrypt"@) || contains_seq(c, "verify_password"@) || contains_seq(c, "authenticate"@))
        })),
        kind == SurfaceKind::AuthIntegration ==> (surface_satisfied(kind, a) <==> ({
            let c = content_text(a);
            (contains_seq(a.normalized_path, "route"@) || contains_seq(a.file_name, "route"@) || contains_seq(a.normalized_path, "routes"@) || contains_seq(a.file_name, "routes"@) || contains_seq(a.normalized_path, "api"@) || contains_seq(a.file_name, "api"@) || contains_seq(a.normalized_path, "middleware"@) || contains_seq(a.file_name, "middleware"@) || contains_seq(a.normalized_path, "server"@) || contains_seq(a.file_name, "server"@)) || (contains_seq(c, "@app."@) || contains_seq(c, "router."@) || contains_seq(c, "app.post"@) || contains_seq(c, "app.use"@) || contains_seq(c, "middleware"@) || contains_seq(c, "login"@) || contains_seq(c, "logout"@) || contains_seq(c, "depends("@) || contains_seq(c, "route"@))
        })),
        kind == SurfaceKind::ApiRoute ==> (surface_satisfied(kind, a) <==> ({
            let c = content_text(a);
            (contains_seq(a.normalized_path, "api"@) || contains_seq(a.file_name, "api"@) || contains_seq(a.normalized_path, "route"@) || contains_seq(a.file_name, "route"@) || contains_seq(a.normalized_path, "routes"@) || contains_seq(a.file_name, "routes"@)) || (contains_seq(c, "@app.get"@) || contains_seq(c, "@app.post"@) || contains_seq(c, "@router."@) || contains_seq(c, "router.get"@) || contains_seq(c, "router.post"@) || contains_seq(c, "app.get("@) || contains_seq(c, "app.post("@) || contains_seq(c, "route("@))
        })),
        kind == SurfaceKind::ServerWiring ==> (surface_satisfied(kind, a) <==> ({
            let c = content_text(a);
            (contains_seq(a.normalized_path, "main"@) || contains_seq(a.file_name, "main"@) || contains_seq(a.normalized_path, "server"@) || contains_seq(a.file_name, "server"@) || contains_seq(a.normalized_path, "app"@) || contains_seq(a.file_name, "app"@)) && (contains_seq(c, "fastapi("@) || contains_seq(c, "flask("@) || contains_seq(c, "express()"@) || contains_seq(c, "app.listen"@) || contains_seq(c, "uvicorn"@) || contains_seq(c, "http.createserver"@) || contains_seq(c, "if __name__ == \"__main__\""@) || contains_seq(c, "if __name__ == '__main__'"@))
        })),
        kind == SurfaceKind::SiteStructure ==> (surface_satisfied(kind, a) <==> ({
            let c = content_text(a);
            (a.extension == "html"@ || a.extension == "css"@ || a.extension == "js"@ || a.extension == "md"@ || a.extension == "mdx"@) && ((contains_seq(a.normalized_path, "index"@) || contains_seq(a.file_name, "index"@) || contains_seq(a.normalized_path, "site"@) || contains_seq(a.file_name, "site"@) || contains_seq(a.normalized_path, "docs"@) || contains_seq(a.file_name, "docs"@) || contains_seq(a.normalized_path, "pages"@) || contains_seq(a.file_name, "pages"@) || contains_seq(a.normalized_path, "public"@) || contains_seq(a.file_name, "public"@)) || (contains_seq(c, "<html"@) || contains_seq(c, "<main"@) || contains_seq(c, "<nav"@) || contains_seq(c, "doctype html"@) || contains_seq(c, "export default"@)))
        })),
        kind == SurfaceKind::SiteBuildOrServe ==> (surface_satisfied(kind, a) <==> ({
            let c = content_text(a);
            (a.file_name == "package.json"@ || a.file_name == "vite.config.js"@ || a.file_name == "vite.config.ts"@ || a.file_name == "mkdocs.yml"@ || a.file_name == "docusaurus.config.js"@ || a.file_name == "astro.config.mjs"@) || (contains_seq(c, "\"scripts\""@) || contains_seq(c, "\"build\""@) || contains_seq(c, "\"dev\""@) || contains_seq(c, "vite"@) || contains_seq(c, "mkdocs"@) || contains_seq(c, "serve"@))
        })),
        kind == SurfaceKind::AppRuntime ==> (surface_satisfied(kind, a) <==> ({
            let c = content_text(a);
            implementation_surface(a.path) && ((contains_seq(a.normalized_path, "app"@) || contains_seq(a.file_name, "app"@) || contains_seq(a.normalized_path, "main"@) || contains_seq(a.file_name, "main"@) || contains_seq(a.normalized_path, "server"@) || contains_seq(a.file_name, "server"@) || contains_seq(a.normalized_path, "src"@) || contains_seq(a.file_name, "src"@)) || (contains_seq(c, "def main"@) || contains_seq(c, "function main"@) || contains_seq(c, "if __name__"@) || contains_seq(c, "class "@) || contains_seq(c, "fastapi("@) || contains_seq(c, "express()"@) || contains_seq(c, "react"@) || contains_seq(c, "render("@)))
        })),
        kind == SurfaceKind::PersistenceData ==> (surface_satisfied(kind, a) <==> ({
            let c = content_text(a);
            (contains_seq(a.normalized_path, "data"@) || contains_seq(a.file_name, "data"@) || contains_seq(a.normalized_path, "db"@) || contains_seq(a.file_name, "db"@) || contains_seq(a.normalized_path, "database"@) || contains_seq(a.file_name, "database"@) || contains_seq(a.normalized_path, "storage"@) || contains_seq(a.file_name, "storage"@) || contains_seq(a.normalized_path, "store"@) || contains_seq(a.file_name, "store"@) || contains_seq(a.normalized_path, "persistence"@) || contains_seq(a.file_name, "persistence"@)) || (a.extension == "sql"@ || a.extension == "sqlite"@ || a.extension == "db"@) || (contains_seq(c, "sqlite"@) || contains_seq(c, "database"@) || contains_seq(c, "db."@) || contains_seq(c, "connect("@) || contains_seq(c, "open("@) || contains_seq(c, "json.dump"@) || contains_seq(c, "json.load"@) || contains_seq(c, "localstorage"@) || contains_seq(c, "persist"@) || contains_seq(c, "save_"@) || contains_seq(c, "load_"@))
        })),
        kind == SurfaceKind::MigrationDefinition ==> (surface_satisfied(kind, a) <==> ({
            let c = content_text(a);
            (a.extension == "sql"@ || a.extension == "py"@ || a.extension == "js"@ || a.extension == "ts"@) && contains_seq(c, "users"@) && (contains_seq(c, "create table"@) || contains_seq(c, "alter table"@) || contains_seq(c, "migration"@) || contains_seq(c, "upgrade"@))
        })),
        kind == SurfaceKind::MigrationRunner ==> (surface_satisfied(kind, a) <==> ({
            let c = content_text(a);
            contains_seq(c, "if __name__"@) || contains_seq(c, "def upgrade"@) || contains_seq(c, "def downgrade"@) || contains_seq(c, "alembic"@) || contains_seq(c, "execute("@) || contains_seq(c, "cursor.execute"@) || contains_seq(c, "commit("@) || contains_seq(c, "rollback"@)
        })),
{
}



pub open spec fn cli_entrypoint_spec(ext: Seq<char>, fname: Seq<char>, c: Seq<char>) -> bool {
    ext == "py"@ && (contains_seq(c, "if __name__ == \"__main__\""@) || contains_seq(
        c,
        "if __name__ == '__main__'"@,
    ) || (fname == "cli.py"@ && contains_seq(c, "def main"@)) || (fname == "main.py"@
        && contains_seq(c, "def main"@)))
}

/// A CLI entrypoint is a Python file with a `__main__` guard (either
/// quote), or a `cli.py` or `main.py` that defines `main`.
pub proof fn law_cli_entrypoints(ext: Seq<char>, fname: Seq<char>, c: Seq<char>)
    ensures
        cli_entrypoint_spec(ext, fname, c) <==> (ext == "py"@ && (contains_seq(
            c,
            "if __name__ == \"__main__\""@,
        ) || contains_seq(c, "if __name__ == '__main__'"@) || ((fname == "cli.py"@ || fname
            == "main.py"@) && contains_seq(c, "def main"@)))),
{
}

fn cli_entrypoint(ext: &str, fname: &str, c: &str) -> (r: bool)
    ensures
        r == cli_entrypoint_spec(ext@, fname@, c@),
{
    let main1 = str_contains(c, "if __name__ == \"__main__\"");
    let main2 = str_contains(c, "if __name__ == '__main__'");
    let def_main = str_contains(c, "def main");
    let is_cli = str_eq(fname, "cli.py");
    let is_main = str_eq(fname, "main.py");
    str_eq(ext, "py") && (main1 || main2 || (is_cli && def_main) || (is_main && def_main))
}

/// A surface a complex implementation task must show evidence for.
#[derive(Debug, Clone, Copy)]
pub struct RequiredSurface {
    pub name: &'static str,
    pub kind: SurfaceKind,
}

impl RequiredSurface {
    pub fn new(name: &'static str, kind: SurfaceKind) -> (r: Self)
        ensures
            r.name == name,
            r.kind == kind,
    {
        RequiredSurface { name, kind }
    }

    /// Whether the artifact supplies this surface.
    #[verifier::rlimit(80)]
    pub fn is_satisfied_by(&self, artifact: &WrittenArtifact) -> (r: bool)
        ensures
            r == surface_satisfied(self.kind, artifact@),
    {
        let c = match &artifact.content_lower {
            Some(text) => text.as_str(),
            None => "",
        };
        proof {
            reveal_strlit("");
            assert(c@ =~= content_text(artifact@));
        }
        let np = artifact.normalized_path.as_str();
        let fname = artifact.file_name.as_str();
        let ext = artifact.extension.as_str();
        match self.kind {
            SurfaceKind::CliEntrypoint => cli_entrypoint(ext, fname, c),
            SurfaceKind::CliArgumentFlow => str_contains(c, "argparse") || str_contains(c, "parser.add_argument") || str_contains(c, "sys.argv") || str_contains(c, "click.command") || str_contains(c, "@click") || str_contains(c, "typer.") || str_contains(c, "typer("),
            SurfaceKind::AuthLogic => (str_contains(np, "auth") || str_contains(fname, "auth") || str_contains(np, "login") || str_contains(fname, "login") || str_contains(np, "session") || str_contains(fname, "session")) || (str_contains(c, "password") || str_contains(c, "hash") || str_contains(c, "jwt") || str_contains(c, "token") || str_contains(c, "session") || str_contains(c, "bcrypt") || str_contains(c, "verify_password") || str_contains(c, "authenticate")),
            SurfaceKind::AuthIntegration => (str_contains(np, "route") || str_contains(fname, "route") || str_contains(np, "routes") || str_contains(fname, "routes") || str_contains(np, "api") || str_contains(fname, "api") || str_contains(np, "middleware") || str_contains(fname, "middleware") || str_contains(np, "server") || str_contains(fname, "server")) || (str_contains(c, "@app.") || str_contains(c, "router.") || str_contains(c, "app.post") || str_contains(c, "app.use") || str_contains(c, "middleware") || str_contains(c, "login") || str_contains(c, "logout") || str_contains(c, "depends(") || str_contains(c, "route")),
            SurfaceKind::ApiRoute => (str_contains(np, "api") || str_contains(fname, "api") || str_contains(np, "route") || str_contains(fname, "route") || str_contains(np, "routes") || str_contains(fname, "routes")) || (str_contains(c, "@app.get") || str_contains(c, "@app.post") || str_contains(c, "@router.") || str_contains(c, "router.get") || str_contains(c, "router.post") || str_contains(c, "app.get(") || str_contains(c, "app.post(") || str_contains(c, "route(")),
            SurfaceKind::ServerWiring => (str_contains(np, "main") || str_contains(fname, "main") || str_contains(np, "server") || str_contains(fname, "server") || str_contains(np, "app") || str_contains(fname, "app")) && (str_contains(c, "fastapi(") || str_contains(c, "flask(") || str_contains(c, "express()") || str_contains(c, "app.listen") || str_contains(c, "uvicorn") || str_contains(c, "http.createserver") || str_contains(c, "if __name__ == \"__main__\"") || str_contains(c, "if __name__ == '__main__'")),
            SurfaceKind::SiteStructure => (str_eq(ext, "html") || str_eq(ext, "css") || str_eq(ext, "js") || str_eq(ext, "md") || str_eq(ext, "mdx")) && ((str_contains(np, "index") || str_contains(fname, "index") || str_contains(np, "site") || str_contains(fname, "site") || str_contains(np, "docs") || str_contains(fname, "docs") || str_contains(np, "pages") || str_contains(fname, "pages") || str_contains(np, "public") || str_contains(fname, "public")) || (str_contains(c, "<html") || str_contains(c, "<main") || str_contains(c, "<nav") || str_contains(c, "doctype html") || str_contains(c, "export default"))),
            SurfaceKind::SiteBuildOrServe => (str_eq(fname, "package.json") || str_eq(fname, "vite.config.js") || str_eq(fname, "vite.config.ts") || str_eq(fname, "mkdocs.yml") || str_eq(fname, "docusaurus.config.js") || str_eq(fname, "astro.config.mjs")) || (str_contains(c, "\"scripts\"") || str_contains(c, "\"build\"") || str_contains(c, "\"dev\"") || str_contains(c, "vite") || str_contains(c, "mkdocs") || str_contains(c, "serve")),
            SurfaceKind::AppRuntime => is_implementation_surface(artifact.path.as_str()) && ((str_contains(np, "app") || str_contains(fname, "app") || str_contains(np, "main") || str_contains(fname, "main") || str_contains(np, "server") || str_contains(fname, "server") || str_contains(np, "src") || str_contains(fname, "src")) || (str_contains(c, "def main") || str_contains(c, "function main") || str_contains(c, "if __name__") || str_contains(c, "class ") || str_contains(c, "fastapi(") || str_contains(c, "express()") || str_contains(c, "react") || str_contains(c, "render("))),
            SurfaceKind::PersistenceData => (str_contains(np, "data") || str_contains(fname, "data") || str_contains(np, "db") || str_contains(fname, "db") || str_contains(np, "database") || str_contains(fname, "database") || str_contains(np, "storage") || str_contains(fname, "storage") || str_contains(np, "store") || str_contains(fname, "store") || str_contains(np, "persistence") || str_contains(fname, "persistence")) || (str_eq(ext, "sql") || str_eq(ext, "sqlite") || str_eq(ext, "db")) || (str_contains(c, "sqlite") || str_contains(c, "database") || str_contains(c, "db.") || str_contains(c, "connect(") || str_contains(c, "open(") || str_contains(c, "json.dump") || str_contains(c, "json.load") || str_contains(c, "localstorage") || str_contains(c, "persist") || str_contains(c, "save_") || str_contains(c, "load_")),
            SurfaceKind::MigrationDefinition => (str_eq(ext, "sql") || str_eq(ext, "py") || str_eq(ext, "js") || str_eq(ext, "ts")) && str_contains(c, "users") && (str_contains(c, "create table") || str_contains(c, "alter table") || str_contains(c, "migration") || str_contains(c, "upgrade")),
            SurfaceKind::MigrationRunner => str_contains(c, "if __name__") || str_contains(c, "def upgrade") || str_contains(c, "def downgrade") || str_contains(c, "alembic") || str_contains(c, "execute(") || str_contains(c, "cursor.execute") || str_contains(c, "commit(") || str_contains(c, "rollback"),
        }
    }
}

/// The paths the agent wrote: the written-file set, or when that is empty
/// the paths of the recorded changes.
pub open spec fn written_path_list(state: AgentState) -> Seq<Seq<char>> {
    if state.files_written@.len() > 0 {
        state.files_written@
    } else {
        state.change_history@.map_values(|c: ChangeRecord| c.mutation.path@)
    }
}

fn written_path_texts(state: &AgentState) -> (r: Vec<String>)
    ensures
        r@.map_values(|s: String| s@) == written_path_list(*state),
{
    let mut out: Vec<String> = Vec::new();
    if state.files_written.len() > 0 {
        let n = state.files_written.len();
        let mut i: usize = 0;
        while i < n
            invariant
                i <= n,
                n == state.files_written@.len(),
                out@.map_values(|s: String| s@) == state.files_written@.take(i as int),
            decreases n - i,
        {
            let p = crate::text::to_owned_string(state.files_written.item_at(i));
            let ghost before = out@.map_values(|s: String| s@);
            let ghost pv = p@;
            out.push(p);
            assert(out@.map_values(|s: String| s@) =~= before.push(pv));
            i = i + 1;
            assert(before.push(pv) =~= state.files_written@.take(i as int));
        }
        assert(state.files_written@.take(n as int) =~= state.files_written@);
    } else {
        let ghost all = state.change_history@.map_values(|c: ChangeRecord| c.mutation.path@);
        let mut i: usize = 0;
        while i < state.change_history.len()
            invariant
                i <= state.change_history@.len(),
                all == state.change_history@.map_values(|c: ChangeRecord| c.mutation.path@),
                out@.map_values(|s: String| s@) == all.take(i as int),
            decreases state.change_history.len() - i,
        {
            let p = crate::text::to_owned_string(state.change_history[i].mutation.path.as_str());
            let ghost before = out@.map_values(|s: String| s@);
            let ghost pv = p@;
            out.push(p);
            assert(out@.map_values(|s: String| s@) =~= before.push(pv));
            i = i + 1;
            assert(before.push(pv) =~= all.take(i as int));
        }
        assert(all.take(state.change_history.len() as int) =~= all);
    }
    out
}

/// The written paths as reported in messages: sorted, `(none)` when there
/// are none.
pub open spec fn reported_paths(state: AgentState) -> Seq<Seq<char>> {
    let list = written_path_list(state);
    sort_seqs(if list.len() == 0 { seq!["(none)"@] } else { list })
}

/// The written paths as reported in messages.
pub fn written_paths(state: &AgentState) -> (r: Vec<String>)
    ensures
        r@.map_values(|s: String| s@) == reported_paths(*state),
{
    let mut list = written_path_texts(state);
    if list.len() == 0 {
        list.push(crate::text::to_owned_string("(none)"));
        assert(list@.map_values(|s: String| s@) =~= seq!["(none)"@]);
    }
    sort_texts(&list)
}

/// Texts joined with a separator.
pub fn join_texts(parts: &Vec<String>, sep: &str) -> (r: String)
    ensures
        r@ == join_seqs(parts@.map_values(|s: String| s@), sep@),
{
    let mut cs: Vec<Vec<char>> = Vec::new();
    let ghost pv = parts@.map_values(|s: String| s@);
    let mut i: usize = 0;
    while i < parts.len()
        invariant
            i <= parts@.len(),
            pv == parts@.map_values(|s: String| s@),
            cs@.map_values(|t: Vec<char>| t@) == pv.take(i as int),
        decreases parts.len() - i,
    {
        let c = chars_of(parts[i].as_str());
        let ghost before = cs@.map_values(|t: Vec<char>| t@);
        let ghost cv = c@;
        cs.push(c);
        assert(cs@.map_values(|t: Vec<char>| t@) =~= before.push(cv));
        i = i + 1;
        assert(before.push(cv) =~= pv.take(i as int));
    }
    assert(pv.take(parts.len() as int) =~= pv);
    let sc = chars_of(sep);
    let joined = join_chars(&cs, &sc);
    crate::text::string_from_chars(&joined)
}

/// The content recorded for a path, if any.
pub open spec fn content_of(contents: PathMap<String>, path: Seq<char>) -> Option<Seq<char>> {
    match contents.lookup(path) {
        Some(c) => Some(c@),
        None => None,
    }
}

fn content_for<'a>(contents: &'a PathMap<String>, path: &str) -> (r: Option<&'a str>)
    ensures
        match r {
            Some(c) => content_of(*contents, path@) == Some(c@),
            None => content_of(*contents, path@) is None,
        },
{
    match contents.get(path) {
        Some(c) => Some(c.as_str()),
        None => None,
    }
}

/// One artifact record per written path, with the known contents.
pub open spec fn artifact_list(state: AgentState, contents: PathMap<String>) -> Seq<WrittenArtifactView> {
    written_path_list(state).map_values(|p: Seq<char>| artifact_for(p, content_of(contents, p)))
}

/// The written artifacts, in the order of `written_path_list`.
pub fn written_artifacts(state: &AgentState, contents: &PathMap<String>) -> (r: Vec<WrittenArtifact>)
    ensures
        r@.map_values(|a: WrittenArtifact| a@) == artifact_list(*state, *contents),
{
    let paths = written_path_texts(state);
    let ghost pv = paths@.map_values(|s: String| s@);
    let ghost all = artifact_list(*state, *contents);
    let mut out: Vec<WrittenArtifact> = Vec::new();
    let mut i: usize = 0;
    while i < paths.len()
        invariant
            i <= paths@.len(),
            pv == paths@.map_values(|s: String| s@),
            pv == written_path_list(*state),
            all == artifact_list(*state, *contents),
            out@.map_values(|a: WrittenArtifact| a@) == all.take(i as int),
        decreases paths.len() - i,
    {
        let a = written_artifact(paths[i].as_str(), content_for(contents, paths[i].as_str()));
        let ghost before = out@.map_values(|a: WrittenArtifact| a@);
        let ghost av = a@;
        assert(av == all[i as int]);
        out.push(a);
        assert(out@.map_values(|a: WrittenArtifact| a@) =~= before.push(av));
        i = i + 1;
        assert(before.push(av) =~= all.take(i as int));
    }
    assert(all.take(paths.len() as int) =~= all);
    out
}

// ===========================================================================
// Complex implementation tasks
// ===========================================================================

/// Kinds of complex implementation work.
#[derive(Debug, Clone, Copy, PartialEq, Eq, Structural)]
pub enum ComplexKind {
    AuthSystem,
    Api,
    Migration,
    Site,
    PersistenceApp,
    CliApp,
    AppTooling,
    WorkingSlice,
}

/// The complex task a statement asks for: it must open with a creation
/// verb, then the first matching group of terms decides the kind.
pub open spec fn complex_kind_of(task: Seq<char>) -> Option<ComplexKind> {
    let n = normalized_task(task);
    if !creation_verb(n) {
        None
    } else if has_task_term(n, "auth"@) || has_task_term(n, "authentication"@) || has_task_term(n, "authorization"@) || has_task_term(n, "login"@) || has_task_term(n, "oauth"@) {
        Some(ComplexKind::AuthSystem)
    } else if has_task_term(n, "rest api"@) || has_task_term(n, "api"@) || has_task_term(n, "endpoint"@) || has_task_term(n, "server"@) {
        Some(ComplexKind::Api)
    } else if has_task_term(n, "migration"@) || has_task_term(n, "migrate"@) || has_task_term(n, "schema"@) || has_task_term(n, "database"@) || has_task_term(n, "db"@) {
        Some(ComplexKind::Migration)
    } else if has_task_term(n, "docs site"@) || has_task_term(n, "site"@) || has_task_term(n, "website"@) {
        Some(ComplexKind::Site)
    } else if (has_task_term(n, "persistence"@) || has_task_term(n, "persistent"@) || has_task_term(n, "persist"@)) && (has_task_term(n, "app"@) || has_task_term(n, "application"@) || has_task_term(n, "system"@) || has_task_term(n, "tool"@)) {
        Some(ComplexKind::PersistenceApp)
    } else if has_task_term(n, "cli app"@) || has_task_term(n, "cli"@) || has_task_term(n, "command line"@) {
        Some(ComplexKind::CliApp)
    } else if has_task_term(n, "cli app"@) || has_task_term(n, "app"@) || has_task_term(n, "application"@) || has_task_term(n, "tool"@) || has_task_term(n, "tooling"@) {
        Some(ComplexKind::AppTooling)
    } else if has_task_term(n, "architecture"@) || has_task_term(n, "integrate"@) || has_task_term(n, "integration"@) || has_task_term(n, "persistence"@) || has_task_term(n, "persistent"@) || has_task_term(n, "persist"@) || has_task_term(n, "wire"@) || has_task_term(n, "wiring"@) || has_task_term(n, "multi file"@) || has_task_term(n, "multi-file"@) || has_task_term(n, "multiple files"@) || has_task_term(n, "system"@) {
        Some(ComplexKind::WorkingSlice)
    } else {
        None
    }
}

/// A task is a complex implementation only when it opens with a creation
/// verb; then the first group of terms it uses decides the kind: auth
/// terms an auth system; API terms an API; migration or database terms a
/// migration; site terms a site; persistence with an app, system or tool a
/// persistence app; CLI terms a CLI app; app or tool terms application
/// tooling; architecture, integration, persistence, wiring, multi-file or
/// system terms a working slice.  Without any of them it is no complex
/// task.
pub proof fn law_complex_task_kinds(task: Seq<char>)
    ensures
        ({
            let n = normalized_task(task);
            creation_verb(n) && (has_task_term(n, "auth"@) || has_task_term(n, "authentication"@) || has_task_term(n, "authorization"@) || has_task_term(n, "login"@) || has_task_term(n, "oauth"@))
        }) ==> complex_kind_of(task) == Some(ComplexKind::AuthSystem),
        ({
            let n = normalized_task(task);
            creation_verb(n) && !(has_task_term(n, "auth"@) || has_task_term(n, "authentication"@) || has_task_term(n, "authorization"@) || has_task_term(n, "login"@) || has_task_term(n, "oauth"@)) && (has_task_term(n, "rest api"@) || has_task_term(n, "api"@) || has_task_term(n, "endpoint"@) || has_task_term(n, "server"@))
        }) ==> complex_kind_of(task) == Some(ComplexKind::Api),
        ({
            let n = normalized_task(task);
            creation_verb(n) && !(has_task_term(n, "auth"@) || has_task_term(n, "authentication"@) || has_task_term(n, "authorization"@) || has_task_term(n, "login"@) || has_task_term(n, "oauth"@)) && !(has_task_term(n, "rest api"@) || has_task_term(n, "api"@) || has_task_term(n, "endpoint"@) || has_task_term(n, "server"@)) && (has_task_term(n, "migration"@) || has_task_term(n, "migrate"@) || has_task_term(n, "schema"@) || has_task_term(n, "database"@) || has_task_term(n, "db"@))
        }) ==> complex_kind_of(task) == Some(ComplexKind::Migration),
        ({
            let n = normalized_task(task);
            creation_verb(n) && !(has_task_term(n, "auth"@) || has_task_term(n, "authentication"@) || has_task_term(n, "authorization"@) || has_task_term(n, "login"@) || has_task_term(n, "oauth"@)) && !(has_task_term(n, "rest api"@) || has_task_term(n, "api"@) || has_task_term(n, "endpoint"@) || has_task_term(n, "server"@)) && !(has_task_term(n, "migration"@) || has_task_term(n, "migrate"@) || has_task_term(n, "schema"@) || has_task_term(n, "database"@) || has_task_term(n, "db"@)) && (has_task_term(n, "docs site"@) || has_task_term(n, "site"@) || has_task_term(n, "website"@))
        }) ==> complex_kind_of(task) == Some(ComplexKind::Site),
        ({
            let n = normalized_task(task);
            creation_verb(n) && !(has_task_term(n, "auth"@) || has_task_term(n, "authentication"@) || has_task_term(n, "authorization"@) || has_task_term(n, "login"@) || has_task_term(n, "oauth"@)) && !(has_task_term(n, "rest api"@) || has_task_term(n, "api"@) || has_task_term(n, "endpoint"@) || has_task_term(n, "server"@)) && !(has_task_term(n, "migration"@) || has_task_term(n, "migrate"@) || has_task_term(n, "schema"@) || has_task_term(n, "database"@) || has_task_term(n, "db"@)) && !(has_task_term(n, "docs site"@) || has_task_term(n, "site"@) || has_task_term(n, "website"@)) && ((has_task_term(n, "persistence"@) || has_task_term(n, "persistent"@) || has_task_term(n, "persist"@)) && (has_task_term(n, "app"@) || has_task_term(n, "application"@) || has_task_term(n, "system"@) || has_task_term(n, "tool"@)))
        }) ==> complex_kind_of(task) == Some(ComplexKind::PersistenceApp),
        ({
            let n = normalized_task(task);
            creation_verb(n) && !(has_task_term(n, "auth"@) || has_task_term(n, "authentication"@) || has_task_term(n, "authorization"@) || has_task_term(n, "login"@) || has_task_term(n, "oauth"@)) && !(has_task_term(n, "rest api"@) || has_task_term(n, "api"@) || has_task_term(n, "endpoint"@) || has_task_term(n, "server"@)) && !(has_task_term(n, "migration"@) || has_task_term(n, "migrate"@) || has_task_term(n, "schema"@) || has_task_term(n, "database"@) || has_task_term(n, "db"@)) && !(has_task_term(n, "docs site"@) || has_task_term(n, "site"@) || has_task_term(n, "website"@)) && !((has_task_term(n, "persistence"@) || has_task_term(n, "persistent"@) || has_task_term(n, "persist"@)) && (has_task_term(n, "app"@) || has_task_term(n, "application"@) || has_task_term(n, "system"@) || has_task_term(n, "tool"@))) && (has_task_term(n, "cli app"@) || has_task_term(n, "cli"@) || has_task_term(n, "command line"@))
        }) ==> complex_kind_of(task) == Some(ComplexKind::CliApp),
        ({
            let n = normalized_task(task);
            creation_verb(n) && !(has_task_term(n, "auth"@) || has_task_term(n, "authentication"@) || has_task_term(n, "authorization"@) || has_task_term(n, "login"@) || has_task_term(n, "oauth"@)) && !(has_task_term(n, "rest api"@) || has_task_term(n, "api"@) || has_task_term(n, "endpoint"@) || has_task_term(n, "server"@)) && !(has_task_term(n, "migration"@) || has_task_term(n, "migrate"@) || has_task_term(n, "schema"@) || has_task_term(n, "database"@) || has_task_term(n, "db"@)) && !(has_task_term(n, "docs site"@) || has_task_term(n, "site"@) || has_task_term(n, "website"@)) && !((has_task_term(n, "persistence"@) || has_task_term(n, "persistent"@) || has_task_term(n, "persist"@)) && (has_task_term(n, "app"@) || has_task_term(n, "application"@) || has_task_term(n, "system"@) || has_task_term(n, "tool"@))) && !(has_task_term(n, "cli app"@) || has_task_term(n, "cli"@) || has_task_term(n, "command line"@)) && (has_task_term(n, "cli app"@) || has_task_term(n, "app"@) || has_task_term(n, "application"@) || has_task_term(n, "tool"@) || has_task_term(n, "tooling"@))
        }) ==> complex_kind_of(task) == Some(ComplexKind::AppTooling),
        ({
            let n = normalized_task(task);
            creation_verb(n) && !(has_task_term(n, "auth"@) || has_task_term(n, "authentication"@) || has_task_term(n, "authorization"@) || has_task_term(n, "login"@) || has_task_term(n, "oauth"@)) && !(has_task_term(n, "rest api"@) || has_task_term(n, "api"@) || has_task_term(n, "endpoint"@) || has_task_term(n, "server"@)) && !(has_task_term(n, "migration"@) || has_task_term(n, "migrate"@) || has_task_term(n, "schema"@) || has_task_term(n, "database"@) || has_task_term(n, "db"@)) && !(has_task_term(n, "docs site"@) || has_task_term(n, "site"@) || has_task_term(n, "website"@)) && !((has_task_term(n, "persistence"@) || has_task_term(n, "persistent"@) || has_task_term(n, "persist"@)) && (has_task_term(n, "app"@) || has_task_term(n, "application"@) || has_task_term(n, "system"@) || has_task_term(n, "tool"@))) && !(has_task_term(n, "cli app"@) || has_task_term(n, "cli"@) || has_task_term(n, "command line"@)) && !(has_task_term(n, "cli app"@) || has_task_term(n, "app"@) || has_task_term(n, "application"@) || has_task_term(n, "tool"@) || has_task_term(n, "tooling"@)) && (has_task_term(n, "architecture"@) || has_task_term(n, "integrate"@) || has_task_term(n, "integration"@) || has_task_term(n, "persistence"@) || has_task_term(n, "persistent"@) || has_task_term(n, "persist"@) || has_task_term(n, "wire"@) || has_task_term(n, "wiring"@) || has_task_term(n, "multi file"@) || has_task_term(n, "multi-file"@) || has_task_term(n, "multiple files"@) || has_task_term(n, "system"@))
        }) ==> complex_kind_of(task) == Some(ComplexKind::WorkingSlice),
        ({
            let n = normalized_task(task);
            !creation_verb(n) || (!(has_task_term(n, "auth"@) || has_task_term(n, "authentication"@) || has_task_term(n, "authorization"@) || has_task_term(n, "login"@) || has_task_term(n, "oauth"@)) && !(has_task_term(n, "rest api"@) || has_task_term(n, "api"@) || has_task_term(n, "endpoint"@) || has_task_term(n, "server"@)) && !(has_task_term(n, "migration"@) || has_task_term(n, "migrate"@) || has_task_term(n, "schema"@) || has_task_term(n, "database"@) || has_task_term(n, "db"@)) && !(has_task_term(n, "docs site"@) || has_task_term(n, "site"@) || has_task_term(n, "website"@)) && !((has_task_term(n, "persistence"@) || has_task_term(n, "persistent"@) || has_task_term(n, "persist"@)) && (has_task_term(n, "app"@) || has_task_term(n, "application"@) || has_task_term(n, "system"@) || has_task_term(n, "tool"@))) && !(has_task_term(n, "cli app"@) || has_task_term(n, "cli"@) || has_task_term(n, "command line"@)) && !(has_task_term(n, "cli app"@) || has_task_term(n, "app"@) || has_task_term(n, "application"@) || has_task_term(n, "tool"@) || has_task_term(n, "tooling"@)) && !(has_task_term(n, "architecture"@) || has_task_term(n, "integrate"@) || has_task_term(n, "integration"@) || has_task_term(n, "persistence"@) || has_task_term(n, "persistent"@) || has_task_term(n, "persist"@) || has_task_term(n, "wire"@) || has_task_term(n, "wiring"@) || has_task_term(n, "multi file"@) || has_task_term(n, "multi-file"@) || has_task_term(n, "multiple files"@) || has_task_term(n, "system"@)))
        }) ==> complex_kind_of(task) is None,
{
}


pub open spec fn complex_task_kind(k: ComplexKind) -> Seq<char> {
    match k {
        ComplexKind::AuthSystem => "auth system"@,
        ComplexKind::Api => "API"@,
        ComplexKind::Migration => "migration"@,
        ComplexKind::Site => "site"@,
        ComplexKind::PersistenceApp => "persistence app"@,
        ComplexKind::CliApp => "CLI app"@,
        ComplexKind::AppTooling => "application/tooling"@,
        ComplexKind::WorkingSlice => "working system slice"@,
    }
}

/// The surfaces (name and kind) a complex task requires, in order.
pub open spec fn complex_surfaces(k: ComplexKind) -> Seq<(Seq<char>, SurfaceKind)> {
    match k {
        ComplexKind::AuthSystem => seq![("auth logic"@, SurfaceKind::AuthLogic), ("integration surface"@, SurfaceKind::AuthIntegration)],
        ComplexKind::Api => seq![("route surface"@, SurfaceKind::ApiRoute), ("server/app wiring"@, SurfaceKind::ServerWiring)],
        ComplexKind::Migration => seq![("migration definition"@, SurfaceKind::MigrationDefinition), ("runnable migration flow"@, SurfaceKind::MigrationRunner)],
        ComplexKind::Site => seq![("site structure"@, SurfaceKind::SiteStructure), ("serving/build surface"@, SurfaceKind::SiteBuildOrServe)],
        ComplexKind::PersistenceApp => seq![("app/runtime surface"@, SurfaceKind::AppRuntime), ("persistence/data surface"@, SurfaceKind::PersistenceData)],
        ComplexKind::CliApp => seq![("entrypoint"@, SurfaceKind::CliEntrypoint), ("runnable argument flow"@, SurfaceKind::CliArgumentFlow)],
        ComplexKind::AppTooling => seq![("app/runtime surface"@, SurfaceKind::AppRuntime)],
        ComplexKind::WorkingSlice => seq![("implementation surface"@, SurfaceKind::AppRuntime)],
    }
}

/// What each complex task must show before it may complete: an auth system
/// its auth logic and an integration surface; an API a route surface and
/// server wiring; a migration its definition and a runnable flow; a site
/// its structure and a serving or build surface; a persistence app a
/// runtime and a persistence surface; a CLI app an entrypoint and an
/// argument flow; application tooling and a working slice a runtime
/// surface.
pub proof fn law_required_surfaces(k: ComplexKind)
    ensures
        k == ComplexKind::AuthSystem ==> complex_surfaces(k) == seq![
            ("auth logic"@, SurfaceKind::AuthLogic),
            ("integration surface"@, SurfaceKind::AuthIntegration),
        ],
        k == ComplexKind::Api ==> complex_surfaces(k) == seq![
            ("route surface"@, SurfaceKind::ApiRoute),
            ("server/app wiring"@, SurfaceKind::ServerWiring),
        ],
        k == ComplexKind::Migration ==> complex_surfaces(k) == seq![
            ("migration definition"@, SurfaceKind::MigrationDefinition),
            ("runnable migration flow"@, SurfaceKind::MigrationRunner),
        ],
        k == ComplexKind::Site ==> complex_surfaces(k) == seq![
            ("site structure"@, SurfaceKind::SiteStructure),
            ("serving/build surface"@, SurfaceKind::SiteBuildOrServe),
        ],
        k == ComplexKind::PersistenceApp ==> complex_surfaces(k) == seq![
            ("app/runtime surface"@, SurfaceKind::AppRuntime),
            ("persistence/data surface"@, SurfaceKind::PersistenceData),
        ],
        k == ComplexKind::CliApp ==> complex_surfaces(k) == seq![
            ("entrypoint"@, SurfaceKind::CliEntrypoint),
            ("runnable argument flow"@, SurfaceKind::CliArgumentFlow),
        ],
        k == ComplexKind::AppTooling ==> complex_surfaces(k) == seq![
            ("app/runtime surface"@, SurfaceKind::AppRuntime),
        ],
        k == ComplexKind::WorkingSlice ==> complex_surfaces(k) == seq![
            ("implementation surface"@, SurfaceKind::AppRuntime),
        ],
{
}

/// A complex implementation task and the surfaces it must show.
#[derive(Debug, Clone)]
pub struct ComplexImplementationSpec {
    pub task_kind: &'static str,
    pub required_surfaces: Vec<RequiredSurface>,
}

pub open spec fn surfaces_view(v: Seq<RequiredSurface>) -> Seq<(Seq<char>, SurfaceKind)> {
    v.map_values(|s: RequiredSurface| (s.name@, s.kind))
}

impl ComplexImplementationSpec {
    fn build(kind: ComplexKind) -> (r: Self)
        ensures
            r.task_kind@ == complex_task_kind(kind),
            surfaces_view(r.required_surfaces@) == complex_surfaces(kind),
    {
        let mut v: Vec<RequiredSurface> = Vec::new();
        match kind {
            ComplexKind::AuthSystem => {
                v.push(RequiredSurface::new("auth logic", SurfaceKind::AuthLogic));
                v.push(RequiredSurface::new("integration surface", SurfaceKind::AuthIntegration));
                assert(surfaces_view(v@) =~= seq![("auth logic"@, SurfaceKind::AuthLogic), ("integration surface"@, SurfaceKind::AuthIntegration)]);
                ComplexImplementationSpec { task_kind: "auth system", required_surfaces: v }
            },
            ComplexKind::Api => {
                v.push(RequiredSurface::new("route surface", SurfaceKind::ApiRoute));
                v.push(RequiredSurface::new("server/app wiring", SurfaceKind::ServerWiring));
                assert(surfaces_view(v@) =~= seq![("route surface"@, SurfaceKind::ApiRoute), ("server/app wiring"@, SurfaceKind::ServerWiring)]);
                ComplexImplementationSpec { task_kind: "API", required_surfaces: v }
            },
            ComplexKind::Migration => {
                v.push(RequiredSurface::new("migration definition", SurfaceKind::MigrationDefinition));
                v.push(RequiredSurface::new("runnable migration flow", SurfaceKind::MigrationRunner));
                assert(surfaces_view(v@) =~= seq![("migration definition"@, SurfaceKind::MigrationDefinition), ("runnable migration flow"@, SurfaceKind::MigrationRunner)]);
                ComplexImplementationSpec { task_kind: "migration", required_surfaces: v }
            },
            ComplexKind::Site => {
                v.push(RequiredSurface::new("site structure", SurfaceKind::SiteStructure));
                v.push(RequiredSurface::new("serving/build surface", SurfaceKind::SiteBuildOrServe));
                assert(surfaces_view(v@) =~= seq![("site structure"@, SurfaceKind::SiteStructure), ("serving/build surface"@, SurfaceKind::SiteBuildOrServe)]);
                ComplexImplementationSpec { task_kind: "site", required_surfaces: v }
            },
            ComplexKind::PersistenceApp => {
                v.push(RequiredSurface::new("app/runtime surface", SurfaceKind::AppRuntime));
                v.push(RequiredSurface::new("persistence/data surface", SurfaceKind::PersistenceData));
                assert(surfaces_view(v@) =~= seq![("app/runtime surface"@, SurfaceKind::AppRuntime), ("persistence/data surface"@, SurfaceKind::PersistenceData)]);
                ComplexImplementationSpec { task_kind: "persistence app", required_surfaces: v }
            },
            ComplexKind::CliApp => {
                v.push(RequiredSurface::new("entrypoint", SurfaceKind::CliEntrypoint));
                v.push(RequiredSurface::new("runnable argument flow", SurfaceKind::CliArgumentFlow));
                assert(surfaces_view(v@) =~= seq![("entrypoint"@, SurfaceKind::CliEntrypoint), ("runnable argument flow"@, SurfaceKind::CliArgumentFlow)]);
                ComplexImplementationSpec { task_kind: "CLI app", required_surfaces: v }
            },
            ComplexKind::AppTooling => {
                v.push(RequiredSurface::new("app/runtime surface", SurfaceKind::AppRuntime));
                assert(surfaces_view(v@) =~= seq![("app/runtime surface"@, SurfaceKind::AppRuntime)]);
                ComplexImplementationSpec { task_kind: "application/tooling", required_surfaces: v }
            },
            ComplexKind::WorkingSlice => {
                v.push(RequiredSurface::new("implementation surface", SurfaceKind::AppRuntime));
                assert(surfaces_view(v@) =~= seq![("implementation surface"@, SurfaceKind::AppRuntime)]);
                ComplexImplementationSpec { task_kind: "working system slice", required_surfaces: v }
            },
        }
    }

    /// The complex task `task` asks for, if any.
    pub fn from_task(task: &str) -> (r: Option<Self>)
        ensures
            match complex_kind_of(task@) {
                Some(k) => r matches Some(sp) && sp.task_kind@ == complex_task_kind(k)
                    && surfaces_view(sp.required_surfaces@) == complex_surfaces(k),
                None => r is None,
            },
    {
        let normalized = normalize_task_text(task);
        let n = normalized.as_str();
        if !has_creation_verb(n) {
            return None;
        }
        let kind = if contains_normalized_task_term(n, "auth") || contains_normalized_task_term(n, "authentication") || contains_normalized_task_term(n, "authorization") || contains_normalized_task_term(n, "login") || contains_normalized_task_term(n, "oauth") {
            ComplexKind::AuthSystem
        } else if contains_normalized_task_term(n, "rest api") || contains_normalized_task_term(n, "api") || contains_normalized_task_term(n, "endpoint") || contains_normalized_task_term(n, "server") {
            ComplexKind::Api
        } else if contains_normalized_task_term(n, "migration") || contains_normalized_task_term(n, "migrate") || contains_normalized_task_term(n, "schema") || contains_normalized_task_term(n, "database") || contains_normalized_task_term(n, "db") {
            ComplexKind::Migration
        } else if contains_normalized_task_term(n, "docs site") || contains_normalized_task_term(n, "site") || contains_normalized_task_term(n, "website") {
            ComplexKind::Site
        } else if (contains_normalized_task_term(n, "persistence") || contains_normalized_task_term(n, "persistent") || contains_normalized_task_term(n, "persist")) && (contains_normalized_task_term(n, "app") || contains_normalized_task_term(n, "application") || contains_normalized_task_term(n, "system") || contains_normalized_task_term(n, "tool")) {
            ComplexKind::PersistenceApp
        } else if contains_normalized_task_term(n, "cli app") || contains_normalized_task_term(n, "cli") || contains_normalized_task_term(n, "command line") {
            ComplexKind::CliApp
        } else if contains_normalized_task_term(n, "cli app") || contains_normalized_task_term(n, "app") || contains_normalized_task_term(n, "application") || contains_normalized_task_term(n, "tool") || contains_normalized_task_term(n, "tooling") {
            ComplexKind::AppTooling
        } else if contains_normalized_task_term(n, "architecture") || contains_normalized_task_term(n, "integrate") || contains_normalized_task_term(n, "integration") || contains_normalized_task_term(n, "persistence") || contains_normalized_task_term(n, "persistent") || contains_normalized_task_term(n, "persist") || contains_normalized_task_term(n, "wire") || contains_normalized_task_term(n, "wiring") || contains_normalized_task_term(n, "multi file") || contains_normalized_task_term(n, "multi-file") || contains_normalized_task_term(n, "multiple files") || contains_normalized_task_term(n, "system") {
            ComplexKind::WorkingSlice
        } else {
            return None;
        };
        Some(Self::build(kind))
    }

    /// Why a completion is premature: no file at all, only
    /// shallow artifacts written, or required surfaces without evidence.
    pub fn shallow_completion_rejection(&self, state: &AgentState, contents: &PathMap<String>) -> (r:
        Option<String>)
        ensures
            match shallow_rejection(
                self.task_kind@,
                surfaces_view(self.required_surfaces@),
                *state,
                *contents,
            ) {
                Some(m) => r matches Some(s) && s@ == m,
                None => r is None,
            },
    {
        let artifacts = written_artifacts(state, contents);
        let ghost arts = artifact_list(*state, *contents);
        let ghost sv = surfaces_view(self.required_surfaces@);
        if artifacts.len() == 0 {
            let mut m = crate::text::to_owned_string("Completion rejected: ");
            push_str(&mut m, self.task_kind);
            push_str(
                &mut m,
                " request requires implementation write evidence, but no written files were recorded",
            );
            return Some(m);
        }
        let mut any_impl = false;
        let mut i: usize = 0;
        while i < artifacts.len()
            invariant
                i <= artifacts@.len(),
                artifacts@.map_values(|a: WrittenArtifact| a@) == arts,
                any_impl == exists|j: int| 0 <= j < i && implementation_surface(#[trigger] arts[j].path),
            decreases artifacts.len() - i,
        {
            if is_implementation_surface(artifacts[i].path.as_str()) {
                assert(implementation_surface(arts[i as int].path));
                any_impl = true;
            }
            i = i + 1;
        }
        let written = written_paths(state);
        let written_text = join_texts(&written, ", ");
        if !any_impl {
            let mut m = crate::text::to_owned_string("Completion rejected: ");
            push_str(&mut m, self.task_kind);
            push_str(&mut m, " request cannot be satisfied by shallow artifact(s) only [");
            push_str(&mut m, written_text.as_str());
            push_str(
                &mut m,
                "]; continue with source, config, runtime, API, persistence, migration, or site implementation work",
            );
            return Some(m);
        }
        let missing = surface_names(&self.required_surfaces, &artifacts, false);
        if missing.len() > 0 {
            let satisfied = surface_names(&self.required_surfaces, &artifacts, true);
            let satisfied_text = if satisfied.len() == 0 {
                crate::text::to_owned_string("none")
            } else {
                join_texts(&satisfied, ", ")
            };
            let missing_text = join_texts(&missing, ", ");
            let mut m = crate::text::to_owned_string("Completion rejected: ");
            push_str(&mut m, self.task_kind);
            push_str(&mut m, " request requires evidence for [");
            push_str(&mut m, missing_text.as_str());
            push_str(&mut m, "], but written artifact(s) [");
            push_str(&mut m, written_text.as_str());
            push_str(&mut m, "] only satisfy [");
            push_str(&mut m, satisfied_text.as_str());
            push_str(
                &mut m,
                "]; continue until all required implementation surfaces are present",
            );
            return Some(m);
        }
        None
    }
}

/// Some artifact supplies the surface kind.
pub open spec fn satisfied_by_any(kind: SurfaceKind, arts: Seq<WrittenArtifactView>) -> bool {
    exists|i: int| 0 <= i < arts.len() && surface_satisfied(kind, #[trigger] arts[i])
}

/// Names of the surfaces that are (`want`) or are not (`!want`) supplied,
/// in order.
pub open spec fn names_where(
    surfaces: Seq<(Seq<char>, SurfaceKind)>,
    arts: Seq<WrittenArtifactView>,
    want: bool,
) -> Seq<Seq<char>>
    decreases surfaces.len(),
{
    if surfaces.len() == 0 {
        Seq::empty()
    } else {
        let rest = names_where(surfaces.drop_last(), arts, want);
        if satisfied_by_any(surfaces.last().1, arts) == want {
            rest.push(surfaces.last().0)
        } else {
            rest
        }
    }
}

fn any_satisfies(surface: &RequiredSurface, artifacts: &Vec<WrittenArtifact>) -> (r: bool)
    ensures
        r == satisfied_by_any(surface.kind, artifacts@.map_values(|a: WrittenArtifact| a@)),
{
    let ghost arts = artifacts@.map_values(|a: WrittenArtifact| a@);
    let mut i: usize = 0;
    while i < artifacts.len()
        invariant
            i <= artifacts@.len(),
            arts == artifacts@.map_values(|a: WrittenArtifact| a@),
            forall|j: int| 0 <= j < i ==> !surface_satisfied(surface.kind, #[trigger] arts[j]),
        decreases artifacts.len() - i,
    {
        if surface.is_satisfied_by(&artifacts[i]) {
            assert(surface_satisfied(surface.kind, arts[i as int]));
            return true;
        }
        i = i + 1;
    }
    false
}

fn surface_names(surfaces: &Vec<RequiredSurface>, artifacts: &Vec<WrittenArtifact>, want: bool) -> (r:
    Vec<String>)
    ensures
        r@.map_values(|s: String| s@) == names_where(
            surfaces_view(surfaces@),
            artifacts@.map_values(|a: WrittenArtifact| a@),
            want,
        ),
{
    let ghost sv = surfaces_view(surfaces@);
    let ghost arts = artifacts@.map_values(|a: WrittenArtifact| a@);
    let mut out: Vec<String> = Vec::new();
    let mut i: usize = 0;
    while i < surfaces.len()
        invariant
            i <= surfaces@.len(),
            sv == surfaces_view(surfaces@),
            arts == artifacts@.map_values(|a: WrittenArtifact| a@),
            out@.map_values(|s: String| s@) == names_where(sv.take(i as int), arts, want),
        decreases surfaces.len() - i,
    {
        let s = surfaces[i];
        assert(sv.take(i + 1).drop_last() =~= sv.take(i as int));
        assert(sv.take(i + 1).last() == (s.name@, s.kind));
        if any_satisfies(&s, artifacts) == want {
            let name = crate::text::to_owned_string(s.name);
            let ghost before = out@.map_values(|s: String| s@);
            let ghost nv = name@;
            out.push(name);
            assert(out@.map_values(|s: String| s@) =~= before.push(nv));
        }
        i = i + 1;
    }
    assert(sv.take(surfaces.len() as int) =~= sv);
    out
}

/// Why completing the complex task is premature, if it is.
pub open spec fn shallow_rejection(
    kind: Seq<char>,
    surfaces: Seq<(Seq<char>, SurfaceKind)>,
    state: AgentState,
    contents: PathMap<String>,
) -> Option<Seq<char>> {
    let arts = artifact_list(state, contents);
    let written = join_seqs(reported_paths(state), ", "@);
    if arts.len() == 0 {
        Some(
            "Completion rejected: "@ + kind
                + " request requires implementation write evidence, but no written files were recorded"@,
        )
    } else if !(exists|j: int| 0 <= j < arts.len() && implementation_surface(#[trigger] arts[j].path)) {
        Some(
            "Completion rejected: "@ + kind + " request cannot be satisfied by shallow artifact(s) only ["@
                + written
                + "]; continue with source, config, runtime, API, persistence, migration, or site implementation work"@,
        )
    } else {
        let missing = names_where(surfaces, arts, false);
        let satisfied = names_where(surfaces, arts, true);
        if missing.len() > 0 {
            Some(
                "Completion rejected: "@ + kind + " request requires evidence for ["@ + join_seqs(
                    missing,
                    ", "@,
                ) + "], but written artifact(s) ["@ + written + "] only satisfy ["@ + (if satisfied.len()
                    == 0 {
                    "none"@
                } else {
                    join_seqs(satisfied, ", "@)
                }) + "]; continue until all required implementation surfaces are present"@,
            )
        } else {
            None
        }
    }
}


// ===========================================================================
// Literal artifact tasks
// ===========================================================================

/// The literal artifact a task names (`Target artifact:`) and its class
/// (`Artifact class:`), if it names one.
pub open spec fn literal_of(task: Seq<char>) -> Option<(Seq<char>, Option<Seq<char>>)> {
    match task_marker(task, "Target artifact:"@) {
        Some(t) => Some((t, task_marker(task, "Artifact class:"@))),
        None => None,
    }
}

/// A task that asks for one literal artifact.
#[derive(Debug, Clone)]
pub struct LiteralArtifactSpec {
    pub target_path: String,
    pub artifact_class: Option<String>,
}

pub open spec fn opt_view(o: Option<String>) -> Option<Seq<char>> {
    match o {
        Some(s) => Some(s@),
        None => None,
    }
}

/// The reason with backslashes made slashes, lowercased.
pub open spec fn reason_text(reason: Seq<char>) -> Seq<char> {
    lowercase_of(reason).map_values(|c: char| if c == '\\' { '/' } else { c })
}

/// The reason cites the target by its normalised path or its lowercased
/// file name.
pub open spec fn mentions_target(reason: Seq<char>, target: Seq<char>) -> bool {
    let r = reason_text(reason);
    let expected = normalized_path_text(target);
    let base = match file_name_of(target) {
        Some(n) => lowercase_of(n),
        None => expected,
    };
    contains_seq(r, expected) || contains_seq(r, base)
}

/// Some written path, or some recorded change, is the target.
pub open spec fn target_written(state: AgentState, target: Seq<char>) -> bool {
    (exists|i: int|
        0 <= i < state.files_written@.len() && path_matches(
            #[trigger] state.files_written@[i],
            target,
        )) || (exists|i: int|
        0 <= i < state.change_history@.len() && path_matches(
            (#[trigger] state.change_history@[i]).mutation.path@,
            target,
        ))
}

/// The first of `paths` that is the target.
pub open spec fn first_matching(paths: Seq<Seq<char>>, target: Seq<char>) -> Option<Seq<char>>
    decreases paths.len(),
{
    if paths.len() == 0 {
        None
    } else if path_matches(paths[0], target) {
        Some(paths[0])
    } else {
        first_matching(paths.drop_first(), target)
    }
}

/// The content of the written target: that of the first written path (then
/// recorded change) matching it, or else that of the target path itself.
pub open spec fn target_content(
    state: AgentState,
    contents: PathMap<String>,
    target: Seq<char>,
) -> Option<Seq<char>> {
    let cands = state.files_written@ + state.change_history@.map_values(
        |c: ChangeRecord| c.mutation.path@,
    );
    match first_matching(cands, target) {
        Some(p) => match content_of(contents, p) {
            Some(c) => Some(c),
            None => content_of(contents, target),
        },
        None => content_of(contents, target),
    }
}

/// Why the content of the target does not fit its class, if it does not.
pub open spec fn content_rejection(
    class: Option<Seq<char>>,
    content: Option<Seq<char>>,
    target: Seq<char>,
) -> Option<Seq<char>> {
    match (class, content) {
        (Some(cl), Some(c)) => {
            let lower = lowercase_of(c);
            if cl == "docs note"@ {
                if contains_seq(lower, "implementation location"@) || contains_seq(
                    lower,
                    "source file"@,
                ) || contains_seq(lower, "source files"@) || contains_seq(lower, "src/"@)
                    || contains_seq(lower, "repository structure"@) || contains_seq(
                    lower,
                    "project structure"@,
                ) {
                    Some(
                        "Completion rejected: '"@ + target
                            + "' must be a generic docs note, not repository implementation analysis"@,
                    )
                } else {
                    None
                }
            } else if cl == "todo file"@ {
                if !contains_seq(lower, "todo"@) && !contains_seq(lower, "[ ]"@) {
                    Some("Completion rejected: '"@ + target + "' must contain TODO-list content"@)
                } else {
                    None
                }
            } else if cl == "hello world script"@ {
                if !contains_seq(lower, "hello, world"@) && !contains_seq(lower, "hello world"@) {
                    Some(
                        "Completion rejected: '"@ + target
                            + "' must contain hello-world script content"@,
                    )
                } else {
                    None
                }
            } else {
                None
            }
        },
        _ => None,
    }
}

proof fn lemma_class_names_differ()
    ensures
        "docs note"@ != "todo file"@,
        "docs note"@ != "hello world script"@,
        "todo file"@ != "hello world script"@,
{
    reveal_strlit("docs note");
    reveal_strlit("todo file");
    reveal_strlit("hello world script");
    assert("docs note"@.len() == 9 && "docs note"@[0] == 'd');
    assert("todo file"@.len() == 9 && "todo file"@[0] == 't');
    assert("hello world script"@.len() == 18);
}

/// A hello-world script is accepted exactly when its content, lowercased,
/// holds `hello, world` or `hello world`; otherwise the completion is
/// rejected for lacking hello-world content.
pub proof fn law_hello_world_script_content(content: Seq<char>, target: Seq<char>)
    ensures
        ({
            let lower = lowercase_of(content);
            contains_seq(lower, "hello, world"@) || contains_seq(lower, "hello world"@)
        }) ==> content_rejection(Some("hello world script"@), Some(content), target) is None,
        !({
            let lower = lowercase_of(content);
            contains_seq(lower, "hello, world"@) || contains_seq(lower, "hello world"@)
        }) ==> content_rejection(Some("hello world script"@), Some(content), target) == Some(
            "Completion rejected: '"@ + target + "' must contain hello-world script content"@,
        ),
{
    lemma_class_names_differ();
}

/// A TODO file is accepted exactly when its content, lowercased, holds
/// `todo` or an open checkbox `[ ]`.
pub proof fn law_todo_file_content(content: Seq<char>, target: Seq<char>)
    ensures
        ({
            let lower = lowercase_of(content);
            contains_seq(lower, "todo"@) || contains_seq(lower, "[ ]"@)
        }) ==> content_rejection(Some("todo file"@), Some(content), target) is None,
        !({
            let lower = lowercase_of(content);
            contains_seq(lower, "todo"@) || contains_seq(lower, "[ ]"@)
        }) ==> content_rejection(Some("todo file"@), Some(content), target) == Some(
            "Completion rejected: '"@ + target + "' must contain TODO-list content"@,
        ),
{
    lemma_class_names_differ();
}

/// A docs note is rejected exactly when its content, lowercased, describes
/// the repository: an implementation location, source file(s), `src/`, or
/// the repository or project structure.
pub proof fn law_docs_note_content(content: Seq<char>, target: Seq<char>)
    ensures
        ({
            let lower = lowercase_of(content);
            contains_seq(lower, "implementation location"@) || contains_seq(lower, "source file"@)
                || contains_seq(lower, "source files"@) || contains_seq(lower, "src/"@)
                || contains_seq(lower, "repository structure"@) || contains_seq(
                lower,
                "project structure"@,
            )
        }) ==> content_rejection(Some("docs note"@), Some(content), target) == Some(
            "Completion rejected: '"@ + target
                + "' must be a generic docs note, not repository implementation analysis"@,
        ),
        !({
            let lower = lowercase_of(content);
            contains_seq(lower, "implementation location"@) || contains_seq(lower, "source file"@)
                || contains_seq(lower, "source files"@) || contains_seq(lower, "src/"@)
                || contains_seq(lower, "repository structure"@) || contains_seq(
                lower,
                "project structure"@,
            )
        }) ==> content_rejection(Some("docs note"@), Some(content), target) is None,
{
    lemma_class_names_differ();
}

/// Only the three known classes are checked, and only when the target's
/// content could be read.
pub proof fn law_other_content_unchecked(class: Option<Seq<char>>, content: Option<Seq<char>>, target: Seq<char>)
    requires
        content is None || class is None || (class->0 != "docs note"@ && class->0 != "todo file"@
            && class->0 != "hello world script"@),
    ensures
        content_rejection(class, content, target) is None,
{
}

/// Why a completion with `reason` does not deliver the literal artifact.
pub open spec fn literal_rejection(
    target: Seq<char>,
    class: Option<Seq<char>>,
    reason: Seq<char>,
    state: AgentState,
    contents: PathMap<String>,
) -> Option<Seq<char>> {
    if !mentions_target(reason, target) {
        Some(
            "Completion rejected: literal creation task must cite target artifact '"@ + target
                + "' in the completion reason"@,
        )
    } else if !target_written(state, target) {
        Some(
            "Completion rejected: expected "@ + (match class {
                Some(c) => c,
                None => "literal artifact"@,
            }) + " at '"@ + target + "', but written artifact(s) were ["@ + join_seqs(
                reported_paths(state),
                ", "@,
            ) + "]"@,
        )
    } else {
        content_rejection(class, target_content(state, contents, target), target)
    }
}

fn lowered_reason(reason: &str) -> (r: Vec<char>)
    ensures
        r@ == reason_text(reason@),
{
    let lower = to_lowercase(reason);
    let chars = chars_of(lower.as_str());
    let mut out: Vec<char> = Vec::new();
    let mut i: usize = 0;
    while i < chars.len()
        invariant
            i <= chars@.len(),
            chars@ == lowercase_of(reason@),
            out@ == reason_text(reason@).take(i as int),
        decreases chars.len() - i,
    {
        let c = chars[i];
        if c == '\\' {
            out.push('/');
        } else {
            out.push(c);
        }
        i = i + 1;
        assert(out@ =~= reason_text(reason@).take(i as int));
    }
    assert(reason_text(reason@).take(chars.len() as int) =~= reason_text(reason@));
    out
}

impl LiteralArtifactSpec {
    /// The literal artifact `task` asks for, if any.
    pub fn from_task(task: &str) -> (r: Option<Self>)
        ensures
            match literal_of(task@) {
                Some((t, c)) => r matches Some(sp) && sp.target_path@ == t && opt_view(
                    sp.artifact_class,
                ) == c,
                None => r is None,
            },
    {
        let target_path = match extract_task_marker(task, "Target artifact:") {
            Some(t) => t,
            None => {
                return None;
            },
        };
        let artifact_class = extract_task_marker(task, "Artifact class:");
        Some(LiteralArtifactSpec { target_path, artifact_class })
    }

    /// Whether the completion reason cites the target.
    pub fn reason_mentions_target(&self, completion_reason: &str) -> (r: bool)
        ensures
            r == mentions_target(completion_reason@, self.target_path@),
    {
        let reason = lowered_reason(completion_reason);
        let expected_s = normalize_path_text(self.target_path.as_str());
        let expected = chars_of(expected_s.as_str());
        let base = match path_file_name(self.target_path.as_str()) {
            Some(n) => {
                let l = to_lowercase(n.as_str());
                chars_of(l.as_str())
            },
            None => chars_of(expected_s.as_str()),
        };
        chars_contains(&reason, &expected) || chars_contains(&reason, &base)
    }

    /// Whether the target was written (or recorded as changed).
    pub fn target_was_written(&self, state: &AgentState) -> (r: bool)
        ensures
            r == target_written(*state, self.target_path@),
    {
        let t = self.target_path.as_str();
        assert(t@ == self.target_path@);
        let n = state.files_written.len();
        let mut i: usize = 0;
        while i < n
            invariant
                i <= n,
                n == state.files_written@.len(),
                t@ == self.target_path@,
                forall|j: int| 0 <= j < i ==> !path_matches(#[trigger] state.files_written@[j], t@),
            decreases n - i,
        {
            if path_matches_expected(state.files_written.item_at(i), t) {
                assert(path_matches(state.files_written@[i as int], self.target_path@));
                assert(0 <= i < state.files_written@.len());
                assert(target_written(*state, self.target_path@));
                return true;
            }
            i = i + 1;
        }
        let mut k: usize = 0;
        while k < state.change_history.len()
            invariant
                k <= state.change_history@.len(),
                t@ == self.target_path@,
                forall|j: int| 0 <= j < state.files_written@.len() ==> !path_matches(#[trigger] state.files_written@[j], t@),
                forall|j: int|
                    0 <= j < k ==> !path_matches((#[trigger] state.change_history@[j]).mutation.path@, t@),
            decreases state.change_history.len() - k,
        {
            if path_matches_expected(state.change_history[k].mutation.path.as_str(), t) {
                assert(path_matches(state.change_history@[k as int].mutation.path@, t@));
                assert(target_written(*state, self.target_path@));
                return true;
            }
            k = k + 1;
        }
        false
    }

    /// The content of the written target, as far as `contents` knows it.
    pub fn read_written_target_content(&self, state: &AgentState, contents: &PathMap<String>) -> (r:
        Option<String>)
        ensures
            opt_view(r) == target_content(*state, *contents, self.target_path@),
    {
        let t = self.target_path.as_str();
        let mut cands = written_candidates(state);
        let ghost cv = cands@.map_values(|s: String| s@);
        let found = first_match_index(&cands, t);
        let fallback = match content_for(contents, t) {
            Some(c) => Some(crate::text::to_owned_string(c)),
            None => None,
        };
        match found {
            Some(i) => match content_for(contents, cands[i].as_str()) {
                Some(c) => Some(crate::text::to_owned_string(c)),
                None => fallback,
            },
            None => fallback,
        }
    }

    /// Why the target's content does not fit its class, if it does not.
    pub fn content_rejection_reason(&self, state: &AgentState, contents: &PathMap<String>) -> (r:
        Option<String>)
        ensures
            opt_view(r) == content_rejection(
                opt_view(self.artifact_class),
                target_content(*state, *contents, self.target_path@),
                self.target_path@,
            ),
    {
        let class = match &self.artifact_class {
            Some(c) => c.as_str(),
            None => {
                return None;
            },
        };
        let content = match self.read_written_target_content(state, contents) {
            Some(c) => c,
            None => {
                return None;
            },
        };
        let lower_s = to_lowercase(content.as_str());
        let lower = lower_s.as_str();
        let t = self.target_path.as_str();
        if str_eq(class, "docs note") {
            if str_contains(lower, "implementation location") || str_contains(lower, "source file")
                || str_contains(lower, "source files") || str_contains(lower, "src/")
                || str_contains(lower, "repository structure") || str_contains(
                lower,
                "project structure",
            ) {
                let mut m = crate::text::to_owned_string("Completion rejected: '");
                push_str(&mut m, t);
                push_str(
                    &mut m,
                    "' must be a generic docs note, not repository implementation analysis",
                );
                return Some(m);
            }
        } else if str_eq(class, "todo file") {
            if !str_contains(lower, "todo") && !str_contains(lower, "[ ]") {
                let mut m = crate::text::to_owned_string("Completion rejected: '");
                push_str(&mut m, t);
                push_str(&mut m, "' must contain TODO-list content");
                return Some(m);
            }
        } else if str_eq(class, "hello world script") {
            if !str_contains(lower, "hello, world") && !str_contains(lower, "hello world") {
                let mut m = crate::text::to_owned_string("Completion rejected: '");
                push_str(&mut m, t);
                push_str(&mut m, "' must contain hello-world script content");
                return Some(m);
            }
        }
        None
    }

    /// Why a completion with `completion_reason` does not deliver the
    /// literal artifact: it does not cite the target, the target was not
    /// written, or its content does not fit its class.
    pub fn rejection_reason(
        &self,
        completion_reason: &str,
        state: &AgentState,
        contents: &PathMap<String>,
    ) -> (r: Option<String>)
        ensures
            opt_view(r) == literal_rejection(
                self.target_path@,
                opt_view(self.artifact_class),
                completion_reason@,
                *state,
                *contents,
            ),
    {
        let t = self.target_path.as_str();
        if !self.reason_mentions_target(completion_reason) {
            let mut m = crate::text::to_owned_string(
                "Completion rejected: literal creation task must cite target artifact '",
            );
            push_str(&mut m, t);
            push_str(&mut m, "' in the completion reason");
            return Some(m);
        }
        if !self.target_was_written(state) {
            let written = written_paths(state);
            let written_text = join_texts(&written, ", ");
            let class = match &self.artifact_class {
                Some(c) => c.as_str(),
                None => "literal artifact",
            };
            let mut m = crate::text::to_owned_string("Completion rejected: expected ");
            push_str(&mut m, class);
            push_str(&mut m, " at '");
            push_str(&mut m, t);
            push_str(&mut m, "', but written artifact(s) were [");
            push_str(&mut m, written_text.as_str());
            push_str(&mut m, "]");
            return Some(m);
        }
        self.content_rejection_reason(state, contents)
    }
}

fn written_candidates(state: &AgentState) -> (r: Vec<String>)
    ensures
        r@.map_values(|s: String| s@) == state.files_written@ + state.change_history@.map_values(
            |c: ChangeRecord| c.mutation.path@,
        ),
{
    let ghost fw = state.files_written@;
    let ghost ch = state.change_history@.map_values(|c: ChangeRecord| c.mutation.path@);
    let mut out: Vec<String> = Vec::new();
    let n = state.files_written.len();
    let mut i: usize = 0;
    while i < n
        invariant
            i <= n,
            n == fw.len(),
            fw == state.files_written@,
            out@.map_values(|s: String| s@) == fw.take(i as int),
        decreases n - i,
    {
        let p = crate::text::to_owned_string(state.files_written.item_at(i));
        let ghost before = out@.map_values(|s: String| s@);
        let ghost pv = p@;
        out.push(p);
        assert(out@.map_values(|s: String| s@) =~= before.push(pv));
        i = i + 1;
        assert(before.push(pv) =~= fw.take(i as int));
    }
    assert(fw.take(n as int) =~= fw);
    let mut k: usize = 0;
    while k < state.change_history.len()
        invariant
            k <= state.change_history@.len(),
            fw == state.files_written@,
            ch == state.change_history@.map_values(|c: ChangeRecord| c.mutation.path@),
            out@.map_values(|s: String| s@) == fw + ch.take(k as int),
        decreases state.change_history.len() - k,
    {
        let p = crate::text::to_owned_string(state.change_history[k].mutation.path.as_str());
        let ghost before = out@.map_values(|s: String| s@);
        let ghost pv = p@;
        out.push(p);
        assert(out@.map_values(|s: String| s@) =~= before.push(pv));
        k = k + 1;
        assert(before.push(pv) =~= fw + ch.take(k as int));
    }
    assert(ch.take(state.change_history.len() as int) =~= ch);
    out
}

proof fn lemma_first_matching(paths: Seq<Seq<char>>, target: Seq<char>, i: int)
    requires
        0 <= i <= paths.len(),
        forall|j: int| 0 <= j < i ==> !path_matches(#[trigger] paths[j], target),
    ensures
        first_matching(paths, target) == first_matching(paths.skip(i), target),
    decreases i,
{
    if i > 0 {
        lemma_first_matching(paths, target, i - 1);
        assert(paths.skip(i - 1).drop_first() =~= paths.skip(i));
        assert(paths.skip(i - 1)[0] == paths[i - 1]);
    } else {
        assert(paths.skip(0) =~= paths);
    }
}

fn first_match_index(cands: &Vec<String>, target: &str) -> (r: Option<usize>)
    ensures
        match r {
            Some(i) => i < cands@.len() && first_matching(
                cands@.map_values(|s: String| s@),
                target@,
            ) == Some(cands@[i as int]@),
            None => first_matching(cands@.map_values(|s: String| s@), target@) is None,
        },
{
    let ghost cv = cands@.map_values(|s: String| s@);
    let mut i: usize = 0;
    while i < cands.len()
        invariant
            i <= cands@.len(),
            cv == cands@.map_values(|s: String| s@),
            forall|j: int| 0 <= j < i ==> !path_matches(#[trigger] cv[j], target@),
        decreases cands.len() - i,
    {
        if path_matches_expected(cands[i].as_str(), target) {
            proof {
                lemma_first_matching(cv, target@, i as int);
                assert(cv.skip(i as int)[0] == cv[i as int]);
            }
            return Some(i);
        }
        i = i + 1;
    }
    proof {
        lemma_first_matching(cv, target@, i as int);
        assert(cv.skip(i as int).len() == 0);
    }
    None
}


// ===========================================================================
// Completion gate
// ===========================================================================

/// Verdict of the completion gate.
#[derive(Debug, Clone)]
pub enum CompletionGateResult {
    Accept,
    Reject { reason: String, failure_class: ValidationFailureClass },
}

/// Model of a completion gate verdict.
pub enum CompletionVerdict {
    Accept,
    Reject { reason: Seq<char>, failure_class: ValidationFailureClass },
}

impl View for CompletionGateResult {
    type V = CompletionVerdict;

    open spec fn view(&self) -> CompletionVerdict {
        match self {
            CompletionGateResult::Accept => CompletionVerdict::Accept,
            CompletionGateResult::Reject { reason, failure_class } => CompletionVerdict::Reject {
                reason: reason@,
                failure_class: *failure_class,
            },
        }
    }
}

/// Whether the state is ready for a completion, and why.
#[derive(Debug, Clone, PartialEq, Eq)]
pub enum CompletionReadiness {
    Ready { reason: String },
    NotReady { reason: String },
}

pub open spec fn reject(reason: Seq<char>) -> CompletionVerdict {
    CompletionVerdict::Reject { reason, failure_class: ValidationFailureClass::VagueCompletionReason }
}

/// The completion gate's verdict on a completion claimed with `reason`:
/// no evidence of any tool run, pending validation, known errors, a vague
/// reason or one that points at nothing observable reject it; so does a
/// literal artifact that is not delivered, or a complex task left shallow.
pub open spec fn completion_verdict(
    reason: Seq<char>,
    state: AgentState,
    pending_validation: bool,
    known_errors: nat,
    contents: PathMap<String>,
) -> CompletionVerdict {
    if state.change_history@.len() == 0 && state.iteration == 0 {
        CompletionVerdict::Reject {
            reason: "Completion rejected: no tool execution evidence"@,
            failure_class: ValidationFailureClass::CompletionWithoutEvidence,
        }
    } else if pending_validation {
        CompletionVerdict::Reject {
            reason: "Completion rejected: validation pending"@,
            failure_class: ValidationFailureClass::CompletionWithPendingValidation,
        }
    } else if known_errors > 0 {
        CompletionVerdict::Reject {
            reason: "Completion rejected: "@ + decimal(known_errors)
                + " known error(s) remain unaddressed"@,
            failure_class: ValidationFailureClass::CompletionWithKnownErrors,
        }
    } else if vague_reason(reason) {
        reject("Completion rejected: reason '"@ + reason + "' is vague/non-state-based"@)
    } else if !observable_reason(reason) {
        reject("Completion rejected: reason does not reference observable state"@)
    } else {
        match literal_of(state.task@) {
            Some((t, c)) => match literal_rejection(t, c, reason, state, contents) {
                Some(m) => reject(m),
                None => CompletionVerdict::Accept,
            },
            None => match complex_kind_of(state.task@) {
                Some(k) => match shallow_rejection(
                    complex_task_kind(k),
                    complex_surfaces(k),
                    state,
                    contents,
                ) {
                    Some(m) => reject(m),
                    None => CompletionVerdict::Accept,
                },
                None => CompletionVerdict::Accept,
            },
        }
    }
}

/// The reason's normalised words are, open with, close with or hold one of
/// the phrases that claim completion without saying what changed.
pub open spec fn claims_vaguely(reason: Seq<char>) -> bool {
    let n = normalized_words(reason, false);
    pattern_hit(n, "looks good"@) || pattern_hit(n, "done"@) || pattern_hit(n, "complete"@)
        || pattern_hit(n, "finished"@) || pattern_hit(n, "ready"@) || pattern_hit(
        n,
        "task complete"@,
    ) || pattern_hit(n, "all done"@) || pattern_hit(n, "will be completed"@) || pattern_hit(
        n,
        "mostly done"@,
    ) || pattern_hit(n, "should be fine"@) || pattern_hit(n, "appears correct"@) || pattern_hit(
        n,
        "seems ok"@,
    )
}

proof fn lemma_vague_words(reason: Seq<char>)
    ensures
        claims_vaguely(reason) == vague_reason(reason),
{
}

proof fn lemma_observable_words(reason: Seq<char>)
    ensures
        points_at_state(reason) == observable_reason(reason),
{
    assert(names_a_file(reason) == (exists|i: int|
        0 <= i < ws_tokens(reason).len() && {
            let w = lowercase_of(trim_name(#[trigger] ws_tokens(reason)[i]));
            ends_with_seq(w, ".md"@) || ends_with_seq(w, ".txt"@) || ends_with_seq(w, ".py"@)
                || ends_with_seq(w, ".sh"@) || ends_with_seq(w, ".js"@) || ends_with_seq(w, ".ts"@)
                || ends_with_seq(w, ".json"@) || ends_with_seq(w, ".toml"@) || ends_with_seq(
                w,
                ".rs"@,
            ) || ends_with_seq(w, ".html"@) || ends_with_seq(w, ".css"@)
        }));
}

/// The reason points at something a reader can check: a path separator, a
/// word naming a file by a source or document extension (`.md .txt .py .sh
/// .js .ts .json .toml .rs .html .css`), a line, a function or a content
/// change.
pub open spec fn points_at_state(reason: Seq<char>) -> bool {
    contains_seq(reason, "/"@) || contains_seq(reason, "\\"@) || (exists|i: int|
        0 <= i < ws_tokens(reason).len() && {
            let w = lowercase_of(trim_name(#[trigger] ws_tokens(reason)[i]));
            ends_with_seq(w, ".md"@) || ends_with_seq(w, ".txt"@) || ends_with_seq(w, ".py"@)
                || ends_with_seq(w, ".sh"@) || ends_with_seq(w, ".js"@) || ends_with_seq(w, ".ts"@)
                || ends_with_seq(w, ".json"@) || ends_with_seq(w, ".toml"@) || ends_with_seq(
                w,
                ".rs"@,
            ) || ends_with_seq(w, ".html"@) || ends_with_seq(w, ".css"@)
        }) || contains_seq(reason, "line "@) || contains_seq(reason, "Line "@) || contains_seq(
        reason,
        "fn "@,
    ) || contains_seq(reason, "function"@) || contains_seq(reason, "contains"@) || contains_seq(
        reason,
        "updated"@,
    )
}

/// Once there is evidence of work, nothing pending and no known error, a
/// completion claimed in vague words ("looks good", "done", "complete",
/// "finished", "ready", "task complete", "all done", "will be completed",
/// "mostly done", "should be fine", "appears correct", "seems ok") is
/// rejected as vague, whatever else the task asks.
pub proof fn law_vague_completion_rejected(
    reason: Seq<char>,
    state: AgentState,
    known_errors: nat,
    contents: PathMap<String>,
)
    requires
        state.change_history@.len() > 0 || state.iteration > 0,
        known_errors == 0,
        claims_vaguely(reason),
    ensures
        completion_verdict(reason, state, false, known_errors, contents) == reject(
            "Completion rejected: reason '"@ + reason + "' is vague/non-state-based"@,
        ),
{
    lemma_vague_words(reason);
}

/// A completion that is not vague but points at nothing checkable is
/// rejected for not referencing observable state.
pub proof fn law_unobservable_completion_rejected(
    reason: Seq<char>,
    state: AgentState,
    contents: PathMap<String>,
)
    requires
        state.change_history@.len() > 0 || state.iteration > 0,
        !claims_vaguely(reason),
        !points_at_state(reason),
    ensures
        completion_verdict(reason, state, false, 0, contents) == reject(
            "Completion rejected: reason does not reference observable state"@,
        ),
{
    lemma_vague_words(reason);
    lemma_observable_words(reason);
}

/// For a plain task (neither a literal artifact nor a complex
/// implementation), a completion with evidence, nothing pending, no known
/// error, in concrete words that point at observable state is accepted.
pub proof fn law_concrete_completion_accepted(
    reason: Seq<char>,
    state: AgentState,
    contents: PathMap<String>,
)
    requires
        state.change_history@.len() > 0 || state.iteration > 0,
        !claims_vaguely(reason),
        points_at_state(reason),
        literal_of(state.task@) is None,
        complex_kind_of(state.task@) is None,
    ensures
        completion_verdict(reason, state, false, 0, contents) == CompletionVerdict::Accept,
{
    lemma_vague_words(reason);
    lemma_observable_words(reason);
}

/// Validates completion requests against observable state.
pub struct CompletionGate;

fn rejected(reason: String) -> (r: CompletionGateResult)
    ensures
        r@ == reject(reason@),
{
    CompletionGateResult::Reject {
        reason,
        failure_class: ValidationFailureClass::VagueCompletionReason,
    }
}

impl CompletionGate {
    /// Evaluates a completion request; `contents` holds what could be read
    /// of the written files (and of a literal target).
    pub fn evaluate(
        reason: &CompletionReason,
        state: &AgentState,
        pending_validation: bool,
        known_errors: &[String],
        contents: &PathMap<String>,
    ) -> (r: CompletionGateResult)
        ensures
            r@ == completion_verdict(
                reason@,
                *state,
                pending_validation,
                known_errors@.len(),
                *contents,
            ),
    {
        let reason_str = reason.as_str();
        if state.change_history.len() == 0 && state.iteration == 0 {
            return CompletionGateResult::Reject {
                reason: crate::text::to_owned_string(
                    "Completion rejected: no tool execution evidence",
                ),
                failure_class: ValidationFailureClass::CompletionWithoutEvidence,
            };
        }
        if pending_validation {
            return CompletionGateResult::Reject {
                reason: crate::text::to_owned_string("Completion rejected: validation pending"),
                failure_class: ValidationFailureClass::CompletionWithPendingValidation,
            };
        }
        if known_errors.len() > 0 {
            let mut m = crate::text::to_owned_string("Completion rejected: ");
            crate::text::push_decimal(&mut m, known_errors.len() as u64);
            push_str(&mut m, " known error(s) remain unaddressed");
            return CompletionGateResult::Reject {
                reason: m,
                failure_class: ValidationFailureClass::CompletionWithKnownErrors,
            };
        }
        if is_vague_reason(reason_str) {
            let mut m = crate::text::to_owned_string("Completion rejected: reason '");
            push_str(&mut m, reason_str);
            push_str(&mut m, "' is vague/non-state-based");
            return rejected(m);
        }
        if !references_observable_state(reason_str) {
            return rejected(
                crate::text::to_owned_string(
                    "Completion rejected: reason does not reference observable state",
                ),
            );
        }
        match LiteralArtifactSpec::from_task(state.task.as_str()) {
            Some(spec) => match spec.rejection_reason(reason_str, state, contents) {
                Some(m) => rejected(m),
                None => CompletionGateResult::Accept,
            },
            None => match ComplexImplementationSpec::from_task(state.task.as_str()) {
                Some(spec) => match spec.shallow_completion_rejection(state, contents) {
                    Some(m) => rejected(m),
                    None => CompletionGateResult::Accept,
                },
                None => CompletionGateResult::Accept,
            },
        }
    }
}

// ===========================================================================
// Read-before-write gate
// ===========================================================================

/// Verdict of the read-before-write gate.
#[derive(Debug, Clone)]
pub enum ReadBeforeWriteResult {
    Allow,
    Block { reason: String, failure_class: ValidationFailureClass, required_action: String },
}

/// Model of a read-before-write verdict.
pub enum WriteVerdict {
    Allow,
    Block { reason: Seq<char>, failure_class: ValidationFailureClass, required_action: Seq<char> },
}

impl View for ReadBeforeWriteResult {
    type V = WriteVerdict;

    open spec fn view(&self) -> WriteVerdict {
        match self {
            ReadBeforeWriteResult::Allow => WriteVerdict::Allow,
            ReadBeforeWriteResult::Block { reason, failure_class, required_action } =>
                WriteVerdict::Block {
                reason: reason@,
                failure_class: *failure_class,
                required_action: required_action@,
            },
        }
    }
}

/// The first (at most) 16 characters of a digest, as messages show it.
pub open spec fn hash_prefix(h: Seq<char>) -> Seq<char> {
    if h.len() <= 16 {
        h
    } else {
        h.take(16)
    }
}

/// How `Debug` prints the recorded line range of a partial read.
pub open spec fn lines_read_text(lines: Option<(usize, usize)>) -> Seq<char> {
    match lines {
        Some((a, b)) => "Some(("@ + decimal(a as nat) + ", "@ + decimal(b as nat) + "))"@,
        None => "None"@,
    }
}

/// Verdict on mutating `path` (recorded under
/// `normalized_path`): a new file needs no read; an existing one must have
/// been read, in full, and, when its current content is given, must hash to
/// what was read.
pub open spec fn write_verdict(
    path: Seq<char>,
    normalized_path: Seq<char>,
    is_existing_file: bool,
    state: AgentState,
    current_content: Option<Seq<char>>,
) -> WriteVerdict {
    if !is_existing_file {
        WriteVerdict::Allow
    } else {
        match state.files_read.lookup(normalized_path) {
            None => WriteVerdict::Block {
                reason: "Read-before-write violation: "@ + path
                    + " was never read in this session"@,
                failure_class: ValidationFailureClass::WriteWithoutRead,
                required_action: "read_file with path '"@ + path + "'"@,
            },
            Some(rec) => if !rec.is_full_read {
                WriteVerdict::Block {
                    reason: "Read-before-write violation: "@ + path + " was only partially read (lines "@
                        + lines_read_text(rec.lines_read)
                        + "), full read required for mutation"@,
                    failure_class: ValidationFailureClass::InsufficientReadScope,
                    required_action: "read_file with path '"@ + path + "' (full file)"@,
                }
            } else {
                match current_content {
                    Some(c) => if crate::hashing::content_hash(c) != rec.content_hash@ {
                        WriteVerdict::Block {
                            reason: "Read-before-write violation: "@ + path
                                + " changed after read (hash mismatch: expected "@ + hash_prefix(
                                rec.content_hash@,
                            ) + ", current "@ + hash_prefix(crate::hashing::content_hash(c))
                                + ")"@,
                            failure_class: ValidationFailureClass::StaleRead,
                            required_action: "re-read_file with path '"@ + path + "'"@,
                        }
                    } else {
                        WriteVerdict::Allow
                    },
                    None => WriteVerdict::Allow,
                }
            },
        }
    }
}

/// A write to an existing file is allowed only after a full read of it in
/// this session whose hash still matches the current content (when that is
/// known); a new file may always be written.  A file never read is blocked
/// as a write without read, one read in part as an insufficient read
/// scope, one changed since as a stale read.
pub proof fn law_read_before_write(
    path: Seq<char>,
    normalized_path: Seq<char>,
    is_existing_file: bool,
    state: AgentState,
    current_content: Option<Seq<char>>,
)
    ensures
        write_verdict(path, normalized_path, is_existing_file, state, current_content) is Allow
            <==> (!is_existing_file || (state.files_read.lookup(normalized_path) matches Some(rec)
            && rec.is_full_read && (current_content matches Some(c) ==> crate::hashing::content_hash(
            c,
        ) == rec.content_hash@))),
        is_existing_file && state.files_read.lookup(normalized_path) is None ==> (write_verdict(
            path,
            normalized_path,
            is_existing_file,
            state,
            current_content,
        ) matches WriteVerdict::Block { failure_class, .. } && failure_class
            == ValidationFailureClass::WriteWithoutRead),
        is_existing_file && (state.files_read.lookup(normalized_path) matches Some(rec)
            && !rec.is_full_read) ==> (write_verdict(
            path,
            normalized_path,
            is_existing_file,
            state,
            current_content,
        ) matches WriteVerdict::Block { failure_class, .. } && failure_class
            == ValidationFailureClass::InsufficientReadScope),
        is_existing_file && (state.files_read.lookup(normalized_path) matches Some(rec)
            && rec.is_full_read && (current_content matches Some(c)
            && crate::hashing::content_hash(c) != rec.content_hash@)) ==> (write_verdict(
            path,
            normalized_path,
            is_existing_file,
            state,
            current_content,
        ) matches WriteVerdict::Block { failure_class, .. } && failure_class
            == ValidationFailureClass::StaleRead),
{
}

pub fn hash_prefix_text(h: &str) -> (r: String)
    ensures
        r@ == hash_prefix(h@),
{
    let c = chars_of(h);
    if c.len() <= 16 {
        crate::text::to_owned_string(h)
    } else {
        let p = copy_range(&c, 0, 16);
        assert(p@ =~= h@.take(16));
        crate::text::string_from_chars(&p)
    }
}

fn push_lines_read(m: &mut String, lines: Option<(usize, usize)>)
    ensures
        final(m)@ == old(m)@ + lines_read_text(lines),
{
    match lines {
        Some((a, b)) => {
            push_str(m, "Some((");
            crate::text::push_decimal(m, a as u64);
            push_str(m, ", ");
            crate::text::push_decimal(m, b as u64);
            push_str(m, "))");
        },
        None => {
            push_str(m, "None");
        },
    }
    assert(final(m)@ =~= old(m)@ + lines_read_text(lines));
}

/// Validates file mutations against read authority.
pub struct ReadBeforeWriteGate;

impl ReadBeforeWriteGate {
    /// Evaluates a mutation of `path`, whose normalised form (how reads are
    /// recorded) is `normalized_path`.
    pub fn evaluate(
        path: &str,
        normalized_path: &str,
        is_existing_file: bool,
        state: &AgentState,
        current_content: Option<&str>,
    ) -> (r: ReadBeforeWriteResult)
        ensures
            r@ == write_verdict(
                path@,
                normalized_path@,
                is_existing_file,
                *state,
                match current_content {
                    Some(c) => Some(c@),
                    None => None,
                },
            ),
    {
        if !is_existing_file {
            return ReadBeforeWriteResult::Allow;
        }
        let file_record = match state.files_read.get(normalized_path) {
            Some(rec) => rec,
            None => {
                let mut reason = crate::text::to_owned_string("Read-before-write violation: ");
                push_str(&mut reason, path);
                push_str(&mut reason, " was never read in this session");
                let mut action = crate::text::to_owned_string("read_file with path '");
                push_str(&mut action, path);
                push_str(&mut action, "'");
                return ReadBeforeWriteResult::Block {
                    reason,
                    failure_class: ValidationFailureClass::WriteWithoutRead,
                    required_action: action,
                };
            },
        };
        if !file_record.is_full_read {
            let mut reason = crate::text::to_owned_string("Read-before-write violation: ");
            push_str(&mut reason, path);
            push_str(&mut reason, " was only partially read (lines ");
            push_lines_read(&mut reason, file_record.lines_read);
            push_str(&mut reason, "), full read required for mutation");
            let mut action = crate::text::to_owned_string("read_file with path '");
            push_str(&mut action, path);
            push_str(&mut action, "' (full file)");
            return ReadBeforeWriteResult::Block {
                reason,
                failure_class: ValidationFailureClass::InsufficientReadScope,
                required_action: action,
            };
        }
        if let Some(content) = current_content {
            let current_hash = crate::hashing::compute_content_hash(content);
            if !str_eq(current_hash.as_str(), file_record.content_hash.as_str()) {
                let mut reason = crate::text::to_owned_string("Read-before-write violation: ");
                push_str(&mut reason, path);
                push_str(&mut reason, " changed after read (hash mismatch: expected ");
                let expected = hash_prefix_text(file_record.content_hash.as_str());
                push_str(&mut reason, expected.as_str());
                push_str(&mut reason, ", current ");
                let current = hash_prefix_text(current_hash.as_str());
                push_str(&mut reason, current.as_str());
                push_str(&mut reason, ")");
                let mut action = crate::text::to_owned_string("re-read_file with path '");
                push_str(&mut action, path);
                push_str(&mut action, "'");
                return ReadBeforeWriteResult::Block {
                    reason,
                    failure_class: ValidationFailureClass::StaleRead,
                    required_action: action,
                };
            }
        }
        ReadBeforeWriteResult::Allow
    }
}

// ===========================================================================
// Gate integration
// ===========================================================================

/// What the runtime does after the gates ran.
#[derive(Debug, Clone, PartialEq, Eq)]
pub enum GateDecision {
    Proceed,
    Block { reason: String, required_action: String },
    Halt { reason: String },
}

/// One gate's decision, for the structured log.
#[derive(Debug, Clone)]
pub struct GateLogEntry {
    pub gate_type: String,
    pub path: Option<String>,
    pub decision: String,
    pub reason: String,
}

/// Everything the gates decided for one planner output.
#[derive(Debug, Clone)]
pub struct GateCheckReport {
    pub completion_gate: Option<CompletionGateResult>,
    pub read_before_write_gates: Vec<(String, ReadBeforeWriteResult)>,
    pub overall_decision: GateDecision,
    pub log_entries: Vec<GateLogEntry>,
}

/// What was observed of one mutation target before the gates ran.
#[derive(Debug, Clone)]
pub struct MutationProbe {
    pub path: String,
    pub normalized_path: String,
    pub is_existing: bool,
    pub current_content: Option<String>,
}

/// The index of the first blocked mutation, if any.
pub open spec fn first_block(results: Seq<(String, ReadBeforeWriteResult)>) -> Option<int>
    decreases results.len(),
{
    if results.len() == 0 {
        None
    } else {
        match first_block(results.drop_last()) {
            Some(i) => Some(i),
            None => if results.last().1 is Block {
                Some(results.len() - 1)
            } else {
                None
            },
        }
    }
}

/// A rejected completion blocks first, then the first blocked mutation;
/// otherwise the runtime proceeds.
pub fn compute_overall_decision(
    completion: &Option<CompletionGateResult>,
    rbw_results: &[(String, ReadBeforeWriteResult)],
) -> (r: GateDecision)
    ensures
        match completion {
            Some(CompletionGateResult::Reject { reason, .. }) => r matches GateDecision::Block {
                reason: rr,
                required_action: ra,
            } && rr@ == reason@ && ra@ == "Continue with tool_call to make progress"@,
            _ => match first_block(rbw_results@) {
                Some(i) => match rbw_results@[i].1 {
                    ReadBeforeWriteResult::Block { reason, required_action, .. } => r matches GateDecision::Block {
                        reason: rr,
                        required_action: ra,
                    } && rr@ == reason@ && ra@ == required_action@,
                    _ => false,
                },
                None => r == GateDecision::Proceed,
            },
        },
{
    if let Some(CompletionGateResult::Reject { reason, .. }) = completion {
        return GateDecision::Block {
            reason: crate::text::to_owned_string(reason.as_str()),
            required_action: crate::text::to_owned_string(
                "Continue with tool_call to make progress",
            ),
        };
    }
    let mut i: usize = 0;
    while i < rbw_results.len()
        invariant
            i <= rbw_results@.len(),
            first_block(rbw_results@.take(i as int)) is None,
            match completion {
                Some(CompletionGateResult::Reject { .. }) => false,
                _ => true,
            },
        decreases rbw_results.len() - i,
    {
        assert(rbw_results@.take(i + 1).drop_last() =~= rbw_results@.take(i as int));
        if let ReadBeforeWriteResult::Block { reason, required_action, .. } = &rbw_results[i].1 {
            proof {
                lemma_first_block_prefix(rbw_results@, i as int);
            }
            return GateDecision::Block {
                reason: crate::text::to_owned_string(reason.as_str()),
                required_action: crate::text::to_owned_string(required_action.as_str()),
            };
        }
        i = i + 1;
    }
    assert(rbw_results@.take(rbw_results.len() as int) =~= rbw_results@);
    GateDecision::Proceed
}

proof fn lemma_first_block_prefix(s: Seq<(String, ReadBeforeWriteResult)>, i: int)
    requires
        0 <= i < s.len(),
        first_block(s.take(i)) is None,
        s[i].1 is Block,
    ensures
        first_block(s) == Some(i),
    decreases s.len(),
{
    if i < s.len() - 1 {
        assert(s.drop_last().take(i) =~= s.take(i));
        lemma_first_block_prefix(s.drop_last(), i);
    } else {
        assert(s.drop_last() =~= s.take(i));
    }
}


// ===========================================================================
// Completion readiness
// ===========================================================================

/// Some stage of the report passed and is `stage`.
pub open spec fn passed_stage(report: ValidationReport, stage: ValidationStage) -> bool {
    exists|i: int|
        0 <= i < report.stage_results@.len() && (#[trigger] report.stage_results@[i]).stage
            == stage && report.stage_results@[i].passed
}

fn has_passed_stage(report: &ValidationReport, stage: ValidationStage) -> (r: bool)
    ensures
        r == passed_stage(*report, stage),
{
    let mut i: usize = 0;
    while i < report.stage_results.len()
        invariant
            i <= report.stage_results@.len(),
            forall|j: int|
                0 <= j < i ==> !((#[trigger] report.stage_results@[j]).stage == stage
                    && report.stage_results@[j].passed),
        decreases report.stage_results.len() - i,
    {
        if report.stage_results[i].stage == stage && report.stage_results[i].passed {
            return true;
        }
        i = i + 1;
    }
    false
}

/// Whether a syntax stage passed.
pub fn has_passed_syntax_validation(report: &ValidationReport) -> (r: bool)
    ensures
        r == passed_stage(*report, ValidationStage::Syntax),
{
    has_passed_stage(report, ValidationStage::Syntax)
}

/// Whether a test stage passed.
pub fn has_passed_test_validation(report: &ValidationReport) -> (r: bool)
    ensures
        r == passed_stage(*report, ValidationStage::Test),
{
    has_passed_stage(report, ValidationStage::Test)
}

/// Some written path is a Rust source file.
pub open spec fn wrote_rust(state: AgentState) -> bool {
    exists|i: int|
        0 <= i < written_path_list(state).len() && lowered_extension(
            #[trigger] written_path_list(state)[i],
        ) == "rs"@
}

fn has_written_rust_artifact(state: &AgentState) -> (r: bool)
    ensures
        r == wrote_rust(*state),
{
    let paths = written_path_texts(state);
    let ghost pv = paths@.map_values(|s: String| s@);
    let mut i: usize = 0;
    while i < paths.len()
        invariant
            i <= paths@.len(),
            pv == paths@.map_values(|s: String| s@),
            pv == written_path_list(*state),
            forall|j: int| 0 <= j < i ==> lowered_extension(#[trigger] pv[j]) != "rs"@,
        decreases paths.len() - i,
    {
        let e = lowered_extension_of(paths[i].as_str());
        if str_eq(e.as_str(), "rs") {
            assert(lowered_extension(pv[i as int]) == "rs"@);
            return true;
        }
        i = i + 1;
    }
    false
}

/// A passed stage whose message mentions cargo check, or a passed syntax
/// stage when Rust was written.
pub open spec fn passed_check(report: ValidationReport, state: AgentState) -> bool {
    exists|i: int|
        0 <= i < report.stage_results@.len() && (#[trigger] report.stage_results@[i]).passed && ((
        contains_seq(lowercase_of(report.stage_results@[i].message@), "cargo"@) && contains_seq(
            lowercase_of(report.stage_results@[i].message@),
            "check"@,
        )) || (report.stage_results@[i].stage == ValidationStage::Syntax && wrote_rust(state)))
}

/// Whether a cargo check (or, for Rust work, a syntax check) passed.
pub fn has_passed_check_validation(report: &ValidationReport, state: &AgentState) -> (r: bool)
    ensures
        r == passed_check(*report, *state),
{
    let rust = has_written_rust_artifact(state);
    let mut i: usize = 0;
    while i < report.stage_results.len()
        invariant
            i <= report.stage_results@.len(),
            rust == wrote_rust(*state),
            forall|j: int|
                0 <= j < i ==> !((#[trigger] report.stage_results@[j]).passed && ((contains_seq(
                    lowercase_of(report.stage_results@[j].message@),
                    "cargo"@,
                ) && contains_seq(lowercase_of(report.stage_results@[j].message@), "check"@)) || (
                report.stage_results@[j].stage == ValidationStage::Syntax && wrote_rust(*state)))),
        decreases report.stage_results.len() - i,
    {
        let res = &report.stage_results[i];
        if res.passed {
            let lower = to_lowercase(res.message.as_str());
            let explicit = str_contains(lower.as_str(), "cargo") && str_contains(
                lower.as_str(),
                "check",
            );
            let syntax = res.stage == ValidationStage::Syntax && rust;
            if explicit || syntax {
                return true;
            }
        }
        i = i + 1;
    }
    false
}

/// Tests passed, and cargo check too when the task asks for it.
pub open spec fn passed_requested(task: Seq<char>, report: ValidationReport, state: AgentState) -> bool {
    passed_stage(report, ValidationStage::Test) && (!requests_cargo_check(task) || passed_check(
        report,
        state,
    ))
}

pub fn has_passed_requested_validation(task: &str, report: &ValidationReport, state: &AgentState) -> (r:
    bool)
    ensures
        r == passed_requested(task@, *report, *state),
{
    has_passed_test_validation(report) && (!task_requests_cargo_check(task)
        || has_passed_check_validation(report, state))
}

/// Extensions of code that needs a syntax check.
pub open spec fn code_extension(e: Seq<char>) -> bool {
    e == "py"@ || e == "rs"@ || e == "js"@ || e == "mjs"@ || e == "cjs"@ || e == "ts"@ || e
        == "tsx"@ || e == "jsx"@ || e == "sh"@
}

/// The written paths of code files, in written order.
pub open spec fn code_paths(paths: Seq<Seq<char>>) -> Seq<Seq<char>>
    decreases paths.len(),
{
    if paths.len() == 0 {
        Seq::empty()
    } else if code_extension(lowered_extension(paths.last())) {
        code_paths(paths.drop_last()).push(paths.last())
    } else {
        code_paths(paths.drop_last())
    }
}

/// The written code files, sorted.
pub open spec fn code_targets(state: AgentState) -> Seq<Seq<char>> {
    sort_seqs(code_paths(written_path_list(state)))
}

fn written_code_validation_targets(state: &AgentState) -> (r: Vec<String>)
    ensures
        r@.map_values(|s: String| s@) == code_targets(*state),
{
    let paths = written_path_texts(state);
    let ghost pv = paths@.map_values(|s: String| s@);
    let mut out: Vec<String> = Vec::new();
    let mut i: usize = 0;
    while i < paths.len()
        invariant
            i <= paths@.len(),
            pv == paths@.map_values(|s: String| s@),
            pv == written_path_list(*state),
            out@.map_values(|s: String| s@) == code_paths(pv.take(i as int)),
        decreases paths.len() - i,
    {
        assert(pv.take(i + 1).drop_last() =~= pv.take(i as int));
        let e = lowered_extension_of(paths[i].as_str());
        let es = e.as_str();
        if str_eq(es, "py") || str_eq(es, "rs") || str_eq(es, "js") || str_eq(es, "mjs") || str_eq(
            es,
            "cjs",
        ) || str_eq(es, "ts") || str_eq(es, "tsx") || str_eq(es, "jsx") || str_eq(es, "sh") {
            let p = crate::text::to_owned_string(paths[i].as_str());
            let ghost before = out@.map_values(|s: String| s@);
            let ghost v = p@;
            out.push(p);
            assert(out@.map_values(|s: String| s@) =~= before.push(v));
        }
        i = i + 1;
    }
    assert(pv.take(paths.len() as int) =~= pv);
    sort_texts(&out)
}

/// The readiness reason when no completion rule applies.
pub open spec fn no_rule_message() -> Seq<char> {
    "no deterministic post-success completion rule matched this"@ + " task"@
}

/// How many of the errors block completion.
pub open spec fn blocking_count(errors: Seq<Seq<char>>) -> nat
    decreases errors.len(),
{
    if errors.len() == 0 {
        0
    } else {
        blocking_count(errors.drop_last()) + if nonessential_error(errors.last()) {
            0nat
        } else {
            1nat
        }
    }
}

/// Readiness as a flag and its reason.
pub open spec fn readiness_view(r: CompletionReadiness) -> (bool, Seq<char>) {
    match r {
        CompletionReadiness::Ready { reason } => (true, reason@),
        CompletionReadiness::NotReady { reason } => (false, reason@),
    }
}

/// Whether the state is ready to complete, and why, by the deterministic
/// post-success rules.
pub open spec fn readiness_of(
    state: AgentState,
    pending_validation: bool,
    errors: Seq<Seq<char>>,
    contents: PathMap<String>,
) -> (bool, Seq<char>) {
    let task = state.task@;
    let written = join_seqs(reported_paths(state), ", "@);
    if pending_validation {
        (false, "validation is still pending"@)
    } else if blocking_count(errors) > 0 {
        (false, decimal(blocking_count(errors)) + " known error(s) remain"@)
    } else if state.change_history@.len() == 0 && state.files_written@.len() == 0 {
        (false, "no write evidence has been recorded"@)
    } else {
        match state.last_validation_report {
            None => (false, "no accepted validation report is available"@),
            Some(rep) => if !(rep.decision is Accept) {
                (false, "no accepted validation report is available"@)
            } else if code_targets(state).len() > 0 && !passed_stage(rep, ValidationStage::Syntax) {
                (
                    false,
                    "code artifacts require passed syntax validation: "@ + join_seqs(
                        code_targets(state),
                        ", "@,
                    ),
                )
            } else {
                match literal_of(task) {
                    Some((t, c)) => {
                        let reason = "Created "@ + t
                            + " with the requested literal artifact content"@;
                        match literal_rejection(t, c, reason, state, contents) {
                            Some(m) => (false, m),
                            None => (true, reason),
                        }
                    },
                    None => match complex_kind_of(task) {
                        Some(k) => match shallow_rejection(
                            complex_task_kind(k),
                            complex_surfaces(k),
                            state,
                            contents,
                        ) {
                            Some(m) => (false, m),
                            None => (
                                true,
                                "Completed "@ + complex_task_kind(k) + " with required surfaces ["@
                                    + join_seqs(
                                    complex_surfaces(k).map_values(
                                        |s: (Seq<char>, SurfaceKind)| s.0,
                                    ),
                                    ", "@,
                                ) + "] in ["@ + written + "]"@,
                            ),
                        },
                        None => if requests_validation_finalization(task) && passed_requested(
                            task,
                            rep,
                            state,
                        ) && state.files_written@.len() > 0 {
                            (
                                true,
                                "Validated requested changes in ["@ + written + "]; "@ + (if requests_cargo_check(
                                    task,
                                ) {
                                    "cargo check and cargo test passed"@
                                } else {
                                    "cargo test passed"@
                                }),
                            )
                        } else {
                            (false, no_rule_message())
                        },
                    },
                }
            },
        }
    }
}

fn count_blocking(errors: &[String]) -> (r: usize)
    ensures
        r == blocking_count(errors@.map_values(|s: String| s@)),
{
    let ghost ev = errors@.map_values(|s: String| s@);
    let mut n: usize = 0;
    let mut i: usize = 0;
    while i < errors.len()
        invariant
            i <= errors@.len(),
            ev == errors@.map_values(|s: String| s@),
            n == blocking_count(ev.take(i as int)),
            n <= i,
        decreases errors.len() - i,
    {
        assert(ev.take(i + 1).drop_last() =~= ev.take(i as int));
        if !is_nonessential_post_success_error(errors[i].as_str()) {
            n = n + 1;
        }
        i = i + 1;
    }
    assert(ev.take(errors.len() as int) =~= ev);
    n
}

fn surface_name_list(spec: &ComplexImplementationSpec) -> (r: Vec<String>)
    ensures
        r@.map_values(|s: String| s@) == surfaces_view(spec.required_surfaces@).map_values(
            |s: (Seq<char>, SurfaceKind)| s.0,
        ),
{
    let ghost all = surfaces_view(spec.required_surfaces@).map_values(
        |s: (Seq<char>, SurfaceKind)| s.0,
    );
    let mut out: Vec<String> = Vec::new();
    let mut i: usize = 0;
    while i < spec.required_surfaces.len()
        invariant
            i <= spec.required_surfaces@.len(),
            all == surfaces_view(spec.required_surfaces@).map_values(
                |s: (Seq<char>, SurfaceKind)| s.0,
            ),
            out@.map_values(|s: String| s@) == all.take(i as int),
        decreases spec.required_surfaces.len() - i,
    {
        let p = crate::text::to_owned_string(spec.required_surfaces[i].name);
        let ghost before = out@.map_values(|s: String| s@);
        let ghost v = p@;
        out.push(p);
        assert(out@.map_values(|s: String| s@) =~= before.push(v));
        i = i + 1;
        assert(before.push(v) =~= all.take(i as int));
    }
    assert(all.take(spec.required_surfaces.len() as int) =~= all);
    out
}

fn not_ready(reason: String) -> (r: CompletionReadiness)
    ensures
        readiness_view(r) == (false, reason@),
{
    CompletionReadiness::NotReady { reason }
}

fn ready(reason: String) -> (r: CompletionReadiness)
    ensures
        readiness_view(r) == (true, reason@),
{
    CompletionReadiness::Ready { reason }
}

impl CompletionGate {
    /// Whether the state is ready to complete by the deterministic
    /// post-success rules, and why.
    #[verifier::rlimit(60)]
    pub fn readiness(
        state: &AgentState,
        pending_validation: bool,
        known_errors: &[String],
        contents: &PathMap<String>,
    ) -> (r: CompletionReadiness)
        ensures
            readiness_view(r) == readiness_of(
                *state,
                pending_validation,
                known_errors@.map_values(|s: String| s@),
                *contents,
            ),
    {
        if pending_validation {
            return not_ready(crate::text::to_owned_string("validation is still pending"));
        }
        let blocking = count_blocking(known_errors);
        if blocking > 0 {
            let mut m = String::new();
            crate::text::push_decimal(&mut m, blocking as u64);
            push_str(&mut m, " known error(s) remain");
            return not_ready(m);
        }
        if state.change_history.len() == 0 && state.files_written.len() == 0 {
            return not_ready(crate::text::to_owned_string("no write evidence has been recorded"));
        }
        let report = match &state.last_validation_report {
            Some(rep) => rep,
            None => {
                return not_ready(
                    crate::text::to_owned_string("no accepted validation report is available"),
                );
            },
        };
        if report.decision != ValidationDecision::Accept {
            return not_ready(
                crate::text::to_owned_string("no accepted validation report is available"),
            );
        }
        let targets = written_code_validation_targets(state);
        if targets.len() > 0 && !has_passed_syntax_validation(report) {
            let mut m = crate::text::to_owned_string(
                "code artifacts require passed syntax validation: ",
            );
            let joined = join_texts(&targets, ", ");
            push_str(&mut m, joined.as_str());
            return not_ready(m);
        }
        Self::readiness_by_task(state, report, contents)
    }

    #[verifier::rlimit(60)]
    fn readiness_by_task(state: &AgentState, report: &ValidationReport, contents: &PathMap<String>) -> (r:
        CompletionReadiness)
        requires
            state.last_validation_report == Some(*report),
            report.decision is Accept,
            !(code_targets(*state).len() > 0 && !passed_stage(*report, ValidationStage::Syntax)),
            !(state.change_history@.len() == 0 && state.files_written@.len() == 0),
        ensures
            readiness_view(r) == readiness_of(*state, false, Seq::empty(), *contents),
    {
        let task = state.task.as_str();
        if let Some(spec) = LiteralArtifactSpec::from_task(task) {
            let mut reason = crate::text::to_owned_string("Created ");
            push_str(&mut reason, spec.target_path.as_str());
            push_str(&mut reason, " with the requested literal artifact content");
            return match spec.rejection_reason(reason.as_str(), state, contents) {
                Some(m) => not_ready(m),
                None => ready(reason),
            };
        }
        let written = written_paths(state);
        let written_text = join_texts(&written, ", ");
        if let Some(spec) = ComplexImplementationSpec::from_task(task) {
            if let Some(m) = spec.shallow_completion_rejection(state, contents) {
                return not_ready(m);
            }
            let names = surface_name_list(&spec);
            let surfaces = join_texts(&names, ", ");
            let mut reason = crate::text::to_owned_string("Completed ");
            push_str(&mut reason, spec.task_kind);
            push_str(&mut reason, " with required surfaces [");
            push_str(&mut reason, surfaces.as_str());
            push_str(&mut reason, "] in [");
            push_str(&mut reason, written_text.as_str());
            push_str(&mut reason, "]");
            return ready(reason);
        }
        if task_requests_validation_finalization(task) && has_passed_requested_validation(
            task,
            report,
            state,
        ) && state.files_written.len() > 0 {
            let summary = if task_requests_cargo_check(task) {
                "cargo check and cargo test passed"
            } else {
                "cargo test passed"
            };
            let mut reason = crate::text::to_owned_string("Validated requested changes in [");
            push_str(&mut reason, written_text.as_str());
            push_str(&mut reason, "]; ");
            push_str(&mut reason, summary);
            return ready(reason);
        }
        let mut m = crate::text::to_owned_string(
            "no deterministic post-success completion rule matched this",
        );
        push_str(&mut m, " task");
        not_ready(m)
    }
}


proof fn lemma_first_block_none(s: Seq<(String, ReadBeforeWriteResult)>)
    ensures
        first_block(s) is None <==> forall|i: int| 0 <= i < s.len() ==> !((#[trigger] s[i]).1 is Block),
    decreases s.len(),
{
    if s.len() > 0 {
        lemma_first_block_none(s.drop_last());
        if first_block(s) is None {
            assert forall|i: int| 0 <= i < s.len() implies !((#[trigger] s[i]).1 is Block) by {
                if i < s.len() - 1 {
                    assert(s.drop_last()[i] == s[i]);
                }
            }
        } else {
            if first_block(s.drop_last()) is None {
                assert(s[s.len() - 1].1 is Block);
            } else {
                let j = choose|j: int|
                    0 <= j < s.drop_last().len() && (#[trigger] s.drop_last()[j]).1 is Block;
                assert(s[j] == s.drop_last()[j]);
            }
        }
    }
}

fn completion_log(result: &CompletionGateResult) -> (r: GateLogEntry)
    ensures
        r.gate_type@ == "CompletionGate"@,
        r.path is None,
{
    match result {
        CompletionGateResult::Accept => GateLogEntry {
            gate_type: crate::text::to_owned_string("CompletionGate"),
            path: None,
            decision: crate::text::to_owned_string("Accept"),
            reason: crate::text::to_owned_string("Completion criteria satisfied"),
        },
        CompletionGateResult::Reject { reason, .. } => GateLogEntry {
            gate_type: crate::text::to_owned_string("CompletionGate"),
            path: None,
            decision: crate::text::to_owned_string("Reject"),
            reason: crate::text::to_owned_string(reason.as_str()),
        },
    }
}

fn write_log(path: &str, result: &ReadBeforeWriteResult) -> (r: GateLogEntry)
    ensures
        r.gate_type@ == "ReadBeforeWriteGate"@,
        r.path matches Some(p) && p@ == path@,
{
    match result {
        ReadBeforeWriteResult::Allow => GateLogEntry {
            gate_type: crate::text::to_owned_string("ReadBeforeWriteGate"),
            path: Some(crate::text::to_owned_string(path)),
            decision: crate::text::to_owned_string("Allow"),
            reason: crate::text::to_owned_string("Read authority confirmed"),
        },
        ReadBeforeWriteResult::Block { reason, .. } => GateLogEntry {
            gate_type: crate::text::to_owned_string("ReadBeforeWriteGate"),
            path: Some(crate::text::to_owned_string(path)),
            decision: crate::text::to_owned_string("Block"),
            reason: crate::text::to_owned_string(reason.as_str()),
        },
    }
}

/// Runs every gate that applies to a planner output: the completion gate
/// for a completion claim with a reason, the read-before-write gate for
/// each mutation target (as observed in `probes`), and the overall
/// decision.
#[verifier::rlimit(80)]
pub fn run_gates(
    state: &AgentState,
    is_completion: bool,
    completion_reason: Option<&CompletionReason>,
    probes: &[MutationProbe],
    pending_validation: bool,
    known_errors: &[String],
    contents: &PathMap<String>,
) -> (r: GateCheckReport)
    ensures
        match (is_completion, completion_reason) {
            (true, Some(reason)) => r.completion_gate matches Some(g) && g@ == completion_verdict(
                reason@,
                *state,
                pending_validation,
                known_errors@.len(),
                *contents,
            ),
            _ => r.completion_gate is None,
        },
        r.read_before_write_gates@.len() == probes@.len(),
        forall|i: int|
            0 <= i < probes@.len() ==> (#[trigger] r.read_before_write_gates@[i]).0@
                == probes@[i].path@ && r.read_before_write_gates@[i].1@ == write_verdict(
                probes@[i].path@,
                probes@[i].normalized_path@,
                probes@[i].is_existing,
                *state,
                opt_view(probes@[i].current_content),
            ),
        r.log_entries@.len() == (if r.completion_gate is Some {
            1int
        } else {
            0int
        }) + probes@.len(),
        (r.overall_decision == GateDecision::Proceed) <==> (!(r.completion_gate matches Some(
            CompletionGateResult::Reject { .. },
        )) && forall|i: int|
            0 <= i < probes@.len() ==> !((#[trigger] r.read_before_write_gates@[i]).1 is Block)),
{
    let mut log_entries: Vec<GateLogEntry> = Vec::new();
    let completion_gate = match (is_completion, completion_reason) {
        (true, Some(reason)) => {
            let result = CompletionGate::evaluate(
                reason,
                state,
                pending_validation,
                known_errors,
                contents,
            );
            log_entries.push(completion_log(&result));
            Some(result)
        },
        _ => None,
    };
    let ghost base = log_entries@.len();
    let mut results: Vec<(String, ReadBeforeWriteResult)> = Vec::new();
    let mut i: usize = 0;
    while i < probes.len()
        invariant
            i <= probes@.len(),
            results@.len() == i,
            log_entries@.len() == base + i,
            forall|j: int|
                0 <= j < i ==> (#[trigger] results@[j]).0@ == probes@[j].path@ && results@[j].1@
                    == write_verdict(
                    probes@[j].path@,
                    probes@[j].normalized_path@,
                    probes@[j].is_existing,
                    *state,
                    opt_view(probes@[j].current_content),
                ),
        decreases probes.len() - i,
    {
        let probe = &probes[i];
        let content = match &probe.current_content {
            Some(c) => Some(c.as_str()),
            None => None,
        };
        let result = ReadBeforeWriteGate::evaluate(
            probe.path.as_str(),
            probe.normalized_path.as_str(),
            probe.is_existing,
            state,
            content,
        );
        log_entries.push(write_log(probe.path.as_str(), &result));
        results.push((crate::text::to_owned_string(probe.path.as_str()), result));
        i = i + 1;
    }
    let overall_decision = compute_overall_decision(&completion_gate, &results);
    proof {
        lemma_first_block_none(results@);
        assert((overall_decision == GateDecision::Proceed) <==> (!(completion_gate matches Some(
            CompletionGateResult::Reject { .. },
        )) && first_block(results@) is None));
    }
    GateCheckReport {
        completion_gate,
        read_before_write_gates: results,
        overall_decision,
        log_entries,
    }
}

/// An existing file may be mutated only after a full read in this session
/// whose recorded hash matches the content it has now (where that content
/// is known).
pub proof fn law_mutation_needs_full_fresh_read(
    path: Seq<char>,
    normalized_path: Seq<char>,
    state: AgentState,
    current_content: Option<Seq<char>>,
)
    ensures
        write_verdict(path, normalized_path, true, state, current_content) is Allow ==> (
        state.files_read.lookup(normalized_path) matches Some(rec) && rec.is_full_read && (
        current_content matches Some(c) ==> crate::hashing::content_hash(c) == rec.content_hash@)),
{
}

/// A file read in full, and unchanged since, may be mutated: the record a
/// full read leaves behind admits the write.
pub proof fn law_full_read_admits_unchanged_write(
    path: Seq<char>,
    normalized_path: Seq<char>,
    state: AgentState,
    rec: FileRecord,
    content: Seq<char>,
)
    requires
        state.files_read.lookup(normalized_path) == Some(rec),
        rec.is_full_read,
        rec.content_hash@ == crate::hashing::content_hash(content),
    ensures
        write_verdict(path, normalized_path, true, state, Some(content)) is Allow,
        write_verdict(path, normalized_path, true, state, None) is Allow,
{
}

/// A completion is accepted only with evidence of work, nothing pending,
/// no known errors and a concrete reason that points at observable state.
pub proof fn law_completion_needs_evidence(
    reason: Seq<char>,
    state: AgentState,
    pending_validation: bool,
    known_errors: nat,
    contents: PathMap<String>,
)
    ensures
        completion_verdict(reason, state, pending_validation, known_errors, contents) is Accept
            ==> {
            &&& (state.change_history@.len() > 0 || state.iteration > 0)
            &&& !pending_validation
            &&& known_errors == 0
            &&& !vague_reason(reason)
            &&& observable_reason(reason)
        },
{
}

/// The path's names after lexical normalisation, from index `i` on, with
/// `names` kept so far and `cur` the name being read: empty and `.` names
/// vanish, and `..` drops the name before it (or nothing, at the start).
pub open spec fn normal_names_from(
    p: Seq<char>,
    i: int,
    names: Seq<Seq<char>>,
    cur: Seq<char>,
) -> Seq<Seq<char>>
    decreases p.len() - i,
{
    if i >= p.len() {
        flush_name(names, cur)
    } else if p[i] == '/' {
        normal_names_from(p, i + 1, flush_name(names, cur), seq![])
    } else {
        normal_names_from(p, i + 1, names, cur.push(p[i]))
    }
}

/// `names` after the name `cur` is read.
pub open spec fn flush_name(names: Seq<Seq<char>>, cur: Seq<char>) -> Seq<Seq<char>> {
    if cur.len() == 0 || cur == seq!['.'] {
        names
    } else if cur == seq!['.', '.'] {
        if names.len() > 0 {
            names.drop_last()
        } else {
            names
        }
    } else {
        names.push(cur)
    }
}

/// A path normalised without the file system: absolute paths keep their
/// root, the names join with `/`, and nothing left is `.`.
pub open spec fn lexical_path(p: Seq<char>) -> Seq<char> {
    let names = normal_names_from(p, 0, seq![], seq![]);
    let rooted = p.len() > 0 && p[0] == '/';
    if rooted {
        seq!['/'] + join_seqs(names, seq!['/'])
    } else if names.len() == 0 {
        seq!['.']
    } else {
        join_seqs(names, seq!['/'])
    }
}

fn flush_name_exec(names: &mut Vec<Vec<char>>, cur: Vec<char>)
    ensures
        final(names)@.map_values(|t: Vec<char>| t@) == flush_name(
            old(names)@.map_values(|t: Vec<char>| t@),
            cur@,
        ),
{
    let ghost before = names@.map_values(|t: Vec<char>| t@);
    if cur.len() == 0 || (cur.len() == 1 && cur[0] == '.') {
        proof {
            if cur@.len() == 1 {
                assert(cur@ =~= seq!['.']);
            }
        }
        return;
    }
    if cur.len() == 2 && cur[0] == '.' && cur[1] == '.' {
        assert(cur@ =~= seq!['.', '.']);
        if names.len() > 0 {
            names.pop();
            assert(names@.map_values(|t: Vec<char>| t@) =~= before.drop_last());
        }
        return;
    }
    proof {
        if cur@.len() == 1 {
            assert(cur@ != seq!['.']) by {
                assert(cur@[0] != seq!['.'][0]);
            }
        }
        if cur@.len() == 2 {
            assert(cur@ != seq!['.', '.']) by {
                if cur@[0] != '.' {
                    assert(cur@[0] != seq!['.', '.'][0]);
                } else {
                    assert(cur@[1] != seq!['.', '.'][1]);
                }
            }
        }
    }
    let ghost cv = cur@;
    names.push(cur);
    assert(names@.map_values(|t: Vec<char>| t@) =~= before.push(cv));
}

/// Normalises `path` as the runtime keys it: its canonical form where the
/// file system gave one (`canonical`, for a path that exists), otherwise
/// lexically (see `lexical_path`).
pub fn normalize_path(path: &str, canonical: Option<String>) -> (r: String)
    ensures
        r@ == match canonical {
            Some(c) => c@,
            None => lexical_path(path@),
        },
{
    if let Some(c) = canonical {
        return c;
    }
    let p = crate::text::chars_of(path);
    let mut names: Vec<Vec<char>> = Vec::new();
    let mut cur: Vec<char> = Vec::new();
    let mut i: usize = 0;
    assert(names@.map_values(|t: Vec<char>| t@) =~= Seq::<Seq<char>>::empty());
    while i < p.len()
        invariant
            i <= p@.len(),
            p@ == path@,
            normal_names_from(p@, i as int, names@.map_values(|t: Vec<char>| t@), cur@)
                == normal_names_from(p@, 0, seq![], seq![]),
        decreases p@.len() - i,
    {
        if p[i] == '/' {
            let c = cur;
            cur = Vec::new();
            flush_name_exec(&mut names, c);
            assert(cur@ =~= seq![]);
        } else {
            cur.push(p[i]);
        }
        i = i + 1;
    }
    flush_name_exec(&mut names, cur);
    let sep = crate::text::chars_of("/");
    proof {
        reveal_strlit("/");
        assert(sep@ =~= seq!['/']);
    }
    let joined = crate::text::join_chars(&names, &sep);
    if p.len() > 0 && p[0] == '/' {
        let mut out = sep;
        crate::text::append_chars(&mut out, &joined);
        crate::text::string_from_chars(&out)
    } else if names.len() == 0 {
        let dot = crate::text::chars_of(".");
        proof {
            reveal_strlit(".");
            assert(dot@ =~= seq!['.']);
        }
        crate::text::string_from_chars(&dot)
    } else {
        crate::text::string_from_chars(&joined)
    }
}

} // verus!

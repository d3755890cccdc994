//! Search tools: `grep_search` and `list_dir`, with the matching and
//! filtering rules they apply to what the file system yields.
use crate::patterns::{compile, is_match, regex_compiles, regex_matches, CompiledPattern};
use crate::text::{
    append_chars, chars_contains, chars_of, contains_seq, decimal, join_chars, join_seqs,
    lines_chars, lowercase_of, push_decimal, push_str,
    replace_all, replace_all_chars, str_eq, string_from_chars, text_lines, to_lowercase,
    to_owned_string,
};
use crate::tool_registry::Tool;
use crate::tools::execute_command_tool::{
    arg_bool, arg_usize, lookup_bool, lookup_unsigned, min_nat, option_or,
};
use crate::types::{ExecutionMode, ToolArguments, ToolName};
use vstd::prelude::*;

verus! {

/// A match found by `grep_search`.
#[derive(Debug, Clone)]
pub struct GrepMatch {
    pub file_path: String,
    pub line_number: usize,
    pub content: String,
    pub context_before: Vec<String>,
    pub context_after: Vec<String>,
}

/// What a `GrepMatch` holds, as plain sequences.
pub struct GrepMatchView {
    pub file_path: Seq<char>,
    pub line_number: nat,
    pub content: Seq<char>,
    pub context_before: Seq<Seq<char>>,
    pub context_after: Seq<Seq<char>>,
}

impl View for GrepMatch {
    type V = GrepMatchView;

    open spec fn view(&self) -> GrepMatchView {
        GrepMatchView {
            file_path: self.file_path@,
            line_number: self.line_number as nat,
            content: self.content@,
            context_before: self.context_before@.map_values(|s: String| s@),
            context_after: self.context_after@.map_values(|s: String| s@),
        }
    }
}

/// The options `grep_search` reads from its arguments.
pub struct GrepOptions {
    pub case_sensitive: bool,
    pub max_results: usize,
    pub context_lines: usize,
    pub use_regex: bool,
}

/// What `grep_search` reads from `args`: case sensitivity and regex mode
/// default to on; at most 100 results (50 by default) and at most five
/// context lines (two by default); a value that does not parse counts as
/// absent.
pub open spec fn grep_options_ok(o: GrepOptions, args: ToolArguments) -> bool {
    &&& o.case_sensitive == option_or(lookup_bool(args, "case_sensitive"@), true)
    &&& o.use_regex == option_or(lookup_bool(args, "use_regex"@), true)
    &&& o.max_results == min_nat(
        option_or(lookup_unsigned(args, "max_results"@, usize::MAX as nat), 50),
        100,
    )
    &&& o.context_lines == min_nat(
        option_or(lookup_unsigned(args, "context_lines"@, usize::MAX as nat), 2),
        5,
    )
}

/// Without options a search is case-sensitive, uses regexes, reports at
/// most 50 matches with two context lines; asked-for values are capped at
/// 100 matches and five context lines.
pub proof fn law_grep_options(o: GrepOptions, args: ToolArguments)
    requires
        grep_options_ok(o, args),
    ensures
        lookup_bool(args, "case_sensitive"@) is None ==> o.case_sensitive,
        lookup_bool(args, "use_regex"@) is None ==> o.use_regex,
        lookup_unsigned(args, "max_results"@, usize::MAX as nat) is None ==> o.max_results == 50,
        lookup_unsigned(args, "context_lines"@, usize::MAX as nat) is None ==> o.context_lines == 2,
        o.max_results <= 100,
        o.context_lines <= 5,
{
}

/// The regex `grep_search` compiles for `query`: case-insensitive unless
/// asked otherwise.
pub open spec fn grep_regex(query: Seq<char>, case_sensitive: bool) -> Seq<char> {
    if case_sensitive {
        query
    } else {
        "(?i)"@ + query
    }
}

/// Whether `line` is a hit: a regex match, or (as a literal) a substring,
/// compared in lowercase when the search ignores case.
pub open spec fn line_hit(
    line: Seq<char>,
    query: Seq<char>,
    case_sensitive: bool,
    use_regex: bool,
) -> bool {
    if use_regex {
        regex_matches(grep_regex(query, case_sensitive), line)
    } else if case_sensitive {
        contains_seq(line, query)
    } else {
        contains_seq(lowercase_of(line), lowercase_of(query))
    }
}

/// A literal search hits the lines that contain the query (both
/// lowercased when case is ignored); a regex search matches the query as a
/// regex, prefixed with `(?i)` when case is ignored.
pub proof fn law_line_hits(line: Seq<char>, query: Seq<char>, case_sensitive: bool, use_regex: bool)
    ensures
        !use_regex && case_sensitive ==> (line_hit(line, query, case_sensitive, use_regex)
            <==> contains_seq(line, query)),
        !use_regex && !case_sensitive ==> (line_hit(line, query, case_sensitive, use_regex)
            <==> contains_seq(lowercase_of(line), lowercase_of(query))),
        use_regex && case_sensitive ==> (line_hit(line, query, case_sensitive, use_regex)
            <==> regex_matches(query, line)),
        use_regex && !case_sensitive ==> (line_hit(line, query, case_sensitive, use_regex)
            <==> regex_matches("(?i)"@ + query, line)),
{
}

/// The indices of the hits among the first `n` lines, in order.
pub open spec fn hit_lines(
    lines: Seq<Seq<char>>,
    n: int,
    query: Seq<char>,
    case_sensitive: bool,
    use_regex: bool,
) -> Seq<int>
    decreases n,
{
    if n <= 0 {
        seq![]
    } else {
        let prev = hit_lines(lines, n - 1, query, case_sensitive, use_regex);
        if line_hit(lines[n - 1], query, case_sensitive, use_regex) {
            prev.push(n - 1)
        } else {
            prev
        }
    }
}

/// The hits among fewer lines are the first hits among more.
pub proof fn lemma_hit_lines_prefix(
    lines: Seq<Seq<char>>,
    i: int,
    j: int,
    query: Seq<char>,
    case_sensitive: bool,
    use_regex: bool,
)
    requires
        0 <= i <= j,
    ensures
        hit_lines(lines, i, query, case_sensitive, use_regex).len() <= hit_lines(
            lines,
            j,
            query,
            case_sensitive,
            use_regex,
        ).len(),
        forall|k: int|
            0 <= k < hit_lines(lines, i, query, case_sensitive, use_regex).len() ==> hit_lines(
                lines,
                j,
                query,
                case_sensitive,
                use_regex,
            )[k] == hit_lines(lines, i, query, case_sensitive, use_regex)[k],
    decreases j - i,
{
    if i < j {
        lemma_hit_lines_prefix(lines, i, j - 1, query, case_sensitive, use_regex);
    }
}

/// The match reported for line `idx` (0-based) with up to `ctx` lines of
/// context on each side.
pub open spec fn match_at(
    path: Seq<char>,
    lines: Seq<Seq<char>>,
    idx: int,
    ctx: nat,
) -> GrepMatchView {
    let start = if idx >= ctx {
        idx - ctx
    } else {
        0
    };
    let end = if idx + ctx + 1 <= lines.len() {
        idx + ctx + 1
    } else {
        lines.len() as int
    };
    GrepMatchView {
        file_path: path,
        line_number: (idx + 1) as nat,
        content: lines[idx],
        context_before: lines.subrange(start, idx),
        context_after: lines.subrange(idx + 1, end),
    }
}

/// What searching `content` gives: the first `budget` hits (all of them
/// where there are fewer), each with its context.
pub open spec fn search_ok(
    ms: Seq<GrepMatchView>,
    path: Seq<char>,
    content: Seq<char>,
    query: Seq<char>,
    case_sensitive: bool,
    context_lines: nat,
    use_regex: bool,
    budget: nat,
) -> bool {
    let lines = text_lines(content);
    let hits = hit_lines(lines, lines.len() as int, query, case_sensitive, use_regex);
    let k = min_nat(budget, hits.len());
    &&& ms.len() == k
    &&& forall|j: int| 0 <= j < k ==> ms[j] == match_at(path, lines, #[trigger] hits[j], context_lines)
}

/// A numbered context line of the report.
pub open spec fn context_line(number: nat, text: Seq<char>) -> Seq<char> {
    "  "@ + decimal(number) + " | "@ + text
}

/// The report lines of one match: its location, the context before (the
/// first numbered `line_number - ctx`), the line itself and the context
/// after.
pub open spec fn match_report(m: GrepMatchView, ctx: nat) -> Seq<Seq<char>> {
    let first = if m.line_number >= ctx + 1 {
        (m.line_number - (ctx + 1)) as nat
    } else {
        0nat
    };
    seq!["\n"@ + m.file_path + ":"@ + decimal(m.line_number) + ":"@] + Seq::new(
        m.context_before.len(),
        |i: int| context_line((first + i + 1) as nat, m.context_before[i]),
    ) + seq!["> "@ + decimal(m.line_number) + " | "@ + m.content] + Seq::new(
        m.context_after.len(),
        |i: int| context_line((m.line_number + i + 1) as nat, m.context_after[i]),
    )
}

/// The report lines of all matches, in order.
pub open spec fn matches_report(ms: Seq<GrepMatchView>, ctx: nat) -> Seq<Seq<char>>
    decreases ms.len(),
{
    if ms.len() == 0 {
        seq![]
    } else {
        matches_report(ms.drop_last(), ctx) + match_report(ms.last(), ctx)
    }
}

/// The text `grep_search` answers with.
pub open spec fn grep_report(
    query: Seq<char>,
    search_path: Seq<char>,
    ms: Seq<GrepMatchView>,
    ctx: nat,
) -> Seq<char> {
    if ms.len() == 0 {
        "No matches found for '"@ + query + "' in "@ + search_path
    } else {
        join_seqs(
            seq![
                "Found "@ + decimal(ms.len()) + " match(es) for '"@ + query + "' in "@
                    + search_path + ":"@,
            ] + matches_report(ms, ctx),
            "\n"@,
        )
    }
}

/// The numbers of a report stay within `usize`.
pub open spec fn report_numbers_fit(ms: Seq<GrepMatchView>, ctx: nat) -> bool {
    &&& ctx < usize::MAX
    &&& ms.len() <= u64::MAX
    &&& forall|j: int|
        0 <= j < ms.len() ==> (#[trigger] ms[j]).line_number + ms[j].context_before.len()
            + ms[j].context_after.len() < usize::MAX
}

fn push_line(out: &mut Vec<Vec<char>>, s: &String)
    ensures
        final(out)@.map_values(|t: Vec<char>| t@) == old(out)@.map_values(|t: Vec<char>| t@).push(
            s@,
        ),
{
    let ghost before = out@.map_values(|t: Vec<char>| t@);
    out.push(chars_of(s.as_str()));
    assert(out@.map_values(|t: Vec<char>| t@) =~= before.push(s@));
}

fn push_match_report(out: &mut Vec<Vec<char>>, m: &GrepMatch, ctx: usize)
    requires
        ctx < usize::MAX,
        m.line_number + m.context_before@.len() + m.context_after@.len() < usize::MAX,
    ensures
        final(out)@.map_values(|t: Vec<char>| t@) == old(out)@.map_values(|t: Vec<char>| t@)
            + match_report(m@, ctx as nat),
{
    let ghost mv = m@;
    let ghost base = old(out)@.map_values(|t: Vec<char>| t@);
    let first: usize = if m.line_number >= ctx + 1 {
        m.line_number - (ctx + 1)
    } else {
        0
    };
    let mut head = String::new();
    push_str(&mut head, "\n");
    push_str(&mut head, m.file_path.as_str());
    push_str(&mut head, ":");
    push_decimal(&mut head, m.line_number as u64);
    push_str(&mut head, ":");
    push_line(out, &head);
    let ghost part1 = seq![head@];
    let mut i: usize = 0;
    while i < m.context_before.len()
        invariant
            i <= m.context_before@.len(),
            mv == m@,
            first as nat == (if mv.line_number >= ctx + 1 {
                (mv.line_number - (ctx + 1)) as nat
            } else {
                0nat
            }),
            first <= m.line_number,
            m.line_number + m.context_before@.len() + m.context_after@.len() < usize::MAX,
            out@.map_values(|t: Vec<char>| t@) == base + part1 + Seq::new(
                i as nat,
                |k: int| context_line((first + k + 1) as nat, mv.context_before[k]),
            ),
        decreases m.context_before@.len() - i,
    {
        let mut l = String::new();
        push_str(&mut l, "  ");
        push_decimal(&mut l, (first + i + 1) as u64);
        push_str(&mut l, " | ");
        push_str(&mut l, m.context_before[i].as_str());
        assert(l@ == context_line((first + i + 1) as nat, mv.context_before[i as int]));
        push_line(out, &l);
        i = i + 1;
        assert(Seq::new(
            (i - 1) as nat,
            |k: int| context_line((first + k + 1) as nat, mv.context_before[k]),
        ).push(l@) =~= Seq::new(
            i as nat,
            |k: int| context_line((first + k + 1) as nat, mv.context_before[k]),
        ));
    }
    let ghost part2 = Seq::new(
        mv.context_before.len(),
        |k: int| context_line((first + k + 1) as nat, mv.context_before[k]),
    );
    assert(part2 =~= Seq::new(
        i as nat,
        |k: int| context_line((first + k + 1) as nat, mv.context_before[k]),
    ));
    let mut mid = String::new();
    push_str(&mut mid, "> ");
    push_decimal(&mut mid, m.line_number as u64);
    push_str(&mut mid, " | ");
    push_str(&mut mid, m.content.as_str());
    push_line(out, &mid);
    let ghost part3 = seq![mid@];
    let mut j: usize = 0;
    while j < m.context_after.len()
        invariant
            j <= m.context_after@.len(),
            mv == m@,
            m.line_number + m.context_before@.len() + m.context_after@.len() < usize::MAX,
            out@.map_values(|t: Vec<char>| t@) == base + part1 + part2 + part3 + Seq::new(
                j as nat,
                |k: int| context_line((mv.line_number + k + 1) as nat, mv.context_after[k]),
            ),
        decreases m.context_after@.len() - j,
    {
        let mut l = String::new();
        push_str(&mut l, "  ");
        push_decimal(&mut l, (m.line_number + j + 1) as u64);
        push_str(&mut l, " | ");
        push_str(&mut l, m.context_after[j].as_str());
        assert(l@ == context_line((mv.line_number + j + 1) as nat, mv.context_after[j as int]));
        push_line(out, &l);
        j = j + 1;
        assert(Seq::new(
            (j - 1) as nat,
            |k: int| context_line((mv.line_number + k + 1) as nat, mv.context_after[k]),
        ).push(l@) =~= Seq::new(
            j as nat,
            |k: int| context_line((mv.line_number + k + 1) as nat, mv.context_after[k]),
        ));
    }
    proof {
        let part4 = Seq::new(
            mv.context_after.len(),
            |k: int| context_line((mv.line_number + k + 1) as nat, mv.context_after[k]),
        );
        assert(part4 =~= Seq::new(
            j as nat,
            |k: int| context_line((mv.line_number + k + 1) as nat, mv.context_after[k]),
        ));
        assert(match_report(mv, ctx as nat) =~= part1 + part2 + part3 + part4);
        assert(base + part1 + part2 + part3 + part4 =~= base + (part1 + part2 + part3 + part4));
    }
}

fn line_strings(lines: &Vec<Vec<char>>, start: usize, end: usize) -> (r: Vec<String>)
    requires
        start <= end <= lines@.len(),
    ensures
        r@.map_values(|s: String| s@) == lines@.map_values(|t: Vec<char>| t@).subrange(
            start as int,
            end as int,
        ),
{
    let ghost lv = lines@.map_values(|t: Vec<char>| t@);
    let mut out: Vec<String> = Vec::new();
    let mut i: usize = start;
    while i < end
        invariant
            start <= i <= end <= lines@.len(),
            lv == lines@.map_values(|t: Vec<char>| t@),
            out@.map_values(|s: String| s@) == lv.subrange(start as int, i as int),
        decreases end - i,
    {
        let ghost before = out@.map_values(|s: String| s@);
        let s = string_from_chars(lines[i].as_slice());
        assert(s@ == lv[i as int]);
        out.push(s);
        assert(out@.map_values(|s: String| s@) =~= before.push(lv[i as int]));
        i = i + 1;
        assert(before.push(lv[(i - 1) as int]) =~= lv.subrange(start as int, i as int));
    }
    out
}

/// The regular expression a file-name glob stands for: `.` literal, `*`
/// any run, `?` any one character, anchored at both ends.
pub open spec fn glob_regex(pat: Seq<char>) -> Seq<char> {
    "^"@ + replace_all(replace_all(replace_all(pat, "."@, "\\."@), "*"@, ".*"@), "?"@, "."@)
        + "$"@
}

/// The glob without its wildcards, used when its regex does not compile.
pub open spec fn glob_literal(pat: Seq<char>) -> Seq<char> {
    replace_all(replace_all(pat, "*"@, ""@), "?"@, ""@)
}

/// Whether a file name passes an optional glob.
pub open spec fn file_pattern_matches(name: Seq<char>, pattern: Option<Seq<char>>) -> bool {
    match pattern {
        None => true,
        Some(p) => if regex_compiles(glob_regex(p)) {
            regex_matches(glob_regex(p), name)
        } else {
            contains_seq(name, glob_literal(p))
        },
    }
}

fn literal_chars(s: &str) -> (r: Vec<char>)
    ensures
        r@ == s@,
{
    chars_of(s)
}

/// Grep search tool with regex support and line context.
pub struct GrepSearchTool;

impl GrepSearchTool {
    pub fn new() -> (r: Self) {
        GrepSearchTool
    }

    /// Whether `file_name` passes the optional glob `pattern` (`*` and `?`
    /// wildcards); a glob whose regex does not compile is matched as a
    /// literal with its wildcards removed.
    pub fn matches_file_pattern(file_name: &str, pattern: Option<&str>) -> (r: bool)
        ensures
            r == file_pattern_matches(
                file_name@,
                match pattern {
                    Some(p) => Some(p@),
                    None => None,
                },
            ),
    {
        match pattern {
            None => true,
            Some(pat) => {
                let p = chars_of(pat);
                let dot = literal_chars(".");
                let escaped_dot = literal_chars("\\.");
                let star = literal_chars("*");
                let any_run = literal_chars(".*");
                let question = literal_chars("?");
                let empty: Vec<char> = Vec::new();
                proof {
                    assert(empty@ =~= ""@) by {
                        reveal_strlit("");
                    }
                }
                let step1 = replace_all_chars(&p, &dot, &escaped_dot);
                let step2 = replace_all_chars(&step1, &star, &any_run);
                let step3 = replace_all_chars(&step2, &question, &dot);
                let mut full = literal_chars("^");
                append_chars(&mut full, &step3);
                let end = literal_chars("$");
                append_chars(&mut full, &end);
                let full_str = string_from_chars(&full);
                match compile(full_str.as_str()) {
                    Some(re) => is_match(&re, file_name),
                    None => {
                        let l1 = replace_all_chars(&p, &star, &empty);
                        let l2 = replace_all_chars(&l1, &question, &empty);
                        let name = chars_of(file_name);
                        chars_contains(&name, &l2)
                    },
                }
            },
        }
    }
}

impl GrepSearchTool {
    /// Reads the search options from the tool arguments.
    pub fn options(args: &ToolArguments) -> (r: GrepOptions)
        ensures
            grep_options_ok(r, *args),
    {
        let case_sensitive = match arg_bool(args, "case_sensitive") {
            Some(b) => b,
            None => true,
        };
        let use_regex = match arg_bool(args, "use_regex") {
            Some(b) => b,
            None => true,
        };
        let max_results = match arg_usize(args, "max_results") {
            Some(n) => n,
            None => 50,
        };
        let context_lines = match arg_usize(args, "context_lines") {
            Some(n) => n,
            None => 2,
        };
        GrepOptions {
            case_sensitive,
            max_results: if max_results <= 100 {
                max_results
            } else {
                100
            },
            context_lines: if context_lines <= 5 {
                context_lines
            } else {
                5
            },
            use_regex,
        }
    }

    /// Searches the text of one file, line by line, for `query`, taking at
    /// most `*max_results` hits and counting them off it.  `None` where the
    /// query is to be a regex and does not compile (the file is then
    /// skipped).
    pub fn search_content(
        file_path: &str,
        content: &str,
        query: &str,
        case_sensitive: bool,
        context_lines: usize,
        use_regex: bool,
        max_results: &mut usize,
    ) -> (r: Option<Vec<GrepMatch>>)
        requires
            *old(max_results) > 0,
        ensures
            r is None <==> use_regex && !regex_compiles(grep_regex(query@, case_sensitive)),
            r is None ==> *final(max_results) == *old(max_results),
            r matches Some(ms) ==> search_ok(
                ms@.map_values(|m: GrepMatch| m@),
                file_path@,
                content@,
                query@,
                case_sensitive,
                context_lines as nat,
                use_regex,
                *old(max_results) as nat,
            ) && *final(max_results) == *old(max_results) - ms@.len(),
    {
        let re: Option<CompiledPattern> = if use_regex {
            let pattern = if case_sensitive {
                to_owned_string(query)
            } else {
                let mut p = to_owned_string("(?i)");
                push_str(&mut p, query);
                p
            };
            proof {
                reveal_strlit("(?i)");
            }
            match compile(pattern.as_str()) {
                Some(c) => Some(c),
                None => {
                    return None;
                },
            }
        } else {
            None
        };
        let chars = chars_of(content);
        let lines = lines_chars(&chars);
        let ghost lv = lines@.map_values(|t: Vec<char>| t@);
        let n = lines.len();
        let qc = chars_of(query);
        let lq = to_lowercase(query);
        let lqc = chars_of(lq.as_str());
        let budget = *max_results;
        let mut remaining = budget;
        let mut ms: Vec<GrepMatch> = Vec::new();
        let mut idx: usize = 0;
        while idx < n && remaining > 0
            invariant
                idx <= n,
                n == lv.len(),
                lv == lines@.map_values(|t: Vec<char>| t@),
                lv == text_lines(content@),
                qc@ == query@,
                lqc@ == lowercase_of(query@),
                use_regex == re is Some,
                re matches Some(c) ==> c.source() == grep_regex(query@, case_sensitive),
                ms@.len() == hit_lines(lv, idx as int, query@, case_sensitive, use_regex).len(),
                ms@.len() + remaining == budget,
                forall|j: int|
                    0 <= j < ms@.len() ==> (#[trigger] ms@[j])@ == match_at(
                        file_path@,
                        lv,
                        hit_lines(lv, idx as int, query@, case_sensitive, use_regex)[j],
                        context_lines as nat,
                    ),
            decreases n - idx,
        {
            let line = string_from_chars(lines[idx].as_slice());
            assert(line@ == lv[idx as int]);
            let hit = match &re {
                Some(c) => is_match(c, line.as_str()),
                None => if case_sensitive {
                    chars_contains(lines[idx].as_slice(), qc.as_slice())
                } else {
                    let low = to_lowercase(line.as_str());
                    let lc = chars_of(low.as_str());
                    chars_contains(lc.as_slice(), lqc.as_slice())
                },
            };
            let ghost prev_hits = hit_lines(lv, idx as int, query@, case_sensitive, use_regex);
            assert(hit == line_hit(lv[idx as int], query@, case_sensitive, use_regex));
            if hit {
                let start = if idx >= context_lines {
                    idx - context_lines
                } else {
                    0
                };
                let end = if context_lines < n - idx {
                    idx + context_lines + 1
                } else {
                    n
                };
                let before = line_strings(&lines, start, idx);
                let after = line_strings(&lines, idx + 1, end);
                let m = GrepMatch {
                    file_path: to_owned_string(file_path),
                    line_number: idx + 1,
                    content: line,
                    context_before: before,
                    context_after: after,
                };
                assert(m@ == match_at(file_path@, lv, idx as int, context_lines as nat));
                ms.push(m);
                remaining = remaining - 1;
            }
            idx = idx + 1;
            assert(hit_lines(lv, idx as int, query@, case_sensitive, use_regex) == (if hit {
                prev_hits.push(idx - 1)
            } else {
                prev_hits
            }));
        }
        proof {
            let hits = hit_lines(lv, n as int, query@, case_sensitive, use_regex);
            lemma_hit_lines_prefix(lv, idx as int, n as int, query@, case_sensitive, use_regex);
            let mv = ms@.map_values(|m: GrepMatch| m@);
            assert forall|j: int| 0 <= j < mv.len() implies mv[j] == match_at(
                file_path@,
                lv,
                #[trigger] hits[j],
                context_lines as nat,
            ) by {
                assert(ms@[j]@ == mv[j]);
            }
        }
        *max_results = remaining;
        Some(ms)
    }
}

impl GrepSearchTool {
    /// The text `grep_search` answers with for `matches` found under
    /// `search_path`.
    pub fn report(
        query: &str,
        search_path: &str,
        matches: &Vec<GrepMatch>,
        context_lines: usize,
    ) -> (r: String)
        requires
            report_numbers_fit(matches@.map_values(|m: GrepMatch| m@), context_lines as nat),
        ensures
            r@ == grep_report(
                query@,
                search_path@,
                matches@.map_values(|m: GrepMatch| m@),
                context_lines as nat,
            ),
    {
        let ghost mv = matches@.map_values(|m: GrepMatch| m@);
        if matches.len() == 0 {
            let mut out = to_owned_string("No matches found for '");
            push_str(&mut out, query);
            push_str(&mut out, "' in ");
            push_str(&mut out, search_path);
            return out;
        }
        let mut head = to_owned_string("Found ");
        push_decimal(&mut head, matches.len() as u64);
        push_str(&mut head, " match(es) for '");
        push_str(&mut head, query);
        push_str(&mut head, "' in ");
        push_str(&mut head, search_path);
        push_str(&mut head, ":");
        let mut lines: Vec<Vec<char>> = Vec::new();
        push_line(&mut lines, &head);
        let ghost header = seq![head@];
        let mut i: usize = 0;
        while i < matches.len()
            invariant
                i <= matches@.len(),
                mv == matches@.map_values(|m: GrepMatch| m@),
                report_numbers_fit(mv, context_lines as nat),
                lines@.map_values(|t: Vec<char>| t@) == header + matches_report(
                    mv.take(i as int),
                    context_lines as nat,
                ),
            decreases matches@.len() - i,
        {
            assert(matches@[i as int]@ == mv[i as int]);
            push_match_report(&mut lines, &matches[i], context_lines);
            i = i + 1;
            assert(mv.take(i as int).drop_last() =~= mv.take((i - 1) as int));
            assert(header + matches_report(mv.take((i - 1) as int), context_lines as nat)
                + match_report(mv[(i - 1) as int], context_lines as nat) =~= header + (
            matches_report(mv.take((i - 1) as int), context_lines as nat) + match_report(
                mv[(i - 1) as int],
                context_lines as nat,
            )));
        }
        assert(mv.take(i as int) =~= mv);
        let sep = chars_of("\n");
        let joined = join_chars(&lines, &sep);
        string_from_chars(&joined)
    }
}

impl Default for GrepSearchTool {
    fn default() -> (r: Self) {
        GrepSearchTool::new()
    }
}

/// What `GrepSearchTool` tells the planner it does.
pub open spec fn grep_search_tool_description() -> Seq<char> {
    "Search for patterns across files using regex or literal matching. Returns matches with file path, line number, content, and surrounding context. Allowed in all modes (read-only operation)."@
}

impl Tool for GrepSearchTool {
    open spec fn tool_name(&self) -> Seq<char> {
        "grep_search"@
    }

    fn name(&self) -> (r: ToolName)
        ensures
            r@ == "grep_search"@,
    {
        proof {
            reveal_strlit("grep_search");
        }
        ToolName::known("grep_search")
    }

    fn description(&self) -> (r: &'static str)
        ensures
            r@ == grep_search_tool_description(),
    {
        "Search for patterns across files using regex or literal matching. Returns matches with file path, line number, content, and surrounding context. Allowed in all modes (read-only operation)."
    }

    fn allowed_in_mode(&self, mode: ExecutionMode) -> (r: bool)
        ensures
            r,
    {
        true
    }
}

/// A directory entry reported by `list_dir`.
#[derive(Debug, Clone)]
pub struct DirEntry {
    pub path: String,
    pub name: String,
    pub entry_type: EntryType,
    pub size: Option<u64>,
}

/// Kind of a directory entry.
#[derive(Debug, Clone, Copy, PartialEq, Eq, Structural)]
pub enum EntryType {
    File,
    Directory,
    Symlink,
    Other,
}

pub open spec fn entry_type_label(t: EntryType) -> Seq<char> {
    match t {
        EntryType::File => "file"@,
        EntryType::Directory => "dir"@,
        EntryType::Symlink => "link"@,
        EntryType::Other => "other"@,
    }
}

impl EntryType {
    /// Short label of the kind.
    pub fn as_str(&self) -> (r: &'static str)
        ensures
            r@ == entry_type_label(*self),
    {
        match self {
            EntryType::File => "file",
            EntryType::Directory => "dir",
            EntryType::Symlink => "link",
            EntryType::Other => "other",
        }
    }
}

/// Whether an entry passes the filters: hidden names only when asked for,
/// and a type filter of `file`, `dir`/`directory` or `link`/`symlink`
/// (anything else admits every type).
pub open spec fn entry_included(
    name: Seq<char>,
    entry_type: EntryType,
    include_hidden: bool,
    filter: Option<Seq<char>>,
) -> bool {
    &&& (include_hidden || !(name.len() > 0 && name[0] == '.'))
    &&& match filter {
        None => true,
        Some(f) => if f == "file"@ {
            entry_type == EntryType::File
        } else if f == "dir"@ || f == "directory"@ {
            entry_type == EntryType::Directory
        } else if f == "link"@ || f == "symlink"@ {
            entry_type == EntryType::Symlink
        } else {
            true
        },
    }
}

/// An entry is listed exactly when it is not hidden (no leading dot) or
/// hidden entries were asked for, and it passes the type filter: `file`
/// keeps files, `dir`/`directory` directories, `link`/`symlink` symbolic
/// links, and any other filter (or none) keeps every type.
pub proof fn law_listing_filters(
    name: Seq<char>,
    entry_type: EntryType,
    include_hidden: bool,
    filter: Option<Seq<char>>,
)
    ensures
        !include_hidden && name.len() > 0 && name[0] == '.' ==> !entry_included(
            name,
            entry_type,
            include_hidden,
            filter,
        ),
        (include_hidden || !(name.len() > 0 && name[0] == '.')) ==> (entry_included(
            name,
            entry_type,
            include_hidden,
            filter,
        ) <==> match filter {
            Some(f) => (f == "file"@ ==> entry_type == EntryType::File) && (f == "dir"@ || f
                == "directory"@ ==> entry_type == EntryType::Directory) && (f == "link"@ || f
                == "symlink"@ ==> entry_type == EntryType::Symlink),
            None => true,
        }),
{
    reveal_strlit("file");
    reveal_strlit("dir");
    reveal_strlit("directory");
    reveal_strlit("link");
    reveal_strlit("symlink");
    assert("file"@.len() == 4 && "file"@[0] == 'f');
    assert("dir"@.len() == 3 && "directory"@.len() == 9 && "dir"@[0] == 'd');
    assert("link"@.len() == 4 && "link"@[0] == 'l' && "symlink"@.len() == 7);
}

/// List directory tool with recursive and filtering options.
pub struct ListDirTool;

impl ListDirTool {
    pub fn new() -> (r: Self) {
        ListDirTool
    }

    /// Whether an entry named `name` of type `entry_type` is listed.
    pub fn should_include(
        name: &str,
        entry_type: EntryType,
        include_hidden: bool,
        file_type_filter: Option<&str>,
    ) -> (r: bool)
        ensures
            r == entry_included(
                name@,
                entry_type,
                include_hidden,
                match file_type_filter {
                    Some(f) => Some(f@),
                    None => None,
                },
            ),
    {
        let chars = chars_of(name);
        if !include_hidden && chars.len() > 0 && chars[0] == '.' {
            return false;
        }
        match file_type_filter {
            Some(filter) => {
                let matches = if str_eq(filter, "file") {
                    entry_type == EntryType::File
                } else if str_eq(filter, "dir") || str_eq(filter, "directory") {
                    entry_type == EntryType::Directory
                } else if str_eq(filter, "link") || str_eq(filter, "symlink") {
                    entry_type == EntryType::Symlink
                } else {
                    true
                };
                matches
            },
            None => true,
        }
    }
}

/// The options `list_dir` reads from its arguments.
pub struct ListOptions {
    pub recursive: bool,
    pub include_hidden: bool,
    pub max_depth: usize,
    pub max_entries: usize,
}

/// What `list_dir` reads from `args`: not recursive and no hidden entries
/// by default; a depth of at most 5 (3 by default) and at most 500 entries
/// (100 by default); a value that does not parse counts as absent.
pub open spec fn list_options_ok(o: ListOptions, args: ToolArguments) -> bool {
    &&& o.recursive == option_or(lookup_bool(args, "recursive"@), false)
    &&& o.include_hidden == option_or(lookup_bool(args, "include_hidden"@), false)
    &&& o.max_depth == min_nat(
        option_or(lookup_unsigned(args, "max_depth"@, usize::MAX as nat), 3),
        5,
    )
    &&& o.max_entries == min_nat(
        option_or(lookup_unsigned(args, "max_entries"@, usize::MAX as nat), 100),
        500,
    )
}

/// Without options a listing is flat, skips hidden entries, goes three
/// levels deep and lists 100 entries; asked-for values are capped at five
/// levels and 500 entries.
pub proof fn law_list_options(o: ListOptions, args: ToolArguments)
    requires
        list_options_ok(o, args),
    ensures
        lookup_bool(args, "recursive"@) is None ==> !o.recursive,
        lookup_bool(args, "include_hidden"@) is None ==> !o.include_hidden,
        lookup_unsigned(args, "max_depth"@, usize::MAX as nat) is None ==> o.max_depth == 3,
        lookup_unsigned(args, "max_entries"@, usize::MAX as nat) is None ==> o.max_entries == 100,
        o.max_depth <= 5,
        o.max_entries <= 500,
{
}

impl ListDirTool {
    /// Reads the listing options from the tool arguments.
    pub fn options(args: &ToolArguments) -> (r: ListOptions)
        ensures
            list_options_ok(r, *args),
    {
        let recursive = match arg_bool(args, "recursive") {
            Some(b) => b,
            None => false,
        };
        let include_hidden = match arg_bool(args, "include_hidden") {
            Some(b) => b,
            None => false,
        };
        let max_depth = match arg_usize(args, "max_depth") {
            Some(n) => n,
            None => 3,
        };
        let max_entries = match arg_usize(args, "max_entries") {
            Some(n) => n,
            None => 100,
        };
        ListOptions {
            recursive,
            include_hidden,
            max_depth: if max_depth <= 5 {
                max_depth
            } else {
                5
            },
            max_entries: if max_entries <= 500 {
                max_entries
            } else {
                500
            },
        }
    }
}

/// An entry as the listing shows it: its kind, its path relative to the
/// listed directory, and its size as text (empty where there is none).
pub struct ListedEntry {
    pub entry_type: EntryType,
    pub relative: String,
    pub size_text: String,
}

/// The icon that marks an entry's kind in the listing.
pub open spec fn entry_icon(t: EntryType) -> Seq<char> {
    match t {
        EntryType::Directory => "\u{1F4C1}"@,
        EntryType::File => "\u{1F4C4}"@,
        EntryType::Symlink => "\u{1F517}"@,
        EntryType::Other => "\u{2753}"@,
    }
}

/// One line of the listing: icon, relative path, and, where a size is
/// known, a space, ` (` and the size.
pub open spec fn listing_line(e: ListedEntry) -> Seq<char> {
    entry_icon(e.entry_type) + " "@ + e.relative@ + " "@ + if e.size_text@.len() == 0 {
        Seq::<char>::empty()
    } else {
        " ("@ + e.size_text@
    }
}

/// The text `list_dir` answers with for the directory shown as `dir`: a
/// note that it is empty, or a header with the count followed by one line
/// per entry.
pub open spec fn listing_text(dir: Seq<char>, entries: Seq<ListedEntry>) -> Seq<char> {
    if entries.len() == 0 {
        "Directory "@ + dir + " is empty (or all entries filtered)"@
    } else {
        join_seqs(
            seq![decimal(entries.len()) + " entries in "@ + dir + ":"@] + entries.map_values(
                |e: ListedEntry| listing_line(e),
            ),
            "\n"@,
        )
    }
}

fn icon_of(t: EntryType) -> (r: &'static str)
    ensures
        r@ == entry_icon(t),
{
    match t {
        EntryType::Directory => "\u{1F4C1}",
        EntryType::File => "\u{1F4C4}",
        EntryType::Symlink => "\u{1F517}",
        EntryType::Other => "\u{2753}",
    }
}

fn listing_line_text(e: &ListedEntry) -> (r: String)
    ensures
        r@ == listing_line(*e),
{
    let mut out = to_owned_string(icon_of(e.entry_type));
    push_str(&mut out, " ");
    push_str(&mut out, e.relative.as_str());
    push_str(&mut out, " ");
    let size = chars_of(e.size_text.as_str());
    if size.len() > 0 {
        push_str(&mut out, " (");
        push_str(&mut out, e.size_text.as_str());
    }
    assert(out@ =~= listing_line(*e));
    out
}

impl ListDirTool {
    /// The listing text for the directory shown as `dir`.
    pub fn listing(dir: &str, entries: &Vec<ListedEntry>) -> (r: String)
        requires
            entries.len() < u64::MAX,
        ensures
            r@ == listing_text(dir@, entries@),
    {
        if entries.len() == 0 {
            let mut out = to_owned_string("Directory ");
            push_str(&mut out, dir);
            push_str(&mut out, " is empty (or all entries filtered)");
            return out;
        }
        let mut header = String::new();
        push_decimal(&mut header, entries.len() as u64);
        push_str(&mut header, " entries in ");
        push_str(&mut header, dir);
        push_str(&mut header, ":");
        let ghost head = decimal(entries.len() as nat) + " entries in "@ + dir@ + ":"@;
        assert(header@ =~= head);
        let mut lines: Vec<String> = Vec::new();
        lines.push(header);
        assert(lines@.map_values(|s: String| s@) =~= seq![head]);
        let mut i: usize = 0;
        while i < entries.len()
            invariant
                i <= entries.len(),
                lines@.map_values(|s: String| s@) == seq![head] + entries@.take(i as int).map_values(
                    |e: ListedEntry| listing_line(e),
                ),
            decreases entries.len() - i,
        {
            let line = listing_line_text(&entries[i]);
            let ghost before = lines@.map_values(|s: String| s@);
            lines.push(line);
            assert(entries@.take(i + 1) =~= entries@.take(i as int).push(entries@[i as int]));
            assert(lines@.map_values(|s: String| s@) =~= before.push(listing_line(entries@[i as int])));
            i = i + 1;
            assert(lines@.map_values(|s: String| s@) =~= seq![head] + entries@.take(i as int).map_values(
                |e: ListedEntry| listing_line(e),
            ));
        }
        assert(entries@.take(entries.len() as int) =~= entries@);
        crate::runtime_gates::join_texts(&lines, "\n")
    }
}

impl Default for ListDirTool {
    fn default() -> (r: Self) {
        ListDirTool::new()
    }
}

/// What `ListDirTool` tells the planner it does.
pub open spec fn list_dir_tool_description() -> Seq<char> {
    "List directory contents with optional recursion and filtering. Returns entries with path, name, type, and size. Allowed in all modes (read-only operation)."@
}

impl Tool for ListDirTool {
    open spec fn tool_name(&self) -> Seq<char> {
        "list_dir"@
    }

    fn name(&self) -> (r: ToolName)
        ensures
            r@ == "list_dir"@,
    {
        proof {
            reveal_strlit("list_dir");
        }
        ToolName::known("list_dir")
    }

    fn description(&self) -> (r: &'static str)
        ensures
            r@ == list_dir_tool_description(),
    {
        "List directory contents with optional recursion and filtering. Returns entries with path, name, type, and size. Allowed in all modes (read-only operation)."
    }

    fn allowed_in_mode(&self, mode: ExecutionMode) -> (r: bool)
        ensures
            r,
    {
        true
    }
}

} // verus!

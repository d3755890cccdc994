//! Batch tools for large-scale file work, and progress tracking.
use crate::text::{
    chars_ends_with, chars_of, decimal, ends_with_seq, join_seqs, push_decimal, push_str, str_eq,
    to_owned_string,
};
use crate::tool_registry::Tool;
use crate::types::{
    utf8_len, ExecutionMode, ForgeError, Mutation, MutationType, MutationView, ToolError, ToolName,
    ToolResult,
};
use vstd::prelude::*;

verus! {

/// Maximum files per batch operation.
pub const MAX_BATCH_SIZE: usize = 1000;

/// A batch holds at most 1000 files.
pub proof fn law_batch_limit()
    ensures
        MAX_BATCH_SIZE == 1000,
{
}

/// Progress of a batch operation.
#[derive(Debug, Clone)]
pub struct BatchProgress {
    pub total: usize,
    pub completed: usize,
    pub failed: usize,
    pub current_file: Option<String>,
    pub errors: Vec<(String, String)>,
}

impl BatchProgress {
    /// No file done yet out of `total`.
    pub fn new(total: usize) -> (r: Self)
        ensures
            r.total == total,
            r.completed == 0,
            r.failed == 0,
            r.current_file is None,
            r.errors@.len() == 0,
    {
        BatchProgress { total, completed: 0, failed: 0, current_file: None, errors: Vec::new() }
    }

    /// Every file has either completed or failed.
    pub fn is_complete(&self) -> (r: bool)
        ensures
            r == (self.completed + self.failed >= self.total),
    {
        self.completed as u128 + self.failed as u128 >= self.total as u128
    }
}

/// Reads many files in one call.
pub struct BatchReadFilesTool;

/// What `BatchReadFilesTool` tells the planner it does.
pub open spec fn batch_read_files_tool_description() -> Seq<char> {
    "Read multiple files in a batch operation. More efficient than individual read_file calls."@
}

impl Tool for BatchReadFilesTool {
    open spec fn tool_name(&self) -> Seq<char> {
        "batch_read_files"@
    }

    fn name(&self) -> (r: ToolName)
        ensures
            r@ == "batch_read_files"@,
    {
        proof {
            reveal_strlit("batch_read_files");
        }
        ToolName::known("batch_read_files")
    }

    fn description(&self) -> (r: &'static str)
        ensures
            r@ == batch_read_files_tool_description(),
    {
        "Read multiple files in a batch operation. More efficient than individual read_file calls."
    }

    fn allowed_in_mode(&self, mode: ExecutionMode) -> (r: bool)
        ensures
            r == !(mode is Fix),
    {
        match mode {
            ExecutionMode::Analysis | ExecutionMode::Edit | ExecutionMode::Batch => true,
            ExecutionMode::Fix => false,
        }
    }
}

/// Writes many files from one specification.
pub struct BatchWriteFilesTool;

/// What `BatchWriteFilesTool` tells the planner it does.
pub open spec fn batch_write_files_tool_description() -> Seq<char> {
    "Write multiple files from a batch specification. Files are provided as JSON mapping."@
}

impl Tool for BatchWriteFilesTool {
    open spec fn tool_name(&self) -> Seq<char> {
        "batch_write_files"@
    }

    fn name(&self) -> (r: ToolName)
        ensures
            r@ == "batch_write_files"@,
    {
        proof {
            reveal_strlit("batch_write_files");
        }
        ToolName::known("batch_write_files")
    }

    fn description(&self) -> (r: &'static str)
        ensures
            r@ == batch_write_files_tool_description(),
    {
        "Write multiple files from a batch specification. Files are provided as JSON mapping."
    }

    fn allowed_in_mode(&self, mode: ExecutionMode) -> (r: bool)
        ensures
            r == !(mode is Analysis),
    {
        match mode {
            ExecutionMode::Analysis => false,
            _ => true,
        }
    }
}

/// Replaces text across the files matching a pattern.
pub struct BatchReplaceTool;

/// What `BatchReplaceTool` tells the planner it does.
pub open spec fn batch_replace_tool_description() -> Seq<char> {
    "Replace text across multiple files matching a pattern."@
}

impl Tool for BatchReplaceTool {
    open spec fn tool_name(&self) -> Seq<char> {
        "batch_replace"@
    }

    fn name(&self) -> (r: ToolName)
        ensures
            r@ == "batch_replace"@,
    {
        proof {
            reveal_strlit("batch_replace");
        }
        ToolName::known("batch_replace")
    }

    fn description(&self) -> (r: &'static str)
        ensures
            r@ == batch_replace_tool_description(),
    {
        "Replace text across multiple files matching a pattern."
    }

    fn allowed_in_mode(&self, mode: ExecutionMode) -> (r: bool)
        ensures
            r == !(mode is Analysis),
    {
        match mode {
            ExecutionMode::Analysis => false,
            _ => true,
        }
    }
}

/// Creates the directories a specification lists.
pub struct SyncDirectoryTool;

/// What `SyncDirectoryTool` tells the planner it does.
pub open spec fn sync_directory_tool_description() -> Seq<char> {
    "Synchronize directory structure from a specification. Creates missing directories."@
}

impl Tool for SyncDirectoryTool {
    open spec fn tool_name(&self) -> Seq<char> {
        "sync_directory"@
    }

    fn name(&self) -> (r: ToolName)
        ensures
            r@ == "sync_directory"@,
    {
        proof {
            reveal_strlit("sync_directory");
        }
        ToolName::known("sync_directory")
    }

    fn description(&self) -> (r: &'static str)
        ensures
            r@ == sync_directory_tool_description(),
    {
        "Synchronize directory structure from a specification. Creates missing directories."
    }

    fn allowed_in_mode(&self, mode: ExecutionMode) -> (r: bool)
        ensures
            r == !(mode is Analysis),
    {
        match mode {
            ExecutionMode::Analysis => false,
            _ => true,
        }
    }
}

/// The text with every leading `*.` removed.
pub open spec fn strip_star_dot(s: Seq<char>) -> Seq<char>
    decreases s.len(),
{
    if s.len() >= 2 && s[0] == '*' && s[1] == '.' {
        strip_star_dot(s.subrange(2, s.len() as int))
    } else {
        s
    }
}

/// Whether a file (by its path relative to the batch's base directory)
/// is selected by a batch pattern: `*` selects every file; otherwise the
/// path must end with the pattern less its leading `*.`s.
pub open spec fn batch_pattern_matches(relative_path: Seq<char>, pattern: Seq<char>) -> bool {
    pattern == "*"@ || ends_with_seq(relative_path, strip_star_dot(pattern))
}

/// The pattern `*` selects every file; a pattern `*.ext` drops its `*.`
/// and selects the paths ending in `ext`; any other pattern selects the
/// paths that end with it.
pub proof fn law_batch_patterns(path: Seq<char>, pattern: Seq<char>)
    ensures
        batch_pattern_matches(path, "*"@),
        pattern != "*"@ && !(pattern.len() >= 2 && pattern[0] == '*' && pattern[1] == '.') ==> (
        batch_pattern_matches(path, pattern) <==> ends_with_seq(path, pattern)),
        pattern.len() >= 2 && pattern[0] == '*' && pattern[1] == '.' && !({
            let rest = pattern.subrange(2, pattern.len() as int);
            rest.len() >= 2 && rest[0] == '*' && rest[1] == '.'
        }) ==> (batch_pattern_matches(path, pattern) <==> ends_with_seq(
            path,
            pattern.subrange(2, pattern.len() as int),
        )),
{
    reveal_strlit("*");
    assert("*"@.len() == 1);
    let rest = pattern.subrange(2, pattern.len() as int);
    if pattern.len() >= 2 && pattern[0] == '*' && pattern[1] == '.' {
        assert(pattern != "*"@);
        assert(strip_star_dot(pattern) == strip_star_dot(rest));
    }
}

/// Whether a file is selected by a batch pattern.
pub fn file_matches_pattern(relative_path: &str, pattern: &str) -> (r: bool)
    ensures
        r == batch_pattern_matches(relative_path@, pattern@),
{
    if str_eq(pattern, "*") {
        return true;
    }
    let mut rest = chars_of(pattern);
    while rest.len() >= 2 && rest[0] == '*' && rest[1] == '.'
        invariant
            strip_star_dot(rest@) == strip_star_dot(pattern@),
        decreases rest@.len(),
    {
        let mut next: Vec<char> = Vec::new();
        let mut i: usize = 2;
        while i < rest.len()
            invariant
                2 <= i <= rest@.len(),
                next@ == rest@.subrange(2, i as int),
            decreases rest@.len() - i,
        {
            next.push(rest[i]);
            i = i + 1;
            assert(next@ =~= rest@.subrange(2, i as int));
        }
        rest = next;
    }
    let path = chars_of(relative_path);
    chars_ends_with(path.as_slice(), rest.as_slice())
}

/// A walked entry whose name starts with `.` is hidden, and the walk does
/// not enter it.
pub fn is_hidden(name: &str) -> (r: bool)
    ensures
        r == (name@.len() > 0 && name@[0] == '.'),
{
    let c = chars_of(name);
    c.len() > 0 && c[0] == '.'
}

/// What happened to one file of a batch.
pub enum FileOutcome {
    /// Done: `path` is where it was done, `amount` what it counted (bytes
    /// written, replacements made), `mutated` whether the file changed.
    Done { path: String, amount: usize, mutated: bool },
    /// Failed, for the reason given (`path` as the caller named it).
    Failed { path: String, message: String },
}

/// How many files were done.
pub open spec fn done_count(s: Seq<FileOutcome>) -> nat
    decreases s.len(),
{
    if s.len() == 0 {
        0
    } else {
        done_count(s.drop_last()) + (if s.last() is Done { 1nat } else { 0nat })
    }
}

/// The sum of the amounts of the files done.
pub open spec fn amount_sum(s: Seq<FileOutcome>) -> nat
    decreases s.len(),
{
    if s.len() == 0 {
        0
    } else {
        amount_sum(s.drop_last()) + match s.last() {
            FileOutcome::Done { amount, .. } => amount as nat,
            FileOutcome::Failed { .. } => 0nat,
        }
    }
}

/// The `  path: message` lines of the failed files, in order.
pub open spec fn error_lines(s: Seq<FileOutcome>) -> Seq<char>
    decreases s.len(),
{
    if s.len() == 0 {
        Seq::empty()
    } else {
        error_lines(s.drop_last()) + match s.last() {
            FileOutcome::Failed { path, message } => "  "@ + path@ + ": "@ + message@ + "\n"@,
            FileOutcome::Done { .. } => Seq::empty(),
        }
    }
}

/// The mutations of the files that changed, in order, of the given kind.
pub open spec fn changed(s: Seq<FileOutcome>, kind: MutationType) -> Seq<MutationView>
    decreases s.len(),
{
    if s.len() == 0 {
        Seq::empty()
    } else {
        changed(s.drop_last(), kind) + match s.last() {
            FileOutcome::Done { path, mutated, .. } => if mutated {
                seq![
                    MutationView {
                        path: path@,
                        mutation_type: kind,
                        content_hash_before: None,
                        content_hash_after: None,
                    },
                ]
            } else {
                Seq::empty()
            },
            FileOutcome::Failed { .. } => Seq::empty(),
        }
    }
}

proof fn lemma_done_bound(s: Seq<FileOutcome>)
    ensures
        done_count(s) <= s.len(),
    decreases s.len(),
{
    if s.len() > 0 {
        lemma_done_bound(s.drop_last());
    }
}

/// The counts, total amount, error lines and mutations of a batch.
fn tally(outcomes: &[FileOutcome], kind: MutationType) -> (r: (usize, usize, String, Vec<Mutation>))
    requires
        amount_sum(outcomes@) <= usize::MAX,
    ensures
        r.0 == done_count(outcomes@),
        r.1 == amount_sum(outcomes@),
        r.2@ == error_lines(outcomes@),
        r.3@.map_values(|m: Mutation| m@) == changed(outcomes@, kind),
{
    let mut done: usize = 0;
    let mut total: usize = 0;
    let mut errors = to_owned_string("");
    let mut muts: Vec<Mutation> = Vec::new();
    let mut i: usize = 0;
    proof {
        reveal_strlit("");
    }
    while i < outcomes.len()
        invariant
            i <= outcomes@.len(),
            amount_sum(outcomes@) <= usize::MAX,
            done == done_count(outcomes@.take(i as int)),
            total == amount_sum(outcomes@.take(i as int)),
            errors@ == error_lines(outcomes@.take(i as int)),
            muts@.map_values(|m: Mutation| m@) == changed(outcomes@.take(i as int), kind),
            amount_sum(outcomes@.take(i as int)) <= amount_sum(outcomes@),
            done <= i,
        decreases outcomes.len() - i,
    {
        let ghost pre = outcomes@.take(i as int);
        let ghost next = outcomes@.take(i + 1);
        assert(next.drop_last() =~= pre);
        assert(next.last() == outcomes@[i as int]);
        proof {
            lemma_amount_prefix(outcomes@, i + 1);
        }
        let ghost before = muts@.map_values(|m: Mutation| m@);
        match &outcomes[i] {
            FileOutcome::Done { path, amount, mutated } => {
                done = done + 1;
                total = total + *amount;
                if *mutated {
                    let m = Mutation {
                        path: to_owned_string(path.as_str()),
                        mutation_type: kind,
                        content_hash_before: None,
                        content_hash_after: None,
                    };
                    muts.push(m);
                    assert(muts@.map_values(|m: Mutation| m@) =~= before + seq![
                        MutationView {
                            path: path@,
                            mutation_type: kind,
                            content_hash_before: None,
                            content_hash_after: None,
                        },
                    ]);
                } else {
                    assert(before + Seq::<MutationView>::empty() =~= before);
                }
                assert(errors@ + Seq::<char>::empty() =~= errors@);
            },
            FileOutcome::Failed { path, message } => {
                push_str(&mut errors, "  ");
                push_str(&mut errors, path.as_str());
                push_str(&mut errors, ": ");
                push_str(&mut errors, message.as_str());
                push_str(&mut errors, "\n");
                assert(before + Seq::<MutationView>::empty() =~= before);
            },
        }
        i = i + 1;
    }
    assert(outcomes@.take(outcomes@.len() as int) =~= outcomes@);
    (done, total, errors, muts)
}

proof fn lemma_amount_prefix(s: Seq<FileOutcome>, n: int)
    requires
        0 <= n <= s.len(),
    ensures
        amount_sum(s.take(n)) <= amount_sum(s),
    decreases s.len() - n,
{
    if n < s.len() {
        lemma_amount_prefix(s, n + 1);
        assert(s.take(n + 1).drop_last() =~= s.take(n));
    } else {
        assert(s.take(n) =~= s);
    }
}

/// The refusal of a batch with more than the allowed number of files.
pub open spec fn too_many_message(n: nat) -> Seq<char> {
    "Too many files: "@ + decimal(n) + " (max: 1000)"@
}

/// A batch of `count` files is allowed, or the error that refuses it.
pub fn check_batch_size(count: usize) -> (r: Result<(), ForgeError>)
    ensures
        count <= MAX_BATCH_SIZE <==> r is Ok,
        r is Err ==> (r matches Err(ForgeError::InvalidArgument(m)) && m@ == too_many_message(
            count as nat,
        )),
{
    if count > MAX_BATCH_SIZE {
        let mut m = to_owned_string("Too many files: ");
        push_decimal(&mut m, count as u64);
        push_str(&mut m, " (max: 1000)");
        return Err(ForgeError::InvalidArgument(m));
    }
    Ok(())
}

/// The result of a batch write: one write mutation per file written, a
/// summary with the bytes written and the failures.
pub fn batch_write_result(outcomes: &[FileOutcome]) -> (r: ToolResult)
    requires
        amount_sum(outcomes@) <= usize::MAX,
    ensures
        ({
            let failed = outcomes@.len() - done_count(outcomes@);
            let errs = error_lines(outcomes@);
            &&& r.success == (failed == 0)
            &&& r.output matches Some(o) && o@ == "Batch write complete: "@ + decimal(
                done_count(outcomes@),
            ) + "/"@ + decimal(outcomes@.len()) + " files, "@ + decimal(amount_sum(outcomes@))
                + " bytes written\n"@ + (if failed > 0 {
                "\nERRORS:\n"@ + errs
            } else {
                Seq::<char>::empty()
            })
            &&& failed > 0 ==> (r.error matches Some(ToolError::ExecutionFailed(m)) && m@ == decimal(
                failed as nat,
            ) + " files failed to write"@)
            &&& failed == 0 ==> r.error is None
            &&& r.mutations@.map_values(|m: Mutation| m@) == changed(outcomes@, MutationType::Write)
            &&& r.execution_time_ms == 0
        }),
{
    let (done, total, errors, muts) = tally(outcomes, MutationType::Write);
    proof {
        lemma_done_bound(outcomes@);
    }
    let failed = outcomes.len() - done;
    let mut out = to_owned_string("Batch write complete: ");
    push_decimal(&mut out, done as u64);
    push_str(&mut out, "/");
    push_decimal(&mut out, outcomes.len() as u64);
    push_str(&mut out, " files, ");
    push_decimal(&mut out, total as u64);
    push_str(&mut out, " bytes written\n");
    let error = if failed > 0 {
        push_str(&mut out, "\nERRORS:\n");
        push_str(&mut out, errors.as_str());
        let mut m = to_owned_string("");
        push_decimal(&mut m, failed as u64);
        push_str(&mut m, " files failed to write");
        proof {
            reveal_strlit("");
        }
        Some(ToolError::ExecutionFailed(m))
    } else {
        None
    };
    ToolResult { success: failed == 0, output: Some(out), error, mutations: muts, execution_time_ms: 0 }
}

/// The result of a batch replace over the files matching `file_pattern`:
/// one patch mutation per file changed, and a summary of the files
/// processed and the replacements made.
pub fn batch_replace_result(file_pattern: &str, outcomes: &[FileOutcome]) -> (r: ToolResult)
    requires
        amount_sum(outcomes@) <= usize::MAX,
    ensures
        outcomes@.len() == 0 ==> {
            &&& r.success
            &&& r.output matches Some(o) && o@ == "No files matching pattern: "@ + file_pattern@
            &&& r.error is None
            &&& r.mutations@.len() == 0
        },
        outcomes@.len() > 0 ==> {
            let failed = outcomes@.len() - done_count(outcomes@);
            &&& r.success == (failed == 0)
            &&& r.output matches Some(o) && o@ == "Batch replace complete: "@ + decimal(
                done_count(outcomes@),
            ) + "/"@ + decimal(outcomes@.len()) + " files processed, "@ + decimal(
                amount_sum(outcomes@),
            ) + " replacements made\n"@
            &&& failed > 0 ==> (r.error matches Some(ToolError::ExecutionFailed(m)) && m@ == decimal(
                failed as nat,
            ) + " files failed"@)
            &&& failed == 0 ==> r.error is None
            &&& r.mutations@.map_values(|m: Mutation| m@) == changed(outcomes@, MutationType::Patch)
        },
        r.execution_time_ms == 0,
{
    if outcomes.len() == 0 {
        let o = to_owned_string("No files matching pattern: ");
        let mut o = o;
        push_str(&mut o, file_pattern);
        return ToolResult {
            success: true,
            output: Some(o),
            error: None,
            mutations: Vec::new(),
            execution_time_ms: 0,
        };
    }
    let (done, total, _errors, muts) = tally(outcomes, MutationType::Patch);
    proof {
        lemma_done_bound(outcomes@);
    }
    let failed = outcomes.len() - done;
    let mut out = to_owned_string("Batch replace complete: ");
    push_decimal(&mut out, done as u64);
    push_str(&mut out, "/");
    push_decimal(&mut out, outcomes.len() as u64);
    push_str(&mut out, " files processed, ");
    push_decimal(&mut out, total as u64);
    push_str(&mut out, " replacements made\n");
    let error = if failed > 0 {
        let mut m = to_owned_string("");
        push_decimal(&mut m, failed as u64);
        push_str(&mut m, " files failed");
        proof {
            reveal_strlit("");
        }
        Some(ToolError::ExecutionFailed(m))
    } else {
        None
    };
    ToolResult { success: failed == 0, output: Some(out), error, mutations: muts, execution_time_ms: 0 }
}

/// The result of a directory sync: how many directories were created, and
/// the errors (each `path: reason`) joined with `; `.
pub fn sync_directory_result(created: usize, errors: &Vec<String>) -> (r: ToolResult)
    ensures
        r.success == (errors@.len() == 0),
        r.output matches Some(o) && o@ == "Directory sync: "@ + decimal(created as nat)
            + " directories created, "@ + decimal(errors@.len()) + " errors"@,
        errors@.len() == 0 ==> r.error is None,
        errors@.len() > 0 ==> (r.error matches Some(ToolError::ExecutionFailed(m)) && m@
            == join_seqs(errors@.map_values(|e: String| e@), "; "@)),
        r.mutations@.len() == 0,
        r.execution_time_ms == 0,
{
    let mut out = to_owned_string("Directory sync: ");
    push_decimal(&mut out, created as u64);
    push_str(&mut out, " directories created, ");
    push_decimal(&mut out, errors.len() as u64);
    push_str(&mut out, " errors");
    let error = if errors.len() == 0 {
        None
    } else {
        Some(ToolError::ExecutionFailed(crate::runtime_gates::join_texts(errors, "; ")))
    };
    ToolResult {
        success: errors.len() == 0,
        output: Some(out),
        error,
        mutations: Vec::new(),
        execution_time_ms: 0,
    }
}

/// The `=== path ===` sections of the files read, in order.
pub open spec fn read_sections(s: Seq<(Seq<char>, Seq<char>)>) -> Seq<char>
    decreases s.len(),
{
    if s.len() == 0 {
        Seq::empty()
    } else {
        read_sections(s.drop_last()) + "=== "@ + s.last().0 + " ===\n"@ + s.last().1 + "\n\n"@
    }
}

/// The `  path: message` lines of the failed reads, in order.
pub open spec fn failure_lines(s: Seq<(Seq<char>, Seq<char>)>) -> Seq<char>
    decreases s.len(),
{
    if s.len() == 0 {
        Seq::empty()
    } else {
        failure_lines(s.drop_last()) + "  "@ + s.last().0 + ": "@ + s.last().1 + "\n"@
    }
}

pub open spec fn pairs_view(v: Seq<(String, String)>) -> Seq<(Seq<char>, Seq<char>)> {
    v.map_values(|p: (String, String)| (p.0@, p.1@))
}

/// The report of a batch read, before any size cap: a header with the
/// files read out of `total` and the bytes read, a section per file read
/// (`sections`, each path once) and the failures.
pub fn batch_read_report(
    total: usize,
    completed: usize,
    total_bytes: usize,
    sections: &Vec<(String, String)>,
    failures: &Vec<(String, String)>,
) -> (r: ToolResult)
    ensures
        r.success == (failures@.len() == 0),
        r.output matches Some(o) && o@ == "Batch read complete: "@ + decimal(completed as nat) + "/"@
            + decimal(total as nat) + " files, "@ + decimal(total_bytes as nat) + " bytes\n\n"@
            + read_sections(pairs_view(sections@)) + (if failures@.len() > 0 {
            "ERRORS:\n"@ + failure_lines(pairs_view(failures@))
        } else {
            Seq::<char>::empty()
        }),
        failures@.len() > 0 ==> (r.error matches Some(ToolError::ExecutionFailed(m)) && m@ == decimal(
            failures@.len() as nat,
        ) + " files failed"@),
        failures@.len() == 0 ==> r.error is None,
        r.mutations@.len() == 0,
        r.execution_time_ms == 0,
{
    let mut out = to_owned_string("Batch read complete: ");
    push_decimal(&mut out, completed as u64);
    push_str(&mut out, "/");
    push_decimal(&mut out, total as u64);
    push_str(&mut out, " files, ");
    push_decimal(&mut out, total_bytes as u64);
    push_str(&mut out, " bytes\n\n");
    let ghost head = out@;
    let mut i: usize = 0;
    while i < sections.len()
        invariant
            i <= sections@.len(),
            out@ == head + read_sections(pairs_view(sections@).take(i as int)),
        decreases sections.len() - i,
    {
        assert(pairs_view(sections@).take(i + 1).drop_last() =~= pairs_view(sections@).take(i as int));
        push_str(&mut out, "=== ");
        push_str(&mut out, sections[i].0.as_str());
        push_str(&mut out, " ===\n");
        push_str(&mut out, sections[i].1.as_str());
        push_str(&mut out, "\n\n");
        i = i + 1;
    }
    assert(pairs_view(sections@).take(sections@.len() as int) =~= pairs_view(sections@));
    let error = if failures.len() > 0 {
        push_str(&mut out, "ERRORS:\n");
        let ghost mid = out@;
        let mut j: usize = 0;
        while j < failures.len()
            invariant
                j <= failures@.len(),
                out@ == mid + failure_lines(pairs_view(failures@).take(j as int)),
            decreases failures.len() - j,
        {
            assert(pairs_view(failures@).take(j + 1).drop_last() =~= pairs_view(failures@).take(
                j as int,
            ));
            push_str(&mut out, "  ");
            push_str(&mut out, failures[j].0.as_str());
            push_str(&mut out, ": ");
            push_str(&mut out, failures[j].1.as_str());
            push_str(&mut out, "\n");
            j = j + 1;
        }
        assert(pairs_view(failures@).take(failures@.len() as int) =~= pairs_view(failures@));
        let mut m = to_owned_string("");
        push_decimal(&mut m, failures.len() as u64);
        push_str(&mut m, " files failed");
        proof {
            reveal_strlit("");
        }
        Some(ToolError::ExecutionFailed(m))
    } else {
        None
    };
    ToolResult {
        success: failures.len() == 0,
        output: Some(out),
        error,
        mutations: Vec::new(),
        execution_time_ms: 0,
    }
}


// ---------------------------------------------------------------------------
// Output size cap
// ---------------------------------------------------------------------------

/// Most bytes of file text a batch read answers with.
pub const MAX_BATCH_OUTPUT_BYTES: usize = 500000;

/// The note that ends an output cut to the size cap.
pub open spec fn truncation_note() -> Seq<char> {
    "\n\n[... output truncated due to size ...]"@
}

/// Bytes in the UTF-8 encoding of `c`.
pub open spec fn utf8_width(c: char) -> nat {
    if (c as u32) < 0x80 {
        1
    } else if (c as u32) < 0x800 {
        2
    } else if (c as u32) < 0x10000 {
        3
    } else {
        4
    }
}

proof fn lemma_scalar_width(c: char)
    ensures
        vstd::utf8::encode_scalar(c as u32).len() == utf8_width(c),
{
}

proof fn lemma_utf8_len_push(s: Seq<char>, c: char)
    ensures
        utf8_len(s.push(c)) == utf8_len(s) + utf8_width(c),
    decreases s.len(),
{
    lemma_scalar_width(c);
    if s.len() == 0 {
        assert(s.push(c).drop_first() =~= Seq::<char>::empty());
        assert(vstd::utf8::encode_utf8(Seq::<char>::empty()) =~= Seq::<u8>::empty());
    } else {
        assert(s.push(c).drop_first() =~= s.drop_first().push(c));
        lemma_utf8_len_push(s.drop_first(), c);
    }
}

/// `max` bytes into `o` falls between two characters.
pub open spec fn char_boundary(o: Seq<char>, max: nat) -> bool {
    exists|k: int| 0 <= k <= o.len() && #[trigger] utf8_len(o.take(k)) == max
}

/// Cuts `output` to its first `max` bytes, followed by the truncation
/// note, when it is longer than that; otherwise leaves it as it is.  A cut
/// must fall between two characters.
pub fn cap_output(output: String, max: usize) -> (r: String)
    requires
        max < usize::MAX - 4,
        utf8_len(output@) > max ==> char_boundary(output@, max as nat),
    ensures
        utf8_len(output@) <= max ==> r@ == output@,
        utf8_len(output@) > max ==> exists|k: int|
            0 <= k <= output@.len() && #[trigger] utf8_len(output@.take(k)) == max && r@
                == output@.take(k) + truncation_note(),
{
    let chars = chars_of(output.as_str());
    let n = chars.len();
    let mut i: usize = 0;
    let mut bytes: usize = 0;
    while i < n && bytes < max
        invariant
            i <= n,
            n == output@.len(),
            chars@ == output@,
            max < usize::MAX - 4,
            bytes == utf8_len(output@.take(i as int)),
            i > 0 ==> bytes < max + 4,
            i == 0 ==> bytes == 0,
            forall|j: int| 0 <= j < i ==> utf8_len(#[trigger] output@.take(j)) < max,
        decreases n - i,
    {
        let c = chars[i];
        let w: usize = if (c as u32) < 0x80 {
            1
        } else if (c as u32) < 0x800 {
            2
        } else if (c as u32) < 0x10000 {
            3
        } else {
            4
        };
        proof {
            lemma_utf8_len_push(output@.take(i as int), c);
            assert(output@.take(i + 1) =~= output@.take(i as int).push(c));
        }
        bytes = bytes + w;
        i = i + 1;
    }
    proof {
        assert(output@.take(n as int) =~= output@);
    }
    if i == n && bytes <= max {
        return output;
    }
    if bytes > max {
        proof {
            // the bytes of the prefixes grow with every character, so no
            // prefix ends exactly at `max`
            assert forall|k: int| 0 <= k <= output@.len() implies utf8_len(
                #[trigger] output@.take(k),
            ) != max by {
                lemma_prefix_bytes_grow(output@, k, i as int);
            }
        }
        return output;
    }
    let mut cut = String::new();
    let mut j: usize = 0;
    while j < i
        invariant
            j <= i,
            i <= n,
            n == output@.len(),
            chars@ == output@,
            cut@ == output@.take(j as int),
        decreases i - j,
    {
        crate::text::push_char(&mut cut, chars[j]);
        j = j + 1;
        assert(cut@ =~= output@.take(j as int));
    }
    push_str(&mut cut, "\n\n[... output truncated due to size ...]");
    proof {
        assert(utf8_len(output@.take(i as int)) == max);
        lemma_prefix_bytes_grow(output@, n as int, i as int);
    }
    cut
}

proof fn lemma_prefix_bytes_grow(s: Seq<char>, k: int, i: int)
    requires
        0 <= i <= s.len(),
        0 <= k <= s.len(),
    ensures
        k < i ==> utf8_len(s.take(k)) < utf8_len(s.take(i)),
        k > i ==> utf8_len(s.take(k)) > utf8_len(s.take(i)),
    decreases if k > i { k - i } else { i - k },
{
    if k < i {
        lemma_utf8_len_push(s.take(i - 1), s[i - 1]);
        assert(s.take(i - 1).push(s[i - 1]) =~= s.take(i));
        if k < i - 1 {
            lemma_prefix_bytes_grow(s, k, i - 1);
        }
    } else if k > i {
        lemma_utf8_len_push(s.take(k - 1), s[k - 1]);
        assert(s.take(k - 1).push(s[k - 1]) =~= s.take(k));
        if k - 1 > i {
            lemma_prefix_bytes_grow(s, k - 1, i);
        }
    }
}

} // verus!

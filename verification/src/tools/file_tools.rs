//! File tools: `read_file`, `write_file` and `apply_patch`, with the path
//! and line-range rules they apply before touching the file system.
use crate::text::{chars_of, join_chars, join_seqs, lines_chars, string_from_chars, text_lines, to_owned_string};
use crate::tool_registry::Tool;
use crate::hashing::{compute_content_hash, content_hash};
use crate::runtime_gates::hash_prefix;
use crate::text::{decimal, match_count, push_decimal, push_str, replace_first};
use crate::types::{
    ExecutionMode, FileRecord, HardenedPatch, Mutation, MutationType, PatchApplicationResult,
    PatchFailureReason, ToolError, ToolName, ToolResult,
};
use crate::types::ForgeError;
use vstd::prelude::*;
use vstd::string::StringSliceAdditionalSpecFns;

verus! {

/// A `..` component starts at index `i` of path `p`.
pub open spec fn parent_segment_at(p: Seq<char>, i: int) -> bool {
    &&& 0 <= i
    &&& i + 2 <= p.len()
    &&& p[i] == '.'
    &&& p[i + 1] == '.'
    &&& (i == 0 || p[i - 1] == '/')
    &&& (i + 2 == p.len() || p[i + 2] == '/')
}

/// The path has a parent-directory (`..`) component.
pub open spec fn has_parent_segment(p: Seq<char>) -> bool {
    exists|i: int| parent_segment_at(p, i)
}

/// Whether `path` has a `..` component.
pub fn has_traversal_components(path: &str) -> (r: bool)
    ensures
        r == has_parent_segment(path@),
{
    let p = chars_of(path);
    let n = p.len();
    let mut i: usize = 0;
    while i < n
        invariant
            i <= n,
            p@ == path@,
            n == p@.len(),
            forall|j: int| 0 <= j < i ==> !parent_segment_at(p@, j),
        decreases n - i,
    {
        if i + 1 < n && p[i] == '.' && p[i + 1] == '.' && (i == 0 || p[i - 1] == '/') && (i + 2 == n || p[i
            + 2] == '/') {
            assert(parent_segment_at(p@, i as int));
            return true;
        }
        i = i + 1;
    }
    assert forall|j: int| !parent_segment_at(p@, j) by {
        if 0 <= j < i {
        }
    }
    false
}

/// First line index that a 1-based `offset` names.
pub open spec fn start_index(offset: nat) -> nat {
    if offset > 0 {
        (offset - 1) as nat
    } else {
        0
    }
}

/// Where a read without a limit starts: the first requested line, or the
/// end of the file when the offset lies beyond it.
pub open spec fn open_start(offset: nat, total: nat) -> nat {
    if start_index(offset) < total { start_index(offset) } else { total }
}

/// End of the extracted range: `limit` lines from the start, at most to the
/// last line.
pub open spec fn end_index(offset: nat, limit: nat, total: nat) -> nat {
    if start_index(offset) + limit <= total {
        start_index(offset) + limit
    } else {
        total
    }
}

/// Read file tool with offset/limit support and hash computation.
pub struct ReadFileTool;

impl ReadFileTool {
    pub fn new() -> (r: Self) {
        ReadFileTool
    }

    /// The requested lines of `content` (1-based `offset`, optional `limit`),
    /// how many lines were returned and whether that is a full read.
    pub fn extract_lines(content: &str, offset: usize, limit: Option<usize>) -> (r: (
        String,
        usize,
        bool,
    ))
        requires
            limit matches Some(lim) ==> start_index(offset as nat) <= text_lines(content@).len()
                && start_index(offset as nat) + lim <= usize::MAX,
        ensures
            limit is None && start_index(offset as nat) == 0 ==> r.0@ == content@ && r.1
                == text_lines(content@).len() && r.2,
            limit is None && start_index(offset as nat) > 0 ==> {
                let lines = text_lines(content@);
                let start = open_start(offset as nat, lines.len());
                &&& r.0@ == join_seqs(lines.subrange(start as int, lines.len() as int), "\n"@)
                &&& r.1 == lines.len() - start
                &&& !r.2
            },
            limit matches Some(lim) ==> {
                let lines = text_lines(content@);
                let start = start_index(offset as nat);
                let end = end_index(offset as nat, lim as nat, lines.len());
                &&& r.0@ == join_seqs(lines.subrange(start as int, end as int), "\n"@)
                &&& r.1 == end - start
                &&& r.2 == (end - start >= lines.len() && start == 0)
            },
    {
        let chars = chars_of(content);
        let lines = lines_chars(&chars);
        let ghost lv = lines@.map_values(|t: Vec<char>| t@);
        let total = lines.len();
        let start = if offset > 0 {
            offset - 1
        } else {
            0
        };
        match limit {
            Some(lim) => {
                let end = if start + lim <= total {
                    start + lim
                } else {
                    total
                };
                let mut picked: Vec<Vec<char>> = Vec::new();
                let mut i: usize = start;
                while i < end
                    invariant
                        start <= i <= end <= total,
                        total == lines@.len(),
                        lv == lines@.map_values(|t: Vec<char>| t@),
                        picked@.map_values(|t: Vec<char>| t@) == lv.subrange(start as int, i as int),
                    decreases end - i,
                {
                    let line = crate::text::copy_chars(lines[i].as_slice());
                    let ghost before = picked@.map_values(|t: Vec<char>| t@);
                    let ghost line_v = line@;
                    assert(line_v == lv[i as int]);
                    picked.push(line);
                    assert(picked@.map_values(|t: Vec<char>| t@) =~= before.push(line_v));
                    i = i + 1;
                    assert(before.push(line_v) =~= lv.subrange(start as int, i as int));
                }
                let sep = chars_of("\n");
                let joined = join_chars(&picked, &sep);
                let returned = end - start;
                (string_from_chars(&joined), returned, returned >= total && start == 0)
            },
            None => {
                if start == 0 {
                    return (to_owned_string(content), total, true);
                }
                let from = if start < total {
                    start
                } else {
                    total
                };
                let mut picked: Vec<Vec<char>> = Vec::new();
                let mut i: usize = from;
                while i < total
                    invariant
                        from <= i <= total,
                        total == lines@.len(),
                        lv == lines@.map_values(|t: Vec<char>| t@),
                        picked@.map_values(|t: Vec<char>| t@) == lv.subrange(from as int, i as int),
                    decreases total - i,
                {
                    let line = crate::text::copy_chars(lines[i].as_slice());
                    let ghost before = picked@.map_values(|t: Vec<char>| t@);
                    let ghost line_v = line@;
                    assert(line_v == lv[i as int]);
                    picked.push(line);
                    assert(picked@.map_values(|t: Vec<char>| t@) =~= before.push(line_v));
                    i = i + 1;
                    assert(before.push(line_v) =~= lv.subrange(from as int, i as int));
                }
                let sep = chars_of("\n");
                let joined = join_chars(&picked, &sep);
                (string_from_chars(&joined), total - from, false)
            },
        }
    }
}

impl ReadFileTool {
    /// What `read_file` answers once it holds the file's `content`: the
    /// requested lines, a summary naming how many lines were returned and
    /// the content hash, and the record of the read (partial when the
    /// lines do not cover the whole file).  Elapsed time is left at zero.
    pub fn read_result(
        path: &str,
        content: &str,
        offset: usize,
        limit: Option<usize>,
        iteration: u32,
    ) -> (r: (ToolResult, String, FileRecord))
        requires
            limit matches Some(lim) ==> start_index(offset as nat) <= text_lines(content@).len()
                && start_index(offset as nat) + lim <= usize::MAX,
        ensures
            ({
                let (res, extracted, rec) = r;
                let lines = text_lines(content@);
                let (returned, full) = match limit {
                    None => if start_index(offset as nat) == 0 {
                        (lines.len(), true)
                    } else {
                        ((lines.len() - open_start(offset as nat, lines.len())) as nat, false)
                    },
                    Some(lim) => {
                        let start = start_index(offset as nat);
                        let end = end_index(offset as nat, lim as nat, lines.len());
                        ((end - start) as nat, end - start >= lines.len() && start == 0)
                    },
                };
                &&& res.success
                &&& res.error is None
                &&& res.mutations@.len() == 0
                &&& res.execution_time_ms == 0
                &&& res.output matches Some(o) && o@ == "Read "@ + decimal(returned) + " lines from "@
                    + path@ + " (total "@ + decimal(lines.len()) + " lines, hash: "@ + hash_prefix(
                    content_hash(content@),
                ) + ")"@
                &&& limit is None && start_index(offset as nat) == 0 ==> extracted@ == content@
                &&& limit is None && start_index(offset as nat) > 0 ==> extracted@ == join_seqs(
                    lines.subrange(
                        open_start(offset as nat, lines.len()) as int,
                        lines.len() as int,
                    ),
                    "\n"@,
                )
                &&& limit matches Some(lim) ==> extracted@ == join_seqs(
                    lines.subrange(
                        start_index(offset as nat) as int,
                        end_index(offset as nat, lim as nat, lines.len()) as int,
                    ),
                    "\n"@,
                )
                &&& rec.path@ == path@
                &&& rec.content_hash@ == content_hash(content@)
                &&& rec.total_lines == lines.len()
                &&& rec.lines_read == if full {
                    None
                } else {
                    Some((offset, returned as usize))
                }
                &&& rec.is_full_read == full
                &&& rec.read_at_iteration == iteration
            }),
    {
        let (extracted, returned, full) = ReadFileTool::extract_lines(content, offset, limit);
        let hash = compute_content_hash(content);
        let lines_read = if full {
            None
        } else {
            Some((offset, returned))
        };
        let record = FileRecord::new(path, content, lines_read, iteration);
        let mut out = to_owned_string("Read ");
        push_decimal(&mut out, returned as u64);
        push_str(&mut out, " lines from ");
        push_str(&mut out, path);
        push_str(&mut out, " (total ");
        push_decimal(&mut out, record.total_lines as u64);
        push_str(&mut out, " lines, hash: ");
        let prefix = crate::runtime_gates::hash_prefix_text(hash.as_str());
        push_str(&mut out, prefix.as_str());
        push_str(&mut out, ")");
        let res = ToolResult {
            success: true,
            output: Some(out),
            error: None,
            mutations: Vec::new(),
            execution_time_ms: 0,
        };
        (res, extracted, record)
    }
}

impl WriteFileTool {
    /// What `write_file` answers once `content` was written to `path`,
    /// replacing `old_content` where the file existed: a summary with the
    /// byte count and new hash, and the write recorded with both hashes.
    pub fn write_result(path: &str, content: &str, old_content: Option<&str>) -> (r: ToolResult)
        ensures
            r.success,
            r.error is None,
            r.execution_time_ms == 0,
            r.output matches Some(o) && o@ == "Wrote "@ + decimal(
                (content.spec_bytes().len() as usize) as nat,
            ) + " bytes to "@ + path@ + " (hash: "@ + hash_prefix(content_hash(content@)) + ")"@,
            r.mutations@.len() == 1,
            r.mutations@[0]@ == (crate::types::MutationView {
                path: path@,
                mutation_type: MutationType::Write,
                content_hash_before: match old_content {
                    Some(c) => Some(content_hash(c@)),
                    None => None,
                },
                content_hash_after: Some(content_hash(content@)),
            }),
    {
        let new_hash = compute_content_hash(content);
        let old_hash = match old_content {
            Some(c) => Some(compute_content_hash(c)),
            None => None,
        };
        let mut out = to_owned_string("Wrote ");
        let n = content.len();
        push_decimal(&mut out, n as u64);
        push_str(&mut out, " bytes to ");
        push_str(&mut out, path);
        push_str(&mut out, " (hash: ");
        let prefix = crate::runtime_gates::hash_prefix_text(new_hash.as_str());
        push_str(&mut out, prefix.as_str());
        push_str(&mut out, ")");
        let mutation = Mutation {
            path: to_owned_string(path),
            mutation_type: MutationType::Write,
            content_hash_before: old_hash,
            content_hash_after: Some(new_hash),
        };
        let mut mutations: Vec<Mutation> = Vec::new();
        mutations.push(mutation);
        ToolResult { success: true, output: Some(out), error: None, mutations, execution_time_ms: 0 }
    }
}

impl Default for ReadFileTool {
    fn default() -> (r: Self) {
        ReadFileTool::new()
    }
}

/// What `ReadFileTool` tells the planner it does.
pub open spec fn read_file_tool_description() -> Seq<char> {
    "Read content from a file with optional offset and limit. Returns content hash for integrity verification."@
}

impl Tool for ReadFileTool {
    open spec fn tool_name(&self) -> Seq<char> {
        "read_file"@
    }

    fn name(&self) -> (r: ToolName)
        ensures
            r@ == "read_file"@,
    {
        proof {
            reveal_strlit("read_file");
        }
        ToolName::known("read_file")
    }

    fn description(&self) -> (r: &'static str)
        ensures
            r@ == read_file_tool_description(),
    {
        "Read content from a file with optional offset and limit. Returns content hash for integrity verification."
    }

    fn allowed_in_mode(&self, mode: ExecutionMode) -> (r: bool)
        ensures
            r,
    {
        true
    }
}

/// Write file tool with atomic writes and directory creation.
pub struct WriteFileTool;

impl WriteFileTool {
    pub fn new() -> (r: Self) {
        WriteFileTool
    }
}

impl Default for WriteFileTool {
    fn default() -> (r: Self) {
        WriteFileTool::new()
    }
}

/// What `WriteFileTool` tells the planner it does.
pub open spec fn write_file_tool_description() -> Seq<char> {
    "Write content to a file atomically. Creates parent directories if needed. Not allowed in Analysis mode."@
}

impl Tool for WriteFileTool {
    open spec fn tool_name(&self) -> Seq<char> {
        "write_file"@
    }

    fn name(&self) -> (r: ToolName)
        ensures
            r@ == "write_file"@,
    {
        proof {
            reveal_strlit("write_file");
        }
        ToolName::known("write_file")
    }

    fn description(&self) -> (r: &'static str)
        ensures
            r@ == write_file_tool_description(),
    {
        "Write content to a file atomically. Creates parent directories if needed. Not allowed in Analysis mode."
    }

    fn allowed_in_mode(&self, mode: ExecutionMode) -> (r: bool)
        ensures
            r == !(mode is Analysis),
    {
        match mode {
            ExecutionMode::Edit | ExecutionMode::Fix | ExecutionMode::Batch => true,
            ExecutionMode::Analysis => false,
        }
    }
}

/// Apply patch tool with cardinality enforcement and hash binding.
pub struct ApplyPatchTool;

/// What the patch tool decides once it holds the file's current content.
#[derive(Debug)]
pub enum PatchPlan {
    /// The patch is refused; this is the tool's result.
    Refused(ToolResult),
    /// Write `new_content` in place of the current content.
    Write { new_content: String, occurrences: usize, hash_before: String, hash_after: String },
}

/// A failed tool result carrying an execution failure message.
pub open spec fn failed_with(r: ToolResult, message: Seq<char>) -> bool {
    &&& !r.success
    &&& r.output is None
    &&& r.mutations@.len() == 0
    &&& r.error matches Some(ToolError::ExecutionFailed(m)) && m@ == message
}

/// The decision on a patch of `path` (current content `content`): refused
/// on a stale expected hash, or unless `old_text` occurs exactly once.
pub open spec fn patch_plan_ok(
    r: PatchPlan,
    path: Seq<char>,
    content: Seq<char>,
    old_text: Seq<char>,
    new_text: Seq<char>,
    expected_hash: Seq<char>,
) -> bool {
    let current = content_hash(content);
    if expected_hash != current {
        r matches PatchPlan::Refused(res) && failed_with(
            res,
            "Hash mismatch for "@ + path + ": expected "@ + hash_prefix(expected_hash)
                + " but on-disk hash is "@ + hash_prefix(current)
                + ". File may have changed since read operation."@,
        )
    } else if match_count(content, old_text) == 0 {
        r matches PatchPlan::Refused(res) && failed_with(
            res,
            "PATCH_CARDINALITY_VIOLATION: old_text not found in "@ + path,
        )
    } else if match_count(content, old_text) > 1 {
        r matches PatchPlan::Refused(res) && failed_with(
            res,
            "PATCH_CARDINALITY_VIOLATION: old_text appears "@ + decimal(match_count(content, old_text))
                + " times in "@ + path + " (must be exactly 1 for unambiguous patch)"@,
        )
    } else {
        r matches PatchPlan::Write { new_content, occurrences, hash_before, hash_after }
            && new_content@ == replace_first(content, old_text, new_text) && occurrences == 1
            && hash_before@ == current && hash_after@ == content_hash(new_content@)
    }
}

fn failure(message: String) -> (r: ToolResult)
    ensures
        failed_with(r, message@),
{
    ToolResult {
        success: false,
        output: None,
        error: Some(ToolError::ExecutionFailed(message)),
        mutations: Vec::new(),
        execution_time_ms: 0,
    }
}

impl ApplyPatchTool {
    pub fn new() -> (r: Self) {
        ApplyPatchTool
    }

    /// The read-before-write check on `path`, given whether the caller's
    /// check found the file read: refused with the violation message when
    /// it did not.
    pub fn check_read_before_write(path: &str, was_read: bool) -> (r: Result<(), ForgeError>)
        ensures
            was_read ==> r is Ok,
            !was_read ==> (r matches Err(ForgeError::InvalidArgument(m)) && m@
                == "Read-before-write violation: file '"@ + path@
                + "' must be read before patching. Use read_file first."@),
    {
        if was_read {
            return Ok(());
        }
        let mut m = to_owned_string("Read-before-write violation: file '");
        push_str(&mut m, path);
        push_str(&mut m, "' must be read before patching. Use read_file first.");
        Err(ForgeError::InvalidArgument(m))
    }

    /// Decides a patch of `path` given the file's current content: the
    /// expected hash must be the content's hash and `old_text` must occur
    /// exactly once.  Elapsed time is left at zero.
    pub fn plan_patch(
        &self,
        path: &str,
        current_content: &str,
        old_text: &str,
        new_text: &str,
        expected_hash: &str,
    ) -> (r: PatchPlan)
        requires
            current_content@.len() < usize::MAX,
        ensures
            patch_plan_ok(r, path@, current_content@, old_text@, new_text@, expected_hash@),
    {
        let current_hash = compute_content_hash(current_content);
        if !crate::text::str_eq(expected_hash, current_hash.as_str()) {
            let mut m = crate::text::to_owned_string("Hash mismatch for ");
            push_str(&mut m, path);
            push_str(&mut m, ": expected ");
            let e = crate::runtime_gates::hash_prefix_text(expected_hash);
            push_str(&mut m, e.as_str());
            push_str(&mut m, " but on-disk hash is ");
            let c = crate::runtime_gates::hash_prefix_text(current_hash.as_str());
            push_str(&mut m, c.as_str());
            push_str(&mut m, ". File may have changed since read operation.");
            return PatchPlan::Refused(failure(m));
        }
        let patch = HardenedPatch {
            old_text: crate::text::to_owned_string(old_text),
            new_text: crate::text::to_owned_string(new_text),
        };
        match patch.apply(current_content) {
            PatchApplicationResult::Success { new_content, occurrences_found, .. } => {
                let hash_after = compute_content_hash(new_content.as_str());
                PatchPlan::Write {
                    new_content,
                    occurrences: occurrences_found,
                    hash_before: current_hash,
                    hash_after,
                }
            },
            PatchApplicationResult::Failed { reason, occurrences_found } => {
                let mut m = String::new();
                match reason {
                    PatchFailureReason::TextNotFound => {
                        push_str(&mut m, "PATCH_CARDINALITY_VIOLATION: old_text not found in ");
                        push_str(&mut m, path);
                    },
                    _ => {
                        assert(occurrences_found as nat == match_count(current_content@, old_text@));
                        push_str(&mut m, "PATCH_CARDINALITY_VIOLATION: old_text appears ");
                        push_decimal(&mut m, occurrences_found as u64);
                        push_str(&mut m, " times in ");
                        push_str(&mut m, path);
                        push_str(&mut m, " (must be exactly 1 for unambiguous patch)");
                    },
                }
                PatchPlan::Refused(failure(m))
            },
        }
    }

    /// The result of a patch written to `path`: the occurrence count, how
    /// many lines changed (the difference in line counts, plus one) and the
    /// hashes before and after, with the mutation it recorded.
    pub fn patch_result(
        path: &str,
        old_content: &str,
        new_content: &str,
        occurrences: usize,
        hash_before: &str,
        hash_after: &str,
    ) -> (r: ToolResult)
        requires
            old_content@.len() < usize::MAX,
            new_content@.len() < usize::MAX,
        ensures
            r.success,
            r.error is None,
            r.execution_time_ms == 0,
            r.output matches Some(o) && o@ == "HARDENED_PATCH: "@ + path@ + " occurrences="@
                + decimal(occurrences as nat) + ", lines_changed="@ + decimal(
                lines_changed(old_content@, new_content@),
            ) + ", "@ + hash_prefix(hash_before@) + " -> "@ + hash_prefix(hash_after@),
            r.mutations@.len() == 1,
            r.mutations@[0]@ == (crate::types::MutationView {
                path: path@,
                mutation_type: MutationType::Patch,
                content_hash_before: Some(hash_before@),
                content_hash_after: Some(hash_after@),
            }),
    {
        let old_chars = crate::text::chars_of(old_content);
        let new_chars = crate::text::chars_of(new_content);
        let old_lines = crate::text::lines_chars(&old_chars).len();
        let new_lines = crate::text::lines_chars(&new_chars).len();
        proof {
            crate::text::lemma_lines_from_len(old_content@, 0, seq![]);
            crate::text::lemma_lines_from_len(new_content@, 0, seq![]);
            assert(old_lines == text_lines(old_content@).len());
            assert(new_lines == text_lines(new_content@).len());
        }
        let diff = if old_lines >= new_lines {
            old_lines - new_lines
        } else {
            new_lines - old_lines
        };
        let mut output = crate::text::to_owned_string("HARDENED_PATCH: ");
        push_str(&mut output, path);
        push_str(&mut output, " occurrences=");
        push_decimal(&mut output, occurrences as u64);
        push_str(&mut output, ", lines_changed=");
        push_decimal(&mut output, diff as u64 + 1);
        push_str(&mut output, ", ");
        let b = crate::runtime_gates::hash_prefix_text(hash_before);
        push_str(&mut output, b.as_str());
        push_str(&mut output, " -> ");
        let a = crate::runtime_gates::hash_prefix_text(hash_after);
        push_str(&mut output, a.as_str());
        let mutation = Mutation {
            path: crate::text::to_owned_string(path),
            mutation_type: MutationType::Patch,
            content_hash_before: Some(crate::text::to_owned_string(hash_before)),
            content_hash_after: Some(crate::text::to_owned_string(hash_after)),
        };
        let mut mutations: Vec<Mutation> = Vec::new();
        mutations.push(mutation);
        ToolResult { success: true, output: Some(output), error: None, mutations, execution_time_ms: 0 }
    }
}

/// How many lines a patch changed: the difference in line counts, plus one.
pub open spec fn lines_changed(old_content: Seq<char>, new_content: Seq<char>) -> nat {
    let a = crate::text::text_lines(old_content).len();
    let b = crate::text::text_lines(new_content).len();
    (if a >= b {
        a - b
    } else {
        b - a
    } + 1) as nat
}

impl Default for ApplyPatchTool {
    fn default() -> (r: Self) {
        ApplyPatchTool::new()
    }
}

/// What `ApplyPatchTool` tells the planner it does.
pub open spec fn apply_patch_tool_description() -> Seq<char> {
    "Apply a hardened patch with cardinality enforcement and hash binding. old_text must appear exactly once. expected_hash is mandatory for integrity verification."@
}

impl Tool for ApplyPatchTool {
    open spec fn tool_name(&self) -> Seq<char> {
        "apply_patch"@
    }

    fn name(&self) -> (r: ToolName)
        ensures
            r@ == "apply_patch"@,
    {
        proof {
            reveal_strlit("apply_patch");
        }
        ToolName::known("apply_patch")
    }

    fn description(&self) -> (r: &'static str)
        ensures
            r@ == apply_patch_tool_description(),
    {
        "Apply a hardened patch with cardinality enforcement and hash binding. old_text must appear exactly once. expected_hash is mandatory for integrity verification."
    }

    fn allowed_in_mode(&self, mode: ExecutionMode) -> (r: bool)
        ensures
            r == !(mode is Analysis),
    {
        match mode {
            ExecutionMode::Edit | ExecutionMode::Fix | ExecutionMode::Batch => true,
            ExecutionMode::Analysis => false,
        }
    }
}

/// A patch is written only when the caller's expected hash is the hash of
/// the file as it is now and the old text occurs exactly once; what is
/// written is the file with that occurrence replaced, and the new hash is
/// the hash of exactly that text.
pub proof fn law_patch_writes_only_unambiguous_fresh_edits(
    r: PatchPlan,
    path: Seq<char>,
    content: Seq<char>,
    old_text: Seq<char>,
    new_text: Seq<char>,
    expected_hash: Seq<char>,
)
    requires
        patch_plan_ok(r, path, content, old_text, new_text, expected_hash),
    ensures
        r matches PatchPlan::Write { new_content, hash_before, hash_after, .. } ==> {
            &&& expected_hash == content_hash(content)
            &&& match_count(content, old_text) == 1
            &&& new_content@ == replace_first(content, old_text, new_text)
            &&& hash_before@ == content_hash(content)
            &&& hash_after@ == content_hash(new_content@)
        },
        r is Refused <==> (expected_hash != content_hash(content) || match_count(content, old_text)
            != 1),
{
}

} // verus!

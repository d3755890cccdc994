//! Bounded code intelligence tools: dependency graph, symbol index, entry
//! point detection and the lint and test runners.
use crate::patterns::{
    all_captures, compile, first_captures, groups_view, regex_all_captures, regex_compiles,
    regex_first_captures,
};
use crate::tools::execute_command_tool::min_nat;
use crate::text::{
    chars_contains, chars_of, chars_starts_with, find_first, first_occurrence, contains_seq,
    lines_chars, push_str, starts_with_seq, str_eq, string_from_chars, text_lines, to_owned_string,
    trim_text, trimmed,
};
use crate::tool_registry::Tool;
use crate::tools::execute_command_tool::{blank, is_blank};
use crate::types::{ExecutionMode, ToolError, ToolName, ToolResult};
use vstd::prelude::*;

verus! {

/// Most files a dependency graph visits.
pub const MAX_GRAPH_FILES: usize = 64;

/// Most symbols the index reports.
pub const MAX_SYMBOL_RESULTS: usize = 100;

/// Longest a lint or test run may take, in seconds.
pub const RUNNER_TIMEOUT_SECONDS: u64 = 300;

/// The code tools look at most at 64 files for a dependency graph, report
/// at most 100 symbols and give a runner 300 seconds.
pub proof fn law_code_tool_limits()
    ensures
        MAX_GRAPH_FILES == 64,
        MAX_SYMBOL_RESULTS == 100,
        RUNNER_TIMEOUT_SECONDS == 300,
{
}

/// Bounded direct dependency graph of a source file.
pub struct DependencyGraphTool;

impl DependencyGraphTool {
    pub fn new() -> (r: Self) {
        DependencyGraphTool
    }
}

impl Default for DependencyGraphTool {
    fn default() -> (r: Self) {
        DependencyGraphTool::new()
    }
}

/// What `DependencyGraphTool` tells the planner it does.
pub open spec fn dependency_graph_tool_description() -> Seq<char> {
    "Build a bounded direct dependency graph for a source file."@
}

impl Tool for DependencyGraphTool {
    open spec fn tool_name(&self) -> Seq<char> {
        "dependency_graph"@
    }

    fn name(&self) -> (r: ToolName)
        ensures
            r@ == "dependency_graph"@,
    {
        proof {
            reveal_strlit("dependency_graph");
        }
        ToolName::known("dependency_graph")
    }

    fn description(&self) -> (r: &'static str)
        ensures
            r@ == dependency_graph_tool_description(),
    {
        "Build a bounded direct dependency graph for a source file."
    }

    fn allowed_in_mode(&self, mode: ExecutionMode) -> (r: bool)
        ensures
            r,
    {
        true
    }
}

/// Symbol-like locations matching a query.
pub struct SymbolIndexTool;

impl SymbolIndexTool {
    pub fn new() -> (r: Self) {
        SymbolIndexTool
    }
}

impl Default for SymbolIndexTool {
    fn default() -> (r: Self) {
        SymbolIndexTool::new()
    }
}

/// What `SymbolIndexTool` tells the planner it does.
pub open spec fn symbol_index_tool_description() -> Seq<char> {
    "Find symbol-like locations matching a query across bounded source files."@
}

impl Tool for SymbolIndexTool {
    open spec fn tool_name(&self) -> Seq<char> {
        "symbol_index"@
    }

    fn name(&self) -> (r: ToolName)
        ensures
            r@ == "symbol_index"@,
    {
        proof {
            reveal_strlit("symbol_index");
        }
        ToolName::known("symbol_index")
    }

    fn description(&self) -> (r: &'static str)
        ensures
            r@ == symbol_index_tool_description(),
    {
        "Find symbol-like locations matching a query across bounded source files."
    }

    fn allowed_in_mode(&self, mode: ExecutionMode) -> (r: bool)
        ensures
            r,
    {
        true
    }
}

/// Project entry points such as Rust main/lib/bin files and package scripts.
pub struct EntryPointDetectorTool;

impl EntryPointDetectorTool {
    pub fn new() -> (r: Self) {
        EntryPointDetectorTool
    }
}

impl Default for EntryPointDetectorTool {
    fn default() -> (r: Self) {
        EntryPointDetectorTool::new()
    }
}

/// What `EntryPointDetectorTool` tells the planner it does.
pub open spec fn entry_point_detector_tool_description() -> Seq<char> {
    "Detect bounded project entry points such as Rust main/lib/bin files and package scripts."@
}

impl Tool for EntryPointDetectorTool {
    open spec fn tool_name(&self) -> Seq<char> {
        "entrypoint_detector"@
    }

    fn name(&self) -> (r: ToolName)
        ensures
            r@ == "entrypoint_detector"@,
    {
        proof {
            reveal_strlit("entrypoint_detector");
        }
        ToolName::known("entrypoint_detector")
    }

    fn description(&self) -> (r: &'static str)
        ensures
            r@ == entry_point_detector_tool_description(),
    {
        "Detect bounded project entry points such as Rust main/lib/bin files and package scripts."
    }

    fn allowed_in_mode(&self, mode: ExecutionMode) -> (r: bool)
        ensures
            r,
    {
        true
    }
}

/// Runs the repository lint policy.
pub struct LintRunnerTool;

impl LintRunnerTool {
    pub fn new() -> (r: Self) {
        LintRunnerTool
    }
}

impl Default for LintRunnerTool {
    fn default() -> (r: Self) {
        LintRunnerTool::new()
    }
}

/// What `LintRunnerTool` tells the planner it does.
pub open spec fn lint_runner_tool_description() -> Seq<char> {
    "Run the repository lint policy for Rust or JavaScript projects."@
}

impl Tool for LintRunnerTool {
    open spec fn tool_name(&self) -> Seq<char> {
        "lint_runner"@
    }

    fn name(&self) -> (r: ToolName)
        ensures
            r@ == "lint_runner"@,
    {
        proof {
            reveal_strlit("lint_runner");
        }
        ToolName::known("lint_runner")
    }

    fn description(&self) -> (r: &'static str)
        ensures
            r@ == lint_runner_tool_description(),
    {
        "Run the repository lint policy for Rust or JavaScript projects."
    }

    fn allowed_in_mode(&self, mode: ExecutionMode) -> (r: bool)
        ensures
            r == !(mode is Analysis),
    {
        match mode {
            ExecutionMode::Analysis => false,
            _ => true,
        }
    }
}

/// Runs the repository test policy.
pub struct TestRunnerTool;

impl TestRunnerTool {
    pub fn new() -> (r: Self) {
        TestRunnerTool
    }
}

impl Default for TestRunnerTool {
    fn default() -> (r: Self) {
        TestRunnerTool::new()
    }
}

/// What `TestRunnerTool` tells the planner it does.
pub open spec fn test_runner_tool_description() -> Seq<char> {
    "Run the repository test policy for Rust or JavaScript projects."@
}

impl Tool for TestRunnerTool {
    open spec fn tool_name(&self) -> Seq<char> {
        "test_runner"@
    }

    fn name(&self) -> (r: ToolName)
        ensures
            r@ == "test_runner"@,
    {
        proof {
            reveal_strlit("test_runner");
        }
        ToolName::known("test_runner")
    }

    fn description(&self) -> (r: &'static str)
        ensures
            r@ == test_runner_tool_description(),
    {
        "Run the repository test policy for Rust or JavaScript projects."
    }

    fn allowed_in_mode(&self, mode: ExecutionMode) -> (r: bool)
        ensures
            r == !(mode is Analysis),
    {
        match mode {
            ExecutionMode::Analysis => false,
            _ => true,
        }
    }
}

/// What a runner shows of a finished process: its stdout where stderr is
/// blank, its stderr where stdout is blank, else both on separate lines.
pub open spec fn runner_output(stdout: Seq<char>, stderr: Seq<char>) -> Seq<char> {
    if blank(stderr) {
        stdout
    } else if blank(stdout) {
        stderr
    } else {
        stdout + "\n"@ + stderr
    }
}

/// The result of a lint or test run: its combined output, and on failure
/// the stderr as the error.
pub fn runner_result(success: bool, stdout: String, stderr: String, elapsed_ms: u64) -> (r:
    ToolResult)
    ensures
        r.success == success,
        r.output matches Some(o) && o@ == runner_output(stdout@, stderr@),
        success ==> r.error is None,
        !success ==> (r.error matches Some(ToolError::ExecutionFailed(m)) && m@ == stderr@),
        r.mutations@.len() == 0,
        r.execution_time_ms == elapsed_ms,
{
    let output = if is_blank(stderr.as_str()) {
        stdout
    } else if is_blank(stdout.as_str()) {
        stderr.clone()
    } else {
        let mut o = stdout;
        push_str(&mut o, "\n");
        push_str(&mut o, stderr.as_str());
        o
    };
    let error = if success {
        None
    } else {
        Some(ToolError::ExecutionFailed(stderr))
    };
    ToolResult { success, output: Some(output), error, mutations: Vec::new(), execution_time_ms: elapsed_ms }
}

/// Which policy a runner follows.
#[derive(Debug, Clone, Copy, PartialEq, Eq, Structural)]
pub enum RunnerKind {
    Lint,
    Test,
}

/// The command a runner starts in a project, and the answer where it
/// starts none.
#[derive(Debug)]
pub enum RunnerPlan {
    Run { program: String, args: Vec<String> },
    NothingToRun(ToolResult),
}

/// The command line of a runner: for a Cargo project `cargo clippy` with
/// warnings denied or `cargo test --quiet`; else for an npm project
/// `npm run lint --if-present` or `npm test --if-present`.
pub open spec fn runner_command(kind: RunnerKind, has_cargo: bool, has_package_json: bool) -> Option<
    (Seq<char>, Seq<Seq<char>>),
> {
    if has_cargo {
        match kind {
            RunnerKind::Lint => Some(
                (
                    "cargo"@,
                    seq![
                        "clippy"@,
                        "--all-targets"@,
                        "--all-features"@,
                        "--"@,
                        "-D"@,
                        "warnings"@,
                    ],
                ),
            ),
            RunnerKind::Test => Some(("cargo"@, seq!["test"@, "--quiet"@])),
        }
    } else if has_package_json {
        match kind {
            RunnerKind::Lint => Some(("npm"@, seq!["run"@, "lint"@, "--if-present"@])),
            RunnerKind::Test => Some(("npm"@, seq!["test"@, "--if-present"@])),
        }
    } else {
        None
    }
}

/// A Cargo project is linted with `cargo clippy --all-targets
/// --all-features -- -D warnings` and tested with `cargo test --quiet`;
/// otherwise an npm project with `npm run lint --if-present` and `npm test
/// --if-present`; a project with neither has no runner.
pub proof fn law_runner_commands(kind: RunnerKind, has_package_json: bool)
    ensures
        runner_command(RunnerKind::Lint, true, has_package_json) == Some(
            (
                "cargo"@,
                seq!["clippy"@, "--all-targets"@, "--all-features"@, "--"@, "-D"@, "warnings"@],
            ),
        ),
        runner_command(RunnerKind::Test, true, has_package_json) == Some(
            ("cargo"@, seq!["test"@, "--quiet"@]),
        ),
        runner_command(RunnerKind::Lint, false, true) == Some(
            ("npm"@, seq!["run"@, "lint"@, "--if-present"@]),
        ),
        runner_command(RunnerKind::Test, false, true) == Some(
            ("npm"@, seq!["test"@, "--if-present"@]),
        ),
        runner_command(kind, false, false) is None,
{
}

fn strings_of_strs(items: &[&str]) -> (r: Vec<String>)
    ensures
        r@.map_values(|s: String| s@) == items@.map_values(|s: &str| s@),
{
    let mut out: Vec<String> = Vec::new();
    let mut i: usize = 0;
    while i < items.len()
        invariant
            i <= items@.len(),
            out@.map_values(|s: String| s@) == items@.take(i as int).map_values(|s: &str| s@),
        decreases items@.len() - i,
    {
        let ghost before = out@.map_values(|s: String| s@);
        out.push(to_owned_string(items[i]));
        assert(out@.map_values(|s: String| s@) =~= before.push(items@[i as int]@));
        i = i + 1;
        assert(items@.take(i as int).map_values(|s: &str| s@) =~= items@.take(i - 1).map_values(
            |s: &str| s@,
        ).push(items@[i - 1]@));
    }
    assert(items@.take(i as int) =~= items@);
    out
}

/// Decides what a lint or test runner does in a project that has a
/// `Cargo.toml` and/or a `package.json` (Cargo first); with neither it
/// succeeds with a note that no policy was found.
pub fn plan_runner(kind: RunnerKind, has_cargo: bool, has_package_json: bool) -> (r: RunnerPlan)
    ensures
        match runner_command(kind, has_cargo, has_package_json) {
            Some((prog, args)) => r matches RunnerPlan::Run { program, args: a } && program@ == prog
                && a@.map_values(|s: String| s@) == args,
            None => r matches RunnerPlan::NothingToRun(res) && res.success && res.error is None
                && res.mutations@.len() == 0 && res.execution_time_ms == 0 && (res.output matches Some(
                o,
            ) && o@ == match kind {
                RunnerKind::Lint => "No supported lint policy detected"@,
                RunnerKind::Test => "No supported test policy detected"@,
            }),
        },
{
    let (program, args): (&str, Vec<&str>) = if has_cargo {
        match kind {
            RunnerKind::Lint => (
                "cargo",
                vec!["clippy", "--all-targets", "--all-features", "--", "-D", "warnings"],
            ),
            RunnerKind::Test => ("cargo", vec!["test", "--quiet"]),
        }
    } else if has_package_json {
        match kind {
            RunnerKind::Lint => ("npm", vec!["run", "lint", "--if-present"]),
            RunnerKind::Test => ("npm", vec!["test", "--if-present"]),
        }
    } else {
        let note = match kind {
            RunnerKind::Lint => "No supported lint policy detected",
            RunnerKind::Test => "No supported test policy detected",
        };
        return RunnerPlan::NothingToRun(ToolResult {
            success: true,
            output: Some(to_owned_string(note)),
            error: None,
            mutations: Vec::new(),
            execution_time_ms: 0,
        });
    };
    let a = strings_of_strs(args.as_slice());
    proof {
        let expected = match runner_command(kind, has_cargo, has_package_json) {
            Some((_, xs)) => xs,
            None => Seq::empty(),
        };
        assert(args@.map_values(|s: &str| s@) =~= expected);
    }
    RunnerPlan::Run { program: to_owned_string(program), args: a }
}

/// The pattern of a Rust `mod name;` declaration.
pub open spec fn mod_pattern() -> Seq<char> {
    "(?m)^\\s*(?:pub\\s+)?mod\\s+([a-zA-Z_][a-zA-Z0-9_]*)\\s*;"@
}

/// The pattern of a Rust `use crate::...` path.
pub open spec fn use_pattern() -> Seq<char> {
    "\\buse\\s+(crate::[a-zA-Z0-9_:]+)"@
}

/// The pattern of a JavaScript or TypeScript import or require.
pub open spec fn import_pattern() -> Seq<char> {
    "(?m)(?:import\\s+.*?\\s+from\\s+|require\\()\\s*['\"]([^'\"]+)['\"]"@
}

/// A reference from one source file to another, before it is resolved to
/// a path.
#[derive(Debug, Clone)]
pub enum DependencyRef {
    /// `mod name;`: `name.rs` or `name/mod.rs` beside the file.
    RustModule(String),
    /// `use crate::name::...`: `name.rs` or `name/mod.rs` under the crate's
    /// `src`.
    CrateModule(String),
    /// A relative import, as written.
    ScriptImport(String),
}

pub enum DependencyRefView {
    RustModule(Seq<char>),
    CrateModule(Seq<char>),
    ScriptImport(Seq<char>),
}

impl View for DependencyRef {
    type V = DependencyRefView;

    open spec fn view(&self) -> DependencyRefView {
        match self {
            DependencyRef::RustModule(s) => DependencyRefView::RustModule(s@),
            DependencyRef::CrateModule(s) => DependencyRefView::CrateModule(s@),
            DependencyRef::ScriptImport(s) => DependencyRefView::ScriptImport(s@),
        }
    }
}

/// The text of group 1 of a match (empty where it took no part).
pub open spec fn group_one(c: Seq<Option<Seq<char>>>) -> Seq<char> {
    if c.len() > 1 && c[1] is Some {
        c[1]->0
    } else {
        Seq::empty()
    }
}

/// The text with every leading `crate::` removed.
pub open spec fn strip_crate_prefix(s: Seq<char>) -> Seq<char>
    decreases s.len(),
{
    if s.len() >= 7 && s.subrange(0, 7) == seq!['c', 'r', 'a', 't', 'e', ':', ':'] {
        strip_crate_prefix(s.subrange(7, s.len() as int))
    } else {
        s
    }
}

/// The first `::`-separated segment of a `crate::` path.
pub open spec fn crate_head(raw: Seq<char>) -> Seq<char> {
    let rest = strip_crate_prefix(raw);
    if contains_seq(rest, seq![':', ':']) {
        rest.subrange(0, first_occurrence(rest, seq![':', ':']))
    } else {
        rest
    }
}

/// References to crate modules, in order; a path with an empty head names
/// nothing.
pub open spec fn crate_refs(caps: Seq<Seq<Option<Seq<char>>>>) -> Seq<DependencyRefView>
    decreases caps.len(),
{
    if caps.len() == 0 {
        seq![]
    } else {
        let head = crate_head(group_one(caps.last()));
        let rest = crate_refs(caps.drop_last());
        if head.len() > 0 {
            rest.push(DependencyRefView::CrateModule(head))
        } else {
            rest
        }
    }
}

/// Relative imports, in order; an import not starting with `.` names no
/// file of the project.
pub open spec fn import_refs(caps: Seq<Seq<Option<Seq<char>>>>) -> Seq<DependencyRefView>
    decreases caps.len(),
{
    if caps.len() == 0 {
        seq![]
    } else {
        let g = group_one(caps.last());
        let rest = import_refs(caps.drop_last());
        if g.len() > 0 && g[0] == '.' {
            rest.push(DependencyRefView::ScriptImport(g))
        } else {
            rest
        }
    }
}

/// The direct references of a file with extension `ext`: for Rust its
/// `mod` declarations, then its `use crate::` paths; for JavaScript and
/// TypeScript its relative imports; nothing for other files.
pub open spec fn dependency_refs(ext: Seq<char>, content: Seq<char>) -> Seq<DependencyRefView> {
    if ext == "rs"@ {
        regex_all_captures(mod_pattern(), content).map_values(
            |c: Seq<Option<Seq<char>>>| DependencyRefView::RustModule(group_one(c)),
        ) + crate_refs(regex_all_captures(use_pattern(), content))
    } else if ext == "js"@ || ext == "jsx"@ || ext == "ts"@ || ext == "tsx"@ {
        import_refs(regex_all_captures(import_pattern(), content))
    } else {
        seq![]
    }
}

fn group_one_of(c: &Vec<Option<String>>) -> (r: String)
    ensures
        r@ == group_one(groups_view(c@)),
{
    if c.len() > 1 {
        match &c[1] {
            Some(s) => s.clone(),
            None => String::new(),
        }
    } else {
        String::new()
    }
}

fn crate_head_of(raw: &str) -> (r: String)
    ensures
        r@ == crate_head(raw@),
{
    let prefix = chars_of("crate::");
    proof {
        reveal_strlit("crate::");
        assert(prefix@ =~= seq!['c', 'r', 'a', 't', 'e', ':', ':']);
    }
    let mut rest = chars_of(raw);
    while rest.len() >= 7 && chars_starts_with(rest.as_slice(), prefix.as_slice())
        invariant
            strip_crate_prefix(rest@) == strip_crate_prefix(raw@),
            prefix@ == seq!['c', 'r', 'a', 't', 'e', ':', ':'],
        decreases rest@.len(),
    {
        let mut next: Vec<char> = Vec::new();
        let mut i: usize = 7;
        while i < rest.len()
            invariant
                7 <= i <= rest@.len(),
                next@ == rest@.subrange(7, i as int),
            decreases rest@.len() - i,
        {
            next.push(rest[i]);
            i = i + 1;
            assert(next@ =~= rest@.subrange(7, i as int));
        }
        assert(rest@.subrange(0, 7) =~= prefix@);
        rest = next;
    }
    proof {
        if rest@.len() >= 7 {
            assert(!starts_with_seq(rest@, prefix@));
            assert(rest@.subrange(0, 7) != prefix@);
        }
    }
    let sep = chars_of("::");
    proof {
        reveal_strlit("::");
        assert(sep@ =~= seq![':', ':']);
    }
    match find_first(rest.as_slice(), sep.as_slice()) {
        Some(k) => {
            let mut head: Vec<char> = Vec::new();
            let mut j: usize = 0;
            while j < k
                invariant
                    j <= k,
                    k <= rest@.len(),
                    head@ == rest@.subrange(0, j as int),
                decreases k - j,
            {
                head.push(rest[j]);
                j = j + 1;
                assert(head@ =~= rest@.subrange(0, j as int));
            }
            string_from_chars(&head)
        },
        None => string_from_chars(&rest),
    }
}

impl DependencyGraphTool {
    /// The direct references in the source text of a file with extension
    /// `ext`, in the order they occur (see `dependency_refs`); `None` only
    /// where the `regex` crate refuses one of the fixed patterns.
    pub fn dependency_refs(ext: &str, content: &str) -> (r: Option<Vec<DependencyRef>>)
        ensures
            r matches Some(v) ==> v@.map_values(|d: DependencyRef| d@) == dependency_refs(
                ext@,
                content@,
            ),
            r is None ==> (ext@ == "rs"@ && !(regex_compiles(mod_pattern()) && regex_compiles(
                use_pattern(),
            ))) || ((ext@ == "js"@ || ext@ == "jsx"@ || ext@ == "ts"@ || ext@ == "tsx"@)
                && !regex_compiles(import_pattern())),
    {
        let mut out: Vec<DependencyRef> = Vec::new();
        if str_eq(ext, "rs") {
            let mod_re = compile("(?m)^\\s*(?:pub\\s+)?mod\\s+([a-zA-Z_][a-zA-Z0-9_]*)\\s*;")?;
            let use_re = compile("\\buse\\s+(crate::[a-zA-Z0-9_:]+)")?;
            let mods = all_captures(&mod_re, content);
            let ghost mv = mods@.map_values(|c: Vec<Option<String>>| groups_view(c@));
            let mut i: usize = 0;
            while i < mods.len()
                invariant
                    i <= mods@.len(),
                    mv == mods@.map_values(|c: Vec<Option<String>>| groups_view(c@)),
                    out@.map_values(|d: DependencyRef| d@) == mv.take(i as int).map_values(
                        |c: Seq<Option<Seq<char>>>| DependencyRefView::RustModule(group_one(c)),
                    ),
                decreases mods@.len() - i,
            {
                let ghost before = out@.map_values(|d: DependencyRef| d@);
                let name = group_one_of(&mods[i]);
                out.push(DependencyRef::RustModule(name));
                assert(out@.map_values(|d: DependencyRef| d@) =~= before.push(
                    DependencyRefView::RustModule(group_one(mv[i as int])),
                ));
                i = i + 1;
                assert(mv.take(i as int).map_values(
                    |c: Seq<Option<Seq<char>>>| DependencyRefView::RustModule(group_one(c)),
                ) =~= mv.take(i - 1).map_values(
                    |c: Seq<Option<Seq<char>>>| DependencyRefView::RustModule(group_one(c)),
                ).push(DependencyRefView::RustModule(group_one(mv[i - 1]))));
            }
            assert(mv.take(i as int) =~= mv);
            let ghost mod_part = out@.map_values(|d: DependencyRef| d@);
            let uses = all_captures(&use_re, content);
            let ghost uv = uses@.map_values(|c: Vec<Option<String>>| groups_view(c@));
            let mut j: usize = 0;
            while j < uses.len()
                invariant
                    j <= uses@.len(),
                    uv == uses@.map_values(|c: Vec<Option<String>>| groups_view(c@)),
                    out@.map_values(|d: DependencyRef| d@) == mod_part + crate_refs(
                        uv.take(j as int),
                    ),
                decreases uses@.len() - j,
            {
                let ghost before = out@.map_values(|d: DependencyRef| d@);
                assert(uv.take(j + 1).drop_last() =~= uv.take(j as int));
                assert(uv.take(j + 1).last() == uv[j as int]);
                let raw = group_one_of(&uses[j]);
                let head = crate_head_of(raw.as_str());
                let head_chars = chars_of(head.as_str());
                if head_chars.len() > 0 {
                    let ghost hv = head@;
                    out.push(DependencyRef::CrateModule(head));
                    assert(out@.map_values(|d: DependencyRef| d@) =~= before.push(
                        DependencyRefView::CrateModule(hv),
                    ));
                }
                j = j + 1;
            }
            assert(uv.take(j as int) =~= uv);
            Some(out)
        } else if str_eq(ext, "js") || str_eq(ext, "jsx") || str_eq(ext, "ts") || str_eq(ext, "tsx") {
            let import_re = compile(
                "(?m)(?:import\\s+.*?\\s+from\\s+|require\\()\\s*['\"]([^'\"]+)['\"]",
            )?;
            let imports = all_captures(&import_re, content);
            let ghost iv = imports@.map_values(|c: Vec<Option<String>>| groups_view(c@));
            let mut k: usize = 0;
            while k < imports.len()
                invariant
                    k <= imports@.len(),
                    iv == imports@.map_values(|c: Vec<Option<String>>| groups_view(c@)),
                    out@.map_values(|d: DependencyRef| d@) == import_refs(iv.take(k as int)),
                decreases imports@.len() - k,
            {
                let ghost before = out@.map_values(|d: DependencyRef| d@);
                assert(iv.take(k + 1).drop_last() =~= iv.take(k as int));
                assert(iv.take(k + 1).last() == iv[k as int]);
                let g = group_one_of(&imports[k]);
                let gc = chars_of(g.as_str());
                if gc.len() > 0 && gc[0] == '.' {
                    let ghost gv = g@;
                    out.push(DependencyRef::ScriptImport(g));
                    assert(out@.map_values(|d: DependencyRef| d@) =~= before.push(
                        DependencyRefView::ScriptImport(gv),
                    ));
                }
                k = k + 1;
            }
            assert(iv.take(k as int) =~= iv);
            Some(out)
        } else {
            assert(out@.map_values(|d: DependencyRef| d@) =~= Seq::<DependencyRefView>::empty());
            Some(out)
        }
    }
}

/// The pattern of a symbol definition: a defining keyword, then a name.
pub open spec fn symbol_pattern() -> Seq<char> {
    "(?x)\n            \\b(fn|struct|enum|trait|impl|type|const|let|class|function|def|interface)\\s+\n            ([A-Za-z_][A-Za-z0-9_]*)"@
}

/// A symbol found by the index.
#[derive(Debug, Clone)]
pub struct SymbolHit {
    /// 1-based line number.
    pub line: usize,
    pub kind: String,
    pub symbol: String,
    pub preview: String,
}

pub struct SymbolHitView {
    pub line: nat,
    pub kind: Seq<char>,
    pub symbol: Seq<char>,
    pub preview: Seq<char>,
}

impl View for SymbolHit {
    type V = SymbolHitView;

    open spec fn view(&self) -> SymbolHitView {
        SymbolHitView {
            line: self.line as nat,
            kind: self.kind@,
            symbol: self.symbol@,
            preview: self.preview@,
        }
    }
}

/// Group `i` of a match, or `d` where it took no part.
pub open spec fn group_or(c: Seq<Option<Seq<char>>>, i: int, d: Seq<char>) -> Seq<char> {
    if 0 <= i < c.len() && c[i] is Some {
        c[i]->0
    } else {
        d
    }
}

/// The symbol a line defines that matches `query`, as (kind, name): the
/// line must define one, and the name or the line must contain the query.
pub open spec fn line_symbol(line: Seq<char>, query: Seq<char>) -> Option<(Seq<char>, Seq<char>)> {
    match regex_first_captures(symbol_pattern(), line) {
        None => None,
        Some(c) => {
            let name = group_or(c, 2, Seq::empty());
            if contains_seq(name, query) || contains_seq(line, query) {
                Some((group_or(c, 1, "symbol"@), name))
            } else {
                None
            }
        },
    }
}

/// The symbols found among the first `n` lines, in order.
pub open spec fn symbol_hits(lines: Seq<Seq<char>>, n: int, query: Seq<char>) -> Seq<SymbolHitView>
    decreases n,
{
    if n <= 0 {
        seq![]
    } else {
        let prev = symbol_hits(lines, n - 1, query);
        match line_symbol(lines[n - 1], query) {
            Some((kind, name)) => prev.push(
                SymbolHitView { line: n as nat, kind, symbol: name, preview: trimmed(lines[n - 1]) },
            ),
            None => prev,
        }
    }
}

fn group_or_of(c: &Vec<Option<String>>, i: usize, d: &str) -> (r: String)
    ensures
        r@ == group_or(groups_view(c@), i as int, d@),
{
    if i < c.len() {
        match &c[i] {
            Some(s) => s.clone(),
            None => to_owned_string(d),
        }
    } else {
        to_owned_string(d)
    }
}

impl SymbolIndexTool {
    /// The symbols of one file's text matching `query`: the first
    /// `*max_results` of them (all where there are fewer), counted off it.
    /// `None` only where the `regex` crate refuses the fixed symbol pattern.
    pub fn search_content(content: &str, query: &str, max_results: &mut usize) -> (r: Option<
        Vec<SymbolHit>,
    >)
        ensures
            r is None ==> !regex_compiles(symbol_pattern()) && *final(max_results) == *old(
                max_results,
            ),
            r matches Some(hits) ==> {
                let lines = text_lines(content@);
                let all = symbol_hits(lines, lines.len() as int, query@);
                let k = min_nat(*old(max_results) as nat, all.len());
                &&& hits@.map_values(|h: SymbolHit| h@) == all.take(k as int)
                &&& *final(max_results) == *old(max_results) - k
            },
    {
        let re = match compile(
            "(?x)\n            \\b(fn|struct|enum|trait|impl|type|const|let|class|function|def|interface)\\s+\n            ([A-Za-z_][A-Za-z0-9_]*)",
        ) {
            Some(re) => re,
            None => {
                return None;
            },
        };
        let chars = chars_of(content);
        let lines = lines_chars(&chars);
        let ghost lv = lines@.map_values(|t: Vec<char>| t@);
        let q = chars_of(query);
        let budget = *max_results;
        let mut hits: Vec<SymbolHit> = Vec::new();
        let mut idx: usize = 0;
        while idx < lines.len() && hits.len() < budget
            invariant
                idx <= lines@.len(),
                lv == lines@.map_values(|t: Vec<char>| t@),
                lv == text_lines(content@),
                q@ == query@,
                re.source() == symbol_pattern(),
                hits@.len() <= budget,
                hits@.map_values(|h: SymbolHit| h@) == symbol_hits(lv, idx as int, query@),
            decreases lines@.len() - idx,
        {
            let line = string_from_chars(lines[idx].as_slice());
            assert(line@ == lv[idx as int]);
            let ghost before = hits@.map_values(|h: SymbolHit| h@);
            match first_captures(&re, line.as_str()) {
                Some(c) => {
                    let name = group_or_of(&c, 2, "");
                    proof {
                        reveal_strlit("");
                        assert(""@ =~= Seq::<char>::empty());
                    }
                    let nc = chars_of(name.as_str());
                    if chars_contains(nc.as_slice(), q.as_slice()) || chars_contains(
                        lines[idx].as_slice(),
                        q.as_slice(),
                    ) {
                        let kind = group_or_of(&c, 1, "symbol");
                        let preview = trim_text(line.as_str());
                        let h = SymbolHit { line: idx + 1, kind, symbol: name, preview };
                        let ghost hv = h@;
                        hits.push(h);
                        assert(hits@.map_values(|h: SymbolHit| h@) =~= before.push(hv));
                    }
                },
                None => {},
            }
            idx = idx + 1;
        }
        proof {
            let all = symbol_hits(lv, lv.len() as int, query@);
            lemma_symbol_hits_prefix(lv, idx as int, lv.len() as int, query@);
            if hits@.len() < budget {
                assert(idx == lv.len());
            }
            assert(hits@.map_values(|h: SymbolHit| h@) =~= all.take(
                min_nat(budget as nat, all.len()) as int,
            ));
        }
        *max_results = budget - hits.len();
        Some(hits)
    }
}

/// The symbols found among fewer lines are the first found among more.
proof fn lemma_symbol_hits_prefix(lines: Seq<Seq<char>>, i: int, j: int, query: Seq<char>)
    requires
        0 <= i <= j,
    ensures
        symbol_hits(lines, i, query).len() <= symbol_hits(lines, j, query).len(),
        symbol_hits(lines, j, query).take(symbol_hits(lines, i, query).len() as int)
            == symbol_hits(lines, i, query),
    decreases j - i,
{
    if i < j {
        lemma_symbol_hits_prefix(lines, i, j - 1, query);
        let a = symbol_hits(lines, i, query);
        let b = symbol_hits(lines, j - 1, query);
        let c = symbol_hits(lines, j, query);
        assert(c.take(a.len() as int) =~= b.take(a.len() as int));
    }
}

} // verus!

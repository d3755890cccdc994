//! Tool registry contract: the built-in tools, their mode rules, resolution
//! that fails closed on unknown names, and an executor that authorises a
//! call before handing it to whoever performs the tool's work.
use crate::state::AgentState;
use crate::text::str_eq;
use crate::types::{
    ExecutionContext, ExecutionMode, FileRecord, ForgeError, ToolArguments, ToolCall, ToolName,
    ToolResult,
};
use vstd::prelude::*;

verus! {

/// Formal contract of a tool: its canonical name, a description, and the
/// execution modes in which it may run.
pub trait Tool {
    /// The canonical name of this tool, as text.
    spec fn tool_name(&self) -> Seq<char>;

    /// The canonical name of this tool.
    fn name(&self) -> (r: ToolName)
        ensures
            r@ == self.tool_name(),
    ;

    /// What this tool does.
    fn description(&self) -> &'static str;

    /// Whether this tool may run in `mode`; by default every mode but
    /// analysis admits it, and analysis admits only `read_file`.
    fn allowed_in_mode(&self, mode: ExecutionMode) -> (r: bool)
        default_ensures
            r == (mode != ExecutionMode::Analysis || self.tool_name() == "read_file"@),
    {
        mode != ExecutionMode::Analysis || str_eq(self.name().as_str(), "read_file")
    }
}

/// The built-in tools.
#[derive(Debug, Clone, Copy, PartialEq, Eq, Structural)]
pub enum ToolKind {
    ReadFile,
    WriteFile,
    ApplyPatch,
    GrepSearch,
    ListDir,
    DependencyGraph,
    SymbolIndex,
    EntryPointDetector,
    LintRunner,
    TestRunner,
    ExecuteCommand,
    BrowserPreview,
}

/// Canonical name of a built-in tool.
pub open spec fn kind_name(k: ToolKind) -> Seq<char> {
    match k {
        ToolKind::ReadFile => "read_file"@,
        ToolKind::WriteFile => "write_file"@,
        ToolKind::ApplyPatch => "apply_patch"@,
        ToolKind::GrepSearch => "grep_search"@,
        ToolKind::ListDir => "list_dir"@,
        ToolKind::DependencyGraph => "dependency_graph"@,
        ToolKind::SymbolIndex => "symbol_index"@,
        ToolKind::EntryPointDetector => "entrypoint_detector"@,
        ToolKind::LintRunner => "lint_runner"@,
        ToolKind::TestRunner => "test_runner"@,
        ToolKind::ExecuteCommand => "execute_command"@,
        ToolKind::BrowserPreview => "browser_preview"@,
    }
}

/// Read and discovery tools run in every mode; tools that write, run
/// commands or serve files are refused in analysis mode.
pub open spec fn kind_allows(k: ToolKind, mode: ExecutionMode) -> bool {
    match k {
        ToolKind::ReadFile | ToolKind::GrepSearch | ToolKind::ListDir | ToolKind::DependencyGraph
        | ToolKind::SymbolIndex | ToolKind::EntryPointDetector => true,
        _ => !(mode is Analysis),
    }
}

/// The built-in tool of that name, if any.
pub open spec fn kind_for(name: Seq<char>) -> Option<ToolKind> {
    if name == "read_file"@ {
        Some(ToolKind::ReadFile)
    } else if name == "write_file"@ {
        Some(ToolKind::WriteFile)
    } else if name == "apply_patch"@ {
        Some(ToolKind::ApplyPatch)
    } else if name == "grep_search"@ {
        Some(ToolKind::GrepSearch)
    } else if name == "list_dir"@ {
        Some(ToolKind::ListDir)
    } else if name == "dependency_graph"@ {
        Some(ToolKind::DependencyGraph)
    } else if name == "symbol_index"@ {
        Some(ToolKind::SymbolIndex)
    } else if name == "entrypoint_detector"@ {
        Some(ToolKind::EntryPointDetector)
    } else if name == "lint_runner"@ {
        Some(ToolKind::LintRunner)
    } else if name == "test_runner"@ {
        Some(ToolKind::TestRunner)
    } else if name == "execute_command"@ {
        Some(ToolKind::ExecuteCommand)
    } else if name == "browser_preview"@ {
        Some(ToolKind::BrowserPreview)
    } else {
        None
    }
}

/// The registered tools, in registration order.
pub open spec fn builtin_kinds() -> Seq<ToolKind> {
    seq![
        ToolKind::ReadFile,
        ToolKind::WriteFile,
        ToolKind::ApplyPatch,
        ToolKind::GrepSearch,
        ToolKind::ListDir,
        ToolKind::DependencyGraph,
        ToolKind::SymbolIndex,
        ToolKind::EntryPointDetector,
        ToolKind::LintRunner,
        ToolKind::TestRunner,
        ToolKind::ExecuteCommand,
        ToolKind::BrowserPreview,
    ]
}

/// The first argument a tool requires that `args` lacks, in the order the
/// tool asks for them.
pub open spec fn missing_argument(k: ToolKind, args: ToolArguments) -> Option<Seq<char>> {
    match k {
        ToolKind::ReadFile | ToolKind::ListDir | ToolKind::DependencyGraph => if args.lookup(
            "path"@,
        ) is None {
            Some("path"@)
        } else {
            None
        },
        ToolKind::WriteFile => if args.lookup("path"@) is None {
            Some("path"@)
        } else if args.lookup("content"@) is None {
            Some("content"@)
        } else {
            None
        },
        ToolKind::ApplyPatch => if args.lookup("file_path"@) is None {
            Some("file_path"@)
        } else if args.lookup("old_text"@) is None {
            Some("old_text"@)
        } else if args.lookup("new_text"@) is None {
            Some("new_text"@)
        } else if args.lookup("expected_hash"@) is None {
            Some("expected_hash"@)
        } else {
            None
        },
        ToolKind::GrepSearch | ToolKind::SymbolIndex => if args.lookup("query"@) is None {
            Some("query"@)
        } else {
            None
        },
        ToolKind::ExecuteCommand => if args.lookup("command"@) is None {
            Some("command"@)
        } else {
            None
        },
        _ => None,
    }
}

fn absent(args: &ToolArguments, key: &str) -> (r: bool)
    ensures
        r == (args.lookup(key@) is None),
{
    args.get(key).is_none()
}

impl ToolKind {
    /// The first required argument missing from `args`, if any.
    pub fn missing_argument(&self, args: &ToolArguments) -> (r: Option<&'static str>)
        ensures
            r matches Some(k) ==> missing_argument(*self, *args) == Some(k@),
            r is None ==> missing_argument(*self, *args) is None,
    {
        match self {
            ToolKind::ReadFile | ToolKind::ListDir | ToolKind::DependencyGraph => {
                if absent(args, "path") {
                    Some("path")
                } else {
                    None
                }
            },
            ToolKind::WriteFile => {
                if absent(args, "path") {
                    Some("path")
                } else if absent(args, "content") {
                    Some("content")
                } else {
                    None
                }
            },
            ToolKind::ApplyPatch => {
                if absent(args, "file_path") {
                    Some("file_path")
                } else if absent(args, "old_text") {
                    Some("old_text")
                } else if absent(args, "new_text") {
                    Some("new_text")
                } else if absent(args, "expected_hash") {
                    Some("expected_hash")
                } else {
                    None
                }
            },
            ToolKind::GrepSearch | ToolKind::SymbolIndex => {
                if absent(args, "query") {
                    Some("query")
                } else {
                    None
                }
            },
            ToolKind::ExecuteCommand => {
                if absent(args, "command") {
                    Some("command")
                } else {
                    None
                }
            },
            _ => None,
        }
    }

    fn name_str(&self) -> (r: &'static str)
        ensures
            r@ == kind_name(*self),
    {
        match self {
            ToolKind::ReadFile => "read_file",
            ToolKind::WriteFile => "write_file",
            ToolKind::ApplyPatch => "apply_patch",
            ToolKind::GrepSearch => "grep_search",
            ToolKind::ListDir => "list_dir",
            ToolKind::DependencyGraph => "dependency_graph",
            ToolKind::SymbolIndex => "symbol_index",
            ToolKind::EntryPointDetector => "entrypoint_detector",
            ToolKind::LintRunner => "lint_runner",
            ToolKind::TestRunner => "test_runner",
            ToolKind::ExecuteCommand => "execute_command",
            ToolKind::BrowserPreview => "browser_preview",
        }
    }
}

/// What each built-in tool tells the planner it does.
pub open spec fn kind_description(k: ToolKind) -> Seq<char> {
    match k {
        ToolKind::ReadFile => crate::tools::file_tools::read_file_tool_description(),
        ToolKind::WriteFile => crate::tools::file_tools::write_file_tool_description(),
        ToolKind::ApplyPatch => crate::tools::file_tools::apply_patch_tool_description(),
        ToolKind::GrepSearch => crate::tools::search_tools::grep_search_tool_description(),
        ToolKind::ListDir => crate::tools::search_tools::list_dir_tool_description(),
        ToolKind::DependencyGraph => crate::tools::code_intelligence_tools::dependency_graph_tool_description(),
        ToolKind::SymbolIndex => crate::tools::code_intelligence_tools::symbol_index_tool_description(),
        ToolKind::EntryPointDetector => crate::tools::code_intelligence_tools::entry_point_detector_tool_description(),
        ToolKind::LintRunner => crate::tools::code_intelligence_tools::lint_runner_tool_description(),
        ToolKind::TestRunner => crate::tools::code_intelligence_tools::test_runner_tool_description(),
        ToolKind::ExecuteCommand => crate::tools::execute_command_tool::execute_command_tool_description(),
        ToolKind::BrowserPreview => crate::tools::browser_preview_tool::browser_preview_tool_description(),
    }
}

impl Tool for ToolKind {
    open spec fn tool_name(&self) -> Seq<char> {
        kind_name(*self)
    }

    fn name(&self) -> (r: ToolName)
        ensures
            r@ == kind_name(*self),
    {
        proof {
            reveal_strlit("read_file");
            reveal_strlit("write_file");
            reveal_strlit("apply_patch");
            reveal_strlit("grep_search");
            reveal_strlit("list_dir");
            reveal_strlit("dependency_graph");
            reveal_strlit("symbol_index");
            reveal_strlit("entrypoint_detector");
            reveal_strlit("lint_runner");
            reveal_strlit("test_runner");
            reveal_strlit("execute_command");
            reveal_strlit("browser_preview");
        }
        ToolName::known(self.name_str())
    }

    fn description(&self) -> (r: &'static str)
        ensures
            r@ == kind_description(*self),
    {
        match self {
            ToolKind::ReadFile => crate::tools::file_tools::ReadFileTool::new().description(),
            ToolKind::WriteFile => crate::tools::file_tools::WriteFileTool::new().description(),
            ToolKind::ApplyPatch => crate::tools::file_tools::ApplyPatchTool::new().description(),
            ToolKind::GrepSearch => crate::tools::search_tools::GrepSearchTool::new().description(),
            ToolKind::ListDir => crate::tools::search_tools::ListDirTool::new().description(),
            ToolKind::DependencyGraph => crate::tools::code_intelligence_tools::DependencyGraphTool::new().description(),
            ToolKind::SymbolIndex => crate::tools::code_intelligence_tools::SymbolIndexTool::new().description(),
            ToolKind::EntryPointDetector => crate::tools::code_intelligence_tools::EntryPointDetectorTool::new().description(),
            ToolKind::LintRunner => crate::tools::code_intelligence_tools::LintRunnerTool::new().description(),
            ToolKind::TestRunner => crate::tools::code_intelligence_tools::TestRunnerTool::new().description(),
            ToolKind::ExecuteCommand => crate::tools::execute_command_tool::ExecuteCommandTool::new().description(),
            ToolKind::BrowserPreview => crate::tools::browser_preview_tool::BrowserPreviewTool::new().description(),
        }
    }

    fn allowed_in_mode(&self, mode: ExecutionMode) -> (r: bool)
        ensures
            r == kind_allows(*self, mode),
    {
        match self {
            ToolKind::ReadFile | ToolKind::GrepSearch | ToolKind::ListDir
            | ToolKind::DependencyGraph | ToolKind::SymbolIndex
            | ToolKind::EntryPointDetector => true,
            _ => match mode {
                ExecutionMode::Analysis => false,
                _ => true,
            },
        }
    }
}

/// Registry of available tools.
pub struct ToolRegistry {
    tools: Vec<ToolKind>,
}

impl View for ToolRegistry {
    type V = Seq<ToolKind>;

    closed spec fn view(&self) -> Seq<ToolKind> {
        self.tools@
    }
}

impl ToolRegistry {
    #[verifier::type_invariant]
    closed spec fn holds_builtins(&self) -> bool {
        self.tools@ == builtin_kinds()
    }

    /// A registry with every built-in tool registered.
    pub fn new() -> (r: Self)
        ensures
            r@ == builtin_kinds(),
    {
        let mut tools: Vec<ToolKind> = Vec::new();
        tools.push(ToolKind::ReadFile);
        tools.push(ToolKind::WriteFile);
        tools.push(ToolKind::ApplyPatch);
        tools.push(ToolKind::GrepSearch);
        tools.push(ToolKind::ListDir);
        tools.push(ToolKind::DependencyGraph);
        tools.push(ToolKind::SymbolIndex);
        tools.push(ToolKind::EntryPointDetector);
        tools.push(ToolKind::LintRunner);
        tools.push(ToolKind::TestRunner);
        tools.push(ToolKind::ExecuteCommand);
        tools.push(ToolKind::BrowserPreview);
        assert(tools@ =~= builtin_kinds());
        ToolRegistry { tools }
    }

    fn lookup(&self, name: &str) -> (r: Option<ToolKind>)
        ensures
            r == kind_for(name@),
    {
        if str_eq(name, "read_file") {
            Some(ToolKind::ReadFile)
        } else if str_eq(name, "write_file") {
            Some(ToolKind::WriteFile)
        } else if str_eq(name, "apply_patch") {
            Some(ToolKind::ApplyPatch)
        } else if str_eq(name, "grep_search") {
            Some(ToolKind::GrepSearch)
        } else if str_eq(name, "list_dir") {
            Some(ToolKind::ListDir)
        } else if str_eq(name, "dependency_graph") {
            Some(ToolKind::DependencyGraph)
        } else if str_eq(name, "symbol_index") {
            Some(ToolKind::SymbolIndex)
        } else if str_eq(name, "entrypoint_detector") {
            Some(ToolKind::EntryPointDetector)
        } else if str_eq(name, "lint_runner") {
            Some(ToolKind::LintRunner)
        } else if str_eq(name, "test_runner") {
            Some(ToolKind::TestRunner)
        } else if str_eq(name, "execute_command") {
            Some(ToolKind::ExecuteCommand)
        } else if str_eq(name, "browser_preview") {
            Some(ToolKind::BrowserPreview)
        } else {
            None
        }
    }

    /// Resolves a tool by name; unknown names fail closed.
    pub fn resolve(&self, name: &ToolName) -> (r: Result<ToolKind, ForgeError>)
        ensures
            kind_for(name@) matches Some(k) ==> r == Ok::<ToolKind, ForgeError>(k),
            kind_for(name@) is None ==> (r matches Err(ForgeError::UnknownTool(n)) && n@
                == name@),
    {
        match self.lookup(name.as_str()) {
            Some(k) => Ok(k),
            None => Err(ForgeError::UnknownTool(name.duplicate())),
        }
    }

    /// Whether a tool of that name is registered.
    pub fn has_tool(&self, name: &ToolName) -> (r: bool)
        ensures
            r == (kind_for(name@) is Some),
    {
        self.lookup(name.as_str()).is_some()
    }

    /// The names of all registered tools, in registration order.
    pub fn list_tools(&self) -> (r: Vec<ToolName>)
        ensures
            r@.len() == builtin_kinds().len(),
            forall|i: int| 0 <= i < r@.len() ==> (#[trigger] r@[i])@ == kind_name(builtin_kinds()[i]),
    {
        proof {
            use_type_invariant(self);
        }
        let mut names: Vec<ToolName> = Vec::new();
        let mut i: usize = 0;
        while i < self.tools.len()
            invariant
                i <= self.tools@.len(),
                self.tools@ == builtin_kinds(),
                names@.len() == i,
                forall|j: int| 0 <= j < i ==> (#[trigger] names@[j])@ == kind_name(builtin_kinds()[j]),
            decreases self.tools.len() - i,
        {
            let n = self.tools[i].name();
            names.push(n);
            i = i + 1;
        }
        names
    }
}

impl Default for ToolRegistry {
    fn default() -> (r: Self)
        ensures
            r@ == builtin_kinds(),
    {
        ToolRegistry::new()
    }
}

/// Executor: resolves a call, checks the mode and the required arguments,
/// then hands the call to the tool's runner.
pub struct ToolExecutor {
    registry: ToolRegistry,
}

/// What executing `call` gives: an unknown tool, a tool the mode refuses
/// and a missing required argument are errors; otherwise whatever `run`
/// answers for the tool.
pub open spec fn execution_outcome<O, F>(
    call: &ToolCall,
    ctx: &ExecutionContext,
    run: F,
    r: Result<O, ForgeError>,
) -> bool where
    F: Fn(ToolKind, &ToolArguments, &ExecutionContext) -> Result<O, ForgeError>,
 {
    match kind_for(call.name@) {
        None => r matches Err(ForgeError::UnknownTool(n)) && n@ == call.name@,
        Some(k) => if !kind_allows(k, ctx.mode) {
            r matches Err(ForgeError::ToolNotAllowed { tool, mode }) && tool@ == call.name@ && mode
                == ctx.mode
        } else {
            match missing_argument(k, call.arguments) {
                Some(key) => r matches Err(ForgeError::MissingArgument(m)) && m@ == key,
                None => run.ensures((k, &call.arguments, ctx), r),
            }
        },
    }
}

/// Why the executor refuses to let `apply_patch` run on what `state` has
/// read, if it refuses: the target must have been read, in full.
pub open spec fn patch_read_refusal(call: &ToolCall, state: &AgentState) -> Option<ForgeErrorKind> {
    if call.name@ != "apply_patch"@ {
        None
    } else {
        match call.arguments.lookup("file_path"@) {
            None => Some(ForgeErrorKind::Missing("file_path"@)),
            Some(p) => match state.files_read.lookup(p) {
                None => Some(
                    ForgeErrorKind::Invalid(
                        "Read-before-write violation: file "@ + p + " must be read before patching"@,
                    ),
                ),
                Some(rec) => if !rec.is_full_read {
                    Some(
                        ForgeErrorKind::Invalid(
                            "File "@ + p + " was partially read - full read required for patching"@,
                        ),
                    )
                } else {
                    None
                },
            },
        }
    }
}

/// An argument error: a missing argument, or an invalid one with its
/// message.
pub enum ForgeErrorKind {
    Missing(Seq<char>),
    Invalid(Seq<char>),
}

/// The record a read leaves, as the executor hands it back: the record
/// the tool's run produced, for a successful `read_file` of the path the
/// call names; nothing for any other call.
pub open spec fn kept_record(call: &ToolCall, res: ToolResult, produced: Option<FileRecord>) -> Option<
    FileRecord,
> {
    if call.name@ == "read_file"@ && res.success {
        match (produced, call.arguments.lookup("path"@)) {
            (Some(rec), Some(p)) => if rec.path@ == p {
                Some(rec)
            } else {
                None
            },
            _ => None,
        }
    } else {
        None
    }
}

impl ToolExecutor {
    /// Executes a call after the read-before-write rules for
    /// `apply_patch`: its target must have been read, and read in full, in
    /// `state`.  `run` performs the tool and, for a read, also gives the
    /// record of what it read; the answer carries that record for a
    /// successful `read_file` of the path the call names.
    pub fn execute_with_enforcement<F>(
        &self,
        call: &ToolCall,
        ctx: &ExecutionContext,
        state: &AgentState,
        run: F,
    ) -> (r: Result<(ToolResult, Option<FileRecord>), ForgeError>) where
        F: Fn(ToolKind, &ToolArguments, &ExecutionContext) -> Result<
            (ToolResult, Option<FileRecord>),
            ForgeError,
        >,

        requires
            forall|k: ToolKind| run.requires((k, &call.arguments, ctx)),
        ensures
            match patch_read_refusal(call, state) {
                Some(ForgeErrorKind::Missing(k)) => r matches Err(ForgeError::MissingArgument(m))
                    && m@ == k,
                Some(ForgeErrorKind::Invalid(msg)) => r matches Err(ForgeError::InvalidArgument(m))
                    && m@ == msg,
                None => match r {
                    Ok((res, rec)) => exists|produced: Option<FileRecord>|
                        execution_outcome(call, ctx, run, Ok((res, produced))) && rec == kept_record(
                            call,
                            res,
                            produced,
                        ),
                    Err(e) => execution_outcome(call, ctx, run, Err(e)),
                },
            },
    {
        if str_eq(call.name.as_str(), "apply_patch") {
            let path = match call.arguments.get("file_path") {
                Some(p) => p,
                None => {
                    return Err(ForgeError::MissingArgument(crate::text::to_owned_string("file_path")));
                },
            };
            match state.get_file_record(path) {
                None => {
                    let mut m = crate::text::to_owned_string("Read-before-write violation: file ");
                    crate::text::push_str(&mut m, path);
                    crate::text::push_str(&mut m, " must be read before patching");
                    return Err(ForgeError::InvalidArgument(m));
                },
                Some(rec) => {
                    if !rec.is_full_read {
                        let mut m = crate::text::to_owned_string("File ");
                        crate::text::push_str(&mut m, path);
                        crate::text::push_str(
                            &mut m,
                            " was partially read - full read required for patching",
                        );
                        return Err(ForgeError::InvalidArgument(m));
                    }
                },
            }
        }
        match self.execute_any(call, ctx, run) {
            Ok((res, produced)) => {
                let ghost p0 = produced;
                let keep = if str_eq(call.name.as_str(), "read_file") && res.success {
                    match (&produced, call.arguments.get("path")) {
                        (Some(rec), Some(p)) => str_eq(rec.path.as_str(), p),
                        _ => false,
                    }
                } else {
                    false
                };
                let rec = if keep {
                    produced
                } else {
                    None
                };
                assert(rec == kept_record(call, res, p0));
                Ok((res, rec))
            },
            Err(e) => Err(e),
        }
    }
}

impl ToolExecutor {
    /// The tools the executor resolves against.
    pub closed spec fn tools(&self) -> Seq<ToolKind> {
        self.registry@
    }

    pub fn new() -> (r: Self)
        ensures
            r.tools() == builtin_kinds(),
    {
        ToolExecutor { registry: ToolRegistry::new() }
    }

    /// The registry, for introspection.
    pub fn registry(&self) -> (r: &ToolRegistry)
        ensures
            r@ == builtin_kinds(),
            r@ == self.tools(),
    {
        proof {
            use_type_invariant(&self.registry);
        }
        &self.registry
    }

    /// Executes a call with full validation: an unknown tool, a tool not
    /// allowed in the context's mode and a missing required argument are
    /// errors; otherwise `run` performs the tool and its result is returned.
    pub fn execute<F>(&self, call: &ToolCall, ctx: &ExecutionContext, run: F) -> (r: Result<
        ToolResult,
        ForgeError,
    >) where F: Fn(ToolKind, &ToolArguments, &ExecutionContext) -> Result<ToolResult, ForgeError>
        requires
            forall|k: ToolKind| run.requires((k, &call.arguments, ctx)),
        ensures
            execution_outcome(call, ctx, run, r),
    {
        self.execute_any(call, ctx, run)
    }

    fn execute_any<O, F>(&self, call: &ToolCall, ctx: &ExecutionContext, run: F) -> (r: Result<
        O,
        ForgeError,
    >) where F: Fn(ToolKind, &ToolArguments, &ExecutionContext) -> Result<O, ForgeError>
        requires
            forall|k: ToolKind| run.requires((k, &call.arguments, ctx)),
        ensures
            execution_outcome(call, ctx, run, r),
    {
        let tool = match self.registry.resolve(&call.name) {
            Ok(t) => t,
            Err(e) => {
                return Err(e);
            },
        };
        if !tool.allowed_in_mode(ctx.mode) {
            return Err(ForgeError::ToolNotAllowed { tool: call.name.duplicate(), mode: ctx.mode });
        }
        match tool.missing_argument(&call.arguments) {
            Some(key) => Err(ForgeError::MissingArgument(crate::text::to_owned_string(key))),
            None => run(tool, &call.arguments, ctx),
        }
    }
}

impl Default for ToolExecutor {
    fn default() -> (r: Self)
        ensures
            r.tools() == builtin_kinds(),
    {
        ToolExecutor::new()
    }
}

/// Analysis mode admits exactly the tools that only read or inspect; every
/// other mode admits every tool.
pub proof fn law_analysis_mode_admits_only_read_tools(k: ToolKind, mode: ExecutionMode)
    ensures
        kind_allows(k, ExecutionMode::Analysis) <==> (k is ReadFile || k is GrepSearch
            || k is ListDir || k is DependencyGraph || k is SymbolIndex || k is EntryPointDetector),
        !(mode is Analysis) ==> kind_allows(k, mode),
{
}

/// Each built-in tool's canonical name resolves to that tool, and it is
/// registered.
pub proof fn law_builtin_names_resolve(k: ToolKind)
    ensures
        kind_for(kind_name(k)) == Some(k),
        builtin_kinds().contains(k),
{
    reveal_strlit("read_file");
    reveal_strlit("write_file");
    reveal_strlit("apply_patch");
    reveal_strlit("grep_search");
    reveal_strlit("list_dir");
    reveal_strlit("dependency_graph");
    reveal_strlit("symbol_index");
    reveal_strlit("entrypoint_detector");
    reveal_strlit("lint_runner");
    reveal_strlit("test_runner");
    reveal_strlit("execute_command");
    reveal_strlit("browser_preview");
    assert("read_file"@.len() == 9 && "read_file"@[0] == 'r');
    assert("write_file"@.len() == 10 && "write_file"@[0] == 'w');
    assert("apply_patch"@.len() == 11 && "apply_patch"@[0] == 'a');
    assert("grep_search"@.len() == 11 && "grep_search"@[0] == 'g');
    assert("list_dir"@.len() == 8 && "list_dir"@[0] == 'l');
    assert("dependency_graph"@.len() == 16 && "dependency_graph"@[0] == 'd');
    assert("symbol_index"@.len() == 12 && "symbol_index"@[0] == 's');
    assert("entrypoint_detector"@.len() == 19 && "entrypoint_detector"@[0] == 'e');
    assert("lint_runner"@.len() == 11 && "lint_runner"@[0] == 'l');
    assert("test_runner"@.len() == 11 && "test_runner"@[0] == 't');
    assert("execute_command"@.len() == 15 && "execute_command"@[0] == 'e');
    assert("browser_preview"@.len() == 15 && "browser_preview"@[0] == 'b');
    let ks = builtin_kinds();
    let i: int = match k {
        ToolKind::ReadFile => 0,
        ToolKind::WriteFile => 1,
        ToolKind::ApplyPatch => 2,
        ToolKind::GrepSearch => 3,
        ToolKind::ListDir => 4,
        ToolKind::DependencyGraph => 5,
        ToolKind::SymbolIndex => 6,
        ToolKind::EntryPointDetector => 7,
        ToolKind::LintRunner => 8,
        ToolKind::TestRunner => 9,
        ToolKind::ExecuteCommand => 10,
        ToolKind::BrowserPreview => 11,
    };
    assert(ks[i] == k);
}

} // verus!

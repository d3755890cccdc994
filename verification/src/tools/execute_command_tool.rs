//! Command safety for the `execute_command` tool: the allowlist, destructive
//! command detection, shell metacharacters, argument parsing and output
//! truncation.
use crate::text::{
    copy_chars,
    all_digits, append_chars, char_is_whitespace, chars_of, decimal, join_chars, join_seqs,
    lines_chars, lowercase_of, parse_bool, parse_u64, parse_usize, parsed_bool,
    parsed_unsigned, push_decimal, push_str, str_eq, string_from_chars, text_lines,
    to_lowercase, to_owned_string, unicode_whitespace, ws_tokens, split_whitespace_chars,
};
use crate::tool_registry::Tool;
use crate::types::{
    ExecutionContext, ExecutionMode, ForgeError, ToolArguments, ToolError, ToolName,
    ToolResult,
};
use vstd::prelude::*;
use vstd::string::StringSliceAdditionalSpecFns;
use vstd::utf8::{encode_utf8_decode_utf8, decode_utf8, is_char_boundary};

verus! {

broadcast use vstd::string::group_string_axioms;

/// Largest output kept, in bytes (10 MB).
pub const MAX_OUTPUT_SIZE: usize = 10 * 1024 * 1024;

/// Timeout used when none is given, in seconds.
pub const DEFAULT_TIMEOUT_SECONDS: u64 = 30;

/// Largest timeout accepted, in seconds.
pub const MAX_TIMEOUT_SECONDS: u64 = 300;

/// Commands keep at most 10 MiB of output and run 30 seconds unless asked
/// for longer, never more than 300.
pub proof fn law_command_limits()
    ensures
        MAX_OUTPUT_SIZE == 10485760,
        DEFAULT_TIMEOUT_SECONDS == 30,
        MAX_TIMEOUT_SECONDS == 300,
{
}

/// Commands allowed to run without confirmation.
pub open spec fn safe_command(c: Seq<char>) -> bool {
    c == "cargo"@ || c == "rustc"@ || c == "rustfmt"@ || c == "clippy"@ || c == "npm"@ || c
        == "node"@ || c == "npx"@ || c == "yarn"@ || c == "pnpm"@ || c == "python"@ || c
        == "python3"@ || c == "pip"@ || c == "pip3"@ || c == "pytest"@ || c == "git"@ || c
        == "make"@ || c == "cmake"@ || c == "echo"@ || c == "cat"@ || c == "ls"@ || c == "pwd"@
        || c == "which"@ || c == "wc"@ || c == "grep"@ || c == "find"@ || c == "head"@ || c
        == "tail"@ || c == "sort"@ || c == "uniq"@
}

/// Commands that delete files and so need explicit confirmation.
pub open spec fn destructive_command(c: Seq<char>) -> bool {
    c == "rm"@ || c == "del"@ || c == "remove"@ || c == "unlink"@ || c == "rmdir"@
}

/// Git subcommands that rewrite repository state or remote history.
pub open spec fn destructive_git_subcommand(c: Seq<char>) -> bool {
    c == "push"@ || c == "reset"@ || c == "clean"@ || c == "checkout"@ || c == "rebase"@ || c
        == "amend"@
}

/// Characters that let a shell chain, redirect, substitute or glob.
pub open spec fn shell_metachar(c: char) -> bool {
    c == ';' || c == '&' || c == '|' || c == '$' || c == '`' || c == '>' || c == '<' || c == '('
        || c == ')' || c == '{' || c == '}' || c == '*' || c == '?'
}

pub open spec fn has_shell_metachar(s: Seq<char>) -> bool {
    exists|i: int| 0 <= i < s.len() && shell_metachar(#[trigger] s[i])
}

/// The allowlist as it is printed in a refusal.
pub open spec fn allowlist_text() -> Seq<char> {
    "[\"cargo\", \"rustc\", \"rustfmt\", \"clippy\", \"npm\", \"node\", \"npx\", \"yarn\", \"pnpm\", \"python\", \"python3\", \"pip\", \"pip3\", \"pytest\", \"git\", \"make\", \"cmake\", \"echo\", \"cat\", \"ls\", \"pwd\", \"which\", \"wc\", \"grep\", \"find\", \"head\", \"tail\", \"sort\", \"uniq\"]"@
}

fn allowlist_str() -> (r: &'static str)
    ensures
        r@ == allowlist_text(),
{
    "[\"cargo\", \"rustc\", \"rustfmt\", \"clippy\", \"npm\", \"node\", \"npx\", \"yarn\", \"pnpm\", \"python\", \"python3\", \"pip\", \"pip3\", \"pytest\", \"git\", \"make\", \"cmake\", \"echo\", \"cat\", \"ls\", \"pwd\", \"which\", \"wc\", \"grep\", \"find\", \"head\", \"tail\", \"sort\", \"uniq\"]"
}

fn newline_chars() -> (r: Vec<char>)
    ensures
        r@ == "\n"@,
{
    chars_of("\n")
}

fn is_safe_command(c: &str) -> (r: bool)
    ensures
        r == safe_command(c@),
{
    str_eq(c, "cargo") || str_eq(c, "rustc") || str_eq(c, "rustfmt") || str_eq(c, "clippy")
        || str_eq(c, "npm") || str_eq(c, "node") || str_eq(c, "npx") || str_eq(c, "yarn")
        || str_eq(c, "pnpm") || str_eq(c, "python") || str_eq(c, "python3") || str_eq(c, "pip")
        || str_eq(c, "pip3") || str_eq(c, "pytest") || str_eq(c, "git") || str_eq(c, "make")
        || str_eq(c, "cmake") || str_eq(c, "echo") || str_eq(c, "cat") || str_eq(c, "ls")
        || str_eq(c, "pwd") || str_eq(c, "which") || str_eq(c, "wc") || str_eq(c, "grep")
        || str_eq(c, "find") || str_eq(c, "head") || str_eq(c, "tail") || str_eq(c, "sort")
        || str_eq(c, "uniq")
}

fn is_destructive_command(c: &str) -> (r: bool)
    ensures
        r == destructive_command(c@),
{
    str_eq(c, "rm") || str_eq(c, "del") || str_eq(c, "remove") || str_eq(c, "unlink") || str_eq(
        c,
        "rmdir",
    )
}

fn is_destructive_git_subcommand(c: &str) -> (r: bool)
    ensures
        r == destructive_git_subcommand(c@),
{
    str_eq(c, "push") || str_eq(c, "reset") || str_eq(c, "clean") || str_eq(c, "checkout")
        || str_eq(c, "rebase") || str_eq(c, "amend")
}

fn chars_have_metachar(s: &[char]) -> (r: bool)
    ensures
        r == has_shell_metachar(s@),
{
    let mut i: usize = 0;
    while i < s.len()
        invariant
            i <= s.len(),
            forall|k: int| 0 <= k < i ==> !shell_metachar(#[trigger] s@[k]),
        decreases s.len() - i,
    {
        let c = s[i];
        if c == ';' || c == '&' || c == '|' || c == '$' || c == '`' || c == '>' || c == '<' || c
            == '(' || c == ')' || c == '{' || c == '}' || c == '*' || c == '?' {
            assert(shell_metachar(s@[i as int]));
            return true;
        }
        i = i + 1;
    }
    false
}

/// Whether `s` holds a shell metacharacter.
pub fn contains_shell_metacharacters(s: &str) -> (r: bool)
    ensures
        r == has_shell_metachar(s@),
{
    let chars = chars_of(s);
    chars_have_metachar(&chars)
}

/// Splits a command line at whitespace: the first word, lowercased, is the
/// command and the rest are its arguments.
pub fn parse_command(command_str: &str) -> (r: (String, Vec<String>))
    ensures
        ws_tokens(command_str@).len() == 0 ==> r.0@ == Seq::<char>::empty() && r.1@.len() == 0,
        ws_tokens(command_str@).len() > 0 ==> r.0@ == lowercase_of(ws_tokens(command_str@)[0])
            && r.1@.map_values(|s: String| s@) == ws_tokens(command_str@).drop_first(),
{
    let chars = chars_of(command_str);
    let toks = split_whitespace_chars(&chars);
    let ghost tv = toks@.map_values(|t: Vec<char>| t@);
    if toks.len() == 0 {
        return (String::new(), Vec::new());
    }
    let first = string_from_chars(toks[0].as_slice());
    let command = to_lowercase(first.as_str());
    let mut args: Vec<String> = Vec::new();
    let mut i: usize = 1;
    while i < toks.len()
        invariant
            1 <= i <= toks.len(),
            tv == toks@.map_values(|t: Vec<char>| t@),
            args@.map_values(|s: String| s@) == tv.subrange(1, i as int),
        decreases toks.len() - i,
    {
        let a = string_from_chars(toks[i].as_slice());
        let ghost before = args@.map_values(|s: String| s@);
        let ghost av = a@;
        assert(av == tv[i as int]);
        args.push(a);
        assert(args@.map_values(|s: String| s@) =~= before.push(av));
        i = i + 1;
        assert(before.push(av) =~= tv.subrange(1, i as int));
    }
    assert(tv.subrange(1, toks.len() as int) =~= tv.drop_first());
    (command, args)
}

/// Outcome of command safety validation.
#[derive(Debug, Clone, PartialEq, Eq)]
pub enum CommandSafety {
    Safe,
    RequiresConfirmation { reason: String },
    Blocked { reason: String },
}

/// Model of a safety verdict.
pub enum CommandSafetyView {
    Safe,
    RequiresConfirmation { reason: Seq<char> },
    Blocked { reason: Seq<char> },
}

impl View for CommandSafety {
    type V = CommandSafetyView;

    open spec fn view(&self) -> CommandSafetyView {
        match self {
            CommandSafety::Safe => CommandSafetyView::Safe,
            CommandSafety::RequiresConfirmation { reason } => CommandSafetyView::RequiresConfirmation {
                reason: reason@,
            },
            CommandSafety::Blocked { reason } => CommandSafetyView::Blocked { reason: reason@ },
        }
    }
}

/// The command line as the metacharacter check sees it.
pub open spec fn full_command(command: Seq<char>, args: Seq<Seq<char>>) -> Seq<char> {
    command + " "@ + join_seqs(args, " "@)
}

/// The verdict for `command` with `args`: destructive commands need
/// confirmation, commands off the allowlist are blocked, destructive git
/// subcommands and shell metacharacters need confirmation, the rest is safe.
pub open spec fn command_safety(command: Seq<char>, args: Seq<Seq<char>>) -> CommandSafetyView {
    if destructive_command(command) {
        CommandSafetyView::RequiresConfirmation {
            reason: "Command '"@ + command
                + "' is potentially destructive (file deletion). Destructive commands require explicit confirmation."@,
        }
    } else if !safe_command(command) {
        CommandSafetyView::Blocked {
            reason: "Command '"@ + command
                + "' is not in the safe command allowlist. Allowed commands: "@ + allowlist_text(),
        }
    } else if command == "git"@ && args.len() > 0 && destructive_git_subcommand(
        lowercase_of(args[0]),
    ) {
        CommandSafetyView::RequiresConfirmation {
            reason: "Git '"@ + lowercase_of(args[0])
                + "' command is potentially destructive. This may modify repository state or remote history."@,
        }
    } else if has_shell_metachar(full_command(command, args)) {
        CommandSafetyView::RequiresConfirmation {
            reason: "Command contains shell metacharacters. This requires confirmation for safety."@,
        }
    } else {
        CommandSafetyView::Safe
    }
}

fn full_command_chars(command: &str, args: &[String]) -> (r: Vec<char>)
    ensures
        r@ == full_command(command@, args@.map_values(|s: String| s@)),
{
    let mut parts: Vec<Vec<char>> = Vec::new();
    let mut i: usize = 0;
    while i < args.len()
        invariant
            i <= args.len(),
            parts@.map_values(|t: Vec<char>| t@) == args@.map_values(|s: String| s@).take(
                i as int,
            ),
        decreases args.len() - i,
    {
        let c = chars_of(args[i].as_str());
        let ghost before = parts@.map_values(|t: Vec<char>| t@);
        let ghost cv = c@;
        assert(cv == args@.map_values(|s: String| s@)[i as int]);
        parts.push(c);
        assert(parts@.map_values(|t: Vec<char>| t@) =~= before.push(cv));
        i = i + 1;
        assert(before.push(cv) =~= args@.map_values(|s: String| s@).take(i as int));
    }
    assert(args@.map_values(|s: String| s@).take(args.len() as int) =~= args@.map_values(
        |s: String| s@,
    ));
    let sep = chars_of(" ");
    let joined = join_chars(&parts, &sep);
    let mut out = chars_of(command);
    append_chars(&mut out, &sep);
    append_chars(&mut out, &joined);
    assert(out@ =~= full_command(command@, args@.map_values(|s: String| s@)));
    out
}

/// Classifies a parsed command line by the safety rules.
pub fn validate_command_safety(command: &str, args: &[String]) -> (r: CommandSafety)
    ensures
        r@ == command_safety(command@, args@.map_values(|s: String| s@)),
{
    if is_destructive_command(command) {
        let mut reason = to_owned_string("Command '");
        push_str(&mut reason, command);
        push_str(
            &mut reason,
            "' is potentially destructive (file deletion). Destructive commands require explicit confirmation.",
        );
        return CommandSafety::RequiresConfirmation { reason };
    }
    if !is_safe_command(command) {
        let mut reason = to_owned_string("Command '");
        push_str(&mut reason, command);
        push_str(&mut reason, "' is not in the safe command allowlist. Allowed commands: ");
        push_str(&mut reason, allowlist_str());
        return CommandSafety::Blocked { reason };
    }
    if str_eq(command, "git") && args.len() > 0 {
        let subcommand = to_lowercase(args[0].as_str());
        if is_destructive_git_subcommand(subcommand.as_str()) {
            let mut reason = to_owned_string("Git '");
            push_str(&mut reason, subcommand.as_str());
            push_str(
                &mut reason,
                "' command is potentially destructive. This may modify repository state or remote history.",
            );
            return CommandSafety::RequiresConfirmation { reason };
        }
    }
    let full = full_command_chars(command, args);
    if chars_have_metachar(&full) {
        return CommandSafety::RequiresConfirmation {
            reason: to_owned_string(
                "Command contains shell metacharacters. This requires confirmation for safety.",
            ),
        };
    }
    CommandSafety::Safe
}

/// The allowlisted names and the deleting commands are different words.
proof fn lemma_command_words_differ()
    ensures
        "rm"@ != "cargo"@,
        "rm"@ != "rustc"@,
        "rm"@ != "rustfmt"@,
        "rm"@ != "clippy"@,
        "rm"@ != "npm"@,
        "rm"@ != "node"@,
        "rm"@ != "npx"@,
        "rm"@ != "yarn"@,
        "rm"@ != "pnpm"@,
        "rm"@ != "python"@,
        "rm"@ != "python3"@,
        "rm"@ != "pip"@,
        "rm"@ != "pip3"@,
        "rm"@ != "pytest"@,
        "rm"@ != "git"@,
        "rm"@ != "make"@,
        "rm"@ != "cmake"@,
        "rm"@ != "echo"@,
        "rm"@ != "cat"@,
        "rm"@ != "ls"@,
        "rm"@ != "pwd"@,
        "rm"@ != "which"@,
        "rm"@ != "wc"@,
        "rm"@ != "grep"@,
        "rm"@ != "find"@,
        "rm"@ != "head"@,
        "rm"@ != "tail"@,
        "rm"@ != "sort"@,
        "rm"@ != "uniq"@,
        "del"@ != "cargo"@,
        "del"@ != "rustc"@,
        "del"@ != "rustfmt"@,
        "del"@ != "clippy"@,
        "del"@ != "npm"@,
        "del"@ != "node"@,
        "del"@ != "npx"@,
        "del"@ != "yarn"@,
        "del"@ != "pnpm"@,
        "del"@ != "python"@,
        "del"@ != "python3"@,
        "del"@ != "pip"@,
        "del"@ != "pip3"@,
        "del"@ != "pytest"@,
        "del"@ != "git"@,
        "del"@ != "make"@,
        "del"@ != "cmake"@,
        "del"@ != "echo"@,
        "del"@ != "cat"@,
        "del"@ != "ls"@,
        "del"@ != "pwd"@,
        "del"@ != "which"@,
        "del"@ != "wc"@,
        "del"@ != "grep"@,
        "del"@ != "find"@,
        "del"@ != "head"@,
        "del"@ != "tail"@,
        "del"@ != "sort"@,
        "del"@ != "uniq"@,
        "remove"@ != "cargo"@,
        "remove"@ != "rustc"@,
        "remove"@ != "rustfmt"@,
        "remove"@ != "clippy"@,
        "remove"@ != "npm"@,
        "remove"@ != "node"@,
        "remove"@ != "npx"@,
        "remove"@ != "yarn"@,
        "remove"@ != "pnpm"@,
        "remove"@ != "python"@,
        "remove"@ != "python3"@,
        "remove"@ != "pip"@,
        "remove"@ != "pip3"@,
        "remove"@ != "pytest"@,
        "remove"@ != "git"@,
        "remove"@ != "make"@,
        "remove"@ != "cmake"@,
        "remove"@ != "echo"@,
        "remove"@ != "cat"@,
        "remove"@ != "ls"@,
        "remove"@ != "pwd"@,
        "remove"@ != "which"@,
        "remove"@ != "wc"@,
        "remove"@ != "grep"@,
        "remove"@ != "find"@,
        "remove"@ != "head"@,
        "remove"@ != "tail"@,
        "remove"@ != "sort"@,
        "remove"@ != "uniq"@,
        "unlink"@ != "cargo"@,
        "unlink"@ != "rustc"@,
        "unlink"@ != "rustfmt"@,
        "unlink"@ != "clippy"@,
        "unlink"@ != "npm"@,
        "unlink"@ != "node"@,
        "unlink"@ != "npx"@,
        "unlink"@ != "yarn"@,
        "unlink"@ != "pnpm"@,
        "unlink"@ != "python"@,
        "unlink"@ != "python3"@,
        "unlink"@ != "pip"@,
        "unlink"@ != "pip3"@,
        "unlink"@ != "pytest"@,
        "unlink"@ != "git"@,
        "unlink"@ != "make"@,
        "unlink"@ != "cmake"@,
        "unlink"@ != "echo"@,
        "unlink"@ != "cat"@,
        "unlink"@ != "ls"@,
        "unlink"@ != "pwd"@,
        "unlink"@ != "which"@,
        "unlink"@ != "wc"@,
        "unlink"@ != "grep"@,
        "unlink"@ != "find"@,
        "unlink"@ != "head"@,
        "unlink"@ != "tail"@,
        "unlink"@ != "sort"@,
        "unlink"@ != "uniq"@,
        "rmdir"@ != "cargo"@,
        "rmdir"@ != "rustc"@,
        "rmdir"@ != "rustfmt"@,
        "rmdir"@ != "clippy"@,
        "rmdir"@ != "npm"@,
        "rmdir"@ != "node"@,
        "rmdir"@ != "npx"@,
        "rmdir"@ != "yarn"@,
        "rmdir"@ != "pnpm"@,
        "rmdir"@ != "python"@,
        "rmdir"@ != "python3"@,
        "rmdir"@ != "pip"@,
        "rmdir"@ != "pip3"@,
        "rmdir"@ != "pytest"@,
        "rmdir"@ != "git"@,
        "rmdir"@ != "make"@,
        "rmdir"@ != "cmake"@,
        "rmdir"@ != "echo"@,
        "rmdir"@ != "cat"@,
        "rmdir"@ != "ls"@,
        "rmdir"@ != "pwd"@,
        "rmdir"@ != "which"@,
        "rmdir"@ != "wc"@,
        "rmdir"@ != "grep"@,
        "rmdir"@ != "find"@,
        "rmdir"@ != "head"@,
        "rmdir"@ != "tail"@,
        "rmdir"@ != "sort"@,
        "rmdir"@ != "uniq"@,
{
    reveal_strlit("cargo");
    assert("cargo"@.len() == 5 && "cargo"@[0] == 'c' && "cargo"@[1] == 'a');
    reveal_strlit("rustc");
    assert("rustc"@.len() == 5 && "rustc"@[0] == 'r' && "rustc"@[1] == 'u');
    reveal_strlit("rustfmt");
    assert("rustfmt"@.len() == 7 && "rustfmt"@[0] == 'r' && "rustfmt"@[1] == 'u');
    reveal_strlit("clippy");
    assert("clippy"@.len() == 6 && "clippy"@[0] == 'c' && "clippy"@[1] == 'l');
    reveal_strlit("npm");
    assert("npm"@.len() == 3 && "npm"@[0] == 'n' && "npm"@[1] == 'p');
    reveal_strlit("node");
    assert("node"@.len() == 4 && "node"@[0] == 'n' && "node"@[1] == 'o');
    reveal_strlit("npx");
    assert("npx"@.len() == 3 && "npx"@[0] == 'n' && "npx"@[1] == 'p');
    reveal_strlit("yarn");
    assert("yarn"@.len() == 4 && "yarn"@[0] == 'y' && "yarn"@[1] == 'a');
    reveal_strlit("pnpm");
    assert("pnpm"@.len() == 4 && "pnpm"@[0] == 'p' && "pnpm"@[1] == 'n');
    reveal_strlit("python");
    assert("python"@.len() == 6 && "python"@[0] == 'p' && "python"@[1] == 'y');
    reveal_strlit("python3");
    assert("python3"@.len() == 7 && "python3"@[0] == 'p' && "python3"@[1] == 'y');
    reveal_strlit("pip");
    assert("pip"@.len() == 3 && "pip"@[0] == 'p' && "pip"@[1] == 'i');
    reveal_strlit("pip3");
    assert("pip3"@.len() == 4 && "pip3"@[0] == 'p' && "pip3"@[1] == 'i');
    reveal_strlit("pytest");
    assert("pytest"@.len() == 6 && "pytest"@[0] == 'p' && "pytest"@[1] == 'y');
    reveal_strlit("git");
    assert("git"@.len() == 3 && "git"@[0] == 'g' && "git"@[1] == 'i');
    reveal_strlit("make");
    assert("make"@.len() == 4 && "make"@[0] == 'm' && "make"@[1] == 'a');
    reveal_strlit("cmake");
    assert("cmake"@.len() == 5 && "cmake"@[0] == 'c' && "cmake"@[1] == 'm');
    reveal_strlit("echo");
    assert("echo"@.len() == 4 && "echo"@[0] == 'e' && "echo"@[1] == 'c');
    reveal_strlit("cat");
    assert("cat"@.len() == 3 && "cat"@[0] == 'c' && "cat"@[1] == 'a');
    reveal_strlit("ls");
    assert("ls"@.len() == 2 && "ls"@[0] == 'l' && "ls"@[1] == 's');
    reveal_strlit("pwd");
    assert("pwd"@.len() == 3 && "pwd"@[0] == 'p' && "pwd"@[1] == 'w');
    reveal_strlit("which");
    assert("which"@.len() == 5 && "which"@[0] == 'w' && "which"@[1] == 'h');
    reveal_strlit("wc");
    assert("wc"@.len() == 2 && "wc"@[0] == 'w' && "wc"@[1] == 'c');
    reveal_strlit("grep");
    assert("grep"@.len() == 4 && "grep"@[0] == 'g' && "grep"@[1] == 'r');
    reveal_strlit("find");
    assert("find"@.len() == 4 && "find"@[0] == 'f' && "find"@[1] == 'i');
    reveal_strlit("head");
    assert("head"@.len() == 4 && "head"@[0] == 'h' && "head"@[1] == 'e');
    reveal_strlit("tail");
    assert("tail"@.len() == 4 && "tail"@[0] == 't' && "tail"@[1] == 'a');
    reveal_strlit("sort");
    assert("sort"@.len() == 4 && "sort"@[0] == 's' && "sort"@[1] == 'o');
    reveal_strlit("uniq");
    assert("uniq"@.len() == 4 && "uniq"@[0] == 'u' && "uniq"@[1] == 'n');
    reveal_strlit("rm");
    assert("rm"@.len() == 2 && "rm"@[0] == 'r' && "rm"@[1] == 'm');
    reveal_strlit("del");
    assert("del"@.len() == 3 && "del"@[0] == 'd' && "del"@[1] == 'e');
    reveal_strlit("remove");
    assert("remove"@.len() == 6 && "remove"@[0] == 'r' && "remove"@[1] == 'e');
    reveal_strlit("unlink");
    assert("unlink"@.len() == 6 && "unlink"@[0] == 'u' && "unlink"@[1] == 'n');
    reveal_strlit("rmdir");
    assert("rmdir"@.len() == 5 && "rmdir"@[0] == 'r' && "rmdir"@[1] == 'm');
}

/// Deleting commands (`rm`, `del`, `remove`, `unlink`, `rmdir`) always need
/// confirmation, whatever their arguments.
pub proof fn law_deleting_commands_need_confirmation(command: Seq<char>, args: Seq<Seq<char>>)
    requires
        command == "rm"@ || command == "del"@ || command == "remove"@ || command == "unlink"@
            || command == "rmdir"@,
    ensures
        command_safety(command, args) == (CommandSafetyView::RequiresConfirmation {
            reason: "Command '"@ + command
                + "' is potentially destructive (file deletion). Destructive commands require explicit confirmation."@,
        }),
{
}

/// Only the allowlisted tools run: any other command that does not delete
/// files is blocked.
pub proof fn law_unlisted_commands_are_blocked(command: Seq<char>, args: Seq<Seq<char>>)
    requires
        !(command == "rm"@ || command == "del"@ || command == "remove"@ || command == "unlink"@
            || command == "rmdir"@),
        !(command == "cargo"@ || command == "rustc"@ || command == "rustfmt"@ || command
            == "clippy"@ || command == "npm"@ || command == "node"@ || command == "npx"@ || command
            == "yarn"@ || command == "pnpm"@ || command == "python"@ || command == "python3"@
            || command == "pip"@ || command == "pip3"@ || command == "pytest"@ || command
            == "git"@ || command == "make"@ || command == "cmake"@ || command == "echo"@ || command
            == "cat"@ || command == "ls"@ || command == "pwd"@ || command == "which"@ || command
            == "wc"@ || command == "grep"@ || command == "find"@ || command == "head"@ || command
            == "tail"@ || command == "sort"@ || command == "uniq"@),
    ensures
        command_safety(command, args) is Blocked,
{
}

/// An allowlisted command without shell metacharacters that is not a
/// rewriting git subcommand is safe.
pub proof fn law_listed_commands_are_safe(command: Seq<char>, args: Seq<Seq<char>>)
    requires
        command == "cargo"@ || command == "rustc"@ || command == "rustfmt"@ || command
            == "clippy"@ || command == "npm"@ || command == "node"@ || command == "npx"@ || command
            == "yarn"@ || command == "pnpm"@ || command == "python"@ || command == "python3"@
            || command == "pip"@ || command == "pip3"@ || command == "pytest"@ || command
            == "git"@ || command == "make"@ || command == "cmake"@ || command == "echo"@ || command
            == "cat"@ || command == "ls"@ || command == "pwd"@ || command == "which"@ || command
            == "wc"@ || command == "grep"@ || command == "find"@ || command == "head"@ || command
            == "tail"@ || command == "sort"@ || command == "uniq"@,
        command == "git"@ && args.len() > 0 ==> !({
            let s = lowercase_of(args[0]);
            s == "push"@ || s == "reset"@ || s == "clean"@ || s == "checkout"@ || s == "rebase"@
                || s == "amend"@
        }),
        forall|i: int| 0 <= i < full_command(command, args).len() ==> {
            let c = #[trigger] full_command(command, args)[i];
            !(c == ';' || c == '&' || c == '|' || c == '$' || c == '`' || c == '>' || c == '<'
                || c == '(' || c == ')' || c == '{' || c == '}' || c == '*' || c == '?')
        },
    ensures
        command_safety(command, args) == CommandSafetyView::Safe,
{
    lemma_command_words_differ();
}

/// An allowlisted command whose command line holds a shell metacharacter
/// (`; & | $ ` > < ( ) { } * ?`) needs confirmation (unless it is already a
/// rewriting git subcommand).
pub proof fn law_shell_metacharacters_need_confirmation(command: Seq<char>, args: Seq<Seq<char>>, i: int)
    requires
        command == "cargo"@ || command == "rustc"@ || command == "rustfmt"@ || command
            == "clippy"@ || command == "npm"@ || command == "node"@ || command == "npx"@ || command
            == "yarn"@ || command == "pnpm"@ || command == "python"@ || command == "python3"@
            || command == "pip"@ || command == "pip3"@ || command == "pytest"@ || command
            == "git"@ || command == "make"@ || command == "cmake"@ || command == "echo"@ || command
            == "cat"@ || command == "ls"@ || command == "pwd"@ || command == "which"@ || command
            == "wc"@ || command == "grep"@ || command == "find"@ || command == "head"@ || command
            == "tail"@ || command == "sort"@ || command == "uniq"@,
        command == "git"@ && args.len() > 0 ==> !({
            let s = lowercase_of(args[0]);
            s == "push"@ || s == "reset"@ || s == "clean"@ || s == "checkout"@ || s == "rebase"@
                || s == "amend"@
        }),
        0 <= i < full_command(command, args).len(),
        ({
            let c = full_command(command, args)[i];
            c == ';' || c == '&' || c == '|' || c == '$' || c == '`' || c == '>' || c == '<'
                || c == '(' || c == ')' || c == '{' || c == '}' || c == '*' || c == '?'
        }),
    ensures
        command_safety(command, args) == (CommandSafetyView::RequiresConfirmation {
            reason: "Command contains shell metacharacters. This requires confirmation for safety."@,
        }),
{
    lemma_command_words_differ();
    assert(shell_metachar(full_command(command, args)[i]));
}

/// `git` with a first argument that lowercases to `push`, `reset`,
/// `clean`, `checkout`, `rebase` or `amend` needs confirmation, naming the
/// subcommand; it is never run as safe.
pub proof fn law_rewriting_git_needs_confirmation(args: Seq<Seq<char>>)
    requires
        args.len() > 0,
        ({
            let s = lowercase_of(args[0]);
            s == "push"@ || s == "reset"@ || s == "clean"@ || s == "checkout"@ || s == "rebase"@
                || s == "amend"@
        }),
    ensures
        command_safety("git"@, args) == (CommandSafetyView::RequiresConfirmation {
            reason: "Git '"@ + lowercase_of(args[0])
                + "' command is potentially destructive. This may modify repository state or remote history."@,
        }),
{
    lemma_command_words_differ();
}

/// The text is empty or whitespace only.
pub open spec fn blank(s: Seq<char>) -> bool {
    forall|i: int| 0 <= i < s.len() ==> unicode_whitespace(#[trigger] s[i])
}

pub(crate) fn is_blank(s: &str) -> (r: bool)
    ensures
        r == blank(s@),
{
    let chars = chars_of(s);
    let mut i: usize = 0;
    while i < chars.len()
        invariant
            i <= chars.len(),
            chars@ == s@,
            forall|k: int| 0 <= k < i ==> unicode_whitespace(#[trigger] chars@[k]),
        decreases chars.len() - i,
    {
        if !char_is_whitespace(chars[i]) {
            return false;
        }
        i = i + 1;
    }
    true
}

/// What `truncate_output` returns: the output unchanged, cut at the byte
/// limit with a note, or its first `max_lines` lines with a note on how many
/// were hidden.
pub open spec fn truncated_output(output: &str, max_lines: nat) -> Seq<char> {
    let lines = text_lines(output@);
    if lines.len() <= max_lines {
        if (output.spec_bytes().len() as usize) > MAX_OUTPUT_SIZE {
            decode_utf8(output.spec_bytes().subrange(0, MAX_OUTPUT_SIZE as int))
                + "\n[Output truncated: exceeded 10MB size limit]"@
        } else {
            output@
        }
    } else {
        join_seqs(lines.take(max_lines as int), "\n"@) + "\n[Output truncated: "@ + decimal(
            (lines.len() - max_lines) as nat,
        ) + " more lines hidden]"@
    }
}

/// Holds when `truncate_output` can cut `output` at the byte limit without
/// splitting a character.
pub open spec fn truncatable(output: &str, max_lines: nat) -> bool {
    text_lines(output@).len() <= max_lines && (output.spec_bytes().len() as usize) > MAX_OUTPUT_SIZE
        ==> is_char_boundary(output.spec_bytes(), MAX_OUTPUT_SIZE as int)
}

/// Execute command tool with strict safety controls.
pub struct ExecuteCommandTool;

/// A command that passed the safety rules, with its options resolved.
#[derive(Debug, Clone)]
pub struct CommandRequest {
    pub command: String,
    pub working_dir: String,
    pub timeout_secs: u64,
    pub capture_stderr: bool,
    pub max_output_lines: usize,
}

/// What the tool decides before anything runs.
#[derive(Debug)]
pub enum CommandPlan {
    /// The command is refused; this is the tool's result.
    Refused(ToolResult),
    /// The command may run with these options.
    Run(CommandRequest),
}

/// `value` parsed, or `default` where it is absent or does not parse.
pub open spec fn option_or<T>(v: Option<T>, default: T) -> T {
    match v {
        Some(x) => x,
        None => default,
    }
}

pub open spec fn lookup_unsigned(args: ToolArguments, key: Seq<char>, max: nat) -> Option<nat> {
    match args.lookup(key) {
        Some(v) => parsed_unsigned(v, max),
        None => None,
    }
}

pub open spec fn lookup_bool(args: ToolArguments, key: Seq<char>) -> Option<bool> {
    match args.lookup(key) {
        Some(v) => parsed_bool(v),
        None => None,
    }
}

pub open spec fn min_nat(a: nat, b: nat) -> nat {
    if a <= b {
        a
    } else {
        b
    }
}

/// The text of a refusal that asks for confirmation.
pub open spec fn confirmation_message(reason: Seq<char>, command: Seq<char>) -> Seq<char> {
    "SAFETY_CONFIRMATION_REQUIRED: "@ + reason
        + "\n\nTo execute this command, set require_confirmation=true.\nCommand: "@ + command
}

fn arg_u64(args: &ToolArguments, key: &str) -> (r: Option<u64>)
    ensures
        r matches Some(v) ==> lookup_unsigned(*args, key@, u64::MAX as nat) == Some(v as nat),
        r is None ==> lookup_unsigned(*args, key@, u64::MAX as nat) is None,
{
    match args.get(key) {
        Some(v) => parse_u64(v),
        None => None,
    }
}

pub(crate) fn arg_usize(args: &ToolArguments, key: &str) -> (r: Option<usize>)
    ensures
        r matches Some(v) ==> lookup_unsigned(*args, key@, usize::MAX as nat) == Some(v as nat),
        r is None ==> lookup_unsigned(*args, key@, usize::MAX as nat) is None,
{
    match args.get(key) {
        Some(v) => parse_usize(v),
        None => None,
    }
}

pub(crate) fn arg_bool(args: &ToolArguments, key: &str) -> (r: Option<bool>)
    ensures
        r == lookup_bool(*args, key@),
{
    match args.get(key) {
        Some(v) => parse_bool(v),
        None => None,
    }
}

/// What `prepare` answers for the non-blank command line `c`: refused
/// when blocked or when confirmation is needed and was not given, otherwise
/// run with its options resolved.
pub open spec fn command_plan_ok(
    r: Result<CommandPlan, ForgeError>,
    c: Seq<char>,
    args: ToolArguments,
    mode: ExecutionMode,
    default_dir: Seq<char>,
) -> bool {
    let toks = ws_tokens(c);
    let safety = command_safety(lowercase_of(toks[0]), toks.drop_first());
    let confirmed = option_or(lookup_bool(args, "require_confirmation"@), false);
    match r {
        Ok(CommandPlan::Refused(res)) => {
            &&& !res.success
            &&& res.output is None
            &&& res.mutations@.len() == 0
            &&& match safety {
                CommandSafetyView::Blocked { .. } => match res.error {
                    Some(ToolError::NotAllowed { tool, mode: m }) => tool@ == "execute_command"@
                        && m == mode,
                    _ => false,
                },
                CommandSafetyView::RequiresConfirmation { reason } => !confirmed && match res.error {
                    Some(ToolError::ExecutionFailed(m)) => m@ == confirmation_message(reason, c),
                    _ => false,
                },
                CommandSafetyView::Safe => false,
            }
        },
        Ok(CommandPlan::Run(req)) => {
            &&& (safety is Safe || (safety is RequiresConfirmation && confirmed))
            &&& req.command@ == c
            &&& req.working_dir@ == option_or(args.lookup("working_dir"@), default_dir)
            &&& req.timeout_secs == min_nat(
                option_or(lookup_unsigned(args, "timeout_seconds"@, u64::MAX as nat), 30),
                300,
            )
            &&& req.capture_stderr == option_or(lookup_bool(args, "capture_stderr"@), true)
            &&& req.max_output_lines == min_nat(
                option_or(lookup_unsigned(args, "max_output_lines"@, usize::MAX as nat), 1000),
                10000,
            )
        },
        Err(_) => false,
    }
}

/// A blocked command never runs; one that needs confirmation runs only when
/// the call sets `require_confirmation` to true, and otherwise is refused
/// with the confirmation request; a safe command runs, by default with a
/// 30 second timeout (at most 300), stderr captured and at most 1000 output
/// lines (at most 10000).
pub proof fn law_command_plans(
    r: Result<CommandPlan, ForgeError>,
    c: Seq<char>,
    args: ToolArguments,
    mode: ExecutionMode,
    default_dir: Seq<char>,
)
    requires
        command_plan_ok(r, c, args, mode, default_dir),
    ensures
        ({
            let toks = ws_tokens(c);
            let safety = command_safety(lowercase_of(toks[0]), toks.drop_first());
            &&& safety is Blocked ==> (r matches Ok(CommandPlan::Refused(_)))
            &&& (r matches Ok(CommandPlan::Run(_))) ==> (safety is Safe || (safety is RequiresConfirmation
                && lookup_bool(args, "require_confirmation"@) == Some(true)))
            &&& safety matches CommandSafetyView::RequiresConfirmation { reason } ==> (lookup_bool(
                args,
                "require_confirmation"@,
            ) != Some(true) ==> (r matches Ok(CommandPlan::Refused(res)) && (res.error matches Some(
                ToolError::ExecutionFailed(m),
            ) && m@ == "SAFETY_CONFIRMATION_REQUIRED: "@ + reason
                + "\n\nTo execute this command, set require_confirmation=true.\nCommand: "@ + c)))
        }),
        r matches Ok(CommandPlan::Run(req)) ==> {
            &&& lookup_unsigned(args, "timeout_seconds"@, u64::MAX as nat) is None
                ==> req.timeout_secs == 30
            &&& req.timeout_secs <= 300
            &&& lookup_bool(args, "capture_stderr"@) is None ==> req.capture_stderr
            &&& lookup_unsigned(args, "max_output_lines"@, usize::MAX as nat) is None
                ==> req.max_output_lines == 1000
            &&& req.max_output_lines <= 10000
        },
{
}

impl ExecuteCommandTool {
    pub fn new() -> (r: Self) {
        ExecuteCommandTool
    }

    /// Keeps the first `max_lines` lines of `output`, and at most
    /// `MAX_OUTPUT_SIZE` bytes of it, noting what was cut.
    pub fn truncate_output(output: &str, max_lines: usize) -> (r: String)
        requires
            truncatable(output, max_lines as nat),
        ensures
            r@ == truncated_output(output, max_lines as nat),
    {
        let chars = chars_of(output);
        let lines = lines_chars(&chars);
        let ghost lv = lines@.map_values(|t: Vec<char>| t@);
        if lines.len() <= max_lines {
            if output.len() > MAX_OUTPUT_SIZE {
                let (head, _rest) = output.split_at(MAX_OUTPUT_SIZE);
                proof {
                    encode_utf8_decode_utf8(head@);
                }
                let mut result = to_owned_string(head);
                push_str(&mut result, "\n[Output truncated: exceeded 10MB size limit]");
                assert(result@ =~= truncated_output(output, max_lines as nat));
                result
            } else {
                to_owned_string(output)
            }
        } else {
            let mut visible: Vec<Vec<char>> = Vec::new();
            let mut i: usize = 0;
            while i < max_lines
                invariant
                    i <= max_lines < lines@.len(),
                    lv == lines@.map_values(|t: Vec<char>| t@),
                    visible@.map_values(|t: Vec<char>| t@) == lv.take(i as int),
                decreases max_lines - i,
            {
                let line = copy_chars(lines[i].as_slice());
                let ghost before = visible@.map_values(|t: Vec<char>| t@);
                let ghost line_v = line@;
                assert(line_v == lv[i as int]);
                visible.push(line);
                assert(visible@.map_values(|t: Vec<char>| t@) =~= before.push(line_v));
                i = i + 1;
                assert(before.push(line_v) =~= lv.take(i as int));
            }
            let sep = newline_chars();
            let joined = join_chars(&visible, &sep);
            let mut result = string_from_chars(&joined);
            push_str(&mut result, "\n[Output truncated: ");
            push_decimal(&mut result, (lines.len() - max_lines) as u64);
            push_str(&mut result, " more lines hidden]");
            assert(result@ =~= truncated_output(output, max_lines as nat));
            result
        }
    }

    /// Decides what to do with an `execute_command` call: refuse it in
    /// analysis mode, on a missing or blank command, when the allowlist
    /// blocks it or when it needs a confirmation that was not given;
    /// otherwise resolve its options.  Elapsed time is left at zero.
    pub fn prepare(&self, args: &ToolArguments, ctx: &ExecutionContext) -> (r: Result<
        CommandPlan,
        ForgeError,
    >)
        ensures
            ctx.mode is Analysis ==> (r matches Err(ForgeError::ToolNotAllowed { tool, mode })
                && tool@ == "execute_command"@ && mode == ctx.mode),
            !(ctx.mode is Analysis) ==> match args.lookup("command"@) {
                None => r matches Err(ForgeError::MissingArgument(k)) && k@ == "command"@,
                Some(c) => if blank(c) {
                    r matches Err(ForgeError::InvalidArgument(m)) && m@
                        == "command cannot be empty"@
                } else {
                    command_plan_ok(r, c, *args, ctx.mode, ctx.working_dir@)
                },
            },
    {
        if !self.allowed_in_mode(ctx.mode) {
            return Err(ForgeError::ToolNotAllowed { tool: self.name(), mode: ctx.mode });
        }
        let command_str = match args.require("command") {
            Ok(c) => c,
            Err(e) => {
                return Err(e);
            },
        };
        if is_blank(command_str) {
            return Err(ForgeError::InvalidArgument(to_owned_string("command cannot be empty")));
        }
        proof {
            lemma_nonblank_has_token(command_str@);
        }
        let (command, cmd_args) = parse_command(command_str);
        let safety = validate_command_safety(command.as_str(), &cmd_args);
        let require_confirmation = match arg_bool(args, "require_confirmation") {
            Some(b) => b,
            None => false,
        };
        match safety {
            CommandSafety::Blocked { .. } => {
                return Ok(
                    CommandPlan::Refused(
                        ToolResult {
                            success: false,
                            output: None,
                            error: Some(ToolError::NotAllowed { tool: self.name(), mode: ctx.mode }),
                            mutations: Vec::new(),
                            execution_time_ms: 0,
                        },
                    ),
                );
            },
            CommandSafety::RequiresConfirmation { reason } => {
                if !require_confirmation {
                    let mut message = to_owned_string("SAFETY_CONFIRMATION_REQUIRED: ");
                    push_str(&mut message, reason.as_str());
                    push_str(
                        &mut message,
                        "\n\nTo execute this command, set require_confirmation=true.\nCommand: ",
                    );
                    push_str(&mut message, command_str);
                    return Ok(
                        CommandPlan::Refused(
                            ToolResult {
                                success: false,
                                output: None,
                                error: Some(ToolError::ExecutionFailed(message)),
                                mutations: Vec::new(),
                                execution_time_ms: 0,
                            },
                        ),
                    );
                }
            },
            CommandSafety::Safe => {},
        }
        let working_dir = match args.get("working_dir") {
            Some(w) => to_owned_string(w),
            None => ctx.working_dir.clone(),
        };
        let timeout = match arg_u64(args, "timeout_seconds") {
            Some(t) => t,
            None => DEFAULT_TIMEOUT_SECONDS,
        };
        let timeout_secs = if timeout < MAX_TIMEOUT_SECONDS {
            timeout
        } else {
            MAX_TIMEOUT_SECONDS
        };
        let capture_stderr = match arg_bool(args, "capture_stderr") {
            Some(b) => b,
            None => true,
        };
        let lines = match arg_usize(args, "max_output_lines") {
            Some(n) => n,
            None => 1000,
        };
        let max_output_lines = if lines < 10000 {
            lines
        } else {
            10000
        };
        Ok(
            CommandPlan::Run(
                CommandRequest {
                    command: to_owned_string(command_str),
                    working_dir,
                    timeout_secs,
                    capture_stderr,
                    max_output_lines,
                },
            ),
        )
    }

    /// The text reported for a command that ran: the command, whether it
    /// succeeded and its (truncated) output, cut to 500 bytes when longer.
    pub fn result_output(command_str: &str, success: bool, output: &str) -> (r: String)
        requires
            (output.spec_bytes().len() as usize) > 500 ==> is_char_boundary(output.spec_bytes(), 500),
        ensures
            r@ == "Executed: "@ + command_str@ + "\nExit: "@ + (if success {
                "success"@
            } else {
                "failure"@
            }) + (if (output.spec_bytes().len() as usize) > 500 {
                "\nOutput (first 500 chars): "@ + decode_utf8(output.spec_bytes().subrange(0, 500))
                    + "..."@
            } else {
                "\nOutput:\n"@ + output@
            }),
    {
        let mut r = to_owned_string("Executed: ");
        push_str(&mut r, command_str);
        push_str(&mut r, "\nExit: ");
        if success {
            push_str(&mut r, "success");
        } else {
            push_str(&mut r, "failure");
        }
        if output.len() > 500 {
            let (head, _rest) = output.split_at(500);
            proof {
                encode_utf8_decode_utf8(head@);
            }
            push_str(&mut r, "\nOutput (first 500 chars): ");
            push_str(&mut r, head);
            push_str(&mut r, "...");
        } else {
            push_str(&mut r, "\nOutput:\n");
            push_str(&mut r, output);
        }
        assert(r@ =~= "Executed: "@ + command_str@ + "\nExit: "@ + (if success {
            "success"@
        } else {
            "failure"@
        }) + (if (output.spec_bytes().len() as usize) > 500 {
            "\nOutput (first 500 chars): "@ + decode_utf8(output.spec_bytes().subrange(0, 500))
                + "..."@
        } else {
            "\nOutput:\n"@ + output@
        }));
        r
    }
}

/// The error a finished command reports: none on success; the exit code
/// (with up to 500 bytes of non-empty captured stderr) on failure; a note
/// where a signal ended it.
pub open spec fn exit_error_text(success: bool, code: Option<i32>, stderr: Option<&str>) -> Option<
    Seq<char>,
> {
    if success {
        None
    } else {
        match code {
            Some(c) => Some(
                "Command exited with code "@ + signed_decimal(c as int) + match stderr {
                    Some(e) => if e@.len() > 0 {
                        "\nStderr: "@ + (if (e.spec_bytes().len() as usize) > 500 {
                            decode_utf8(e.spec_bytes().subrange(0, 500))
                        } else {
                            e@
                        })
                    } else {
                        Seq::empty()
                    },
                    None => Seq::empty(),
                },
            ),
            None => Some("Command terminated by signal"@),
        }
    }
}

/// How a signed integer prints.
pub open spec fn signed_decimal(n: int) -> Seq<char> {
    if n < 0 {
        "-"@ + decimal((-n) as nat)
    } else {
        decimal(n as nat)
    }
}

impl ExecuteCommandTool {
    /// The error message of a finished command (see `exit_error_text`).
    pub fn exit_error(success: bool, code: Option<i32>, stderr: Option<&str>) -> (r: Option<String>)
        requires
            stderr matches Some(e) ==> ((e.spec_bytes().len() as usize) > 500 ==> is_char_boundary(
                e.spec_bytes(),
                500,
            )),
        ensures
            match r {
                Some(m) => exit_error_text(success, code, stderr) == Some(m@),
                None => exit_error_text(success, code, stderr) is None,
            },
    {
        if success {
            return None;
        }
        match code {
            Some(c) => {
                let mut m = to_owned_string("Command exited with code ");
                if c < 0 {
                    push_str(&mut m, "-");
                    let magnitude: u64 = if c == i32::MIN {
                        2147483648u64
                    } else {
                        (-c) as u64
                    };
                    push_decimal(&mut m, magnitude);
                } else {
                    push_decimal(&mut m, c as u64);
                }
                proof {
                    reveal_strlit("-");
                }
                let ghost head = m@;
                assert(head =~= "Command exited with code "@ + signed_decimal(c as int));
                match stderr {
                    Some(e) => {
                        let ec = chars_of(e);
                        if ec.len() > 0 {
                            push_str(&mut m, "\nStderr: ");
                            if e.len() > 500 {
                                let (prefix, _rest) = e.split_at(500);
                                proof {
                                    encode_utf8_decode_utf8(prefix@);
                                }
                                push_str(&mut m, prefix);
                            } else {
                                push_str(&mut m, e);
                            }
                        }
                    },
                    None => {},
                }
                proof {
                    reveal_strlit("");
                }
                assert(Some(m@) =~= exit_error_text(success, code, stderr));
                Some(m)
            },
            None => Some(to_owned_string("Command terminated by signal")),
        }
    }
}

/// Text that is not all whitespace has a first word.
proof fn lemma_nonblank_has_token(s: Seq<char>)
    requires
        !blank(s),
    ensures
        ws_tokens(s).len() > 0,
{
    let i = choose|i: int| 0 <= i < s.len() && !unicode_whitespace(s[i]);
    lemma_tokens_from_nonempty(s, 0, seq![], i);
}

proof fn lemma_tokens_from_nonempty(s: Seq<char>, j: int, cur: Seq<char>, i: int)
    requires
        0 <= j <= s.len(),
        0 <= i < s.len(),
        !unicode_whitespace(s[i]),
        j <= i || cur.len() > 0,
    ensures
        crate::text::ws_tokens_from(s, j, cur).len() > 0,
    decreases s.len() - j,
{
    if j < s.len() {
        if unicode_whitespace(s[j]) {
            if cur.len() == 0 {
                lemma_tokens_from_nonempty(s, j + 1, seq![], i);
            }
        } else {
            lemma_tokens_from_nonempty(s, j + 1, cur.push(s[j]), i);
        }
    }
}

/// What `ExecuteCommandTool` tells the planner it does.
pub open spec fn execute_command_tool_description() -> Seq<char> {
    "Execute a shell command with strict safety controls. Commands are validated against an allowlist. Destructive commands require confirmation. Timeout enforced (default 30s, max 300s). Output is captured with size limits. Not allowed in Analysis mode."@
}

impl Tool for ExecuteCommandTool {
    open spec fn tool_name(&self) -> Seq<char> {
        "execute_command"@
    }

    fn name(&self) -> (r: ToolName)
        ensures
            r@ == "execute_command"@,
    {
        proof {
            reveal_strlit("execute_command");
        }
        ToolName::known("execute_command")
    }

    fn description(&self) -> (r: &'static str)
        ensures
            r@ == execute_command_tool_description(),
    {
        "Execute a shell command with strict safety controls. Commands are validated against an allowlist. Destructive commands require confirmation. Timeout enforced (default 30s, max 300s). Output is captured with size limits. Not allowed in Analysis mode."
    }

    fn allowed_in_mode(&self, mode: ExecutionMode) -> (r: bool)
        ensures
            r == !(mode is Analysis),
    {
        match mode {
            ExecutionMode::Edit | ExecutionMode::Fix | ExecutionMode::Batch => true,
            ExecutionMode::Analysis => false,
        }
    }
}

impl Default for ExecuteCommandTool {
    fn default() -> (r: Self) {
        ExecuteCommandTool::new()
    }
}

/// A deleting command is never classed safe, a command off the allowlist
/// is always blocked, and only an allowlisted command can be safe.
pub proof fn law_command_safety_classes(command: Seq<char>, args: Seq<Seq<char>>)
    ensures
        destructive_command(command) ==> command_safety(command, args) is RequiresConfirmation,
        !destructive_command(command) && !safe_command(command) ==> command_safety(
            command,
            args,
        ) is Blocked,
        command_safety(command, args) is Safe ==> safe_command(command) && !has_shell_metachar(
            full_command(command, args),
        ),
{
}

/// A prepared command runs only when its line is safe, or needs
/// confirmation and was confirmed; a blocked line is always refused.
pub proof fn law_commands_run_only_when_safe_or_confirmed(
    r: Result<CommandPlan, ForgeError>,
    c: Seq<char>,
    args: ToolArguments,
    mode: ExecutionMode,
    default_dir: Seq<char>,
)
    requires
        command_plan_ok(r, c, args, mode, default_dir),
    ensures
        ({
            let toks = ws_tokens(c);
            let safety = command_safety(lowercase_of(toks[0]), toks.drop_first());
            let confirmed = option_or(lookup_bool(args, "require_confirmation"@), false);
            &&& r matches Ok(CommandPlan::Run(_)) ==> (safety is Safe || (
            safety is RequiresConfirmation && confirmed))
            &&& safety is Blocked ==> (r matches Ok(CommandPlan::Refused(_)))
        }),
{
}

} // verus!

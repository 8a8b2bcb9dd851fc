//! Types shared by the agent-tool adapters: the closed set of supported
//! tools, command-build options, the normalised output record, and the
//! child-process description the engine hands to its runner.
use vstd::prelude::*;

verus! {

/// Identifies one of the supported external coding-agent tools.
#[derive(Clone, Copy, Debug, PartialEq, Eq, Structural)]
pub enum CliType {
    Claude,
    Codex,
    OpenCode,
}

/// Options handed to an adapter when a command is built.
#[derive(Clone, Copy, Debug, PartialEq, Eq, Structural)]
pub struct CommandOptions {
    /// Append the tool-specific flag that bypasses the tool's own
    /// "not inside a trusted repository" refusal.
    pub skip_git_repo_check: bool,
}

impl Default for CommandOptions {
    fn default() -> (r: Self)
        ensures
            r.skip_git_repo_check == false,
    {
        CommandOptions { skip_git_repo_check: false }
    }
}

/// How a parsed output line was framed by the tool.
#[derive(Clone, Copy, Debug, PartialEq, Eq, Structural)]
pub enum LineType {
    Json,
    Text,
    Error,
}

/// One output line, normalised by an adapter.
#[derive(Debug, PartialEq)]
pub struct ParsedLine {
    pub content: String,
    pub line_type: LineType,
    pub is_assistant: bool,
}

/// The mathematical value of a `ParsedLine`.
#[verifier::ext_equal]
pub struct ParsedLineModel {
    pub content: Seq<char>,
    pub line_type: LineType,
    pub is_assistant: bool,
}

impl View for ParsedLine {
    type V = ParsedLineModel;

    open spec fn view(&self) -> ParsedLineModel {
        ParsedLineModel {
            content: self.content@,
            line_type: self.line_type,
            is_assistant: self.is_assistant,
        }
    }
}

/// A ready-to-spawn child-process description: the program, its argument
/// vector, the working directory, and whether the prompt must be written to
/// the child's standard input right after spawn (instead of being an
/// argument).
#[derive(Debug)]
pub struct CommandSpec {
    pub program: String,
    pub args: Vec<String>,
    pub working_dir: String,
    pub prompt_via_stdin: bool,
}

/// The argument vectors as sequences of character sequences.
pub open spec fn args_view(args: Vec<String>) -> Seq<Seq<char>> {
    args@.map_values(|a: String| a@)
}

} // verus!

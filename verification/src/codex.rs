//! Adapter for the Codex-style agent tool: plain-text output, prompt passed
//! as an argument, every line treated as assistant-originated.
use vstd::prelude::*;

use crate::adapters::{args_view, CliType, CommandOptions, CommandSpec, LineType, ParsedLine,
    ParsedLineModel};
use crate::text::{spec_contains, str_contains};

verus! {

/// The argument vector of a Codex run command.
pub open spec fn codex_args(prompt: Seq<char>, skip_git_repo_check: bool) -> Seq<Seq<char>> {
    if skip_git_repo_check {
        seq![
            "exec"@,
            "--dangerously-bypass-approvals-and-sandbox"@,
            "--skip-git-repo-check"@,
            prompt,
        ]
    } else {
        seq!["exec"@, "--dangerously-bypass-approvals-and-sandbox"@, prompt]
    }
}

/// What `CodexAdapter::parse_output_line` yields: the raw line, framed as
/// plain text, always assistant-originated.
pub open spec fn codex_parse(line: Seq<char>) -> ParsedLineModel {
    ParsedLineModel { content: line, line_type: LineType::Text, is_assistant: true }
}

pub struct CodexAdapter {
    pub path: Option<String>,
}

impl CodexAdapter {
    /// A Codex adapter with no resolved executable path; the embedding
    /// application locates the executable and uses `with_path`.
    pub fn new() -> (r: Self)
        ensures
            r.path is None,
    {
        CodexAdapter { path: None }
    }

    /// A Codex adapter with the given resolved executable path.
    pub fn with_path(path: Option<String>) -> (r: Self)
        ensures
            r.path == path,
    {
        CodexAdapter { path }
    }

    pub fn name(&self) -> (r: &'static str)
        ensures
            r@ == "Codex CLI"@,
    {
        "Codex CLI"
    }

    pub fn cli_type(&self) -> (r: CliType)
        ensures
            r == CliType::Codex,
    {
        CliType::Codex
    }

    pub fn is_installed(&self) -> (r: bool)
        ensures
            r == (self.path is Some),
    {
        self.path.is_some()
    }

    pub fn get_path(&self) -> (r: Option<String>)
        ensures
            match r {
                Some(p) => self.path matches Some(q) && p@ == q@,
                None => self.path is None,
            },
    {
        match &self.path {
            Some(p) => Some(p.clone()),
            None => None,
        }
    }

    /// The arguments of a Codex run command.
    pub fn exec_args(prompt: &str, options: CommandOptions) -> (args: Vec<String>)
        ensures
            args_view(args) == codex_args(prompt@, options.skip_git_repo_check),
    {
        let mut args: Vec<String> = Vec::new();
        args.push("exec".to_owned());
        args.push("--dangerously-bypass-approvals-and-sandbox".to_owned());
        if options.skip_git_repo_check {
            args.push("--skip-git-repo-check".to_owned());
        }
        args.push(prompt.to_owned());
        proof {
            assert(args_view(args) =~= codex_args(prompt@, options.skip_git_repo_check));
        }
        args
    }

    /// The arguments of a Codex read-only command; this tool has no distinct
    /// read-only argument set, so they equal the run arguments.
    pub fn readonly_args(prompt: &str, options: CommandOptions) -> (args: Vec<String>)
        ensures
            args_view(args) == codex_args(prompt@, options.skip_git_repo_check),
    {
        Self::exec_args(prompt, options)
    }

    /// The executable this adapter invokes: the resolved path when one is
    /// known, the short tool name otherwise.
    fn executable(&self) -> (r: String)
        ensures
            r@ == codex_exe(self.path),
    {
        match &self.path {
            Some(p) => p.clone(),
            None => "codex".to_owned(),
        }
    }

    /// A ready-to-spawn description of a Codex run command.
    pub fn build_command(&self, prompt: &str, working_dir: &str, options: CommandOptions) -> (c:
        CommandSpec)
        ensures
            c.program@ == codex_exe(self.path),
            args_view(c.args) == codex_args(prompt@, options.skip_git_repo_check),
            c.working_dir@ == working_dir@,
            c.prompt_via_stdin == false,
    {
        CommandSpec {
            program: self.executable(),
            args: Self::exec_args(prompt, options),
            working_dir: working_dir.to_owned(),
            prompt_via_stdin: false,
        }
    }

    /// A ready-to-spawn description of a Codex read-only command.
    pub fn build_readonly_command(
        &self,
        prompt: &str,
        working_dir: &str,
        options: CommandOptions,
    ) -> (c: CommandSpec)
        ensures
            c.program@ == codex_exe(self.path),
            args_view(c.args) == codex_args(prompt@, options.skip_git_repo_check),
            c.working_dir@ == working_dir@,
            c.prompt_via_stdin == false,
    {
        CommandSpec {
            program: self.executable(),
            args: Self::readonly_args(prompt, options),
            working_dir: working_dir.to_owned(),
            prompt_via_stdin: false,
        }
    }

    /// Codex output is plain text: the sentinel counts wherever it appears.
    pub fn detect_completion(&self, output: &str, signal: &str) -> (b: bool)
        ensures
            b == spec_contains(output@, signal@),
    {
        str_contains(output, signal)
    }

    /// Every Codex line passes through unchanged and counts as assistant
    /// output.
    pub fn parse_output_line(&self, line: &str) -> (p: ParsedLine)
        ensures
            p@ == codex_parse(line@),
    {
        let p = ParsedLine {
            content: line.to_owned(),
            line_type: LineType::Text,
            is_assistant: true,
        };
        proof {
            assert(p@ =~= codex_parse(line@));
        }
        p
    }
}

/// The executable name a Codex adapter resolves to.
pub open spec fn codex_exe(path: Option<String>) -> Seq<char> {
    match path {
        Some(p) => p@,
        None => "codex"@,
    }
}

} // verus!

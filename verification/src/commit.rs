//! The auto-commit step's decisions and text handling: whether to commit,
//! the meta-prompt asking an agent for a commit message, and the cleaning of
//! the answer into a single commit-message line.
use vstd::prelude::*;

use crate::text::{dec_str, first_nonblank_line, scan_first_nonblank_line, strip_quoting,
    strip_quoting_spec, take_chars, trim_spec, trim_str, truncate_chars, u32_to_string};

verus! {

/// A commit is attempted only when auto-commit is configured, the working
/// directory is a repository, and the porcelain status reports changes.
pub fn should_attempt_commit(auto_commit: bool, is_repo: bool, status: &str) -> (b: bool)
    ensures
        b == (auto_commit && is_repo && trim_spec(status@).len() > 0),
{
    auto_commit && is_repo && trim_str(status).unicode_len() > 0
}

/// The fallback commit message for iteration `n`.
pub open spec fn fallback_message(n: u32) -> Seq<char> {
    "ralph: iteration "@ + dec_str(n as nat)
}

/// Render the fallback commit message for iteration `n`.
pub fn fallback_commit_message(n: u32) -> (s: String)
    ensures
        s@ == fallback_message(n),
{
    let mut s = "ralph: iteration ".to_owned();
    s.append(u32_to_string(n).as_str());
    s
}

/// A commit-message line as cleaned from an agent's answer: the first line
/// that is non-empty after trimming, stripped of surrounding backticks and
/// quotes, the fallback when nothing is left, cut to 72 characters.
pub open spec fn normalized_message(raw: Seq<char>, n: u32) -> Seq<char> {
    let line = strip_quoting_spec(first_nonblank_line(raw));
    let line = if line.len() == 0 {
        fallback_message(n)
    } else {
        line
    };
    take_chars(line, 72)
}

/// Clean an agent's answer into one commit-message line of at most 72
/// characters, falling back to the fixed message for iteration `n`.
pub fn normalize_commit_message(raw: &str, n: u32) -> (s: String)
    ensures
        s@ == normalized_message(raw@, n),
{
    let first = scan_first_nonblank_line(raw);
    let line = strip_quoting(first.as_str());
    if line.unicode_len() == 0 {
        let fb = fallback_commit_message(n);
        truncate_chars(fb.as_str(), 72).to_owned()
    } else {
        truncate_chars(line, 72).to_owned()
    }
}

/// What a diff is cut to before it enters the meta-prompt: its first
/// `max` characters, with a truncation marker when something was cut.
pub open spec fn truncated_for_prompt(input: Seq<char>, max: int) -> Seq<char> {
    if input.len() <= max {
        input
    } else {
        input.subrange(0, max) + "\n... (truncated) ..."@
    }
}

/// Cut `input` to at most `max` characters, marking truncation.
pub fn truncate_for_prompt(input: &str, max: usize) -> (s: String)
    ensures
        s@ == truncated_for_prompt(input@, max as int),
{
    let len = input.unicode_len();
    if len <= max {
        input.to_owned()
    } else {
        let mut s = truncate_chars(input, max).to_owned();
        s.append("\n... (truncated) ...");
        s
    }
}

/// The number of characters a diff may contribute to the meta-prompt.
pub const DIFF_PROMPT_CAP: usize = 4000;

/// The meta-prompt that asks an agent for a commit message for iteration `n`,
/// over the given diff summary and (truncated) diff.
pub open spec fn commit_prompt(n: u32, diff_stat: Seq<char>, diff: Seq<char>) -> Seq<char> {
    "Generate a concise git commit message for iteration "@ + dec_str(n as nat)
        + ".\nRules:\n- Output only the commit message (single line).\n- Max 72 characters.\n- Use imperative mood.\n\nDiff summary:\n"@
        + diff_stat + "\n\nDiff:\n"@ + truncated_for_prompt(diff, DIFF_PROMPT_CAP as int) + "\n"@
}

/// Build the commit-message meta-prompt for iteration `n`; the diff is cut to
/// `DIFF_PROMPT_CAP` characters.
pub fn build_commit_prompt(n: u32, diff_stat: &str, diff: &str) -> (s: String)
    ensures
        s@ == commit_prompt(n, diff_stat@, diff@),
{
    let mut s = "Generate a concise git commit message for iteration ".to_owned();
    s.append(u32_to_string(n).as_str());
    s.append(
        ".\nRules:\n- Output only the commit message (single line).\n- Max 72 characters.\n- Use imperative mood.\n\nDiff summary:\n",
    );
    s.append(diff_stat);
    s.append("\n\nDiff:\n");
    s.append(truncate_for_prompt(diff, DIFF_PROMPT_CAP).as_str());
    s.append("\n");
    s
}

} // verus!

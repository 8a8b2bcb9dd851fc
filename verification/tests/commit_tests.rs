use ralph_loop::commit::{build_commit_prompt, fallback_commit_message, normalize_commit_message,
    should_attempt_commit, truncate_for_prompt};
use ralph_loop::text::{find_sub, rfind_char, scan_first_nonblank_line, str_contains, str_eq,
    trim_str, truncate_chars, u32_to_string, u64_to_string};

#[test]
fn decimal_rendering_is_exact() {
    assert_eq!(u64_to_string(0), "0");
    assert_eq!(u64_to_string(7), "7");
    assert_eq!(u64_to_string(907), "907");
    assert_eq!(u64_to_string(18446744073709551615), "18446744073709551615");
    assert_eq!(u32_to_string(4294967295), "4294967295");
}

#[test]
fn substring_search_finds_first_occurrence() {
    assert_eq!(find_sub("abcabc", "bc"), Some(1));
    assert_eq!(find_sub("abc", "x"), None);
    assert_eq!(find_sub("abc", ""), Some(0));
    assert!(str_contains("hello world", "lo wo"));
    assert!(!str_contains("hello", "world"));
    assert_eq!(rfind_char("a}b}c", '}'), Some(3));
    assert_eq!(rfind_char("abc", '}'), None);
    assert!(str_eq("héllo", "héllo"));
    assert!(!str_eq("a", "b"));
}

#[test]
fn trimming_and_truncation() {
    assert_eq!(trim_str("  \t hi \r\n"), "hi");
    assert_eq!(trim_str(""), "");
    assert_eq!(trim_str(" \n "), "");
    assert_eq!(truncate_chars("abcdef", 4), "abcd");
    assert_eq!(truncate_chars("ab", 4), "ab");
}

#[test]
fn first_nonblank_line_is_scanned() {
    assert_eq!(scan_first_nonblank_line("\n   \n  first line \nsecond"), "first line");
    assert_eq!(scan_first_nonblank_line(""), "");
    assert_eq!(scan_first_nonblank_line("\n \t\n"), "");
}

#[test]
fn commit_gate_needs_flag_repo_and_changes() {
    assert!(should_attempt_commit(true, true, " M src/lib.rs\n"));
    assert!(!should_attempt_commit(false, true, " M src/lib.rs\n"));
    assert!(!should_attempt_commit(true, false, " M src/lib.rs\n"));
    // An empty working tree is a no-op.
    assert!(!should_attempt_commit(true, true, ""));
    assert!(!should_attempt_commit(true, true, "  \n"));
}

#[test]
fn commit_message_is_cleaned_and_capped() {
    assert_eq!(
        normalize_commit_message("\n`fix: handle empty diff`\nmore detail", 2),
        "fix: handle empty diff"
    );
    // A bare code fence on the first line strips to nothing: the fallback wins.
    assert_eq!(
        normalize_commit_message("```\nfix: handle empty diff\n```", 2),
        "ralph: iteration 2"
    );
    assert_eq!(normalize_commit_message("\"quoted subject\"", 2), "quoted subject");
    assert_eq!(normalize_commit_message("\n\n  \n", 3), "ralph: iteration 3");
    assert_eq!(normalize_commit_message("", 12), "ralph: iteration 12");
    let long = "x".repeat(100);
    let cleaned = normalize_commit_message(&long, 1);
    assert_eq!(cleaned.chars().count(), 72);
    assert_eq!(fallback_commit_message(42), "ralph: iteration 42");
}

#[test]
fn diff_truncation_marks_the_cut() {
    assert_eq!(truncate_for_prompt("short", 10), "short");
    let long = "y".repeat(12);
    assert_eq!(truncate_for_prompt(&long, 10), format!("{}\n... (truncated) ...", "y".repeat(10)));
}

#[test]
fn commit_prompt_carries_iteration_and_diffs() {
    let p = build_commit_prompt(4, " 1 file changed", "diff body");
    assert!(p.starts_with("Generate a concise git commit message for iteration 4.\nRules:\n"));
    assert!(p.contains("- Max 72 characters."));
    assert!(p.contains("Diff summary:\n 1 file changed"));
    assert!(p.contains("Diff:\ndiff body\n"));
}

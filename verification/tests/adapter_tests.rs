use ralph_loop::adapters::{CommandOptions, LineType};
use ralph_loop::claude::ClaudeCodeAdapter;
use ralph_loop::codex::CodexAdapter;
use ralph_loop::opencode::OpenCodeAdapter;

#[test]
fn parse_assistant_json_line() {
    let adapter = ClaudeCodeAdapter::new();
    let line = r#"{"type":"message","role":"assistant","content":"Hello"}"#;
    let parsed = adapter.parse_output_line(line);
    assert_eq!(parsed.content, "Hello");
    assert_eq!(parsed.line_type, LineType::Json);
    assert!(parsed.is_assistant);
}

#[test]
fn parse_non_json_line() {
    let adapter = ClaudeCodeAdapter::new();
    let parsed = adapter.parse_output_line("plain text");
    assert_eq!(parsed.content, "plain text");
    assert_eq!(parsed.line_type, LineType::Text);
    assert!(!parsed.is_assistant);
}

#[test]
fn exec_args_include_exec_and_full_auto() {
    let args = CodexAdapter::exec_args("hello", CommandOptions::default());
    assert_eq!(
        args,
        vec!["exec", "--dangerously-bypass-approvals-and-sandbox", "hello"]
    );
}

#[test]
fn readonly_args_use_read_only_sandbox() {
    let args = CodexAdapter::readonly_args("hello", CommandOptions::default());
    assert_eq!(
        args,
        vec!["exec", "--dangerously-bypass-approvals-and-sandbox", "hello"]
    );
}

#[test]
fn exec_args_include_skip_git_repo_check() {
    let args = CodexAdapter::exec_args(
        "hello",
        CommandOptions {
            skip_git_repo_check: true,
        },
    );
    assert_eq!(
        args,
        vec![
            "exec",
            "--dangerously-bypass-approvals-and-sandbox",
            "--skip-git-repo-check",
            "hello"
        ]
    );
}

#[test]
fn readonly_args_include_skip_git_repo_check() {
    let args = CodexAdapter::readonly_args(
        "hello",
        CommandOptions {
            skip_git_repo_check: true,
        },
    );
    assert_eq!(
        args,
        vec![
            "exec",
            "--dangerously-bypass-approvals-and-sandbox",
            "--skip-git-repo-check",
            "hello"
        ]
    );
}

#[test]
fn exec_args_include_format_json() {
    let args = OpenCodeAdapter::exec_args("hello");
    assert_eq!(args, vec!["run", "--format", "json", "hello"]);
}

#[test]
fn readonly_args_use_plan_agent() {
    let args = OpenCodeAdapter::readonly_args("hello");
    assert_eq!(
        args,
        vec!["run", "--format", "json", "--agent", "plan", "hello"]
    );
}

#[test]
fn parse_text_event() {
    let adapter = OpenCodeAdapter::new();
    let line = r#"{"type":"text","part":{"type":"text","text":"Hi"}}"#;
    let parsed = adapter.parse_output_line(line);
    assert_eq!(parsed.content, "Hi");
    assert_eq!(parsed.line_type, LineType::Json);
    assert!(parsed.is_assistant);
}

#[test]
fn parse_error_event() {
    let adapter = OpenCodeAdapter::new();
    let line = r#"{"type":"error","error":{"message":"boom"}}"#;
    let parsed = adapter.parse_output_line(line);
    assert_eq!(parsed.content, "boom");
    assert_eq!(parsed.line_type, LineType::Error);
    assert!(!parsed.is_assistant);
}

#[test]
fn claude_args_plain_and_stdin_hosts() {
    let args = ClaudeCodeAdapter::command_args("do it", false);
    assert_eq!(
        args,
        vec![
            "--print",
            "--dangerously-skip-permissions",
            "--permission-mode",
            "bypassPermissions",
            "--verbose",
            "do it",
            "--output-format",
            "stream-json",
            "--include-partial-messages"
        ]
    );
    let args = ClaudeCodeAdapter::command_args("do it", true);
    assert_eq!(
        args,
        vec![
            "--print",
            "--dangerously-skip-permissions",
            "--permission-mode",
            "bypassPermissions",
            "--verbose",
            "--input-format",
            "text",
            "--output-format",
            "stream-json",
            "--include-partial-messages"
        ]
    );
}

#[test]
fn claude_parse_delta_and_message_probes() {
    let adapter = ClaudeCodeAdapter::new();
    let parsed = adapter.parse_output_line(r#"{"type":"content_block_delta","delta":{"text":"par"}}"#);
    assert_eq!(parsed.content, "par");
    assert!(parsed.is_assistant);
    let parsed = adapter.parse_output_line(
        r#"{"type":"message","message":{"content":[{"type":"text","text":"a"},{"type":"text","text":"b"}]}}"#,
    );
    assert_eq!(parsed.content, "ab");
    assert!(parsed.is_assistant);
}

#[test]
fn claude_parse_ping_keeps_empty_content() {
    let adapter = ClaudeCodeAdapter::new();
    let parsed = adapter.parse_output_line(r#"{"type":"ping"}"#);
    assert_eq!(parsed.content, "");
    assert_eq!(parsed.line_type, LineType::Json);
    assert!(!parsed.is_assistant);
    // An unknown structured event without text passes the raw line through.
    let raw = r#"{"type":"system","subtype":"init"}"#;
    let parsed = adapter.parse_output_line(raw);
    assert_eq!(parsed.content, raw);
}

#[test]
fn claude_detect_completion_needs_assistant_line() {
    let adapter = ClaudeCodeAdapter::new();
    let sentinel = "<done>COMPLETE</done>";
    let assistant = "{\"role\":\"assistant\",\"content\":\"ok <done>COMPLETE</done>\"}\n";
    assert!(adapter.detect_completion(assistant, sentinel));
    // The same content on a user-role line does not complete.
    let user = "{\"role\":\"user\",\"content\":\"ok <done>COMPLETE</done>\"}\n";
    assert!(!adapter.detect_completion(user, sentinel));
    assert!(!adapter.detect_completion("nothing here", sentinel));
}

#[test]
fn codex_and_opencode_detect_completion_anywhere() {
    assert!(CodexAdapter::new().detect_completion("a\nsee <done>COMPLETE</done>", "<done>COMPLETE</done>"));
    assert!(!CodexAdapter::new().detect_completion("a\nb", "<done>COMPLETE</done>"));
    assert!(OpenCodeAdapter::new().detect_completion("x <done>COMPLETE</done> y", "<done>COMPLETE</done>"));
}

#[test]
fn adapter_paths_and_names() {
    let c = ClaudeCodeAdapter::new();
    assert!(!c.is_installed());
    assert_eq!(c.get_path(), None);
    let c = CodexAdapter::with_path(Some("/usr/bin/codex".to_string()));
    assert!(c.is_installed());
    assert_eq!(c.get_path(), Some("/usr/bin/codex".to_string()));
    let spec = c.build_command("p", "/tmp/w", CommandOptions::default());
    assert_eq!(spec.program, "/usr/bin/codex");
    assert_eq!(spec.working_dir, "/tmp/w");
    assert!(!spec.prompt_via_stdin);
    let o = OpenCodeAdapter::new();
    let spec = o.build_readonly_command("p", "/tmp/w", CommandOptions::default());
    assert_eq!(spec.program, "opencode");
    assert_eq!(spec.args, vec!["run", "--format", "json", "--agent", "plan", "p"]);
}

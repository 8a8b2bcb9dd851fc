use ralph_loop::brainstorm::{brainstorm_cli_args, build_brainstorm_prompt, contains_cjk,
    contains_hangul, contains_kana, conversation_context, detect_language, extract_json,
    parse_ai_response, truncate_to_title, ConversationMessage, DetectedLanguage};
use ralph_loop::json::{parse_json, JsonNode};
use ralph_loop::opencode::{full_access_template, merge_permissions};

#[test]
fn extract_json_prefers_json_fence() {
    let out = "text\n```json\n{\"a\": 1}\n```\nmore";
    assert_eq!(extract_json(out).unwrap(), "{\"a\": 1}");
}

#[test]
fn extract_json_generic_fence_skips_language_marker() {
    let out = "```yaml\n{\"b\": 2}\n```";
    assert_eq!(extract_json(out).unwrap(), "{\"b\": 2}");
}

#[test]
fn extract_json_falls_back_to_braces() {
    let out = "prefix {\"c\": 3} suffix";
    assert_eq!(extract_json(out).unwrap(), "{\"c\": 3}");
    let err = extract_json("no json at all").unwrap_err();
    assert_eq!(err, "No JSON found in output: no json at all");
}

#[test]
fn parse_ai_response_reads_structured_reply() {
    let out = r#"```json
{
  "question": "Which features?",
  "description": "Pick some",
  "options": [
    {"label": "Classic", "description": "Faithful", "value": "classic"},
    {"label": "New", "value": "new"}
  ],
  "multiSelect": true,
  "allowOther": true,
  "isComplete": false
}
```"#;
    let r = parse_ai_response(out).unwrap();
    assert_eq!(r.question, "Which features?");
    assert_eq!(r.description.as_deref(), Some("Pick some"));
    assert_eq!(r.options.len(), 2);
    assert_eq!(r.options[0].label, "Classic");
    assert_eq!(r.options[1].description, None);
    assert_eq!(r.options[1].value, "new");
    assert!(r.multi_select);
    assert!(r.allow_other);
    assert!(!r.is_complete);
    assert_eq!(r.generated_prompt, None);
}

#[test]
fn parse_ai_response_rejects_malformed_payload() {
    let out = "{\"question\": \"q\"}";
    let err = parse_ai_response(out).unwrap_err();
    assert!(err.starts_with("Failed to parse AI response. Raw: "));
}

#[test]
fn parse_ai_response_plain_text_becomes_question() {
    let r = parse_ai_response("  What do you want to build?  ").unwrap();
    assert_eq!(r.question, "What do you want to build?");
    assert!(!r.is_complete);
    assert!(r.options.is_empty());
    assert_eq!(r.generated_prompt, None);
}

#[test]
fn parse_ai_response_sentinel_fallback_matches_language() {
    let text = "任务说明 <done>COMPLETE</done>";
    let r = parse_ai_response(text).unwrap();
    assert!(r.is_complete);
    assert_eq!(r.question, "需求收集完成");
    assert_eq!(r.generated_prompt.as_deref(), Some(text));
    let r = parse_ai_response("All set <done>COMPLETE</done>").unwrap();
    assert_eq!(r.question, "Requirements complete");
    assert_eq!(r.description.as_deref(), Some("Generated task prompt"));
}

#[test]
fn language_detection_orders_scripts() {
    assert!(contains_kana("タスク"));
    assert!(contains_hangul("작업"));
    assert!(contains_cjk("需求"));
    assert_eq!(detect_language("작업 prompt"), DetectedLanguage::Ko);
    assert_eq!(detect_language("タスクの説明"), DetectedLanguage::Ja);
    assert_eq!(detect_language("需求收集"), DetectedLanguage::Zh);
    assert_eq!(detect_language("hello"), DetectedLanguage::Other);
}

#[test]
fn generate_title_only_fires_on_first_message() {
    let short = "贪吃蛇";
    assert_eq!(truncate_to_title(short, 15), short.to_string());
    assert_eq!(
        truncate_to_title(short, 15),
        truncate_to_title(short, 15),
        "truncate_to_title must be deterministic"
    );
}

#[test]
fn long_titles_are_cut_with_ellipsis() {
    let long = "帮我写一个贪吃蛇游戏，加上难度选择";
    let title = truncate_to_title(long, 15);
    assert!(title.chars().count() <= 16);
    assert!(title.ends_with('…'));
}

#[test]
fn brainstorm_prompt_frames_the_conversation() {
    let conv = vec![
        ConversationMessage { role: "user".to_string(), content: "make a game".to_string() },
        ConversationMessage { role: "assistant".to_string(), content: "what kind?".to_string() },
    ];
    assert_eq!(
        conversation_context(&conv),
        "User: make a game\n\nAssistant: what kind?\n\n"
    );
    let p = build_brainstorm_prompt("SYSTEM RULES", &conv);
    assert!(p.starts_with("SYSTEM RULES\n\n## Conversation\n\nUser: make a game\n\n"));
    assert!(p.ends_with(
        "Based on the conversation above, output the next question JSON (or the final prompt). Output JSON only."
    ));
    assert_eq!(
        brainstorm_cli_args("q"),
        vec![
            "--print",
            "--dangerously-skip-permissions",
            "--permission-mode",
            "bypassPermissions",
            "q",
            "--output-format",
            "text"
        ]
    );
}

fn permission_of<'a>(cfg: &'a JsonNode, section: &str, key: &str) -> &'a JsonNode {
    cfg.get(section)
        .and_then(|s| s.get(key))
        .and_then(|e| e.get("permission"))
        .expect("permission entry")
}

#[test]
fn merge_permissions_grants_and_preserves() {
    let user = parse_json(
        r#"{"agent":{"general":{"model":"gpt"}},"theme":"dark","mode":"oops"}"#,
    )
    .unwrap();
    let merged = merge_permissions(user);
    for (section, key) in [
        ("agent", "general"),
        ("agent", "build"),
        ("agent", "plan"),
        ("agent", "explore"),
        ("mode", "build"),
        ("mode", "plan"),
    ] {
        let p = permission_of(&merged, section, key);
        for cap in ["edit", "bash", "webfetch", "doom_loop", "external_directory"] {
            assert_eq!(p.get_str(cap).map(|s| s.as_str()), Some("allow"));
        }
    }
    // The user's own entry members and unrelated members survive.
    let general = merged.get("agent").and_then(|a| a.get("general")).unwrap();
    assert_eq!(general.get_str("model").map(|s| s.as_str()), Some("gpt"));
    assert_eq!(merged.get_str("theme").map(|s| s.as_str()), Some("dark"));
    // A non-object section is replaced by a granted one.
    assert!(merged.get("mode").and_then(|m| m.get("plan")).is_some());
    // The template used when the user has no configuration is granted too.
    let tpl = full_access_template();
    let p = permission_of(&tpl, "mode", "build");
    assert_eq!(p.get_str("bash").map(|s| s.as_str()), Some("allow"));
}

#[test]
fn parse_json_wrapper_reads_structure_not_raw_text() {
    let doc = parse_json(r#"{"k":[1,true,null,"s"],"n":2.5}"#).unwrap();
    match doc.get("k") {
        Some(JsonNode::Arr(items)) => assert_eq!(items.len(), 4),
        other => panic!("expected an array, got {:?}", other),
    }
    assert!(parse_json("not json").is_none());
}

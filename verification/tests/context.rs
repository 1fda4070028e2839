use invisible_agent::ai::context::{build_messages, ContentPart, Message, SYSTEM_PROMPT};

fn text_of(m: &Message) -> &str {
    assert_eq!(m.content.len(), 1);
    match &m.content[0] {
        ContentPart::Text { text } => text,
        ContentPart::ImageUrl { .. } => panic!("expected text"),
    }
}

#[test]
fn minimal_messages() {
    let m = build_messages("", None, None, &[], "What is a heap?");
    assert_eq!(m.len(), 2);
    assert_eq!(m[0].role, "system");
    assert_eq!(text_of(&m[0]), SYSTEM_PROMPT);
    assert_eq!(m[1].role, "user");
    assert_eq!(text_of(&m[1]), "What is a heap?");
}

#[test]
fn system_text_sections() {
    let m = build_messages("[Me]: hi", None, Some("10 years of Rust"), &[], "q");
    let expected = format!(
        "{}\n\n## User's Resume/Background\n10 years of Rust\n\n\n## Live Interview Transcript\n[Me]: hi\n",
        SYSTEM_PROMPT
    );
    assert_eq!(text_of(&m[0]), expected);
}

#[test]
fn transcript_section_only() {
    let m = build_messages("line", None, None, &[], "q");
    let expected = format!("{}\n\n## Live Interview Transcript\nline\n", SYSTEM_PROMPT);
    assert_eq!(text_of(&m[0]), expected);
}

#[test]
fn system_prompt_starts_as_expected() {
    assert!(SYSTEM_PROMPT.starts_with("You are an expert interview assistant"));
    assert!(SYSTEM_PROMPT.contains("## Follow-ups"));
}

#[test]
fn law_history_replayed_in_order() {
    let history = vec![
        ("u1".to_string(), "a1".to_string()),
        ("u2".to_string(), "a2".to_string()),
    ];
    let m = build_messages("", None, None, &history, "q");
    assert_eq!(m.len(), 2 * history.len() + 2);
    assert_eq!(m[1].role, "user");
    assert_eq!(text_of(&m[1]), "u1");
    assert_eq!(m[2].role, "assistant");
    assert_eq!(text_of(&m[2]), "a1");
    assert_eq!(m[3].role, "user");
    assert_eq!(text_of(&m[3]), "u2");
    assert_eq!(m[4].role, "assistant");
    assert_eq!(text_of(&m[4]), "a2");
    assert_eq!(text_of(&m[5]), "q");
}

#[test]
fn screenshot_becomes_image_part() {
    let m = build_messages("", Some("QUJD"), None, &[], "look");
    let last = &m[1];
    assert_eq!(last.role, "user");
    assert_eq!(last.content.len(), 2);
    match &last.content[0] {
        ContentPart::Text { text } => assert_eq!(text, "look"),
        _ => panic!("expected text first"),
    }
    match &last.content[1] {
        ContentPart::ImageUrl { image_url } => {
            assert_eq!(image_url.url, "data:image/png;base64,QUJD");
            assert_eq!(image_url.detail.as_deref(), Some("high"));
        }
        _ => panic!("expected image second"),
    }
}

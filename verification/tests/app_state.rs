use invisible_agent::ai::context::{ContentPart, SYSTEM_PROMPT};
use invisible_agent::audio::Speaker;
use invisible_agent::commands::AppState;

#[test]
fn initial_state() {
    let st = AppState::new();
    let c = st.config_summary();
    assert!(!c.has_api_key);
    assert_eq!(c.model, "gpt-4o");
    assert_eq!(c.base_url, "https://api.openai.com/v1");
    assert!(!c.has_resume);
    assert!(!st.get_recording_status().is_recording);
    assert!(st.chat_history.is_empty());
}

#[test]
fn chat_refused_without_key() {
    let st = AppState::new();
    match st.chat_client() {
        Err(e) => assert_eq!(e, "API key not set. Go to Settings to configure."),
        Ok(_) => panic!("a chat needs a key"),
    }
}

#[test]
fn set_config_applies_only_given_settings() {
    let mut st = AppState::new();
    st.set_config(Some("sk-1".to_string()), None, None, None);
    let c = st.config_summary();
    assert!(c.has_api_key);
    assert_eq!(c.model, "gpt-4o");
    assert_eq!(
        st.transcription.transcription_target().unwrap().authorization,
        "Bearer sk-1"
    );
    st.set_config(None, Some("gpt-4o-mini".to_string()), Some("http://h/v1".to_string()), Some("cv".to_string()));
    let c = st.config_summary();
    assert!(c.has_api_key);
    assert_eq!(c.model, "gpt-4o-mini");
    assert_eq!(c.base_url, "http://h/v1");
    assert!(c.has_resume);
    assert_eq!(st.api_key.as_deref(), Some("sk-1"));
}

#[test]
fn chat_client_uses_configuration() {
    let mut st = AppState::new();
    st.set_config(Some("k".to_string()), Some("m".to_string()), Some("http://x".to_string()), None);
    let c = st.chat_client().unwrap();
    assert_eq!(c.model(), "m");
    let t = c.completions_target();
    assert_eq!(t.url, "http://x/chat/completions");
    assert_eq!(t.authorization, "Bearer k");
}

#[test]
fn manual_transcript_entries_reach_the_prompt() {
    let mut st = AppState::new();
    st.add_transcript_entry("Interviewer", "Reverse a list.".to_string());
    st.add_transcript_entry("ME", "Sure.".to_string());
    st.add_transcript_entry("someone", "...".to_string());
    let t = st.transcription.get_transcript();
    assert_eq!(t[0].speaker, Speaker::Interviewer);
    assert_eq!(t[1].speaker, Speaker::Me);
    assert_eq!(t[2].speaker, Speaker::Unknown);
    st.set_config(None, None, None, Some("résumé".to_string()));
    let m = st.chat_messages("help", None);
    assert_eq!(m.len(), 2);
    match &m[0].content[0] {
        ContentPart::Text { text } => assert_eq!(
            text,
            &format!(
                "{}\n\n## User's Resume/Background\nrésumé\n\n\n## Live Interview Transcript\n[Interviewer]: Reverse a list.\n[Me]: Sure.\n[Unknown]: ...\n",
                SYSTEM_PROMPT
            )
        ),
        _ => panic!("expected text"),
    }
}

#[test]
fn prompt_carries_the_full_transcript() {
    let mut st = AppState::new();
    for i in 0..55 {
        st.transcription.add_entry_at(Speaker::Me, format!("l{}", i), i);
    }
    let m = st.chat_messages("q", None);
    match &m[0].content[0] {
        ContentPart::Text { text } => {
            let lines: Vec<String> = (0..55).map(|i| format!("[Me]: l{}", i)).collect();
            let expected = format!(
                "{}\n\n## Live Interview Transcript\n{}\n",
                SYSTEM_PROMPT,
                lines.join("\n")
            );
            assert_eq!(text, &expected);
        }
        _ => panic!("expected text"),
    }
}

#[test]
fn recording_round_trip() {
    let mut st = AppState::new();
    st.set_config(Some("key".to_string()), Some("m".to_string()), None, Some("cv".to_string()));
    st.record_exchange("q".to_string(), "a".to_string());
    let status = st.start_recording();
    assert!(status.is_recording);
    assert!(st.get_recording_status().is_recording);
    assert_eq!(st.api_key.as_deref(), Some("key"));
    assert_eq!(st.model, "m");
    assert_eq!(st.resume_text.as_deref(), Some("cv"));
    assert_eq!(st.chat_history.len(), 1);
    let status = st.stop_recording();
    assert!(!status.is_recording);
    assert!(!st.get_recording_status().is_recording);
    assert_eq!(st.api_key.as_deref(), Some("key"));
    assert_eq!(st.chat_history.len(), 1);
}

#[test]
fn law_last_recording_call_wins() {
    let mut st = AppState::new();
    assert!(!st.get_recording_status().is_recording);
    st.stop_recording();
    assert!(!st.get_recording_status().is_recording);
    st.start_recording();
    st.start_recording();
    assert!(st.get_recording_status().is_recording);
    st.stop_recording();
    st.start_recording();
    assert!(st.get_recording_status().is_recording);
    st.stop_recording();
    assert!(!st.get_recording_status().is_recording);
}

#[test]
fn recorded_audio_reaches_transcript_and_prompt() {
    let mut st = AppState::new();
    st.start_recording();
    let e = st.record_transcription(false, "  Tell me about yourself. ").unwrap();
    assert_eq!(e.speaker, Speaker::Interviewer);
    assert_eq!(e.text, "Tell me about yourself.");
    assert!(st.record_transcription(true, "   ").is_none());
    st.record_transcription(true, "Sure").unwrap();
    let t = st.transcription.get_transcript();
    assert_eq!(t.len(), 2);
    assert_eq!(t[1].speaker, Speaker::Me);
    let m = st.chat_messages("help", None);
    match &m[0].content[0] {
        ContentPart::Text { text } => assert!(text.ends_with(
            "## Live Interview Transcript\n[Interviewer]: Tell me about yourself.\n[Me]: Sure\n"
        )),
        _ => panic!("expected text"),
    }
}

#[test]
fn finished_exchanges_join_the_history() {
    let mut st = AppState::new();
    st.record_exchange("What is a heap?".to_string(), "A tree.".to_string());
    st.record_exchange("Complexity?".to_string(), "O(log n).".to_string());
    assert_eq!(
        st.chat_history,
        vec![
            ("What is a heap?".to_string(), "A tree.".to_string()),
            ("Complexity?".to_string(), "O(log n).".to_string())
        ]
    );
    let m = st.chat_messages("next", None);
    assert_eq!(m.len(), 6);
    assert_eq!(m[1].role, "user");
    assert_eq!(m[2].role, "assistant");
    match &m[4].content[0] {
        ContentPart::Text { text } => assert_eq!(text, "O(log n)."),
        _ => panic!("expected text"),
    }
}

#[test]
fn law_label_round_trip() {
    for sp in [Speaker::Me, Speaker::Interviewer, Speaker::Unknown] {
        let mut st = AppState::new();
        st.add_transcript_entry(&sp.to_string(), "x".to_string());
        let t = st.transcription.get_transcript();
        assert_eq!(t.last().unwrap().speaker, sp);
        assert_eq!(t.last().unwrap().text, "x");
    }
}

#[test]
fn adding_an_entry_keeps_settings() {
    let mut st = AppState::new();
    st.set_config(Some("k".to_string()), None, None, None);
    st.add_transcript_entry("me", "hi".to_string());
    assert_eq!(st.api_key.as_deref(), Some("k"));
    assert!(!st.get_recording_status().is_recording);
}

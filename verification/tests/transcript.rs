use invisible_agent::audio::transcribe::TranscriptionEngine;
use invisible_agent::audio::Speaker;

fn engine_with(lines: &[(Speaker, &str)]) -> TranscriptionEngine {
    let mut e = TranscriptionEngine::new(None);
    for (i, (sp, t)) in lines.iter().enumerate() {
        e.add_entry_at(*sp, t.to_string(), i as u64);
    }
    e
}

#[test]
fn new_engine_is_empty() {
    let e = TranscriptionEngine::new(None);
    assert!(e.get_transcript().is_empty());
    assert_eq!(e.get_transcript_text(50), "");
    assert!(e.transcription_target().is_none());
}

#[test]
fn add_entry_at_appends() {
    let e = engine_with(&[(Speaker::Me, "hello"), (Speaker::Interviewer, "hi")]);
    let t = e.get_transcript();
    assert_eq!(t.len(), 2);
    assert_eq!(t[0].speaker, Speaker::Me);
    assert_eq!(t[0].text, "hello");
    assert_eq!(t[0].timestamp_ms, 0);
    assert_eq!(t[1].speaker, Speaker::Interviewer);
    assert_eq!(t[1].timestamp_ms, 1);
}

#[test]
fn transcript_text_format() {
    let e = engine_with(&[
        (Speaker::Me, "a"),
        (Speaker::Interviewer, "b"),
        (Speaker::Unknown, "c"),
    ]);
    assert_eq!(e.get_transcript_text(50), "[Me]: a\n[Interviewer]: b\n[Unknown]: c");
    assert_eq!(e.get_transcript_text(2), "[Interviewer]: b\n[Unknown]: c");
    assert_eq!(e.get_transcript_text(1), "[Unknown]: c");
    assert_eq!(e.get_transcript_text(0), "");
}

#[test]
fn law_recent_is_suffix() {
    let e = engine_with(&[(Speaker::Me, "1"), (Speaker::Me, "2"), (Speaker::Me, "3")]);
    let r = e.get_recent_transcript(2);
    assert_eq!(r.iter().map(|x| x.text.as_str()).collect::<Vec<_>>(), vec!["2", "3"]);
    let r = e.get_recent_transcript(10);
    assert_eq!(r.len(), 3);
    assert!(e.get_recent_transcript(0).is_empty());
}

#[test]
fn manual_entry_is_stamped_with_the_clock() {
    let mut e = TranscriptionEngine::new(None);
    e.add_manual_entry(Speaker::Me, "typed".to_string());
    let t = e.get_transcript();
    assert_eq!(t.len(), 1);
    assert_eq!(t[0].text, "typed");
    assert!(t[0].timestamp_ms > 1_600_000_000_000);
}

#[test]
fn recorded_transcription_is_trimmed_and_attributed() {
    let mut e = TranscriptionEngine::new(None);
    let got = e.record_transcription_at(true, "  hello there \n", 7).unwrap();
    assert_eq!(got.speaker, Speaker::Me);
    assert_eq!(got.text, "hello there");
    assert_eq!(got.timestamp_ms, 7);
    let got = e.record_transcription_at(false, "question?", 8).unwrap();
    assert_eq!(got.speaker, Speaker::Interviewer);
    assert_eq!(e.get_transcript().len(), 2);
}

#[test]
fn blank_transcription_is_dropped() {
    let mut e = TranscriptionEngine::new(None);
    assert!(e.record_transcription_at(true, " \n\t\u{2003}", 1).is_none());
    assert!(e.record_transcription(true, "").is_none());
    assert!(e.get_transcript().is_empty());
}

#[test]
fn recorded_transcription_with_clock() {
    let mut e = TranscriptionEngine::new(None);
    let got = e.record_transcription(false, " yes ").unwrap();
    assert_eq!(got.text, "yes");
    assert_eq!(e.get_transcript()[0].timestamp_ms, got.timestamp_ms);
}

#[test]
fn transcription_target_needs_key() {
    let mut e = TranscriptionEngine::new(None);
    assert!(e.transcription_target().is_none());
    e.set_api_key("sk-x".to_string());
    let t = e.transcription_target().unwrap();
    assert_eq!(t.url, "https://api.openai.com/v1/audio/transcriptions");
    assert_eq!(t.authorization, "Bearer sk-x");
    let e2 = TranscriptionEngine::new(Some("k2".to_string()));
    assert_eq!(e2.transcription_target().unwrap().authorization, "Bearer k2");
}

#[test]
fn speaker_labels() {
    assert_eq!(Speaker::Me.to_string(), "Me");
    assert_eq!(Speaker::Interviewer.to_string(), "Interviewer");
    assert_eq!(Speaker::Unknown.to_string(), "Unknown");
}

#[test]
fn speaker_from_label_is_case_insensitive() {
    assert_eq!(Speaker::from_label("me"), Speaker::Me);
    assert_eq!(Speaker::from_label("ME"), Speaker::Me);
    assert_eq!(Speaker::from_label("Interviewer"), Speaker::Interviewer);
    assert_eq!(Speaker::from_label("INTERVIEWER"), Speaker::Interviewer);
    assert_eq!(Speaker::from_label("bob"), Speaker::Unknown);
    assert_eq!(Speaker::from_label(""), Speaker::Unknown);
    assert_eq!(Speaker::from_label(" me"), Speaker::Unknown);
}

#[test]
fn speaker_from_lowercase_label_is_exact() {
    assert_eq!(Speaker::from_lowercase_label("me"), Speaker::Me);
    assert_eq!(Speaker::from_lowercase_label("Me"), Speaker::Unknown);
    assert_eq!(Speaker::from_lowercase_label("interviewer"), Speaker::Interviewer);
}

#[test]
fn speaker_for_source() {
    assert_eq!(Speaker::for_source(true), Speaker::Me);
    assert_eq!(Speaker::for_source(false), Speaker::Interviewer);
}

#[test]
fn full_transcript_text() {
    let e = engine_with(&[(Speaker::Me, "a"), (Speaker::Interviewer, "b")]);
    assert_eq!(e.get_full_transcript_text(), "[Me]: a\n[Interviewer]: b");
    assert_eq!(TranscriptionEngine::new(None).get_full_transcript_text(), "");
}

#[test]
fn law_failed_chunk_skipped() {
    let outcomes: Vec<(bool, Option<&str>, u64)> =
        vec![(true, Some("one"), 1), (false, None, 2), (false, Some("  "), 3), (true, Some("two"), 4)];
    let run = |outs: &[(bool, Option<&str>, u64)]| {
        let mut e = TranscriptionEngine::new(None);
        for (mic, text, ts) in outs {
            if let Some(t) = text {
                e.record_transcription_at(*mic, t, *ts);
            }
        }
        e.get_transcript().into_iter().map(|x| (x.speaker, x.text, x.timestamp_ms)).collect::<Vec<_>>()
    };
    let all = run(&outcomes);
    for j in [1usize, 2] {
        let mut fewer = outcomes.clone();
        fewer.remove(j);
        assert_eq!(run(&fewer), all);
    }
    assert_eq!(all.len(), 2);
}

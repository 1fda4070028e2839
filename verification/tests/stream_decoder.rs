use invisible_agent::ai::client::{AiClient, Delta, SseDecoder, StreamChoice, StreamChunk};

fn s(x: &str) -> String {
    x.to_string()
}

#[test]
fn decodes_one_data_line() {
    let mut d = SseDecoder::new();
    let out = d.feed_text("data: {\"a\":1}\n");
    assert_eq!(out, vec![s("{\"a\":1}")]);
    assert_eq!(d.pending_text(), "");
}

#[test]
fn skips_blank_lines_done_marker_and_other_fields() {
    let mut d = SseDecoder::new();
    let out = d.feed_text("\n\nevent: ping\n: comment\ndata: [DONE]\ndata: x\n");
    assert_eq!(out, vec![s("x")]);
}

#[test]
fn trims_carriage_returns_and_unicode_space() {
    let mut d = SseDecoder::new();
    let out = d.feed_text("data: one\r\n\u{3000}data: two \u{a0}\n  data: [DONE]  \n");
    assert_eq!(out, vec![s("one"), s("two")]);
}

#[test]
fn data_without_space_is_not_a_payload() {
    let mut d = SseDecoder::new();
    let out = d.feed_text("data:x\ndata: \ndata:\n");
    assert!(out.is_empty());
}

#[test]
fn keeps_unfinished_line_between_chunks() {
    let mut d = SseDecoder::new();
    assert!(d.feed_text("data: he").is_empty());
    assert_eq!(d.pending_text(), "data: he");
    let out = d.feed_text("llo\ndata: wor");
    assert_eq!(out, vec![s("hello")]);
    assert_eq!(d.pending_text(), "data: wor");
    let out = d.feed_text("ld\n");
    assert_eq!(out, vec![s("world")]);
    assert_eq!(d.pending_text(), "");
}

#[test]
fn law_split_invariance_on_every_split_point() {
    let stream = "data: {\"x\":\"é\"}\r\n\ndata: [DONE]\n: c\ndata: last\ndata: tail";
    let mut whole = SseDecoder::new();
    let expected = whole.feed_text(stream);
    assert_eq!(expected, vec![s("{\"x\":\"é\"}"), s("last")]);
    let chars: Vec<char> = stream.chars().collect();
    for cut in 0..=chars.len() {
        let a: String = chars[..cut].iter().collect();
        let b: String = chars[cut..].iter().collect();
        let mut d = SseDecoder::new();
        let mut got = d.feed_text(&a);
        got.extend(d.feed_text(&b));
        assert_eq!(got, expected);
        assert_eq!(d.pending_text(), whole.pending_text());
    }
}

#[test]
fn law_no_line_feed_kept() {
    let mut d = SseDecoder::new();
    let out = d.feed_text("data: a\ndata: b\nrest");
    for p in &out {
        assert!(!p.contains('\n'));
    }
    assert!(!d.pending_text().contains('\n'));
}

#[test]
fn feed_bytes_decodes_utf8() {
    let mut d = SseDecoder::new();
    let out = d.feed_bytes("data: café\n".as_bytes());
    assert_eq!(out, vec![s("café")]);
}

#[test]
fn feed_bytes_replaces_invalid_utf8() {
    let mut d = SseDecoder::new();
    let out = d.feed_bytes(&[b'd', b'a', b't', b'a', b':', b' ', 0xff, b'x', b'\n']);
    assert_eq!(out, vec![s("\u{fffd}x")]);
}

#[test]
fn feed_bytes_splits_a_character_lossily_per_chunk() {
    let bytes = "data: é\n".as_bytes();
    let mut d = SseDecoder::new();
    let mut out = d.feed_bytes(&bytes[..7]);
    out.extend(d.feed_bytes(&bytes[7..]));
    assert_eq!(out, vec![s("\u{fffd}\u{fffd}")]);
}

#[test]
fn client_defaults() {
    let c = AiClient::new(s("sk-1"), None, None);
    assert_eq!(c.model(), "gpt-4o");
    let t = c.completions_target();
    assert_eq!(t.url, "https://api.openai.com/v1/chat/completions");
    assert_eq!(t.authorization, "Bearer sk-1");
}

#[test]
fn client_configured() {
    let c = AiClient::new(s("k"), Some(s("gpt-4o-mini")), Some(s("http://localhost:8080/v1")));
    assert_eq!(c.model(), "gpt-4o-mini");
    let t = c.completions_target();
    assert_eq!(t.url, "http://localhost:8080/v1/chat/completions");
    assert_eq!(t.authorization, "Bearer k");
}

#[test]
fn law_split_invariance_bytes_on_char_boundaries() {
    let body = "data: {\"x\":\"héllo\"}\n\ndata: [DONE]\n";
    let mut whole = SseDecoder::new();
    let expected = whole.feed_bytes(body.as_bytes());
    for (cut, _) in body.char_indices() {
        let mut d = SseDecoder::new();
        let mut got = d.feed_bytes(&body.as_bytes()[..cut]);
        got.extend(d.feed_bytes(&body.as_bytes()[cut..]));
        assert_eq!(got, expected);
    }
}

fn chunk(contents: &[Option<&str>]) -> StreamChunk {
    StreamChunk {
        choices: contents
            .iter()
            .map(|c| StreamChoice { delta: Delta { content: c.map(|t| t.to_string()) } })
            .collect(),
    }
}

#[test]
fn content_tokens_in_order() {
    assert_eq!(chunk(&[Some("Hel")]).content_tokens(), vec![s("Hel")]);
    assert!(chunk(&[None]).content_tokens().is_empty());
    assert!(chunk(&[]).content_tokens().is_empty());
    assert_eq!(
        chunk(&[Some("a"), None, Some(""), Some("b")]).content_tokens(),
        vec![s("a"), s(""), s("b")]
    );
}

//! Assembly of the message list sent to the chat model: the system prompt
//! with the user's background and the live transcript, the chat history,
//! and the current question with an optional screenshot.
use vstd::prelude::*;
use vstd::string::*;

verus! {

/// The standing instructions given to the model.
pub const SYSTEM_PROMPT: &'static str = r#"You are an expert interview assistant providing real-time help during a technical interview. You are invisible to the interviewer -- only the user can see your responses.

RESPONSE FORMAT -- Always structure your responses as follows:

## Approach
2-3 sentence high-level strategy for the problem.

## Questions
Reiterate the interviewer's problem statement. Ask about the following:
- What are the key components of the problem?
- What are the constraints of the problem?
- What are the expected inputs and outputs?
- What are the edge cases?
- What are the special considerations?
- What are the potential follow-up questions?

## Steps
Numbered step-by-step breakdown so the user can "think aloud" naturally.
- Can start with a high-level overview, then break down into smaller steps.
- Can provide a brute force solution first, then optimize it.

## Solution
```
Code with clear, concise inline comments explaining key decisions.
```

## Talking Points
- How to explain the approach to the interviewer
- Time/space complexity analysis
- Trade-offs and alternative approaches

## Follow-ups
- Likely follow-up questions the interviewer may ask
- Brief guidance on how to answer each

GUIDELINES:
- Be concise. The user is under time pressure.
- If the question is behavioral, skip the code section and focus on STAR-format responses.
- If the question is system design, focus on components, data flow, and trade-offs.
- Always consider what the interviewer wants to hear.
- If you have transcript context, reference specific things the interviewer said.
- Format code for the language the interview is using (infer from context).
"#;

/// The image reference of an image content part.
pub struct ImageUrlData {
    pub url: String,
    pub detail: Option<String>,
}

/// One part of a message's content.
pub enum ContentPart {
    Text { text: String },
    ImageUrl { image_url: ImageUrlData },
}

/// One chat message: its role and its content parts.
pub struct Message {
    pub role: String,
    pub content: Vec<ContentPart>,
}

/// A content part as plain text values.
pub enum ContentPartView {
    Text(Seq<char>),
    ImageUrl { url: Seq<char>, detail: Option<Seq<char>> },
}

/// A message as plain text values.
pub struct MessageView {
    pub role: Seq<char>,
    pub content: Seq<ContentPartView>,
}

/// The view of an optional string.
pub open spec fn opt_view(o: Option<String>) -> Option<Seq<char>> {
    match o {
        Some(s) => Some(s@),
        None => None,
    }
}

impl View for ContentPart {
    type V = ContentPartView;

    open spec fn view(&self) -> ContentPartView {
        match self {
            ContentPart::Text { text } => ContentPartView::Text(text@),
            ContentPart::ImageUrl { image_url } => ContentPartView::ImageUrl {
                url: image_url.url@,
                detail: opt_view(image_url.detail),
            },
        }
    }
}

impl View for Message {
    type V = MessageView;

    open spec fn view(&self) -> MessageView {
        MessageView { role: self.role@, content: self.content@.map_values(|p: ContentPart| p@) }
    }
}

/// The views of a list of messages.
pub open spec fn messages_view(v: Seq<Message>) -> Seq<MessageView> {
    v.map_values(|m: Message| m@)
}

/// The views of a chat history of (user, assistant) pairs.
pub open spec fn history_view(h: Seq<(String, String)>) -> Seq<(Seq<char>, Seq<char>)> {
    h.map_values(|p: (String, String)| (p.0@, p.1@))
}

/// A message with one text part.
pub open spec fn text_message(role: Seq<char>, text: Seq<char>) -> MessageView {
    MessageView { role, content: seq![ContentPartView::Text(text)] }
}

/// The section appended to the system prompt for the user's background.
pub open spec fn resume_section(resume: Option<Seq<char>>) -> Seq<char> {
    match resume {
        Some(r) => "\n\n## User's Resume/Background\n"@ + r + "\n"@,
        None => Seq::empty(),
    }
}

/// The section appended to the system prompt for the live transcript; none
/// when the transcript is empty.
pub open spec fn transcript_section(transcript: Seq<char>) -> Seq<char> {
    if transcript.len() == 0 {
        Seq::empty()
    } else {
        "\n\n## Live Interview Transcript\n"@ + transcript + "\n"@
    }
}

/// The full system message text.
pub open spec fn system_text(transcript: Seq<char>, resume: Option<Seq<char>>) -> Seq<char> {
    SYSTEM_PROMPT@ + resume_section(resume) + transcript_section(transcript)
}

/// The history as alternating user and assistant messages.
pub open spec fn history_messages(h: Seq<(Seq<char>, Seq<char>)>) -> Seq<MessageView>
    decreases h.len(),
{
    if h.len() == 0 {
        Seq::empty()
    } else {
        history_messages(h.drop_last()) + seq![
            text_message("user"@, h.last().0),
            text_message("assistant"@, h.last().1),
        ]
    }
}

/// The image part that carries a base64 PNG screenshot.
pub open spec fn screenshot_part(b64: Seq<char>) -> ContentPartView {
    ContentPartView::ImageUrl {
        url: "data:image/png;base64,"@ + b64,
        detail: Some("high"@),
    }
}

/// The current question, followed by the screenshot when there is one.
pub open spec fn query_message(query: Seq<char>, screenshot: Option<Seq<char>>) -> MessageView {
    MessageView {
        role: "user"@,
        content: match screenshot {
            Some(b) => seq![ContentPartView::Text(query), screenshot_part(b)],
            None => seq![ContentPartView::Text(query)],
        },
    }
}

/// The whole message list: system message, history, current question.
pub open spec fn spec_build_messages(
    transcript: Seq<char>,
    screenshot: Option<Seq<char>>,
    resume: Option<Seq<char>>,
    history: Seq<(Seq<char>, Seq<char>)>,
    query: Seq<char>,
) -> Seq<MessageView> {
    seq![text_message("system"@, system_text(transcript, resume))] + history_messages(history)
        + seq![query_message(query, screenshot)]
}

/// The view of an optional string slice.
pub open spec fn opt_str_view(o: Option<&str>) -> Option<Seq<char>> {
    match o {
        Some(s) => Some(s@),
        None => None,
    }
}

proof fn lemma_history_layout(h: Seq<(Seq<char>, Seq<char>)>)
    ensures
        history_messages(h).len() == 2 * h.len(),
        forall|i: int| 0 <= i < h.len() ==> #[trigger] history_messages(h)[2 * i] == text_message("user"@, h[i].0)
            && history_messages(h)[2 * i + 1] == text_message("assistant"@, h[i].1),
    decreases h.len(),
{
    if h.len() > 0 {
        lemma_history_layout(h.drop_last());
        let prev = history_messages(h.drop_last());
        assert forall|i: int| 0 <= i < h.len() implies #[trigger] history_messages(h)[2 * i] == text_message("user"@, h[i].0)
            && history_messages(h)[2 * i + 1] == text_message("assistant"@, h[i].1) by {
            if i < h.len() - 1 {
                assert(history_messages(h)[2 * i] == prev[2 * i]);
                assert(history_messages(h)[2 * i + 1] == prev[2 * i + 1]);
                assert(h.drop_last()[i] == h[i]);
            }
        }
    }
}

/// The message list is the system message, then each history pair as a user
/// message followed by an assistant message, in order, then the current
/// question as a user message.
pub proof fn law_message_layout(
    transcript: Seq<char>,
    screenshot: Option<Seq<char>>,
    resume: Option<Seq<char>>,
    history: Seq<(Seq<char>, Seq<char>)>,
    query: Seq<char>,
)
    ensures
        ({
            let m = spec_build_messages(transcript, screenshot, resume, history, query);
            &&& m.len() == 2 * history.len() + 2
            &&& m[0] == text_message("system"@, system_text(transcript, resume))
            &&& forall|i: int| 0 <= i < history.len() ==> #[trigger] m[2 * i + 1] == text_message("user"@, history[i].0)
                && m[2 * i + 2] == text_message("assistant"@, history[i].1)
            &&& m[m.len() - 1] == query_message(query, screenshot)
        }),
{
    lemma_history_layout(history);
    let m = spec_build_messages(transcript, screenshot, resume, history, query);
    let hm = history_messages(history);
    assert forall|i: int| 0 <= i < history.len() implies #[trigger] m[2 * i + 1] == text_message("user"@, history[i].0)
        && m[2 * i + 2] == text_message("assistant"@, history[i].1) by {
        assert(m[2 * i + 1] == hm[2 * i]);
        assert(m[2 * i + 2] == hm[2 * i + 1]);
    }
}

/// The system message is the standing prompt, then the resume section
/// whenever a resume is given (whatever the transcript holds, empty or not),
/// then the transcript section whenever the transcript is not empty; with
/// neither, it is the prompt alone.
pub proof fn law_system_message_sections(
    transcript: Seq<char>,
    screenshot: Option<Seq<char>>,
    resume: Option<Seq<char>>,
    history: Seq<(Seq<char>, Seq<char>)>,
    query: Seq<char>,
)
    ensures
        ({
            let resume_part = match resume {
                Some(r) => "\n\n## User's Resume/Background\n"@ + r + "\n"@,
                None => Seq::<char>::empty(),
            };
            let transcript_part = if transcript.len() == 0 {
                Seq::<char>::empty()
            } else {
                "\n\n## Live Interview Transcript\n"@ + transcript + "\n"@
            };
            spec_build_messages(transcript, screenshot, resume, history, query)[0] == text_message(
                "system"@,
                SYSTEM_PROMPT@ + resume_part + transcript_part,
            )
        }),
        resume matches Some(r) ==> system_text(transcript, resume).take(
            (SYSTEM_PROMPT@ + "\n\n## User's Resume/Background\n"@ + r + "\n"@).len() as int,
        ) == SYSTEM_PROMPT@ + "\n\n## User's Resume/Background\n"@ + r + "\n"@,
        resume matches Some(r) ==> system_text(Seq::<char>::empty(), resume) == SYSTEM_PROMPT@
            + "\n\n## User's Resume/Background\n"@ + r + "\n"@,
        system_text(Seq::<char>::empty(), None) == SYSTEM_PROMPT@,
        system_text(transcript, resume).take(SYSTEM_PROMPT@.len() as int) == SYSTEM_PROMPT@,
{
    let a = SYSTEM_PROMPT@ + resume_section(resume);
    assert((a + transcript_section(transcript)).take(a.len() as int) =~= a);
    assert(a.take(SYSTEM_PROMPT@.len() as int) =~= SYSTEM_PROMPT@);
    assert(a + transcript_section(Seq::<char>::empty()) =~= a);
    assert(SYSTEM_PROMPT@ + resume_section(None) =~= SYSTEM_PROMPT@);
}

fn text_msg(role: &str, text: String) -> (m: Message)
    ensures
        m@ == text_message(role@, text@),
{
    let mut content: Vec<ContentPart> = Vec::new();
    content.push(ContentPart::Text { text });
    let m = Message { role: String::from_str(role), content };
    assert(m@.content =~= seq![ContentPartView::Text(text@)]);
    m
}

/// Builds the full message array for the chat-completion call.
pub fn build_messages(
    transcript: &str,
    screenshot_b64: Option<&str>,
    resume: Option<&str>,
    chat_history: &[(String, String)],
    user_query: &str,
) -> (messages: Vec<Message>)
    ensures
        messages_view(messages@) == spec_build_messages(
            transcript@,
            opt_str_view(screenshot_b64),
            opt_str_view(resume),
            history_view(chat_history@),
            user_query@,
        ),
{
    let mut messages: Vec<Message> = Vec::new();

    let mut system_text_s = String::from_str(SYSTEM_PROMPT);
    if let Some(resume_text) = resume {
        system_text_s.append("\n\n## User's Resume/Background\n");
        system_text_s.append(resume_text);
        system_text_s.append("\n");
    }
    assert(system_text_s@ =~= SYSTEM_PROMPT@ + resume_section(opt_str_view(resume)));
    if !transcript.is_empty() {
        system_text_s.append("\n\n## Live Interview Transcript\n");
        system_text_s.append(transcript);
        system_text_s.append("\n");
    }
    assert(system_text_s@ =~= system_text(transcript@, opt_str_view(resume)));
    messages.push(text_msg("system", system_text_s));

    let ghost hist = history_view(chat_history@);
    let mut i: usize = 0;
    while i < chat_history.len()
        invariant
            i <= chat_history@.len(),
            hist == history_view(chat_history@),
            messages_view(messages@) == seq![
                text_message("system"@, system_text(transcript@, opt_str_view(resume))),
            ] + history_messages(hist.take(i as int)),
        decreases chat_history@.len() - i,
    {
        let ghost before = messages@;
        let (user_msg, assistant_msg) = &chat_history[i];
        messages.push(text_msg("user", user_msg.clone()));
        messages.push(text_msg("assistant", assistant_msg.clone()));
        assert(hist.take(i + 1).drop_last() =~= hist.take(i as int));
        assert(messages_view(messages@) =~= messages_view(before) + seq![
            text_message("user"@, hist.take(i + 1).last().0),
            text_message("assistant"@, hist.take(i + 1).last().1),
        ]);
        i = i + 1;
    }
    assert(hist.take(chat_history@.len() as int) =~= hist);

    let ghost before = messages@;
    let mut user_content: Vec<ContentPart> = Vec::new();
    user_content.push(ContentPart::Text { text: String::from_str(user_query) });
    if let Some(b64) = screenshot_b64 {
        let mut url = String::from_str("data:image/png;base64,");
        url.append(b64);
        user_content.push(
            ContentPart::ImageUrl {
                image_url: ImageUrlData { url, detail: Some(String::from_str("high")) },
            },
        );
    }
    let last = Message { role: String::from_str("user"), content: user_content };
    assert(last@.content =~= query_message(user_query@, opt_str_view(screenshot_b64)).content);
    messages.push(last);
    assert(messages_view(messages@) =~= messages_view(before) + seq![
        query_message(user_query@, opt_str_view(screenshot_b64)),
    ]);
    messages
}

} // verus!

//! The application state behind the front end's commands, and what each
//! command does to it.
use vstd::prelude::*;
use vstd::string::*;

use crate::ai::client::{default_model, AiClient};
use crate::ai::context::{
    build_messages, history_view, messages_view, opt_str_view, spec_build_messages, Message,
};
use crate::audio::capture::AudioCapture;
use crate::audio::transcribe::{
    entry_line, join_lines, record_step, ChunkOutcome, TranscriptionEngine, TranscriptionEngineView,
};
use crate::audio::{
    ascii_lowercase, lowercase, speaker_for_lowercase, Speaker, TranscriptEntry, TranscriptEntryView,
};
use crate::text::trim;
use vstd::utf8::is_ascii_chars;
use crate::endpoint::{default_base_url, default_base_url_string};

verus! {

/// The view of an optional string.
pub open spec fn opt_string_view(o: Option<String>) -> Option<Seq<char>> {
    match o {
        Some(s) => Some(s@),
        None => None,
    }
}

/// The application's state.
pub struct AppState {
    pub transcription: TranscriptionEngine,
    pub audio_capture: AudioCapture,
    pub chat_history: Vec<(String, String)>,
    pub resume_text: Option<String>,
    pub api_key: Option<String>,
    pub model: String,
    pub base_url: String,
}

/// Whether audio is being recorded.
pub struct RecordingStatus {
    pub is_recording: bool,
}

/// What the front end is told of the configuration: whether secrets are set,
/// never their values.
pub struct ConfigSummary {
    pub has_api_key: bool,
    pub model: String,
    pub base_url: String,
    pub has_resume: bool,
}

/// The message returned when a chat is asked for before an API key is set.
pub open spec fn missing_key_message() -> Seq<char> {
    "API key not set. Go to Settings to configure."@
}

/// The transcript text that goes into the prompt: the full transcript.
pub open spec fn prompt_transcript(t: TranscriptionEngineView) -> Seq<char> {
    join_lines(t.transcript.map_values(|e: TranscriptEntryView| entry_line(e)))
}

/// The settings and the chat history are the same in both states.
pub open spec fn keeps_settings(before: AppState, after: AppState) -> bool {
    &&& opt_string_view(after.api_key) == opt_string_view(before.api_key)
    &&& after.model@ == before.model@
    &&& after.base_url@ == before.base_url@
    &&& opt_string_view(after.resume_text) == opt_string_view(before.resume_text)
    &&& after.chat_history@ == before.chat_history@
}

impl AppState {
    /// The state at start-up: no key, no résumé, empty transcript and
    /// history, not recording, model `gpt-4o` at the default API root.
    pub fn new() -> (s: Self)
        ensures
            s.transcription@.transcript == Seq::<TranscriptEntryView>::empty(),
            s.transcription@.api_key is None,
            s.transcription@.base_url == default_base_url(),
            !s.audio_capture@,
            s.chat_history@ == Seq::<(String, String)>::empty(),
            s.resume_text is None,
            s.api_key is None,
            s.model@ == default_model(),
            s.base_url@ == default_base_url(),
    {
        AppState {
            transcription: TranscriptionEngine::new(None),
            audio_capture: AudioCapture::new(),
            chat_history: Vec::new(),
            resume_text: None,
            api_key: None,
            model: String::from_str("gpt-4o"),
            base_url: default_base_url_string(),
        }
    }

    /// Applies the settings that are given; those that are `None` stay as
    /// they were. A new API key also goes to the transcription engine.
    pub fn set_config(
        &mut self,
        api_key: Option<String>,
        model: Option<String>,
        base_url: Option<String>,
        resume: Option<String>,
    )
        ensures
            opt_string_view(final(self).api_key) == match api_key {
                Some(k) => Some(k@),
                None => opt_string_view(old(self).api_key),
            },
            final(self).transcription@ == match api_key {
                Some(k) => TranscriptionEngineView { api_key: Some(k@), ..old(self).transcription@ },
                None => old(self).transcription@,
            },
            final(self).model@ == match model {
                Some(m) => m@,
                None => old(self).model@,
            },
            final(self).base_url@ == match base_url {
                Some(u) => u@,
                None => old(self).base_url@,
            },
            opt_string_view(final(self).resume_text) == match resume {
                Some(r) => Some(r@),
                None => opt_string_view(old(self).resume_text),
            },
            final(self).audio_capture@ == old(self).audio_capture@,
            final(self).chat_history@ == old(self).chat_history@,
    {
        if let Some(key) = api_key {
            self.api_key = Some(key.clone());
            self.transcription.set_api_key(key);
        }
        if let Some(m) = model {
            self.model = m;
        }
        if let Some(url) = base_url {
            self.base_url = url;
        }
        if let Some(r) = resume {
            self.resume_text = Some(r);
        }
    }

    /// The configuration as the front end sees it.
    pub fn config_summary(&self) -> (c: ConfigSummary)
        ensures
            c.has_api_key == self.api_key is Some,
            c.model@ == self.model@,
            c.base_url@ == self.base_url@,
            c.has_resume == self.resume_text is Some,
    {
        ConfigSummary {
            has_api_key: self.api_key.is_some(),
            model: self.model.clone(),
            base_url: self.base_url.clone(),
            has_resume: self.resume_text.is_some(),
        }
    }

    /// Adds a line typed in by hand; `speaker` names who said it, compared
    /// case-insensitively (`me`, `interviewer`, anything else unknown).
    pub fn add_transcript_entry(&mut self, speaker: &str, text: String)
        ensures
            keeps_settings(*old(self), *final(self)),
            final(self).audio_capture@ == old(self).audio_capture@,
            is_ascii_chars(speaker@) ==> final(self).transcription@.transcript.last().speaker
                == speaker_for_lowercase(ascii_lowercase(speaker@)),
            final(self).transcription@ == (TranscriptionEngineView {
                transcript: old(self).transcription@.transcript.push(
                    TranscriptEntryView {
                        speaker: speaker_for_lowercase(lowercase(speaker@)),
                        text: text@,
                        timestamp_ms: final(self).transcription@.transcript.last().timestamp_ms,
                    },
                ),
                ..old(self).transcription@
            }),
    {
        let who = Speaker::from_label(speaker);
        self.transcription.add_manual_entry(who, text);
    }

    /// The client a chat goes through: the configured key, model and API
    /// root; an error while no key is set.
    pub fn chat_client(&self) -> (r: Result<AiClient, String>)
        ensures
            match self.api_key {
                None => r matches Err(e) && e@ == missing_key_message(),
                Some(k) => r matches Ok(c) && c@.api_key == k@ && c@.model == self.model@
                    && c@.base_url == self.base_url@,
            },
    {
        match &self.api_key {
            None => Err(String::from_str("API key not set. Go to Settings to configure.")),
            Some(k) => Ok(
                AiClient::new(k.clone(), Some(self.model.clone()), Some(self.base_url.clone())),
            ),
        }
    }

    /// The messages for a chat turn: the prompt with the résumé and the
    /// full transcript, the chat history, and `message` with the screenshot
    /// when one was taken.
    pub fn chat_messages(&self, message: &str, screenshot_b64: Option<&str>) -> (m: Vec<Message>)
        ensures
            messages_view(m@) == spec_build_messages(
                prompt_transcript(self.transcription@),
                opt_str_view(screenshot_b64),
                opt_string_view(self.resume_text),
                history_view(self.chat_history@),
                message@,
            ),
    {
        let transcript = self.transcription.get_full_transcript_text();
        let resume: Option<&str> = match &self.resume_text {
            Some(r) => Some(r.as_str()),
            None => None,
        };
        build_messages(
            transcript.as_str(),
            screenshot_b64,
            resume,
            self.chat_history.as_slice(),
            message,
        )
    }

    /// Starts recording: capture is marked on. What is transcribed while
    /// it is on is recorded into this state's transcript
    /// (`record_transcription`).
    pub fn start_recording(&mut self) -> (r: RecordingStatus)
        ensures
            final(self).audio_capture@,
            r.is_recording,
            final(self).transcription@ == old(self).transcription@,
            keeps_settings(*old(self), *final(self)),
    {
        self.audio_capture.start();
        RecordingStatus { is_recording: true }
    }

    /// Stops recording.
    pub fn stop_recording(&mut self) -> (r: RecordingStatus)
        ensures
            !final(self).audio_capture@,
            !r.is_recording,
            final(self).transcription@ == old(self).transcription@,
            keeps_settings(*old(self), *final(self)),
    {
        self.audio_capture.stop();
        RecordingStatus { is_recording: false }
    }

    /// Records what the transcription of one recorded chunk returned into
    /// the transcript: the trimmed text, attributed to the user for the
    /// microphone and to the interviewer otherwise, stamped with the current
    /// time; blank text changes nothing. The entry appended is returned.
    pub fn record_transcription(&mut self, is_microphone: bool, text: &str) -> (entry: Option<TranscriptEntry>)
        ensures
            final(self).transcription@.transcript == record_step(
                old(self).transcription@.transcript,
                ChunkOutcome {
                    is_microphone,
                    text: Some(text@),
                    timestamp_ms: final(self).transcription@.transcript.last().timestamp_ms,
                },
            ),
            final(self).transcription@.api_key == old(self).transcription@.api_key,
            final(self).transcription@.base_url == old(self).transcription@.base_url,
            trim(text@).len() == 0 ==> entry is None,
            trim(text@).len() > 0 ==> (entry matches Some(e)
                && e@ == final(self).transcription@.transcript.last()),
            final(self).audio_capture@ == old(self).audio_capture@,
            keeps_settings(*old(self), *final(self)),
    {
        self.transcription.record_transcription(is_microphone, text)
    }

    /// Adds a finished exchange, the question and the full answer, to the
    /// chat history that later turns send along.
    pub fn record_exchange(&mut self, question: String, answer: String)
        ensures
            final(self).chat_history@ == old(self).chat_history@.push((question, answer)),
            final(self).transcription@ == old(self).transcription@,
            final(self).audio_capture@ == old(self).audio_capture@,
            opt_string_view(final(self).api_key) == opt_string_view(old(self).api_key),
            final(self).model@ == old(self).model@,
            final(self).base_url@ == old(self).base_url@,
            opt_string_view(final(self).resume_text) == opt_string_view(old(self).resume_text),
    {
        self.chat_history.push((question, answer));
    }

    /// Whether audio is being recorded.
    pub fn get_recording_status(&self) -> (r: RecordingStatus)
        ensures
            r.is_recording == self.audio_capture@,
    {
        RecordingStatus { is_recording: self.audio_capture.is_recording() }
    }
}

} // verus!

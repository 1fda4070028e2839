//! The transcript kept during an interview, and the decisions around each
//! transcription of recorded audio.
use vstd::prelude::*;
use vstd::string::*;

use super::{entries_view, speaker_label, Speaker, TranscriptEntry, TranscriptEntryView};
use crate::clock::now_unix_ms;
use crate::endpoint::{bearer, default_base_url, default_base_url_string, join_url, HttpTarget};
use crate::text::{chars_of, string_from_chars, trim, trim_range};

verus! {

/// The transcript line shown for an entry: `[speaker]: text`.
pub open spec fn entry_line(e: TranscriptEntryView) -> Seq<char> {
    "["@ + speaker_label(e.speaker) + "]: "@ + e.text
}

/// The lines joined with line feeds between them.
pub open spec fn join_lines(lines: Seq<Seq<char>>) -> Seq<char>
    decreases lines.len(),
{
    if lines.len() == 0 {
        Seq::empty()
    } else if lines.len() == 1 {
        lines[0]
    } else {
        join_lines(lines.drop_last()) + "\n"@ + lines.last()
    }
}

/// The last `max` entries (all of them when there are fewer).
pub open spec fn recent<A>(s: Seq<A>, max: nat) -> Seq<A> {
    if s.len() <= max {
        s
    } else {
        s.skip(s.len() - max)
    }
}

/// The recent entries are the last `min(max, len)` entries of the
/// transcript, in their order.
pub proof fn law_recent_is_suffix<A>(s: Seq<A>, max: nat)
    ensures
        recent(s, max).len() == if s.len() <= max { s.len() } else { max },
        recent(s, max) == s.subrange(s.len() - recent(s, max).len(), s.len() as int),
{
    assert(s.subrange(0, s.len() as int) =~= s);
}

/// What came back for one recorded chunk: the source, the transcribed
/// text (`None` when the transcription failed) and the time it was recorded.
pub struct ChunkOutcome {
    pub is_microphone: bool,
    pub text: Option<Seq<char>>,
    pub timestamp_ms: u64,
}

/// The transcript after recording one outcome: non-blank text is appended,
/// trimmed and attributed to its source; a failure or blank text changes
/// nothing.
pub open spec fn record_step(t: Seq<TranscriptEntryView>, o: ChunkOutcome) -> Seq<TranscriptEntryView> {
    match o.text {
        Some(x) => if trim(x).len() > 0 {
            t.push(
                TranscriptEntryView {
                    speaker: if o.is_microphone { Speaker::Me } else { Speaker::Interviewer },
                    text: trim(x),
                    timestamp_ms: o.timestamp_ms,
                },
            )
        } else {
            t
        },
        None => t,
    }
}

/// The transcript after recording a run of outcomes in order.
pub open spec fn record_run(t: Seq<TranscriptEntryView>, outs: Seq<ChunkOutcome>) -> Seq<TranscriptEntryView>
    decreases outs.len(),
{
    if outs.len() == 0 {
        t
    } else {
        record_step(record_run(t, outs.drop_last()), outs.last())
    }
}

proof fn lemma_record_run_concat(t: Seq<TranscriptEntryView>, a: Seq<ChunkOutcome>, b: Seq<ChunkOutcome>)
    ensures
        record_run(t, a + b) == record_run(record_run(t, a), b),
    decreases b.len(),
{
    if b.len() == 0 {
        assert(a + b =~= a);
    } else {
        lemma_record_run_concat(t, a, b.drop_last());
        assert((a + b).drop_last() =~= a + b.drop_last());
        assert((a + b).last() == b.last());
    }
}

/// A chunk whose transcription failed, or came back blank, does not stop
/// the run: the transcript is what the run over the other chunks gives.
pub proof fn law_failed_chunk_skipped(t: Seq<TranscriptEntryView>, outs: Seq<ChunkOutcome>, j: int)
    requires
        0 <= j < outs.len(),
        outs[j].text matches Some(x) ==> trim(x).len() == 0,
    ensures
        record_run(t, outs) == record_run(t, outs.remove(j)),
{
    let a = outs.take(j);
    let b = outs.skip(j + 1);
    assert(outs =~= (a + seq![outs[j]]) + b);
    assert(outs.remove(j) =~= a + b);
    lemma_record_run_concat(t, a + seq![outs[j]], b);
    lemma_record_run_concat(t, a, b);
    assert((a + seq![outs[j]]).drop_last() =~= a);
}

/// The state of a transcription engine as plain values.
pub struct TranscriptionEngineView {
    pub transcript: Seq<TranscriptEntryView>,
    pub api_key: Option<Seq<char>>,
    pub base_url: Seq<char>,
}

/// Keeps the transcript and the credentials for the speech-to-text API.
pub struct TranscriptionEngine {
    transcript: Vec<TranscriptEntry>,
    api_key: Option<String>,
    base_url: String,
}

impl View for TranscriptionEngine {
    type V = TranscriptionEngineView;

    closed spec fn view(&self) -> TranscriptionEngineView {
        TranscriptionEngineView {
            transcript: entries_view(self.transcript@),
            api_key: match self.api_key {
                Some(k) => Some(k@),
                None => None,
            },
            base_url: self.base_url@,
        }
    }
}

impl TranscriptionEngine {
    /// An engine with an empty transcript, talking to the default API root.
    pub fn new(api_key: Option<String>) -> (e: Self)
        ensures
            e@.transcript == Seq::<TranscriptEntryView>::empty(),
            e@.api_key == match api_key {
                Some(k) => Some(k@),
                None => None::<Seq<char>>,
            },
            e@.base_url == default_base_url(),
    {
        let e = TranscriptionEngine {
            transcript: Vec::new(),
            api_key,
            base_url: default_base_url_string(),
        };
        assert(e@.transcript =~= Seq::<TranscriptEntryView>::empty());
        e
    }

    /// Sets the API key; nothing else changes.
    pub fn set_api_key(&mut self, key: String)
        ensures
            final(self)@ == (TranscriptionEngineView { api_key: Some(key@), ..old(self)@ }),
    {
        self.api_key = Some(key);
    }

    /// A copy of the whole transcript.
    pub fn get_transcript(&self) -> (t: Vec<TranscriptEntry>)
        ensures
            entries_view(t@) == self@.transcript,
    {
        let n: usize = self.transcript.len();
        self.copy_entries(0, n)
    }

    fn copy_entries(&self, lo: usize, hi: usize) -> (t: Vec<TranscriptEntry>)
        requires
            lo <= hi <= self@.transcript.len(),
        ensures
            entries_view(t@) == self@.transcript.subrange(lo as int, hi as int),
    {
        let mut t: Vec<TranscriptEntry> = Vec::new();
        let mut i: usize = lo;
        while i < hi
            invariant
                lo <= i <= hi <= self.transcript@.len(),
                entries_view(t@) == entries_view(self.transcript@).subrange(lo as int, i as int),
            decreases hi - i,
        {
            let ghost before = t@;
            let d = self.transcript[i].duplicate();
            t.push(d);
            assert(entries_view(t@) =~= entries_view(before).push(d@));
            assert(entries_view(t@) =~= entries_view(self.transcript@).subrange(lo as int, i + 1));
            i = i + 1;
        }
        t
    }

    /// The last `max_entries` entries, oldest first.
    pub fn get_recent_transcript(&self, max_entries: usize) -> (t: Vec<TranscriptEntry>)
        ensures
            entries_view(t@) == recent(self@.transcript, max_entries as nat),
    {
        let n: usize = self.transcript.len();
        let start: usize = n.saturating_sub(max_entries);
        let t = self.copy_entries(start, n);
        assert(recent(self@.transcript, max_entries as nat) =~= self@.transcript.subrange(start as int, n as int));
        t
    }

    /// The last `max_entries` entries as text, one `[speaker]: text` line each.
    pub fn get_transcript_text(&self, max_entries: usize) -> (s: String)
        ensures
            s@ == join_lines(recent(self@.transcript, max_entries as nat).map_values(|e: TranscriptEntryView| entry_line(e))),
    {
        let entries = self.get_recent_transcript(max_entries);
        let ghost ev = entries_view(entries@);
        let mut s = String::new();
        let mut i: usize = 0;
        while i < entries.len()
            invariant
                i <= entries@.len(),
                ev == entries_view(entries@),
                s@ == join_lines(ev.take(i as int).map_values(|e: TranscriptEntryView| entry_line(e))),
            decreases entries@.len() - i,
        {
            let ghost lines_before = ev.take(i as int).map_values(|e: TranscriptEntryView| entry_line(e));
            if i > 0 {
                s.append("\n");
            }
            s.append("[");
            let label = entries[i].speaker.to_string();
            s.append(label.as_str());
            s.append("]: ");
            s.append(entries[i].text.as_str());
            let ghost lines_after = ev.take(i + 1).map_values(|e: TranscriptEntryView| entry_line(e));
            assert(lines_after.drop_last() =~= lines_before);
            assert(lines_after.last() == entry_line(ev[i as int]));
            if i > 0 {
                assert(s@ =~= join_lines(lines_before) + "\n"@ + lines_after.last());
            } else {
                assert(lines_after.len() == 1);
                assert(s@ =~= lines_after[0]);
            }
            i = i + 1;
        }
        assert(ev.take(entries@.len() as int) =~= ev);
        s
    }

    /// The whole transcript as text, one `[speaker]: text` line per entry.
    pub fn get_full_transcript_text(&self) -> (s: String)
        ensures
            s@ == join_lines(self@.transcript.map_values(|e: TranscriptEntryView| entry_line(e))),
    {
        let n: usize = self.transcript.len();
        assert(recent(self@.transcript, n as nat) == self@.transcript);
        self.get_transcript_text(n)
    }

    /// Appends an entry stamped `timestamp_ms`.
    pub fn add_entry_at(&mut self, speaker: Speaker, text: String, timestamp_ms: u64)
        ensures
            final(self)@ == (TranscriptionEngineView {
                transcript: old(self)@.transcript.push(
                    TranscriptEntryView { speaker, text: text@, timestamp_ms },
                ),
                ..old(self)@
            }),
    {
        let ghost before = self.transcript@;
        self.transcript.push(TranscriptEntry { speaker, text, timestamp_ms });
        assert(entries_view(self.transcript@) =~= entries_view(before).push(
            TranscriptEntryView { speaker, text: text@, timestamp_ms },
        ));
    }

    /// Appends an entry stamped with the current time.
    pub fn add_manual_entry(&mut self, speaker: Speaker, text: String)
        ensures
            final(self)@ == (TranscriptionEngineView {
                transcript: old(self)@.transcript.push(
                    TranscriptEntryView {
                        speaker,
                        text: text@,
                        timestamp_ms: final(self)@.transcript.last().timestamp_ms,
                    },
                ),
                ..old(self)@
            }),
    {
        let now: u64 = now_unix_ms();
        self.add_entry_at(speaker, text, now);
    }

    /// Records what one transcription of a chunk returned, stamped
    /// `timestamp_ms`: the trimmed text, attributed to the user for the
    /// microphone and to the interviewer otherwise, is appended and returned;
    /// text that is blank once trimmed is dropped.
    pub fn record_transcription_at(&mut self, is_microphone: bool, text: &str, timestamp_ms: u64) -> (entry: Option<TranscriptEntry>)
        ensures
            final(self)@.transcript == record_step(
                old(self)@.transcript,
                ChunkOutcome { is_microphone, text: Some(text@), timestamp_ms },
            ),
            trim(text@).len() == 0 ==> entry is None && final(self)@ == old(self)@,
            trim(text@).len() > 0 ==> {
                let e = TranscriptEntryView {
                    speaker: if is_microphone { Speaker::Me } else { Speaker::Interviewer },
                    text: trim(text@),
                    timestamp_ms,
                };
                &&& entry matches Some(x) && x@ == e
                &&& final(self)@ == (TranscriptionEngineView {
                    transcript: old(self)@.transcript.push(e),
                    ..old(self)@
                })
            },
    {
        let chars = chars_of(text);
        let n: usize = chars.len();
        let trimmed = trim_range(&chars, 0, n);
        assert(chars@.subrange(0, n as int) =~= chars@);
        if trimmed.len() == 0 {
            return None;
        }
        let speaker = Speaker::for_source(is_microphone);
        let entry = TranscriptEntry { speaker, text: string_from_chars(&trimmed), timestamp_ms };
        let copy = entry.duplicate();
        self.add_entry_at(copy.speaker, copy.text, copy.timestamp_ms);
        Some(entry)
    }

    /// Records what one transcription returned, stamped with the current time.
    pub fn record_transcription(&mut self, is_microphone: bool, text: &str) -> (entry: Option<TranscriptEntry>)
        ensures
            trim(text@).len() == 0 ==> entry is None && final(self)@ == old(self)@,
            trim(text@).len() > 0 ==> {
                let e = TranscriptEntryView {
                    speaker: if is_microphone { Speaker::Me } else { Speaker::Interviewer },
                    text: trim(text@),
                    timestamp_ms: final(self)@.transcript.last().timestamp_ms,
                };
                &&& entry matches Some(x) && x@ == e
                &&& final(self)@ == (TranscriptionEngineView {
                    transcript: old(self)@.transcript.push(e),
                    ..old(self)@
                })
            },
    {
        let now: u64 = now_unix_ms();
        self.record_transcription_at(is_microphone, text, now)
    }

    /// The speech-to-text endpoint, `<base>/audio/transcriptions`, with its
    /// bearer authorization; `None` while no API key is set, in which case
    /// audio is not sent anywhere.
    pub fn transcription_target(&self) -> (t: Option<HttpTarget>)
        ensures
            match self@.api_key {
                None => t is None,
                Some(k) => t matches Some(h) && h.url@ == self@.base_url + "/audio/transcriptions"@
                    && h.authorization@ == "Bearer "@ + k,
            },
    {
        match &self.api_key {
            None => None,
            Some(k) => Some(
                HttpTarget {
                    url: join_url(self.base_url.as_str(), "/audio/transcriptions"),
                    authorization: bearer(k.as_str()),
                },
            ),
        }
    }
}

} // verus!

//! Transcript model: who spoke and what was said.
pub mod capture;
pub mod transcribe;
pub mod wav;

use vstd::prelude::*;
use vstd::string::*;
use vstd::utf8::is_ascii_chars;

verus! {

/// Who a transcript line is attributed to.
#[derive(Clone, Copy, Debug, PartialEq, Eq, Structural)]
pub enum Speaker {
    Me,
    Interviewer,
    Unknown,
}

/// The name a speaker is shown under.
pub open spec fn speaker_label(s: Speaker) -> Seq<char> {
    match s {
        Speaker::Me => "Me"@,
        Speaker::Interviewer => "Interviewer"@,
        Speaker::Unknown => "Unknown"@,
    }
}

/// The speaker named by an already lower-cased label.
pub open spec fn speaker_for_lowercase(lower: Seq<char>) -> Speaker {
    if lower == "me"@ {
        Speaker::Me
    } else if lower == "interviewer"@ {
        Speaker::Interviewer
    } else {
        Speaker::Unknown
    }
}

/// What `str::to_lowercase` makes of a string.
pub uninterp spec fn lowercase(s: Seq<char>) -> Seq<char>;

/// `c` with `A`–`Z` mapped to `a`–`z`, any other character unchanged.
pub open spec fn ascii_lower_char(c: char) -> char {
    if 'A' <= c && c <= 'Z' {
        ((c as u32) + 32) as char
    } else {
        c
    }
}

/// `s` with `A`–`Z` mapped to `a`–`z`.
pub open spec fn ascii_lowercase(s: Seq<char>) -> Seq<char> {
    s.map_values(|c: char| ascii_lower_char(c))
}

/// `str::to_lowercase`: the string lower-cased by the Unicode `Lowercase`
/// mapping. Claimed: the result is the named function of the input, and on
/// ASCII text, where the Unicode mapping takes `A`–`Z` to `a`–`z` and leaves
/// every other ASCII character as it is, it is that mapping. What the mapping
/// does beyond ASCII is left unsaid.
#[verifier::external_body]
fn to_lowercase(s: &str) -> (r: String)
    ensures
        r@ == lowercase(s@),
        is_ascii_chars(s@) ==> r@ == ascii_lowercase(s@),
{
    s.to_lowercase()
}

impl Speaker {
    /// The name this speaker is shown under.
    pub fn to_string(&self) -> (s: String)
        ensures
            s@ == speaker_label(*self),
    {
        match self {
            Speaker::Me => String::from_str("Me"),
            Speaker::Interviewer => String::from_str("Interviewer"),
            Speaker::Unknown => String::from_str("Unknown"),
        }
    }

    /// The speaker named by `lower`, which is already lower case: `me` and
    /// `interviewer` name the two parties, anything else is unknown.
    pub fn from_lowercase_label(lower: &str) -> (s: Speaker)
        ensures
            s == speaker_for_lowercase(lower@),
    {
        let l = String::from_str(lower);
        if l == String::from_str("me") {
            Speaker::Me
        } else if l == String::from_str("interviewer") {
            Speaker::Interviewer
        } else {
            Speaker::Unknown
        }
    }

    /// The speaker named by `label`, compared case-insensitively.
    pub fn from_label(label: &str) -> (s: Speaker)
        ensures
            s == speaker_for_lowercase(lowercase(label@)),
            is_ascii_chars(label@) ==> s == speaker_for_lowercase(ascii_lowercase(label@)),
    {
        let lower = to_lowercase(label);
        Self::from_lowercase_label(lower.as_str())
    }

    /// The speaker of audio from the given source: the microphone is the
    /// user, anything else the interviewer.
    pub fn for_source(is_microphone: bool) -> (s: Speaker)
        ensures
            s == (if is_microphone { Speaker::Me } else { Speaker::Interviewer }),
    {
        if is_microphone {
            Speaker::Me
        } else {
            Speaker::Interviewer
        }
    }
}

/// Every speaker's label is ASCII, and reading it back, case-insensitively,
/// gives the same speaker.
pub proof fn law_label_round_trip(sp: Speaker)
    ensures
        is_ascii_chars(speaker_label(sp)),
        speaker_for_lowercase(ascii_lowercase(speaker_label(sp))) == sp,
{
    reveal_strlit("Me");
    reveal_strlit("me");
    reveal_strlit("Interviewer");
    reveal_strlit("interviewer");
    reveal_strlit("Unknown");
    match sp {
        Speaker::Me => {
            assert(ascii_lowercase("Me"@) =~= "me"@);
        },
        Speaker::Interviewer => {
            assert(ascii_lowercase("Interviewer"@) =~= "interviewer"@);
        },
        Speaker::Unknown => {
            let l = ascii_lowercase("Unknown"@);
            assert(l.len() != "me"@.len());
            assert(l.len() != "interviewer"@.len());
        },
    }
}

/// One line of the transcript.
#[derive(Clone, Debug)]
pub struct TranscriptEntry {
    pub speaker: Speaker,
    pub text: String,
    pub timestamp_ms: u64,
}

/// A transcript line as plain values.
pub struct TranscriptEntryView {
    pub speaker: Speaker,
    pub text: Seq<char>,
    pub timestamp_ms: u64,
}

impl View for TranscriptEntry {
    type V = TranscriptEntryView;

    open spec fn view(&self) -> TranscriptEntryView {
        TranscriptEntryView { speaker: self.speaker, text: self.text@, timestamp_ms: self.timestamp_ms }
    }
}

impl TranscriptEntry {
    /// A copy of this entry.
    pub fn duplicate(&self) -> (e: TranscriptEntry)
        ensures
            e@ == self@,
    {
        TranscriptEntry { speaker: self.speaker, text: self.text.clone(), timestamp_ms: self.timestamp_ms }
    }
}

/// The views of a list of entries.
pub open spec fn entries_view(v: Seq<TranscriptEntry>) -> Seq<TranscriptEntryView> {
    v.map_values(|e: TranscriptEntry| e@)
}

} // verus!

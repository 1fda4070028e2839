//! Recording state and the cutting of the microphone stream into chunks.
use vstd::prelude::*;

verus! {

/// Whether audio is being recorded. The capture threads poll it to know when
/// to stop.
pub struct AudioCapture {
    is_recording: bool,
}

impl View for AudioCapture {
    type V = bool;

    closed spec fn view(&self) -> bool {
        self.is_recording
    }
}

impl AudioCapture {
    /// A capture that is not recording.
    pub fn new() -> (c: Self)
        ensures
            !c@,
    {
        AudioCapture { is_recording: false }
    }

    /// Marks recording as started.
    pub fn start(&mut self)
        ensures
            final(self)@,
    {
        self.is_recording = true;
    }

    /// Marks recording as stopped.
    pub fn stop(&mut self)
        ensures
            !final(self)@,
    {
        self.is_recording = false;
    }

    /// Whether recording is on.
    pub fn is_recording(&self) -> (b: bool)
        ensures
            b == self@,
    {
        self.is_recording
    }
}

/// A call that starts or stops recording.
pub enum RecordingCall {
    Start,
    Stop,
}

/// The recording flag after one call, as the call's own contract sets it:
/// `start` on, `stop` off (and so `AppState::start_recording` and
/// `stop_recording`, which call them).
pub open spec fn recording_step(flag: bool, call: RecordingCall) -> bool {
    match call {
        RecordingCall::Start => true,
        RecordingCall::Stop => false,
    }
}

/// The recording flag after a run of calls made in order.
pub open spec fn recording_after(initial: bool, calls: Seq<RecordingCall>) -> bool
    decreases calls.len(),
{
    if calls.len() == 0 {
        initial
    } else {
        recording_step(recording_after(initial, calls.drop_last()), calls.last())
    }
}

/// From start-up, recording is on exactly when the last call was a start:
/// the last call wins, whatever came before.
pub proof fn law_last_recording_call_wins(calls: Seq<RecordingCall>)
    ensures
        recording_after(false, calls) == (calls.len() > 0 && calls.last() is Start),
        recording_after(false, calls) == recording_after(true, calls) || calls.len() == 0,
{
}

/// One step of cutting: the pending samples plus `data` go out as a chunk
/// once there are at least `chunk_len` of them; otherwise they stay pending.
pub open spec fn chunk_step<T>(pending: Seq<T>, chunk_len: nat, data: Seq<T>) -> (Option<Seq<T>>, Seq<T>) {
    let all = pending + data;
    if all.len() >= chunk_len {
        (Some(all), Seq::empty())
    } else {
        (None, all)
    }
}

/// The chunks emitted, and what is left pending, after feeding `blocks` one
/// after the other starting from `pending`.
pub open spec fn chunk_run<T>(pending: Seq<T>, chunk_len: nat, blocks: Seq<Seq<T>>) -> (Seq<Seq<T>>, Seq<T>)
    decreases blocks.len(),
{
    if blocks.len() == 0 {
        (Seq::empty(), pending)
    } else {
        let (emitted, p) = chunk_run(pending, chunk_len, blocks.drop_last());
        let (out, rest) = chunk_step(p, chunk_len, blocks.last());
        match out {
            Some(c) => (emitted.push(c), rest),
            None => (emitted, rest),
        }
    }
}

/// The state of a chunker: what is pending and the chunk length.
pub struct SampleChunkerView<T> {
    pub pending: Seq<T>,
    pub chunk_len: nat,
}

/// Collects the samples that the audio callback delivers, block by block,
/// and hands them on in chunks of at least `chunk_len` samples.
pub struct SampleChunker<T> {
    pending: Vec<T>,
    chunk_len: usize,
}

impl<T> View for SampleChunker<T> {
    type V = SampleChunkerView<T>;

    closed spec fn view(&self) -> SampleChunkerView<T> {
        SampleChunkerView { pending: self.pending@, chunk_len: self.chunk_len as nat }
    }
}

impl<T> SampleChunkerView<T> {
    /// Less than a chunk is ever kept pending.
    pub open spec fn wf(self) -> bool {
        self.pending.len() < self.chunk_len || self.pending.len() == 0
    }
}

impl<T: Copy> SampleChunker<T> {
    /// A chunker with nothing pending that emits once `chunk_len` samples
    /// have gathered.
    pub fn new(chunk_len: usize) -> (c: Self)
        ensures
            c@.pending == Seq::<T>::empty(),
            c@.chunk_len == chunk_len,
            c@.wf(),
    {
        SampleChunker { pending: Vec::new(), chunk_len }
    }

    /// A chunker for two seconds of mono audio at `sample_rate`.
    pub fn for_sample_rate(sample_rate: u32) -> (c: Self)
        requires
            sample_rate * 2 <= usize::MAX,
        ensures
            c@.pending == Seq::<T>::empty(),
            c@.chunk_len == sample_rate * 2,
            c@.wf(),
    {
        Self::new(sample_rate as usize * 2)
    }

    /// Appends one block of samples; returns every pending sample as a chunk
    /// once at least `chunk_len` have gathered.
    pub fn push(&mut self, data: &[T]) -> (out: Option<Vec<T>>)
        requires
            old(self)@.wf(),
        ensures
            final(self)@.chunk_len == old(self)@.chunk_len,
            final(self)@.wf(),
            (match out {
                Some(c) => Some(c@),
                None => None,
            }, final(self)@.pending) == chunk_step(old(self)@.pending, old(self)@.chunk_len, data@),
    {
        let ghost old_pending = self.pending@;
        let ghost old_len = self.chunk_len;
        let mut i: usize = 0;
        while i < data.len()
            invariant
                i <= data@.len(),
                self.chunk_len == old_len,
                self.pending@ == old_pending + data@.take(i as int),
            decreases data@.len() - i,
        {
            self.pending.push(data[i]);
            assert(self.pending@ =~= old_pending + data@.take(i + 1));
            i = i + 1;
        }
        assert(data@.take(data@.len() as int) =~= data@);
        if self.pending.len() >= self.chunk_len {
            let mut out: Vec<T> = Vec::new();
            std::mem::swap(&mut out, &mut self.pending);
            Some(out)
        } else {
            None
        }
    }
}

/// Cutting keeps every sample, in order: the chunks emitted, joined, followed
/// by what is still pending, are the samples that were pending at the start
/// followed by every block fed. Each chunk holds at least `chunk_len`
/// samples, and less than a chunk is ever left pending.
pub proof fn law_chunking_keeps_samples<T>(pending: Seq<T>, chunk_len: nat, blocks: Seq<Seq<T>>)
    requires
        pending.len() < chunk_len || pending.len() == 0,
    ensures
        chunk_run(pending, chunk_len, blocks).0.flatten() + chunk_run(pending, chunk_len, blocks).1
            == pending + blocks.flatten(),
        forall|i: int| 0 <= i < chunk_run(pending, chunk_len, blocks).0.len()
            ==> #[trigger] chunk_run(pending, chunk_len, blocks).0[i].len() >= chunk_len,
        chunk_run(pending, chunk_len, blocks).1.len() < chunk_len
            || chunk_run(pending, chunk_len, blocks).1.len() == 0,
    decreases blocks.len(),
{
    blocks.lemma_flatten_and_flatten_alt_are_equivalent();
    if blocks.len() == 0 {
        assert(pending + blocks.flatten() =~= pending);
    } else {
        law_chunking_keeps_samples(pending, chunk_len, blocks.drop_last());
        blocks.drop_last().lemma_flatten_and_flatten_alt_are_equivalent();
        let (emitted, p) = chunk_run(pending, chunk_len, blocks.drop_last());
        let (out, rest) = chunk_step(p, chunk_len, blocks.last());
        assert(blocks.flatten() == blocks.drop_last().flatten() + blocks.last());
        match out {
            Some(c) => {
                emitted.lemma_flatten_push(c);
                assert(c == p + blocks.last());
                assert(rest.len() == 0);
                assert(emitted.flatten() + p == pending + blocks.drop_last().flatten());
                assert(emitted.push(c).flatten() + rest =~= emitted.flatten() + (p + blocks.last()));
                assert(emitted.flatten() + (p + blocks.last()) =~= (emitted.flatten() + p) + blocks.last());
                assert(pending + blocks.flatten() =~= (pending + blocks.drop_last().flatten()) + blocks.last());
            },
            None => {
                assert(rest == p + blocks.last());
                assert(emitted.flatten() + p == pending + blocks.drop_last().flatten());
                assert(emitted.flatten() + rest =~= (emitted.flatten() + p) + blocks.last());
                assert(pending + blocks.flatten() =~= (pending + blocks.drop_last().flatten()) + blocks.last());
            },
        }
    }
}

} // verus!

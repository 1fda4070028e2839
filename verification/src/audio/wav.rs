//! WAV encoding of 16-bit mono samples for the speech-to-text upload.
use vstd::prelude::*;

verus! {

/// `v` as two little-endian bytes.
pub open spec fn le16(v: int) -> Seq<u8> {
    seq![(v % 256) as u8, ((v / 256) % 256) as u8]
}

/// `v` as four little-endian bytes.
pub open spec fn le32(v: int) -> Seq<u8> {
    seq![(v % 256) as u8, ((v / 256) % 256) as u8, ((v / 65536) % 256) as u8, ((v / 16777216) % 256) as u8]
}

/// The samples as little-endian two's-complement 16-bit values.
pub open spec fn pcm16_le(samples: Seq<i16>) -> Seq<u8>
    decreases samples.len(),
{
    if samples.len() == 0 {
        Seq::empty()
    } else {
        pcm16_le(samples.drop_last()) + le16(samples.last() as int + if samples.last() < 0 { 65536int } else { 0int })
    }
}

/// The 44-byte header of a 16-bit mono PCM WAV file with `n` samples:
/// `RIFF` chunk, `fmt ` chunk (PCM, one channel, the rate, two bytes a
/// sample) and the `data` chunk header.
pub open spec fn wav_header(n: nat, sample_rate: u32) -> Seq<u8> {
    seq![82u8, 73, 70, 70] + le32(36 + 2 * n as int) + seq![87u8, 65, 86, 69] + seq![102u8, 109, 116, 32]
        + le32(16) + le16(1) + le16(1) + le32(sample_rate as int) + le32(2 * sample_rate) + le16(2)
        + le16(16) + seq![100u8, 97, 116, 97] + le32(2 * n as int)
}

/// A 16-bit mono PCM WAV file holding `samples` at `sample_rate`.
pub open spec fn wav_pcm16(samples: Seq<i16>, sample_rate: u32) -> Seq<u8> {
    wav_header(samples.len(), sample_rate) + pcm16_le(samples)
}

/// Whether hound can write these samples without panicking: the rate is not
/// zero (it divides by it), and the byte rate and the file size fit in 32
/// bits.
pub open spec fn wav_fits(n: nat, sample_rate: u32) -> bool {
    &&& sample_rate > 0
    &&& 2 * sample_rate <= u32::MAX
    &&& 36 + 2 * n <= u32::MAX
}

/// `hound::WavWriter` over an in-memory buffer, with a mono 16-bit integer
/// spec, one `write_sample` per sample, then `finalize`. Claimed: it
/// succeeds, and the bytes are the canonical 44-byte PCM header (hound writes
/// the plain PCM format for up to two channels and 16 bits) followed by the
/// samples in little-endian order. It cannot fail here: 16 bits is a
/// supported depth, writes and seeks on an in-memory buffer do not fail, and
/// with one channel no sample is left unfinished. `requires` leaves out
/// hound's panics (a zero rate, 32-bit overflows).
#[verifier::external_body]
fn hound_write_pcm16(samples: &[i16], sample_rate: u32) -> (r: Result<Vec<u8>, String>)
    requires
        wav_fits(samples@.len(), sample_rate),
    ensures
        r is Ok,
        r matches Ok(b) ==> b@ == wav_pcm16(samples@, sample_rate),
{
    let mut cursor = std::io::Cursor::new(Vec::new());
    let spec = hound::WavSpec {
        channels: 1,
        sample_rate,
        bits_per_sample: 16,
        sample_format: hound::SampleFormat::Int,
    };
    let mut writer = hound::WavWriter::new(&mut cursor, spec).map_err(|e| e.to_string())?;
    for &s in samples {
        writer.write_sample(s).map_err(|e| e.to_string())?;
    }
    writer.finalize().map_err(|e| e.to_string())?;
    Ok(cursor.into_inner())
}

/// Encodes 16-bit samples as a mono PCM WAV file in memory; this always
/// succeeds.
pub fn encode_wav(samples: &[i16], sample_rate: u32) -> (r: Result<Vec<u8>, String>)
    requires
        wav_fits(samples@.len(), sample_rate),
    ensures
        r is Ok,
        r matches Ok(b) ==> b@ == wav_pcm16(samples@, sample_rate),
{
    hound_write_pcm16(samples, sample_rate)
}

} // verus!

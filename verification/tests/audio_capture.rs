use invisible_agent::audio::wav::encode_wav;
use invisible_agent::audio::capture::{AudioCapture, SampleChunker};

#[test]
fn capture_flag_follows_start_and_stop() {
    let mut c = AudioCapture::new();
    assert!(!c.is_recording());
    c.start();
    assert!(c.is_recording());
    c.start();
    assert!(c.is_recording());
    c.stop();
    assert!(!c.is_recording());
}

#[test]
fn chunk_emitted_once_full() {
    let mut ch: SampleChunker<i16> = SampleChunker::new(4);
    assert_eq!(ch.push(&[1, 2]), None);
    assert_eq!(ch.push(&[3]), None);
    assert_eq!(ch.push(&[4, 5]), Some(vec![1, 2, 3, 4, 5]));
    assert_eq!(ch.push(&[6, 7, 8, 9]), Some(vec![6, 7, 8, 9]));
    assert_eq!(ch.push(&[]), None);
}

#[test]
fn zero_length_chunks_emit_every_block() {
    let mut ch: SampleChunker<u8> = SampleChunker::new(0);
    assert_eq!(ch.push(&[]), Some(vec![]));
    assert_eq!(ch.push(&[1]), Some(vec![1]));
}

#[test]
fn two_seconds_at_sample_rate() {
    let mut ch: SampleChunker<u8> = SampleChunker::for_sample_rate(3);
    assert_eq!(ch.push(&[0; 5]), None);
    assert_eq!(ch.push(&[1]), Some(vec![0, 0, 0, 0, 0, 1]));
}

#[test]
fn law_chunking_keeps_samples() {
    let blocks: Vec<Vec<u32>> = vec![vec![1, 2, 3], vec![], vec![4], vec![5, 6, 7, 8, 9, 10], vec![11]];
    let mut ch: SampleChunker<u32> = SampleChunker::new(5);
    let mut emitted: Vec<u32> = Vec::new();
    for b in &blocks {
        if let Some(c) = ch.push(b) {
            assert!(c.len() >= 5);
            emitted.extend(c);
        }
    }
    assert_eq!(emitted, (1..=10).collect::<Vec<u32>>());
    // what is still pending comes out with the next full chunk
    let rest = ch.push(&[12, 13, 14, 15]).unwrap();
    assert_eq!(rest, vec![11, 12, 13, 14, 15]);
}

#[test]
fn law_last_call_wins() {
    let mut c = AudioCapture::new();
    c.stop();
    assert!(!c.is_recording());
    c.start();
    c.stop();
    c.start();
    assert!(c.is_recording());
    assert!(c.is_recording());
}

#[test]
fn wav_encoding_of_two_samples() {
    let bytes = encode_wav(&[1, -2], 16000).unwrap();
    let mut expected: Vec<u8> = Vec::new();
    expected.extend(b"RIFF");
    expected.extend(40u32.to_le_bytes());
    expected.extend(b"WAVEfmt ");
    expected.extend(16u32.to_le_bytes());
    expected.extend(1u16.to_le_bytes());
    expected.extend(1u16.to_le_bytes());
    expected.extend(16000u32.to_le_bytes());
    expected.extend(32000u32.to_le_bytes());
    expected.extend(2u16.to_le_bytes());
    expected.extend(16u16.to_le_bytes());
    expected.extend(b"data");
    expected.extend(4u32.to_le_bytes());
    expected.extend([0x01, 0x00, 0xfe, 0xff]);
    assert_eq!(bytes, expected);
}

#[test]
fn wav_encoding_of_no_samples() {
    let bytes = encode_wav(&[], 8000).unwrap();
    assert_eq!(bytes.len(), 44);
    assert_eq!(&bytes[40..44], &[0, 0, 0, 0]);
}

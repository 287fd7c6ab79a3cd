use aac::reference::wav::{parse, WavError};

fn wav(tag: u16, channels: u16, rate: u32, bits: u16, samples: &[i16]) -> Vec<u8> {
    let data_len = (samples.len() * 2) as u32;
    let mut out = Vec::new();
    out.extend_from_slice(b"RIFF");
    out.extend_from_slice(&(36 + data_len).to_le_bytes());
    out.extend_from_slice(b"WAVEfmt ");
    out.extend_from_slice(&16u32.to_le_bytes());
    out.extend_from_slice(&tag.to_le_bytes());
    out.extend_from_slice(&channels.to_le_bytes());
    out.extend_from_slice(&rate.to_le_bytes());
    out.extend_from_slice(&(rate * u32::from(channels) * 2).to_le_bytes());
    out.extend_from_slice(&(channels * 2).to_le_bytes());
    out.extend_from_slice(&bits.to_le_bytes());
    out.extend_from_slice(b"data");
    out.extend_from_slice(&data_len.to_le_bytes());
    for s in samples {
        out.extend_from_slice(&s.to_le_bytes());
    }
    out
}

#[test]
fn pcm_wav_is_read() {
    let w = parse(&wav(1, 2, 48000, 16, &[1, -1, 32767, -32768])).unwrap();
    assert_eq!(w.rate, 48000);
    assert_eq!(w.channels, 2);
    assert_eq!(w.samples, vec![1, -1, 32767, -32768]);
}

#[test]
fn streamed_data_length_is_cut_at_the_end() {
    let mut bytes = wav(0xfffe, 1, 44100, 16, &[5, 6]);
    let at = bytes.len() - 8;
    bytes[at..at + 4].copy_from_slice(&0xffff_ffffu32.to_le_bytes());
    let w = parse(&bytes).unwrap();
    assert_eq!(w.samples, vec![5, 6]);
}

#[test]
fn other_files_are_refused() {
    assert_eq!(parse(b"RIFX\0\0\0\0WAVE").unwrap_err(), WavError::NotRiffWave);
    assert_eq!(parse(&wav(3, 1, 48000, 32, &[])).unwrap_err(), WavError::UnsupportedFormat { tag: 3, bits: 32 });
    let mut no_data = wav(1, 1, 48000, 16, &[]);
    no_data.truncate(36);
    assert_eq!(parse(&no_data).unwrap_err(), WavError::NoDataChunk);
    assert_eq!(parse(b"RIFF\0\0\0\0WAVE").unwrap_err(), WavError::NoFmtChunk);
}

#[test]
fn written_wav_is_read_back() {
    let samples = [0i16, 1, -1, 32767, -32768, 1234];
    let bytes = aac::reference::wav::wav(48000, 2, &samples);
    assert_eq!(bytes, wav(1, 2, 48000, 16, &samples));
    assert_eq!(bytes.len(), 44 + 12);
    assert_eq!(bytes[28..32], 192_000u32.to_le_bytes());
    let w = parse(&bytes).unwrap();
    assert_eq!((w.rate, w.channels, w.samples), (48000, 2, samples.to_vec()));
}

#[test]
fn an_empty_wav_has_the_header_alone() {
    let bytes = aac::reference::wav::wav(32000, 1, &[]);
    assert_eq!(bytes.len(), 44);
    assert_eq!(bytes[0..4], *b"RIFF");
    assert_eq!(bytes[4..8], 36u32.to_le_bytes());
    assert_eq!(parse(&bytes).unwrap().samples, Vec::<i16>::new());
}

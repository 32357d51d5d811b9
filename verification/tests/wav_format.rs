use feed::wav::{check_offline_input, parse_wav, FormatError};

fn le16(v: u16) -> [u8; 2] {
    [(v & 0xff) as u8, (v >> 8) as u8]
}

fn le32(v: u32) -> [u8; 4] {
    [(v & 0xff) as u8, ((v >> 8) & 0xff) as u8, ((v >> 16) & 0xff) as u8, (v >> 24) as u8]
}

fn wav_bytes(rate: u32, channels: u16, bits: u16, data: &[u8], leading_chunk: bool) -> Vec<u8> {
    let mut v = Vec::new();
    v.extend_from_slice(b"RIFF");
    v.extend_from_slice(&le32(0)); // container size, not read
    v.extend_from_slice(b"WAVE");
    if leading_chunk {
        // An unrelated chunk with an odd size, padded to an even offset.
        v.extend_from_slice(b"LIST");
        v.extend_from_slice(&le32(3));
        v.extend_from_slice(&[1, 2, 3, 0]);
    }
    v.extend_from_slice(b"fmt ");
    v.extend_from_slice(&le32(16));
    v.extend_from_slice(&le16(1)); // PCM
    v.extend_from_slice(&le16(channels));
    v.extend_from_slice(&le32(rate));
    v.extend_from_slice(&le32(rate * channels as u32 * (bits as u32 / 8)));
    v.extend_from_slice(&le16(channels * bits / 8));
    v.extend_from_slice(&le16(bits));
    v.extend_from_slice(b"data");
    v.extend_from_slice(&le32(data.len() as u32));
    v.extend_from_slice(data);
    v
}

#[test]
fn supported_wav_parses_with_its_fields() {
    let samples = [0u8; 16];
    let bytes = wav_bytes(48000, 2, 16, &samples, false);
    let f = parse_wav(&bytes).unwrap();
    assert_eq!(f.audio_format, 1);
    assert_eq!(f.channels, 2);
    assert_eq!(f.sample_rate, 48000);
    assert_eq!(f.bits_per_sample, 16);
    assert_eq!(f.data_len, 16);
    assert_eq!(&bytes[f.data_start..f.data_start + f.data_len], &samples);
    assert!(check_offline_input(&bytes).is_ok());
}

#[test]
fn chunk_walk_skips_unrelated_chunks_with_padding() {
    let samples = [7u8; 8];
    let bytes = wav_bytes(48000, 2, 16, &samples, true);
    let f = parse_wav(&bytes).unwrap();
    assert_eq!(f.sample_rate, 48000);
    assert_eq!(f.data_len, 8);
    assert_eq!(&bytes[f.data_start..f.data_start + f.data_len], &samples);
}

#[test]
fn mono_input_is_rejected_as_unsupported() {
    // A 48000 Hz mono file must be reported as a format error before any
    // byte is written.
    let bytes = wav_bytes(48000, 1, 16, &[0u8; 8], false);
    assert!(parse_wav(&bytes).is_ok());
    assert!(matches!(check_offline_input(&bytes), Err(FormatError::Unsupported)));
}

#[test]
fn wrong_rate_and_wrong_depth_are_rejected() {
    let bytes = wav_bytes(44100, 2, 16, &[0u8; 8], false);
    assert!(matches!(check_offline_input(&bytes), Err(FormatError::Unsupported)));
    let bytes = wav_bytes(48000, 2, 8, &[0u8; 8], false);
    assert!(matches!(check_offline_input(&bytes), Err(FormatError::Unsupported)));
}

#[test]
fn garbage_and_truncation_are_malformed() {
    assert!(matches!(parse_wav(&vec![]), Err(FormatError::Malformed)));
    assert!(matches!(parse_wav(&vec![0u8; 11]), Err(FormatError::Malformed)));
    let not_riff = vec![b'X'; 64];
    assert!(matches!(parse_wav(&not_riff), Err(FormatError::Malformed)));
    // A data chunk whose declared size runs past the end of the file.
    let mut truncated = wav_bytes(48000, 2, 16, &[0u8; 8], false);
    truncated.truncate(truncated.len() - 4);
    assert!(matches!(parse_wav(&truncated), Err(FormatError::Malformed)));
    assert!(matches!(check_offline_input(&truncated), Err(FormatError::Malformed)));
}

#[test]
fn missing_fmt_chunk_is_malformed() {
    let mut v = Vec::new();
    v.extend_from_slice(b"RIFF");
    v.extend_from_slice(&le32(0));
    v.extend_from_slice(b"WAVE");
    v.extend_from_slice(b"data");
    v.extend_from_slice(&le32(4));
    v.extend_from_slice(&[0u8; 4]);
    assert!(matches!(parse_wav(&v), Err(FormatError::Malformed)));
}

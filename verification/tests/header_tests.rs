use wav_check::error::{ValidationKind, WavHeaderError};
use wav_check::wav_header::{validate_header, WavHeader};
use wav_check::wav_header_parser::{parse_wav_header, read_header};

/// The canonical 44-byte stream: "RIFF" + chunkSize(36) + "WAVE" +
/// "fmt " + 16 + audioFormat(1) + numChannels(1) + sampleRate(44100) +
/// byteRate(88200) + blockAlign(2) + bitsPerSample(16) + "data" +
/// dataSize(0).
fn canonical_bytes() -> Vec<u8> {
    let mut v: Vec<u8> = Vec::new();
    v.extend_from_slice(b"RIFF");
    v.extend_from_slice(&36u32.to_le_bytes());
    v.extend_from_slice(b"WAVE");
    v.extend_from_slice(b"fmt ");
    v.extend_from_slice(&16u32.to_le_bytes());
    v.extend_from_slice(&1u16.to_le_bytes());
    v.extend_from_slice(&1u16.to_le_bytes());
    v.extend_from_slice(&44100u32.to_le_bytes());
    v.extend_from_slice(&88200u32.to_le_bytes());
    v.extend_from_slice(&2u16.to_le_bytes());
    v.extend_from_slice(&16u16.to_le_bytes());
    v.extend_from_slice(b"data");
    v.extend_from_slice(&0u32.to_le_bytes());
    v
}

/// A header whose every field satisfies the validator, for the given
/// channel count and bit depth.
fn consistent_header(num_channels: u16, bits_per_sample: u16) -> WavHeader {
    let bytes_per_sample = (bits_per_sample / 8) as u32;
    WavHeader {
        chunk_id: *b"RIFF",
        chunk_size: 36,
        format: *b"WAVE",
        subchunk1_id: *b"fmt ",
        subchunk1_size: 16,
        audio_format: 1,
        num_channels,
        sample_rate: 44100,
        byte_rate: 44100 * (num_channels as u32) * bytes_per_sample,
        block_align: num_channels * (bits_per_sample / 8),
        bits_per_sample,
        subchunk2_id: *b"data",
        subchunk2_size: 0,
    }
}

fn validation_err(h: &WavHeader) -> ValidationKind {
    match validate_header(h) {
        Ok(_) => panic!("header unexpectedly validated"),
        Err(WavHeaderError::Validation(kind)) => kind,
        Err(WavHeaderError::Io) => panic!("validation cannot fail at the stream level"),
    }
}

#[test]
fn test_parse_canonical_header() {
    let bytes = canonical_bytes();
    assert_eq!(bytes.len(), 44);
    let validated = parse_wav_header(&bytes).unwrap();
    let h = validated.header();
    assert_eq!(&h.chunk_id, b"RIFF");
    assert_eq!(h.chunk_size, 36);
    assert_eq!(&h.format, b"WAVE");
    assert_eq!(&h.subchunk1_id, b"fmt ");
    assert_eq!(h.subchunk1_size, 16);
    assert_eq!(h.audio_format, 1);
    assert_eq!(h.num_channels, 1);
    assert_eq!(h.sample_rate, 44100);
    assert_eq!(h.byte_rate, 88200);
    assert_eq!(h.block_align, 2);
    assert_eq!(h.bits_per_sample, 16);
    assert_eq!(&h.subchunk2_id, b"data");
    assert_eq!(h.subchunk2_size, 0);
}

#[test]
fn test_parse_case_different_fmt_tag() {
    let mut bytes = canonical_bytes();
    bytes[12..16].copy_from_slice(b"FMT ");
    assert_eq!(
        parse_wav_header(&bytes),
        Err(WavHeaderError::Validation(ValidationKind::InvalidSubchunk1Id))
    );
}

#[test]
fn test_short_input_is_stream_error() {
    let bytes = canonical_bytes();
    for len in 0..44 {
        let prefix: Vec<u8> = bytes[..len].to_vec();
        assert_eq!(read_header(&prefix).unwrap_err(), WavHeaderError::Io);
        assert_eq!(parse_wav_header(&prefix).unwrap_err(), WavHeaderError::Io);
    }
}

#[test]
fn test_reader_does_not_validate() {
    let mut bytes = canonical_bytes();
    bytes[0..4].copy_from_slice(b"XXXX");
    let h = read_header(&bytes).unwrap();
    assert_eq!(&h.chunk_id, b"XXXX");
}

#[test]
fn test_corrupted_chunk_id() {
    let mut bytes = canonical_bytes();
    bytes[0..4].copy_from_slice(b"RIFX");
    assert_eq!(
        parse_wav_header(&bytes),
        Err(WavHeaderError::Validation(ValidationKind::InvalidChunkId))
    );
}

#[test]
fn test_corrupted_format_tag() {
    let mut bytes = canonical_bytes();
    bytes[8..12].copy_from_slice(b"WAVX");
    assert_eq!(
        parse_wav_header(&bytes),
        Err(WavHeaderError::Validation(ValidationKind::InvalidFormat))
    );
}

#[test]
fn test_corrupted_data_tag() {
    let mut bytes = canonical_bytes();
    bytes[36..40].copy_from_slice(b"DATA");
    assert_eq!(
        parse_wav_header(&bytes),
        Err(WavHeaderError::Validation(ValidationKind::InvalidSubchunk2Id))
    );
}

#[test]
fn test_consistent_rates_validate() {
    for &ch in &[1u16, 2] {
        for &bits in &[8u16, 16, 24, 32] {
            let h = consistent_header(ch, bits);
            let validated = validate_header(&h).unwrap();
            assert_eq!(validated.header(), h);
        }
    }
}

#[test]
fn test_byte_rate_perturbation() {
    for &ch in &[1u16, 2] {
        for &bits in &[8u16, 16, 24, 32] {
            let mut h = consistent_header(ch, bits);
            h.byte_rate += 1;
            assert_eq!(validation_err(&h), ValidationKind::InvalidByteRate);
            let mut h = consistent_header(ch, bits);
            h.byte_rate -= 1;
            assert_eq!(validation_err(&h), ValidationKind::InvalidByteRate);
        }
    }
}

#[test]
fn test_invalid_channel_counts() {
    for &ch in &[0u16, 3, 4, 100] {
        // Keep the derived fields consistent with the bad channel count:
        // the failure must still be the channel-count kind.
        let mut h = consistent_header(1, 16);
        h.num_channels = ch;
        h.byte_rate = 44100u32.wrapping_mul(ch as u32).wrapping_mul(2);
        h.block_align = ch.wrapping_mul(2);
        assert_eq!(validation_err(&h), ValidationKind::InvalidNumChannels);
    }
}

#[test]
fn test_invalid_sample_rates() {
    for &rate in &[0u32, 8000, 22050, 44099, 44101, 48000, 96000] {
        // Keep the derived fields consistent with the bad rate: the
        // failure must still be the sample-rate kind.
        let mut h = consistent_header(2, 16);
        h.sample_rate = rate;
        h.byte_rate = rate.wrapping_mul(2).wrapping_mul(2);
        assert_eq!(validation_err(&h), ValidationKind::InvalidSampleRate);
    }
}

#[test]
fn test_invalid_audio_format() {
    let mut h = consistent_header(1, 16);
    h.audio_format = 2;
    assert_eq!(validation_err(&h), ValidationKind::InvalidAudioFormat);
}

#[test]
fn test_invalid_bits_per_sample() {
    for &bits in &[1u16, 7, 12, 17] {
        let mut h = consistent_header(1, 16);
        h.bits_per_sample = bits;
        assert_eq!(validation_err(&h), ValidationKind::InvalidBitsPerSample);
    }
    let mut h = consistent_header(1, 16);
    h.bits_per_sample = 0;
    h.byte_rate = 0;
    h.block_align = 0;
    assert_eq!(validation_err(&h), ValidationKind::InvalidBitsPerSample);
}

#[test]
fn test_invalid_block_align() {
    let mut h = consistent_header(2, 16);
    h.block_align = 3;
    assert_eq!(validation_err(&h), ValidationKind::InvalidBlockAlign);
}

#[test]
fn test_invalid_subchunk1_size() {
    let mut h = consistent_header(1, 16);
    h.subchunk1_size = 15;
    assert_eq!(validation_err(&h), ValidationKind::InvalidSubchunk1Size);
}

#[test]
fn test_invalid_chunk_size() {
    let mut h = consistent_header(1, 16);
    h.chunk_size = 35;
    assert_eq!(validation_err(&h), ValidationKind::InvalidChunkSize);
}

#[test]
fn test_wav_header_new_valid() {
    let h = WavHeader::new(
        *b"RIFF",
        36,
        *b"WAVE",
        *b"fmt ",
        16,
        1,
        2,
        44100,
        176400,
        4,
        16,
        *b"data",
        0,
    )
    .unwrap();
    assert_eq!(h, consistent_header(2, 16));
}

#[test]
fn test_wav_header_new_invalid() {
    let r = WavHeader::new(
        *b"RIFF",
        36,
        *b"WAVE",
        *b"fmt ",
        16,
        7,
        2,
        44100,
        176400,
        4,
        16,
        *b"data",
        0,
    );
    assert_eq!(
        r,
        Err(WavHeaderError::Validation(ValidationKind::InvalidAudioFormat))
    );
}

#[test]
fn test_pipeline_idempotent() {
    let good = canonical_bytes();
    let first = parse_wav_header(&good).unwrap().header();
    let second = parse_wav_header(&good).unwrap().header();
    assert_eq!(first, second);

    let mut bad = canonical_bytes();
    bad[0] = b'X';
    assert_eq!(parse_wav_header(&bad), parse_wav_header(&bad));

    let short = good[..20].to_vec();
    assert_eq!(parse_wav_header(&short), parse_wav_header(&short));
}

#[test]
fn test_error_messages() {
    assert_eq!(
        WavHeaderError::Io.message(),
        "Failed to read file: header is truncated"
    );
    assert_eq!(
        WavHeaderError::Validation(ValidationKind::InvalidChunkId).message(),
        "Invalid chunk ID"
    );
    assert_eq!(
        ValidationKind::InvalidNumChannels.message(),
        "Invalid number of channels"
    );
    assert_eq!(ValidationKind::InvalidSampleRate.message(), "Invalid sample rate");
    assert_eq!(ValidationKind::InvalidByteRate.message(), "Invalid byte rate");
    assert_eq!(ValidationKind::InvalidBlockAlign.message(), "Invalid block align");
    assert_eq!(
        ValidationKind::InvalidBitsPerSample.message(),
        "Invalid bits per sample"
    );
    assert_eq!(ValidationKind::InvalidChunkSize.message(), "Invalid chunk size");
    assert_eq!(
        wav_check::error::InvalidWavHeaderError.message(),
        "Invalid WAV file header"
    );
}

#[test]
fn test_describe_canonical_header() {
    let h = consistent_header(1, 16);
    let text = h.describe().unwrap();
    assert_eq!(
        text,
        "Chunk ID: RIFF\nChunk Size: 36\nFormat: WAVE\nSubchunk ID: fmt \nSubchunk Size: 16\n\
         Audio Format: 1\nNumber of Channels: 1\nSample Rate: 44100\nByte Rate: 88200\n\
         Block Align: 2\nBits per Sample: 16"
    );
}

#[test]
fn test_describe_invalid_tag_bytes() {
    let mut h = consistent_header(1, 16);
    h.format = [0xFF, 0xFF, 0xFF, 0xFF];
    assert!(h.describe().is_err());
}

#[test]
fn test_unsigned_decimal_string() {
    assert_eq!(wav_check::utils::unsigned_decimal_string(0), "0");
    assert_eq!(wav_check::utils::unsigned_decimal_string(44100), "44100");
    assert_eq!(
        wav_check::utils::unsigned_decimal_string(u64::MAX),
        "18446744073709551615"
    );
}

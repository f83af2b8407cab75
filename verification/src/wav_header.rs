//! The in-memory record of a canonical WAV (RIFF/WAVE PCM) header and its
//! validator.
//!
//! A `WavHeader` holds the thirteen fixed-width fields of the 44-byte
//! canonical header exactly as they were read, uninterpreted. The
//! validator checks every structural and semantic invariant in a fixed
//! order and either wraps the record in a `ValidatedHeader` or reports
//! the first violated invariant, classified by kind.

use vstd::prelude::*;
use vstd::string::StringExecFns;
use vstd::utf8::{decode_utf8, valid_utf8};

use crate::error::{InvalidWavHeaderError, ValidationKind, WavHeaderError};
use crate::utils::{convert_to_string, decimal_chars, unsigned_decimal_string};

verus! {

/// The four-byte tag "RIFF" that opens the outer chunk.
pub open spec fn spec_riff_tag() -> Seq<u8> {
    seq![0x52u8, 0x49u8, 0x46u8, 0x46u8]
}

/// The four-byte tag "WAVE" that names the container's format.
pub open spec fn spec_wave_tag() -> Seq<u8> {
    seq![0x57u8, 0x41u8, 0x56u8, 0x45u8]
}

/// The four-byte tag "fmt " that opens the format subchunk.
pub open spec fn spec_fmt_tag() -> Seq<u8> {
    seq![0x66u8, 0x6du8, 0x74u8, 0x20u8]
}

/// The four-byte tag "data" that opens the sample-data subchunk.
pub open spec fn spec_data_tag() -> Seq<u8> {
    seq![0x64u8, 0x61u8, 0x74u8, 0x61u8]
}

/// The one sample rate the validator accepts.
pub const SUPPORTED_SAMPLE_RATE: u32 = 44100;

/// All thirteen fields of the canonical 44-byte WAV header, in stream
/// order, each exactly as wide as its place in the file. Multi-byte
/// integers were decoded little-endian; no field is interpreted further.
#[derive(Debug, Clone, Copy, PartialEq, Eq)]
pub struct WavHeader {
    pub chunk_id: [u8; 4],
    pub chunk_size: u32,
    pub format: [u8; 4],
    pub subchunk1_id: [u8; 4],
    pub subchunk1_size: u32,
    pub audio_format: u16,
    pub num_channels: u16,
    pub sample_rate: u32,
    pub byte_rate: u32,
    pub block_align: u16,
    pub bits_per_sample: u16,
    pub subchunk2_id: [u8; 4],
    pub subchunk2_size: u32,
}

/// The expected byte rate: bytes per second of audio, the product of the
/// sample rate, the channel count and the width of one sample in bytes.
pub open spec fn expected_byte_rate(h: WavHeader) -> int {
    h.sample_rate * h.num_channels * (h.bits_per_sample as int / 8)
}

/// The expected block alignment: bytes per sample frame across all
/// channels.
pub open spec fn expected_block_align(h: WavHeader) -> int {
    h.num_channels * (h.bits_per_sample as int / 8)
}

/// The first invariant of the header that does not hold, or `None` when
/// the header is fully valid. The checks run in a fixed order: the four
/// magic tags first, then the audio-format marker, the channel count,
/// the sample rate, the bit depth, the two derived-field consistency
/// checks, and last the two minimum-size checks.
pub open spec fn first_violation(h: WavHeader) -> Option<ValidationKind> {
    if h.chunk_id@ != spec_riff_tag() {
        Some(ValidationKind::InvalidChunkId)
    } else if h.format@ != spec_wave_tag() {
        Some(ValidationKind::InvalidFormat)
    } else if h.subchunk1_id@ != spec_fmt_tag() {
        Some(ValidationKind::InvalidSubchunk1Id)
    } else if h.subchunk2_id@ != spec_data_tag() {
        Some(ValidationKind::InvalidSubchunk2Id)
    } else if h.audio_format != 1 {
        Some(ValidationKind::InvalidAudioFormat)
    } else if h.num_channels != 1 && h.num_channels != 2 {
        Some(ValidationKind::InvalidNumChannels)
    } else if h.sample_rate != SUPPORTED_SAMPLE_RATE {
        Some(ValidationKind::InvalidSampleRate)
    } else if !(h.bits_per_sample > 0 && h.bits_per_sample % 8 == 0) {
        Some(ValidationKind::InvalidBitsPerSample)
    } else if h.byte_rate != expected_byte_rate(h) {
        Some(ValidationKind::InvalidByteRate)
    } else if h.block_align != expected_block_align(h) {
        Some(ValidationKind::InvalidBlockAlign)
    } else if h.subchunk1_size < 16 {
        Some(ValidationKind::InvalidSubchunk1Size)
    } else if h.chunk_size < 36 {
        Some(ValidationKind::InvalidChunkSize)
    } else {
        None
    }
}

/// A header is valid exactly when no invariant is violated.
pub open spec fn valid_header(h: WavHeader) -> bool {
    first_violation(h) is None
}

/// A header that passed every validation check. The only way to obtain
/// one is through `validate_header` or `WavHeader::validated`, so a
/// value of this type always wraps a fully valid record.
#[derive(Debug, Clone, Copy, PartialEq, Eq)]
pub struct ValidatedHeader {
    header: WavHeader,
}

impl View for ValidatedHeader {
    type V = WavHeader;

    closed spec fn view(&self) -> WavHeader {
        self.header
    }
}

impl ValidatedHeader {
    #[verifier::type_invariant]
    spec fn type_inv(self) -> bool {
        valid_header(self@)
    }

    /// Two validated values that wrap the same record are the same
    /// value.
    pub proof fn lemma_view_injective(a: ValidatedHeader, b: ValidatedHeader)
        requires
            a@ == b@,
        ensures
            a == b,
    {
    }

    /// The record this validated value wraps, every field unchanged;
    /// it passes every validation check.
    pub fn header(&self) -> (h: WavHeader)
        ensures
            h == self@,
            valid_header(h),
    {
        proof {
            use_type_invariant(&*self);
        }
        self.header
    }
}

/// True when the four bytes of `tag` match `expected` exactly.
fn tag_matches(tag: &[u8; 4], expected: &[u8; 4]) -> (r: bool)
    ensures
        r <==> tag@ == expected@,
{
    let r = tag[0] == expected[0] && tag[1] == expected[1] && tag[2] == expected[2] && tag[3]
        == expected[3];
    proof {
        if r {
            assert(tag@ =~= expected@);
        }
    }
    r
}

/// Checks every invariant of the header in the fixed order of
/// `first_violation` and returns the record, validated, or the first
/// violated invariant, classified by kind. Pure: no field is changed.
pub fn validate_header(h: &WavHeader) -> (r: Result<ValidatedHeader, WavHeaderError>)
    ensures
        r is Ok <==> valid_header(*h),
        r is Ok ==> (r->Ok_0)@ == *h,
        first_violation(*h) matches Some(kind) ==> r == Err::<ValidatedHeader, WavHeaderError>(
            WavHeaderError::Validation(kind),
        ),
{
    if !tag_matches(&h.chunk_id, &[0x52, 0x49, 0x46, 0x46]) {
        return Err(WavHeaderError::Validation(ValidationKind::InvalidChunkId));
    }
    if !tag_matches(&h.format, &[0x57, 0x41, 0x56, 0x45]) {
        return Err(WavHeaderError::Validation(ValidationKind::InvalidFormat));
    }
    if !tag_matches(&h.subchunk1_id, &[0x66, 0x6d, 0x74, 0x20]) {
        return Err(WavHeaderError::Validation(ValidationKind::InvalidSubchunk1Id));
    }
    if !tag_matches(&h.subchunk2_id, &[0x64, 0x61, 0x74, 0x61]) {
        return Err(WavHeaderError::Validation(ValidationKind::InvalidSubchunk2Id));
    }
    if h.audio_format != 1 {
        return Err(WavHeaderError::Validation(ValidationKind::InvalidAudioFormat));
    }
    if h.num_channels != 1 && h.num_channels != 2 {
        return Err(WavHeaderError::Validation(ValidationKind::InvalidNumChannels));
    }
    if h.sample_rate != SUPPORTED_SAMPLE_RATE {
        return Err(WavHeaderError::Validation(ValidationKind::InvalidSampleRate));
    }
    if !(h.bits_per_sample > 0 && h.bits_per_sample % 8 == 0) {
        return Err(WavHeaderError::Validation(ValidationKind::InvalidBitsPerSample));
    }
    let bytes_per_sample: u32 = (h.bits_per_sample / 8) as u32;
    if h.byte_rate != h.sample_rate * (h.num_channels as u32) * bytes_per_sample {
        return Err(WavHeaderError::Validation(ValidationKind::InvalidByteRate));
    }
    if h.block_align != h.num_channels * (h.bits_per_sample / 8) {
        return Err(WavHeaderError::Validation(ValidationKind::InvalidBlockAlign));
    }
    if h.subchunk1_size < 16 {
        return Err(WavHeaderError::Validation(ValidationKind::InvalidSubchunk1Size));
    }
    if h.chunk_size < 36 {
        return Err(WavHeaderError::Validation(ValidationKind::InvalidChunkSize));
    }
    Ok(ValidatedHeader { header: *h })
}

impl WavHeader {
    /// Builds the record from its thirteen fields and validates it.
    /// Returns the populated record when every invariant holds, and the
    /// first violated invariant, classified by kind, otherwise.
    pub fn new(
        chunk_id: [u8; 4],
        chunk_size: u32,
        format: [u8; 4],
        subchunk1_id: [u8; 4],
        subchunk1_size: u32,
        audio_format: u16,
        num_channels: u16,
        sample_rate: u32,
        byte_rate: u32,
        block_align: u16,
        bits_per_sample: u16,
        subchunk2_id: [u8; 4],
        subchunk2_size: u32,
    ) -> (r: Result<WavHeader, WavHeaderError>)
        ensures
            ({
                let h = (WavHeader {
                    chunk_id,
                    chunk_size,
                    format,
                    subchunk1_id,
                    subchunk1_size,
                    audio_format,
                    num_channels,
                    sample_rate,
                    byte_rate,
                    block_align,
                    bits_per_sample,
                    subchunk2_id,
                    subchunk2_size,
                });
                &&& r is Ok <==> valid_header(h)
                &&& r is Ok ==> r == Ok::<WavHeader, WavHeaderError>(h)
                &&& (first_violation(h) matches Some(kind) ==> r == Err::<
                    WavHeader,
                    WavHeaderError,
                >(WavHeaderError::Validation(kind)))
            }),
    {
        let h = WavHeader {
            chunk_id,
            chunk_size,
            format,
            subchunk1_id,
            subchunk1_size,
            audio_format,
            num_channels,
            sample_rate,
            byte_rate,
            block_align,
            bits_per_sample,
            subchunk2_id,
            subchunk2_size,
        };
        match validate_header(&h) {
            Ok(_) => Ok(h),
            Err(e) => Err(e),
        }
    }

    /// The multi-line text describing this record, one labelled line
    /// per field of the format subchunk, tags rendered as text and
    /// integers in decimal.
    pub open spec fn spec_describe(self) -> Seq<char> {
        "Chunk ID: "@ + decode_utf8(self.chunk_id@) + "\nChunk Size: "@ + decimal_chars(
            self.chunk_size as int,
        ) + "\nFormat: "@ + decode_utf8(self.format@) + "\nSubchunk ID: "@ + decode_utf8(
            self.subchunk1_id@,
        ) + "\nSubchunk Size: "@ + decimal_chars(self.subchunk1_size as int) + "\nAudio Format: "@
            + decimal_chars(self.audio_format as int) + "\nNumber of Channels: "@ + decimal_chars(
            self.num_channels as int,
        ) + "\nSample Rate: "@ + decimal_chars(self.sample_rate as int) + "\nByte Rate: "@
            + decimal_chars(self.byte_rate as int) + "\nBlock Align: "@ + decimal_chars(
            self.block_align as int,
        ) + "\nBits per Sample: "@ + decimal_chars(self.bits_per_sample as int)
    }

    /// Renders this record as the labelled multi-line text of
    /// `spec_describe`. Succeeds exactly when the three tags it shows
    /// are valid UTF-8; the record's integers always render.
    pub fn describe(&self) -> (r: Result<String, InvalidWavHeaderError>)
        ensures
            r is Ok <==> valid_utf8(self.chunk_id@) && valid_utf8(self.format@) && valid_utf8(
                self.subchunk1_id@,
            ),
            r is Ok ==> (r->Ok_0)@ == self.spec_describe(),
    {
        let chunk_id_text = match convert_to_string(self.chunk_id) {
            Ok(t) => t,
            Err(e) => {
                return Err(e);
            },
        };
        let format_text = match convert_to_string(self.format) {
            Ok(t) => t,
            Err(e) => {
                return Err(e);
            },
        };
        let subchunk1_id_text = match convert_to_string(self.subchunk1_id) {
            Ok(t) => t,
            Err(e) => {
                return Err(e);
            },
        };
        let mut s = String::new();
        s.append("Chunk ID: ");
        s.append(chunk_id_text.as_str());
        s.append("\nChunk Size: ");
        s.append(unsigned_decimal_string(self.chunk_size as u64).as_str());
        s.append("\nFormat: ");
        s.append(format_text.as_str());
        s.append("\nSubchunk ID: ");
        s.append(subchunk1_id_text.as_str());
        s.append("\nSubchunk Size: ");
        s.append(unsigned_decimal_string(self.subchunk1_size as u64).as_str());
        s.append("\nAudio Format: ");
        s.append(unsigned_decimal_string(self.audio_format as u64).as_str());
        s.append("\nNumber of Channels: ");
        s.append(unsigned_decimal_string(self.num_channels as u64).as_str());
        s.append("\nSample Rate: ");
        s.append(unsigned_decimal_string(self.sample_rate as u64).as_str());
        s.append("\nByte Rate: ");
        s.append(unsigned_decimal_string(self.byte_rate as u64).as_str());
        s.append("\nBlock Align: ");
        s.append(unsigned_decimal_string(self.block_align as u64).as_str());
        s.append("\nBits per Sample: ");
        s.append(unsigned_decimal_string(self.bits_per_sample as u64).as_str());
        Ok(s)
    }

    /// Validates this record; same checks and classification as
    /// `validate_header`.
    pub fn validated(&self) -> (r: Result<ValidatedHeader, WavHeaderError>)
        ensures
            r is Ok <==> valid_header(*self),
            r is Ok ==> (r->Ok_0)@ == *self,
            first_violation(*self) matches Some(kind) ==> r == Err::<
                ValidatedHeader,
                WavHeaderError,
            >(WavHeaderError::Validation(kind)),
    {
        validate_header(self)
    }
}

/// True when all four magic tags of the header carry their expected
/// values.
pub open spec fn tags_valid(h: WavHeader) -> bool {
    &&& h.chunk_id@ == spec_riff_tag()
    &&& h.format@ == spec_wave_tag()
    &&& h.subchunk1_id@ == spec_fmt_tag()
    &&& h.subchunk2_id@ == spec_data_tag()
}

/// Corrupting one magic tag while the tags checked before it are intact
/// makes validation fail with exactly that tag's kind, whatever every
/// other field of the header holds.
pub proof fn lemma_corrupted_tag_kind(h: WavHeader)
    ensures
        h.chunk_id@ != spec_riff_tag() ==> first_violation(h) == Some(
            ValidationKind::InvalidChunkId,
        ),
        h.chunk_id@ == spec_riff_tag() && h.format@ != spec_wave_tag() ==> first_violation(h)
            == Some(ValidationKind::InvalidFormat),
        h.chunk_id@ == spec_riff_tag() && h.format@ == spec_wave_tag() && h.subchunk1_id@
            != spec_fmt_tag() ==> first_violation(h) == Some(ValidationKind::InvalidSubchunk1Id),
        h.chunk_id@ == spec_riff_tag() && h.format@ == spec_wave_tag() && h.subchunk1_id@
            == spec_fmt_tag() && h.subchunk2_id@ != spec_data_tag() ==> first_violation(h) == Some(
            ValidationKind::InvalidSubchunk2Id,
        ),
{
}

/// For the supported sample rate, either channel count and any of the
/// common bit depths, a header whose byte rate and block alignment are
/// computed exactly by the derived-field formulas validates.
pub proof fn lemma_consistent_header_validates(h: WavHeader)
    requires
        tags_valid(h),
        h.audio_format == 1,
        h.num_channels == 1 || h.num_channels == 2,
        h.sample_rate == SUPPORTED_SAMPLE_RATE,
        h.bits_per_sample == 8 || h.bits_per_sample == 16 || h.bits_per_sample == 24
            || h.bits_per_sample == 32,
        h.byte_rate == h.sample_rate * h.num_channels * (h.bits_per_sample as int / 8),
        h.block_align == h.num_channels * (h.bits_per_sample as int / 8),
        h.subchunk1_size >= 16,
        h.chunk_size >= 36,
    ensures
        valid_header(h),
{
}

/// Perturbing the byte rate of an otherwise consistent header by one in
/// either direction fails with the byte-rate kind and nothing else.
pub proof fn lemma_byte_rate_perturbation(h: WavHeader)
    requires
        tags_valid(h),
        h.audio_format == 1,
        h.num_channels == 1 || h.num_channels == 2,
        h.sample_rate == SUPPORTED_SAMPLE_RATE,
        h.bits_per_sample == 8 || h.bits_per_sample == 16 || h.bits_per_sample == 24
            || h.bits_per_sample == 32,
        h.byte_rate == expected_byte_rate(h) + 1 || h.byte_rate == expected_byte_rate(h) - 1,
    ensures
        first_violation(h) == Some(ValidationKind::InvalidByteRate),
{
}

/// A channel count outside {1, 2} always fails with the channel-count
/// kind, however consistent every later-checked field may be with it.
pub proof fn lemma_bad_channel_count_kind(h: WavHeader)
    requires
        tags_valid(h),
        h.audio_format == 1,
        h.num_channels != 1 && h.num_channels != 2,
    ensures
        first_violation(h) == Some(ValidationKind::InvalidNumChannels),
{
}

/// A sample rate other than the one supported rate always fails with the
/// sample-rate kind, even when the byte rate and block alignment were
/// computed consistently with that other rate.
pub proof fn lemma_bad_sample_rate_kind(h: WavHeader)
    requires
        tags_valid(h),
        h.audio_format == 1,
        h.num_channels == 1 || h.num_channels == 2,
        h.sample_rate != SUPPORTED_SAMPLE_RATE,
    ensures
        first_violation(h) == Some(ValidationKind::InvalidSampleRate),
{
}

} // verus!

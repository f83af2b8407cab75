//! Error taxonomy for reading and validating a canonical WAV header.
//!
//! There are two disjoint failure families: a stream-level failure (the
//! input holds fewer bytes than the fixed header requires) and a
//! validation failure carrying the one invariant that was violated first.

use vstd::prelude::*;

verus! {

/// The single invariant of the canonical WAV header that a validation
/// failure reports, one kind per check.
#[derive(Debug, Clone, Copy, PartialEq, Eq, Structural)]
pub enum ValidationKind {
    InvalidChunkId,
    InvalidFormat,
    InvalidSubchunk1Id,
    InvalidSubchunk2Id,
    InvalidAudioFormat,
    InvalidNumChannels,
    InvalidSampleRate,
    InvalidBitsPerSample,
    InvalidByteRate,
    InvalidBlockAlign,
    InvalidSubchunk1Size,
    InvalidChunkSize,
}

/// Any failure of the header pipeline: either the byte source was too
/// short to hold the full header, or the header was read in full and one
/// of its invariants does not hold.
#[derive(Debug, Clone, Copy, PartialEq, Eq, Structural)]
pub enum WavHeaderError {
    /// Stream-level failure: fewer bytes were available than a field
    /// of the header requires.
    Io,
    /// The header was read in full but violates the named invariant.
    Validation(ValidationKind),
}

/// Marker error: a value that should render as part of a WAV header
/// description could not be converted to text.
#[derive(Debug, Clone, Copy, PartialEq, Eq, Structural)]
pub struct InvalidWavHeaderError;

impl ValidationKind {
    /// The human-readable line describing this validation failure.
    pub open spec fn spec_message(self) -> Seq<char> {
        match self {
            ValidationKind::InvalidChunkId => "Invalid chunk ID"@,
            ValidationKind::InvalidFormat => "Invalid format"@,
            ValidationKind::InvalidSubchunk1Id => "Invalid subchunk ID"@,
            ValidationKind::InvalidSubchunk2Id => "Invalid data chunk ID"@,
            ValidationKind::InvalidAudioFormat => "Invalid audio format"@,
            ValidationKind::InvalidNumChannels => "Invalid number of channels"@,
            ValidationKind::InvalidSampleRate => "Invalid sample rate"@,
            ValidationKind::InvalidBitsPerSample => "Invalid bits per sample"@,
            ValidationKind::InvalidByteRate => "Invalid byte rate"@,
            ValidationKind::InvalidBlockAlign => "Invalid block align"@,
            ValidationKind::InvalidSubchunk1Size => "Invalid subchunk size"@,
            ValidationKind::InvalidChunkSize => "Invalid chunk size"@,
        }
    }

    pub fn message(&self) -> (m: &'static str)
        ensures
            m@ == self.spec_message(),
    {
        match self {
            ValidationKind::InvalidChunkId => "Invalid chunk ID",
            ValidationKind::InvalidFormat => "Invalid format",
            ValidationKind::InvalidSubchunk1Id => "Invalid subchunk ID",
            ValidationKind::InvalidSubchunk2Id => "Invalid data chunk ID",
            ValidationKind::InvalidAudioFormat => "Invalid audio format",
            ValidationKind::InvalidNumChannels => "Invalid number of channels",
            ValidationKind::InvalidSampleRate => "Invalid sample rate",
            ValidationKind::InvalidBitsPerSample => "Invalid bits per sample",
            ValidationKind::InvalidByteRate => "Invalid byte rate",
            ValidationKind::InvalidBlockAlign => "Invalid block align",
            ValidationKind::InvalidSubchunk1Size => "Invalid subchunk size",
            ValidationKind::InvalidChunkSize => "Invalid chunk size",
        }
    }
}

impl WavHeaderError {
    /// The human-readable line describing this failure.
    pub open spec fn spec_message(self) -> Seq<char> {
        match self {
            WavHeaderError::Io => "Failed to read file: header is truncated"@,
            WavHeaderError::Validation(kind) => kind.spec_message(),
        }
    }

    pub fn message(&self) -> (m: &'static str)
        ensures
            m@ == self.spec_message(),
    {
        match self {
            WavHeaderError::Io => "Failed to read file: header is truncated",
            WavHeaderError::Validation(kind) => kind.message(),
        }
    }
}

impl InvalidWavHeaderError {
    /// The human-readable line describing this failure.
    pub open spec fn spec_message(self) -> Seq<char> {
        "Invalid WAV file header"@
    }

    pub fn message(&self) -> (m: &'static str)
        ensures
            m@ == self.spec_message(),
    {
        "Invalid WAV file header"
    }
}

} // verus!

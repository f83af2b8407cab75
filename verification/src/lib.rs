//! Inspection of canonical WAV (RIFF/WAVE PCM) file headers: reading the
//! fixed 44-byte header off the front of a byte buffer, validating every
//! structural and semantic invariant, and reporting a precise, classified
//! reason when a header is not valid.

pub mod error;
pub mod utils;
pub mod wav_header;
pub mod wav_header_parser;

//! The header reader: pulls the thirteen fixed-width fields of the
//! canonical 44-byte WAV header off the front of a byte buffer, in stream
//! order, decoding multi-byte integers little-endian, and the full
//! pipeline that composes reading with validation.

use vstd::bytes::{
    spec_u16_from_le_bytes, spec_u32_from_le_bytes, u16_from_le_bytes, u32_from_le_bytes,
};
use vstd::prelude::*;
use vstd::slice::slice_subrange;

use crate::error::WavHeaderError;
use crate::wav_header::{
    first_violation, valid_header, validate_header, ValidatedHeader, WavHeader,
};

verus! {

/// The width in bytes of the canonical WAV header.
pub const HEADER_LEN: usize = 44;

/// The header record encoded at the front of `b`: tags as raw bytes,
/// integers decoded little-endian, each field at its fixed offset.
/// Meaningful when `b` holds at least the full header.
pub open spec fn spec_read_header(b: Seq<u8>) -> WavHeader
    recommends
        b.len() >= HEADER_LEN,
{
    WavHeader {
        chunk_id: [b[0], b[1], b[2], b[3]],
        chunk_size: spec_u32_from_le_bytes(b.subrange(4, 8)),
        format: [b[8], b[9], b[10], b[11]],
        subchunk1_id: [b[12], b[13], b[14], b[15]],
        subchunk1_size: spec_u32_from_le_bytes(b.subrange(16, 20)),
        audio_format: spec_u16_from_le_bytes(b.subrange(20, 22)),
        num_channels: spec_u16_from_le_bytes(b.subrange(22, 24)),
        sample_rate: spec_u32_from_le_bytes(b.subrange(24, 28)),
        byte_rate: spec_u32_from_le_bytes(b.subrange(28, 32)),
        block_align: spec_u16_from_le_bytes(b.subrange(32, 34)),
        bits_per_sample: spec_u16_from_le_bytes(b.subrange(34, 36)),
        subchunk2_id: [b[36], b[37], b[38], b[39]],
        subchunk2_size: spec_u32_from_le_bytes(b.subrange(40, 44)),
    }
}

/// Reads the header fields from the front of `bytes`. A buffer shorter
/// than the full header is a stream-level failure, never a validation
/// failure; a buffer long enough always yields the populated record,
/// with no field interpreted or checked.
pub fn read_header(bytes: &Vec<u8>) -> (r: Result<WavHeader, WavHeaderError>)
    ensures
        bytes@.len() < HEADER_LEN ==> r == Err::<WavHeader, WavHeaderError>(WavHeaderError::Io),
        bytes@.len() >= HEADER_LEN ==> r == Ok::<WavHeader, WavHeaderError>(
            spec_read_header(bytes@),
        ),
{
    if bytes.len() < HEADER_LEN {
        return Err(WavHeaderError::Io);
    }
    let chunk_id: [u8; 4] = [bytes[0], bytes[1], bytes[2], bytes[3]];
    let chunk_size: u32 = u32_from_le_bytes(slice_subrange(bytes.as_slice(), 4, 8));
    let format: [u8; 4] = [bytes[8], bytes[9], bytes[10], bytes[11]];
    let subchunk1_id: [u8; 4] = [bytes[12], bytes[13], bytes[14], bytes[15]];
    let subchunk1_size: u32 = u32_from_le_bytes(slice_subrange(bytes.as_slice(), 16, 20));
    let audio_format: u16 = u16_from_le_bytes(slice_subrange(bytes.as_slice(), 20, 22));
    let num_channels: u16 = u16_from_le_bytes(slice_subrange(bytes.as_slice(), 22, 24));
    let sample_rate: u32 = u32_from_le_bytes(slice_subrange(bytes.as_slice(), 24, 28));
    let byte_rate: u32 = u32_from_le_bytes(slice_subrange(bytes.as_slice(), 28, 32));
    let block_align: u16 = u16_from_le_bytes(slice_subrange(bytes.as_slice(), 32, 34));
    let bits_per_sample: u16 = u16_from_le_bytes(slice_subrange(bytes.as_slice(), 34, 36));
    let subchunk2_id: [u8; 4] = [bytes[36], bytes[37], bytes[38], bytes[39]];
    let subchunk2_size: u32 = u32_from_le_bytes(slice_subrange(bytes.as_slice(), 40, 44));
    let h = WavHeader {
        chunk_id,
        chunk_size,
        format,
        subchunk1_id,
        subchunk1_size,
        audio_format,
        num_channels,
        sample_rate,
        byte_rate,
        block_align,
        bits_per_sample,
        subchunk2_id,
        subchunk2_size,
    };
    proof {
        let s = spec_read_header(bytes@);
        assert(h.chunk_id@ =~= s.chunk_id@);
        assert(h.format@ =~= s.format@);
        assert(h.subchunk1_id@ =~= s.subchunk1_id@);
        assert(h.subchunk2_id@ =~= s.subchunk2_id@);
    }
    Ok(h)
}

/// The first invariant violated by the header encoded in `b`, or `None`
/// when that header is fully valid. Meaningful when `b` holds at least
/// the full header.
pub open spec fn bytes_first_violation(b: Seq<u8>) -> Option<crate::error::ValidationKind>
    recommends
        b.len() >= HEADER_LEN,
{
    first_violation(spec_read_header(b))
}

/// What the pipeline returns for a given buffer: a stream-level failure
/// for a buffer shorter than the full header; for a buffer long enough,
/// the validated record exactly when the header it encodes satisfies
/// every invariant, and otherwise the first violated invariant,
/// classified by kind.
pub open spec fn pipeline_result(b: Seq<u8>, r: Result<ValidatedHeader, WavHeaderError>) -> bool {
    &&& b.len() < HEADER_LEN ==> r == Err::<ValidatedHeader, WavHeaderError>(WavHeaderError::Io)
    &&& b.len() >= HEADER_LEN ==> {
        &&& r is Ok <==> valid_header(spec_read_header(b))
        &&& r is Ok ==> (r->Ok_0)@ == spec_read_header(b)
        &&& (bytes_first_violation(b) matches Some(kind) ==> r == Err::<
            ValidatedHeader,
            WavHeaderError,
        >(WavHeaderError::Validation(kind)))
    }
}

/// Read-then-validate is deterministic: the contract of the pipeline
/// admits exactly one result for a given byte buffer, so running it
/// twice on the same immutable buffer yields identical results.
pub proof fn lemma_pipeline_deterministic(
    b: Seq<u8>,
    r1: Result<ValidatedHeader, WavHeaderError>,
    r2: Result<ValidatedHeader, WavHeaderError>,
)
    requires
        pipeline_result(b, r1),
        pipeline_result(b, r2),
    ensures
        r1 == r2,
{
    if b.len() >= HEADER_LEN && valid_header(spec_read_header(b)) {
        ValidatedHeader::lemma_view_injective(r1->Ok_0, r2->Ok_0);
    }
}

/// The full pipeline: reads the header off the front of `bytes` and
/// validates it.
pub fn parse_wav_header(bytes: &Vec<u8>) -> (r: Result<ValidatedHeader, WavHeaderError>)
    ensures
        pipeline_result(bytes@, r),
{
    let header = match read_header(bytes) {
        Ok(h) => h,
        Err(e) => {
            return Err(e);
        },
    };
    validate_header(&header)
}

} // verus!

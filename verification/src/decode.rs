//! Boundary to the audio decoder.
//!
//! The decoder gives way on malformed streams of several containers. The
//! library, which must not, calls it only on RIFF streams, whose reader it
//! can keep from the format chunks it gives way on: `vouched` says which
//! bytes those are, and `is_vouched` tests for them before any call. Of
//! every other stream the caller says whether its decoder took it.

use rodio::decoder::DecoderError;
use rodio::Decoder;
use std::io::Cursor;
use vstd::prelude::*;

verus! {

/// `rodio::decoder::DecoderError`, the decoder's own error. It is carried
/// through unopened: nothing is claimed of what it holds.
#[verifier::external_type_specification]
#[verifier::external_body]
pub struct ExDecoderError(rodio::decoder::DecoderError);

/// The byte at `at`, or zero where the stream has ended.
pub open spec fn byte_at(bytes: Seq<u8>, at: int) -> int {
    if 0 <= at < bytes.len() {
        bytes[at] as int
    } else {
        0
    }
}

/// The little-endian 16-bit field at `at`.
pub open spec fn field16(bytes: Seq<u8>, at: int) -> int {
    byte_at(bytes, at) + 256 * byte_at(bytes, at + 1)
}

/// The little-endian 32-bit field at `at`.
pub open spec fn field32(bytes: Seq<u8>, at: int) -> int {
    field16(bytes, at) + 65536 * field16(bytes, at + 2)
}

/// Format tag of Microsoft ADPCM in a RIFF format chunk.
pub const TAG_ADPCM_MS: u16 = 0x0002;

/// Format tag of IMA ADPCM in a RIFF format chunk.
pub const TAG_ADPCM_IMA: u16 = 0x0011;

/// Format tag of the extensible format in a RIFF format chunk.
pub const TAG_EXTENSIBLE: u16 = 0xfffe;

/// Length of an extensible format chunk.
pub const EXTENSIBLE_LEN: u32 = 40;

/// Whether the four bytes at `at` spell `fmt `, the identifier of a RIFF
/// format chunk.
pub open spec fn format_chunk_at(bytes: Seq<u8>, at: int) -> bool {
    &&& byte_at(bytes, at) == 0x66
    &&& byte_at(bytes, at + 1) == 0x6d
    &&& byte_at(bytes, at + 2) == 0x74
    &&& byte_at(bytes, at + 3) == 0x20
}

/// Whether a format chunk at `at` is one the RIFF reader gives way on.
/// Behind the identifier stand the chunk's length (4 bytes), the format
/// tag (2), the channel count (2), the sample rate (4), byte rate and block
/// size (6 in all), the coded sample width (2) and, in the extensible
/// format, the extension size and valid width (4) and the channel mask (4).
/// A field that the stream ends before counts as zero.
///
/// - A sample rate of zero that the stream holds in full, whatever the
///   tag: the reader makes a time base of it, which has no zero
///   denominator.
/// - Either ADPCM tag: the reader computes frames per block from the block
///   size and the channel count without guarding the subtraction. The
///   decoder holds no ADPCM codec, so no such stream can be played.
/// - The extensible tag with a coded width of zero: the reader's choice of
///   codec has no arm for it.
/// - The extensible tag with 32 channels or more, or with the top bit of
///   the channel mask set: the reader shifts the mask out of its width.
/// - The extensible tag with a chunk length other than 40: the reader reads
///   40 bytes and counts on with the length given.
pub open spec fn refused_chunk_at(bytes: Seq<u8>, at: int) -> bool {
    let tag = field16(bytes, at + 8);
    &&& format_chunk_at(bytes, at)
    &&& {
        ||| at + 16 <= bytes.len() && field32(bytes, at + 12) == 0
        ||| tag == TAG_ADPCM_MS
        ||| tag == TAG_ADPCM_IMA
        ||| {
            &&& tag == TAG_EXTENSIBLE
            &&& {
                ||| field16(bytes, at + 22) == 0
                ||| field16(bytes, at + 10) >= 32
                ||| byte_at(bytes, at + 31) >= 0x80
                ||| field32(bytes, at + 4) != EXTENSIBLE_LEN
            }
        }
    }
}

/// Whether nowhere in `bytes` stands a format chunk that the RIFF reader
/// gives way on.
pub open spec fn admissible(bytes: Seq<u8>) -> bool {
    forall|at: int| 0 <= at < bytes.len() ==> !refused_chunk_at(bytes, at)
}

/// Whether `bytes` begin with `RIFF`. The decoder's probe then hands them
/// to its RIFF reader and to no other.
pub open spec fn wave_stream(bytes: Seq<u8>) -> bool {
    &&& bytes.len() >= 4
    &&& bytes[0] == 0x52
    &&& bytes[1] == 0x49
    &&& bytes[2] == 0x46
    &&& bytes[3] == 0x46
}

/// Most that a RIFF stream may declare as its length: the reader counts
/// chunk lengths in 32 bits.
pub const DECLARED_MAX: u32 = 0x7fff_ffff;

/// Whether the length that a RIFF stream declares for itself, in the four
/// bytes behind `RIFF`, is no more than the stream holds. The reader lets
/// no chunk declare more than the stream does, and makes room for what a
/// chunk declares.
pub open spec fn sized(bytes: Seq<u8>) -> bool {
    field32(bytes, 4) <= bytes.len() && field32(bytes, 4) <= DECLARED_MAX
}

/// Whether the library itself hands `bytes` to the decoder: a RIFF stream
/// that declares no more than it holds, without a format chunk that the
/// reader gives way on.
pub open spec fn vouched(bytes: Seq<u8>) -> bool {
    wave_stream(bytes) && sized(bytes) && admissible(bytes)
}

/// The byte `ahead` places behind `at`, or zero where the data has ended.
fn peek(data: &Vec<u8>, at: usize, ahead: usize) -> (byte: u8)
    requires
        at < data.len(),
    ensures
        byte == byte_at(data@, at + ahead),
{
    if ahead < data.len() - at {
        data[at + ahead]
    } else {
        0
    }
}

/// The little-endian 16-bit field `ahead` places behind `at`.
fn peek16(data: &Vec<u8>, at: usize, ahead: usize) -> (field: u16)
    requires
        at < data.len(),
        ahead < 64,
    ensures
        field == field16(data@, at + ahead),
{
    let low: u16 = peek(data, at, ahead) as u16;
    let high: u16 = peek(data, at, ahead + 1) as u16;
    low + 256 * high
}

/// Whether a format chunk stands at `at` that the RIFF reader gives way
/// on.
fn is_refused_chunk_at(data: &Vec<u8>, at: usize) -> (refused: bool)
    requires
        at < data.len(),
    ensures
        refused == refused_chunk_at(data@, at as int),
{
    if !(peek(data, at, 0) == 0x66 && peek(data, at, 1) == 0x6d && peek(data, at, 2) == 0x74
        && peek(data, at, 3) == 0x20) {
        return false;
    }
    if 16 <= data.len() - at && peek16(data, at, 12) == 0 && peek16(data, at, 14) == 0 {
        return true;
    }
    let tag: u16 = peek16(data, at, 8);
    if tag == TAG_ADPCM_MS || tag == TAG_ADPCM_IMA {
        return true;
    }
    if tag != TAG_EXTENSIBLE {
        return false;
    }
    let len: u32 = peek16(data, at, 4) as u32 + 65536 * (peek16(data, at, 6) as u32);
    peek16(data, at, 22) == 0 || peek16(data, at, 10) >= 32 || peek(data, at, 31) >= 0x80 || len
        != EXTENSIBLE_LEN
}

/// Whether `data` begin with `RIFF`.
pub fn is_wave_stream(data: &Vec<u8>) -> (wave: bool)
    ensures
        wave == wave_stream(data@),
{
    data.len() >= 4 && data[0] == 0x52 && data[1] == 0x49 && data[2] == 0x46 && data[3] == 0x46
}

/// Whether a RIFF stream declares no more than it holds.
fn is_sized(data: &Vec<u8>) -> (sized: bool)
    requires
        wave_stream(data@),
    ensures
        sized == self::sized(data@),
{
    let low: u32 = peek16(data, 0, 4) as u32;
    let high: u32 = peek16(data, 0, 6) as u32;
    let declared: u32 = low + 65536 * high;
    declared as usize <= data.len() && declared <= DECLARED_MAX
}

/// Whether the library itself hands `data` to the decoder.
pub fn is_vouched(data: &Vec<u8>) -> (vouched: bool)
    ensures
        vouched == self::vouched(data@),
{
    is_wave_stream(data) && is_sized(data) && is_admissible(data)
}

/// Whether nowhere in `data` stands a format chunk that the RIFF reader
/// gives way on.
pub fn is_admissible(data: &Vec<u8>) -> (admitted: bool)
    ensures
        admitted == admissible(data@),
{
    let mut at: usize = 0;
    while at < data.len()
        invariant
            at <= data.len(),
            forall|before: int| 0 <= before < at ==> !refused_chunk_at(data@, before),
        decreases data.len() - at,
    {
        if is_refused_chunk_at(data, at) {
            return false;
        }
        at += 1;
    }
    true
}

/// Whether `rodio::Decoder::new` accepts a stream that holds exactly `bytes`.
///
/// The decoder probes the bytes for a container it knows and sets up the
/// first track; it consults nothing but the bytes.
pub uninterp spec fn decodable(bytes: Seq<u8>) -> bool;

/// Runs `rodio::Decoder::new` on an in-memory cursor over a copy of `data`
/// and drops the decoder again. Trusted: on vouched bytes the call returns,
/// and it succeeds exactly when the bytes are `decodable`; on failure the
/// decoder's error is handed back.
#[verifier::external_body]
pub(crate) fn try_decode(data: &Vec<u8>) -> (result: Result<(), DecoderError>)
    requires
        vouched(data@),
    ensures
        result.is_ok() == decodable(data@),
{
    match Decoder::new(Cursor::new(data.clone())) {
        Ok(_) => Ok(()),
        Err(e) => Err(e),
    }
}

} // verus!

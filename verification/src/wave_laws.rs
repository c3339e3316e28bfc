//! What holds of reading any container as WAVE.

use crate::error::{ChunkKind, PlayerError};
use crate::riff::{
    available_len, child_of, chunk_payload, find_child, has_riff_header, le_u16_at, le_u32_at,
    riff_chunk, Chunk, DATA_TAG, FMT_TAG, RIFF_TAG, WAVE_FORM,
};
use crate::wave::{decode_format, parse_wave, zero_extended, FormatDescriptor};
use vstd::prelude::*;

verus! {

/// A container that is shorter than a tag, or whose first four bytes are not
/// the tag `RIFF`, is rejected as no RIFF container.
pub proof fn foreign_tag_is_rejected(file: Seq<u8>)
    requires
        file.len() < 4 || le_u32_at(file, 0) != RIFF_TAG,
    ensures
        parse_wave(file) == Err::<(FormatDescriptor, Seq<u8>), PlayerError>(
            PlayerError::NotARiffContainer,
        ),
{
}

/// A RIFF container whose form type is not `WAVE` is rejected for its form
/// type, whatever chunks it holds.
pub proof fn foreign_form_is_rejected(file: Seq<u8>)
    requires
        has_riff_header(file),
        le_u32_at(file, 8) != WAVE_FORM,
    ensures
        parse_wave(file) == Err::<(FormatDescriptor, Seq<u8>), PlayerError>(
            PlayerError::UnexpectedContainerSubtype,
        ),
{
}

/// Whether the container opens with a `RIFF` header of form `WAVE`.
pub open spec fn is_wave_container(file: Seq<u8>) -> bool {
    has_riff_header(file) && riff_chunk(file).form_type == WAVE_FORM
}

/// A WAVE container without a `fmt ` chunk is rejected for that chunk,
/// with or without a `data` chunk.
pub proof fn missing_format_chunk_is_reported(file: Seq<u8>)
    requires
        is_wave_container(file),
        child_of(file, riff_chunk(file), FMT_TAG) is None,
    ensures
        parse_wave(file) == Err::<(FormatDescriptor, Seq<u8>), PlayerError>(
            PlayerError::ChunkNotFound { which: ChunkKind::Format },
        ),
{
}

/// A WAVE container with a `fmt ` chunk and without a `data` chunk is
/// rejected for the `data` chunk.
pub proof fn missing_data_chunk_is_reported(file: Seq<u8>)
    requires
        is_wave_container(file),
        child_of(file, riff_chunk(file), FMT_TAG) is Some,
        child_of(file, riff_chunk(file), DATA_TAG) is None,
    ensures
        parse_wave(file) == Err::<(FormatDescriptor, Seq<u8>), PlayerError>(
            PlayerError::ChunkNotFound { which: ChunkKind::Data },
        ),
{
}

/// A WAVE container whose `data` chunk declares `declared` bytes while only
/// `held` of them, fewer, lie in the container is rejected as a short read
/// that names both lengths.
pub proof fn truncated_data_is_a_short_read(file: Seq<u8>, declared: u32, held: u32)
    requires
        is_wave_container(file),
        child_of(file, riff_chunk(file), FMT_TAG) is Some,
        child_of(file, riff_chunk(file), DATA_TAG) matches Some(data) && data.size == declared
            && file.len() - data.data_offset == held,
        held < declared,
    ensures
        parse_wave(file) == Err::<(FormatDescriptor, Seq<u8>), PlayerError>(
            PlayerError::ShortRead { expected: declared, actual: held },
        ),
{
}

/// Only the fixed layout counts: two `fmt ` payloads that agree in their
/// first eighteen bytes decode to one descriptor, whatever extension
/// follows in either.
pub proof fn format_extension_is_ignored(payload: Seq<u8>, other: Seq<u8>)
    requires
        payload.len() >= 18,
        other.len() >= 18,
        payload.take(18) == other.take(18),
    ensures
        decode_format(payload) == decode_format(other),
{
    assert forall|i: int| 0 <= i < 18 implies payload[i] == other[i] by {
        assert(payload.take(18)[i] == payload[i]);
        assert(other.take(18)[i] == other[i]);
    }
    assert(zero_extended(payload) =~= zero_extended(other));
}

/// A `fmt ` payload of which nothing could be read decodes to the all-zero
/// descriptor, and one that breaks off decodes as if zeros followed.
pub proof fn short_format_reads_as_zero_filled(payload: Seq<u8>)
    requires
        payload.len() < 18,
    ensures
        decode_format(payload) == decode_format(payload + Seq::new(18, |i: int| 0u8)),
        payload.len() == 0 ==> decode_format(payload) == (FormatDescriptor {
            format_tag: 0,
            channels: 0,
            samples_per_sec: 0,
            avg_bytes_per_sec: 0,
            block_align: 0,
            bits_per_sample: 0,
            extra_size: 0,
        }),
{
    assert(zero_extended(payload) =~= zero_extended(payload + Seq::new(18, |i: int| 0u8)));
}

/// The two bytes of a 16-bit integer, low byte first.
pub open spec fn u16_le_bytes(v: u16) -> Seq<u8> {
    seq![(v % 0x100) as u8, (v / 0x100) as u8]
}

/// The four bytes of a 32-bit integer, lowest byte first.
pub open spec fn u32_le_bytes(v: u32) -> Seq<u8> {
    seq![
        (v % 0x100) as u8,
        (v / 0x100 % 0x100) as u8,
        (v / 0x1_0000 % 0x100) as u8,
        (v / 0x100_0000) as u8,
    ]
}

/// The sixteen bytes of a format descriptor without extension.
pub open spec fn format_bytes(format: FormatDescriptor) -> Seq<u8> {
    u16_le_bytes(format.format_tag) + u16_le_bytes(format.channels) + u32_le_bytes(
        format.samples_per_sec,
    ) + u32_le_bytes(format.avg_bytes_per_sec) + u16_le_bytes(format.block_align) + u16_le_bytes(
        format.bits_per_sample,
    )
}

/// The 44-byte header of the minimal WAVE file for `count` bytes of samples:
/// the outer header, a sixteen-byte `fmt ` chunk, the header of the `data`
/// chunk.
pub open spec fn minimal_header(format: FormatDescriptor, count: nat) -> Seq<u8> {
    u32_le_bytes(RIFF_TAG) + u32_le_bytes((36 + count) as u32) + u32_le_bytes(WAVE_FORM)
        + u32_le_bytes(FMT_TAG) + u32_le_bytes(16) + format_bytes(format) + u32_le_bytes(DATA_TAG)
        + u32_le_bytes(count as u32)
}

/// The minimal WAVE file of a format and its samples: the 44-byte header and
/// the samples.
pub open spec fn minimal_wave(format: FormatDescriptor, samples: Seq<u8>) -> Seq<u8> {
    minimal_header(format, samples.len()) + samples
}

proof fn le_u32_of_bytes(file: Seq<u8>, at: int, v: u32)
    requires
        0 <= at,
        at + 4 <= file.len(),
        file.subrange(at, at + 4) == u32_le_bytes(v),
    ensures
        le_u32_at(file, at) == v,
{
    let piece = file.subrange(at, at + 4);
    assert(piece[0] == file[at] && piece[1] == file[at + 1] && piece[2] == file[at + 2]
        && piece[3] == file[at + 3]);
}

proof fn le_u16_of_bytes(file: Seq<u8>, at: int, v: u16)
    requires
        0 <= at,
        at + 2 <= file.len(),
        file.subrange(at, at + 2) == u16_le_bytes(v),
    ensures
        le_u16_at(file, at) == v,
{
    let piece = file.subrange(at, at + 2);
    assert(piece[0] == file[at] && piece[1] == file[at + 1]);
}

proof fn format_bytes_decode(format: FormatDescriptor)
    requires
        format.extra_size == 0,
    ensures
        format_bytes(format).len() == 16,
        decode_format(format_bytes(format)) == format,
{
    let layout = format_bytes(format);
    let fixed = zero_extended(layout);
    assert(layout.len() == 16);
    assert(fixed.subrange(0, 2) =~= u16_le_bytes(format.format_tag));
    assert(fixed.subrange(2, 4) =~= u16_le_bytes(format.channels));
    assert(fixed.subrange(4, 8) =~= u32_le_bytes(format.samples_per_sec));
    assert(fixed.subrange(8, 12) =~= u32_le_bytes(format.avg_bytes_per_sec));
    assert(fixed.subrange(12, 14) =~= u16_le_bytes(format.block_align));
    assert(fixed.subrange(14, 16) =~= u16_le_bytes(format.bits_per_sample));
    assert(fixed.subrange(16, 18) =~= u16_le_bytes(0));
    le_u16_of_bytes(fixed, 0, format.format_tag);
    le_u16_of_bytes(fixed, 2, format.channels);
    le_u32_of_bytes(fixed, 4, format.samples_per_sec);
    le_u32_of_bytes(fixed, 8, format.avg_bytes_per_sec);
    le_u16_of_bytes(fixed, 12, format.block_align);
    le_u16_of_bytes(fixed, 14, format.bits_per_sample);
    le_u16_of_bytes(fixed, 16, 0);
}

proof fn minimal_wave_layout(format: FormatDescriptor, samples: Seq<u8>)
    requires
        36 + samples.len() <= u32::MAX,
    ensures
        ({
            let file = minimal_wave(format, samples);
            &&& file.len() == 44 + samples.len()
            &&& le_u32_at(file, 0) == RIFF_TAG
            &&& le_u32_at(file, 4) == 36 + samples.len()
            &&& le_u32_at(file, 8) == WAVE_FORM
            &&& le_u32_at(file, 12) == FMT_TAG
            &&& le_u32_at(file, 16) == 16
            &&& file.subrange(20, 36) == format_bytes(format)
            &&& le_u32_at(file, 36) == DATA_TAG
            &&& le_u32_at(file, 40) == samples.len()
            &&& file.subrange(44, 44 + samples.len() as int) == samples
        }),
{
    let file = minimal_wave(format, samples);
    let n = samples.len() as int;
    assert(format_bytes(format).len() == 16);
    assert(file.len() == 44 + n);
    assert(file.subrange(0, 4) =~= u32_le_bytes(RIFF_TAG));
    assert(file.subrange(4, 8) =~= u32_le_bytes((36 + n) as u32));
    assert(file.subrange(8, 12) =~= u32_le_bytes(WAVE_FORM));
    assert(file.subrange(12, 16) =~= u32_le_bytes(FMT_TAG));
    assert(file.subrange(16, 20) =~= u32_le_bytes(16));
    assert(file.subrange(20, 36) =~= format_bytes(format));
    assert(file.subrange(36, 40) =~= u32_le_bytes(DATA_TAG));
    assert(file.subrange(40, 44) =~= u32_le_bytes(n as u32));
    assert(file.subrange(44, 44 + n) =~= samples);
    le_u32_of_bytes(file, 0, RIFF_TAG);
    le_u32_of_bytes(file, 4, (36 + n) as u32);
    le_u32_of_bytes(file, 8, WAVE_FORM);
    le_u32_of_bytes(file, 12, FMT_TAG);
    le_u32_of_bytes(file, 16, 16);
    le_u32_of_bytes(file, 36, DATA_TAG);
    le_u32_of_bytes(file, 40, n as u32);
}

/// Reading the minimal WAVE file of a format and its samples gives back that
/// format and those samples, for every format without extension and every
/// sample sequence whose file length fits the 32-bit length field.
pub proof fn minimal_wave_round_trip(format: FormatDescriptor, samples: Seq<u8>)
    requires
        format.extra_size == 0,
        36 + samples.len() <= u32::MAX,
    ensures
        minimal_wave(format, samples).len() == 44 + samples.len(),
        parse_wave(minimal_wave(format, samples)) == Ok::<
            (FormatDescriptor, Seq<u8>),
            PlayerError,
        >((format, samples)),
{
    let file = minimal_wave(format, samples);
    let n = samples.len() as int;
    minimal_wave_layout(format, samples);
    format_bytes_decode(format);
    let riff = riff_chunk(file);
    let fmt = Chunk { id: FMT_TAG, size: 16, form_type: 0, data_offset: 20 };
    let data = Chunk { id: DATA_TAG, size: n as u32, form_type: 0, data_offset: 44 };
    assert(child_of(file, riff, FMT_TAG) == Some(fmt)) by {
        reveal_with_fuel(find_child, 2);
    }
    assert(child_of(file, riff, DATA_TAG) == Some(data)) by {
        reveal_with_fuel(find_child, 3);
        assert(find_child(file, 36, 44 + n, Some(DATA_TAG)) == Some(data));
    }
    assert(chunk_payload(file, data) =~= samples);
    assert(chunk_payload(file, fmt) =~= format_bytes(format));
}

} // verus!

//! WAVE reading: the format descriptor and the sample payload of a container.

use crate::error::{ChunkKind, PlayerError};
use crate::fourcc::make_fourcc;
use crate::riff::{
    available_len, child_of, chunk_payload, find_chunk, find_riff, has_riff_header, le_u16_at,
    le_u32_at, read_u16_le, read_u32_le, riff_chunk, Chunk, DATA_TAG, FMT_TAG, WAVE_FORM,
};
use vstd::prelude::*;
use vstd::slice::{slice_subrange, slice_to_vec};

verus! {

/// Length of the fixed layout that a format descriptor is decoded from.
pub const FORMAT_DESCRIPTOR_LEN: usize = 18;

/// How the samples of a payload are organised.
#[derive(Clone, Copy, Debug, PartialEq, Eq, Structural)]
pub struct FormatDescriptor {
    /// The encoding of the samples; 1 is uncompressed PCM.
    pub format_tag: u16,
    /// Number of interleaved channels.
    pub channels: u16,
    /// Sample frames per second.
    pub samples_per_sec: u32,
    /// Average data rate in bytes per second.
    pub avg_bytes_per_sec: u32,
    /// Size of one sample frame in bytes.
    pub block_align: u16,
    /// Bits in one sample of one channel.
    pub bits_per_sample: u16,
    /// Length of the format extension that follows the fixed layout.
    pub extra_size: u16,
}

/// What playback needs from a container.
#[derive(Debug, PartialEq, Eq)]
pub struct WaveData {
    /// The sample format that the `fmt ` chunk declares.
    pub format: FormatDescriptor,
    /// The bytes of the `data` chunk, exactly as many as it declares.
    pub payload: Vec<u8>,
}

/// The first eighteen bytes of a payload, a missing byte read as zero.
pub open spec fn zero_extended(payload: Seq<u8>) -> Seq<u8> {
    Seq::new(
        FORMAT_DESCRIPTOR_LEN as nat,
        |i: int|
            if i < payload.len() {
                payload[i]
            } else {
                0u8
            },
    )
}

/// The descriptor that the payload of a `fmt ` chunk stands for.
///
/// The fields are read at their fixed offsets. Bytes behind the fixed layout
/// are ignored. A payload shorter than the layout decodes as if zeros
/// followed it, so an empty payload gives the all-zero descriptor.
pub open spec fn decode_format(payload: Seq<u8>) -> FormatDescriptor {
    let fixed = zero_extended(payload);
    FormatDescriptor {
        format_tag: le_u16_at(fixed, 0) as u16,
        channels: le_u16_at(fixed, 2) as u16,
        samples_per_sec: le_u32_at(fixed, 4) as u32,
        avg_bytes_per_sec: le_u32_at(fixed, 8) as u32,
        block_align: le_u16_at(fixed, 12) as u16,
        bits_per_sample: le_u16_at(fixed, 14) as u16,
        extra_size: le_u16_at(fixed, 16) as u16,
    }
}

/// What reading a container as WAVE gives: the format and the samples, or
/// the first failure in reading order (outer header, form type, `fmt `,
/// `data`, length of the samples).
pub open spec fn parse_wave(file: Seq<u8>) -> Result<(FormatDescriptor, Seq<u8>), PlayerError> {
    if !has_riff_header(file) {
        Err(PlayerError::NotARiffContainer)
    } else if riff_chunk(file).form_type != WAVE_FORM {
        Err(PlayerError::UnexpectedContainerSubtype)
    } else {
        match child_of(file, riff_chunk(file), FMT_TAG) {
            None => Err(PlayerError::ChunkNotFound { which: ChunkKind::Format }),
            Some(fmt) => match child_of(file, riff_chunk(file), DATA_TAG) {
                None => Err(PlayerError::ChunkNotFound { which: ChunkKind::Data }),
                Some(data) => if available_len(file, data) < data.size {
                    Err(
                        PlayerError::ShortRead {
                            expected: data.size,
                            actual: available_len(file, data) as u32,
                        },
                    )
                } else {
                    Ok((decode_format(chunk_payload(file, fmt)), chunk_payload(file, data)))
                },
            },
        }
    }
}

/// The payload bytes of a located chunk that the container holds.
pub fn payload_of<'a>(container: &'a [u8], chunk: &Chunk) -> (payload: &'a [u8])
    ensures
        payload@ == chunk_payload(container@, *chunk),
        payload@.len() == available_len(container@, *chunk),
{
    let len = container.len();
    if chunk.data_offset >= len {
        let payload = slice_subrange(container, len, len);
        assert(payload@ =~= chunk_payload(container@, *chunk));
        payload
    } else if chunk.size as u64 <= (len - chunk.data_offset) as u64 {
        slice_subrange(container, chunk.data_offset, chunk.data_offset + chunk.size as usize)
    } else {
        slice_subrange(container, chunk.data_offset, len)
    }
}

impl FormatDescriptor {
    /// Decodes a descriptor from the payload of a `fmt ` chunk.
    pub fn decode(payload: &[u8]) -> (format: FormatDescriptor)
        ensures
            format == decode_format(payload@),
    {
        let mut fixed: Vec<u8> = Vec::new();
        let mut i: usize = 0;
        while i < FORMAT_DESCRIPTOR_LEN
            invariant
                i <= FORMAT_DESCRIPTOR_LEN,
                fixed@.len() == i,
                forall|k: int| 0 <= k < i ==> fixed@[k] == zero_extended(payload@)[k],
            decreases FORMAT_DESCRIPTOR_LEN - i,
        {
            let byte: u8 = if i < payload.len() {
                payload[i]
            } else {
                0
            };
            fixed.push(byte);
            i = i + 1;
        }
        assert(fixed@ =~= zero_extended(payload@));
        let bytes = fixed.as_slice();
        FormatDescriptor {
            format_tag: read_u16_le(bytes, 0),
            channels: read_u16_le(bytes, 2),
            samples_per_sec: read_u32_le(bytes, 4),
            avg_bytes_per_sec: read_u32_le(bytes, 8),
            block_align: read_u16_le(bytes, 12),
            bits_per_sample: read_u16_le(bytes, 14),
            extra_size: read_u16_le(bytes, 16),
        }
    }
}

/// Extracts the sample format: locates `fmt ` under the outer chunk and
/// decodes what the container holds of its payload.
pub fn read_format(container: &[u8], riff: &Chunk) -> (read: Result<FormatDescriptor, PlayerError>)
    ensures
        read == match child_of(container@, *riff, FMT_TAG) {
            None => Err::<FormatDescriptor, PlayerError>(
                PlayerError::ChunkNotFound { which: ChunkKind::Format },
            ),
            Some(fmt) => Ok(decode_format(chunk_payload(container@, fmt))),
        },
{
    match find_chunk(container, riff, make_fourcc('f' as u8, 'm' as u8, 't' as u8, ' ' as u8)) {
        None => Err(PlayerError::ChunkNotFound { which: ChunkKind::Format }),
        Some(fmt) => Ok(FormatDescriptor::decode(payload_of(container, &fmt))),
    }
}

/// Loads the samples: locates `data` under the outer chunk and copies its
/// payload, which must be present in full.
pub fn read_payload(container: &[u8], riff: &Chunk) -> (read: Result<Vec<u8>, PlayerError>)
    ensures
        match child_of(container@, *riff, DATA_TAG) {
            None => read == Err::<Vec<u8>, PlayerError>(
                PlayerError::ChunkNotFound { which: ChunkKind::Data },
            ),
            Some(data) => if available_len(container@, data) < data.size {
                read == Err::<Vec<u8>, PlayerError>(
                    PlayerError::ShortRead {
                        expected: data.size,
                        actual: available_len(container@, data) as u32,
                    },
                )
            } else {
                &&& read is Ok
                &&& read->Ok_0@ == chunk_payload(container@, data)
                &&& read->Ok_0@.len() == data.size
            },
        },
{
    match find_chunk(container, riff, make_fourcc('d' as u8, 'a' as u8, 't' as u8, 'a' as u8)) {
        None => Err(PlayerError::ChunkNotFound { which: ChunkKind::Data }),
        Some(data) => {
            let held = payload_of(container, &data);
            if held.len() < data.size as usize {
                Err(PlayerError::ShortRead { expected: data.size, actual: held.len() as u32 })
            } else {
                Ok(slice_to_vec(held))
            }
        },
    }
}

/// Reads a container as WAVE.
///
/// Succeeds exactly when the container opens with a `RIFF` header of form
/// `WAVE`, holds a `fmt ` and a `data` child, and holds every byte that the
/// `data` chunk declares.
pub fn load_wave(container: &[u8]) -> (loaded: Result<WaveData, PlayerError>)
    ensures
        match loaded {
            Ok(wave) => parse_wave(container@) == Ok::<(FormatDescriptor, Seq<u8>), PlayerError>(
                (wave.format, wave.payload@),
            ),
            Err(e) => parse_wave(container@) == Err::<(FormatDescriptor, Seq<u8>), PlayerError>(e),
        },
{
    let riff = match find_riff(container) {
        None => { return Err(PlayerError::NotARiffContainer); },
        Some(riff) => riff,
    };
    if riff.form_type != make_fourcc('W' as u8, 'A' as u8, 'V' as u8, 'E' as u8) {
        return Err(PlayerError::UnexpectedContainerSubtype);
    }
    let format = match read_format(container, &riff) {
        Err(e) => { return Err(e); },
        Ok(format) => format,
    };
    let payload = match read_payload(container, &riff) {
        Err(e) => { return Err(e); },
        Ok(payload) => payload,
    };
    Ok(WaveData { format, payload })
}

} // verus!

//! Chunk reader: locating the chunks of a RIFF container held in memory.
//!
//! A container is a byte sequence. It opens with a twelve-byte header (the
//! tag `RIFF`, a declared length, a form type) and continues with child
//! chunks, each an eight-byte header (tag, declared length) and a payload
//! padded to an even length. All integers are little-endian.

use crate::fourcc::make_fourcc;
use vstd::prelude::*;

verus! {

/// The tag `RIFF` of the outer chunk.
pub const RIFF_TAG: u32 = 0x4646_4952;

/// The form type `WAVE`.
pub const WAVE_FORM: u32 = 0x4556_4157;

/// The tag `fmt ` of the chunk that describes the sample format.
pub const FMT_TAG: u32 = 0x2074_6d66;

/// The tag `data` of the chunk that holds the samples.
pub const DATA_TAG: u32 = 0x6174_6164;

/// Length of the outer header: tag, declared length, form type.
pub const RIFF_HEADER_LEN: usize = 12;

/// Length of a child chunk's header: tag, declared length.
pub const CHUNK_HEADER_LEN: usize = 8;

/// A located chunk.
#[derive(Clone, Copy, Debug, PartialEq, Eq, Structural)]
pub struct Chunk {
    /// The chunk's four-character tag.
    pub id: u32,
    /// The payload length that the chunk's header declares.
    pub size: u32,
    /// The form type, for the outer chunk; zero for every other chunk.
    pub form_type: u32,
    /// Where the payload starts in the container. For the outer chunk the
    /// payload starts with the form type.
    pub data_offset: usize,
}

/// The little-endian 16-bit integer at `at`.
pub open spec fn le_u16_at(bytes: Seq<u8>, at: int) -> int {
    bytes[at] as int + bytes[at + 1] as int * 0x100
}

/// The little-endian 32-bit integer at `at`.
pub open spec fn le_u32_at(bytes: Seq<u8>, at: int) -> int {
    bytes[at] as int + bytes[at + 1] as int * 0x100 + bytes[at + 2] as int * 0x1_0000 + bytes[at
        + 3] as int * 0x100_0000
}

/// A declared length rounded up to the even length that the payload occupies.
pub open spec fn padded_len(size: int) -> int {
    size + size % 2
}

/// Whether the container opens with a complete outer header tagged `RIFF`.
pub open spec fn has_riff_header(file: Seq<u8>) -> bool {
    file.len() >= RIFF_HEADER_LEN && le_u32_at(file, 0) == RIFF_TAG
}

/// The outer chunk that the first twelve bytes describe.
pub open spec fn riff_chunk(file: Seq<u8>) -> Chunk {
    Chunk {
        id: RIFF_TAG,
        size: le_u32_at(file, 4) as u32,
        form_type: le_u32_at(file, 8) as u32,
        data_offset: CHUNK_HEADER_LEN,
    }
}

/// Where the children of a parent chunk start: behind its form type.
pub open spec fn children_start(parent: Chunk) -> int {
    parent.data_offset + 4
}

/// Where the declared payload of a chunk ends.
pub open spec fn chunk_end(chunk: Chunk) -> int {
    chunk.data_offset + chunk.size
}

/// Whether a chunk tagged `tag` is what a search looks for: any chunk where
/// no tag is asked for, else the chunk with the tag asked for.
pub open spec fn answers(tag: int, search: Option<u32>) -> bool {
    match search {
        None => true,
        Some(id) => tag == id,
    }
}

/// The first chunk that answers `search` among the chunks laid out from
/// `at` on.
///
/// A chunk counts when it starts before `end` and its header lies within the
/// container; the chunk after it starts behind its padded payload.
pub open spec fn find_child(file: Seq<u8>, at: int, end: int, search: Option<u32>) -> Option<Chunk>
    decreases
        (if at < file.len() {
            file.len() - at
        } else {
            0
        }),
{
    if at < 0 || at >= end || at + CHUNK_HEADER_LEN > file.len() {
        None
    } else if answers(le_u32_at(file, at), search) {
        Some(
            Chunk {
                id: le_u32_at(file, at) as u32,
                size: le_u32_at(file, at + 4) as u32,
                form_type: 0,
                data_offset: (at + CHUNK_HEADER_LEN) as usize,
            },
        )
    } else {
        find_child(file, at + CHUNK_HEADER_LEN + padded_len(le_u32_at(file, at + 4)), end, search)
    }
}

/// The first child of `parent` that is tagged `id`.
pub open spec fn child_of(file: Seq<u8>, parent: Chunk, id: u32) -> Option<Chunk> {
    find_child(file, children_start(parent), chunk_end(parent), Some(id))
}

/// What a descent into the container finds.
///
/// Without a parent the descent looks for the outer chunk: it is found when
/// the container opens with a complete `RIFF` header and, where a form type
/// is asked for, has that form type. Under a parent the descent looks for
/// the first child with the tag asked for, or for the first child where no
/// tag is asked for.
pub open spec fn descent(file: Seq<u8>, parent: Option<Chunk>, search: Option<u32>) -> Option<
    Chunk,
> {
    match parent {
        None => if has_riff_header(file) && answers(riff_chunk(file).form_type as int, search) {
            Some(riff_chunk(file))
        } else {
            None
        },
        Some(parent) => find_child(file, children_start(parent), chunk_end(parent), search),
    }
}

/// How many payload bytes of `chunk` the container really holds.
pub open spec fn available_len(file: Seq<u8>, chunk: Chunk) -> int {
    if chunk.data_offset >= file.len() {
        0
    } else if chunk.data_offset + chunk.size <= file.len() {
        chunk.size as int
    } else {
        file.len() - chunk.data_offset
    }
}

/// The payload bytes of `chunk` that the container really holds.
pub open spec fn chunk_payload(file: Seq<u8>, chunk: Chunk) -> Seq<u8> {
    if chunk.data_offset >= file.len() {
        Seq::empty()
    } else {
        file.subrange(chunk.data_offset as int, chunk.data_offset + available_len(file, chunk))
    }
}

/// Reads the little-endian 16-bit integer at `at`.
pub fn read_u16_le(bytes: &[u8], at: usize) -> (value: u16)
    requires
        at + 2 <= bytes@.len(),
    ensures
        value == le_u16_at(bytes@, at as int),
{
    let b0: u16 = bytes[at] as u16;
    let b1: u16 = bytes[at + 1] as u16;
    b0 + b1 * 0x100
}

/// Reads the little-endian 32-bit integer at `at`.
pub fn read_u32_le(bytes: &[u8], at: usize) -> (value: u32)
    requires
        at + 4 <= bytes@.len(),
    ensures
        value == le_u32_at(bytes@, at as int),
{
    let b0: u32 = bytes[at] as u32;
    let b1: u32 = bytes[at + 1] as u32;
    let b2: u32 = bytes[at + 2] as u32;
    let b3: u32 = bytes[at + 3] as u32;
    b0 + b1 * 0x100 + b2 * 0x1_0000 + b3 * 0x100_0000
}

/// Locates the outer chunk of a container.
///
/// The outer chunk is found exactly when the container opens with a complete
/// header whose tag is `RIFF`; its form type is reported, not judged.
pub fn find_riff(container: &[u8]) -> (found: Option<Chunk>)
    ensures
        found == if has_riff_header(container@) {
            Some(riff_chunk(container@))
        } else {
            None
        },
{
    if container.len() < RIFF_HEADER_LEN {
        return None;
    }
    let tag = read_u32_le(container, 0);
    if tag != make_fourcc('R' as u8, 'I' as u8, 'F' as u8, 'F' as u8) {
        return None;
    }
    let size = read_u32_le(container, 4);
    let form_type = read_u32_le(container, 8);
    Some(Chunk { id: RIFF_TAG, size, form_type, data_offset: CHUNK_HEADER_LEN })
}

/// Scans the children of `parent` for the first that answers `search`.
fn scan_children(container: &[u8], parent: &Chunk, search: Option<u32>) -> (found: Option<Chunk>)
    ensures
        found == find_child(container@, children_start(*parent), chunk_end(*parent), search),
{
    let len = container.len();
    if len < RIFF_HEADER_LEN || parent.data_offset > len - RIFF_HEADER_LEN {
        return None;
    }
    let limit: usize = if parent.size as u64 >= (len - parent.data_offset) as u64 {
        len
    } else {
        parent.data_offset + parent.size as usize
    };
    let ghost file = container@;
    let ghost end = chunk_end(*parent);
    let mut at: usize = parent.data_offset + 4;
    loop
        invariant
            file == container@,
            len == file.len(),
            len >= RIFF_HEADER_LEN,
            end == chunk_end(*parent),
            limit <= len,
            limit as int == if end >= len {
                len as int
            } else {
                end
            },
            at <= len,
            find_child(file, at as int, end, search) == find_child(
                file,
                children_start(*parent),
                end,
                search,
            ),
        decreases len - at,
    {
        if at >= limit || at > len - CHUNK_HEADER_LEN {
            return None;
        }
        let tag = read_u32_le(container, at);
        let size = read_u32_le(container, at + 4);
        let wanted = match search {
            None => true,
            Some(id) => tag == id,
        };
        if wanted {
            return Some(Chunk { id: tag, size, form_type: 0, data_offset: at + CHUNK_HEADER_LEN });
        }
        let step: u64 = size as u64 + (size % 2) as u64;
        let remaining: usize = len - at - CHUNK_HEADER_LEN;
        let ghost next = at + CHUNK_HEADER_LEN + padded_len(size as int);
        if step > remaining as u64 {
            assert(find_child(file, next, end, search) is None);
            return None;
        }
        at = at + CHUNK_HEADER_LEN + step as usize;
    }
}

/// Descends into the container: to the outer chunk where no parent is
/// given, else to a child of the parent. That nothing is found is an
/// ordinary outcome.
pub fn descend(container: &[u8], parent: Option<&Chunk>, search: Option<u32>) -> (found: Option<
    Chunk,
>)
    ensures
        found == descent(
            container@,
            match parent {
                Some(p) => Some(*p),
                None => None,
            },
            search,
        ),
{
    match parent {
        None => match find_riff(container) {
            None => None,
            Some(riff) => match search {
                None => Some(riff),
                Some(form_type) => if riff.form_type == form_type {
                    Some(riff)
                } else {
                    None
                },
            },
        },
        Some(parent) => scan_children(container, parent, search),
    }
}

/// Locates the first child of `parent` that is tagged `id`.
///
/// Every lookup starts at the parent's first child, so the order of the
/// children in the container does not matter to the caller.
pub fn find_chunk(container: &[u8], parent: &Chunk, id: u32) -> (found: Option<Chunk>)
    ensures
        found == child_of(container@, *parent, id),
{
    scan_children(container, parent, Some(id))
}

} // verus!

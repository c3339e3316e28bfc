//! What holds of every lookup in a chunk layout.

use crate::riff::{answers, find_child, le_u32_at, padded_len, Chunk, CHUNK_HEADER_LEN};
use vstd::prelude::*;

verus! {

/// Where the chunk after the chunk at `at` starts.
pub open spec fn next_start(file: Seq<u8>, at: int) -> int {
    at + CHUNK_HEADER_LEN + padded_len(le_u32_at(file, at + 4))
}

/// Where chunk number `k` of the layout that starts at `start` starts.
pub open spec fn chunk_start(file: Seq<u8>, start: int, k: nat) -> int
    decreases k,
{
    if k == 0 {
        start
    } else {
        chunk_start(file, next_start(file, start), (k - 1) as nat)
    }
}

/// Whether a chunk that starts at `at` counts in a lookup up to `end`.
pub open spec fn counts(file: Seq<u8>, at: int, end: int) -> bool {
    0 <= at < end && at + CHUNK_HEADER_LEN <= file.len()
}

/// The chunk whose header stands at `at`.
pub open spec fn chunk_at(file: Seq<u8>, at: int) -> Chunk {
    Chunk {
        id: le_u32_at(file, at) as u32,
        size: le_u32_at(file, at + 4) as u32,
        form_type: 0,
        data_offset: (at + CHUNK_HEADER_LEN) as usize,
    }
}

/// A lookup finds the chunk it looks for wherever that chunk stands in the
/// layout: when chunk number `k` answers the search, no chunk before it
/// does, and all of them up to it count, the lookup gives chunk number `k`.
pub proof fn lookup_finds_the_first_answer(
    file: Seq<u8>,
    start: int,
    end: int,
    search: Option<u32>,
    k: nat,
)
    requires
        forall|j: nat| j <= k ==> counts(file, #[trigger] chunk_start(file, start, j), end),
        forall|j: nat|
            j < k ==> !answers(le_u32_at(file, #[trigger] chunk_start(file, start, j)), search),
        answers(le_u32_at(file, chunk_start(file, start, k)), search),
    ensures
        find_child(file, start, end, search) == Some(chunk_at(file, chunk_start(file, start, k))),
    decreases k,
{
    assert(counts(file, chunk_start(file, start, 0), end));
    if k > 0 {
        assert(!answers(le_u32_at(file, chunk_start(file, start, 0)), search));
        let next = next_start(file, start);
        assert forall|j: nat| j <= (k - 1) as nat implies counts(
            file,
            #[trigger] chunk_start(file, next, j),
            end,
        ) by {
            assert(chunk_start(file, next, j) == chunk_start(file, start, j + 1));
        }
        assert forall|j: nat| j < (k - 1) as nat implies !answers(
            le_u32_at(file, #[trigger] chunk_start(file, next, j)),
            search,
        ) by {
            assert(chunk_start(file, next, j) == chunk_start(file, start, j + 1));
        }
        assert(chunk_start(file, next, (k - 1) as nat) == chunk_start(file, start, k));
        lookup_finds_the_first_answer(file, next, end, search, (k - 1) as nat);
    }
}

/// What a lookup finds is a chunk of the layout that answers the search:
/// it stands at the start of some chunk number `k`, counts, and no chunk
/// before it answers the search.
pub proof fn lookup_result_is_the_first_answer(
    file: Seq<u8>,
    start: int,
    end: int,
    search: Option<u32>,
) -> (k: nat)
    requires
        find_child(file, start, end, search) is Some,
    ensures
        find_child(file, start, end, search) == Some(chunk_at(file, chunk_start(file, start, k))),
        counts(file, chunk_start(file, start, k), end),
        answers(le_u32_at(file, chunk_start(file, start, k)), search),
        forall|j: nat|
            j < k ==> !answers(le_u32_at(file, #[trigger] chunk_start(file, start, j)), search),
    decreases
        (if start < file.len() {
            file.len() - start
        } else {
            0
        }),
{
    if answers(le_u32_at(file, start), search) {
        0
    } else {
        let next = next_start(file, start);
        let rest = lookup_result_is_the_first_answer(file, next, end, search);
        let k = rest + 1;
        assert(chunk_start(file, start, k) == chunk_start(file, next, rest));
        assert forall|j: nat| j < k implies !answers(
            le_u32_at(file, #[trigger] chunk_start(file, start, j)),
            search,
        ) by {
            if j > 0 {
                assert(chunk_start(file, start, j) == chunk_start(file, next, (j - 1) as nat));
            }
        }
        k
    }
}

} // verus!

//! Four-character codes, the tags of chunked containers.

use vstd::prelude::*;

verus! {

/// The 32-bit code whose little-endian bytes are `c1`, `c2`, `c3`, `c4`.
pub open spec fn fourcc(c1: u8, c2: u8, c3: u8, c4: u8) -> u32 {
    (c1 as int + c2 as int * 0x100 + c3 as int * 0x1_0000 + c4 as int * 0x100_0000) as u32
}

/// Packs four characters into one code, the first character in the lowest byte.
pub fn make_fourcc(c1: u8, c2: u8, c3: u8, c4: u8) -> (code: u32)
    ensures
        code == fourcc(c1, c2, c3, c4),
        code as int == c1 as int + c2 as int * 0x100 + c3 as int * 0x1_0000 + c4 as int
            * 0x100_0000,
{
    let code: u32 = (c1 as u32) | ((c2 as u32) << 8) | ((c3 as u32) << 16) | ((c4 as u32) << 24);
    assert(code as int == c1 as int + c2 as int * 0x100 + c3 as int * 0x1_0000 + c4 as int
        * 0x100_0000) by (bit_vector)
        requires
            code == (c1 as u32) | ((c2 as u32) << 8) | ((c3 as u32) << 16) | ((c4 as u32) << 24),
    ;
    code
}

} // verus!

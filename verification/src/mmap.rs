//! The offset of a 64-bit mapping in the pages that the `mmap2` system call
//! counts in.

use vstd::prelude::*;

verus! {

/// The size in bytes of the pages that `mmap2` counts offsets in.
pub const ANDROID_PAGE_SIZE: i64 = 4096;

/// The offset in pages of a mapping that starts `offset` bytes into a file;
/// `None` where `offset` is not a multiple of the page size.
pub fn mmap2_page_offset(offset: i64) -> (pages: Option<i64>)
    ensures
        pages is Some <==> offset as int % 4096 == 0,
        pages is Some ==> pages->0 * 4096 == offset,
{
    let low: i64 = offset & (ANDROID_PAGE_SIZE - 1);
    assert(low == 0 <==> offset % 4096 == 0) by (bit_vector)
        requires
            low == offset & 4095,
    ;
    if low != 0 {
        return None;
    }
    Some(offset / ANDROID_PAGE_SIZE)
}

} // verus!

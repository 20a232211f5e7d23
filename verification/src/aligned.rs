//! Layouts of storage aligned beyond the alignment of its element type, and
//! the values such storage is filled with.

use vstd::prelude::*;

verus! {

/// Alignment of the storage of `len` elements of `T` aligned to `align`
/// bytes: the larger of `align` and the alignment of `T`.
pub open spec fn storage_alignment<T>(align: int) -> int {
    if vstd::layout::align_of::<T>() >= align {
        vstd::layout::align_of::<T>() as int
    } else {
        align
    }
}

/// Size in bytes and alignment of the storage of `len` elements of `T`
/// aligned to at least `align` bytes.
pub fn aligned_layout<T>(len: usize, align: usize) -> (r: (usize, usize))
    requires
        vstd::layout::size_of::<T>() * len <= usize::MAX,
    ensures
        r.0 == vstd::layout::size_of::<T>() * len,
        r.1 == storage_alignment::<T>(align as int),
{
    let t_size = core::mem::size_of::<T>();
    let t_align = core::mem::align_of::<T>();
    let size = t_size * len;
    if t_align >= align {
        (size, t_align)
    } else {
        (size, align)
    }
}

/// A vector of `len` copies of `init`, the contents of aligned storage before
/// it is placed in aligned memory.
pub fn filled_vector<T: Copy>(len: usize, init: T) -> (r: Vec<T>)
    ensures
        r@ == Seq::new(len as nat, |i: int| init),
{
    let mut v: Vec<T> = Vec::new();
    let mut i: usize = 0;
    while i < len
        invariant
            i <= len,
            v@ == Seq::new(i as nat, |k: int| init),
        decreases len - i,
    {
        v.push(init);
        i = i + 1;
    }
    v
}

} // verus!

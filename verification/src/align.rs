//! 16-byte alignment arithmetic used for buffers and ray/hit streams.

use vstd::prelude::*;

verus! {

/// Alignment, in bytes, that Embree asks of buffers and SoA stream fields.
pub const STREAM_ALIGNMENT: usize = 16;

/// Size in bytes of one 32-bit member of a ray or hit (`f32` or `u32`).
pub const WORD_SIZE: usize = 4;

/// The least multiple of 16 that is not below `x`.
pub open spec fn round_up_16(x: int) -> int {
    ((x + 15) / 16) * 16
}

/// Rounding up to a multiple of 16 yields a multiple of 16 that is at least `x`
/// and less than `x + 16`; rounding it again changes nothing.
pub proof fn lemma_round_up_16(x: int)
    requires
        0 <= x,
    ensures
        round_up_16(x) % 16 == 0,
        x <= round_up_16(x) < x + 16,
        round_up_16(round_up_16(x)) == round_up_16(x),
        x % 16 == 0 ==> round_up_16(x) == x,
{
    let q = (x + 15) / 16;
    assert(q * 16 <= x + 15 < q * 16 + 16) by (nonlinear_arith)
        requires q == (x + 15) / 16, x >= 0;
    assert((q * 16) % 16 == 0) by (nonlinear_arith);
    assert((q * 16 + 15) / 16 == q) by (nonlinear_arith);
    if x % 16 == 0 {
        assert(x == (x / 16) * 16) by (nonlinear_arith)
            requires x % 16 == 0;
        assert((x + 15) / 16 == x / 16) by (nonlinear_arith)
            requires x % 16 == 0, x >= 0;
    }
}

/// Rounds `x` up to the next multiple of 16, as `(x + 15) & !15`.
pub fn align_up_16(x: usize) -> (r: usize)
    requires
        x + 15 <= usize::MAX,
    ensures
        r == round_up_16(x as int),
        r % 16 == 0,
        x <= r < x + 16,
{
    let y: usize = x + 15;
    let r: usize = y & !15usize;
    assert(r == (y / 16) * 16) by (bit_vector)
        requires r == y & !15usize;
    proof {
        lemma_round_up_16(x as int);
    }
    r
}

/// Byte size of one field of a SoA stream of `n` rays or hits: `n` 32-bit words
/// rounded up to a multiple of 16 bytes.
pub fn aligned_field_size(n: usize) -> (r: usize)
    requires
        n * 4 + 15 <= usize::MAX,
    ensures
        r == round_up_16(n * 4),
        r % 16 == 0,
        n * 4 <= r < n * 4 + 16,
{
    align_up_16(n * WORD_SIZE)
}

} // verus!

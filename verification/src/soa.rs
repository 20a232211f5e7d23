//! Structure-of-arrays storage shared by ray/hit packets and ray/hit streams.
//!
//! A SoA block holds `fields` arrays of `stride` 32-bit words each, stored one
//! after the other: word `i` of field `f` lives at flat index `f * stride + i`.
//! Floating-point members are kept as their IEEE-754 bit patterns.

use vstd::prelude::*;

verus! {

/// Proves that `f * s + i` addresses a word inside a block of `n` fields of `s` words.
pub proof fn lemma_flat_index_in_block(f: int, i: int, n: int, s: int)
    requires
        0 <= f < n,
        0 <= i < s,
    ensures
        0 <= f * s + i < n * s,
        f * s + i <= n * s - 1,
        f * s <= n * s,
{
    assert(0 <= f * s) by (nonlinear_arith)
        requires 0 <= f, 0 <= s;
    assert((f + 1) * s <= n * s) by (nonlinear_arith)
        requires f + 1 <= n, 0 <= s;
    assert((f + 1) * s == f * s + s) by (nonlinear_arith);
}

/// Proves that two distinct (field, index) pairs address two distinct words.
pub proof fn lemma_flat_index_injective(f1: int, i1: int, f2: int, i2: int, s: int)
    requires
        0 <= f1,
        0 <= f2,
        0 <= i1 < s,
        0 <= i2 < s,
        f1 != f2 || i1 != i2,
    ensures
        f1 * s + i1 != f2 * s + i2,
{
    if f1 < f2 {
        assert((f1 + 1) * s <= f2 * s) by (nonlinear_arith)
            requires f1 + 1 <= f2, 0 <= s;
        assert((f1 + 1) * s == f1 * s + s) by (nonlinear_arith);
    } else if f2 < f1 {
        assert((f2 + 1) * s <= f1 * s) by (nonlinear_arith)
            requires f2 + 1 <= f1, 0 <= s;
        assert((f2 + 1) * s == f2 * s + s) by (nonlinear_arith);
    }
}

/// A block of `fields` arrays of `stride` 32-bit words.
pub struct SoAWords {
    words: Vec<u32>,
    fields: usize,
    stride: usize,
}

impl SoAWords {
    /// Well-formedness: the flat storage holds exactly `fields * stride` words.
    pub closed spec fn wf(&self) -> bool {
        &&& self.words@.len() == self.fields * self.stride
        &&& self.fields * self.stride <= usize::MAX
    }

    /// Number of fields (arrays) of the block.
    pub closed spec fn field_count(&self) -> nat {
        self.fields as nat
    }

    /// Number of words of each field.
    pub closed spec fn stride_words(&self) -> nat {
        self.stride as nat
    }

    /// Word `i` of field `f`.
    pub closed spec fn word(&self, f: int, i: int) -> u32 {
        self.words@[f * self.stride + i]
    }

    /// The whole block, field after field.
    pub closed spec fn flat(&self) -> Seq<u32> {
        self.words@
    }

    /// Creates a block whose words are all zero.
    pub fn zeroed(fields: usize, stride: usize) -> (r: SoAWords)
        requires
            fields * stride <= usize::MAX,
        ensures
            r.wf(),
            r.field_count() == fields,
            r.stride_words() == stride,
            r.flat().len() == fields * stride,
            forall|f: int, i: int| 0 <= f < fields && 0 <= i < stride ==> #[trigger] r.word(f, i) == 0,
    {
        let n: usize = fields * stride;
        let mut words: Vec<u32> = Vec::new();
        let mut k: usize = 0;
        while k < n
            invariant
                k <= n,
                words@.len() == k,
                forall|j: int| 0 <= j < k ==> words@[j] == 0,
            decreases n - k,
        {
            words.push(0);
            k = k + 1;
        }
        let r = SoAWords { words, fields, stride };
        assert forall|f: int, i: int| 0 <= f < fields && 0 <= i < stride implies #[trigger] r.word(f, i) == 0 by {
            lemma_flat_index_in_block(f, i, fields as int, stride as int);
        }
        r
    }

    /// Number of fields, as an executable value.
    pub fn fields(&self) -> (r: usize)
        ensures
            r == self.field_count(),
    {
        self.fields
    }

    /// Number of words of each field, as an executable value.
    pub fn stride(&self) -> (r: usize)
        ensures
            r == self.stride_words(),
    {
        self.stride
    }

    /// The whole block as a slice of words, field after field.
    pub fn as_slice(&self) -> (r: &[u32])
        ensures
            r@ == self.flat(),
    {
        self.words.as_slice()
    }

    /// Reads word `i` of field `f`.
    pub fn get(&self, f: usize, i: usize) -> (w: u32)
        requires
            self.wf(),
            f < self.field_count(),
            i < self.stride_words(),
        ensures
            w == self.word(f as int, i as int),
    {
        proof {
            lemma_flat_index_in_block(f as int, i as int, self.fields as int, self.stride as int);
        }
        self.words[f * self.stride + i]
    }

    /// Writes word `i` of field `f`, leaving every other word unchanged.
    pub fn set(&mut self, f: usize, i: usize, w: u32)
        requires
            old(self).wf(),
            f < old(self).field_count(),
            i < old(self).stride_words(),
        ensures
            final(self).wf(),
            final(self).field_count() == old(self).field_count(),
            final(self).stride_words() == old(self).stride_words(),
            final(self).word(f as int, i as int) == w,
            forall|f2: int, i2: int|
                0 <= f2 < old(self).field_count() && 0 <= i2 < old(self).stride_words() && (f2 != f
                    || i2 != i) ==> #[trigger] final(self).word(f2, i2) == old(self).word(f2, i2),
    {
        proof {
            lemma_flat_index_in_block(f as int, i as int, self.fields as int, self.stride as int);
        }
        let k: usize = f * self.stride + i;
        self.words.set(k, w);
        proof {
            assert forall|f2: int, i2: int|
                0 <= f2 < old(self).field_count() && 0 <= i2 < old(self).stride_words() && (f2 != f
                    || i2 != i) implies #[trigger] self.word(f2, i2) == old(self).word(f2, i2) by {
                lemma_flat_index_injective(f2, i2, f as int, i as int, self.stride as int);
                lemma_flat_index_in_block(f2, i2, self.fields as int, self.stride as int);
            }
        }
    }

    /// Writes `w` into the first `count` words of field `f`.
    pub fn fill_field(&mut self, f: usize, w: u32, count: usize)
        requires
            old(self).wf(),
            f < old(self).field_count(),
            count <= old(self).stride_words(),
        ensures
            final(self).wf(),
            final(self).field_count() == old(self).field_count(),
            final(self).stride_words() == old(self).stride_words(),
            forall|f2: int, i2: int|
                0 <= f2 < old(self).field_count() && 0 <= i2 < old(self).stride_words() ==> #[trigger] final(self).word(f2, i2) == if f2 == f && i2 < count {
                    w
                } else {
                    old(self).word(f2, i2)
                },
    {
        let mut i: usize = 0;
        while i < count
            invariant
                i <= count,
                f < old(self).field_count(),
                count <= old(self).stride_words(),
                self.wf(),
                self.field_count() == old(self).field_count(),
                self.stride_words() == old(self).stride_words(),
                forall|f2: int, i2: int|
                    0 <= f2 < old(self).field_count() && 0 <= i2 < old(self).stride_words() ==> #[trigger] self.word(f2, i2) == if f2 == f && i2 < i {
                        w
                    } else {
                        old(self).word(f2, i2)
                    },
            decreases count - i,
        {
            self.set(f, i, w);
            i = i + 1;
        }
    }
}

} // verus!

verus! {

/// Number of 32-bit members of a ray.
pub const RAY_FIELDS: usize = 12;
/// Member index of the x coordinate of the ray origin.
pub const RAY_ORG_X: usize = 0;
/// Member index of the y coordinate of the ray origin.
pub const RAY_ORG_Y: usize = 1;
/// Member index of the z coordinate of the ray origin.
pub const RAY_ORG_Z: usize = 2;
/// Member index of the start of the ray segment.
pub const RAY_TNEAR: usize = 3;
/// Member index of the x coordinate of the ray direction.
pub const RAY_DIR_X: usize = 4;
/// Member index of the y coordinate of the ray direction.
pub const RAY_DIR_Y: usize = 5;
/// Member index of the z coordinate of the ray direction.
pub const RAY_DIR_Z: usize = 6;
/// Member index of the ray time.
pub const RAY_TIME: usize = 7;
/// Member index of the end of the ray segment.
pub const RAY_TFAR: usize = 8;
/// Member index of the ray mask.
pub const RAY_MASK: usize = 9;
/// Member index of the ray identifier.
pub const RAY_ID: usize = 10;
/// Member index of the ray flags.
pub const RAY_FLAGS: usize = 11;

/// Number of 32-bit members of a hit.
pub const HIT_FIELDS: usize = 8;
/// Member index of the x coordinate of the geometry normal.
pub const HIT_NG_X: usize = 0;
/// Member index of the y coordinate of the geometry normal.
pub const HIT_NG_Y: usize = 1;
/// Member index of the z coordinate of the geometry normal.
pub const HIT_NG_Z: usize = 2;
/// Member index of the barycentric u coordinate.
pub const HIT_U: usize = 3;
/// Member index of the barycentric v coordinate.
pub const HIT_V: usize = 4;
/// Member index of the primitive identifier.
pub const HIT_PRIM_ID: usize = 5;
/// Member index of the geometry identifier.
pub const HIT_GEOM_ID: usize = 6;
/// Member index of the instance identifier.
pub const HIT_INST_ID: usize = 7;

/// Bit pattern of `f32::INFINITY`.
pub const F32_INFINITY_BITS: u32 = 0x7f80_0000;
/// Bit pattern of `-f32::INFINITY`.
pub const F32_NEG_INFINITY_BITS: u32 = 0xff80_0000;
/// Bit pattern of `1.0f32`.
pub const F32_ONE_BITS: u32 = 0x3f80_0000;

/// The invalid ID for Embree intersection results (e.g. a hit's geometry,
/// primitive or instance ID when nothing was hit).
pub const INVALID_ID: u32 = 0xffff_ffff;

/// `b` holds the same rays as `a` except for members `fs` of ray `i`.
pub open spec fn rays_agree_except<T: SoARay>(a: T, b: T, i: int, fs: Set<int>) -> bool {
    &&& b.ray_count() == a.ray_count()
    &&& forall|f: int, j: int|
        0 <= f < RAY_FIELDS && 0 <= j < a.ray_count() && !(j == i && fs.contains(f))
            ==> #[trigger] b.ray_word(f, j) == a.ray_word(f, j)
}

/// `b` holds the same hits as `a` except for members `fs` of hit `i`.
pub open spec fn hits_agree_except<T: SoAHit>(a: T, b: T, i: int, fs: Set<int>) -> bool {
    &&& b.hit_count() == a.hit_count()
    &&& forall|f: int, j: int|
        0 <= f < HIT_FIELDS && 0 <= j < a.hit_count() && !(j == i && fs.contains(f))
            ==> #[trigger] b.hit_word(f, j) == a.hit_word(f, j)
}

/// Rays in structure-of-arrays layout: each member is an array indexed by ray.
///
/// Floating-point members are read and written as `f32` bit patterns.
pub trait SoARay: Sized {
    /// Whether the storage is well formed.
    spec fn ray_wf(&self) -> bool;

    /// Number of rays that can be addressed.
    spec fn ray_count(&self) -> nat;

    /// Member `f` of ray `i`.
    spec fn ray_word(&self, f: int, i: int) -> u32;

    /// Reads member `f` of ray `i`.
    fn get_ray_word(&self, f: usize, i: usize) -> (w: u32)
        requires
            self.ray_wf(),
            f < RAY_FIELDS,
            i < self.ray_count(),
        ensures
            w == self.ray_word(f as int, i as int),
    ;

    /// Writes member `f` of ray `i`, leaving everything else unchanged.
    fn set_ray_word(&mut self, f: usize, i: usize, w: u32)
        requires
            old(self).ray_wf(),
            f < RAY_FIELDS,
            i < old(self).ray_count(),
        ensures
            final(self).ray_wf(),
            final(self).ray_word(f as int, i as int) == w,
            final(self).ray_count() == old(self).ray_count(),
            forall|f2: int, j: int|
                0 <= f2 < RAY_FIELDS && 0 <= j < old(self).ray_count() && !(j == i && (f2 == f as int))
                    ==> #[trigger] final(self).ray_word(f2, j) == old(self).ray_word(f2, j),
    ;

    /// Origin of ray `i`.
    fn org(&self, i: usize) -> (o: [u32; 3])
        requires
            self.ray_wf(),
            i < self.ray_count(),
        ensures
            o@ == seq![
                self.ray_word(RAY_ORG_X as int, i as int),
                self.ray_word(RAY_ORG_Y as int, i as int),
                self.ray_word(RAY_ORG_Z as int, i as int),
            ],
    {
        [self.get_ray_word(RAY_ORG_X, i), self.get_ray_word(RAY_ORG_Y, i), self.get_ray_word(RAY_ORG_Z, i)]
    }

    /// Sets the origin of ray `i`.
    fn set_org(&mut self, i: usize, o: [u32; 3])
        requires
            old(self).ray_wf(),
            i < old(self).ray_count(),
        ensures
            final(self).ray_wf(),
            final(self).ray_word(RAY_ORG_X as int, i as int) == o[0],
            final(self).ray_word(RAY_ORG_Y as int, i as int) == o[1],
            final(self).ray_word(RAY_ORG_Z as int, i as int) == o[2],
            final(self).ray_count() == old(self).ray_count(),
            forall|f2: int, j: int|
                0 <= f2 < RAY_FIELDS && 0 <= j < old(self).ray_count() && !(j == i && (f2 == RAY_ORG_X as int || f2 == RAY_ORG_Y as int || f2 == RAY_ORG_Z as int))
                    ==> #[trigger] final(self).ray_word(f2, j) == old(self).ray_word(f2, j),
    {
        self.set_ray_word(RAY_ORG_X, i, o[0]);
        self.set_ray_word(RAY_ORG_Y, i, o[1]);
        self.set_ray_word(RAY_ORG_Z, i, o[2]);
    }

    /// Direction of ray `i`.
    fn dir(&self, i: usize) -> (d: [u32; 3])
        requires
            self.ray_wf(),
            i < self.ray_count(),
        ensures
            d@ == seq![
                self.ray_word(RAY_DIR_X as int, i as int),
                self.ray_word(RAY_DIR_Y as int, i as int),
                self.ray_word(RAY_DIR_Z as int, i as int),
            ],
    {
        [self.get_ray_word(RAY_DIR_X, i), self.get_ray_word(RAY_DIR_Y, i), self.get_ray_word(RAY_DIR_Z, i)]
    }

    /// Sets the direction of ray `i`.
    fn set_dir(&mut self, i: usize, d: [u32; 3])
        requires
            old(self).ray_wf(),
            i < old(self).ray_count(),
        ensures
            final(self).ray_wf(),
            final(self).ray_word(RAY_DIR_X as int, i as int) == d[0],
            final(self).ray_word(RAY_DIR_Y as int, i as int) == d[1],
            final(self).ray_word(RAY_DIR_Z as int, i as int) == d[2],
            final(self).ray_count() == old(self).ray_count(),
            forall|f2: int, j: int|
                0 <= f2 < RAY_FIELDS && 0 <= j < old(self).ray_count() && !(j == i && (f2 == RAY_DIR_X as int || f2 == RAY_DIR_Y as int || f2 == RAY_DIR_Z as int))
                    ==> #[trigger] final(self).ray_word(f2, j) == old(self).ray_word(f2, j),
    {
        self.set_ray_word(RAY_DIR_X, i, d[0]);
        self.set_ray_word(RAY_DIR_Y, i, d[1]);
        self.set_ray_word(RAY_DIR_Z, i, d[2]);
    }

    /// Start of the segment of ray `i`.
    fn tnear(&self, i: usize) -> (t: u32)
        requires
            self.ray_wf(),
            i < self.ray_count(),
        ensures
            t == self.ray_word(RAY_TNEAR as int, i as int),
    {
        self.get_ray_word(RAY_TNEAR, i)
    }

    /// Sets the start of the segment of ray `i`.
    fn set_tnear(&mut self, i: usize, t: u32)
        requires
            old(self).ray_wf(),
            i < old(self).ray_count(),
        ensures
            final(self).ray_wf(),
            final(self).ray_word(RAY_TNEAR as int, i as int) == t,
            final(self).ray_count() == old(self).ray_count(),
            forall|f2: int, j: int|
                0 <= f2 < RAY_FIELDS && 0 <= j < old(self).ray_count() && !(j == i && (f2 == RAY_TNEAR as int))
                    ==> #[trigger] final(self).ray_word(f2, j) == old(self).ray_word(f2, j),
    {
        self.set_ray_word(RAY_TNEAR, i, t);
    }

    /// End of the segment of ray `i`.
    fn tfar(&self, i: usize) -> (t: u32)
        requires
            self.ray_wf(),
            i < self.ray_count(),
        ensures
            t == self.ray_word(RAY_TFAR as int, i as int),
    {
        self.get_ray_word(RAY_TFAR, i)
    }

    /// Sets the end of the segment of ray `i`.
    fn set_tfar(&mut self, i: usize, t: u32)
        requires
            old(self).ray_wf(),
            i < old(self).ray_count(),
        ensures
            final(self).ray_wf(),
            final(self).ray_word(RAY_TFAR as int, i as int) == t,
            final(self).ray_count() == old(self).ray_count(),
            forall|f2: int, j: int|
                0 <= f2 < RAY_FIELDS && 0 <= j < old(self).ray_count() && !(j == i && (f2 == RAY_TFAR as int))
                    ==> #[trigger] final(self).ray_word(f2, j) == old(self).ray_word(f2, j),
    {
        self.set_ray_word(RAY_TFAR, i, t);
    }

    /// Time of ray `i`.
    fn time(&self, i: usize) -> (t: u32)
        requires
            self.ray_wf(),
            i < self.ray_count(),
        ensures
            t == self.ray_word(RAY_TIME as int, i as int),
    {
        self.get_ray_word(RAY_TIME, i)
    }

    /// Sets the time of ray `i`.
    fn set_time(&mut self, i: usize, t: u32)
        requires
            old(self).ray_wf(),
            i < old(self).ray_count(),
        ensures
            final(self).ray_wf(),
            final(self).ray_word(RAY_TIME as int, i as int) == t,
            final(self).ray_count() == old(self).ray_count(),
            forall|f2: int, j: int|
                0 <= f2 < RAY_FIELDS && 0 <= j < old(self).ray_count() && !(j == i && (f2 == RAY_TIME as int))
                    ==> #[trigger] final(self).ray_word(f2, j) == old(self).ray_word(f2, j),
    {
        self.set_ray_word(RAY_TIME, i, t);
    }

    /// Mask of ray `i`.
    fn mask(&self, i: usize) -> (m: u32)
        requires
            self.ray_wf(),
            i < self.ray_count(),
        ensures
            m == self.ray_word(RAY_MASK as int, i as int),
    {
        self.get_ray_word(RAY_MASK, i)
    }

    /// Sets the mask of ray `i`.
    fn set_mask(&mut self, i: usize, m: u32)
        requires
            old(self).ray_wf(),
            i < old(self).ray_count(),
        ensures
            final(self).ray_wf(),
            final(self).ray_word(RAY_MASK as int, i as int) == m,
            final(self).ray_count() == old(self).ray_count(),
            forall|f2: int, j: int|
                0 <= f2 < RAY_FIELDS && 0 <= j < old(self).ray_count() && !(j == i && (f2 == RAY_MASK as int))
                    ==> #[trigger] final(self).ray_word(f2, j) == old(self).ray_word(f2, j),
    {
        self.set_ray_word(RAY_MASK, i, m);
    }

    /// Identifier of ray `i`.
    fn id(&self, i: usize) -> (r: u32)
        requires
            self.ray_wf(),
            i < self.ray_count(),
        ensures
            r == self.ray_word(RAY_ID as int, i as int),
    {
        self.get_ray_word(RAY_ID, i)
    }

    /// Sets the identifier of ray `i`.
    fn set_id(&mut self, i: usize, id: u32)
        requires
            old(self).ray_wf(),
            i < old(self).ray_count(),
        ensures
            final(self).ray_wf(),
            final(self).ray_word(RAY_ID as int, i as int) == id,
            final(self).ray_count() == old(self).ray_count(),
            forall|f2: int, j: int|
                0 <= f2 < RAY_FIELDS && 0 <= j < old(self).ray_count() && !(j == i && (f2 == RAY_ID as int))
                    ==> #[trigger] final(self).ray_word(f2, j) == old(self).ray_word(f2, j),
    {
        self.set_ray_word(RAY_ID, i, id);
    }

    /// Flags of ray `i`.
    fn flags(&self, i: usize) -> (r: u32)
        requires
            self.ray_wf(),
            i < self.ray_count(),
        ensures
            r == self.ray_word(RAY_FLAGS as int, i as int),
    {
        self.get_ray_word(RAY_FLAGS, i)
    }

    /// Sets the flags of ray `i`.
    fn set_flags(&mut self, i: usize, flags: u32)
        requires
            old(self).ray_wf(),
            i < old(self).ray_count(),
        ensures
            final(self).ray_wf(),
            final(self).ray_word(RAY_FLAGS as int, i as int) == flags,
            final(self).ray_count() == old(self).ray_count(),
            forall|f2: int, j: int|
                0 <= f2 < RAY_FIELDS && 0 <= j < old(self).ray_count() && !(j == i && (f2 == RAY_FLAGS as int))
                    ==> #[trigger] final(self).ray_word(f2, j) == old(self).ray_word(f2, j),
    {
        self.set_ray_word(RAY_FLAGS, i, flags);
    }
}

} // verus!

verus! {

/// Hits in structure-of-arrays layout: each member is an array indexed by hit.
///
/// Floating-point members are read and written as `f32` bit patterns.
pub trait SoAHit: Sized {
    /// Whether the storage is well formed.
    spec fn hit_wf(&self) -> bool;

    /// Number of hits that can be addressed.
    spec fn hit_count(&self) -> nat;

    /// Member `f` of hit `i`.
    spec fn hit_word(&self, f: int, i: int) -> u32;

    /// Reads member `f` of hit `i`.
    fn get_hit_word(&self, f: usize, i: usize) -> (w: u32)
        requires
            self.hit_wf(),
            f < HIT_FIELDS,
            i < self.hit_count(),
        ensures
            w == self.hit_word(f as int, i as int),
    ;

    /// Writes member `f` of hit `i`, leaving everything else unchanged.
    fn set_hit_word(&mut self, f: usize, i: usize, w: u32)
        requires
            old(self).hit_wf(),
            f < HIT_FIELDS,
            i < old(self).hit_count(),
        ensures
            final(self).hit_wf(),
            final(self).hit_word(f as int, i as int) == w,
            final(self).hit_count() == old(self).hit_count(),
            forall|f2: int, j: int|
                0 <= f2 < HIT_FIELDS && 0 <= j < old(self).hit_count() && !(j == i && (f2 == f as int))
                    ==> #[trigger] final(self).hit_word(f2, j) == old(self).hit_word(f2, j),
    ;

    /// Geometry normal of hit `i` (not normalized).
    fn normal(&self, i: usize) -> (n: [u32; 3])
        requires
            self.hit_wf(),
            i < self.hit_count(),
        ensures
            n@ == seq![
                self.hit_word(HIT_NG_X as int, i as int),
                self.hit_word(HIT_NG_Y as int, i as int),
                self.hit_word(HIT_NG_Z as int, i as int),
            ],
    {
        [self.get_hit_word(HIT_NG_X, i), self.get_hit_word(HIT_NG_Y, i), self.get_hit_word(HIT_NG_Z, i)]
    }

    /// Sets the geometry normal of hit `i`.
    fn set_normal(&mut self, i: usize, n: [u32; 3])
        requires
            old(self).hit_wf(),
            i < old(self).hit_count(),
        ensures
            final(self).hit_wf(),
            final(self).hit_word(HIT_NG_X as int, i as int) == n[0],
            final(self).hit_word(HIT_NG_Y as int, i as int) == n[1],
            final(self).hit_word(HIT_NG_Z as int, i as int) == n[2],
            final(self).hit_count() == old(self).hit_count(),
            forall|f2: int, j: int|
                0 <= f2 < HIT_FIELDS && 0 <= j < old(self).hit_count() && !(j == i && (f2 == HIT_NG_X as int || f2 == HIT_NG_Y as int || f2 == HIT_NG_Z as int))
                    ==> #[trigger] final(self).hit_word(f2, j) == old(self).hit_word(f2, j),
    {
        self.set_hit_word(HIT_NG_X, i, n[0]);
        self.set_hit_word(HIT_NG_Y, i, n[1]);
        self.set_hit_word(HIT_NG_Z, i, n[2]);
    }

    /// Barycentric u coordinate of hit `i`.
    fn u(&self, i: usize) -> (r: u32)
        requires
            self.hit_wf(),
            i < self.hit_count(),
        ensures
            r == self.hit_word(HIT_U as int, i as int),
    {
        self.get_hit_word(HIT_U, i)
    }

    /// Barycentric v coordinate of hit `i`.
    fn v(&self, i: usize) -> (r: u32)
        requires
            self.hit_wf(),
            i < self.hit_count(),
        ensures
            r == self.hit_word(HIT_V as int, i as int),
    {
        self.get_hit_word(HIT_V, i)
    }

    /// Barycentric coordinates `[u, v]` of hit `i`.
    fn uv(&self, i: usize) -> (r: [u32; 2])
        requires
            self.hit_wf(),
            i < self.hit_count(),
        ensures
            r@ == seq![self.hit_word(HIT_U as int, i as int), self.hit_word(HIT_V as int, i as int)],
    {
        [self.get_hit_word(HIT_U, i), self.get_hit_word(HIT_V, i)]
    }

    /// Sets the barycentric u coordinate of hit `i`.
    fn set_u(&mut self, i: usize, u: u32)
        requires
            old(self).hit_wf(),
            i < old(self).hit_count(),
        ensures
            final(self).hit_wf(),
            final(self).hit_word(HIT_U as int, i as int) == u,
            final(self).hit_count() == old(self).hit_count(),
            forall|f2: int, j: int|
                0 <= f2 < HIT_FIELDS && 0 <= j < old(self).hit_count() && !(j == i && (f2 == HIT_U as int))
                    ==> #[trigger] final(self).hit_word(f2, j) == old(self).hit_word(f2, j),
    {
        self.set_hit_word(HIT_U, i, u);
    }

    /// Sets the barycentric v coordinate of hit `i`.
    fn set_v(&mut self, i: usize, v: u32)
        requires
            old(self).hit_wf(),
            i < old(self).hit_count(),
        ensures
            final(self).hit_wf(),
            final(self).hit_word(HIT_V as int, i as int) == v,
            final(self).hit_count() == old(self).hit_count(),
            forall|f2: int, j: int|
                0 <= f2 < HIT_FIELDS && 0 <= j < old(self).hit_count() && !(j == i && (f2 == HIT_V as int))
                    ==> #[trigger] final(self).hit_word(f2, j) == old(self).hit_word(f2, j),
    {
        self.set_hit_word(HIT_V, i, v);
    }

    /// Sets both barycentric coordinates of hit `i`.
    fn set_uv(&mut self, i: usize, uv: [u32; 2])
        requires
            old(self).hit_wf(),
            i < old(self).hit_count(),
        ensures
            final(self).hit_wf(),
            final(self).hit_word(HIT_U as int, i as int) == uv[0],
            final(self).hit_word(HIT_V as int, i as int) == uv[1],
            final(self).hit_count() == old(self).hit_count(),
            forall|f2: int, j: int|
                0 <= f2 < HIT_FIELDS && 0 <= j < old(self).hit_count() && !(j == i && (f2 == HIT_U as int || f2 == HIT_V as int))
                    ==> #[trigger] final(self).hit_word(f2, j) == old(self).hit_word(f2, j),
    {
        self.set_hit_word(HIT_U, i, uv[0]);
        self.set_hit_word(HIT_V, i, uv[1]);
    }

    /// Primitive identifier of hit `i`.
    fn prim_id(&self, i: usize) -> (r: u32)
        requires
            self.hit_wf(),
            i < self.hit_count(),
        ensures
            r == self.hit_word(HIT_PRIM_ID as int, i as int),
    {
        self.get_hit_word(HIT_PRIM_ID, i)
    }

    /// Sets the primitive identifier of hit `i`.
    fn set_prim_id(&mut self, i: usize, id: u32)
        requires
            old(self).hit_wf(),
            i < old(self).hit_count(),
        ensures
            final(self).hit_wf(),
            final(self).hit_word(HIT_PRIM_ID as int, i as int) == id,
            final(self).hit_count() == old(self).hit_count(),
            forall|f2: int, j: int|
                0 <= f2 < HIT_FIELDS && 0 <= j < old(self).hit_count() && !(j == i && (f2 == HIT_PRIM_ID as int))
                    ==> #[trigger] final(self).hit_word(f2, j) == old(self).hit_word(f2, j),
    {
        self.set_hit_word(HIT_PRIM_ID, i, id);
    }

    /// Geometry identifier of hit `i`.
    fn geom_id(&self, i: usize) -> (r: u32)
        requires
            self.hit_wf(),
            i < self.hit_count(),
        ensures
            r == self.hit_word(HIT_GEOM_ID as int, i as int),
    {
        self.get_hit_word(HIT_GEOM_ID, i)
    }

    /// Sets the geometry identifier of hit `i`.
    fn set_geom_id(&mut self, i: usize, id: u32)
        requires
            old(self).hit_wf(),
            i < old(self).hit_count(),
        ensures
            final(self).hit_wf(),
            final(self).hit_word(HIT_GEOM_ID as int, i as int) == id,
            final(self).hit_count() == old(self).hit_count(),
            forall|f2: int, j: int|
                0 <= f2 < HIT_FIELDS && 0 <= j < old(self).hit_count() && !(j == i && (f2 == HIT_GEOM_ID as int))
                    ==> #[trigger] final(self).hit_word(f2, j) == old(self).hit_word(f2, j),
    {
        self.set_hit_word(HIT_GEOM_ID, i, id);
    }

    /// Instance identifier of hit `i`.
    fn inst_id(&self, i: usize) -> (r: u32)
        requires
            self.hit_wf(),
            i < self.hit_count(),
        ensures
            r == self.hit_word(HIT_INST_ID as int, i as int),
    {
        self.get_hit_word(HIT_INST_ID, i)
    }

    /// Sets the instance identifier of hit `i`.
    fn set_inst_id(&mut self, i: usize, id: u32)
        requires
            old(self).hit_wf(),
            i < old(self).hit_count(),
        ensures
            final(self).hit_wf(),
            final(self).hit_word(HIT_INST_ID as int, i as int) == id,
            final(self).hit_count() == old(self).hit_count(),
            forall|f2: int, j: int|
                0 <= f2 < HIT_FIELDS && 0 <= j < old(self).hit_count() && !(j == i && (f2 == HIT_INST_ID as int))
                    ==> #[trigger] final(self).hit_word(f2, j) == old(self).hit_word(f2, j),
    {
        self.set_hit_word(HIT_INST_ID, i, id);
    }

    /// Whether hit `i` hit something: its geometry identifier is not `INVALID_ID`.
    fn hit(&self, i: usize) -> (r: bool)
        requires
            self.hit_wf(),
            i < self.hit_count(),
        ensures
            r == (self.hit_word(HIT_GEOM_ID as int, i as int) != INVALID_ID),
    {
        self.get_hit_word(HIT_GEOM_ID, i) != INVALID_ID
    }
}

} // verus!

//! Ray and hit streams of runtime length in SoA layout.
//!
//! Every member array of a stream occupies the same number of bytes, the
//! stream length times four rounded up to a multiple of 16, so that each
//! member array starts 16-byte aligned relative to the start of the stream.

use vstd::prelude::*;
use crate::align::{aligned_field_size, round_up_16, lemma_round_up_16};
use crate::soa::{
    SoAHit, SoARay, SoAWords, F32_INFINITY_BITS, HIT_FIELDS, HIT_GEOM_ID, HIT_INST_ID, HIT_PRIM_ID, HIT_NG_X, HIT_NG_Y, HIT_NG_Z, HIT_U, HIT_V,
    INVALID_ID, RAY_FIELDS, RAY_MASK, RAY_TFAR, RAY_ORG_X, RAY_ORG_Y, RAY_ORG_Z, RAY_TNEAR,
    RAY_DIR_X, RAY_DIR_Y, RAY_DIR_Z, RAY_TIME, RAY_ID, RAY_FLAGS,
};
use crate::soa_iter::{
    any_hit_in, any_valid_hit, collect_valid_hits, hit_validity, valid_hit_indices, RayHitIter,
    SoAHitIter, SoAHitRef, SoARayIter, SoARayIterMut,
};

verus! {

/// Initial value of word `i` of member `f` of a new ray stream of `n` rays: the
/// mask array is all ones (padding included), `tfar` is infinity for the `n`
/// rays, everything else is zero.
pub open spec fn new_ray_stream_word(f: int, i: int, n: int) -> u32 {
    if f == RAY_MASK {
        0xffff_ffffu32
    } else if f == RAY_TFAR && i < n {
        F32_INFINITY_BITS
    } else {
        0u32
    }
}

/// Initial value of word `i` of member `f` of a new hit stream: the primitive,
/// geometry and instance identifier arrays are all `INVALID_ID` (padding
/// included), everything else is zero.
pub open spec fn new_hit_stream_word(f: int) -> u32 {
    if f == HIT_PRIM_ID || f == HIT_GEOM_ID || f == HIT_INST_ID {
        INVALID_ID
    } else {
        0u32
    }
}

/// Every hit of a new hit stream hit nothing: its primitive, geometry and
/// instance identifiers are all `INVALID_ID`, and its normal and barycentric
/// coordinates are zero.
pub proof fn lemma_new_hit_stream_hits_nothing()
    ensures
        new_hit_stream_word(HIT_PRIM_ID as int) == INVALID_ID,
        new_hit_stream_word(HIT_GEOM_ID as int) == INVALID_ID,
        new_hit_stream_word(HIT_INST_ID as int) == INVALID_ID,
        new_hit_stream_word(HIT_NG_X as int) == 0u32,
        new_hit_stream_word(HIT_NG_Y as int) == 0u32,
        new_hit_stream_word(HIT_NG_Z as int) == 0u32,
        new_hit_stream_word(HIT_U as int) == 0u32,
        new_hit_stream_word(HIT_V as int) == 0u32,
{
}

/// `r` lists the byte offsets of `count` member arrays of `field_size` bytes
/// each, stored one after the other.
pub open spec fn is_member_offsets(r: Seq<usize>, field_size: int, count: int) -> bool {
    &&& r.len() == count
    &&& forall|k: int| 0 <= k < count ==> #[trigger] r[k] == k * field_size
}

/// When member arrays are a multiple of 16 bytes long, every member array of
/// the stream starts at an offset that is a multiple of 16.
pub proof fn lemma_member_offsets_aligned(r: Seq<usize>, field_size: int, count: int)
    requires
        is_member_offsets(r, field_size, count),
        field_size % 16 == 0,
        field_size >= 0,
    ensures
        forall|k: int| 0 <= k < count ==> #[trigger] r[k] % 16 == 0,
{
    assert forall|k: int| 0 <= k < count implies #[trigger] r[k] % 16 == 0 by {
        vstd::arithmetic::div_mod::lemma_mul_mod_noop_right(k, field_size, 16);
        assert(k * (field_size % 16) == 0) by (nonlinear_arith)
            requires field_size % 16 == 0;
    }
}

/// A ray stream stored in SoA format.
///
/// Each ray member array is aligned to 16 bytes.
pub struct RayNp {
    data: SoAWords,
    len: usize,
    aligned_field_size: usize,
}

impl RayNp {
    /// The storage holds the member arrays of `len` entries, each padded to
    /// `aligned_field_size` bytes.
    #[verifier::type_invariant]
    spec fn stream_inv(&self) -> bool {
        &&& self.data.wf()
        &&& self.data.field_count() == RAY_FIELDS
        &&& self.data.stride_words() * 4 == self.aligned_field_size
        &&& self.aligned_field_size == round_up_16(self.len * 4)
        &&& self.len <= self.data.stride_words()
        &&& self.aligned_field_size * 12 <= isize::MAX
    }

    /// Number of rays in the stream.
    pub closed spec fn stream_len(&self) -> nat {
        self.len as nat
    }

    /// Size in bytes of each member array.
    pub closed spec fn field_size(&self) -> nat {
        self.aligned_field_size as nat
    }

    /// Word `i` of member array `f`, padding included.
    pub closed spec fn storage_word(&self, f: int, i: int) -> u32 {
        self.data.word(f, i)
    }

    /// The whole storage, member array after member array.
    pub closed spec fn storage(&self) -> Seq<u32> {
        self.data.flat()
    }

    /// Allocates a new ray stream with room for `n` rays: origins, directions,
    /// `tnear`, time, identifiers and flags are zero, `tfar` is infinity and
    /// the mask is all ones.
    pub fn new(n: usize) -> (r: RayNp)
        requires
            n * 4 + 15 <= usize::MAX,
            round_up_16(n * 4) * 12 <= isize::MAX,
        ensures
            r.stream_len() == n,
            r.field_size() == round_up_16(n * 4),
            forall|f: int, i: int| 0 <= f < RAY_FIELDS && 0 <= i < r.field_size() / 4
                ==> #[trigger] r.storage_word(f, i) == new_ray_stream_word(f, i, n as int),
            forall|i: int| 0 <= i < n ==> {
                &&& #[trigger] r.storage_word(RAY_TFAR as int, i) == 0x7f80_0000u32
                &&& r.storage_word(RAY_MASK as int, i) == 0xffff_ffffu32
                &&& r.storage_word(RAY_ORG_X as int, i) == 0u32
                &&& r.storage_word(RAY_ORG_Y as int, i) == 0u32
                &&& r.storage_word(RAY_ORG_Z as int, i) == 0u32
                &&& r.storage_word(RAY_TNEAR as int, i) == 0u32
                &&& r.storage_word(RAY_DIR_X as int, i) == 0u32
                &&& r.storage_word(RAY_DIR_Y as int, i) == 0u32
                &&& r.storage_word(RAY_DIR_Z as int, i) == 0u32
                &&& r.storage_word(RAY_TIME as int, i) == 0u32
                &&& r.storage_word(RAY_ID as int, i) == 0u32
                &&& r.storage_word(RAY_FLAGS as int, i) == 0u32
            },
    {
        let afs = aligned_field_size(n);
        let stride: usize = afs / 4;
        assert(stride * 4 == afs);
        assert(afs * 12 <= isize::MAX);
        assert(RAY_FIELDS * stride <= usize::MAX);
        assert(n <= stride);
        let mut data = SoAWords::zeroed(RAY_FIELDS, stride);
        data.fill_field(RAY_MASK, 0xffff_ffffu32, stride);
        data.fill_field(RAY_TFAR, F32_INFINITY_BITS, n);
        RayNp { data, len: n, aligned_field_size: afs }
    }

    /// Iterates over the rays of the stream.
    pub fn iter(&self) -> (r: SoARayIter<'_, RayNp>)
        ensures
            r.target() == *self,
            r.position() == 0,
            r.end() == self.stream_len(),
    {
        SoARayIter::new(self, self.len)
    }

    /// Iterates over mutable handles to the rays of the stream.
    pub fn iter_mut(&mut self) -> (r: SoARayIterMut<'_, RayNp>)
        ensures
            r.wf(),
            *r.ray == *old(self),
            *final(r.ray) == *final(self),
            r.cur == 0,
            r.len == old(self).stream_len(),
    {
        let n = self.len;
        SoARayIterMut::new(self, n)
    }

    /// Returns the number of rays in the stream.
    pub fn len(&self) -> (r: usize)
        ensures
            r == self.stream_len(),
    {
        self.len
    }

    /// Returns true if the stream is empty.
    pub fn is_empty(&self) -> (r: bool)
        ensures
            r == (self.stream_len() == 0),
    {
        self.len == 0
    }

    /// Size in bytes of each member array (a multiple of 16).
    pub fn aligned_field_size(&self) -> (r: usize)
        ensures
            r == self.field_size(),
    {
        self.aligned_field_size
    }

    /// Byte offsets, from the start of the stream storage, of the member arrays
    /// in the order org_x, org_y, org_z, tnear, dir_x, dir_y, dir_z, time,
    /// tfar, mask, id, flags.
    pub fn as_raw_mut(&mut self) -> (r: [usize; 12])
        ensures
            *final(self) == *old(self),
            is_member_offsets(r@, old(self).field_size() as int, 12),
    {
        proof { use_type_invariant(&*self); }
        let a = self.aligned_field_size;
        let r = [0, a, 2 * a, 3 * a, 4 * a, 5 * a, 6 * a, 7 * a, 8 * a, 9 * a, 10 * a, 11 * a];
        assert(is_member_offsets(r@, a as int, 12)) by {
            assert(r@[0] == 0 * a && r@[1] == 1 * a && r@[2] == 2 * a && r@[3] == 3 * a);
            assert(r@[4] == 4 * a && r@[5] == 5 * a && r@[6] == 6 * a && r@[7] == 7 * a);
            assert(r@[8] == 8 * a && r@[9] == 9 * a && r@[10] == 10 * a && r@[11] == 11 * a);
        }
        r
    }

    /// The stream storage as words, member array after member array.
    pub fn as_words(&self) -> (r: &[u32])
        ensures
            r@ == self.storage(),
    {
        self.data.as_slice()
    }
}

impl SoARay for RayNp {
    open spec fn ray_wf(&self) -> bool {
        true
    }

    open spec fn ray_count(&self) -> nat {
        self.stream_len()
    }

    open spec fn ray_word(&self, f: int, i: int) -> u32 {
        self.storage_word(f, i)
    }

    fn get_ray_word(&self, f: usize, i: usize) -> (w: u32) {
        proof { use_type_invariant(self); }
        self.data.get(f, i)
    }

    fn set_ray_word(&mut self, f: usize, i: usize, w: u32) {
        proof { use_type_invariant(&*self); }
        let mut taken = RayNp { data: SoAWords::zeroed(RAY_FIELDS, 0), len: 0, aligned_field_size: 0 };
        proof { lemma_round_up_16(0); }
        std::mem::swap(self, &mut taken);
        proof { use_type_invariant(&taken); }
        let RayNp { mut data, len, aligned_field_size } = taken;
        data.set(f, i, w);
        *self = RayNp { data, len, aligned_field_size };
    }
}

/// The storage of a hit stream whose member arrays hold `stride` words each,
/// every hit hitting nothing.
fn new_hit_words(stride: usize) -> (d: SoAWords)
    requires
        HIT_FIELDS * stride <= usize::MAX,
    ensures
        d.wf(),
        d.field_count() == HIT_FIELDS,
        d.stride_words() == stride,
        forall|f: int, i: int| 0 <= f < HIT_FIELDS && 0 <= i < stride
            ==> #[trigger] d.word(f, i) == new_hit_stream_word(f),
{
    let mut data = SoAWords::zeroed(HIT_FIELDS, stride);
    data.fill_field(HIT_PRIM_ID, INVALID_ID, stride);
    let ghost d1 = data;
    data.fill_field(HIT_GEOM_ID, INVALID_ID, stride);
    let ghost d2 = data;
    data.fill_field(HIT_INST_ID, INVALID_ID, stride);
    assert forall|f: int, i: int| 0 <= f < HIT_FIELDS && 0 <= i < stride
        implies #[trigger] data.word(f, i) == new_hit_stream_word(f) by {
        assert(data.word(f, i) == if f == HIT_INST_ID { INVALID_ID } else { d2.word(f, i) });
        assert(d2.word(f, i) == if f == HIT_GEOM_ID { INVALID_ID } else { d1.word(f, i) });
    }
    data
}

/// A hit stream in SoA format.
///
/// Each hit member array is aligned to 16 bytes.
pub struct HitNp {
    data: SoAWords,
    len: usize,
    aligned_field_size: usize,
}

impl HitNp {
    /// The storage holds the member arrays of `len` entries, each padded to
    /// `aligned_field_size` bytes.
    #[verifier::type_invariant]
    spec fn stream_inv(&self) -> bool {
        &&& self.data.wf()
        &&& self.data.field_count() == HIT_FIELDS
        &&& self.data.stride_words() * 4 == self.aligned_field_size
        &&& self.aligned_field_size == round_up_16(self.len * 4)
        &&& self.len <= self.data.stride_words()
        &&& self.aligned_field_size * 8 <= isize::MAX
    }

    /// Number of hits in the stream.
    pub closed spec fn stream_len(&self) -> nat {
        self.len as nat
    }

    /// Size in bytes of each member array.
    pub closed spec fn field_size(&self) -> nat {
        self.aligned_field_size as nat
    }

    /// Word `i` of member array `f`, padding included.
    pub closed spec fn storage_word(&self, f: int, i: int) -> u32 {
        self.data.word(f, i)
    }

    /// The whole storage, member array after member array.
    pub closed spec fn storage(&self) -> Seq<u32> {
        self.data.flat()
    }

    /// Allocates a new hit stream with room for `n` hits: normals and
    /// barycentric coordinates are zero, the identifiers are `INVALID_ID`.
    pub fn new(n: usize) -> (r: HitNp)
        requires
            n * 4 + 15 <= usize::MAX,
            round_up_16(n * 4) * 8 <= isize::MAX,
        ensures
            r.stream_len() == n,
            r.field_size() == round_up_16(n * 4),
            forall|f: int, i: int| 0 <= f < HIT_FIELDS && 0 <= i < r.field_size() / 4
                ==> #[trigger] r.storage_word(f, i) == new_hit_stream_word(f),
            forall|i: int| 0 <= i < n ==> {
                &&& #[trigger] r.storage_word(HIT_PRIM_ID as int, i) == INVALID_ID
                &&& r.storage_word(HIT_GEOM_ID as int, i) == INVALID_ID
                &&& r.storage_word(HIT_INST_ID as int, i) == INVALID_ID
                &&& r.storage_word(HIT_NG_X as int, i) == 0u32
                &&& r.storage_word(HIT_NG_Y as int, i) == 0u32
                &&& r.storage_word(HIT_NG_Z as int, i) == 0u32
                &&& r.storage_word(HIT_U as int, i) == 0u32
                &&& r.storage_word(HIT_V as int, i) == 0u32
            },
    {
        let afs = aligned_field_size(n);
        let stride: usize = afs / 4;
        assert(stride * 4 == afs);
        assert(afs * 8 <= isize::MAX);
        assert(HIT_FIELDS * stride <= usize::MAX);
        assert(n <= stride);
        let data = new_hit_words(stride);
        HitNp { data, len: n, aligned_field_size: afs }
    }

    /// Whether any hit of the stream hit something.
    pub fn any_hit(&self) -> (r: bool)
        ensures
            r == any_valid_hit(*self, self.stream_len()),
    {
        any_hit_in(self, self.len)
    }

    /// For each hit of the stream, whether it hit something.
    pub fn iter_validity(&self) -> (r: Vec<bool>)
        ensures
            r@.len() == self.stream_len(),
            forall|i: int| 0 <= i < self.stream_len() ==> #[trigger] r@[i] == (self.hit_word(HIT_GEOM_ID as int, i) != INVALID_ID),
    {
        hit_validity(self, self.len)
    }

    /// Iterates over the hits of the stream.
    pub fn iter(&self) -> (r: SoAHitIter<'_, HitNp>)
        ensures
            r.target() == *self,
            r.position() == 0,
            r.end() == self.stream_len(),
    {
        SoAHitIter::new(self, self.len)
    }

    /// Handles to the hits of the stream that hit something, in order.
    pub fn iter_hits(&self) -> (r: Vec<SoAHitRef<'_, HitNp>>)
        ensures
            r@.len() == valid_hit_indices(*self, self.stream_len()).len(),
            forall|k: int| 0 <= k < r@.len() ==> (#[trigger] r@[k]).target() == *self
                && r@[k].index() == valid_hit_indices(*self, self.stream_len())[k],
    {
        collect_valid_hits(self, self.len)
    }

    /// Returns the number of hits in the stream.
    pub fn len(&self) -> (r: usize)
        ensures
            r == self.stream_len(),
    {
        self.len
    }

    /// Returns true if the stream is empty.
    pub fn is_empty(&self) -> (r: bool)
        ensures
            r == (self.stream_len() == 0),
    {
        self.len == 0
    }

    /// Size in bytes of each member array (a multiple of 16).
    pub fn aligned_field_size(&self) -> (r: usize)
        ensures
            r == self.field_size(),
    {
        self.aligned_field_size
    }

    /// Byte offsets, from the start of the stream storage, of the member arrays
    /// in the order Ng_x, Ng_y, Ng_z, u, v, primID, geomID, instID.
    pub fn as_raw_mut(&mut self) -> (r: [usize; 8])
        ensures
            *final(self) == *old(self),
            is_member_offsets(r@, old(self).field_size() as int, 8),
    {
        proof { use_type_invariant(&*self); }
        let a = self.aligned_field_size;
        let r = [0, a, 2 * a, 3 * a, 4 * a, 5 * a, 6 * a, 7 * a];
        assert(is_member_offsets(r@, a as int, 8)) by {
            assert(r@[0] == 0 * a && r@[1] == 1 * a && r@[2] == 2 * a && r@[3] == 3 * a);
            assert(r@[4] == 4 * a && r@[5] == 5 * a && r@[6] == 6 * a && r@[7] == 7 * a);
        }
        r
    }

    /// The stream storage as words, member array after member array.
    pub fn as_words(&self) -> (r: &[u32])
        ensures
            r@ == self.storage(),
    {
        self.data.as_slice()
    }
}

impl SoAHit for HitNp {
    open spec fn hit_wf(&self) -> bool {
        true
    }

    open spec fn hit_count(&self) -> nat {
        self.stream_len()
    }

    open spec fn hit_word(&self, f: int, i: int) -> u32 {
        self.storage_word(f, i)
    }

    fn get_hit_word(&self, f: usize, i: usize) -> (w: u32) {
        proof { use_type_invariant(self); }
        self.data.get(f, i)
    }

    fn set_hit_word(&mut self, f: usize, i: usize, w: u32) {
        proof { use_type_invariant(&*self); }
        let mut taken = HitNp { data: SoAWords::zeroed(HIT_FIELDS, 0), len: 0, aligned_field_size: 0 };
        proof { lemma_round_up_16(0); }
        std::mem::swap(self, &mut taken);
        proof { use_type_invariant(&taken); }
        let HitNp { mut data, len, aligned_field_size } = taken;
        data.set(f, i, w);
        *self = HitNp { data, len, aligned_field_size };
    }
}

/// Byte offsets of the member arrays of a ray stream and of a hit stream.
pub struct RayHitNpOffsets {
    /// Offsets of the ray member arrays, in the order of [`RayNp::as_raw_mut`].
    pub ray: [usize; 12],
    /// Offsets of the hit member arrays, in the order of [`HitNp::as_raw_mut`].
    pub hit: [usize; 8],
}

/// A ray stream together with the hit stream that receives its results.
pub struct RayHitNp {
    /// The rays.
    pub ray: RayNp,
    /// The hits, one per ray.
    pub hit: HitNp,
}

impl RayHitNp {
    /// Both streams have the same length.
    pub open spec fn wf(&self) -> bool {
        self.ray.stream_len() == self.hit.stream_len()
    }

    /// Pairs `ray` with a new hit stream of the same length.
    pub fn new(ray: RayNp) -> (r: RayHitNp)
        ensures
            r.wf(),
            r.ray == ray,
            r.hit.field_size() == ray.field_size(),
            forall|f: int, i: int| 0 <= f < HIT_FIELDS && 0 <= i < r.hit.field_size() / 4
                ==> #[trigger] r.hit.storage_word(f, i) == new_hit_stream_word(f),
            forall|i: int| 0 <= i < ray.stream_len() ==> {
                &&& #[trigger] r.hit.storage_word(HIT_PRIM_ID as int, i) == INVALID_ID
                &&& r.hit.storage_word(HIT_GEOM_ID as int, i) == INVALID_ID
                &&& r.hit.storage_word(HIT_INST_ID as int, i) == INVALID_ID
                &&& r.hit.storage_word(HIT_NG_X as int, i) == 0u32
                &&& r.hit.storage_word(HIT_NG_Y as int, i) == 0u32
                &&& r.hit.storage_word(HIT_NG_Z as int, i) == 0u32
                &&& r.hit.storage_word(HIT_U as int, i) == 0u32
                &&& r.hit.storage_word(HIT_V as int, i) == 0u32
            },
    {
        proof { use_type_invariant(&ray); }
        let n = ray.len();
        proof {
            lemma_round_up_16(n * 4);
        }
        RayHitNp { ray, hit: HitNp::new(n) }
    }

    /// Iterates over pairs of rays and hits.
    pub fn iter(&self) -> (r: RayHitIter<'_, RayNp, HitNp>)
        ensures
            r.ray_iter().target() == self.ray,
            r.ray_iter().position() == 0,
            r.ray_iter().end() == self.ray.stream_len(),
            r.hit_iter().target() == self.hit,
            r.hit_iter().position() == 0,
            r.hit_iter().end() == self.hit.stream_len(),
    {
        RayHitIter::new(self.ray.iter(), self.hit.iter())
    }

    /// Returns the number of rays.
    pub fn len(&self) -> (r: usize)
        ensures
            r == self.ray.stream_len(),
    {
        self.ray.len()
    }

    /// Returns true if there are no rays.
    pub fn is_empty(&self) -> (r: bool)
        ensures
            r == (self.ray.stream_len() == 0),
    {
        self.len() == 0
    }

    /// Byte offsets of the member arrays of both streams.
    pub fn as_raw(&mut self) -> (r: RayHitNpOffsets)
        requires
            old(self).wf(),
        ensures
            *final(self) == *old(self),
            is_member_offsets(r.ray@, old(self).ray.field_size() as int, 12),
            is_member_offsets(r.hit@, old(self).hit.field_size() as int, 8),
    {
        RayHitNpOffsets { ray: self.ray.as_raw_mut(), hit: self.hit.as_raw_mut() }
    }
}

} // verus!

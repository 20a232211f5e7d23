//! Ray and hit packets of 4, 8 and 16 rays in SoA layout.
//!
//! A packet of `N` rays stores each ray member as an array of `N` words, in
//! the member order of [`crate::soa`]; it is laid out like a ray stream of
//! `N` rays.

use vstd::prelude::*;
use crate::soa::{
    SoAHit, SoARay, SoAWords, F32_INFINITY_BITS, HIT_FIELDS, HIT_GEOM_ID, HIT_INST_ID, HIT_PRIM_ID,
    INVALID_ID, RAY_DIR_X, RAY_DIR_Y, RAY_DIR_Z, RAY_FIELDS, RAY_MASK, RAY_ORG_X, RAY_ORG_Y,
    RAY_ORG_Z, RAY_TFAR, RAY_TIME, RAY_TNEAR,
};
use crate::soa_iter::{
    any_hit_in, any_valid_hit, collect_valid_hits, hit_validity, valid_hit_indices, RayHitIter,
    SoAHitIter, SoAHitRef, SoARayIter, SoARayIterMut,
};

verus! {

/// Member `f` of ray `i` of a packet built from per-ray origins, directions
/// and segments: time, identifier and flags are zero, the mask is all ones.
pub open spec fn segment_word(
    origin: Seq<[u32; 3]>,
    dir: Seq<[u32; 3]>,
    tnear: Seq<u32>,
    tfar: Seq<u32>,
    f: int,
    i: int,
) -> u32 {
    if f == RAY_ORG_X {
        origin[i]@[0]
    } else if f == RAY_ORG_Y {
        origin[i]@[1]
    } else if f == RAY_ORG_Z {
        origin[i]@[2]
    } else if f == RAY_DIR_X {
        dir[i]@[0]
    } else if f == RAY_DIR_Y {
        dir[i]@[1]
    } else if f == RAY_DIR_Z {
        dir[i]@[2]
    } else if f == RAY_TNEAR {
        tnear[i]
    } else if f == RAY_TFAR {
        tfar[i]
    } else if f == RAY_MASK {
        0xffff_ffffu32
    } else {
        0u32
    }
}

/// Member `f` of a hit of a new hit packet: identifiers are `INVALID_ID`,
/// everything else is zero.
pub open spec fn empty_hit_word(f: int) -> u32 {
    if f == HIT_PRIM_ID || f == HIT_GEOM_ID || f == HIT_INST_ID {
        INVALID_ID
    } else {
        0u32
    }
}

/// Writes the origin, direction and segment of ray `i` of a packet.
fn write_segment_at(data: &mut SoAWords, i: usize, o: [u32; 3], d: [u32; 3], tn: u32, tf: u32)
    requires
        old(data).wf(),
        old(data).field_count() == RAY_FIELDS,
        i < old(data).stride_words(),
    ensures
        final(data).wf(),
        final(data).field_count() == RAY_FIELDS,
        final(data).stride_words() == old(data).stride_words(),
        final(data).word(RAY_ORG_X as int, i as int) == o@[0],
        final(data).word(RAY_ORG_Y as int, i as int) == o@[1],
        final(data).word(RAY_ORG_Z as int, i as int) == o@[2],
        final(data).word(RAY_DIR_X as int, i as int) == d@[0],
        final(data).word(RAY_DIR_Y as int, i as int) == d@[1],
        final(data).word(RAY_DIR_Z as int, i as int) == d@[2],
        final(data).word(RAY_TNEAR as int, i as int) == tn,
        final(data).word(RAY_TFAR as int, i as int) == tf,
        forall|f: int, j: int|
            0 <= f < RAY_FIELDS && 0 <= j < old(data).stride_words() && (j != i || f == RAY_MASK
                || f > RAY_TFAR || f == RAY_TIME) ==> #[trigger] final(data).word(f, j) == old(data).word(f, j),
{
    data.set(RAY_ORG_X, i, o[0]);
    data.set(RAY_ORG_Y, i, o[1]);
    data.set(RAY_ORG_Z, i, o[2]);
    data.set(RAY_TNEAR, i, tn);
    data.set(RAY_DIR_X, i, d[0]);
    data.set(RAY_DIR_Y, i, d[1]);
    data.set(RAY_DIR_Z, i, d[2]);
    data.set(RAY_TFAR, i, tf);
}

/// Builds the storage of a packet of `n` rays from per-ray origins, directions and segments.
fn build_ray_packet(
    n: usize,
    origin: &[[u32; 3]],
    dir: &[[u32; 3]],
    tnear: &[u32],
    tfar: &[u32],
) -> (r: SoAWords)
    requires
        n <= 16,
        origin@.len() == n,
        dir@.len() == n,
        tnear@.len() == n,
        tfar@.len() == n,
    ensures
        r.wf(),
        r.field_count() == RAY_FIELDS,
        r.stride_words() == n,
        forall|f: int, i: int| 0 <= f < RAY_FIELDS && 0 <= i < n
            ==> #[trigger] r.word(f, i) == segment_word(origin@, dir@, tnear@, tfar@, f, i),
{
    let mut data = SoAWords::zeroed(RAY_FIELDS, n);
    data.fill_field(RAY_MASK, 0xffff_ffffu32, n);
    let mut i: usize = 0;
    while i < n
        invariant
            i <= n,
            n <= 16,
            origin@.len() == n,
            dir@.len() == n,
            tnear@.len() == n,
            tfar@.len() == n,
            data.wf(),
            data.field_count() == RAY_FIELDS,
            data.stride_words() == n,
            forall|f: int, j: int| 0 <= f < RAY_FIELDS && 0 <= j < n ==> #[trigger] data.word(f, j) == if j < i {
                segment_word(origin@, dir@, tnear@, tfar@, f, j)
            } else if f == RAY_MASK {
                0xffff_ffffu32
            } else {
                0u32
            },
        decreases n - i,
    {
        write_segment_at(&mut data, i, origin[i], dir[i], tnear[i], tfar[i]);
        i = i + 1;
    }
    data
}

/// Builds the storage of a packet of `n` hits that hit nothing.
fn build_hit_packet(n: usize) -> (r: SoAWords)
    requires
        n <= 16,
    ensures
        r.wf(),
        r.field_count() == HIT_FIELDS,
        r.stride_words() == n,
        forall|f: int, i: int| 0 <= f < HIT_FIELDS && 0 <= i < n
            ==> #[trigger] r.word(f, i) == empty_hit_word(f),
{
    let mut data = SoAWords::zeroed(HIT_FIELDS, n);
    data.fill_field(HIT_PRIM_ID, INVALID_ID, n);
    let ghost d1 = data;
    data.fill_field(HIT_GEOM_ID, INVALID_ID, n);
    let ghost d2 = data;
    data.fill_field(HIT_INST_ID, INVALID_ID, n);
    assert forall|f: int, i: int| 0 <= f < HIT_FIELDS && 0 <= i < n
        implies #[trigger] data.word(f, i) == empty_hit_word(f) by {
        assert(data.word(f, i) == if f == HIT_INST_ID { INVALID_ID } else { d2.word(f, i) });
        assert(d2.word(f, i) == if f == HIT_GEOM_ID { INVALID_ID } else { d1.word(f, i) });
    }
    data
}

} // verus!

verus! {

/// A ray packet of size 4.
pub struct Ray4 {
    data: SoAWords,
}

impl Ray4 {
    /// Well-formedness of the packet.
    pub closed spec fn wf(&self) -> bool {
        &&& self.data.wf()
        &&& self.data.field_count() == RAY_FIELDS
        &&& self.data.stride_words() == 4
    }

    /// Member `f` of ray `i`.
    pub closed spec fn word(&self, f: int, i: int) -> u32 {
        self.data.word(f, i)
    }

    /// The whole storage, member array after member array.
    pub closed spec fn storage(&self) -> Seq<u32> {
        self.data.flat()
    }

    /// Creates a packet of rays with the given origins and directions, whose
    /// segments start at zero and reach to infinity.
    pub fn new(origin: [[u32; 3]; 4], dir: [[u32; 3]; 4]) -> (r: Ray4)
        ensures
            r.wf(),
            forall|f: int, i: int| 0 <= f < RAY_FIELDS && 0 <= i < 4 ==> #[trigger] r.word(f, i)
                == segment_word(origin@, dir@, Seq::new(4, |k: int| 0u32), Seq::new(4, |k: int| F32_INFINITY_BITS), f, i),
    {
        let tnear = [0u32; 4];
        let tfar = [F32_INFINITY_BITS; 4];
        assert(tnear@ =~= Seq::new(4, |k: int| 0u32));
        assert(tfar@ =~= Seq::new(4, |k: int| F32_INFINITY_BITS));
        Ray4::segment(origin, dir, tnear, tfar)
    }

    /// Creates a packet of rays with the given origins, directions and segments;
    /// time, identifiers and flags are zero and the masks are all ones.
    pub fn segment(origin: [[u32; 3]; 4], dir: [[u32; 3]; 4], tnear: [u32; 4], tfar: [u32; 4]) -> (r: Ray4)
        ensures
            r.wf(),
            forall|f: int, i: int| 0 <= f < RAY_FIELDS && 0 <= i < 4 ==> #[trigger] r.word(f, i)
                == segment_word(origin@, dir@, tnear@, tfar@, f, i),
    {
        Ray4 { data: build_ray_packet(4, origin.as_slice(), dir.as_slice(), tnear.as_slice(), tfar.as_slice()) }
    }

    /// Creates a packet of rays at the origin with zero direction, whose
    /// segments start at zero and reach to infinity.
    pub fn empty() -> (r: Ray4)
        ensures
            r.wf(),
            forall|f: int, i: int| 0 <= f < RAY_FIELDS && 0 <= i < 4 ==> #[trigger] r.word(f, i)
                == if f == RAY_MASK { 0xffff_ffffu32 } else if f == RAY_TFAR { F32_INFINITY_BITS } else { 0u32 },
    {
        let zero3 = [0u32; 3];
        let origin = [zero3; 4];
        let tnear = [0u32; 4];
        let tfar = [F32_INFINITY_BITS; 4];
        assert(zero3@ =~= seq![0u32, 0u32, 0u32]);
        assert(forall|k: int| 0 <= k < 4 ==> origin@[k] == zero3);
        assert(forall|k: int| 0 <= k < 4 ==> tnear@[k] == 0u32);
        assert(forall|k: int| 0 <= k < 4 ==> tfar@[k] == F32_INFINITY_BITS);
        Ray4::segment(origin, origin, tnear, tfar)
    }

    /// Iterates over the rays of the packet.
    pub fn iter(&self) -> (r: SoARayIter<'_, Ray4>)
        requires
            self.wf(),
        ensures
            r.target() == *self,
            r.position() == 0,
            r.end() == 4,
    {
        SoARayIter::new(self, 4)
    }

    /// Iterates over mutable handles to the rays of the packet.
    pub fn iter_mut(&mut self) -> (r: SoARayIterMut<'_, Ray4>)
        requires
            old(self).wf(),
        ensures
            r.wf(),
            *r.ray == *old(self),
            *final(r.ray) == *final(self),
            r.cur == 0,
            r.len == 4,
    {
        SoARayIterMut::new(self, 4)
    }

    /// The packet storage as words, member array after member array.
    pub fn as_words(&self) -> (r: &[u32])
        ensures
            r@ == self.storage(),
    {
        self.data.as_slice()
    }
}

impl Default for Ray4 {
    /// The empty packet of [`Ray4::empty`].
    fn default() -> (r: Ray4)
        ensures
            r.wf(),
            forall|f: int, i: int| 0 <= f < RAY_FIELDS && 0 <= i < 4 ==> #[trigger] r.word(f, i)
                == if f == RAY_MASK { 0xffff_ffffu32 } else if f == RAY_TFAR { F32_INFINITY_BITS } else { 0u32 },
    {
        Ray4::empty()
    }
}

impl SoARay for Ray4 {
    open spec fn ray_wf(&self) -> bool {
        self.wf()
    }

    open spec fn ray_count(&self) -> nat {
        4
    }

    open spec fn ray_word(&self, f: int, i: int) -> u32 {
        self.word(f, i)
    }

    fn get_ray_word(&self, f: usize, i: usize) -> (w: u32) {
        self.data.get(f, i)
    }

    fn set_ray_word(&mut self, f: usize, i: usize, w: u32) {
        self.data.set(f, i, w);
    }
}

/// A hit packet of size 4.
pub struct Hit4 {
    data: SoAWords,
}

impl Hit4 {
    /// Well-formedness of the packet.
    pub closed spec fn wf(&self) -> bool {
        &&& self.data.wf()
        &&& self.data.field_count() == HIT_FIELDS
        &&& self.data.stride_words() == 4
    }

    /// Member `f` of hit `i`.
    pub closed spec fn word(&self, f: int, i: int) -> u32 {
        self.data.word(f, i)
    }

    /// The whole storage, member array after member array.
    pub closed spec fn storage(&self) -> Seq<u32> {
        self.data.flat()
    }

    /// Creates a packet of hits that hit nothing: normals and barycentric
    /// coordinates are zero, identifiers are `INVALID_ID`.
    pub fn new() -> (r: Hit4)
        ensures
            r.wf(),
            forall|f: int, i: int| 0 <= f < HIT_FIELDS && 0 <= i < 4 ==> #[trigger] r.word(f, i) == empty_hit_word(f),
    {
        Hit4 { data: build_hit_packet(4) }
    }

    /// Whether any ray of the packet hit something.
    pub fn any_hit(&self) -> (r: bool)
        requires
            self.wf(),
        ensures
            r == any_valid_hit(*self, 4),
    {
        any_hit_in(self, 4)
    }

    /// For each ray of the packet, whether it hit something.
    pub fn hits(&self) -> (r: Vec<bool>)
        requires
            self.wf(),
        ensures
            r@.len() == 4,
            forall|i: int| 0 <= i < 4 ==> #[trigger] r@[i] == (self.word(HIT_GEOM_ID as int, i) != INVALID_ID),
    {
        hit_validity(self, 4)
    }

    /// Iterates over the hits of the packet.
    pub fn iter(&self) -> (r: SoAHitIter<'_, Hit4>)
        requires
            self.wf(),
        ensures
            r.target() == *self,
            r.position() == 0,
            r.end() == 4,
    {
        SoAHitIter::new(self, 4)
    }

    /// Handles to the hits of the packet that hit something, in order.
    pub fn iter_hits(&self) -> (r: Vec<SoAHitRef<'_, Hit4>>)
        requires
            self.wf(),
        ensures
            r@.len() == valid_hit_indices(*self, 4).len(),
            forall|k: int| 0 <= k < r@.len() ==> (#[trigger] r@[k]).target() == *self
                && r@[k].index() == valid_hit_indices(*self, 4)[k],
    {
        collect_valid_hits(self, 4)
    }

    /// The packet storage as words, member array after member array.
    pub fn as_words(&self) -> (r: &[u32])
        ensures
            r@ == self.storage(),
    {
        self.data.as_slice()
    }
}

impl Default for Hit4 {
    /// The packet of [`Hit4::new`], which hit nothing.
    fn default() -> (r: Hit4)
        ensures
            r.wf(),
            forall|f: int, i: int| 0 <= f < HIT_FIELDS && 0 <= i < 4 ==> #[trigger] r.word(f, i) == empty_hit_word(f),
    {
        Hit4::new()
    }
}

impl SoAHit for Hit4 {
    open spec fn hit_wf(&self) -> bool {
        self.wf()
    }

    open spec fn hit_count(&self) -> nat {
        4
    }

    open spec fn hit_word(&self, f: int, i: int) -> u32 {
        self.word(f, i)
    }

    fn get_hit_word(&self, f: usize, i: usize) -> (w: u32) {
        self.data.get(f, i)
    }

    fn set_hit_word(&mut self, f: usize, i: usize, w: u32) {
        self.data.set(f, i, w);
    }
}

/// A ray packet of size 4 together with the hit packet receiving its results.
pub struct RayHit4 {
    /// The rays.
    pub ray: Ray4,
    /// The hits.
    pub hit: Hit4,
}

impl RayHit4 {
    /// Both packets are well formed.
    pub open spec fn wf(&self) -> bool {
        self.ray.wf() && self.hit.wf()
    }

    /// Pairs `ray` with a hit packet that hit nothing.
    pub fn new(ray: Ray4) -> (r: RayHit4)
        requires
            ray.wf(),
        ensures
            r.wf(),
            r.ray == ray,
            forall|f: int, i: int| 0 <= f < HIT_FIELDS && 0 <= i < 4 ==> #[trigger] r.hit.word(f, i) == empty_hit_word(f),
    {
        RayHit4 { ray, hit: Hit4::new() }
    }

    /// Iterates over pairs of rays and hits.
    pub fn iter(&self) -> (r: RayHitIter<'_, Ray4, Hit4>)
        requires
            self.wf(),
        ensures
            r.ray_iter().target() == self.ray,
            r.ray_iter().position() == 0,
            r.ray_iter().end() == 4,
            r.hit_iter().target() == self.hit,
            r.hit_iter().position() == 0,
            r.hit_iter().end() == 4,
    {
        RayHitIter::new(self.ray.iter(), self.hit.iter())
    }
}

} // verus!

verus! {

/// A ray packet of size 8.
pub struct Ray8 {
    data: SoAWords,
}

impl Ray8 {
    /// Well-formedness of the packet.
    pub closed spec fn wf(&self) -> bool {
        &&& self.data.wf()
        &&& self.data.field_count() == RAY_FIELDS
        &&& self.data.stride_words() == 8
    }

    /// Member `f` of ray `i`.
    pub closed spec fn word(&self, f: int, i: int) -> u32 {
        self.data.word(f, i)
    }

    /// The whole storage, member array after member array.
    pub closed spec fn storage(&self) -> Seq<u32> {
        self.data.flat()
    }

    /// Creates a packet of rays with the given origins and directions, whose
    /// segments start at zero and reach to infinity.
    pub fn new(origin: [[u32; 3]; 8], dir: [[u32; 3]; 8]) -> (r: Ray8)
        ensures
            r.wf(),
            forall|f: int, i: int| 0 <= f < RAY_FIELDS && 0 <= i < 8 ==> #[trigger] r.word(f, i)
                == segment_word(origin@, dir@, Seq::new(8, |k: int| 0u32), Seq::new(8, |k: int| F32_INFINITY_BITS), f, i),
    {
        let tnear = [0u32; 8];
        let tfar = [F32_INFINITY_BITS; 8];
        assert(tnear@ =~= Seq::new(8, |k: int| 0u32));
        assert(tfar@ =~= Seq::new(8, |k: int| F32_INFINITY_BITS));
        Ray8::segment(origin, dir, tnear, tfar)
    }

    /// Creates a packet of rays with the given origins, directions and segments;
    /// time, identifiers and flags are zero and the masks are all ones.
    pub fn segment(origin: [[u32; 3]; 8], dir: [[u32; 3]; 8], tnear: [u32; 8], tfar: [u32; 8]) -> (r: Ray8)
        ensures
            r.wf(),
            forall|f: int, i: int| 0 <= f < RAY_FIELDS && 0 <= i < 8 ==> #[trigger] r.word(f, i)
                == segment_word(origin@, dir@, tnear@, tfar@, f, i),
    {
        Ray8 { data: build_ray_packet(8, origin.as_slice(), dir.as_slice(), tnear.as_slice(), tfar.as_slice()) }
    }

    /// Creates a packet of rays at the origin with zero direction, whose
    /// segments start at zero and reach to infinity.
    pub fn empty() -> (r: Ray8)
        ensures
            r.wf(),
            forall|f: int, i: int| 0 <= f < RAY_FIELDS && 0 <= i < 8 ==> #[trigger] r.word(f, i)
                == if f == RAY_MASK { 0xffff_ffffu32 } else if f == RAY_TFAR { F32_INFINITY_BITS } else { 0u32 },
    {
        let zero3 = [0u32; 3];
        let origin = [zero3; 8];
        let tnear = [0u32; 8];
        let tfar = [F32_INFINITY_BITS; 8];
        assert(zero3@ =~= seq![0u32, 0u32, 0u32]);
        assert(forall|k: int| 0 <= k < 8 ==> origin@[k] == zero3);
        assert(forall|k: int| 0 <= k < 8 ==> tnear@[k] == 0u32);
        assert(forall|k: int| 0 <= k < 8 ==> tfar@[k] == F32_INFINITY_BITS);
        Ray8::segment(origin, origin, tnear, tfar)
    }

    /// Iterates over the rays of the packet.
    pub fn iter(&self) -> (r: SoARayIter<'_, Ray8>)
        requires
            self.wf(),
        ensures
            r.target() == *self,
            r.position() == 0,
            r.end() == 8,
    {
        SoARayIter::new(self, 8)
    }

    /// Iterates over mutable handles to the rays of the packet.
    pub fn iter_mut(&mut self) -> (r: SoARayIterMut<'_, Ray8>)
        requires
            old(self).wf(),
        ensures
            r.wf(),
            *r.ray == *old(self),
            *final(r.ray) == *final(self),
            r.cur == 0,
            r.len == 8,
    {
        SoARayIterMut::new(self, 8)
    }

    /// The packet storage as words, member array after member array.
    pub fn as_words(&self) -> (r: &[u32])
        ensures
            r@ == self.storage(),
    {
        self.data.as_slice()
    }
}

impl Default for Ray8 {
    /// The empty packet of [`Ray8::empty`].
    fn default() -> (r: Ray8)
        ensures
            r.wf(),
            forall|f: int, i: int| 0 <= f < RAY_FIELDS && 0 <= i < 8 ==> #[trigger] r.word(f, i)
                == if f == RAY_MASK { 0xffff_ffffu32 } else if f == RAY_TFAR { F32_INFINITY_BITS } else { 0u32 },
    {
        Ray8::empty()
    }
}

impl SoARay for Ray8 {
    open spec fn ray_wf(&self) -> bool {
        self.wf()
    }

    open spec fn ray_count(&self) -> nat {
        8
    }

    open spec fn ray_word(&self, f: int, i: int) -> u32 {
        self.word(f, i)
    }

    fn get_ray_word(&self, f: usize, i: usize) -> (w: u32) {
        self.data.get(f, i)
    }

    fn set_ray_word(&mut self, f: usize, i: usize, w: u32) {
        self.data.set(f, i, w);
    }
}

/// A hit packet of size 8.
pub struct Hit8 {
    data: SoAWords,
}

impl Hit8 {
    /// Well-formedness of the packet.
    pub closed spec fn wf(&self) -> bool {
        &&& self.data.wf()
        &&& self.data.field_count() == HIT_FIELDS
        &&& self.data.stride_words() == 8
    }

    /// Member `f` of hit `i`.
    pub closed spec fn word(&self, f: int, i: int) -> u32 {
        self.data.word(f, i)
    }

    /// The whole storage, member array after member array.
    pub closed spec fn storage(&self) -> Seq<u32> {
        self.data.flat()
    }

    /// Creates a packet of hits that hit nothing: normals and barycentric
    /// coordinates are zero, identifiers are `INVALID_ID`.
    pub fn new() -> (r: Hit8)
        ensures
            r.wf(),
            forall|f: int, i: int| 0 <= f < HIT_FIELDS && 0 <= i < 8 ==> #[trigger] r.word(f, i) == empty_hit_word(f),
    {
        Hit8 { data: build_hit_packet(8) }
    }

    /// Whether any ray of the packet hit something.
    pub fn any_hit(&self) -> (r: bool)
        requires
            self.wf(),
        ensures
            r == any_valid_hit(*self, 8),
    {
        any_hit_in(self, 8)
    }

    /// For each ray of the packet, whether it hit something.
    pub fn hits(&self) -> (r: Vec<bool>)
        requires
            self.wf(),
        ensures
            r@.len() == 8,
            forall|i: int| 0 <= i < 8 ==> #[trigger] r@[i] == (self.word(HIT_GEOM_ID as int, i) != INVALID_ID),
    {
        hit_validity(self, 8)
    }

    /// Iterates over the hits of the packet.
    pub fn iter(&self) -> (r: SoAHitIter<'_, Hit8>)
        requires
            self.wf(),
        ensures
            r.target() == *self,
            r.position() == 0,
            r.end() == 8,
    {
        SoAHitIter::new(self, 8)
    }

    /// Handles to the hits of the packet that hit something, in order.
    pub fn iter_hits(&self) -> (r: Vec<SoAHitRef<'_, Hit8>>)
        requires
            self.wf(),
        ensures
            r@.len() == valid_hit_indices(*self, 8).len(),
            forall|k: int| 0 <= k < r@.len() ==> (#[trigger] r@[k]).target() == *self
                && r@[k].index() == valid_hit_indices(*self, 8)[k],
    {
        collect_valid_hits(self, 8)
    }

    /// The packet storage as words, member array after member array.
    pub fn as_words(&self) -> (r: &[u32])
        ensures
            r@ == self.storage(),
    {
        self.data.as_slice()
    }
}

impl Default for Hit8 {
    /// The packet of [`Hit8::new`], which hit nothing.
    fn default() -> (r: Hit8)
        ensures
            r.wf(),
            forall|f: int, i: int| 0 <= f < HIT_FIELDS && 0 <= i < 8 ==> #[trigger] r.word(f, i) == empty_hit_word(f),
    {
        Hit8::new()
    }
}

impl SoAHit for Hit8 {
    open spec fn hit_wf(&self) -> bool {
        self.wf()
    }

    open spec fn hit_count(&self) -> nat {
        8
    }

    open spec fn hit_word(&self, f: int, i: int) -> u32 {
        self.word(f, i)
    }

    fn get_hit_word(&self, f: usize, i: usize) -> (w: u32) {
        self.data.get(f, i)
    }

    fn set_hit_word(&mut self, f: usize, i: usize, w: u32) {
        self.data.set(f, i, w);
    }
}

/// A ray packet of size 8 together with the hit packet receiving its results.
pub struct RayHit8 {
    /// The rays.
    pub ray: Ray8,
    /// The hits.
    pub hit: Hit8,
}

impl RayHit8 {
    /// Both packets are well formed.
    pub open spec fn wf(&self) -> bool {
        self.ray.wf() && self.hit.wf()
    }

    /// Pairs `ray` with a hit packet that hit nothing.
    pub fn new(ray: Ray8) -> (r: RayHit8)
        requires
            ray.wf(),
        ensures
            r.wf(),
            r.ray == ray,
            forall|f: int, i: int| 0 <= f < HIT_FIELDS && 0 <= i < 8 ==> #[trigger] r.hit.word(f, i) == empty_hit_word(f),
    {
        RayHit8 { ray, hit: Hit8::new() }
    }

    /// Iterates over pairs of rays and hits.
    pub fn iter(&self) -> (r: RayHitIter<'_, Ray8, Hit8>)
        requires
            self.wf(),
        ensures
            r.ray_iter().target() == self.ray,
            r.ray_iter().position() == 0,
            r.ray_iter().end() == 8,
            r.hit_iter().target() == self.hit,
            r.hit_iter().position() == 0,
            r.hit_iter().end() == 8,
    {
        RayHitIter::new(self.ray.iter(), self.hit.iter())
    }
}

} // verus!

verus! {

/// A ray packet of size 16.
pub struct Ray16 {
    data: SoAWords,
}

impl Ray16 {
    /// Well-formedness of the packet.
    pub closed spec fn wf(&self) -> bool {
        &&& self.data.wf()
        &&& self.data.field_count() == RAY_FIELDS
        &&& self.data.stride_words() == 16
    }

    /// Member `f` of ray `i`.
    pub closed spec fn word(&self, f: int, i: int) -> u32 {
        self.data.word(f, i)
    }

    /// The whole storage, member array after member array.
    pub closed spec fn storage(&self) -> Seq<u32> {
        self.data.flat()
    }

    /// Creates a packet of rays with the given origins and directions, whose
    /// segments start at zero and reach to infinity.
    pub fn new(origin: [[u32; 3]; 16], dir: [[u32; 3]; 16]) -> (r: Ray16)
        ensures
            r.wf(),
            forall|f: int, i: int| 0 <= f < RAY_FIELDS && 0 <= i < 16 ==> #[trigger] r.word(f, i)
                == segment_word(origin@, dir@, Seq::new(16, |k: int| 0u32), Seq::new(16, |k: int| F32_INFINITY_BITS), f, i),
    {
        let tnear = [0u32; 16];
        let tfar = [F32_INFINITY_BITS; 16];
        assert(tnear@ =~= Seq::new(16, |k: int| 0u32));
        assert(tfar@ =~= Seq::new(16, |k: int| F32_INFINITY_BITS));
        Ray16::segment(origin, dir, tnear, tfar)
    }

    /// Creates a packet of rays with the given origins, directions and segments;
    /// time, identifiers and flags are zero and the masks are all ones.
    pub fn segment(origin: [[u32; 3]; 16], dir: [[u32; 3]; 16], tnear: [u32; 16], tfar: [u32; 16]) -> (r: Ray16)
        ensures
            r.wf(),
            forall|f: int, i: int| 0 <= f < RAY_FIELDS && 0 <= i < 16 ==> #[trigger] r.word(f, i)
                == segment_word(origin@, dir@, tnear@, tfar@, f, i),
    {
        Ray16 { data: build_ray_packet(16, origin.as_slice(), dir.as_slice(), tnear.as_slice(), tfar.as_slice()) }
    }

    /// Creates a packet of rays at the origin with zero direction, whose
    /// segments start at zero and reach to infinity.
    pub fn empty() -> (r: Ray16)
        ensures
            r.wf(),
            forall|f: int, i: int| 0 <= f < RAY_FIELDS && 0 <= i < 16 ==> #[trigger] r.word(f, i)
                == if f == RAY_MASK { 0xffff_ffffu32 } else if f == RAY_TFAR { F32_INFINITY_BITS } else { 0u32 },
    {
        let zero3 = [0u32; 3];
        let origin = [zero3; 16];
        let tnear = [0u32; 16];
        let tfar = [F32_INFINITY_BITS; 16];
        assert(zero3@ =~= seq![0u32, 0u32, 0u32]);
        assert(forall|k: int| 0 <= k < 16 ==> origin@[k] == zero3);
        assert(forall|k: int| 0 <= k < 16 ==> tnear@[k] == 0u32);
        assert(forall|k: int| 0 <= k < 16 ==> tfar@[k] == F32_INFINITY_BITS);
        Ray16::segment(origin, origin, tnear, tfar)
    }

    /// Iterates over the rays of the packet.
    pub fn iter(&self) -> (r: SoARayIter<'_, Ray16>)
        requires
            self.wf(),
        ensures
            r.target() == *self,
            r.position() == 0,
            r.end() == 16,
    {
        SoARayIter::new(self, 16)
    }

    /// Iterates over mutable handles to the rays of the packet.
    pub fn iter_mut(&mut self) -> (r: SoARayIterMut<'_, Ray16>)
        requires
            old(self).wf(),
        ensures
            r.wf(),
            *r.ray == *old(self),
            *final(r.ray) == *final(self),
            r.cur == 0,
            r.len == 16,
    {
        SoARayIterMut::new(self, 16)
    }

    /// The packet storage as words, member array after member array.
    pub fn as_words(&self) -> (r: &[u32])
        ensures
            r@ == self.storage(),
    {
        self.data.as_slice()
    }
}

impl Default for Ray16 {
    /// The empty packet of [`Ray16::empty`].
    fn default() -> (r: Ray16)
        ensures
            r.wf(),
            forall|f: int, i: int| 0 <= f < RAY_FIELDS && 0 <= i < 16 ==> #[trigger] r.word(f, i)
                == if f == RAY_MASK { 0xffff_ffffu32 } else if f == RAY_TFAR { F32_INFINITY_BITS } else { 0u32 },
    {
        Ray16::empty()
    }
}

impl SoARay for Ray16 {
    open spec fn ray_wf(&self) -> bool {
        self.wf()
    }

    open spec fn ray_count(&self) -> nat {
        16
    }

    open spec fn ray_word(&self, f: int, i: int) -> u32 {
        self.word(f, i)
    }

    fn get_ray_word(&self, f: usize, i: usize) -> (w: u32) {
        self.data.get(f, i)
    }

    fn set_ray_word(&mut self, f: usize, i: usize, w: u32) {
        self.data.set(f, i, w);
    }
}

/// A hit packet of size 16.
pub struct Hit16 {
    data: SoAWords,
}

impl Hit16 {
    /// Well-formedness of the packet.
    pub closed spec fn wf(&self) -> bool {
        &&& self.data.wf()
        &&& self.data.field_count() == HIT_FIELDS
        &&& self.data.stride_words() == 16
    }

    /// Member `f` of hit `i`.
    pub closed spec fn word(&self, f: int, i: int) -> u32 {
        self.data.word(f, i)
    }

    /// The whole storage, member array after member array.
    pub closed spec fn storage(&self) -> Seq<u32> {
        self.data.flat()
    }

    /// Creates a packet of hits that hit nothing: normals and barycentric
    /// coordinates are zero, identifiers are `INVALID_ID`.
    pub fn new() -> (r: Hit16)
        ensures
            r.wf(),
            forall|f: int, i: int| 0 <= f < HIT_FIELDS && 0 <= i < 16 ==> #[trigger] r.word(f, i) == empty_hit_word(f),
    {
        Hit16 { data: build_hit_packet(16) }
    }

    /// Whether any ray of the packet hit something.
    pub fn any_hit(&self) -> (r: bool)
        requires
            self.wf(),
        ensures
            r == any_valid_hit(*self, 16),
    {
        any_hit_in(self, 16)
    }

    /// For each ray of the packet, whether it hit something.
    pub fn hits(&self) -> (r: Vec<bool>)
        requires
            self.wf(),
        ensures
            r@.len() == 16,
            forall|i: int| 0 <= i < 16 ==> #[trigger] r@[i] == (self.word(HIT_GEOM_ID as int, i) != INVALID_ID),
    {
        hit_validity(self, 16)
    }

    /// Iterates over the hits of the packet.
    pub fn iter(&self) -> (r: SoAHitIter<'_, Hit16>)
        requires
            self.wf(),
        ensures
            r.target() == *self,
            r.position() == 0,
            r.end() == 16,
    {
        SoAHitIter::new(self, 16)
    }

    /// Handles to the hits of the packet that hit something, in order.
    pub fn iter_hits(&self) -> (r: Vec<SoAHitRef<'_, Hit16>>)
        requires
            self.wf(),
        ensures
            r@.len() == valid_hit_indices(*self, 16).len(),
            forall|k: int| 0 <= k < r@.len() ==> (#[trigger] r@[k]).target() == *self
                && r@[k].index() == valid_hit_indices(*self, 16)[k],
    {
        collect_valid_hits(self, 16)
    }

    /// The packet storage as words, member array after member array.
    pub fn as_words(&self) -> (r: &[u32])
        ensures
            r@ == self.storage(),
    {
        self.data.as_slice()
    }
}

impl Default for Hit16 {
    /// The packet of [`Hit16::new`], which hit nothing.
    fn default() -> (r: Hit16)
        ensures
            r.wf(),
            forall|f: int, i: int| 0 <= f < HIT_FIELDS && 0 <= i < 16 ==> #[trigger] r.word(f, i) == empty_hit_word(f),
    {
        Hit16::new()
    }
}

impl SoAHit for Hit16 {
    open spec fn hit_wf(&self) -> bool {
        self.wf()
    }

    open spec fn hit_count(&self) -> nat {
        16
    }

    open spec fn hit_word(&self, f: int, i: int) -> u32 {
        self.word(f, i)
    }

    fn get_hit_word(&self, f: usize, i: usize) -> (w: u32) {
        self.data.get(f, i)
    }

    fn set_hit_word(&mut self, f: usize, i: usize, w: u32) {
        self.data.set(f, i, w);
    }
}

/// A ray packet of size 16 together with the hit packet receiving its results.
pub struct RayHit16 {
    /// The rays.
    pub ray: Ray16,
    /// The hits.
    pub hit: Hit16,
}

impl RayHit16 {
    /// Both packets are well formed.
    pub open spec fn wf(&self) -> bool {
        self.ray.wf() && self.hit.wf()
    }

    /// Pairs `ray` with a hit packet that hit nothing.
    pub fn new(ray: Ray16) -> (r: RayHit16)
        requires
            ray.wf(),
        ensures
            r.wf(),
            r.ray == ray,
            forall|f: int, i: int| 0 <= f < HIT_FIELDS && 0 <= i < 16 ==> #[trigger] r.hit.word(f, i) == empty_hit_word(f),
    {
        RayHit16 { ray, hit: Hit16::new() }
    }

    /// Iterates over pairs of rays and hits.
    pub fn iter(&self) -> (r: RayHitIter<'_, Ray16, Hit16>)
        requires
            self.wf(),
        ensures
            r.ray_iter().target() == self.ray,
            r.ray_iter().position() == 0,
            r.ray_iter().end() == 16,
            r.hit_iter().target() == self.hit,
            r.hit_iter().position() == 0,
            r.hit_iter().end() == 16,
    {
        RayHitIter::new(self.ray.iter(), self.hit.iter())
    }
}

} // verus!

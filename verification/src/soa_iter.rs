//! Per-ray and per-hit handles into SoA storage, and iterators producing them.

use vstd::prelude::*;
use crate::soa::{
    hits_agree_except, rays_agree_except, SoAHit, SoARay, HIT_GEOM_ID, HIT_INST_ID, HIT_NG_X,
    HIT_NG_Y, HIT_NG_Z, HIT_PRIM_ID, HIT_U, HIT_V, INVALID_ID, RAY_DIR_X, RAY_DIR_Y, RAY_DIR_Z, RAY_FLAGS, RAY_ID, RAY_MASK, RAY_ORG_X,
    RAY_ORG_Y, RAY_ORG_Z, RAY_TFAR, RAY_TNEAR,
};

verus! {

/// Read-only handle to ray `index` of a SoA ray container.
pub struct SoARayRef<'a, T: SoARay> {
    ray: &'a T,
    idx: usize,
}

impl<'a, T: SoARay> SoARayRef<'a, T> {
    #[verifier::type_invariant]
    spec fn inv(self) -> bool {
        self.ray.ray_wf() && self.idx < self.ray.ray_count()
    }

    /// The container the handle points into.
    pub closed spec fn target(&self) -> T {
        *self.ray
    }

    /// The ray the handle points at.
    pub closed spec fn index(&self) -> nat {
        self.idx as nat
    }

    /// Creates a handle to ray `idx` of `ray`.
    pub fn new(ray: &'a T, idx: usize) -> (r: Self)
        requires
            ray.ray_wf(),
            idx < ray.ray_count(),
        ensures
            r.target() == *ray,
            r.index() == idx,
    {
        SoARayRef { ray, idx }
    }

    /// Index of the ray in its container.
    pub fn idx(&self) -> (r: usize)
        ensures
            r == self.index(),
    {
        self.idx
    }

    /// Origin of the ray.
    pub fn origin(&self) -> (o: [u32; 3])
        ensures
            o@ == seq![
                self.target().ray_word(RAY_ORG_X as int, self.index() as int),
                self.target().ray_word(RAY_ORG_Y as int, self.index() as int),
                self.target().ray_word(RAY_ORG_Z as int, self.index() as int),
            ],
    {
        proof { use_type_invariant(self); }
        self.ray.org(self.idx)
    }

    /// Direction of the ray.
    pub fn dir(&self) -> (d: [u32; 3])
        ensures
            d@ == seq![
                self.target().ray_word(RAY_DIR_X as int, self.index() as int),
                self.target().ray_word(RAY_DIR_Y as int, self.index() as int),
                self.target().ray_word(RAY_DIR_Z as int, self.index() as int),
            ],
    {
        proof { use_type_invariant(self); }
        self.ray.dir(self.idx)
    }

    /// Start of the ray segment.
    pub fn tnear(&self) -> (t: u32)
        ensures
            t == self.target().ray_word(RAY_TNEAR as int, self.index() as int),
    {
        proof { use_type_invariant(self); }
        self.ray.tnear(self.idx)
    }

    /// End of the ray segment.
    pub fn tfar(&self) -> (t: u32)
        ensures
            t == self.target().ray_word(RAY_TFAR as int, self.index() as int),
    {
        proof { use_type_invariant(self); }
        self.ray.tfar(self.idx)
    }

    /// Mask of the ray.
    pub fn mask(&self) -> (m: u32)
        ensures
            m == self.target().ray_word(RAY_MASK as int, self.index() as int),
    {
        proof { use_type_invariant(self); }
        self.ray.mask(self.idx)
    }

    /// Identifier of the ray.
    pub fn id(&self) -> (r: u32)
        ensures
            r == self.target().ray_word(RAY_ID as int, self.index() as int),
    {
        proof { use_type_invariant(self); }
        self.ray.id(self.idx)
    }

    /// Flags of the ray.
    pub fn flags(&self) -> (r: u32)
        ensures
            r == self.target().ray_word(RAY_FLAGS as int, self.index() as int),
    {
        proof { use_type_invariant(self); }
        self.ray.flags(self.idx)
    }
}

/// Mutable handle to ray `index` of a SoA ray container.
pub struct SoARayRefMut<'a, T: SoARay> {
    /// The container the handle writes into.
    pub ray: &'a mut T,
    /// The ray the handle points at.
    pub idx: usize,
}

impl<'a, T: SoARay> SoARayRefMut<'a, T> {
    /// The handle points at an existing ray of a well-formed container.
    pub open spec fn wf(&self) -> bool {
        self.ray.ray_wf() && self.idx < self.ray.ray_count()
    }

    /// Current value of the container the handle points into.
    pub open spec fn target(&self) -> T {
        *self.ray
    }

    /// The ray the handle points at.
    pub open spec fn index(&self) -> nat {
        self.idx as nat
    }

    /// Creates a handle to ray `idx` of `ray`.
    pub fn new(ray: &'a mut T, idx: usize) -> (r: Self)
        requires
            old(ray).ray_wf(),
            idx < old(ray).ray_count(),
        ensures
            r.wf(),
            r.target() == *old(ray),
            *final(r.ray) == *final(ray),
            r.index() == idx,
    {
        SoARayRefMut { ray, idx }
    }

    /// Origin of the ray.
    pub fn origin(&self) -> (o: [u32; 3])
        requires
            self.wf(),
        ensures
            o@ == seq![
                self.target().ray_word(RAY_ORG_X as int, self.index() as int),
                self.target().ray_word(RAY_ORG_Y as int, self.index() as int),
                self.target().ray_word(RAY_ORG_Z as int, self.index() as int),
            ],
    {
        self.ray.org(self.idx)
    }

    /// Sets the origin of the ray.
    pub fn set_origin(&mut self, o: [u32; 3])
        requires
            old(self).wf(),
        ensures
            final(self).wf(),
            final(self).index() == old(self).index(),
            final(self).target().ray_word(RAY_ORG_X as int, old(self).index() as int) == o[0],
            final(self).target().ray_word(RAY_ORG_Y as int, old(self).index() as int) == o[1],
            final(self).target().ray_word(RAY_ORG_Z as int, old(self).index() as int) == o[2],
            rays_agree_except(old(self).target(), final(self).target(), old(self).index() as int,
                set![RAY_ORG_X as int, RAY_ORG_Y as int, RAY_ORG_Z as int]),
    {
        let i = self.idx;
        self.ray.set_org(i, o);
    }

    /// Direction of the ray.
    pub fn dir(&self) -> (d: [u32; 3])
        requires
            self.wf(),
        ensures
            d@ == seq![
                self.target().ray_word(RAY_DIR_X as int, self.index() as int),
                self.target().ray_word(RAY_DIR_Y as int, self.index() as int),
                self.target().ray_word(RAY_DIR_Z as int, self.index() as int),
            ],
    {
        self.ray.dir(self.idx)
    }

    /// Sets the direction of the ray.
    pub fn set_dir(&mut self, d: [u32; 3])
        requires
            old(self).wf(),
        ensures
            final(self).wf(),
            final(self).index() == old(self).index(),
            final(self).target().ray_word(RAY_DIR_X as int, old(self).index() as int) == d[0],
            final(self).target().ray_word(RAY_DIR_Y as int, old(self).index() as int) == d[1],
            final(self).target().ray_word(RAY_DIR_Z as int, old(self).index() as int) == d[2],
            rays_agree_except(old(self).target(), final(self).target(), old(self).index() as int,
                set![RAY_DIR_X as int, RAY_DIR_Y as int, RAY_DIR_Z as int]),
    {
        let i = self.idx;
        self.ray.set_dir(i, d);
    }

    /// Start of the ray segment.
    pub fn tnear(&self) -> (t: u32)
        requires
            self.wf(),
        ensures
            t == self.target().ray_word(RAY_TNEAR as int, self.index() as int),
    {
        self.ray.tnear(self.idx)
    }

    /// Sets the start of the ray segment.
    pub fn set_tnear(&mut self, t: u32)
        requires
            old(self).wf(),
        ensures
            final(self).wf(),
            final(self).index() == old(self).index(),
            final(self).target().ray_word(RAY_TNEAR as int, old(self).index() as int) == t,
            rays_agree_except(old(self).target(), final(self).target(), old(self).index() as int,
                set![RAY_TNEAR as int]),
    {
        let i = self.idx;
        self.ray.set_tnear(i, t);
    }

    /// End of the ray segment.
    pub fn tfar(&self) -> (t: u32)
        requires
            self.wf(),
        ensures
            t == self.target().ray_word(RAY_TFAR as int, self.index() as int),
    {
        self.ray.tfar(self.idx)
    }

    /// Sets the end of the ray segment.
    pub fn set_tfar(&mut self, t: u32)
        requires
            old(self).wf(),
        ensures
            final(self).wf(),
            final(self).index() == old(self).index(),
            final(self).target().ray_word(RAY_TFAR as int, old(self).index() as int) == t,
            rays_agree_except(old(self).target(), final(self).target(), old(self).index() as int,
                set![RAY_TFAR as int]),
    {
        let i = self.idx;
        self.ray.set_tfar(i, t);
    }

    /// Mask of the ray.
    pub fn mask(&self) -> (m: u32)
        requires
            self.wf(),
        ensures
            m == self.target().ray_word(RAY_MASK as int, self.index() as int),
    {
        self.ray.mask(self.idx)
    }

    /// Sets the mask of the ray.
    pub fn set_mask(&mut self, m: u32)
        requires
            old(self).wf(),
        ensures
            final(self).wf(),
            final(self).index() == old(self).index(),
            final(self).target().ray_word(RAY_MASK as int, old(self).index() as int) == m,
            rays_agree_except(old(self).target(), final(self).target(), old(self).index() as int,
                set![RAY_MASK as int]),
    {
        let i = self.idx;
        self.ray.set_mask(i, m);
    }

    /// Identifier of the ray.
    pub fn id(&self) -> (r: u32)
        requires
            self.wf(),
        ensures
            r == self.target().ray_word(RAY_ID as int, self.index() as int),
    {
        self.ray.id(self.idx)
    }

    /// Sets the identifier of the ray.
    pub fn set_id(&mut self, id: u32)
        requires
            old(self).wf(),
        ensures
            final(self).wf(),
            final(self).index() == old(self).index(),
            final(self).target().ray_word(RAY_ID as int, old(self).index() as int) == id,
            rays_agree_except(old(self).target(), final(self).target(), old(self).index() as int,
                set![RAY_ID as int]),
    {
        let i = self.idx;
        self.ray.set_id(i, id);
    }

    /// Flags of the ray.
    pub fn flags(&self) -> (r: u32)
        requires
            self.wf(),
        ensures
            r == self.target().ray_word(RAY_FLAGS as int, self.index() as int),
    {
        self.ray.flags(self.idx)
    }

    /// Sets the flags of the ray.
    pub fn set_flags(&mut self, flags: u32)
        requires
            old(self).wf(),
        ensures
            final(self).wf(),
            final(self).index() == old(self).index(),
            final(self).target().ray_word(RAY_FLAGS as int, old(self).index() as int) == flags,
            rays_agree_except(old(self).target(), final(self).target(), old(self).index() as int,
                set![RAY_FLAGS as int]),
    {
        let i = self.idx;
        self.ray.set_flags(i, flags);
    }
}

} // verus!

verus! {

/// Iterator over the first `len` rays of a SoA ray container, in order.
pub struct SoARayIter<'a, T: SoARay> {
    ray: &'a T,
    cur: usize,
    len: usize,
}

impl<'a, T: SoARay> SoARayIter<'a, T> {
    #[verifier::type_invariant]
    spec fn inv(self) -> bool {
        self.ray.ray_wf() && self.len <= self.ray.ray_count() && self.cur <= self.len
    }

    /// The container being iterated.
    pub closed spec fn target(&self) -> T {
        *self.ray
    }

    /// Index of the next ray to produce.
    pub closed spec fn position(&self) -> nat {
        self.cur as nat
    }

    /// Index one past the last ray to produce.
    pub closed spec fn end(&self) -> nat {
        self.len as nat
    }

    /// Creates an iterator over rays `0..len` of `ray`.
    pub fn new(ray: &'a T, len: usize) -> (r: Self)
        requires
            ray.ray_wf(),
            len <= ray.ray_count(),
        ensures
            r.target() == *ray,
            r.position() == 0,
            r.end() == len,
    {
        SoARayIter { ray, cur: 0, len }
    }

    /// Produces a handle to the next ray, or `None` once `len` rays were produced.
    pub fn next(&mut self) -> (r: Option<SoARayRef<'a, T>>)
        ensures
            final(self).target() == old(self).target(),
            final(self).end() == old(self).end(),
            old(self).position() < old(self).end() ==> {
                &&& r is Some
                &&& r->0.target() == old(self).target()
                &&& r->0.index() == old(self).position()
                &&& final(self).position() == old(self).position() + 1
            },
            old(self).position() >= old(self).end() ==> r is None && final(self).position() == old(self).position(),
    {
        proof { use_type_invariant(&*self); }
        if self.cur >= self.len {
            None
        } else {
            let i = self.cur;
            self.cur = self.cur + 1;
            Some(SoARayRef::new(self.ray, i))
        }
    }

    /// Number of rays still to be produced.
    pub fn len(&self) -> (r: usize)
        ensures
            r == self.end() - self.position(),
    {
        proof { use_type_invariant(self); }
        self.len - self.cur
    }
}

/// Iterator handing out mutable handles to the first `len` rays of a SoA ray
/// container, in order. Each handle borrows the iterator.
pub struct SoARayIterMut<'a, T: SoARay> {
    /// The container being iterated.
    pub ray: &'a mut T,
    /// Index of the next ray to produce.
    pub cur: usize,
    /// Index one past the last ray to produce.
    pub len: usize,
}

impl<'a, T: SoARay> SoARayIterMut<'a, T> {
    /// The iterator ranges over existing rays of a well-formed container.
    pub open spec fn wf(&self) -> bool {
        self.ray.ray_wf() && self.len <= self.ray.ray_count() && self.cur <= self.len
    }

    /// Creates an iterator over rays `0..len` of `ray`.
    pub fn new(ray: &'a mut T, len: usize) -> (r: Self)
        requires
            old(ray).ray_wf(),
            len <= old(ray).ray_count(),
        ensures
            r.wf(),
            *r.ray == *old(ray),
            *final(r.ray) == *final(ray),
            r.cur == 0,
            r.len == len,
    {
        SoARayIterMut { ray, cur: 0, len }
    }

    /// Produces a handle to the next ray, or `None` once `len` rays were produced.
    pub fn next(&mut self) -> (r: Option<SoARayRefMut<'_, T>>)
        requires
            old(self).wf(),
        ensures
            final(self).len == old(self).len,
            old(self).cur < old(self).len ==> {
                &&& r is Some
                &&& r->0.wf()
                &&& r->0.target() == *old(self).ray
                &&& r->0.index() == old(self).cur
                &&& *final(r->0.ray) == *final(self).ray
                &&& final(self).cur == old(self).cur + 1
            },
            old(self).cur >= old(self).len ==> r is None && *final(self) == *old(self),
    {
        if self.cur >= self.len {
            None
        } else {
            let i = self.cur;
            self.cur = self.cur + 1;
            Some(SoARayRefMut::new(&mut *self.ray, i))
        }
    }

    /// Number of rays still to be produced.
    pub fn len(&self) -> (r: usize)
        requires
            self.wf(),
        ensures
            r == self.len - self.cur,
    {
        self.len - self.cur
    }
}

/// Read-only handle to hit `index` of a SoA hit container.
pub struct SoAHitRef<'a, T: SoAHit> {
    hit: &'a T,
    idx: usize,
}

impl<'a, T: SoAHit> SoAHitRef<'a, T> {
    #[verifier::type_invariant]
    spec fn inv(self) -> bool {
        self.hit.hit_wf() && self.idx < self.hit.hit_count()
    }

    /// The container the handle points into.
    pub closed spec fn target(&self) -> T {
        *self.hit
    }

    /// The hit the handle points at.
    pub closed spec fn index(&self) -> nat {
        self.idx as nat
    }

    /// Creates a handle to hit `idx` of `hit`.
    pub fn new(hit: &'a T, idx: usize) -> (r: Self)
        requires
            hit.hit_wf(),
            idx < hit.hit_count(),
        ensures
            r.target() == *hit,
            r.index() == idx,
    {
        SoAHitRef { hit, idx }
    }

    /// Index of the hit in its container.
    pub fn idx(&self) -> (r: usize)
        ensures
            r == self.index(),
    {
        self.idx
    }

    /// Geometry normal of the hit.
    pub fn normal(&self) -> (n: [u32; 3])
        ensures
            n@ == seq![
                self.target().hit_word(HIT_NG_X as int, self.index() as int),
                self.target().hit_word(HIT_NG_Y as int, self.index() as int),
                self.target().hit_word(HIT_NG_Z as int, self.index() as int),
            ],
    {
        proof { use_type_invariant(self); }
        self.hit.normal(self.idx)
    }

    /// Barycentric coordinates `[u, v]` of the hit.
    pub fn uv(&self) -> (r: [u32; 2])
        ensures
            r@ == seq![
                self.target().hit_word(HIT_U as int, self.index() as int),
                self.target().hit_word(HIT_V as int, self.index() as int),
            ],
    {
        proof { use_type_invariant(self); }
        self.hit.uv(self.idx)
    }

    /// Primitive identifier of the hit.
    pub fn prim_id(&self) -> (r: u32)
        ensures
            r == self.target().hit_word(HIT_PRIM_ID as int, self.index() as int),
    {
        proof { use_type_invariant(self); }
        self.hit.prim_id(self.idx)
    }

    /// Geometry identifier of the hit.
    pub fn geom_id(&self) -> (r: u32)
        ensures
            r == self.target().hit_word(HIT_GEOM_ID as int, self.index() as int),
    {
        proof { use_type_invariant(self); }
        self.hit.geom_id(self.idx)
    }

    /// Instance identifier of the hit.
    pub fn inst_id(&self) -> (r: u32)
        ensures
            r == self.target().hit_word(HIT_INST_ID as int, self.index() as int),
    {
        proof { use_type_invariant(self); }
        self.hit.inst_id(self.idx)
    }

    /// Whether the ray hit something.
    pub fn hit(&self) -> (r: bool)
        ensures
            r == (self.target().hit_word(HIT_GEOM_ID as int, self.index() as int) != INVALID_ID),
    {
        proof { use_type_invariant(self); }
        self.hit.hit(self.idx)
    }

    /// Whether the ray hit something (same as [`SoAHitRef::hit`]).
    pub fn is_valid(&self) -> (r: bool)
        ensures
            r == (self.target().hit_word(HIT_GEOM_ID as int, self.index() as int) != INVALID_ID),
    {
        self.hit()
    }
}

/// Iterator over the first `len` hits of a SoA hit container, in order.
pub struct SoAHitIter<'a, T: SoAHit> {
    hit: &'a T,
    cur: usize,
    len: usize,
}

impl<'a, T: SoAHit> SoAHitIter<'a, T> {
    #[verifier::type_invariant]
    spec fn inv(self) -> bool {
        self.hit.hit_wf() && self.len <= self.hit.hit_count() && self.cur <= self.len
    }

    /// The container being iterated.
    pub closed spec fn target(&self) -> T {
        *self.hit
    }

    /// Index of the next hit to produce.
    pub closed spec fn position(&self) -> nat {
        self.cur as nat
    }

    /// Index one past the last hit to produce.
    pub closed spec fn end(&self) -> nat {
        self.len as nat
    }

    /// Creates an iterator over hits `0..len` of `hit`.
    pub fn new(hit: &'a T, len: usize) -> (r: Self)
        requires
            hit.hit_wf(),
            len <= hit.hit_count(),
        ensures
            r.target() == *hit,
            r.position() == 0,
            r.end() == len,
    {
        SoAHitIter { hit, cur: 0, len }
    }

    /// Produces a handle to the next hit, or `None` once `len` hits were produced.
    pub fn next(&mut self) -> (r: Option<SoAHitRef<'a, T>>)
        ensures
            final(self).target() == old(self).target(),
            final(self).end() == old(self).end(),
            old(self).position() < old(self).end() ==> {
                &&& r is Some
                &&& r->0.target() == old(self).target()
                &&& r->0.index() == old(self).position()
                &&& final(self).position() == old(self).position() + 1
            },
            old(self).position() >= old(self).end() ==> r is None && final(self).position() == old(self).position(),
    {
        proof { use_type_invariant(&*self); }
        if self.cur >= self.len {
            None
        } else {
            let i = self.cur;
            self.cur = self.cur + 1;
            Some(SoAHitRef::new(self.hit, i))
        }
    }

    /// Number of hits still to be produced.
    pub fn len(&self) -> (r: usize)
        ensures
            r == self.end() - self.position(),
    {
        proof { use_type_invariant(self); }
        self.len - self.cur
    }
}

/// Mutable handle to hit `index` of a SoA hit container.
pub struct SoAHitRefMut<'a, T: SoAHit> {
    /// The container the handle writes into.
    pub hit: &'a mut T,
    /// The hit the handle points at.
    pub idx: usize,
}

impl<'a, T: SoAHit> SoAHitRefMut<'a, T> {
    /// The handle points at an existing hit of a well-formed container.
    pub open spec fn wf(&self) -> bool {
        self.hit.hit_wf() && self.idx < self.hit.hit_count()
    }

    /// Current value of the container the handle points into.
    pub open spec fn target(&self) -> T {
        *self.hit
    }

    /// The hit the handle points at.
    pub open spec fn index(&self) -> nat {
        self.idx as nat
    }

    /// Creates a handle to hit `idx` of `hit`.
    pub fn new(hit: &'a mut T, idx: usize) -> (r: Self)
        requires
            old(hit).hit_wf(),
            idx < old(hit).hit_count(),
        ensures
            r.wf(),
            r.target() == *old(hit),
            *final(r.hit) == *final(hit),
            r.index() == idx,
    {
        SoAHitRefMut { hit, idx }
    }

    /// Geometry normal of the hit.
    pub fn normal(&self) -> (n: [u32; 3])
        requires
            self.wf(),
        ensures
            n@ == seq![
                self.target().hit_word(HIT_NG_X as int, self.index() as int),
                self.target().hit_word(HIT_NG_Y as int, self.index() as int),
                self.target().hit_word(HIT_NG_Z as int, self.index() as int),
            ],
    {
        self.hit.normal(self.idx)
    }

    /// Sets the geometry normal of the hit.
    pub fn set_normal(&mut self, n: [u32; 3])
        requires
            old(self).wf(),
        ensures
            final(self).wf(),
            final(self).index() == old(self).index(),
            final(self).target().hit_word(HIT_NG_X as int, old(self).index() as int) == n[0],
            final(self).target().hit_word(HIT_NG_Y as int, old(self).index() as int) == n[1],
            final(self).target().hit_word(HIT_NG_Z as int, old(self).index() as int) == n[2],
            hits_agree_except(old(self).target(), final(self).target(), old(self).index() as int,
                set![HIT_NG_X as int, HIT_NG_Y as int, HIT_NG_Z as int]),
    {
        let i = self.idx;
        self.hit.set_normal(i, n);
    }

    /// Barycentric coordinates `[u, v]` of the hit.
    pub fn uv(&self) -> (r: [u32; 2])
        requires
            self.wf(),
        ensures
            r@ == seq![
                self.target().hit_word(HIT_U as int, self.index() as int),
                self.target().hit_word(HIT_V as int, self.index() as int),
            ],
    {
        self.hit.uv(self.idx)
    }

    /// Sets the barycentric u coordinate of the hit.
    pub fn set_u(&mut self, u: u32)
        requires
            old(self).wf(),
        ensures
            final(self).wf(),
            final(self).index() == old(self).index(),
            final(self).target().hit_word(HIT_U as int, old(self).index() as int) == u,
            hits_agree_except(old(self).target(), final(self).target(), old(self).index() as int,
                set![HIT_U as int]),
    {
        let i = self.idx;
        self.hit.set_u(i, u);
    }

    /// Sets the barycentric v coordinate of the hit.
    pub fn set_v(&mut self, v: u32)
        requires
            old(self).wf(),
        ensures
            final(self).wf(),
            final(self).index() == old(self).index(),
            final(self).target().hit_word(HIT_V as int, old(self).index() as int) == v,
            hits_agree_except(old(self).target(), final(self).target(), old(self).index() as int,
                set![HIT_V as int]),
    {
        let i = self.idx;
        self.hit.set_v(i, v);
    }

    /// Primitive identifier of the hit.
    pub fn prim_id(&self) -> (r: u32)
        requires
            self.wf(),
        ensures
            r == self.target().hit_word(HIT_PRIM_ID as int, self.index() as int),
    {
        self.hit.prim_id(self.idx)
    }

    /// Sets the primitive identifier of the hit.
    pub fn set_prim_id(&mut self, id: u32)
        requires
            old(self).wf(),
        ensures
            final(self).wf(),
            final(self).index() == old(self).index(),
            final(self).target().hit_word(HIT_PRIM_ID as int, old(self).index() as int) == id,
            hits_agree_except(old(self).target(), final(self).target(), old(self).index() as int,
                set![HIT_PRIM_ID as int]),
    {
        let i = self.idx;
        self.hit.set_prim_id(i, id);
    }

    /// Geometry identifier of the hit.
    pub fn geom_id(&self) -> (r: u32)
        requires
            self.wf(),
        ensures
            r == self.target().hit_word(HIT_GEOM_ID as int, self.index() as int),
    {
        self.hit.geom_id(self.idx)
    }

    /// Sets the geometry identifier of the hit.
    pub fn set_geom_id(&mut self, id: u32)
        requires
            old(self).wf(),
        ensures
            final(self).wf(),
            final(self).index() == old(self).index(),
            final(self).target().hit_word(HIT_GEOM_ID as int, old(self).index() as int) == id,
            hits_agree_except(old(self).target(), final(self).target(), old(self).index() as int,
                set![HIT_GEOM_ID as int]),
    {
        let i = self.idx;
        self.hit.set_geom_id(i, id);
    }

    /// Instance identifier of the hit.
    pub fn inst_id(&self) -> (r: u32)
        requires
            self.wf(),
        ensures
            r == self.target().hit_word(HIT_INST_ID as int, self.index() as int),
    {
        self.hit.inst_id(self.idx)
    }

    /// Sets the instance identifier of the hit.
    pub fn set_inst_id(&mut self, id: u32)
        requires
            old(self).wf(),
        ensures
            final(self).wf(),
            final(self).index() == old(self).index(),
            final(self).target().hit_word(HIT_INST_ID as int, old(self).index() as int) == id,
            hits_agree_except(old(self).target(), final(self).target(), old(self).index() as int,
                set![HIT_INST_ID as int]),
    {
        let i = self.idx;
        self.hit.set_inst_id(i, id);
    }

    /// Whether the ray hit something.
    pub fn hit(&self) -> (r: bool)
        requires
            self.wf(),
        ensures
            r == (self.target().hit_word(HIT_GEOM_ID as int, self.index() as int) != INVALID_ID),
    {
        self.hit.hit(self.idx)
    }
}

/// Iterator handing out mutable handles to the first `len` hits of a SoA hit
/// container, in order. Each handle borrows the iterator.
pub struct SoAHitIterMut<'a, T: SoAHit> {
    /// The container being iterated.
    pub hit: &'a mut T,
    /// Index of the next hit to produce.
    pub cur: usize,
    /// Index one past the last hit to produce.
    pub len: usize,
}

impl<'a, T: SoAHit> SoAHitIterMut<'a, T> {
    /// The iterator ranges over existing hits of a well-formed container.
    pub open spec fn wf(&self) -> bool {
        self.hit.hit_wf() && self.len <= self.hit.hit_count() && self.cur <= self.len
    }

    /// Creates an iterator over hits `0..len` of `hit`.
    pub fn new(hit: &'a mut T, len: usize) -> (r: Self)
        requires
            old(hit).hit_wf(),
            len <= old(hit).hit_count(),
        ensures
            r.wf(),
            *r.hit == *old(hit),
            *final(r.hit) == *final(hit),
            r.cur == 0,
            r.len == len,
    {
        SoAHitIterMut { hit, cur: 0, len }
    }

    /// Produces a handle to the next hit, or `None` once `len` hits were produced.
    pub fn next(&mut self) -> (r: Option<SoAHitRefMut<'_, T>>)
        requires
            old(self).wf(),
        ensures
            final(self).len == old(self).len,
            old(self).cur < old(self).len ==> {
                &&& r is Some
                &&& r->0.wf()
                &&& r->0.target() == *old(self).hit
                &&& r->0.index() == old(self).cur
                &&& *final(r->0.hit) == *final(self).hit
                &&& final(self).cur == old(self).cur + 1
            },
            old(self).cur >= old(self).len ==> r is None && *final(self) == *old(self),
    {
        if self.cur >= self.len {
            None
        } else {
            let i = self.cur;
            self.cur = self.cur + 1;
            Some(SoAHitRefMut::new(&mut *self.hit, i))
        }
    }

    /// Number of hits still to be produced.
    pub fn len(&self) -> (r: usize)
        requires
            self.wf(),
        ensures
            r == self.len - self.cur,
    {
        self.len - self.cur
    }
}

} // verus!

verus! {

/// Indices `i < n` of the hits of `h` whose geometry identifier is valid, in increasing order.
pub open spec fn valid_hit_indices<T: SoAHit>(h: T, n: nat) -> Seq<nat>
    decreases n,
{
    if n == 0 {
        seq![]
    } else {
        let prev = valid_hit_indices(h, (n - 1) as nat);
        if h.hit_word(HIT_GEOM_ID as int, n - 1) != INVALID_ID {
            prev.push((n - 1) as nat)
        } else {
            prev
        }
    }
}

/// Whether one of the first `n` hits of `h` hit something.
pub open spec fn any_valid_hit<T: SoAHit>(h: T, n: nat) -> bool {
    exists|i: int| 0 <= i < n && #[trigger] h.hit_word(HIT_GEOM_ID as int, i) != INVALID_ID
}

/// Handles to the hits among the first `len` hits of `hit` that hit something, in order.
pub fn collect_valid_hits<'a, T: SoAHit>(hit: &'a T, len: usize) -> (r: Vec<SoAHitRef<'a, T>>)
    requires
        hit.hit_wf(),
        len <= hit.hit_count(),
    ensures
        r@.len() == valid_hit_indices(*hit, len as nat).len(),
        forall|k: int| 0 <= k < r@.len() ==> (#[trigger] r@[k]).target() == *hit
            && r@[k].index() == valid_hit_indices(*hit, len as nat)[k],
{
    let mut r: Vec<SoAHitRef<'a, T>> = Vec::new();
    let mut i: usize = 0;
    while i < len
        invariant
            hit.hit_wf(),
            len <= hit.hit_count(),
            i <= len,
            r@.len() == valid_hit_indices(*hit, i as nat).len(),
            forall|k: int| 0 <= k < r@.len() ==> (#[trigger] r@[k]).target() == *hit
                && r@[k].index() == valid_hit_indices(*hit, i as nat)[k],
        decreases len - i,
    {
        if hit.hit(i) {
            r.push(SoAHitRef::new(hit, i));
        }
        proof {
            assert(valid_hit_indices(*hit, (i + 1) as nat) == if hit.hit_word(HIT_GEOM_ID as int, i as int) != INVALID_ID {
                valid_hit_indices(*hit, i as nat).push(i as nat)
            } else {
                valid_hit_indices(*hit, i as nat)
            });
        }
        i = i + 1;
    }
    r
}

/// For each of the first `len` hits of `hit`, whether it hit something.
pub fn hit_validity<T: SoAHit>(hit: &T, len: usize) -> (r: Vec<bool>)
    requires
        hit.hit_wf(),
        len <= hit.hit_count(),
    ensures
        r@.len() == len,
        forall|i: int| 0 <= i < len ==> #[trigger] r@[i] == (hit.hit_word(HIT_GEOM_ID as int, i) != INVALID_ID),
{
    let mut r: Vec<bool> = Vec::new();
    let mut i: usize = 0;
    while i < len
        invariant
            hit.hit_wf(),
            len <= hit.hit_count(),
            i <= len,
            r@.len() == i,
            forall|j: int| 0 <= j < i ==> #[trigger] r@[j] == (hit.hit_word(HIT_GEOM_ID as int, j) != INVALID_ID),
        decreases len - i,
    {
        let h = hit.hit(i);
        r.push(h);
        i = i + 1;
    }
    r
}

/// Whether one of the first `len` hits of `hit` hit something.
pub fn any_hit_in<T: SoAHit>(hit: &T, len: usize) -> (r: bool)
    requires
        hit.hit_wf(),
        len <= hit.hit_count(),
    ensures
        r == any_valid_hit(*hit, len as nat),
{
    let mut i: usize = 0;
    while i < len
        invariant
            hit.hit_wf(),
            len <= hit.hit_count(),
            i <= len,
            forall|j: int| 0 <= j < i ==> #[trigger] hit.hit_word(HIT_GEOM_ID as int, j) == INVALID_ID,
        decreases len - i,
    {
        if hit.hit(i) {
            return true;
        }
        i = i + 1;
    }
    false
}

/// Iterator over pairs of rays and hits with the same index, stopping when
/// either side is exhausted.
pub struct RayHitIter<'a, R: SoARay, H: SoAHit> {
    rays: SoARayIter<'a, R>,
    hits: SoAHitIter<'a, H>,
}

impl<'a, R: SoARay, H: SoAHit> RayHitIter<'a, R, H> {
    /// The ray side of the iterator.
    pub closed spec fn ray_iter(&self) -> SoARayIter<'a, R> {
        self.rays
    }

    /// The hit side of the iterator.
    pub closed spec fn hit_iter(&self) -> SoAHitIter<'a, H> {
        self.hits
    }

    /// Pairs up a ray iterator with a hit iterator.
    pub fn new(rays: SoARayIter<'a, R>, hits: SoAHitIter<'a, H>) -> (r: Self)
        ensures
            r.ray_iter() == rays,
            r.hit_iter() == hits,
    {
        RayHitIter { rays, hits }
    }

    /// Produces the next pair of handles, or `None` once either side is exhausted.
    pub fn next(&mut self) -> (r: Option<(SoARayRef<'a, R>, SoAHitRef<'a, H>)>)
        ensures
            ({
                let (ro, ho) = (old(self).ray_iter(), old(self).hit_iter());
                if ro.position() < ro.end() && ho.position() < ho.end() {
                    &&& r matches Some((a, b))
                    &&& a.target() == ro.target()
                    &&& a.index() == ro.position()
                    &&& b.target() == ho.target()
                    &&& b.index() == ho.position()
                } else {
                    r is None
                }
            }),
            final(self).ray_iter().target() == old(self).ray_iter().target(),
            final(self).ray_iter().end() == old(self).ray_iter().end(),
            final(self).hit_iter().target() == old(self).hit_iter().target(),
            final(self).hit_iter().end() == old(self).hit_iter().end(),
            final(self).ray_iter().position() == old(self).ray_iter().position()
                + if old(self).ray_iter().position() < old(self).ray_iter().end() { 1int } else { 0int },
            final(self).hit_iter().position() == old(self).hit_iter().position()
                + if old(self).ray_iter().position() < old(self).ray_iter().end()
                    && old(self).hit_iter().position() < old(self).hit_iter().end() { 1int } else { 0int },
    {
        match self.rays.next() {
            None => None,
            Some(ray) => match self.hits.next() {
                None => None,
                Some(hit) => Some((ray, hit)),
            },
        }
    }
}

} // verus!

//! Views of ray and hit packets of runtime size (1, 4, 8 or 16), as handed to
//! callbacks: the packet members are stored one after the other, each as an
//! array of `len` words.

use vstd::prelude::*;
use crate::soa::{
    SoAHit, SoARay, HIT_FIELDS, HIT_GEOM_ID, HIT_INST_ID, HIT_NG_X, HIT_NG_Y, HIT_NG_Z, HIT_PRIM_ID,
    HIT_U, HIT_V, RAY_DIR_X, RAY_DIR_Y, RAY_DIR_Z, RAY_FIELDS, RAY_FLAGS, RAY_ID, RAY_MASK,
    RAY_ORG_X, RAY_ORG_Y, RAY_ORG_Z, RAY_TFAR, RAY_TIME, RAY_TNEAR,
};
use crate::soa::{lemma_flat_index_in_block, lemma_flat_index_injective};

verus! {

/// Ray packet of runtime size, viewed over the packet's words.
pub struct RayN<'a> {
    words: &'a mut [u32],
    len: usize,
}

impl<'a> RayN<'a> {
    /// Well-formedness: the view holds the twelve member arrays of `len` words.
    pub closed spec fn wf(&self) -> bool {
        self.words@.len() == RAY_FIELDS * self.len && RAY_FIELDS * self.len <= usize::MAX
    }

    /// Number of rays of the packet.
    pub closed spec fn packet_len(&self) -> nat {
        self.len as nat
    }

    /// The words of the packet, member array after member array.
    pub closed spec fn words(&self) -> Seq<u32> {
        self.words@
    }

    /// Views `words` as a packet of `len` rays.
    pub fn new(words: &'a mut [u32], len: usize) -> (r: Self)
        requires
            old(words)@.len() == RAY_FIELDS * len,
            RAY_FIELDS * len <= usize::MAX,
        ensures
            r.wf(),
            r.packet_len() == len,
            r.words() == old(words)@,
    {
        RayN { words, len }
    }

    /// Returns the number of rays of the packet.
    pub fn len(&self) -> (r: usize)
        ensures
            r == self.packet_len(),
    {
        self.len
    }

    /// X coordinate of the origin of ray `i`.
    pub fn org_x(&self, i: usize) -> (r: u32)
        requires
            self.wf(),
            i < self.packet_len(),
        ensures
            r == self.ray_word(RAY_ORG_X as int, i as int),
    {
        self.get_ray_word(RAY_ORG_X, i)
    }

    /// Sets the x coordinate of the origin of ray `i`.
    pub fn set_org_x(&mut self, i: usize, v: u32)
        requires
            old(self).wf(),
            i < old(self).packet_len(),
        ensures
            final(self).wf(),
            final(self).ray_word(RAY_ORG_X as int, i as int) == v,
            final(self).ray_count() == old(self).ray_count(),
            forall|f2: int, j: int|
                0 <= f2 < RAY_FIELDS && 0 <= j < old(self).ray_count() && !(j == i && f2 == RAY_ORG_X)
                    ==> #[trigger] final(self).ray_word(f2, j) == old(self).ray_word(f2, j),
    {
        self.set_ray_word(RAY_ORG_X, i, v);
    }

    /// Y coordinate of the origin of ray `i`.
    pub fn org_y(&self, i: usize) -> (r: u32)
        requires
            self.wf(),
            i < self.packet_len(),
        ensures
            r == self.ray_word(RAY_ORG_Y as int, i as int),
    {
        self.get_ray_word(RAY_ORG_Y, i)
    }

    /// Sets the y coordinate of the origin of ray `i`.
    pub fn set_org_y(&mut self, i: usize, v: u32)
        requires
            old(self).wf(),
            i < old(self).packet_len(),
        ensures
            final(self).wf(),
            final(self).ray_word(RAY_ORG_Y as int, i as int) == v,
            final(self).ray_count() == old(self).ray_count(),
            forall|f2: int, j: int|
                0 <= f2 < RAY_FIELDS && 0 <= j < old(self).ray_count() && !(j == i && f2 == RAY_ORG_Y)
                    ==> #[trigger] final(self).ray_word(f2, j) == old(self).ray_word(f2, j),
    {
        self.set_ray_word(RAY_ORG_Y, i, v);
    }

    /// Z coordinate of the origin of ray `i`.
    pub fn org_z(&self, i: usize) -> (r: u32)
        requires
            self.wf(),
            i < self.packet_len(),
        ensures
            r == self.ray_word(RAY_ORG_Z as int, i as int),
    {
        self.get_ray_word(RAY_ORG_Z, i)
    }

    /// Sets the z coordinate of the origin of ray `i`.
    pub fn set_org_z(&mut self, i: usize, v: u32)
        requires
            old(self).wf(),
            i < old(self).packet_len(),
        ensures
            final(self).wf(),
            final(self).ray_word(RAY_ORG_Z as int, i as int) == v,
            final(self).ray_count() == old(self).ray_count(),
            forall|f2: int, j: int|
                0 <= f2 < RAY_FIELDS && 0 <= j < old(self).ray_count() && !(j == i && f2 == RAY_ORG_Z)
                    ==> #[trigger] final(self).ray_word(f2, j) == old(self).ray_word(f2, j),
    {
        self.set_ray_word(RAY_ORG_Z, i, v);
    }

    /// X coordinate of the direction of ray `i`.
    pub fn dir_x(&self, i: usize) -> (r: u32)
        requires
            self.wf(),
            i < self.packet_len(),
        ensures
            r == self.ray_word(RAY_DIR_X as int, i as int),
    {
        self.get_ray_word(RAY_DIR_X, i)
    }

    /// Sets the x coordinate of the direction of ray `i`.
    pub fn set_dir_x(&mut self, i: usize, v: u32)
        requires
            old(self).wf(),
            i < old(self).packet_len(),
        ensures
            final(self).wf(),
            final(self).ray_word(RAY_DIR_X as int, i as int) == v,
            final(self).ray_count() == old(self).ray_count(),
            forall|f2: int, j: int|
                0 <= f2 < RAY_FIELDS && 0 <= j < old(self).ray_count() && !(j == i && f2 == RAY_DIR_X)
                    ==> #[trigger] final(self).ray_word(f2, j) == old(self).ray_word(f2, j),
    {
        self.set_ray_word(RAY_DIR_X, i, v);
    }

    /// Y coordinate of the direction of ray `i`.
    pub fn dir_y(&self, i: usize) -> (r: u32)
        requires
            self.wf(),
            i < self.packet_len(),
        ensures
            r == self.ray_word(RAY_DIR_Y as int, i as int),
    {
        self.get_ray_word(RAY_DIR_Y, i)
    }

    /// Sets the y coordinate of the direction of ray `i`.
    pub fn set_dir_y(&mut self, i: usize, v: u32)
        requires
            old(self).wf(),
            i < old(self).packet_len(),
        ensures
            final(self).wf(),
            final(self).ray_word(RAY_DIR_Y as int, i as int) == v,
            final(self).ray_count() == old(self).ray_count(),
            forall|f2: int, j: int|
                0 <= f2 < RAY_FIELDS && 0 <= j < old(self).ray_count() && !(j == i && f2 == RAY_DIR_Y)
                    ==> #[trigger] final(self).ray_word(f2, j) == old(self).ray_word(f2, j),
    {
        self.set_ray_word(RAY_DIR_Y, i, v);
    }

    /// Z coordinate of the direction of ray `i`.
    pub fn dir_z(&self, i: usize) -> (r: u32)
        requires
            self.wf(),
            i < self.packet_len(),
        ensures
            r == self.ray_word(RAY_DIR_Z as int, i as int),
    {
        self.get_ray_word(RAY_DIR_Z, i)
    }

    /// Sets the z coordinate of the direction of ray `i`.
    pub fn set_dir_z(&mut self, i: usize, v: u32)
        requires
            old(self).wf(),
            i < old(self).packet_len(),
        ensures
            final(self).wf(),
            final(self).ray_word(RAY_DIR_Z as int, i as int) == v,
            final(self).ray_count() == old(self).ray_count(),
            forall|f2: int, j: int|
                0 <= f2 < RAY_FIELDS && 0 <= j < old(self).ray_count() && !(j == i && f2 == RAY_DIR_Z)
                    ==> #[trigger] final(self).ray_word(f2, j) == old(self).ray_word(f2, j),
    {
        self.set_ray_word(RAY_DIR_Z, i, v);
    }
}

impl<'a> SoARay for RayN<'a> {
    open spec fn ray_wf(&self) -> bool {
        self.wf()
    }

    open spec fn ray_count(&self) -> nat {
        self.packet_len()
    }

    open spec fn ray_word(&self, f: int, i: int) -> u32 {
        self.words()[f * self.packet_len() + i]
    }

    fn get_ray_word(&self, f: usize, i: usize) -> (w: u32) {
        proof {
            lemma_flat_index_in_block(f as int, i as int, RAY_FIELDS as int, self.len as int);
        }
        self.words[f * self.len + i]
    }

    fn set_ray_word(&mut self, f: usize, i: usize, w: u32) {
        proof {
            lemma_flat_index_in_block(f as int, i as int, RAY_FIELDS as int, self.len as int);
        }
        let k = f * self.len + i;
        self.words[k] = w;
        proof {
            assert forall|f2: int, j: int|
                0 <= f2 < RAY_FIELDS && 0 <= j < old(self).ray_count() && !(j == i && (f2 == f))
                    implies #[trigger] self.ray_word(f2, j) == old(self).ray_word(f2, j) by {
                lemma_flat_index_injective(f2, j, f as int, i as int, self.len as int);
                lemma_flat_index_in_block(f2, j, RAY_FIELDS as int, self.len as int);
            }
        }
    }
}

/// Hit packet of runtime size, viewed over the packet's words.
pub struct HitN<'a> {
    words: &'a mut [u32],
    len: usize,
}

impl<'a> HitN<'a> {
    /// Well-formedness: the view holds the eight member arrays of `len` words.
    pub closed spec fn wf(&self) -> bool {
        self.words@.len() == HIT_FIELDS * self.len && HIT_FIELDS * self.len <= usize::MAX
    }

    /// Number of hits of the packet.
    pub closed spec fn packet_len(&self) -> nat {
        self.len as nat
    }

    /// The words of the packet, member array after member array.
    pub closed spec fn words(&self) -> Seq<u32> {
        self.words@
    }

    /// Views `words` as a packet of `len` hits.
    pub fn new(words: &'a mut [u32], len: usize) -> (r: Self)
        requires
            old(words)@.len() == HIT_FIELDS * len,
            HIT_FIELDS * len <= usize::MAX,
        ensures
            r.wf(),
            r.packet_len() == len,
            r.words() == old(words)@,
    {
        HitN { words, len }
    }

    /// Returns the number of hits of the packet.
    pub fn len(&self) -> (r: usize)
        ensures
            r == self.packet_len(),
    {
        self.len
    }

    /// X coordinate of the geometry normal of hit `i`.
    pub fn ng_x(&self, i: usize) -> (r: u32)
        requires
            self.wf(),
            i < self.packet_len(),
        ensures
            r == self.hit_word(HIT_NG_X as int, i as int),
    {
        self.get_hit_word(HIT_NG_X, i)
    }

    /// Y coordinate of the geometry normal of hit `i`.
    pub fn ng_y(&self, i: usize) -> (r: u32)
        requires
            self.wf(),
            i < self.packet_len(),
        ensures
            r == self.hit_word(HIT_NG_Y as int, i as int),
    {
        self.get_hit_word(HIT_NG_Y, i)
    }

    /// Z coordinate of the geometry normal of hit `i`.
    pub fn ng_z(&self, i: usize) -> (r: u32)
        requires
            self.wf(),
            i < self.packet_len(),
        ensures
            r == self.hit_word(HIT_NG_Z as int, i as int),
    {
        self.get_hit_word(HIT_NG_Z, i)
    }
}

impl<'a> SoAHit for HitN<'a> {
    open spec fn hit_wf(&self) -> bool {
        self.wf()
    }

    open spec fn hit_count(&self) -> nat {
        self.packet_len()
    }

    open spec fn hit_word(&self, f: int, i: int) -> u32 {
        self.words()[f * self.packet_len() + i]
    }

    fn get_hit_word(&self, f: usize, i: usize) -> (w: u32) {
        proof {
            lemma_flat_index_in_block(f as int, i as int, HIT_FIELDS as int, self.len as int);
        }
        self.words[f * self.len + i]
    }

    fn set_hit_word(&mut self, f: usize, i: usize, w: u32) {
        proof {
            lemma_flat_index_in_block(f as int, i as int, HIT_FIELDS as int, self.len as int);
        }
        let k = f * self.len + i;
        self.words[k] = w;
        proof {
            assert forall|f2: int, j: int|
                0 <= f2 < HIT_FIELDS && 0 <= j < old(self).hit_count() && !(j == i && (f2 == f))
                    implies #[trigger] self.hit_word(f2, j) == old(self).hit_word(f2, j) by {
                lemma_flat_index_injective(f2, j, f as int, i as int, self.len as int);
                lemma_flat_index_in_block(f2, j, HIT_FIELDS as int, self.len as int);
            }
        }
    }
}

/// Combined ray and hit packet of runtime size: the ray members followed by
/// the hit members.
pub struct RayHitN<'a> {
    words: &'a mut [u32],
    len: usize,
}

impl<'a> RayHitN<'a> {
    /// Well-formedness: the view holds twenty member arrays of `len` words.
    pub closed spec fn wf(&self) -> bool {
        self.words@.len() == (RAY_FIELDS + HIT_FIELDS) * self.len && (RAY_FIELDS + HIT_FIELDS) * self.len <= usize::MAX
    }

    /// Number of rays (and hits) of the packet.
    pub closed spec fn packet_len(&self) -> nat {
        self.len as nat
    }

    /// The words of the packet.
    pub closed spec fn words(&self) -> Seq<u32> {
        self.words@
    }

    /// Views `words` as a packet of `len` rays followed by their hits.
    pub fn new(words: &'a mut [u32], len: usize) -> (r: Self)
        requires
            old(words)@.len() == (RAY_FIELDS + HIT_FIELDS) * len,
            (RAY_FIELDS + HIT_FIELDS) * len <= usize::MAX,
        ensures
            r.wf(),
            r.packet_len() == len,
            r.words() == old(words)@,
    {
        RayHitN { words, len }
    }

    /// Returns the ray packet: the first twelve member arrays.
    pub fn ray_n(&mut self) -> (r: RayN<'_>)
        requires
            old(self).wf(),
        ensures
            r.wf(),
            r.packet_len() == old(self).packet_len(),
            r.words() == old(self).words().subrange(0, RAY_FIELDS * old(self).packet_len()),
    {
        let n = self.len;
        let (rays, _hits) = self.words.split_at_mut(RAY_FIELDS * n);
        RayN::new(rays, n)
    }

    /// Returns the hit packet: the last eight member arrays.
    pub fn hit_n(&mut self) -> (r: HitN<'_>)
        requires
            old(self).wf(),
        ensures
            r.wf(),
            r.packet_len() == old(self).packet_len(),
            r.words() == old(self).words().subrange(RAY_FIELDS * old(self).packet_len(), (RAY_FIELDS + HIT_FIELDS) * old(self).packet_len()),
    {
        let n = self.len;
        let (_rays, hits) = self.words.split_at_mut(RAY_FIELDS * n);
        HitN::new(hits, n)
    }
}

} // verus!

//! Layout of the results of vertex attribute interpolation.
//!
//! Values are `f32` bit patterns.

use vstd::prelude::*;

verus! {

/// One of the quantities an interpolation can produce.
#[derive(Clone, Copy, Debug, PartialEq, Eq, Structural)]
pub enum InterpolateAttr {
    /// The interpolated value.
    P,
    /// First derivative along u.
    DpDu,
    /// First derivative along v.
    DpDv,
    /// Second derivative along u twice.
    DdpDuDu,
    /// Second derivative along v twice.
    DdpDvDv,
    /// Mixed second derivative along u and v.
    DdpDuDv,
}

/// 1 when `b` holds, 0 otherwise.
pub open spec fn flag(b: bool) -> int {
    if b { 1 } else { 0 }
}

/// Number of quantities produced when the value (`zeroth`), the first
/// derivatives (`first`, two of them) and the second derivatives (`second`,
/// three of them) are asked for.
pub open spec fn quantity_count(zeroth: bool, first: bool, second: bool) -> int {
    flag(zeroth) + 2 * flag(first) + 3 * flag(second)
}

/// Position, counted in arrays of `count` values, of the array holding `attr`,
/// when it is produced; the arrays are laid out in the order P, dP/du, dP/dv,
/// d2P/du2, d2P/dv2, d2P/dudv, skipping the ones not asked for.
pub open spec fn attr_slot(attr: InterpolateAttr, zeroth: bool, first: bool, second: bool) -> Option<int> {
    match attr {
        InterpolateAttr::P => if zeroth { Some(0) } else { None },
        InterpolateAttr::DpDu => if first { Some(flag(zeroth)) } else { None },
        InterpolateAttr::DpDv => if first { Some(flag(zeroth) + 1) } else { None },
        InterpolateAttr::DdpDuDu => if second { Some(flag(zeroth) + 2 * flag(first)) } else { None },
        InterpolateAttr::DdpDvDv => if second { Some(flag(zeroth) + 2 * flag(first) + 1) } else { None },
        InterpolateAttr::DdpDuDv => if second { Some(flag(zeroth) + 2 * flag(first) + 2) } else { None },
    }
}

/// Distinct quantities that are both produced occupy distinct arrays, and every
/// produced array lies among the arrays of the quantities asked for.
pub proof fn lemma_attr_slots_distinct(a: InterpolateAttr, b: InterpolateAttr, zeroth: bool, first: bool, second: bool)
    ensures
        attr_slot(a, zeroth, first, second) matches Some(k) ==> 0 <= k < quantity_count(zeroth, first, second),
        a != b && attr_slot(a, zeroth, first, second) is Some && attr_slot(b, zeroth, first, second) is Some
            ==> attr_slot(a, zeroth, first, second) != attr_slot(b, zeroth, first, second),
{
}

/// The arguments of a single interpolation. `u` and `v` are `f32` bit patterns.
#[derive(Clone, Copy, Debug, PartialEq, Eq, Structural)]
pub struct InterpolateInput {
    /// Primitive to interpolate over.
    pub prim_id: u32,
    /// Barycentric u coordinate.
    pub u: u32,
    /// Barycentric v coordinate.
    pub v: u32,
    /// Usage of the buffer holding the data to interpolate.
    pub usage: crate::geometry::BufferUsage,
    /// Slot of that buffer.
    pub slot: u32,
}

/// The output of an interpolation in structure-of-arrays layout: one array
/// of `count` values per quantity asked for, one after the other.
pub struct InterpolateOutput {
    buffer: Vec<u32>,
    count_per_attribute: u32,
    p_offset: Option<u32>,
    dp_du_offset: Option<u32>,
    dp_dv_offset: Option<u32>,
    ddp_du_du_offset: Option<u32>,
    ddp_dv_dv_offset: Option<u32>,
    ddp_du_dv_offset: Option<u32>,
}

impl InterpolateOutput {
    /// Offset, in values, of the array of `attr`, if it is produced.
    pub closed spec fn offset_of(&self, attr: InterpolateAttr) -> Option<u32> {
        match attr {
            InterpolateAttr::P => self.p_offset,
            InterpolateAttr::DpDu => self.dp_du_offset,
            InterpolateAttr::DpDv => self.dp_dv_offset,
            InterpolateAttr::DdpDuDu => self.ddp_du_du_offset,
            InterpolateAttr::DdpDvDv => self.ddp_dv_dv_offset,
            InterpolateAttr::DdpDuDv => self.ddp_du_dv_offset,
        }
    }

    /// Number of values per quantity.
    pub closed spec fn values_per_attribute(&self) -> nat {
        self.count_per_attribute as nat
    }

    /// All values, array after array.
    pub closed spec fn values(&self) -> Seq<u32> {
        self.buffer@
    }

    /// Every produced array lies inside the buffer.
    #[verifier::type_invariant]
    spec fn arrays_in_buffer(&self) -> bool {
        &&& self.buffer@.len() <= u32::MAX
        &&& forall|a: InterpolateAttr| #[trigger] self.offset_of(a) matches Some(o)
            ==> o + self.count_per_attribute <= self.buffer@.len()
    }

    /// Allocates the output for `count` values per quantity, for the value
    /// (`zeroth_order`), the first derivatives (`first_order`) and the second
    /// derivatives (`second_order`) as asked; all values are zero. The buffer
    /// holds one array more than the quantities asked for.
    pub fn new(count: u32, zeroth_order: bool, first_order: bool, second_order: bool) -> (r: Self)
        requires
            count > 0,
            zeroth_order || first_order || second_order,
            count * (quantity_count(zeroth_order, first_order, second_order) + 1) <= u32::MAX,
        ensures
            r.values_per_attribute() == count,
            r.values().len() == count * (quantity_count(zeroth_order, first_order, second_order) + 1),
            forall|i: int| 0 <= i < r.values().len() ==> #[trigger] r.values()[i] == 0u32,
            forall|a: InterpolateAttr| #[trigger] r.offset_of(a) == match attr_slot(a, zeroth_order, first_order, second_order) {
                Some(k) => Some((k * count) as u32),
                None => None::<u32>,
            },
    {
        let ghost q = quantity_count(zeroth_order, first_order, second_order);
        assert(count * 0 == 0 && count * 1 == count) by (nonlinear_arith);
        assert(count * q + count == count * (q + 1)) by (nonlinear_arith);
        assert(0 <= count * q) by (nonlinear_arith) requires count > 0, 0 <= q;
        let mut offset: u32 = 0;
        let p_offset = if zeroth_order {
            let o = offset;
            offset = offset + count;
            Some(o)
        } else {
            None
        };
        assert(offset == count * flag(zeroth_order)) by (nonlinear_arith)
            requires offset == (if zeroth_order { count as int } else { 0 });
        let ghost z = flag(zeroth_order);
        let dp_du_offset = if first_order {
            assert(count * z + count <= count * (q + 1)) by (nonlinear_arith)
                requires z + 1 <= q + 1, count > 0, 0 <= z;
            let o = offset;
            offset = offset + count;
            Some(o)
        } else {
            None
        };
        let dp_dv_offset = if first_order {
            assert(count * (z + 1) + count <= count * (q + 1)) by (nonlinear_arith)
                requires z + 2 <= q + 1, count > 0, 0 <= z;
            assert(count * (z + 1) == count * z + count) by (nonlinear_arith);
            let o = offset;
            offset = offset + count;
            Some(o)
        } else {
            None
        };
        let ghost zf = z + 2 * flag(first_order);
        assert(offset == count * zf) by (nonlinear_arith)
            requires offset == count * z + (if first_order { 2 * count } else { 0 }), zf == z + 2 * flag(first_order);
        let ddp_du_du_offset = if second_order {
            assert(count * zf + count <= count * (q + 1)) by (nonlinear_arith)
                requires zf + 1 <= q + 1, count > 0, 0 <= zf;
            let o = offset;
            offset = offset + count;
            Some(o)
        } else {
            None
        };
        let ddp_dv_dv_offset = if second_order {
            assert(count * (zf + 1) + count <= count * (q + 1)) by (nonlinear_arith)
                requires zf + 2 <= q + 1, count > 0, 0 <= zf;
            assert(count * (zf + 1) == count * zf + count) by (nonlinear_arith);
            let o = offset;
            offset = offset + count;
            Some(o)
        } else {
            None
        };
        let ddp_du_dv_offset = if second_order {
            assert(count * (zf + 2) + count <= count * (q + 1)) by (nonlinear_arith)
                requires zf + 3 <= q + 1, count > 0, 0 <= zf;
            assert(count * (zf + 2) == count * zf + 2 * count) by (nonlinear_arith);
            let o = offset;
            offset = offset + count;
            Some(o)
        } else {
            None
        };
        assert(offset == count * q) by (nonlinear_arith)
            requires offset == count * zf + (if second_order { 3 * count } else { 0 }), q == zf + 3 * flag(second_order);
        let total: usize = (offset + count) as usize;
        let mut buffer: Vec<u32> = Vec::new();
        let mut i: usize = 0;
        while i < total
            invariant
                i <= total,
                buffer@.len() == i,
                forall|j: int| 0 <= j < i ==> buffer@[j] == 0u32,
            decreases total - i,
        {
            buffer.push(0);
            i = i + 1;
        }
        let r = InterpolateOutput {
            buffer,
            count_per_attribute: count,
            p_offset,
            dp_du_offset,
            dp_dv_offset,
            ddp_du_du_offset,
            ddp_dv_dv_offset,
            ddp_du_dv_offset,
        };
        assert forall|a: InterpolateAttr| #[trigger] r.offset_of(a) == match attr_slot(a, zeroth_order, first_order, second_order) {
            Some(k) => Some((k * count) as u32),
            None => None::<u32>,
        } by {
            assert(count * z == z * count && count * (z + 1) == (z + 1) * count) by (nonlinear_arith);
            assert(count * zf == zf * count && count * (zf + 1) == (zf + 1) * count
                && count * (zf + 2) == (zf + 2) * count) by (nonlinear_arith);
        }
        r
    }

    /// The array of values of `attr`, if it is produced.
    pub fn attribute(&self, attr: InterpolateAttr) -> (r: Option<&[u32]>)
        ensures
            match self.offset_of(attr) {
                Some(o) => r matches Some(s) && s@ == self.values().subrange(o as int, o + self.values_per_attribute()),
                None => r is None,
            },
    {
        let off = match attr {
            InterpolateAttr::P => self.p_offset,
            InterpolateAttr::DpDu => self.dp_du_offset,
            InterpolateAttr::DpDv => self.dp_dv_offset,
            InterpolateAttr::DdpDuDu => self.ddp_du_du_offset,
            InterpolateAttr::DdpDvDv => self.ddp_dv_dv_offset,
            InterpolateAttr::DdpDuDv => self.ddp_du_dv_offset,
        };
        proof { use_type_invariant(self); }
        match off {
            Some(o) => {
                assert(self.offset_of(attr) == Some(o));
                let start: usize = o as usize;
                let end: usize = start + self.count_per_attribute as usize;
                Some(vstd::slice::slice_subrange(self.buffer.as_slice(), start, end))
            },
            None => None,
        }
    }

    /// Returns the interpolated values, if they are produced.
    pub fn p(&self) -> (r: Option<&[u32]>)
        ensures
            match self.offset_of(InterpolateAttr::P) {
                Some(o) => r matches Some(s) && s@ == self.values().subrange(o as int, o + self.values_per_attribute()),
                None => r is None,
            },
    {
        self.attribute(InterpolateAttr::P)
    }

    /// Returns the first derivatives along u, if they are produced.
    pub fn dp_du(&self) -> (r: Option<&[u32]>)
        ensures
            match self.offset_of(InterpolateAttr::DpDu) {
                Some(o) => r matches Some(s) && s@ == self.values().subrange(o as int, o + self.values_per_attribute()),
                None => r is None,
            },
    {
        self.attribute(InterpolateAttr::DpDu)
    }

    /// Returns the first derivatives along v, if they are produced.
    pub fn dp_dv(&self) -> (r: Option<&[u32]>)
        ensures
            match self.offset_of(InterpolateAttr::DpDv) {
                Some(o) => r matches Some(s) && s@ == self.values().subrange(o as int, o + self.values_per_attribute()),
                None => r is None,
            },
    {
        self.attribute(InterpolateAttr::DpDv)
    }

    /// Returns the second derivatives along u twice, if they are produced.
    pub fn ddp_du_du(&self) -> (r: Option<&[u32]>)
        ensures
            match self.offset_of(InterpolateAttr::DdpDuDu) {
                Some(o) => r matches Some(s) && s@ == self.values().subrange(o as int, o + self.values_per_attribute()),
                None => r is None,
            },
    {
        self.attribute(InterpolateAttr::DdpDuDu)
    }

    /// Returns the second derivatives along v twice, if they are produced.
    pub fn ddp_dv_dv(&self) -> (r: Option<&[u32]>)
        ensures
            match self.offset_of(InterpolateAttr::DdpDvDv) {
                Some(o) => r matches Some(s) && s@ == self.values().subrange(o as int, o + self.values_per_attribute()),
                None => r is None,
            },
    {
        self.attribute(InterpolateAttr::DdpDvDv)
    }

    /// Returns the mixed second derivatives, if they are produced.
    pub fn ddp_du_dv(&self) -> (r: Option<&[u32]>)
        ensures
            match self.offset_of(InterpolateAttr::DdpDuDv) {
                Some(o) => r matches Some(s) && s@ == self.values().subrange(o as int, o + self.values_per_attribute()),
                None => r is None,
            },
    {
        self.attribute(InterpolateAttr::DdpDuDv)
    }

    /// Writes value `i` of the array of `attr`, when that array is produced.
    pub fn set_value(&mut self, attr: InterpolateAttr, i: u32, v: u32)
        requires
            old(self).offset_of(attr) is Some,
            i < old(self).values_per_attribute(),
        ensures
            final(self).values_per_attribute() == old(self).values_per_attribute(),
            forall|a: InterpolateAttr| #[trigger] final(self).offset_of(a) == old(self).offset_of(a),
            final(self).values() == old(self).values().update(old(self).offset_of(attr)->0 + i, v),
    {
        let off = match attr {
            InterpolateAttr::P => self.p_offset,
            InterpolateAttr::DpDu => self.dp_du_offset,
            InterpolateAttr::DpDv => self.dp_dv_offset,
            InterpolateAttr::DdpDuDu => self.ddp_du_du_offset,
            InterpolateAttr::DdpDvDv => self.ddp_dv_dv_offset,
            InterpolateAttr::DdpDuDv => self.ddp_du_dv_offset,
        };
        proof { use_type_invariant(&*self); }
        match off {
            Some(o) => {
                assert(old(self).offset_of(attr) == Some(o));
                let k: usize = o as usize + i as usize;
                let mut taken = InterpolateOutput {
                    buffer: Vec::new(),
                    count_per_attribute: 0,
                    p_offset: None,
                    dp_du_offset: None,
                    dp_dv_offset: None,
                    ddp_du_du_offset: None,
                    ddp_dv_dv_offset: None,
                    ddp_du_dv_offset: None,
                };
                std::mem::swap(self, &mut taken);
                proof { use_type_invariant(&taken); }
                let ghost t = taken;
                let InterpolateOutput {
                    mut buffer,
                    count_per_attribute,
                    p_offset,
                    dp_du_offset,
                    dp_dv_offset,
                    ddp_du_du_offset,
                    ddp_dv_dv_offset,
                    ddp_du_dv_offset,
                } = taken;
                buffer.set(k, v);
                let ghost r = InterpolateOutput {
                    buffer,
                    count_per_attribute,
                    p_offset,
                    dp_du_offset,
                    dp_dv_offset,
                    ddp_du_du_offset,
                    ddp_dv_dv_offset,
                    ddp_du_dv_offset,
                };
                assert(r.buffer@.len() <= u32::MAX);
                assert forall|a: InterpolateAttr| (#[trigger] r.offset_of(a)) is Some
                    implies r.offset_of(a)->0 + r.count_per_attribute <= r.buffer@.len() by {
                    assert(r.offset_of(a) == t.offset_of(a));
                }
                *self = InterpolateOutput {
                    buffer,
                    count_per_attribute,
                    p_offset,
                    dp_du_offset,
                    dp_dv_offset,
                    ddp_du_du_offset,
                    ddp_dv_dv_offset,
                    ddp_du_dv_offset,
                };
            },
            None => {},
        }
    }

    /// Returns the number of values per quantity.
    pub fn value_count(&self) -> (r: u32)
        ensures
            r == self.values_per_attribute(),
    {
        self.count_per_attribute
    }
}

/// The number of interpolations of one call of `interpolate_n` must be a multiple of 4.
pub fn interpolate_n_count_valid(n: u32) -> (r: bool)
    ensures
        r == (n % 4 == 0),
{
    n % 4 == 0
}

} // verus!

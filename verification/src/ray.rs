//! Single rays and hits.
//!
//! Floating-point members hold `f32` bit patterns.

use vstd::prelude::*;
use crate::soa::{F32_INFINITY_BITS, F32_NEG_INFINITY_BITS, INVALID_ID};

verus! {

/// A single ray: origin, direction, segment `[tnear, tfar]`, time, mask,
/// identifier and flags.
///
/// The ray segment must be in the range [0, inf]; for rays inside a ray stream,
/// `tfar < tnear` identifies an inactive ray.
#[derive(Clone, Copy, Debug, PartialEq, Eq, Structural)]
pub struct Ray {
    /// x coordinate of the origin.
    pub org_x: u32,
    /// y coordinate of the origin.
    pub org_y: u32,
    /// z coordinate of the origin.
    pub org_z: u32,
    /// Start of the ray segment.
    pub tnear: u32,
    /// x coordinate of the direction.
    pub dir_x: u32,
    /// y coordinate of the direction.
    pub dir_y: u32,
    /// z coordinate of the direction.
    pub dir_z: u32,
    /// Time of the ray, for motion blur.
    pub time: u32,
    /// End of the ray segment.
    pub tfar: u32,
    /// Ray mask.
    pub mask: u32,
    /// Ray identifier.
    pub id: u32,
    /// Ray flags.
    pub flags: u32,
}

impl Ray {
    /// Creates a new ray; all members are given except the flags, which are zero.
    pub fn new(origin: [u32; 3], direction: [u32; 3], near: u32, far: u32, time: u32, mask: u32, id: u32) -> (r: Ray)
        ensures
            r == (Ray {
                org_x: origin@[0],
                org_y: origin@[1],
                org_z: origin@[2],
                tnear: near,
                dir_x: direction@[0],
                dir_y: direction@[1],
                dir_z: direction@[2],
                tfar: far,
                time,
                mask,
                id,
                flags: 0,
            }),
    {
        Ray {
            org_x: origin[0],
            org_y: origin[1],
            org_z: origin[2],
            tnear: near,
            dir_x: direction[0],
            dir_y: direction[1],
            dir_z: direction[2],
            tfar: far,
            time,
            mask,
            id,
            flags: 0,
        }
    }

    /// Creates a ray starting at `origin` heading in direction `direction`,
    /// with the segment `[tnear, tfar]`, time zero, all mask bits set and
    /// identifier zero.
    pub fn segment(origin: [u32; 3], direction: [u32; 3], tnear: u32, tfar: u32) -> (r: Ray)
        ensures
            r == (Ray {
                org_x: origin@[0],
                org_y: origin@[1],
                org_z: origin@[2],
                tnear,
                dir_x: direction@[0],
                dir_y: direction@[1],
                dir_z: direction@[2],
                tfar,
                time: 0,
                mask: 0xffff_ffff,
                id: 0,
                flags: 0,
            }),
    {
        Ray::new(origin, direction, tnear, tfar, 0, 0xffff_ffff, 0)
    }

    /// Like [`Ray::segment`], with the given identifier.
    pub fn segment_with_id(origin: [u32; 3], direction: [u32; 3], tnear: u32, tfar: u32, id: u32) -> (r: Ray)
        ensures
            r == (Ray {
                org_x: origin@[0],
                org_y: origin@[1],
                org_z: origin@[2],
                tnear,
                dir_x: direction@[0],
                dir_y: direction@[1],
                dir_z: direction@[2],
                tfar,
                time: 0,
                mask: 0xffff_ffff,
                id,
                flags: 0,
            }),
    {
        Ray::new(origin, direction, tnear, tfar, 0, 0xffff_ffff, id)
    }

    /// Returns the origin of the ray.
    pub fn org(&self) -> (r: [u32; 3])
        ensures
            r@ == seq![self.org_x, self.org_y, self.org_z],
    {
        [self.org_x, self.org_y, self.org_z]
    }

    /// Returns the direction (not normalized) of the ray.
    pub fn dir(&self) -> (r: [u32; 3])
        ensures
            r@ == seq![self.dir_x, self.dir_y, self.dir_z],
    {
        [self.dir_x, self.dir_y, self.dir_z]
    }

    /// Whether an occlusion query reported a hit for this ray: occlusion
    /// queries set `tfar` to negative infinity when something is hit.
    pub fn is_occluded(&self) -> (r: bool)
        ensures
            r == (self.tfar == F32_NEG_INFINITY_BITS),
    {
        self.tfar == F32_NEG_INFINITY_BITS
    }
}

impl Default for Ray {
    /// A ray at the origin with zero direction, segment `[0, inf]`, all mask
    /// bits set, identifier and flags zero.
    fn default() -> (r: Ray)
        ensures
            r == (Ray {
                org_x: 0,
                org_y: 0,
                org_z: 0,
                tnear: 0,
                dir_x: 0,
                dir_y: 0,
                dir_z: 0,
                tfar: F32_INFINITY_BITS,
                time: 0,
                mask: 0xffff_ffff,
                id: 0,
                flags: 0,
            }),
    {
        Ray {
            org_x: 0,
            org_y: 0,
            org_z: 0,
            tnear: 0,
            dir_x: 0,
            dir_y: 0,
            dir_z: 0,
            tfar: F32_INFINITY_BITS,
            time: 0,
            mask: 0xffff_ffff,
            id: 0,
            flags: 0,
        }
    }
}

/// A single ray/primitive intersection result: geometry normal, barycentric
/// coordinates and the primitive, geometry and instance identifiers of the hit.
/// The hit distance is stored in the `tfar` member of the ray.
#[derive(Clone, Copy, Debug, PartialEq, Eq, Structural)]
pub struct Hit {
    /// x coordinate of the geometry normal (not normalized).
    pub ng_x: u32,
    /// y coordinate of the geometry normal.
    pub ng_y: u32,
    /// z coordinate of the geometry normal.
    pub ng_z: u32,
    /// Barycentric u coordinate.
    pub u: u32,
    /// Barycentric v coordinate.
    pub v: u32,
    /// Primitive identifier.
    pub prim_id: u32,
    /// Geometry identifier.
    pub geom_id: u32,
    /// Instance identifier (the instance stack has depth one).
    pub inst_id: u32,
}

/// A hit that hit nothing: zero normal and coordinates, all identifiers invalid.
pub open spec fn empty_hit() -> Hit {
    Hit {
        ng_x: 0,
        ng_y: 0,
        ng_z: 0,
        u: 0,
        v: 0,
        prim_id: INVALID_ID,
        geom_id: INVALID_ID,
        inst_id: INVALID_ID,
    }
}

impl Hit {
    /// Returns the geometry normal at the hit point (not normalized).
    pub fn normal(&self) -> (r: [u32; 3])
        ensures
            r@ == seq![self.ng_x, self.ng_y, self.ng_z],
    {
        [self.ng_x, self.ng_y, self.ng_z]
    }

    /// Returns the barycentric u/v coordinates of the hit.
    pub fn barycentric(&self) -> (r: [u32; 2])
        ensures
            r@ == seq![self.u, self.v],
    {
        [self.u, self.v]
    }

    /// Returns if the hit is valid, i.e. the ray hit something.
    pub fn is_valid(&self) -> (r: bool)
        ensures
            r == (self.geom_id != INVALID_ID),
    {
        self.geom_id != INVALID_ID
    }
}

impl Default for Hit {
    /// A hit that hit nothing.
    fn default() -> (r: Hit)
        ensures
            r == empty_hit(),
    {
        Hit {
            ng_x: 0,
            ng_y: 0,
            ng_z: 0,
            u: 0,
            v: 0,
            prim_id: INVALID_ID,
            geom_id: INVALID_ID,
            inst_id: INVALID_ID,
        }
    }
}

/// A ray together with the hit receiving its intersection result.
#[derive(Clone, Copy, Debug, PartialEq, Eq, Structural)]
pub struct RayHit {
    /// The ray.
    pub ray: Ray,
    /// The hit.
    pub hit: Hit,
}

impl RayHit {
    /// Creates a new ray/hit ready to be used in an intersection query: the
    /// hit is empty.
    pub fn from_ray(ray: Ray) -> (r: RayHit)
        ensures
            r.ray == ray,
            r.hit == empty_hit(),
    {
        RayHit { ray, hit: Hit::default() }
    }
}

impl Default for RayHit {
    /// A default ray with an empty hit.
    fn default() -> (r: RayHit)
        ensures
            r.ray.tfar == F32_INFINITY_BITS,
            r.ray.mask == 0xffff_ffff,
            r.ray.org_x == 0 && r.ray.org_y == 0 && r.ray.org_z == 0,
            r.ray.dir_x == 0 && r.ray.dir_y == 0 && r.ray.dir_z == 0,
            r.ray.tnear == 0 && r.ray.time == 0 && r.ray.id == 0 && r.ray.flags == 0,
            r.hit == empty_hit(),
    {
        RayHit { ray: Ray::default(), hit: Hit::default() }
    }
}

impl From<Ray> for RayHit {
    fn from(value: Ray) -> (r: RayHit) {
        RayHit::from_ray(value)
    }
}

impl vstd::std_specs::convert::FromSpecImpl<Ray> for RayHit {
    open spec fn obeys_from_spec() -> bool {
        true
    }

    open spec fn from_spec(v: Ray) -> RayHit {
        RayHit { ray: v, hit: empty_hit() }
    }
}

} // verus!

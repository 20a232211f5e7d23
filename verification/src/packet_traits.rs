//! Traits naming the ray, hit and ray/hit packet types, with their sizes.

use vstd::prelude::*;
use crate::packet::{Hit16, Hit4, Hit8, Ray16, Ray4, Ray8, RayHit16, RayHit4, RayHit8};
use crate::ray::{Hit, Ray, RayHit};

verus! {

/// Implemented only by the packet types of this crate.
pub trait Sealed {}

/// A packet of rays.
pub trait RayPacket: Sized + Sealed {
    /// Number of rays of the packet.
    const LEN: usize;
}

/// A packet of hits.
pub trait HitPacket: Sized + Sealed {
    /// Number of hits of the packet.
    const LEN: usize;
}

/// A packet of rays together with their hits.
pub trait RayHitPacket: Sized + Sealed {
    /// The ray part.
    type Ray: RayPacket;
    /// The hit part.
    type Hit: HitPacket;
    /// Number of rays of the packet.
    const LEN: usize;
}

impl Sealed for Ray {}

impl RayPacket for Ray {
    const LEN: usize = 1;
}

impl Sealed for Hit {}

impl HitPacket for Hit {
    const LEN: usize = 1;
}

impl Sealed for RayHit {}

impl RayHitPacket for RayHit {
    type Ray = Ray;
    type Hit = Hit;
    const LEN: usize = 1;
}

impl Sealed for Ray4 {}

impl RayPacket for Ray4 {
    const LEN: usize = 4;
}

impl Sealed for Hit4 {}

impl HitPacket for Hit4 {
    const LEN: usize = 4;
}

impl Sealed for RayHit4 {}

impl RayHitPacket for RayHit4 {
    type Ray = Ray4;
    type Hit = Hit4;
    const LEN: usize = 4;
}

impl Sealed for Ray8 {}

impl RayPacket for Ray8 {
    const LEN: usize = 8;
}

impl Sealed for Hit8 {}

impl HitPacket for Hit8 {
    const LEN: usize = 8;
}

impl Sealed for RayHit8 {}

impl RayHitPacket for RayHit8 {
    type Ray = Ray8;
    type Hit = Hit8;
    const LEN: usize = 8;
}

impl Sealed for Ray16 {}

impl RayPacket for Ray16 {
    const LEN: usize = 16;
}

impl Sealed for Hit16 {}

impl HitPacket for Hit16 {
    const LEN: usize = 16;
}

impl Sealed for RayHit16 {}

impl RayHitPacket for RayHit16 {
    type Ray = Ray16;
    type Hit = Hit16;
    const LEN: usize = 16;
}

/// Data a user attaches to a geometry.
pub trait UserGeometryData: Sized {}

/// Data a user hands to a point query.
pub trait UserPointQueryData: Sized {}

/// A node of a BVH built by the user.
pub trait Node {}

/// A leaf node of a BVH built by the user.
pub trait LeafNode {}

} // verus!

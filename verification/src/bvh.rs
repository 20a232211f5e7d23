//! Settings of a BVH build, gathered step by step.

use vstd::prelude::*;

verus! {

/// Quality of an acceleration structure build.
#[derive(Clone, Copy, Debug, PartialEq, Eq, Structural)]
pub enum BuildQuality {
    /// Lower quality, e.g. for dynamic scenes.
    Low,
    /// Default quality for most usages.
    Medium,
    /// Higher quality for final frame rendering.
    High,
    /// Refit the existing structure when only vertices change.
    Refit,
}

/// Numeric code of a build quality in the Embree API.
pub open spec fn build_quality_code(q: BuildQuality) -> u32 {
    match q {
        BuildQuality::Low => 0,
        BuildQuality::Medium => 1,
        BuildQuality::High => 2,
        BuildQuality::Refit => 3,
    }
}

impl BuildQuality {
    /// Numeric code of the build quality in the Embree API.
    pub fn code(&self) -> (r: u32)
        ensures
            r == build_quality_code(*self),
    {
        match self {
            BuildQuality::Low => 0,
            BuildQuality::Medium => 1,
            BuildQuality::High => 2,
            BuildQuality::Refit => 3,
        }
    }
}

/// Flags of an acceleration structure build.
#[derive(Clone, Copy, Debug, PartialEq, Eq, Structural)]
pub struct BuildFlags {
    /// The flag bits (0: none, 1: dynamic).
    pub bits: u32,
}

/// A primitive handed to a BVH build: its bounding box and identifiers.
/// Bounds are `f32` bit patterns.
#[derive(Clone, Copy, Debug, PartialEq, Eq, Structural)]
pub struct BuildPrimitive {
    /// Lower x bound.
    pub lower_x: u32,
    /// Lower y bound.
    pub lower_y: u32,
    /// Lower z bound.
    pub lower_z: u32,
    /// Geometry identifier.
    pub geom_id: u32,
    /// Upper x bound.
    pub upper_x: u32,
    /// Upper y bound.
    pub upper_y: u32,
    /// Upper z bound.
    pub upper_z: u32,
    /// Primitive identifier.
    pub prim_id: u32,
}

/// Setting a bit of the readiness mask keeps every bit already set, and sets it.
pub proof fn lemma_ready_bits_kept(ready: u32, bit: u32)
    ensures
        (ready | bit) & ready == ready,
        (ready | bit) & bit == bit,
{
    assert((ready | bit) & ready == ready) by (bit_vector);
    assert((ready | bit) & bit == bit) by (bit_vector);
}

/// Settings of a BVH build. Each setter records its value and sets its bit in
/// `ready`: bit 0 quality, 1 flags, 2 maximal branching factor, 3 maximal
/// depth, 4 SAH block size, 5 minimal leaf size, 6 maximal leaf size, 7
/// traversal cost, 8 intersection cost, 9 primitives. Costs are `f32` bit
/// patterns.
pub struct BvhBuilder {
    /// Build quality.
    pub quality: Option<BuildQuality>,
    /// Build flags.
    pub flags: Option<BuildFlags>,
    /// Maximal branching factor.
    pub max_branching_factor: Option<u32>,
    /// Maximal depth.
    pub max_depth: Option<u32>,
    /// Block size for the SAH heuristic.
    pub sah_block_size: Option<u32>,
    /// Minimal size of a leaf.
    pub min_leaf_size: Option<u32>,
    /// Maximal size of a leaf.
    pub max_leaf_size: Option<u32>,
    /// Estimated cost of one traversal step.
    pub traversal_cost: Option<u32>,
    /// Estimated cost of one primitive intersection.
    pub intersection_cost: Option<u32>,
    /// Primitives to build over.
    pub primitives: Option<Vec<BuildPrimitive>>,
    /// Which settings were given, one bit per setting.
    pub ready: u32,
}

impl BvhBuilder {
    /// Settings with nothing given yet.
    pub fn new() -> (r: Self)
        ensures
            r.quality is None && r.flags is None && r.max_branching_factor is None,
            r.max_depth is None && r.sah_block_size is None && r.min_leaf_size is None,
            r.max_leaf_size is None && r.traversal_cost is None && r.intersection_cost is None,
            r.primitives is None,
            r.ready == 0,
    {
        BvhBuilder {
            quality: None,
            flags: None,
            max_branching_factor: None,
            max_depth: None,
            sah_block_size: None,
            min_leaf_size: None,
            max_leaf_size: None,
            traversal_cost: None,
            intersection_cost: None,
            primitives: None,
            ready: 0,
        }
    }

    /// Sets the build quality.
    pub fn quality(self, quality: BuildQuality) -> (r: Self)
        ensures
            r == (BvhBuilder { quality: Some(quality), ready: self.ready | 1, ..self }),
    {
        BvhBuilder { quality: Some(quality), ready: self.ready | 1, ..self }
    }

    /// Sets the build flags.
    pub fn flags(self, flags: BuildFlags) -> (r: Self)
        ensures
            r == (BvhBuilder { flags: Some(flags), ready: self.ready | 2, ..self }),
    {
        BvhBuilder { flags: Some(flags), ready: self.ready | 2, ..self }
    }

    /// Sets the maximal branching factor.
    pub fn max_branching_factor(self, max_branching_factor: u32) -> (r: Self)
        ensures
            r == (BvhBuilder { max_branching_factor: Some(max_branching_factor), ready: self.ready | 4, ..self }),
    {
        BvhBuilder { max_branching_factor: Some(max_branching_factor), ready: self.ready | 4, ..self }
    }

    /// Sets the maximal depth.
    pub fn max_depth(self, max_depth: u32) -> (r: Self)
        ensures
            r == (BvhBuilder { max_depth: Some(max_depth), ready: self.ready | 8, ..self }),
    {
        BvhBuilder { max_depth: Some(max_depth), ready: self.ready | 8, ..self }
    }

    /// Sets the block size for the SAH heuristic.
    pub fn sah_block_size(self, sah_block_size: u32) -> (r: Self)
        ensures
            r == (BvhBuilder { sah_block_size: Some(sah_block_size), ready: self.ready | 16, ..self }),
    {
        BvhBuilder { sah_block_size: Some(sah_block_size), ready: self.ready | 16, ..self }
    }

    /// Sets the minimal size of a leaf.
    pub fn min_leaf_size(self, min_leaf_size: u32) -> (r: Self)
        ensures
            r == (BvhBuilder { min_leaf_size: Some(min_leaf_size), ready: self.ready | 32, ..self }),
    {
        BvhBuilder { min_leaf_size: Some(min_leaf_size), ready: self.ready | 32, ..self }
    }

    /// Sets the maximal size of a leaf.
    pub fn max_leaf_size(self, max_leaf_size: u32) -> (r: Self)
        ensures
            r == (BvhBuilder { max_leaf_size: Some(max_leaf_size), ready: self.ready | 64, ..self }),
    {
        BvhBuilder { max_leaf_size: Some(max_leaf_size), ready: self.ready | 64, ..self }
    }

    /// Sets the estimated cost of one traversal step.
    pub fn traversal_cost(self, traversal_cost: u32) -> (r: Self)
        ensures
            r == (BvhBuilder { traversal_cost: Some(traversal_cost), ready: self.ready | 128, ..self }),
    {
        BvhBuilder { traversal_cost: Some(traversal_cost), ready: self.ready | 128, ..self }
    }

    /// Sets the estimated cost of one primitive intersection.
    pub fn intersection_cost(self, intersection_cost: u32) -> (r: Self)
        ensures
            r == (BvhBuilder { intersection_cost: Some(intersection_cost), ready: self.ready | 256, ..self }),
    {
        BvhBuilder { intersection_cost: Some(intersection_cost), ready: self.ready | 256, ..self }
    }

    /// Sets the primitives to build over.
    pub fn primitives(self, primitives: Vec<BuildPrimitive>) -> (r: Self)
        ensures
            r == (BvhBuilder { primitives: Some(primitives), ready: self.ready | 512, ..self }),
    {
        BvhBuilder { primitives: Some(primitives), ready: self.ready | 512, ..self }
    }
}

} // verus!

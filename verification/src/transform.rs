//! Affine transformations as quaternion decompositions, and bounding boxes.
//!
//! Floating-point members hold `f32` bit patterns.

use vstd::prelude::*;
use crate::soa::{F32_INFINITY_BITS, F32_ONE_BITS};

verus! {

/// Quaternion decomposition of an affine transformation.
///
/// The transformation is decomposed into an upper triangular
/// scaling/skew/shift matrix S, a translation T and a rotation R given as the
/// quaternion `r + i*x + j*y + k*z`; a point is transformed as `T * R * S * p`.
#[derive(Clone, Copy, Debug, PartialEq, Eq, Structural)]
pub struct QuaternionDecomposition {
    /// Scale along x.
    pub scale_x: u32,
    /// Scale along y.
    pub scale_y: u32,
    /// Scale along z.
    pub scale_z: u32,
    /// Skew of x by y.
    pub skew_xy: u32,
    /// Skew of x by z.
    pub skew_xz: u32,
    /// Skew of y by z.
    pub skew_yz: u32,
    /// Shift along x.
    pub shift_x: u32,
    /// Shift along y.
    pub shift_y: u32,
    /// Shift along z.
    pub shift_z: u32,
    /// Real part of the rotation quaternion.
    pub quaternion_r: u32,
    /// i part of the rotation quaternion.
    pub quaternion_i: u32,
    /// j part of the rotation quaternion.
    pub quaternion_j: u32,
    /// k part of the rotation quaternion.
    pub quaternion_k: u32,
    /// Translation along x.
    pub translation_x: u32,
    /// Translation along y.
    pub translation_y: u32,
    /// Translation along z.
    pub translation_z: u32,
}

/// The decomposition of the identity transformation.
pub open spec fn identity_decomposition() -> QuaternionDecomposition {
    QuaternionDecomposition {
        scale_x: F32_ONE_BITS,
        scale_y: F32_ONE_BITS,
        scale_z: F32_ONE_BITS,
        skew_xy: 0,
        skew_xz: 0,
        skew_yz: 0,
        shift_x: 0,
        shift_y: 0,
        shift_z: 0,
        quaternion_r: F32_ONE_BITS,
        quaternion_i: 0,
        quaternion_j: 0,
        quaternion_k: 0,
        translation_x: 0,
        translation_y: 0,
        translation_z: 0,
    }
}

impl QuaternionDecomposition {
    /// Creates a new quaternion decomposition of the identity transformation.
    pub fn identity() -> (r: Self)
        ensures
            r == identity_decomposition(),
            r.scale_x == 0x3f80_0000u32 && r.scale_y == 0x3f80_0000u32 && r.scale_z == 0x3f80_0000u32,
            r.skew_xy == 0u32 && r.skew_xz == 0u32 && r.skew_yz == 0u32,
            r.shift_x == 0u32 && r.shift_y == 0u32 && r.shift_z == 0u32,
            r.quaternion_r == 0x3f80_0000u32 && r.quaternion_i == 0u32 && r.quaternion_j == 0u32
                && r.quaternion_k == 0u32,
            r.translation_x == 0u32 && r.translation_y == 0u32 && r.translation_z == 0u32,
    {
        QuaternionDecomposition {
            scale_x: F32_ONE_BITS,
            scale_y: F32_ONE_BITS,
            scale_z: F32_ONE_BITS,
            skew_xy: 0,
            skew_xz: 0,
            skew_yz: 0,
            shift_x: 0,
            shift_y: 0,
            shift_z: 0,
            quaternion_r: F32_ONE_BITS,
            quaternion_i: 0,
            quaternion_j: 0,
            quaternion_k: 0,
            translation_x: 0,
            translation_y: 0,
            translation_z: 0,
        }
    }

    /// Returns the scale part of the decomposition.
    pub fn scale(&self) -> (r: [u32; 3])
        ensures
            r@ == seq![self.scale_x, self.scale_y, self.scale_z],
    {
        [self.scale_x, self.scale_y, self.scale_z]
    }

    /// Returns the skew part of the decomposition.
    pub fn skew(&self) -> (r: [u32; 3])
        ensures
            r@ == seq![self.skew_xy, self.skew_xz, self.skew_yz],
    {
        [self.skew_xy, self.skew_xz, self.skew_yz]
    }

    /// Returns the shift part of the decomposition.
    pub fn shift(&self) -> (r: [u32; 3])
        ensures
            r@ == seq![self.shift_x, self.shift_y, self.shift_z],
    {
        [self.shift_x, self.shift_y, self.shift_z]
    }

    /// Returns the rotation quaternion `[r, i, j, k]` of the decomposition.
    pub fn quaternion(&self) -> (r: [u32; 4])
        ensures
            r@ == seq![self.quaternion_r, self.quaternion_i, self.quaternion_j, self.quaternion_k],
    {
        [self.quaternion_r, self.quaternion_i, self.quaternion_j, self.quaternion_k]
    }

    /// Sets the rotation quaternion `[r, i, j, k]` of the decomposition.
    pub fn set_quaternion(&mut self, quaternion: [u32; 4])
        ensures
            *final(self) == (QuaternionDecomposition {
                quaternion_r: quaternion@[0],
                quaternion_i: quaternion@[1],
                quaternion_j: quaternion@[2],
                quaternion_k: quaternion@[3],
                ..*old(self)
            }),
    {
        self.quaternion_r = quaternion[0];
        self.quaternion_i = quaternion[1];
        self.quaternion_j = quaternion[2];
        self.quaternion_k = quaternion[3];
    }

    /// Sets the scaling part of the decomposition.
    pub fn set_scale(&mut self, scale: [u32; 3])
        ensures
            *final(self) == (QuaternionDecomposition {
                scale_x: scale@[0],
                scale_y: scale@[1],
                scale_z: scale@[2],
                ..*old(self)
            }),
    {
        self.scale_x = scale[0];
        self.scale_y = scale[1];
        self.scale_z = scale[2];
    }

    /// Sets the skew part of the decomposition.
    pub fn set_skew(&mut self, skew: [u32; 3])
        ensures
            *final(self) == (QuaternionDecomposition {
                skew_xy: skew@[0],
                skew_xz: skew@[1],
                skew_yz: skew@[2],
                ..*old(self)
            }),
    {
        self.skew_xy = skew[0];
        self.skew_xz = skew[1];
        self.skew_yz = skew[2];
    }

    /// Sets the shift part of the decomposition.
    pub fn set_shift(&mut self, shift: [u32; 3])
        ensures
            *final(self) == (QuaternionDecomposition {
                shift_x: shift@[0],
                shift_y: shift@[1],
                shift_z: shift@[2],
                ..*old(self)
            }),
    {
        self.shift_x = shift[0];
        self.shift_y = shift[1];
        self.shift_z = shift[2];
    }

    /// Sets the translation part of the decomposition.
    pub fn set_translation(&mut self, translation: [u32; 3])
        ensures
            *final(self) == (QuaternionDecomposition {
                translation_x: translation@[0],
                translation_y: translation@[1],
                translation_z: translation@[2],
                ..*old(self)
            }),
    {
        self.translation_x = translation[0];
        self.translation_y = translation[1];
        self.translation_z = translation[2];
    }
}

impl Default for QuaternionDecomposition {
    /// The identity transformation.
    fn default() -> (r: Self)
        ensures
            r == identity_decomposition(),
    {
        QuaternionDecomposition::identity()
    }
}

/// An axis-aligned bounding box.
#[derive(Clone, Copy, Debug, PartialEq, Eq, Structural)]
pub struct Bounds {
    /// Lower x bound.
    pub lower_x: u32,
    /// Lower y bound.
    pub lower_y: u32,
    /// Lower z bound.
    pub lower_z: u32,
    /// Padding.
    pub align0: u32,
    /// Upper x bound.
    pub upper_x: u32,
    /// Upper y bound.
    pub upper_y: u32,
    /// Upper z bound.
    pub upper_z: u32,
    /// Padding.
    pub align1: u32,
}

impl Bounds {
    /// Returns the lower bounds of the bounding box.
    pub fn lower(&self) -> (r: [u32; 3])
        ensures
            r@ == seq![self.lower_x, self.lower_y, self.lower_z],
    {
        [self.lower_x, self.lower_y, self.lower_z]
    }

    /// Returns the upper bounds of the bounding box.
    pub fn upper(&self) -> (r: [u32; 3])
        ensures
            r@ == seq![self.upper_x, self.upper_y, self.upper_z],
    {
        [self.upper_x, self.upper_y, self.upper_z]
    }
}

impl Default for Bounds {
    /// All six bounds are positive infinity, the padding is zero.
    fn default() -> (r: Self)
        ensures
            r == (Bounds {
                lower_x: F32_INFINITY_BITS,
                lower_y: F32_INFINITY_BITS,
                lower_z: F32_INFINITY_BITS,
                align0: 0,
                upper_x: F32_INFINITY_BITS,
                upper_y: F32_INFINITY_BITS,
                upper_z: F32_INFINITY_BITS,
                align1: 0,
            }),
    {
        Bounds {
            lower_x: F32_INFINITY_BITS,
            lower_y: F32_INFINITY_BITS,
            lower_z: F32_INFINITY_BITS,
            align0: 0,
            upper_x: F32_INFINITY_BITS,
            upper_y: F32_INFINITY_BITS,
            upper_z: F32_INFINITY_BITS,
            align1: 0,
        }
    }
}

/// The identity decomposition leaves every point where it is: its scale is
/// one (`1.0f32`, bits `0x3f80_0000`) on every axis, it has no skew, shift or
/// translation, and its rotation is the unit quaternion `1 + 0i + 0j + 0k`.
pub proof fn lemma_identity_decomposition_is_identity()
    ensures
        identity_decomposition().scale_x == 0x3f80_0000u32,
        identity_decomposition().scale_y == 0x3f80_0000u32,
        identity_decomposition().scale_z == 0x3f80_0000u32,
        identity_decomposition().skew_xy == 0u32,
        identity_decomposition().skew_xz == 0u32,
        identity_decomposition().skew_yz == 0u32,
        identity_decomposition().shift_x == 0u32,
        identity_decomposition().shift_y == 0u32,
        identity_decomposition().shift_z == 0u32,
        identity_decomposition().quaternion_r == 0x3f80_0000u32,
        identity_decomposition().quaternion_i == 0u32,
        identity_decomposition().quaternion_j == 0u32,
        identity_decomposition().quaternion_k == 0u32,
        identity_decomposition().translation_x == 0u32,
        identity_decomposition().translation_y == 0u32,
        identity_decomposition().translation_z == 0u32,
{
}

} // verus!

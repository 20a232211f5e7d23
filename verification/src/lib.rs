//! Verified core of the Embree ray-tracing bindings: ray and hit layouts in
//! structure-of-arrays form, buffer and range arithmetic, geometry and scene
//! bookkeeping, geometry layouts and device configuration.
//!
//! Floating-point members of rays, hits and transformations are carried as
//! their IEEE-754 bit patterns (`f32::to_bits`).

pub mod align;
pub mod aligned;
pub mod buffer;
pub mod bvh;
pub mod config_laws;
pub mod context;
pub mod device;
pub mod error;
pub mod geometry;
pub mod interpolate;
pub mod packet;
pub mod packet_traits;
pub mod plan;
pub mod range;
pub mod ray;
pub mod rayn;
pub mod scene;
pub mod soa;
pub mod soa_iter;
pub mod stream;
pub mod transform;

pub use aligned::{aligned_layout, filled_vector};
pub use buffer::{Buffer, BufferSlice, BufferView, BufferViewMut};
pub use bvh::{BuildFlags, BuildPrimitive, BuildQuality, BvhBuilder};
pub use context::{IntersectContext, IntersectContextFlags};
pub use device::{Config, FrequencyLevel, Isa};
pub use error::Error;
pub use geometry::{BufferUsage, Format, Geometry, GeometryKind};
pub use interpolate::InterpolateOutput;
pub use packet::{Hit16, Hit4, Hit8, Ray16, Ray4, Ray8, RayHit16, RayHit4, RayHit8};
pub use packet_traits::{HitPacket, LeafNode, Node, RayHitPacket, RayPacket, Sealed, UserGeometryData, UserPointQueryData};
pub use range::{Bound, RangeSpec};
pub use ray::{Hit, Ray, RayHit};
pub use rayn::{HitN, RayHitN, RayN};
pub use scene::Scene;
pub use soa::{SoAHit, SoARay, INVALID_ID};
pub use soa_iter::{SoAHitIter, SoAHitIterMut, SoAHitRef, SoAHitRefMut, SoARayIter, SoARayIterMut, SoARayRef, SoARayRefMut};
pub use stream::{HitNp, RayHitNp, RayNp};
pub use transform::{Bounds, QuaternionDecomposition};

//! Layouts of the predefined curve and mesh geometries: the geometry kind to
//! create and the buffers to create and bind, in order.

use vstd::prelude::*;
use crate::geometry::{
    BufferUsage, Format, GeometryKind, FORMAT_FLOAT3, FORMAT_FLOAT4, FORMAT_UCHAR, FORMAT_UINT,
    FORMAT_UINT3, FORMAT_UINT4,
};

verus! {

/// Shape of the curves of a curve geometry.
#[derive(Clone, Copy, Debug, PartialEq, Eq, Structural)]
pub enum CurveType {
    /// Ray-facing flat ribbons.
    Flat,
    /// Round curves with a circular cross section.
    Round,
    /// Ribbons oriented by per-vertex normals.
    NormalOriented,
    /// Cones between consecutive control points (linear curves only).
    Cone,
}

/// One buffer of a geometry layout: `count` items of `format`, `stride`
/// bytes apart, bound as `usage` at slot 0.
#[derive(Clone, Copy, Debug, PartialEq, Eq, Structural)]
pub struct BufferBinding {
    /// Usage the buffer is bound as.
    pub usage: BufferUsage,
    /// Slot the buffer is bound to.
    pub slot: u32,
    /// Format of the items.
    pub format: Format,
    /// Distance in bytes between two items.
    pub stride: usize,
    /// Number of items.
    pub count: usize,
}

/// A geometry layout: the kind to create and the buffers to bind, in order.
pub struct GeometryPlan {
    /// Kind of the geometry.
    pub kind: GeometryKind,
    /// Buffers to create and bind, in order.
    pub buffers: Vec<BufferBinding>,
}

/// The binding of `count` items of `format`, `stride` bytes apart, as `usage` at slot 0.
pub open spec fn binding_at0(usage: BufferUsage, format: u32, stride: usize, count: usize) -> BufferBinding {
    BufferBinding { usage, slot: 0, format: Format { code: format }, stride, count }
}

fn bind0(usage: BufferUsage, format: u32, stride: usize, count: usize) -> (r: BufferBinding)
    ensures
        r == binding_at0(usage, format, stride, count),
{
    BufferBinding { usage, slot: 0, format: Format { code: format }, stride, count }
}

/// Kind of a linear curve geometry of the given curve type.
pub open spec fn linear_curve_kind(t: CurveType) -> GeometryKind {
    match t {
        CurveType::Cone => GeometryKind::ConeLinearCurve,
        CurveType::Round => GeometryKind::RoundLinearCurve,
        _ => GeometryKind::FlatLinearCurve,
    }
}

/// Buffers of a linear curve geometry: vertices, segment indices, per-vertex
/// flags and, when asked for, normals.
pub open spec fn linear_curve_buffers(num_segments: usize, num_verts: usize, use_normals: bool) -> Seq<BufferBinding> {
    let base = seq![
        binding_at0(BufferUsage::Vertex, FORMAT_FLOAT4, 16, num_verts),
        binding_at0(BufferUsage::Index, FORMAT_UINT, 4, num_segments),
        binding_at0(BufferUsage::Flags, FORMAT_UCHAR, 1, num_segments),
    ];
    if use_normals {
        base.push(binding_at0(BufferUsage::Normal, FORMAT_FLOAT3, 12, num_verts))
    } else {
        base
    }
}

/// Kind of a Catmull-Rom curve geometry of the given curve type.
pub open spec fn catmull_rom_curve_kind(t: CurveType) -> GeometryKind {
    match t {
        CurveType::NormalOriented => GeometryKind::NormalOrientedCatmullRomCurve,
        CurveType::Round => GeometryKind::RoundCatmullRomCurve,
        _ => GeometryKind::FlatCatmullRomCurve,
    }
}

/// Buffers of a Catmull-Rom curve geometry: vertices, segment indices and,
/// when asked for, normals.
pub open spec fn catmull_rom_curve_buffers(num_segments: usize, num_verts: usize, use_normals: bool) -> Seq<BufferBinding> {
    let base = seq![
        binding_at0(BufferUsage::Vertex, FORMAT_FLOAT4, 16, num_verts),
        binding_at0(BufferUsage::Index, FORMAT_UINT, 4, num_segments),
    ];
    if use_normals {
        base.push(binding_at0(BufferUsage::Normal, FORMAT_FLOAT3, 12, num_verts))
    } else {
        base
    }
}

/// Kind of a Hermite curve geometry of the given curve type.
pub open spec fn hermite_curve_kind(t: CurveType) -> GeometryKind {
    match t {
        CurveType::NormalOriented => GeometryKind::NormalOrientedHermiteCurve,
        CurveType::Round => GeometryKind::RoundHermiteCurve,
        _ => GeometryKind::FlatHermiteCurve,
    }
}

/// Buffers of a Hermite curve geometry: vertices, segment indices, tangents
/// and, when asked for, normals and normal derivatives.
pub open spec fn hermite_curve_buffers(num_segments: usize, num_verts: usize, use_normals: bool) -> Seq<BufferBinding> {
    let base = seq![
        binding_at0(BufferUsage::Vertex, FORMAT_FLOAT4, 16, num_verts),
        binding_at0(BufferUsage::Index, FORMAT_UINT, 4, num_segments),
        binding_at0(BufferUsage::Tangent, FORMAT_FLOAT4, 16, num_verts),
    ];
    if use_normals {
        base.push(binding_at0(BufferUsage::Normal, FORMAT_FLOAT3, 12, num_verts)).push(
            binding_at0(BufferUsage::NormalDerivative, FORMAT_FLOAT3, 12, num_verts),
        )
    } else {
        base
    }
}

/// Kind of a B-spline curve geometry selected by a numeric curve type: 1 for
/// normal-oriented, 2 for round, anything else for flat.
pub open spec fn bspline_curve_kind(curve_type: usize) -> GeometryKind {
    if curve_type == 1 {
        GeometryKind::NormalOrientedBsplineCurve
    } else if curve_type == 2 {
        GeometryKind::RoundBsplineCurve
    } else {
        GeometryKind::FlatBsplineCurve
    }
}

/// Linear curve geometries.
pub struct LinearCurve;

impl LinearCurve {
    /// Layout of flat linear curves.
    pub fn flat(num_segments: usize, num_verts: usize, use_normals: bool) -> (r: GeometryPlan)
        ensures
            r.kind == GeometryKind::FlatLinearCurve,
            r.buffers@ == linear_curve_buffers(num_segments, num_verts, use_normals),
    {
        LinearCurve::unanimated(num_segments, num_verts, CurveType::Flat, use_normals)
    }

    /// Layout of round linear curves.
    pub fn round(num_segments: usize, num_verts: usize, use_normals: bool) -> (r: GeometryPlan)
        ensures
            r.kind == GeometryKind::RoundLinearCurve,
            r.buffers@ == linear_curve_buffers(num_segments, num_verts, use_normals),
    {
        LinearCurve::unanimated(num_segments, num_verts, CurveType::Round, use_normals)
    }

    /// Layout of cone linear curves.
    pub fn cone(num_segments: usize, num_verts: usize, use_normals: bool) -> (r: GeometryPlan)
        ensures
            r.kind == GeometryKind::ConeLinearCurve,
            r.buffers@ == linear_curve_buffers(num_segments, num_verts, use_normals),
    {
        LinearCurve::unanimated(num_segments, num_verts, CurveType::Cone, use_normals)
    }

    /// Layout of linear curves of the given type.
    pub fn unanimated(num_segments: usize, num_verts: usize, curve_type: CurveType, use_normals: bool) -> (r: GeometryPlan)
        ensures
            r.kind == linear_curve_kind(curve_type),
            r.buffers@ == linear_curve_buffers(num_segments, num_verts, use_normals),
    {
        let kind = match curve_type {
            CurveType::Cone => GeometryKind::ConeLinearCurve,
            CurveType::Round => GeometryKind::RoundLinearCurve,
            _ => GeometryKind::FlatLinearCurve,
        };
        let mut buffers: Vec<BufferBinding> = Vec::new();
        buffers.push(bind0(BufferUsage::Vertex, FORMAT_FLOAT4, 16, num_verts));
        buffers.push(bind0(BufferUsage::Index, FORMAT_UINT, 4, num_segments));
        buffers.push(bind0(BufferUsage::Flags, FORMAT_UCHAR, 1, num_segments));
        if use_normals {
            buffers.push(bind0(BufferUsage::Normal, FORMAT_FLOAT3, 12, num_verts));
        }
        GeometryPlan { kind, buffers }
    }
}

/// Catmull-Rom curve geometries.
pub struct CatmullRomCurve;

impl CatmullRomCurve {
    /// Layout of flat Catmull-Rom curves.
    pub fn flat(num_segments: usize, num_verts: usize, use_normals: bool) -> (r: GeometryPlan)
        ensures
            r.kind == GeometryKind::FlatCatmullRomCurve,
            r.buffers@ == catmull_rom_curve_buffers(num_segments, num_verts, use_normals),
    {
        CatmullRomCurve::unanimated(num_segments, num_verts, CurveType::Flat, use_normals)
    }

    /// Layout of round Catmull-Rom curves.
    pub fn round(num_segments: usize, num_verts: usize, use_normals: bool) -> (r: GeometryPlan)
        ensures
            r.kind == GeometryKind::RoundCatmullRomCurve,
            r.buffers@ == catmull_rom_curve_buffers(num_segments, num_verts, use_normals),
    {
        CatmullRomCurve::unanimated(num_segments, num_verts, CurveType::Round, use_normals)
    }

    /// Layout of normal-oriented Catmull-Rom curves, which always have normals.
    pub fn normal_oriented(num_segments: usize, num_verts: usize) -> (r: GeometryPlan)
        ensures
            r.kind == GeometryKind::NormalOrientedCatmullRomCurve,
            r.buffers@ == catmull_rom_curve_buffers(num_segments, num_verts, true),
    {
        CatmullRomCurve::unanimated(num_segments, num_verts, CurveType::NormalOriented, true)
    }

    /// Layout of Catmull-Rom curves of the given type.
    pub fn unanimated(num_segments: usize, num_verts: usize, curve_type: CurveType, use_normals: bool) -> (r: GeometryPlan)
        ensures
            r.kind == catmull_rom_curve_kind(curve_type),
            r.buffers@ == catmull_rom_curve_buffers(num_segments, num_verts, use_normals),
    {
        let kind = match curve_type {
            CurveType::NormalOriented => GeometryKind::NormalOrientedCatmullRomCurve,
            CurveType::Round => GeometryKind::RoundCatmullRomCurve,
            _ => GeometryKind::FlatCatmullRomCurve,
        };
        let mut buffers: Vec<BufferBinding> = Vec::new();
        buffers.push(bind0(BufferUsage::Vertex, FORMAT_FLOAT4, 16, num_verts));
        buffers.push(bind0(BufferUsage::Index, FORMAT_UINT, 4, num_segments));
        if use_normals {
            buffers.push(bind0(BufferUsage::Normal, FORMAT_FLOAT3, 12, num_verts));
        }
        GeometryPlan { kind, buffers }
    }
}

/// Hermite curve geometries.
pub struct HermiteCurve;

impl HermiteCurve {
    /// Layout of flat Hermite curves.
    pub fn flat(num_segments: usize, num_verts: usize, use_normals: bool) -> (r: GeometryPlan)
        ensures
            r.kind == GeometryKind::FlatHermiteCurve,
            r.buffers@ == hermite_curve_buffers(num_segments, num_verts, use_normals),
    {
        HermiteCurve::unanimated(num_segments, num_verts, CurveType::Flat, use_normals)
    }

    /// Layout of round Hermite curves.
    pub fn round(num_segments: usize, num_verts: usize, use_normals: bool) -> (r: GeometryPlan)
        ensures
            r.kind == GeometryKind::RoundHermiteCurve,
            r.buffers@ == hermite_curve_buffers(num_segments, num_verts, use_normals),
    {
        HermiteCurve::unanimated(num_segments, num_verts, CurveType::Round, use_normals)
    }

    /// Layout of normal-oriented Hermite curves, which always have normals.
    pub fn normal_oriented(num_segments: usize, num_verts: usize) -> (r: GeometryPlan)
        ensures
            r.kind == GeometryKind::NormalOrientedHermiteCurve,
            r.buffers@ == hermite_curve_buffers(num_segments, num_verts, true),
    {
        HermiteCurve::unanimated(num_segments, num_verts, CurveType::NormalOriented, true)
    }

    /// Layout of Hermite curves of the given type.
    pub fn unanimated(num_segments: usize, num_verts: usize, curve_type: CurveType, use_normals: bool) -> (r: GeometryPlan)
        ensures
            r.kind == hermite_curve_kind(curve_type),
            r.buffers@ == hermite_curve_buffers(num_segments, num_verts, use_normals),
    {
        let kind = match curve_type {
            CurveType::NormalOriented => GeometryKind::NormalOrientedHermiteCurve,
            CurveType::Round => GeometryKind::RoundHermiteCurve,
            _ => GeometryKind::FlatHermiteCurve,
        };
        let mut buffers: Vec<BufferBinding> = Vec::new();
        buffers.push(bind0(BufferUsage::Vertex, FORMAT_FLOAT4, 16, num_verts));
        buffers.push(bind0(BufferUsage::Index, FORMAT_UINT, 4, num_segments));
        buffers.push(bind0(BufferUsage::Tangent, FORMAT_FLOAT4, 16, num_verts));
        if use_normals {
            buffers.push(bind0(BufferUsage::Normal, FORMAT_FLOAT3, 12, num_verts));
            buffers.push(bind0(BufferUsage::NormalDerivative, FORMAT_FLOAT3, 12, num_verts));
        }
        GeometryPlan { kind, buffers }
    }
}

/// B-spline curve geometries.
pub struct BsplineCurve;

impl BsplineCurve {
    /// Layout of B-spline curves of the numeric curve type (1: normal-oriented,
    /// 2: round, otherwise flat): vertices, segment indices and normals.
    pub fn unanimated(num_segments: usize, num_verts: usize, curve_type: usize) -> (r: GeometryPlan)
        ensures
            r.kind == bspline_curve_kind(curve_type),
            r.buffers@ == seq![
                binding_at0(BufferUsage::Vertex, FORMAT_FLOAT4, 16, num_verts),
                binding_at0(BufferUsage::Index, FORMAT_UINT, 4, num_segments),
                binding_at0(BufferUsage::Normal, FORMAT_FLOAT3, 12, num_verts),
            ],
    {
        let kind = if curve_type == 1 {
            GeometryKind::NormalOrientedBsplineCurve
        } else if curve_type == 2 {
            GeometryKind::RoundBsplineCurve
        } else {
            GeometryKind::FlatBsplineCurve
        };
        let mut buffers: Vec<BufferBinding> = Vec::new();
        buffers.push(bind0(BufferUsage::Vertex, FORMAT_FLOAT4, 16, num_verts));
        buffers.push(bind0(BufferUsage::Index, FORMAT_UINT, 4, num_segments));
        buffers.push(bind0(BufferUsage::Normal, FORMAT_FLOAT3, 12, num_verts));
        GeometryPlan { kind, buffers }
    }
}

/// Flat linear curve geometries with vertices and segment indices only.
pub struct FlatLinearCurve;

impl FlatLinearCurve {
    /// Layout of flat linear curves: vertices and segment indices.
    pub fn unanimated(num_segments: usize, num_verts: usize) -> (r: GeometryPlan)
        ensures
            r.kind == GeometryKind::FlatLinearCurve,
            r.buffers@ == seq![
                binding_at0(BufferUsage::Vertex, FORMAT_FLOAT4, 16, num_verts),
                binding_at0(BufferUsage::Index, FORMAT_UINT, 4, num_segments),
            ],
    {
        let mut buffers: Vec<BufferBinding> = Vec::new();
        buffers.push(bind0(BufferUsage::Vertex, FORMAT_FLOAT4, 16, num_verts));
        buffers.push(bind0(BufferUsage::Index, FORMAT_UINT, 4, num_segments));
        GeometryPlan { kind: GeometryKind::FlatLinearCurve, buffers }
    }
}

/// Triangle mesh geometries.
pub struct TriangleMesh;

impl TriangleMesh {
    /// Layout of a triangle mesh: vertices of three floats 16 bytes apart and
    /// triangles of three indices 12 bytes apart.
    pub fn unanimated(num_tris: usize, num_verts: usize) -> (r: GeometryPlan)
        ensures
            r.kind == GeometryKind::Triangle,
            r.buffers@ == seq![
                binding_at0(BufferUsage::Vertex, FORMAT_FLOAT3, 16, num_verts),
                binding_at0(BufferUsage::Index, FORMAT_UINT3, 12, num_tris),
            ],
    {
        let mut buffers: Vec<BufferBinding> = Vec::new();
        buffers.push(bind0(BufferUsage::Vertex, FORMAT_FLOAT3, 16, num_verts));
        buffers.push(bind0(BufferUsage::Index, FORMAT_UINT3, 12, num_tris));
        GeometryPlan { kind: GeometryKind::Triangle, buffers }
    }
}

/// Quad mesh geometries.
pub struct QuadMesh;

impl QuadMesh {
    /// Layout of a quad mesh: vertices of three floats 16 bytes apart and
    /// quads of four indices 16 bytes apart.
    pub fn unanimated(num_quads: usize, num_verts: usize) -> (r: GeometryPlan)
        ensures
            r.kind == GeometryKind::Quad,
            r.buffers@ == seq![
                binding_at0(BufferUsage::Vertex, FORMAT_FLOAT3, 16, num_verts),
                binding_at0(BufferUsage::Index, FORMAT_UINT4, 16, num_quads),
            ],
    {
        let mut buffers: Vec<BufferBinding> = Vec::new();
        buffers.push(bind0(BufferUsage::Vertex, FORMAT_FLOAT3, 16, num_verts));
        buffers.push(bind0(BufferUsage::Index, FORMAT_UINT4, 16, num_quads));
        GeometryPlan { kind: GeometryKind::Quad, buffers }
    }
}

/// A curve buffer holds one item per primitive (segment) when it is an index
/// or flags buffer, and one item per control vertex otherwise.
pub open spec fn counts_follow_usage(b: Seq<BufferBinding>, num_segments: usize, num_verts: usize) -> bool {
    forall|k: int| 0 <= k < b.len() ==> {
        &&& (#[trigger] b[k]).slot == 0
        &&& b[k].count == if b[k].usage == BufferUsage::Index || b[k].usage == BufferUsage::Flags {
            num_segments
        } else {
            num_verts
        }
    }
}

/// Hermite curves bind, at slot 0: vertices (four floats, 16 bytes apart),
/// segment indices (one `u32` each), one tangent (four floats) per vertex and,
/// with normals, one normal and one normal derivative (three floats, 12 bytes
/// apart) per vertex. Tangents are as many as vertices.
pub proof fn lemma_hermite_curve_layout(num_segments: usize, num_verts: usize, use_normals: bool)
    ensures
        ({
            let b = hermite_curve_buffers(num_segments, num_verts, use_normals);
            &&& b.len() == if use_normals { 5int } else { 3int }
            &&& b[0].usage == BufferUsage::Vertex && b[0].format.code == 0x9004u32 && b[0].stride == 16
            &&& b[1].usage == BufferUsage::Index && b[1].format.code == 0x5001u32 && b[1].stride == 4
            &&& b[2].usage == BufferUsage::Tangent && b[2].format.code == 0x9004u32 && b[2].stride == 16
            &&& b[2].count == b[0].count
            &&& use_normals ==> b[3].usage == BufferUsage::Normal && b[3].format.code == 0x9003u32
                && b[3].stride == 12
            &&& use_normals ==> b[4].usage == BufferUsage::NormalDerivative && b[4].format.code == 0x9003u32
                && b[4].stride == 12
            &&& counts_follow_usage(b, num_segments, num_verts)
        }),
{
}

/// Linear curves bind, at slot 0: vertices (four floats, 16 bytes apart),
/// segment indices (one `u32` each), one flag byte per segment and, with
/// normals, one normal (three floats, 12 bytes apart) per vertex.
pub proof fn lemma_linear_curve_layout(num_segments: usize, num_verts: usize, use_normals: bool)
    ensures
        ({
            let b = linear_curve_buffers(num_segments, num_verts, use_normals);
            &&& b.len() == if use_normals { 4int } else { 3int }
            &&& b[0].usage == BufferUsage::Vertex && b[0].format.code == 0x9004u32 && b[0].stride == 16
            &&& b[1].usage == BufferUsage::Index && b[1].format.code == 0x5001u32 && b[1].stride == 4
            &&& b[2].usage == BufferUsage::Flags && b[2].format.code == 0x1001u32 && b[2].stride == 1
            &&& b[2].count == b[1].count
            &&& use_normals ==> b[3].usage == BufferUsage::Normal && b[3].format.code == 0x9003u32
                && b[3].stride == 12
            &&& counts_follow_usage(b, num_segments, num_verts)
        }),
{
}

/// Catmull-Rom curves bind, at slot 0: vertices (four floats, 16 bytes
/// apart), segment indices (one `u32` each) and, with normals, one normal
/// (three floats, 12 bytes apart) per vertex.
pub proof fn lemma_catmull_rom_curve_layout(num_segments: usize, num_verts: usize, use_normals: bool)
    ensures
        ({
            let b = catmull_rom_curve_buffers(num_segments, num_verts, use_normals);
            &&& b.len() == if use_normals { 3int } else { 2int }
            &&& b[0].usage == BufferUsage::Vertex && b[0].format.code == 0x9004u32 && b[0].stride == 16
            &&& b[1].usage == BufferUsage::Index && b[1].format.code == 0x5001u32 && b[1].stride == 4
            &&& use_normals ==> b[2].usage == BufferUsage::Normal && b[2].format.code == 0x9003u32
                && b[2].stride == 12
            &&& counts_follow_usage(b, num_segments, num_verts)
        }),
{
}

} // verus!

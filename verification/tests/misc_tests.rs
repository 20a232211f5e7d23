use embree::align::{align_up_16, aligned_field_size};
use embree::bvh::{BuildFlags, BuildPrimitive, BuildQuality, BvhBuilder};
use embree::geometry::{BufferUsage, GeometryKind, FORMAT_FLOAT3, FORMAT_FLOAT4, FORMAT_UCHAR, FORMAT_UINT, FORMAT_UINT4};
use embree::interpolate::{interpolate_n_count_valid, InterpolateAttr, InterpolateOutput};
use embree::plan::{BsplineCurve, CatmullRomCurve, FlatLinearCurve, HermiteCurve, LinearCurve, QuadMesh, TriangleMesh};
use embree::rayn::{HitN, RayHitN, RayN};
use embree::soa::{SoAHit, SoARay};

#[test]
fn alignment_arithmetic() {
    assert_eq!(align_up_16(0), 0);
    assert_eq!(align_up_16(1), 16);
    assert_eq!(align_up_16(16), 16);
    assert_eq!(align_up_16(33), 48);
    assert_eq!(aligned_field_size(11), 48);
    assert_eq!(aligned_field_size(17), 80);
    assert_eq!(aligned_field_size(4), 16);
}

#[test]
fn bvh_builder_records_settings() {
    let b = BvhBuilder::new();
    assert_eq!(b.ready, 0);
    let b = b.quality(BuildQuality::High).max_depth(24).traversal_cost(1.0f32.to_bits());
    assert_eq!(b.ready, 1 | 8 | 128);
    assert_eq!(b.quality, Some(BuildQuality::High));
    assert_eq!(b.max_depth, Some(24));
    let prim = BuildPrimitive { lower_x: 0, lower_y: 0, lower_z: 0, geom_id: 1, upper_x: 0, upper_y: 0, upper_z: 0, prim_id: 2 };
    let b = b
        .flags(BuildFlags { bits: 1 })
        .max_branching_factor(2)
        .sah_block_size(4)
        .min_leaf_size(1)
        .max_leaf_size(8)
        .intersection_cost(1)
        .primitives(vec![prim]);
    assert_eq!(b.ready, 1023);
    assert_eq!(b.primitives.as_ref().map(|p| p.len()), Some(1));
}

#[test]
fn interpolation_output_layout() {
    let out = InterpolateOutput::new(3, true, true, false);
    assert_eq!(out.value_count(), 3);
    assert_eq!(out.p().map(|s| s.len()), Some(3));
    assert_eq!(out.dp_du().map(|s| s.len()), Some(3));
    assert!(out.ddp_du_du().is_none());
    let mut out = InterpolateOutput::new(2, false, true, true);
    assert!(out.p().is_none());
    out.set_value(InterpolateAttr::DpDv, 1, 7);
    out.set_value(InterpolateAttr::DdpDuDv, 0, 9);
    assert_eq!(out.dp_du(), Some(&[0u32, 0][..]));
    assert_eq!(out.dp_dv(), Some(&[0u32, 7][..]));
    assert_eq!(out.ddp_du_dv(), Some(&[9u32, 0][..]));
    assert_eq!(out.ddp_dv_dv(), Some(&[0u32, 0][..]));
    assert!(interpolate_n_count_valid(8));
    assert!(!interpolate_n_count_valid(6));
}

#[test]
fn curve_and_mesh_layouts() {
    let p = LinearCurve::cone(3, 4, true);
    assert_eq!(p.kind, GeometryKind::ConeLinearCurve);
    let usages: Vec<BufferUsage> = p.buffers.iter().map(|b| b.usage).collect();
    assert_eq!(usages, vec![BufferUsage::Vertex, BufferUsage::Index, BufferUsage::Flags, BufferUsage::Normal]);
    assert_eq!((p.buffers[1].format.code, p.buffers[1].stride, p.buffers[1].count), (FORMAT_UINT, 4, 3));
    assert_eq!((p.buffers[2].format.code, p.buffers[2].stride, p.buffers[2].count), (FORMAT_UCHAR, 1, 3));
    assert_eq!(LinearCurve::flat(1, 2, false).buffers.len(), 3);
    assert_eq!(LinearCurve::round(1, 2, false).kind, GeometryKind::RoundLinearCurve);
    let c = CatmullRomCurve::normal_oriented(5, 8);
    assert_eq!(c.kind, GeometryKind::NormalOrientedCatmullRomCurve);
    assert_eq!(c.buffers.len(), 3);
    assert_eq!(CatmullRomCurve::flat(5, 8, false).buffers.len(), 2);
    assert_eq!(CatmullRomCurve::round(5, 8, false).kind, GeometryKind::RoundCatmullRomCurve);
    let h = HermiteCurve::round(2, 3, true);
    assert_eq!(h.kind, GeometryKind::RoundHermiteCurve);
    assert_eq!(h.buffers.len(), 5);
    assert_eq!(h.buffers[2].usage, BufferUsage::Tangent);
    assert_eq!(h.buffers[4].usage, BufferUsage::NormalDerivative);
    assert_eq!(HermiteCurve::flat(2, 3, false).buffers.len(), 3);
    assert_eq!(HermiteCurve::normal_oriented(2, 3).kind, GeometryKind::NormalOrientedHermiteCurve);
    assert_eq!(BsplineCurve::unanimated(2, 3, 1).kind, GeometryKind::NormalOrientedBsplineCurve);
    assert_eq!(BsplineCurve::unanimated(2, 3, 2).kind, GeometryKind::RoundBsplineCurve);
    assert_eq!(BsplineCurve::unanimated(2, 3, 9).kind, GeometryKind::FlatBsplineCurve);
    let f = FlatLinearCurve::unanimated(6, 7);
    assert_eq!((f.buffers[0].format.code, f.buffers[0].count), (FORMAT_FLOAT4, 7));
    let t = TriangleMesh::unanimated(2, 4);
    assert_eq!(t.kind, GeometryKind::Triangle);
    assert_eq!((t.buffers[0].format.code, t.buffers[0].stride, t.buffers[0].count), (FORMAT_FLOAT3, 16, 4));
    assert_eq!((t.buffers[1].stride, t.buffers[1].count), (12, 2));
    let q = QuadMesh::unanimated(1, 4);
    assert_eq!(q.kind, GeometryKind::Quad);
    assert_eq!((q.buffers[1].format.code, q.buffers[1].stride), (FORMAT_UINT4, 16));
}

#[test]
fn runtime_packet_views() {
    let mut words = vec![0u32; 20 * 4];
    {
        let mut rh = RayHitN::new(&mut words, 4);
        {
            let mut rays = rh.ray_n();
            assert_eq!(rays.len(), 4);
            rays.set_org_y(2, 5);
            rays.set_tfar(1, 6);
            rays.set_dir_z(3, 8);
            assert_eq!(rays.org_y(2), 5);
            assert_eq!(rays.org(2), [0, 5, 0]);
            assert_eq!(rays.dir_z(3), 8);
        }
        {
            let mut hits = rh.hit_n();
            hits.set_geom_id(0, 3);
            assert_eq!(hits.geom_id(0), 3);
            assert_eq!(hits.ng_x(0), 0);
        }
    }
    assert_eq!(words[4 + 2], 5);
    assert_eq!(words[8 * 4 + 1], 6);
    assert_eq!(words[6 * 4 + 3], 8);
    assert_eq!(words[12 * 4 + 6 * 4], 3);
    let mut hw = vec![1u32; 8];
    let h = HitN::new(&mut hw, 1);
    assert_eq!(h.len(), 1);
    assert_eq!(h.uv(0), [1, 1]);
    let mut rw = vec![0u32; 12];
    let mut r = RayN::new(&mut rw, 1);
    r.set_org_x(0, 9);
    r.set_dir_y(0, 4);
    r.set_org_z(0, 2);
    r.set_dir_x(0, 1);
    assert_eq!((r.org_x(0), r.org_z(0), r.dir_x(0), r.dir_y(0)), (9, 2, 1, 4));
}

#[test]
fn build_quality_codes() {
    assert_eq!(BuildQuality::Low.code(), 0);
    assert_eq!(BuildQuality::Medium.code(), 1);
    assert_eq!(BuildQuality::High.code(), 2);
    assert_eq!(BuildQuality::Refit.code(), 3);
}

use embree::buffer::{Buffer, BufferSlice};
use embree::error::Error;
use embree::geometry::{BufferUsage, Format, Geometry, GeometryKind, FORMAT_FLOAT3, FORMAT_UINT3};
use embree::range::RangeSpec;
use embree::scene::Scene;

#[test]
fn vertex_attributes_are_refused_for_grids_users_and_instances() {
    for kind in [GeometryKind::Grid, GeometryKind::User, GeometryKind::Instance] {
        assert_eq!(Geometry::new(kind).check_vertex_attribute(), Err(Error::InvalidOperation));
        assert!(!kind.allows_vertex_attributes());
    }
    for kind in [GeometryKind::Triangle, GeometryKind::Quad, GeometryKind::Subdivision, GeometryKind::RoundBezierCurve] {
        assert_eq!(Geometry::new(kind).check_vertex_attribute(), Ok(()));
    }
}

#[test]
fn set_buffer_binds_and_replaces() {
    let b1 = Buffer::new(64);
    let b2 = Buffer::new(128);
    let mut g = Geometry::new(GeometryKind::Triangle);
    assert!(g.get_buffer(BufferUsage::Vertex, 0).is_none());
    let s1 = b1.slice(RangeSpec::full());
    assert_eq!(g.set_buffer(BufferUsage::Vertex, 0, Format { code: FORMAT_FLOAT3 }, s1, 16, 4), Ok(()));
    assert_eq!(g.get_buffer(BufferUsage::Vertex, 0), Some(s1));
    let s2 = b2.slice(RangeSpec::from(16));
    assert_eq!(g.set_buffer(BufferUsage::Vertex, 0, Format { code: FORMAT_FLOAT3 }, s2, 16, 7), Ok(()));
    assert_eq!(g.get_buffer(BufferUsage::Vertex, 0), Some(s2));
    let user = BufferSlice::User { offset: 0, size: 36 };
    assert_eq!(g.set_buffer(BufferUsage::Index, 0, Format { code: FORMAT_UINT3 }, user, 12, 3), Ok(()));
    assert_eq!(g.get_buffer(BufferUsage::Index, 0), Some(user));
    assert_eq!(g.get_buffer(BufferUsage::Vertex, 0), Some(s2));
    assert!(g.get_buffer(BufferUsage::Vertex, 1).is_none());
}

#[test]
fn set_buffer_errors() {
    let b = Buffer::new(64);
    let mut grid = Geometry::new(GeometryKind::Grid);
    assert_eq!(
        grid.set_buffer(BufferUsage::VertexAttribute, 0, Format { code: FORMAT_FLOAT3 }, b.slice(RangeSpec::full()), 16, 4),
        Err(Error::InvalidOperation)
    );
    assert!(grid.get_buffer(BufferUsage::VertexAttribute, 0).is_none());
    assert_eq!(
        grid.set_buffer(BufferUsage::Vertex, 0, Format { code: FORMAT_FLOAT3 }, b.slice(RangeSpec::full()), 16, 4),
        Ok(())
    );
    assert!(grid.get_buffer(BufferUsage::Vertex, 0).is_some());
    let mut tri = Geometry::new(GeometryKind::Triangle);
    assert_eq!(
        tri.set_buffer(BufferUsage::Vertex, 0, Format { code: FORMAT_FLOAT3 }, BufferSlice::Internal { size: 64 }, 16, 4),
        Err(Error::InvalidArgument)
    );
    assert!(tri.get_buffer(BufferUsage::Vertex, 0).is_none());
}

#[test]
fn new_buffers_take_free_slots_only() {
    let mut g = Geometry::new(GeometryKind::Triangle);
    assert_eq!(g.check_new_buffer(BufferUsage::Vertex, 0), Ok(()));
    let s = g.set_new_buffer(BufferUsage::Vertex, 0, Format { code: FORMAT_FLOAT3 }, 16, 10);
    assert_eq!(s, Ok(BufferSlice::Internal { size: 160 }));
    assert_eq!(g.get_buffer(BufferUsage::Vertex, 0), Some(BufferSlice::Internal { size: 160 }));
    assert_eq!(g.check_new_buffer(BufferUsage::Vertex, 0), Err(Error::InvalidArgument));
    assert_eq!(g.set_new_buffer(BufferUsage::Vertex, 0, Format { code: FORMAT_FLOAT3 }, 16, 10), Err(Error::InvalidArgument));
    let mut inst = Geometry::new(GeometryKind::Instance);
    assert_eq!(
        inst.set_new_buffer(BufferUsage::VertexAttribute, 0, Format { code: FORMAT_FLOAT3 }, 16, 10),
        Err(Error::InvalidOperation)
    );
    assert_eq!(inst.set_new_buffer(BufferUsage::Index, 0, Format { code: FORMAT_UINT3 }, 12, 2), Ok(BufferSlice::Internal { size: 24 }));
}

#[test]
fn geometry_kind_predicates_and_codes() {
    assert!(GeometryKind::Subdivision.has_tessellation_rate());
    assert!(GeometryKind::FlatBezierCurve.has_tessellation_rate());
    assert!(GeometryKind::FlatLinearCurve.has_tessellation_rate());
    assert!(GeometryKind::FlatBsplineCurve.has_tessellation_rate());
    assert!(GeometryKind::FlatHermiteCurve.has_tessellation_rate());
    assert!(GeometryKind::FlatCatmullRomCurve.has_tessellation_rate());
    assert!(!GeometryKind::RoundBezierCurve.has_tessellation_rate());
    assert!(!GeometryKind::RoundLinearCurve.has_tessellation_rate());
    assert!(!GeometryKind::Triangle.has_tessellation_rate());
    assert!(GeometryKind::User.is_user());
    assert!(GeometryKind::Subdivision.is_subdivision());
    assert!(GeometryKind::Instance.is_instance());
    assert!(!GeometryKind::Quad.is_instance());
    assert_eq!(GeometryKind::Triangle.code(), 0);
    assert_eq!(GeometryKind::User.code(), 120);
    assert_eq!(GeometryKind::Instance.code(), 121);
    assert_eq!(BufferUsage::Vertex.code(), 1);
    assert_eq!(BufferUsage::Flags.code(), 32);
}

#[test]
fn scene_attach_get_detach() {
    let mut scene = Scene::new();
    assert_eq!(scene.attach_geometry(Geometry::new(GeometryKind::Triangle), 0), 0);
    scene.attach_geometry_by_id(Geometry::new(GeometryKind::Quad), 5);
    assert_eq!(scene.get_geometry_unchecked(0).map(|g| g.kind()), Some(GeometryKind::Triangle));
    assert_eq!(scene.get_geometry_unchecked(5).map(|g| g.kind()), Some(GeometryKind::Quad));
    assert!(scene.get_geometry_unchecked(1).is_none());
    scene.detach_geometry(0);
    assert!(scene.get_geometry_unchecked(0).is_none());
    assert_eq!(scene.get_geometry_unchecked(5).map(|g| g.kind()), Some(GeometryKind::Quad));
}

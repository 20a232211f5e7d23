//! Geometry kinds, buffer usages and formats, and the bookkeeping of the
//! buffers bound to a geometry.

use vstd::prelude::*;
use crate::buffer::BufferSlice;
use crate::error::Error;

verus! {

/// The type of a geometry.
#[derive(Clone, Copy, Debug, PartialEq, Eq, Structural)]
pub enum GeometryKind {
    /// Triangle mesh.
    Triangle,
    /// Quad mesh.
    Quad,
    /// Grid mesh.
    Grid,
    /// Subdivision mesh.
    Subdivision,
    /// Cone linear curves.
    ConeLinearCurve,
    /// Round linear curves.
    RoundLinearCurve,
    /// Flat linear curves.
    FlatLinearCurve,
    /// Round Bezier curves.
    RoundBezierCurve,
    /// Flat Bezier curves.
    FlatBezierCurve,
    /// Normal-oriented Bezier curves.
    NormalOrientedBezierCurve,
    /// Round B-spline curves.
    RoundBsplineCurve,
    /// Flat B-spline curves.
    FlatBsplineCurve,
    /// Normal-oriented B-spline curves.
    NormalOrientedBsplineCurve,
    /// Round Hermite curves.
    RoundHermiteCurve,
    /// Flat Hermite curves.
    FlatHermiteCurve,
    /// Normal-oriented Hermite curves.
    NormalOrientedHermiteCurve,
    /// Sphere points.
    SpherePoint,
    /// Disc points.
    DiscPoint,
    /// Oriented disc points.
    OrientedDiscPoint,
    /// Round Catmull-Rom curves.
    RoundCatmullRomCurve,
    /// Flat Catmull-Rom curves.
    FlatCatmullRomCurve,
    /// Normal-oriented Catmull-Rom curves.
    NormalOrientedCatmullRomCurve,
    /// User-defined geometry.
    User,
    /// Instance of a scene.
    Instance,
}

/// Geometries of these kinds take no vertex attributes.
pub open spec fn kind_forbids_vertex_attributes(k: GeometryKind) -> bool {
    k == GeometryKind::Grid || k == GeometryKind::User || k == GeometryKind::Instance
}

/// Geometries of these kinds have a tessellation rate: subdivision meshes and
/// flat curves.
pub open spec fn kind_has_tessellation_rate(k: GeometryKind) -> bool {
    ||| k == GeometryKind::Subdivision
    ||| k == GeometryKind::FlatLinearCurve
    ||| k == GeometryKind::FlatBezierCurve
    ||| k == GeometryKind::FlatBsplineCurve
    ||| k == GeometryKind::FlatHermiteCurve
    ||| k == GeometryKind::FlatCatmullRomCurve
}

/// Exactly three kinds of geometry refuse vertex attributes: grids, user
/// geometries and instances. Every other kind, points and curves included,
/// accepts them.
pub proof fn lemma_vertex_attribute_kinds(k: GeometryKind)
    ensures
        kind_forbids_vertex_attributes(k) <==> (k == GeometryKind::Grid || k == GeometryKind::User
            || k == GeometryKind::Instance),
        k != GeometryKind::Grid && k != GeometryKind::User && k != GeometryKind::Instance
            ==> !kind_forbids_vertex_attributes(k),
{
}

impl GeometryKind {
    /// Numeric code of the kind in the Embree API.
    pub fn code(&self) -> (r: u32)
        ensures
            r == geometry_kind_code(*self),
    {
        match self {
            GeometryKind::Triangle => 0,
            GeometryKind::Quad => 1,
            GeometryKind::Grid => 2,
            GeometryKind::Subdivision => 8,
            GeometryKind::ConeLinearCurve => 15,
            GeometryKind::RoundLinearCurve => 16,
            GeometryKind::FlatLinearCurve => 17,
            GeometryKind::RoundBezierCurve => 24,
            GeometryKind::FlatBezierCurve => 25,
            GeometryKind::NormalOrientedBezierCurve => 26,
            GeometryKind::RoundBsplineCurve => 32,
            GeometryKind::FlatBsplineCurve => 33,
            GeometryKind::NormalOrientedBsplineCurve => 34,
            GeometryKind::RoundHermiteCurve => 40,
            GeometryKind::FlatHermiteCurve => 41,
            GeometryKind::NormalOrientedHermiteCurve => 42,
            GeometryKind::SpherePoint => 50,
            GeometryKind::DiscPoint => 51,
            GeometryKind::OrientedDiscPoint => 52,
            GeometryKind::RoundCatmullRomCurve => 58,
            GeometryKind::FlatCatmullRomCurve => 59,
            GeometryKind::NormalOrientedCatmullRomCurve => 60,
            GeometryKind::User => 120,
            GeometryKind::Instance => 121,
        }
    }

    /// Whether geometries of this kind accept vertex attributes.
    pub fn allows_vertex_attributes(&self) -> (r: bool)
        ensures
            r == !kind_forbids_vertex_attributes(*self),
            r == !(*self == GeometryKind::Grid || *self == GeometryKind::User || *self == GeometryKind::Instance),
    {
        match self {
            GeometryKind::Grid | GeometryKind::User | GeometryKind::Instance => false,
            _ => true,
        }
    }

    /// Whether geometries of this kind have a tessellation rate: subdivision
    /// meshes and flat curves.
    pub fn has_tessellation_rate(&self) -> (r: bool)
        ensures
            r == kind_has_tessellation_rate(*self),
    {
        match self {
            GeometryKind::Subdivision
            | GeometryKind::FlatLinearCurve
            | GeometryKind::FlatBezierCurve
            | GeometryKind::FlatBsplineCurve
            | GeometryKind::FlatHermiteCurve
            | GeometryKind::FlatCatmullRomCurve => true,
            _ => false,
        }
    }

    /// Whether this is the kind of user-defined geometries, the only ones with
    /// bounds, intersect and occluded callbacks and a primitive count.
    pub fn is_user(&self) -> (r: bool)
        ensures
            r == (*self == GeometryKind::User),
    {
        match self {
            GeometryKind::User => true,
            _ => false,
        }
    }

    /// Whether this is the kind of subdivision meshes, the only ones with
    /// subdivision modes, topologies, half edges and displacement callbacks.
    pub fn is_subdivision(&self) -> (r: bool)
        ensures
            r == (*self == GeometryKind::Subdivision),
    {
        match self {
            GeometryKind::Subdivision => true,
            _ => false,
        }
    }

    /// Whether this is the kind of instances, the only ones with an instanced
    /// scene and transformations.
    pub fn is_instance(&self) -> (r: bool)
        ensures
            r == (*self == GeometryKind::Instance),
    {
        match self {
            GeometryKind::Instance => true,
            _ => false,
        }
    }
}

/// Numeric code of a geometry kind in the Embree API.
pub open spec fn geometry_kind_code(k: GeometryKind) -> u32 {
    match k {
        GeometryKind::Triangle => 0,
        GeometryKind::Quad => 1,
        GeometryKind::Grid => 2,
        GeometryKind::Subdivision => 8,
        GeometryKind::ConeLinearCurve => 15,
        GeometryKind::RoundLinearCurve => 16,
        GeometryKind::FlatLinearCurve => 17,
        GeometryKind::RoundBezierCurve => 24,
        GeometryKind::FlatBezierCurve => 25,
        GeometryKind::NormalOrientedBezierCurve => 26,
        GeometryKind::RoundBsplineCurve => 32,
        GeometryKind::FlatBsplineCurve => 33,
        GeometryKind::NormalOrientedBsplineCurve => 34,
        GeometryKind::RoundHermiteCurve => 40,
        GeometryKind::FlatHermiteCurve => 41,
        GeometryKind::NormalOrientedHermiteCurve => 42,
        GeometryKind::SpherePoint => 50,
        GeometryKind::DiscPoint => 51,
        GeometryKind::OrientedDiscPoint => 52,
        GeometryKind::RoundCatmullRomCurve => 58,
        GeometryKind::FlatCatmullRomCurve => 59,
        GeometryKind::NormalOrientedCatmullRomCurve => 60,
        GeometryKind::User => 120,
        GeometryKind::Instance => 121,
    }
}

/// The slot type a data buffer is bound to.
#[derive(Clone, Copy, Debug, PartialEq, Eq, Structural)]
pub enum BufferUsage {
    /// Index buffer.
    Index,
    /// Vertex buffer.
    Vertex,
    /// Additional per-vertex data to interpolate.
    VertexAttribute,
    /// Per-vertex normals of some curve types.
    Normal,
    /// Per-vertex tangents of some curve types.
    Tangent,
    /// Per-vertex normal derivatives of some curve types.
    NormalDerivative,
    /// Grid primitives of grid geometries.
    Grid,
    /// Faces of subdivision meshes.
    Face,
    /// Tessellation levels of subdivision meshes.
    Level,
    /// Edge crease indices of subdivision meshes.
    EdgeCreaseIndex,
    /// Edge crease weights of subdivision meshes.
    EdgeCreaseWeight,
    /// Vertex crease indices of subdivision meshes.
    VertexCreaseIndex,
    /// Vertex crease weights of subdivision meshes.
    VertexCreaseWeight,
    /// Holes of subdivision meshes.
    Hole,
    /// Per-primitive flags (linear curves).
    Flags,
}

impl BufferUsage {
    /// Numeric code of the usage in the Embree API.
    pub fn code(&self) -> (r: u32)
        ensures
            r == buffer_usage_code(*self),
    {
        match self {
            BufferUsage::Index => 0,
            BufferUsage::Vertex => 1,
            BufferUsage::VertexAttribute => 2,
            BufferUsage::Normal => 3,
            BufferUsage::Tangent => 4,
            BufferUsage::NormalDerivative => 5,
            BufferUsage::Grid => 8,
            BufferUsage::Face => 16,
            BufferUsage::Level => 17,
            BufferUsage::EdgeCreaseIndex => 18,
            BufferUsage::EdgeCreaseWeight => 19,
            BufferUsage::VertexCreaseIndex => 20,
            BufferUsage::VertexCreaseWeight => 21,
            BufferUsage::Hole => 22,
            BufferUsage::Flags => 32,
        }
    }
}

/// Numeric code of a buffer usage in the Embree API.
pub open spec fn buffer_usage_code(u: BufferUsage) -> u32 {
    match u {
        BufferUsage::Index => 0,
        BufferUsage::Vertex => 1,
        BufferUsage::VertexAttribute => 2,
        BufferUsage::Normal => 3,
        BufferUsage::Tangent => 4,
        BufferUsage::NormalDerivative => 5,
        BufferUsage::Grid => 8,
        BufferUsage::Face => 16,
        BufferUsage::Level => 17,
        BufferUsage::EdgeCreaseIndex => 18,
        BufferUsage::EdgeCreaseWeight => 19,
        BufferUsage::VertexCreaseIndex => 20,
        BufferUsage::VertexCreaseWeight => 21,
        BufferUsage::Hole => 22,
        BufferUsage::Flags => 32,
    }
}

/// Format of the items of a buffer, by its numeric code in the Embree API.
#[derive(Clone, Copy, Debug, PartialEq, Eq, Structural)]
pub struct Format {
    /// The numeric code.
    pub code: u32,
}

/// One unsigned byte per item.
pub const FORMAT_UCHAR: u32 = 0x1001;
/// One 32-bit unsigned integer per item.
pub const FORMAT_UINT: u32 = 0x5001;
/// Three 32-bit unsigned integers per item.
pub const FORMAT_UINT3: u32 = 0x5003;
/// Four 32-bit unsigned integers per item.
pub const FORMAT_UINT4: u32 = 0x5004;
/// Three floats per item.
pub const FORMAT_FLOAT3: u32 = 0x9003;
/// Four floats per item.
pub const FORMAT_FLOAT4: u32 = 0x9004;
/// A 4x4 column-major float matrix per item.
pub const FORMAT_FLOAT4X4_COLUMN_MAJOR: u32 = 0x9244;

/// Information about how a (part of a) buffer is bound to a geometry.
#[derive(Clone, Copy, Debug)]
pub struct AttachedBuffer<'src> {
    /// Usage the buffer is bound as.
    pub usage: BufferUsage,
    /// Slot the buffer is bound to.
    pub slot: u32,
    /// Format of the items.
    pub format: Format,
    /// Distance in bytes between two items.
    pub stride: usize,
    /// The bound memory.
    pub source: BufferSlice<'src>,
}

/// Whether `entries` binds at most one buffer to each (usage, slot) pair.
pub open spec fn bindings_distinct(entries: Seq<AttachedBuffer>) -> bool {
    forall|i: int, j: int|
        0 <= i < j < entries.len() ==> !(#[trigger] entries[i].usage == #[trigger] entries[j].usage
            && entries[i].slot == entries[j].slot)
}

/// The buffer `entries` binds to (`usage`, `slot`), if any.
pub open spec fn binding_in<'src>(entries: Seq<AttachedBuffer<'src>>, usage: BufferUsage, slot: u32) -> Option<AttachedBuffer<'src>> {
    if exists|i: int| 0 <= i < entries.len() && #[trigger] entries[i].usage == usage && entries[i].slot == slot {
        let i = choose|i: int| 0 <= i < entries.len() && #[trigger] entries[i].usage == usage && entries[i].slot == slot;
        Some(entries[i])
    } else {
        None
    }
}

/// With distinct bindings, the binding of a pair is the entry that binds it.
pub proof fn lemma_binding_at<'src>(entries: Seq<AttachedBuffer<'src>>, k: int)
    requires
        bindings_distinct(entries),
        0 <= k < entries.len(),
    ensures
        binding_in(entries, entries[k].usage, entries[k].slot) == Some(entries[k]),
{
    let usage = entries[k].usage;
    let slot = entries[k].slot;
    assert(0 <= k < entries.len() && entries[k].usage == usage && entries[k].slot == slot);
    let i = choose|i: int| 0 <= i < entries.len() && #[trigger] entries[i].usage == usage && entries[i].slot == slot;
    if i < k {
        assert(!(entries[i].usage == entries[k].usage && entries[i].slot == entries[k].slot));
    } else if k < i {
        assert(!(entries[k].usage == entries[i].usage && entries[k].slot == entries[i].slot));
    }
}

/// Bookkeeping of a geometry: its kind and the buffers bound to it.
pub struct Geometry<'buf> {
    kind: GeometryKind,
    attachments: Vec<AttachedBuffer<'buf>>,
}

impl<'buf> Geometry<'buf> {
    /// No (usage, slot) pair is bound twice.
    #[verifier::type_invariant]
    spec fn bindings_are_distinct(&self) -> bool {
        bindings_distinct(self.attachments@)
    }

    /// The kind of the geometry.
    pub closed spec fn spec_kind(&self) -> GeometryKind {
        self.kind
    }

    /// The buffer bound to (`usage`, `slot`), if any.
    pub closed spec fn binding(&self, usage: BufferUsage, slot: u32) -> Option<AttachedBuffer<'buf>> {
        binding_in(self.attachments@, usage, slot)
    }

    /// Bookkeeping of a new geometry of the given kind, with no buffer bound.
    pub fn new(kind: GeometryKind) -> (r: Geometry<'buf>)
        ensures
            r.spec_kind() == kind,
            forall|u: BufferUsage, s: u32| #[trigger] r.binding(u, s) is None,
    {
        Geometry { kind, attachments: Vec::new() }
    }

    /// Returns the type of the geometry.
    pub fn kind(&self) -> (r: GeometryKind)
        ensures
            r == self.spec_kind(),
    {
        self.kind
    }

    /// Checks that the geometry takes vertex attributes: grids, user
    /// geometries and instances do not.
    pub fn check_vertex_attribute(&self) -> (r: Result<(), Error>)
        ensures
            r is Err <==> (self.spec_kind() == GeometryKind::Grid || self.spec_kind() == GeometryKind::User
                || self.spec_kind() == GeometryKind::Instance),
            r == if kind_forbids_vertex_attributes(self.spec_kind()) {
                Err::<(), Error>(Error::InvalidOperation)
            } else {
                Ok(())
            },
    {
        if self.kind.allows_vertex_attributes() {
            Ok(())
        } else {
            Err(Error::InvalidOperation)
        }
    }

    /// Binds a slice of a buffer, or of memory owned by the caller, to the
    /// geometry as `usage` at `slot`, replacing what was bound there. Vertex
    /// attributes are refused for grids, user geometries and instances, and
    /// memory managed by Embree for another geometry cannot be shared.
    pub fn set_buffer(
        &mut self,
        usage: BufferUsage,
        slot: u32,
        format: Format,
        slice: BufferSlice<'buf>,
        stride: usize,
        count: usize,
    ) -> (r: Result<(), Error>)
        requires
            stride % 4 == 0,
        ensures
            final(self).spec_kind() == old(self).spec_kind(),
            usage == BufferUsage::VertexAttribute && kind_forbids_vertex_attributes(old(self).spec_kind()) ==> {
                &&& r == Err::<(), Error>(Error::InvalidOperation)
                &&& *final(self) == *old(self)
            },
            !(usage == BufferUsage::VertexAttribute && kind_forbids_vertex_attributes(old(self).spec_kind()))
                && slice is Internal ==> {
                &&& r == Err::<(), Error>(Error::InvalidArgument)
                &&& *final(self) == *old(self)
            },
            !(usage == BufferUsage::VertexAttribute && kind_forbids_vertex_attributes(old(self).spec_kind()))
                && !(slice is Internal) ==> {
                &&& r == Ok::<(), Error>(())
                &&& forall|u: BufferUsage, s: u32| #[trigger] final(self).binding(u, s) == if u == usage && s == slot {
                    Some(AttachedBuffer { usage, slot, format, stride, source: slice })
                } else {
                    old(self).binding(u, s)
                }
            },
    {
        if usage == BufferUsage::VertexAttribute {
            match self.check_vertex_attribute() {
                Ok(()) => {},
                Err(e) => {
                    return Err(e);
                },
            }
        }
        match slice {
            BufferSlice::Internal { .. } => Err(Error::InvalidArgument),
            _ => {
                self.bind(AttachedBuffer { usage, slot, format, stride, source: slice });
                Ok(())
            },
        }
    }

    /// Checks that a new buffer managed by Embree may be created and bound as
    /// `usage` at `slot`: vertex attributes are refused for grids, user
    /// geometries and instances, and the slot must be free.
    pub fn check_new_buffer(&self, usage: BufferUsage, slot: u32) -> (r: Result<(), Error>)
        ensures
            r == if usage == BufferUsage::VertexAttribute && kind_forbids_vertex_attributes(self.spec_kind()) {
                Err::<(), Error>(Error::InvalidOperation)
            } else if self.binding(usage, slot) is Some {
                Err::<(), Error>(Error::InvalidArgument)
            } else {
                Ok(())
            },
    {
        proof { use_type_invariant(self); }
        if usage == BufferUsage::VertexAttribute {
            match self.check_vertex_attribute() {
                Ok(()) => {},
                Err(e) => {
                    return Err(e);
                },
            }
        }
        match self.position(usage, slot) {
            Some(i) => {
                proof {
                    lemma_binding_at(self.attachments@, i as int);
                }
                Err(Error::InvalidArgument)
            },
            None => Ok(()),
        }
    }

    /// Records a new buffer managed by Embree, of `count` items `stride`
    /// bytes apart, bound as `usage` at `slot`, after the checks of
    /// [`Geometry::check_new_buffer`]; returns the slice describing it.
    pub fn set_new_buffer(
        &mut self,
        usage: BufferUsage,
        slot: u32,
        format: Format,
        stride: usize,
        count: usize,
    ) -> (r: Result<BufferSlice<'static>, Error>)
        requires
            stride % 4 == 0,
            old(self).check_new_buffer_spec(usage, slot) is Ok ==> 0 < count * stride <= usize::MAX,
        ensures
            final(self).spec_kind() == old(self).spec_kind(),
            match old(self).check_new_buffer_spec(usage, slot) {
                Err(e) => r == Err::<BufferSlice<'static>, Error>(e) && *final(self) == *old(self),
                Ok(()) => {
                    &&& r == Ok::<BufferSlice<'static>, Error>(BufferSlice::Internal { size: (count * stride) as usize })
                    &&& forall|u: BufferUsage, s: u32| #[trigger] final(self).binding(u, s) == if u == usage && s == slot {
                        Some(AttachedBuffer { usage, slot, format, stride, source: BufferSlice::Internal { size: (count * stride) as usize } })
                    } else {
                        old(self).binding(u, s)
                    }
                },
            },
    {
        match self.check_new_buffer(usage, slot) {
            Err(e) => Err(e),
            Ok(()) => {
                let slice: BufferSlice<'static> = BufferSlice::Internal { size: count * stride };
                self.bind(AttachedBuffer { usage, slot, format, stride, source: slice });
                Ok(slice)
            },
        }
    }

    /// Outcome of [`Geometry::check_new_buffer`].
    pub open spec fn check_new_buffer_spec(&self, usage: BufferUsage, slot: u32) -> Result<(), Error> {
        if usage == BufferUsage::VertexAttribute && kind_forbids_vertex_attributes(self.spec_kind()) {
            Err::<(), Error>(Error::InvalidOperation)
        } else if self.binding(usage, slot) is Some {
            Err::<(), Error>(Error::InvalidArgument)
        } else {
            Ok(())
        }
    }

    /// The slice bound as `usage` at `slot`, if any.
    pub open spec fn bound_source(&self, usage: BufferUsage, slot: u32) -> Option<BufferSlice<'buf>> {
        match self.binding(usage, slot) {
            Some(a) => Some(a.source),
            None => None::<BufferSlice<'buf>>,
        }
    }

    /// Returns the slice bound as `usage` at `slot`, if any.
    pub fn get_buffer(&self, usage: BufferUsage, slot: u32) -> (r: Option<BufferSlice<'buf>>)
        ensures
            r == self.bound_source(usage, slot),
    {
        proof { use_type_invariant(self); }
        match self.position(usage, slot) {
            Some(i) => {
                proof {
                    lemma_binding_at(self.attachments@, i as int);
                }
                Some(self.attachments[i].source)
            },
            None => None,
        }
    }

    /// Index of the entry binding (`usage`, `slot`), if any.
    fn position(&self, usage: BufferUsage, slot: u32) -> (r: Option<usize>)
        ensures
            match r {
                Some(i) => i < self.attachments@.len() && self.attachments@[i as int].usage == usage
                    && self.attachments@[i as int].slot == slot,
                None => forall|i: int| 0 <= i < self.attachments@.len() ==> !(#[trigger] self.attachments@[i].usage == usage
                    && self.attachments@[i].slot == slot),
            },
    {
        let mut i: usize = 0;
        while i < self.attachments.len()
            invariant
                i <= self.attachments@.len(),
                forall|j: int| 0 <= j < i ==> !(#[trigger] self.attachments@[j].usage == usage
                    && self.attachments@[j].slot == slot),
            decreases self.attachments@.len() - i,
        {
            let a = &self.attachments[i];
            if a.usage == usage && a.slot == slot {
                return Some(i);
            }
            i = i + 1;
        }
        None
    }

    /// Binds `entry` to its (usage, slot), replacing what was bound there.
    fn bind(&mut self, entry: AttachedBuffer<'buf>)
        ensures
            final(self).spec_kind() == old(self).spec_kind(),
            forall|u: BufferUsage, s: u32| #[trigger] final(self).binding(u, s) == if u == entry.usage && s == entry.slot {
                Some(entry)
            } else {
                old(self).binding(u, s)
            },
    {
        proof { use_type_invariant(&*self); }
        let pos = self.position(entry.usage, entry.slot);
        let mut attachments: Vec<AttachedBuffer<'buf>> = Vec::new();
        std::mem::swap(&mut attachments, &mut self.attachments);
        let ghost before = attachments@;
        match pos {
            Some(i) => {
                attachments.remove(i);
                proof {
                    lemma_remove_binding(before, i as int);
                }
            },
            None => {},
        }
        let ghost middle = attachments@;
        attachments.push(entry);
        proof {
            lemma_push_binding(middle, entry);
        }
        self.attachments = attachments;
    }
}

/// Removing the entry at `i` leaves the bindings distinct, unbinds its pair
/// and keeps every other binding.
pub proof fn lemma_remove_binding<'src>(entries: Seq<AttachedBuffer<'src>>, i: int)
    requires
        bindings_distinct(entries),
        0 <= i < entries.len(),
    ensures
        bindings_distinct(entries.remove(i)),
        forall|j: int| 0 <= j < entries.remove(i).len() ==> !(#[trigger] entries.remove(i)[j].usage
            == entries[i].usage && entries.remove(i)[j].slot == entries[i].slot),
        forall|u: BufferUsage, s: u32| !(u == entries[i].usage && s == entries[i].slot)
            ==> #[trigger] binding_in(entries.remove(i), u, s) == binding_in(entries, u, s),
{
    let m = entries.remove(i);
    assert forall|a: int, b: int| 0 <= a < b < m.len() implies !(#[trigger] m[a].usage == #[trigger] m[b].usage
        && m[a].slot == m[b].slot) by {
        let a2 = if a < i { a } else { a + 1 };
        let b2 = if b < i { b } else { b + 1 };
        assert(m[a] == entries[a2] && m[b] == entries[b2]);
        assert(!(entries[a2].usage == entries[b2].usage && entries[a2].slot == entries[b2].slot));
    }
    assert forall|j: int| 0 <= j < m.len() implies !(#[trigger] m[j].usage == entries[i].usage && m[j].slot == entries[i].slot) by {
        let j2 = if j < i { j } else { j + 1 };
        assert(m[j] == entries[j2]);
        if j2 < i {
            assert(!(entries[j2].usage == entries[i].usage && entries[j2].slot == entries[i].slot));
        } else {
            assert(!(entries[i].usage == entries[j2].usage && entries[i].slot == entries[j2].slot));
        }
    }
    assert forall|u: BufferUsage, s: u32| !(u == entries[i].usage && s == entries[i].slot)
        implies #[trigger] binding_in(m, u, s) == binding_in(entries, u, s) by {
        if exists|k: int| 0 <= k < entries.len() && #[trigger] entries[k].usage == u && entries[k].slot == s {
            let k = choose|k: int| 0 <= k < entries.len() && #[trigger] entries[k].usage == u && entries[k].slot == s;
            lemma_binding_at(entries, k);
            let j = if k < i { k } else { k - 1 };
            assert(m[j] == entries[k]);
            lemma_binding_at(m, j);
        } else {
            assert forall|j: int| 0 <= j < m.len() implies !(#[trigger] m[j].usage == u && m[j].slot == s) by {
                let j2 = if j < i { j } else { j + 1 };
                assert(m[j] == entries[j2]);
            }
        }
    }
}

/// Appending an entry whose pair is unbound keeps the bindings distinct and
/// binds that pair to it.
pub proof fn lemma_push_binding<'src>(entries: Seq<AttachedBuffer<'src>>, e: AttachedBuffer<'src>)
    requires
        bindings_distinct(entries),
        forall|j: int| 0 <= j < entries.len() ==> !(#[trigger] entries[j].usage == e.usage && entries[j].slot == e.slot),
    ensures
        bindings_distinct(entries.push(e)),
        forall|u: BufferUsage, s: u32| #[trigger] binding_in(entries.push(e), u, s) == if u == e.usage && s == e.slot {
            Some(e)
        } else {
            binding_in(entries, u, s)
        },
{
    let p = entries.push(e);
    assert forall|a: int, b: int| 0 <= a < b < p.len() implies !(#[trigger] p[a].usage == #[trigger] p[b].usage
        && p[a].slot == p[b].slot) by {
        if b == entries.len() {
            assert(p[a] == entries[a]);
        } else {
            assert(p[a] == entries[a] && p[b] == entries[b]);
        }
    }
    assert forall|u: BufferUsage, s: u32| #[trigger] binding_in(p, u, s) == if u == e.usage && s == e.slot {
        Some(e)
    } else {
        binding_in(entries, u, s)
    } by {
        if u == e.usage && s == e.slot {
            lemma_binding_at(p, entries.len() as int);
        } else if exists|k: int| 0 <= k < entries.len() && #[trigger] entries[k].usage == u && entries[k].slot == s {
            let k = choose|k: int| 0 <= k < entries.len() && #[trigger] entries[k].usage == u && entries[k].slot == s;
            lemma_binding_at(entries, k);
            assert(p[k] == entries[k]);
            lemma_binding_at(p, k);
        } else {
            assert forall|j: int| 0 <= j < p.len() implies !(#[trigger] p[j].usage == u && p[j].slot == s) by {
                if j < entries.len() {
                    assert(p[j] == entries[j]);
                }
            }
        }
    }
}

/// Reading back a pair after [`Geometry::set_buffer`] bound `slice` to it
/// gives `slice`; every other pair reads as it did before.
pub proof fn lemma_get_after_set_buffer<'buf>(
    before: Geometry<'buf>,
    after: Geometry<'buf>,
    usage: BufferUsage,
    slot: u32,
    format: Format,
    stride: usize,
    slice: BufferSlice<'buf>,
)
    requires
        forall|u: BufferUsage, s: u32| #[trigger] after.binding(u, s) == if u == usage && s == slot {
            Some(AttachedBuffer { usage, slot, format, stride, source: slice })
        } else {
            before.binding(u, s)
        },
    ensures
        after.bound_source(usage, slot) == Some(slice),
        forall|u: BufferUsage, s: u32| !(u == usage && s == slot)
            ==> #[trigger] after.bound_source(u, s) == before.bound_source(u, s),
{
    assert(after.binding(usage, slot) == Some(AttachedBuffer { usage, slot, format, stride, source: slice }));
    assert forall|u: BufferUsage, s: u32| !(u == usage && s == slot)
        implies #[trigger] after.bound_source(u, s) == before.bound_source(u, s) by {
        assert(after.binding(u, s) == before.binding(u, s));
    }
}

} // verus!

//! Bookkeeping of the geometries attached to a scene.

use vstd::prelude::*;
use std::collections::HashMap;
use crate::geometry::Geometry;

verus! {

/// A scene: the geometries attached to it, by geometry identifier.
pub struct Scene<'a> {
    geometries: HashMap<u32, Geometry<'a>>,
}

impl<'a> Scene<'a> {
    /// The attached geometries, by identifier.
    pub closed spec fn attached(&self) -> Map<u32, Geometry<'a>> {
        self.geometries@
    }

    /// A scene with no geometry attached.
    pub fn new() -> (r: Scene<'a>)
        ensures
            r.attached() == Map::<u32, Geometry<'a>>::empty(),
    {
        Scene { geometries: HashMap::new() }
    }

    /// Records `geometry` as attached under `id`, the identifier Embree
    /// assigned to it, and returns that identifier.
    pub fn attach_geometry(&mut self, geometry: Geometry<'a>, id: u32) -> (r: u32)
        ensures
            r == id,
            final(self).attached() == old(self).attached().insert(id, geometry),
    {
        broadcast use vstd::std_specs::hash::group_hash_axioms;
        self.geometries.insert(id, geometry);
        id
    }

    /// Records `geometry` as attached under the identifier `id` chosen by the caller.
    pub fn attach_geometry_by_id(&mut self, geometry: Geometry<'a>, id: u32)
        ensures
            final(self).attached() == old(self).attached().insert(id, geometry),
    {
        broadcast use vstd::std_specs::hash::group_hash_axioms;
        self.geometries.insert(id, geometry);
    }

    /// Records the geometry with identifier `id` as detached.
    pub fn detach_geometry(&mut self, id: u32)
        ensures
            final(self).attached() == old(self).attached().remove(id),
    {
        broadcast use vstd::std_specs::hash::group_hash_axioms;
        self.geometries.remove(&id);
    }

    /// Returns the geometry attached under `id`, if any.
    pub fn get_geometry_unchecked(&self, id: u32) -> (r: Option<&Geometry<'a>>)
        ensures
            match self.attached().get(id) {
                Some(g) => r matches Some(x) && *x == g,
                None => r is None,
            },
    {
        broadcast use vstd::std_specs::hash::group_hash_axioms;
        self.geometries.get(&id)
    }
}

/// Reading a geometry back after attaching it under an identifier gives that
/// geometry; after detaching that identifier, nothing is found under it; and
/// attaching or detaching under one identifier leaves the others unchanged.
/// `attached` is `scene` after [`Scene::attach_geometry`] of `g` under `id`,
/// `detached` is `attached` after [`Scene::detach_geometry`] of `id`.
pub proof fn lemma_attach_detach<'a>(
    scene: Scene<'a>,
    attached: Scene<'a>,
    detached: Scene<'a>,
    id: u32,
    other: u32,
    g: Geometry<'a>,
)
    requires
        attached.attached() == scene.attached().insert(id, g),
        detached.attached() == attached.attached().remove(id),
        other != id,
    ensures
        attached.attached().get(id) == Some(g),
        detached.attached().get(id) is None,
        attached.attached().get(other) == scene.attached().get(other),
        detached.attached().get(other) == scene.attached().get(other),
{
}

} // verus!

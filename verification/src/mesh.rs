//! Meshes: per-vertex buffers read out of a native mesh handle.
//!
//! The native library hands out one buffer per vertex attribute, each
//! `vertexCount` entries long; a mesh here holds those buffers as plain
//! vectors, and the accessors promise exactly the per-vertex layout that the
//! raw buffers have.

use crate::types::{Color, Vector3};
use vstd::prelude::*;

verus! {

/// A mesh as read out of the native library: one entry per vertex in each
/// attribute buffer.
#[derive(Debug)]
pub struct Mesh {
    pub vertices: Vec<Vector3>,
    pub normals: Vec<Vector3>,
    pub tangents: Vec<Vector3>,
    pub colors: Vec<Color>,
    pub indices: Vec<u16>,
}

/// Read access to a mesh's per-vertex buffers.
pub trait RaylibMesh: Sized {
    /// Every attribute buffer holds exactly one entry per vertex.
    spec fn wf(&self) -> bool;

    spec fn vertex_count(&self) -> nat;

    spec fn vertices_view(&self) -> Seq<Vector3>;

    spec fn normals_view(&self) -> Seq<Vector3>;

    spec fn tangents_view(&self) -> Seq<Vector3>;

    spec fn colors_view(&self) -> Seq<Color>;

    spec fn indices_view(&self) -> Seq<u16>;

    fn vertices(&self) -> (r: &[Vector3])
        requires
            self.wf(),
        ensures
            r@ == self.vertices_view(),
            r@.len() == self.vertex_count(),
    ;

    fn normals(&self) -> (r: &[Vector3])
        requires
            self.wf(),
        ensures
            r@ == self.normals_view(),
            r@.len() == self.vertex_count(),
    ;

    fn tangents(&self) -> (r: &[Vector3])
        requires
            self.wf(),
        ensures
            r@ == self.tangents_view(),
            r@.len() == self.vertex_count(),
    ;

    fn colors(&self) -> (r: &[Color])
        requires
            self.wf(),
        ensures
            r@ == self.colors_view(),
            r@.len() == self.vertex_count(),
    ;

    fn indicies(&self) -> (r: &[u16])
        requires
            self.wf(),
        ensures
            r@ == self.indices_view(),
            r@.len() == self.vertex_count(),
    ;

    /// Overwrite one vertex position, leaving every other buffer untouched.
    fn set_vertex(&mut self, i: usize, v: Vector3)
        requires
            old(self).wf(),
            i < old(self).vertex_count(),
        ensures
            final(self).wf(),
            final(self).vertex_count() == old(self).vertex_count(),
            final(self).vertices_view() == old(self).vertices_view().update(i as int, v),
            final(self).normals_view() == old(self).normals_view(),
            final(self).tangents_view() == old(self).tangents_view(),
            final(self).colors_view() == old(self).colors_view(),
            final(self).indices_view() == old(self).indices_view(),
    ;
}

impl RaylibMesh for Mesh {
    open spec fn wf(&self) -> bool {
        &&& self.normals@.len() == self.vertices@.len()
        &&& self.tangents@.len() == self.vertices@.len()
        &&& self.colors@.len() == self.vertices@.len()
        &&& self.indices@.len() == self.vertices@.len()
    }

    open spec fn vertex_count(&self) -> nat {
        self.vertices@.len()
    }

    open spec fn vertices_view(&self) -> Seq<Vector3> {
        self.vertices@
    }

    open spec fn normals_view(&self) -> Seq<Vector3> {
        self.normals@
    }

    open spec fn tangents_view(&self) -> Seq<Vector3> {
        self.tangents@
    }

    open spec fn colors_view(&self) -> Seq<Color> {
        self.colors@
    }

    open spec fn indices_view(&self) -> Seq<u16> {
        self.indices@
    }

    fn vertices(&self) -> (r: &[Vector3]) {
        self.vertices.as_slice()
    }

    fn normals(&self) -> (r: &[Vector3]) {
        self.normals.as_slice()
    }

    fn tangents(&self) -> (r: &[Vector3]) {
        self.tangents.as_slice()
    }

    fn colors(&self) -> (r: &[Color]) {
        self.colors.as_slice()
    }

    fn indicies(&self) -> (r: &[u16]) {
        self.indices.as_slice()
    }

    fn set_vertex(&mut self, i: usize, v: Vector3) {
        self.vertices.set(i, v);
    }
}

impl Mesh {
    /// Assemble a mesh from per-vertex buffers of equal length.
    pub fn new(
        vertices: Vec<Vector3>,
        normals: Vec<Vector3>,
        tangents: Vec<Vector3>,
        colors: Vec<Color>,
        indices: Vec<u16>,
    ) -> (m: Mesh)
        requires
            normals@.len() == vertices@.len(),
            tangents@.len() == vertices@.len(),
            colors@.len() == vertices@.len(),
            indices@.len() == vertices@.len(),
        ensures
            m.wf(),
            m.vertices_view() == vertices@,
            m.normals_view() == normals@,
            m.tangents_view() == tangents@,
            m.colors_view() == colors@,
            m.indices_view() == indices@,
    {
        Mesh { vertices, normals, tangents, colors, indices }
    }
}

} // verus!

//! The mesh-owning actor.
//!
//! An actor owns exactly one mesh and is driven once per frame: an update
//! step replaces every triangle with its rotated counterpart, then a draw
//! step runs the mesh's per-triangle scalar results through the decisions of
//! the `render` module.  The rotation arithmetic itself is floating point
//! and runs with the application; the actor guarantees that an update
//! replaces the triangles wholesale, in order, and that nothing else ever
//! changes the mesh.

use crate::geometry::{Mesh, Triangle};
use vstd::prelude::*;

verus! {

/// An actor that owns a mesh.
#[derive(Debug)]
pub struct MeshActor {
    mesh: Mesh,
}

impl View for MeshActor {
    type V = Seq<Triangle>;

    closed spec fn view(&self) -> Seq<Triangle> {
        self.mesh@
    }
}

impl MeshActor {
    /// Creates a new actor with the given mesh.
    pub fn new(mesh: Mesh) -> (r: Self)
        ensures
            r@ == mesh@,
    {
        Self { mesh }
    }

    /// The actor's triangles, in rendering order.
    pub fn triangles(&self) -> (r: &Vec<Triangle>)
        ensures
            r@ == self@,
    {
        &self.mesh.triangles
    }

    /// One update step: every triangle of the mesh is replaced by its
    /// rotated counterpart, computed by the caller, in the same order.  The
    /// count is required to match so that a step can never lose or invent
    /// geometry.
    pub fn apply_update(&mut self, rotated: Vec<Triangle>)
        requires
            rotated@.len() == old(self)@.len(),
        ensures
            final(self)@ == rotated@,
    {
        self.mesh = Mesh { triangles: rotated };
    }
}

} // verus!

//! Geometric data owned by the pipeline.
//!
//! Every scalar component is held as the raw bit pattern of an IEEE-754
//! binary32 value (see the `ieee` module); equality of two points is exact
//! equality of those bit patterns.  The arithmetic on the components — dot
//! products, cross products, matrix transforms — is floating point and lives
//! with the surrounding application; the library owns the shapes, their
//! order, and every decision taken on the scalars it is handed.

use vstd::prelude::*;

verus! {

/// A three-dimensional vector or point.  Each component is the bit pattern
/// of a binary32 value.
#[derive(Clone, Copy, Debug, PartialEq, Eq, Structural)]
pub struct Point3 {
    pub x: u32,
    pub y: u32,
    pub z: u32,
}

impl Point3 {
    /// Builds the point with the given component bit patterns.
    pub fn new(x: u32, y: u32, z: u32) -> (r: Point3)
        ensures
            r == (Point3 { x, y, z }),
    {
        Point3 { x, y, z }
    }
}

/// A triangle: three vertices in authoring order.  The winding order is
/// meaningful — the surface normal derived from it decides culling — so the
/// three vertices are not interchangeable.
#[derive(Clone, Copy, Debug, PartialEq, Eq, Structural)]
pub struct Triangle {
    pub a: Point3,
    pub b: Point3,
    pub c: Point3,
}

impl Triangle {
    /// Builds the triangle with the given vertices, in order.
    pub fn new(a: Point3, b: Point3, c: Point3) -> (r: Triangle)
        ensures
            r == (Triangle { a, b, c }),
    {
        Triangle { a, b, c }
    }
}

/// An ordered collection of triangles.  Insertion order is iteration and
/// rendering order; no depth ordering is implied or maintained.
#[derive(Debug)]
pub struct Mesh {
    pub triangles: Vec<Triangle>,
}

impl View for Mesh {
    type V = Seq<Triangle>;

    open spec fn view(&self) -> Seq<Triangle> {
        self.triangles@
    }
}

impl Mesh {
    /// Builds a mesh from its triangles, keeping their order.
    pub fn new(triangles: Vec<Triangle>) -> (r: Mesh)
        ensures
            r@ == triangles@,
    {
        Mesh { triangles }
    }
}

} // verus!

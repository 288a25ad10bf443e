//! The per-frame draw decision.
//!
//! Each frame, the geometry pass computes three scalar results for every
//! triangle of a mesh: the facing product (the dot product of the surface
//! normal with the vector from the camera to a point on the triangle's
//! plane), the shading product (the dot product of the normalized light
//! direction with the normal, scaled to the 8-bit range), and the projected
//! screen coordinates of the three vertices — absent when any vertex had a
//! zero homogeneous `w` and could not be projected.  Those results enter the
//! library as binary32 bit patterns; everything that follows is verified:
//! the backface cull on the facing product, the saturating casts that yield
//! the fill intensity and the pixel positions, and the order of the
//! resulting fill commands.

use crate::ieee;
use vstd::prelude::*;

verus! {

/// A pixel position on the canvas.
#[derive(Clone, Copy, Debug, PartialEq, Eq, Structural)]
pub struct ScreenPoint {
    pub x: u32,
    pub y: u32,
}

/// The screen-space coordinates of one projected vertex, still as binary32
/// bit patterns, before the cast to pixel positions.
#[derive(Clone, Copy, Debug, PartialEq, Eq, Structural)]
pub struct ProjectedVertex {
    pub x: u32,
    pub y: u32,
}

/// The projection of a triangle's three vertices.
#[derive(Clone, Copy, Debug, PartialEq, Eq, Structural)]
pub struct ProjectedTriangle {
    pub a: ProjectedVertex,
    pub b: ProjectedVertex,
    pub c: ProjectedVertex,
}

/// The scalar results the geometry pass hands the library for one triangle.
///
/// `facing` holds the bits of the facing product, `shade` the bits of the
/// shading product already scaled to the 8-bit range, and `projection` the
/// screen coordinates of the vertices, or nothing when a vertex failed to
/// project.
#[derive(Clone, Copy, Debug, PartialEq, Eq)]
pub struct FaceFrame {
    pub facing: u32,
    pub shade: u32,
    pub projection: Option<ProjectedTriangle>,
}

/// A fill request for the canvas: three pixel positions and the greyscale
/// intensity to fill the triangle between them with.
#[derive(Clone, Copy, Debug, PartialEq, Eq, Structural)]
pub struct FillCommand {
    pub p0: ScreenPoint,
    pub p1: ScreenPoint,
    pub p2: ScreenPoint,
    pub alpha: u8,
}

/// The pixel position of a projected vertex: both coordinates cast from
/// their binary32 value, truncating and saturating.
pub open spec fn pixel_of(v: ProjectedVertex) -> ScreenPoint {
    ScreenPoint { x: ieee::to_u32_cast(v.x), y: ieee::to_u32_cast(v.y) }
}

/// What the draw pass decides for one triangle: a fill command exactly when
/// the facing product is strictly negative (the triangle faces the camera)
/// and all three vertices projected; nothing otherwise.
pub open spec fn face_decision(f: FaceFrame) -> Option<FillCommand> {
    if ieee::is_lt_zero(f.facing) {
        match f.projection {
            Some(t) => Some(
                FillCommand {
                    p0: pixel_of(t.a),
                    p1: pixel_of(t.b),
                    p2: pixel_of(t.c),
                    alpha: ieee::to_u8_cast(f.shade),
                },
            ),
            None => None,
        }
    } else {
        None
    }
}

/// The fill commands of one frame: the decisions for the faces that are
/// drawn, in mesh order.
pub open spec fn frame_decision(s: Seq<FaceFrame>) -> Seq<FillCommand>
    decreases s.len(),
{
    if s.len() == 0 {
        Seq::empty()
    } else {
        frame_decision(s.drop_last()) + match face_decision(s.last()) {
            Some(c) => seq![c],
            None => Seq::empty(),
        }
    }
}

/// Decides one triangle of the frame.
pub fn plan_face(f: &FaceFrame) -> (r: Option<FillCommand>)
    ensures
        r == face_decision(*f),
{
    if ieee::lt_zero(f.facing) {
        match f.projection {
            Some(t) => Some(
                FillCommand {
                    p0: ScreenPoint { x: ieee::sat_u32(t.a.x), y: ieee::sat_u32(t.a.y) },
                    p1: ScreenPoint { x: ieee::sat_u32(t.b.x), y: ieee::sat_u32(t.b.y) },
                    p2: ScreenPoint { x: ieee::sat_u32(t.c.x), y: ieee::sat_u32(t.c.y) },
                    alpha: ieee::sat_u8(f.shade),
                },
            ),
            None => None,
        }
    } else {
        None
    }
}

/// Decides a whole frame: culls, shades and rasterizes every face of the
/// mesh, in order, and returns the fill commands the canvas is to receive.
pub fn plan_frame(frames: &Vec<FaceFrame>) -> (r: Vec<FillCommand>)
    ensures
        r@ == frame_decision(frames@),
{
    let mut out: Vec<FillCommand> = Vec::new();
    let mut i: usize = 0;
    while i < frames.len()
        invariant
            i <= frames.len(),
            out@ == frame_decision(frames@.take(i as int)),
        decreases frames.len() - i,
    {
        proof {
            assert(frames@.take(i as int + 1).drop_last() =~= frames@.take(i as int));
            assert(frames@.take(i as int + 1).last() == frames@[i as int]);
        }
        match plan_face(&frames[i]) {
            Some(c) => out.push(c),
            None => (),
        }
        i = i + 1;
    }
    proof {
        assert(frames@.take(frames@.len() as int) =~= frames@);
    }
    out
}

/// Backface culling: a face receives a fill command exactly when its facing
/// product is strictly negative and its projection succeeded.  A facing
/// product of zero (edge-on), a positive one (facing away) and a NaN all
/// cull the face.
pub proof fn lemma_backface_cull(f: FaceFrame)
    ensures
        face_decision(f) is Some <==> (ieee::is_lt_zero(f.facing) && f.projection is Some),
{
}

/// Drawing is a pure decision over the frame's scalar data: two passes over
/// the same data issue identical fill command lists, so drawing twice
/// without an intervening update repeats the frame exactly.
pub proof fn lemma_draw_deterministic(a: Seq<FaceFrame>, b: Seq<FaceFrame>)
    requires
        a == b,
    ensures
        frame_decision(a) == frame_decision(b),
{
}

} // verus!

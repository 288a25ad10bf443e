//! The draw decision and the mesh actor.

use engine3d::actor::MeshActor;
use engine3d::geometry::Mesh;
use engine3d::geometry::Point3;
use engine3d::geometry::Triangle;
use engine3d::render::plan_face;
use engine3d::render::plan_frame;
use engine3d::render::FaceFrame;
use engine3d::render::FillCommand;
use engine3d::render::ProjectedTriangle;
use engine3d::render::ProjectedVertex;
use engine3d::render::ScreenPoint;

fn cross(a: (f32, f32, f32), b: (f32, f32, f32)) -> (f32, f32, f32) {
    (
        a.1 * b.2 - a.2 * b.1,
        a.2 * b.0 - a.0 * b.2,
        a.0 * b.1 - a.1 * b.0,
    )
}

fn dot(a: (f32, f32, f32), b: (f32, f32, f32)) -> f32 {
    a.0 * b.0 + a.1 * b.1 + a.2 * b.2
}

fn sub(a: (f32, f32, f32), b: (f32, f32, f32)) -> (f32, f32, f32) {
    (a.0 - b.0, a.1 - b.1, a.2 - b.2)
}

/// The facing product of a triangle as the geometry pass computes it: the
/// normal from the winding order, dotted with the view vector from the
/// camera to the first vertex.
fn facing_product(
    a: (f32, f32, f32),
    b: (f32, f32, f32),
    c: (f32, f32, f32),
    camera: (f32, f32, f32),
) -> f32 {
    let normal = cross(sub(b, a), sub(c, a));
    dot(normal, sub(a, camera))
}

fn flat_projection() -> Option<ProjectedTriangle> {
    Some(ProjectedTriangle {
        a: ProjectedVertex {
            x: 10.0f32.to_bits(),
            y: 10.0f32.to_bits(),
        },
        b: ProjectedVertex {
            x: 90.5f32.to_bits(),
            y: 12.0f32.to_bits(),
        },
        c: ProjectedVertex {
            x: 50.0f32.to_bits(),
            y: 70.9f32.to_bits(),
        },
    })
}

#[test]
fn backface_is_culled_and_front_face_drawn() {
    let camera = (0.0, 0.0, 0.0);
    let a = (0.0, 0.0, 1.0);
    let b = (1.0, 0.0, 1.0);
    let c = (0.0, 1.0, 1.0);
    // Authored in this winding order the normal points away from the
    // camera; with the winding reversed it points toward it.
    let away = facing_product(a, b, c, camera);
    let toward = facing_product(a, c, b, camera);
    assert!(away > 0.0);
    assert!(toward < 0.0);

    let culled = FaceFrame {
        facing: away.to_bits(),
        shade: 0.5f32.to_bits(),
        projection: flat_projection(),
    };
    let drawn = FaceFrame {
        facing: toward.to_bits(),
        shade: 0.5f32.to_bits(),
        projection: flat_projection(),
    };
    assert!(plan_face(&culled).is_none());
    assert!(plan_face(&drawn).is_some());
}

#[test]
fn edge_on_and_nan_faces_are_culled() {
    let edge_on = FaceFrame {
        facing: 0.0f32.to_bits(),
        shade: 0.5f32.to_bits(),
        projection: flat_projection(),
    };
    let undecided = FaceFrame {
        facing: f32::NAN.to_bits(),
        shade: 0.5f32.to_bits(),
        projection: flat_projection(),
    };
    assert!(plan_face(&edge_on).is_none());
    assert!(plan_face(&undecided).is_none());
}

#[test]
fn failed_projection_skips_the_face() {
    let face = FaceFrame {
        facing: (-1.0f32).to_bits(),
        shade: 0.5f32.to_bits(),
        projection: None,
    };
    assert!(plan_face(&face).is_none());
}

#[test]
fn fill_command_carries_pixels_and_intensity() {
    // Shading product 0.7, scaled by 255 by the geometry pass.
    let shade = 0.7f32 * 255.0;
    let face = FaceFrame {
        facing: (-1.0f32).to_bits(),
        shade: shade.to_bits(),
        projection: flat_projection(),
    };
    let cmd = plan_face(&face).unwrap();
    let expected = FillCommand {
        p0: ScreenPoint { x: 10, y: 10 },
        p1: ScreenPoint { x: 90, y: 12 },
        p2: ScreenPoint { x: 50, y: 70 },
        alpha: 178,
    };
    assert_eq!(cmd, expected);
}

#[test]
fn frame_keeps_mesh_order_and_drops_culled_faces() {
    let first = FaceFrame {
        facing: (-2.0f32).to_bits(),
        shade: 1.0f32.to_bits(),
        projection: flat_projection(),
    };
    let culled = FaceFrame {
        facing: 3.0f32.to_bits(),
        shade: 1.0f32.to_bits(),
        projection: flat_projection(),
    };
    let last = FaceFrame {
        facing: (-0.25f32).to_bits(),
        shade: 200.0f32.to_bits(),
        projection: flat_projection(),
    };
    let frames = vec![first, culled, last];
    let commands = plan_frame(&frames);
    assert_eq!(commands.len(), 2);
    assert_eq!(commands[0], plan_face(&first).unwrap());
    assert_eq!(commands[1], plan_face(&last).unwrap());
}

#[test]
fn drawing_twice_issues_identical_commands() {
    let frames = vec![
        FaceFrame {
            facing: (-1.5f32).to_bits(),
            shade: 100.0f32.to_bits(),
            projection: flat_projection(),
        },
        FaceFrame {
            facing: 0.5f32.to_bits(),
            shade: 100.0f32.to_bits(),
            projection: flat_projection(),
        },
    ];
    let once = plan_frame(&frames);
    let twice = plan_frame(&frames);
    assert_eq!(once, twice);
}

fn point(x: f32, y: f32, z: f32) -> Point3 {
    Point3 {
        x: x.to_bits(),
        y: y.to_bits(),
        z: z.to_bits(),
    }
}

#[test]
fn actor_owns_its_mesh_in_order() {
    let t0 = Triangle::new(
        point(0.0, 0.0, 1.0),
        point(1.0, 0.0, 1.0),
        point(0.0, 1.0, 1.0),
    );
    let t1 = Triangle::new(
        point(0.0, 0.0, 2.0),
        point(1.0, 0.0, 2.0),
        point(0.0, 1.0, 2.0),
    );
    let actor = MeshActor::new(Mesh::new(vec![t0, t1]));
    assert_eq!(actor.triangles().as_slice(), &[t0, t1]);
}

#[test]
fn update_replaces_every_triangle_in_order() {
    let t0 = Triangle::new(
        point(0.0, 0.0, 1.0),
        point(1.0, 0.0, 1.0),
        point(0.0, 1.0, 1.0),
    );
    let t1 = Triangle::new(
        point(0.0, 0.0, 2.0),
        point(1.0, 0.0, 2.0),
        point(0.0, 1.0, 2.0),
    );
    let r0 = Triangle::new(
        point(0.5, 0.0, 1.0),
        point(1.5, 0.0, 1.0),
        point(0.5, 1.0, 1.0),
    );
    let r1 = Triangle::new(
        point(0.5, 0.0, 2.0),
        point(1.5, 0.0, 2.0),
        point(0.5, 1.0, 2.0),
    );
    let mut actor = MeshActor::new(Mesh::new(vec![t0, t1]));
    actor.apply_update(vec![r0, r1]);
    assert_eq!(actor.triangles().as_slice(), &[r0, r1]);
}

//! Ray casting against a triangulated cube, and the input handlers.

use viewer_core::camera::{Camera, FocusPoint};
use viewer_core::geometry::{Transform3, Vec3};
use viewer_core::fixed::FIX_MAX;
use viewer_core::input::{InputEvent, InputHandler, Movement, Rotation, Zoom};
use viewer_core::scene::{Aabb, Mesh, Model, Triangle3};
use viewer_core::screen::NormalizedScreenPosition;
use viewer_core::SCALE;

fn v(x: i64, y: i64, z: i64) -> Vec3 {
    Vec3 { x, y, z }
}

fn tri(a: Vec3, b: Vec3, c: Vec3) -> Triangle3 {
    Triangle3 { a, b, c }
}

/// An axis-aligned cube centered at the origin with the given half
/// extent, as twelve triangles.
fn cube(h: i64) -> Vec<Triangle3> {
    vec![
        // +z
        tri(v(-h, -h, h), v(h, -h, h), v(h, h, h)),
        tri(v(-h, -h, h), v(h, h, h), v(-h, h, h)),
        // -z
        tri(v(-h, -h, -h), v(h, -h, -h), v(h, h, -h)),
        tri(v(-h, -h, -h), v(h, h, -h), v(-h, h, -h)),
        // +x
        tri(v(h, -h, -h), v(h, h, -h), v(h, h, h)),
        tri(v(h, -h, -h), v(h, h, h), v(h, -h, h)),
        // -x
        tri(v(-h, -h, -h), v(-h, h, -h), v(-h, h, h)),
        tri(v(-h, -h, -h), v(-h, h, h), v(-h, -h, h)),
        // +y
        tri(v(-h, h, -h), v(h, h, -h), v(h, h, h)),
        tri(v(-h, h, -h), v(h, h, h), v(-h, h, h)),
        // -y
        tri(v(-h, -h, -h), v(h, -h, -h), v(h, -h, h)),
        tri(v(-h, -h, -h), v(h, -h, h), v(-h, -h, h)),
    ]
}

fn unit_cube_model() -> Model {
    let h: i64 = SCALE / 2;
    Model {
        mesh: Mesh { triangles: cube(h) },
        aabb: Aabb { min: v(-h, -h, -h), max: v(h, h, h) },
    }
}

/// A camera on the +z axis, two units from the origin, looking at it.
fn camera_on_z_axis() -> Camera {
    let mut camera = Camera::new();
    camera.translation = Transform3::translation(v(0, 0, -2_000_000));
    camera
}

#[test]
fn ray_cast_hits_front_face_center() {
    let camera = camera_on_z_axis();
    let model = unit_cube_model();
    let cursor = NormalizedScreenPosition { x: 0, y: 0 };
    // The cursor at the screen center resolves to the center of the
    // cube's +z face, exactly.
    let fp = camera.focus_point(Some(cursor), &model);
    assert_eq!(fp.0, v(0, 0, 500_000));
}

#[test]
fn ray_cast_without_cursor_falls_back_to_center() {
    let camera = camera_on_z_axis();
    let model = unit_cube_model();
    let fp = camera.focus_point(None, &model);
    assert_eq!(fp.0, v(0, 0, 0));
}

#[test]
fn ray_cast_missing_the_model_falls_back_to_center() {
    let camera = camera_on_z_axis();
    let model = unit_cube_model();
    // A cursor far toward the screen corner sends the ray past every
    // face of the cube.
    let cursor = NormalizedScreenPosition { x: 9 * SCALE / 10, y: 9 * SCALE / 10 };
    let fp = camera.focus_point(Some(cursor), &model);
    assert_eq!(fp.0, v(0, 0, 0));
}

#[test]
fn ray_cast_empty_mesh_falls_back_to_center() {
    let camera = camera_on_z_axis();
    let model = Model {
        mesh: Mesh { triangles: vec![] },
        aabb: Aabb { min: v(-500_000, -500_000, -500_000), max: v(500_000, 500_000, 500_000) },
    };
    let cursor = NormalizedScreenPosition { x: 0, y: 0 };
    let fp = camera.focus_point(Some(cursor), &model);
    assert_eq!(fp.0, v(0, 0, 0));
}

#[test]
fn ray_cast_accepts_reversed_winding() {
    // Back-face culling is disabled: a clockwise triangle is hit too.
    let camera = camera_on_z_axis();
    let h: i64 = SCALE;
    let model = Model {
        mesh: Mesh {
            triangles: vec![tri(v(-h, -h, 0), v(h, h, 0), v(h, -h, 0))],
        },
        aabb: Aabb { min: v(-h, -h, -h), max: v(h, h, 0) },
    };
    let cursor = NormalizedScreenPosition { x: 0, y: 0 };
    let fp = camera.focus_point(Some(cursor), &model);
    // A hit at the origin, not the box center (0, 0, -0.5).
    assert_eq!(fp.0, v(0, 0, 0));
}

#[test]
fn ray_cast_rejects_triangle_behind_the_ray() {
    // A triangle behind the camera would need a negative parameter.
    let camera = camera_on_z_axis();
    let h: i64 = SCALE;
    let model = Model {
        mesh: Mesh {
            triangles: vec![tri(v(-h, -h, 5 * SCALE), v(h, -h, 5 * SCALE), v(h, h, 5 * SCALE))],
        },
        aabb: Aabb { min: v(-h, -h, -h), max: v(h, h, h) },
    };
    let cursor = NormalizedScreenPosition { x: 0, y: 0 };
    let fp = camera.focus_point(Some(cursor), &model);
    assert_eq!(fp.0, v(0, 0, 0));
}

#[test]
fn zoom_overflow_leaves_camera_unchanged() {
    let mut camera = camera_on_z_axis();
    let before = camera;
    // A delta at the edge of the range overflows the displacement, and
    // the checked handler backs out completely.
    Zoom::apply(FIX_MAX, FocusPoint(v(0, 0, 0)), &mut camera);
    assert_eq!(camera, before);
}

#[test]
fn rotation_with_out_of_range_angle_leaves_camera_unchanged() {
    let mut camera = camera_on_z_axis();
    let before = camera;
    Rotation::apply(FIX_MAX + 1, 0, FocusPoint(v(0, 0, 0)), &mut camera);
    assert_eq!(camera, before);
}

#[test]
fn zero_rotation_leaves_camera_unchanged() {
    let mut camera = camera_on_z_axis();
    let before = camera;
    Rotation::apply(0, 0, FocusPoint(v(300_000, -400_000, 0)), &mut camera);
    assert_eq!(camera, before);
}

#[test]
fn rotation_about_x_axis_by_one_radian() {
    let mut camera = Camera::new();
    Rotation::apply(SCALE, 0, FocusPoint(v(0, 0, 0)), &mut camera);
    // The axis-angle matrix about x with the series sine and cosine of
    // one radian: rows (1, 0, 0), (0, cos, -sin), (0, sin, cos).
    assert_eq!(camera.rotation.lin.rx, v(SCALE, 0, 0));
    assert_eq!(camera.rotation.lin.ry, v(0, 540_278, -841_469));
    assert_eq!(camera.rotation.lin.rz, v(0, 841_469, 540_278));
    assert_eq!(camera.rotation.t, v(0, 0, 0));
    assert_eq!(camera.translation, Transform3::identity());
}

#[test]
fn zoom_moves_along_local_z_by_delta_times_distance() {
    let mut camera = camera_on_z_axis();
    // Focus at the origin, two units away; a delta of 0.5 moves the
    // model one unit closer.
    Zoom::apply(SCALE / 2, FocusPoint(v(0, 0, 0)), &mut camera);
    assert_eq!(camera.translation, Transform3::translation(v(0, 0, -1_000_000)));
    assert_eq!(camera.rotation, Transform3::identity());
}

#[test]
fn zoom_away_increases_distance() {
    let mut camera = camera_on_z_axis();
    Zoom::apply(-SCALE / 2, FocusPoint(v(0, 0, 0)), &mut camera);
    assert_eq!(camera.translation, Transform3::translation(v(0, 0, -3_000_000)));
}

#[test]
fn movement_pans_proportionally_to_focus_distance() {
    let mut camera = camera_on_z_axis();
    let previous = NormalizedScreenPosition { x: 0, y: 0 };
    let current = NormalizedScreenPosition { x: SCALE / 10, y: 0 };
    // On the near plane the cursor moved 10 fixed units; the focus
    // point is 20000 times further than the cursor plane, so the model
    // pans by 0.2 units.
    Movement::apply(previous, current, FocusPoint(v(0, 0, 0)), &mut camera);
    assert_eq!(camera.translation.t, v(200_000, 0, -2_000_000));
    assert_eq!(camera.rotation, Transform3::identity());
}

#[test]
fn handler_routes_zoom_events() {
    let mut camera = camera_on_z_axis();
    InputHandler::handle_event(InputEvent::Zoom(SCALE / 2), FocusPoint(v(0, 0, 0)), &mut camera);
    assert_eq!(camera.translation, Transform3::translation(v(0, 0, -1_000_000)));
}

#[test]
fn handler_routes_rotation_events() {
    let mut camera = Camera::new();
    InputHandler::handle_event(
        InputEvent::Rotation { angle_x: SCALE, angle_y: 0 },
        FocusPoint(v(0, 0, 0)),
        &mut camera,
    );
    assert_eq!(camera.rotation.lin.ry, v(0, 540_278, -841_469));
}

#[test]
fn handler_routes_translation_events() {
    let mut camera = camera_on_z_axis();
    InputHandler::handle_event(
        InputEvent::Translation {
            previous: NormalizedScreenPosition { x: 0, y: 0 },
            current: NormalizedScreenPosition { x: SCALE / 10, y: 0 },
        },
        FocusPoint(v(0, 0, 0)),
        &mut camera,
    );
    assert_eq!(camera.translation.t, v(200_000, 0, -2_000_000));
}

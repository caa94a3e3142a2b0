//! Camera math: the view transform, world position, cursor projection
//! and clip-plane fitting, on exact fixed-point values.

use viewer_core::camera::{Camera, DEFAULT_FAR_PLANE, DEFAULT_NEAR_PLANE};
use viewer_core::geometry::{Mat3, Transform3, Vec3};
use viewer_core::scene::Aabb;
use viewer_core::screen::NormalizedScreenPosition;
use viewer_core::SCALE;

fn v(x: i64, y: i64, z: i64) -> Vec3 {
    Vec3 { x, y, z }
}

#[test]
fn new_camera_has_identity_transforms_and_default_planes() {
    let camera = Camera::new();
    assert_eq!(camera.rotation, Transform3::identity());
    assert_eq!(camera.translation, Transform3::identity());
    assert_eq!(camera.near_plane(), DEFAULT_NEAR_PLANE);
    assert_eq!(camera.far_plane(), DEFAULT_FAR_PLANE);
}

#[test]
fn camera_to_model_is_translation_after_rotation() {
    // With a pure translation and the identity rotation, the composed
    // transform keeps both parts exactly.
    let mut camera = Camera::new();
    camera.translation = Transform3::translation(v(1_000_000, -2_000_000, 3_000_000));
    let c2m = camera.camera_to_model();
    assert_eq!(c2m.lin, Mat3::identity());
    assert_eq!(c2m.t, v(1_000_000, -2_000_000, 3_000_000));
}

#[test]
fn position_inverts_the_translation() {
    let mut camera = Camera::new();
    camera.translation = Transform3::translation(v(0, 0, -2_000_000));
    // The camera sits two units up the +z axis in world space.
    assert_eq!(camera.position(), v(0, 0, 2_000_000));
}

#[test]
fn cursor_center_projects_onto_near_plane() {
    let mut camera = Camera::new();
    camera.translation = Transform3::translation(v(0, 0, -2_000_000));
    let center = NormalizedScreenPosition { x: 0, y: 0 };
    // The center cursor lands one near-distance in front of the camera.
    assert_eq!(
        camera.cursor_to_model_space(center),
        v(0, 0, 2_000_000 - DEFAULT_NEAR_PLANE)
    );
}

#[test]
fn cursor_corner_scales_with_near_plane() {
    let camera = Camera::new();
    let corner = NormalizedScreenPosition { x: SCALE, y: -SCALE };
    // With a 90-degree field of view the focal scale is the near
    // distance itself.
    assert_eq!(
        camera.cursor_to_model_space(corner),
        v(DEFAULT_NEAR_PLANE, -DEFAULT_NEAR_PLANE, -DEFAULT_NEAR_PLANE)
    );
}

#[test]
fn init_planes_frames_a_symmetric_box() {
    let mut camera = Camera::new();
    let aabb = Aabb {
        min: v(-1_000_000, -1_000_000, -1_000_000),
        max: v(1_000_000, 1_000_000, 1_000_000),
    };
    camera.init_planes(&aabb);
    // Highest point 1, furthest extent 1 doubled: distance 3 along -z,
    // horizontal center already at the origin.
    assert_eq!(camera.translation, Transform3::translation(v(0, 0, -3_000_000)));
    assert_eq!(camera.rotation, Transform3::identity());
}

#[test]
fn init_planes_centers_an_asymmetric_box() {
    let mut camera = Camera::new();
    let aabb = Aabb {
        min: v(-2_000_000, -1_000_000, -1_000_000),
        max: v(1_000_000, 3_000_000, 1_000_000),
    };
    camera.init_planes(&aabb);
    // Furthest extent is |max.y| = 3; distance = 1 + 2 * 3 = 7; the
    // horizontal center (-0.5, 1) moves to the origin.
    assert_eq!(
        camera.translation,
        Transform3::translation(v(500_000, -1_000_000, -7_000_000))
    );
}

#[test]
fn update_planes_brackets_the_box() {
    let mut camera = Camera::new();
    camera.translation = Transform3::translation(v(0, 0, -3_000_000));
    let aabb = Aabb {
        min: v(-1_000_000, -1_000_000, -1_000_000),
        max: v(1_000_000, 1_000_000, 1_000_000),
    };
    camera.update_planes(&aabb);
    // Corner depths span [2, 4]; the near plane halves the closest.
    assert_eq!(camera.near_plane(), 1_000_000);
    assert_eq!(camera.far_plane(), 4_000_000);
    assert!(camera.near_plane() > 0);
    assert!(camera.near_plane() < camera.far_plane());
}

#[test]
fn update_planes_with_degenerate_box_uses_defaults() {
    let mut camera = Camera::new();
    let aabb = Aabb { min: v(0, 0, 0), max: v(0, 0, 0) };
    camera.update_planes(&aabb);
    assert_eq!(camera.near_plane(), DEFAULT_NEAR_PLANE);
    assert_eq!(camera.far_plane(), DEFAULT_FAR_PLANE);
}

#[test]
fn update_planes_box_behind_camera_still_positive() {
    let mut camera = Camera::new();
    // The camera sits at -5 on the z axis, the box around the origin:
    // every corner is behind the view direction, yet the projected
    // magnitudes still give positive planes.
    camera.translation = Transform3::translation(v(0, 0, 5_000_000));
    let aabb = Aabb {
        min: v(-1_000_000, -1_000_000, -1_000_000),
        max: v(1_000_000, 1_000_000, 1_000_000),
    };
    camera.update_planes(&aabb);
    assert_eq!(camera.near_plane(), 2_000_000);
    assert_eq!(camera.far_plane(), 6_000_000);
}

#[test]
fn field_of_view_is_ninety_degrees() {
    let camera = Camera::new();
    // pi/2 in fixed-point radians.
    assert_eq!(camera.field_of_view_in_x(), 1_570_796);
    let fov = camera.field_of_view_in_x() as f64 / SCALE as f64;
    assert!((fov - std::f64::consts::FRAC_PI_2).abs() < 1e-6);
}

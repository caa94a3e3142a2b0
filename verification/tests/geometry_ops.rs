//! Exact-value tests for the rigid-transform operations.

use viewer_core::geometry::{
    apply, compose, cross, dot, inv_rigid, mat_mat, normalize, rot_from_scaled_axis, Mat3,
    Transform3, Vec3,
};
use viewer_core::SCALE;

fn v(x: i64, y: i64, z: i64) -> Vec3 {
    Vec3 { x, y, z }
}

#[test]
fn translation_applies_as_offset() {
    let tr = Transform3::translation(v(1_000_000, 0, -2_000_000));
    let p = apply(&tr, &v(500_000, 500_000, 500_000)).unwrap();
    assert_eq!(p, v(1_500_000, 500_000, -1_500_000));
}

#[test]
fn inverse_of_translation_negates_the_offset() {
    let tr = Transform3::translation(v(1_000_000, -2_000_000, 3_000_000));
    let inv = inv_rigid(&tr).unwrap();
    assert_eq!(inv.lin, Mat3::identity());
    assert_eq!(inv.t, v(-1_000_000, 2_000_000, -3_000_000));
}

#[test]
fn translation_and_its_inverse_cancel() {
    let tr = Transform3::translation(v(123_456, -654_321, 42));
    let inv = inv_rigid(&tr).unwrap();
    let both = compose(&tr, &inv).unwrap();
    assert_eq!(both, Transform3::identity());
}

#[test]
fn composing_translations_sums_offsets() {
    let a = Transform3::translation(v(1_000_000, 0, 0));
    let b = Transform3::translation(v(0, 2_000_000, -500_000));
    let c = compose(&a, &b).unwrap();
    assert_eq!(c.lin, Mat3::identity());
    assert_eq!(c.t, v(1_000_000, 2_000_000, -500_000));
}

#[test]
fn cross_product_of_axes() {
    // x cross y == z at unit scale.
    let x = v(SCALE, 0, 0);
    let y = v(0, SCALE, 0);
    assert_eq!(cross(&x, &y).unwrap(), v(0, 0, SCALE));
    assert_eq!(cross(&y, &x).unwrap(), v(0, 0, -SCALE));
}

#[test]
fn dot_product_at_unit_scale() {
    let a = v(SCALE, 2 * SCALE, 0);
    let b = v(3 * SCALE, SCALE, 7 * SCALE);
    // 1*3 + 2*1 + 0*7 == 5
    assert_eq!(dot(&a, &b).unwrap(), 5 * SCALE);
}

#[test]
fn normalize_scales_to_unit_length() {
    assert_eq!(normalize(&v(0, 0, -100)).unwrap(), v(0, 0, -SCALE));
    assert_eq!(normalize(&v(3_000_000, 4_000_000, 0)).unwrap(), v(600_000, 800_000, 0));
    assert_eq!(normalize(&v(0, 0, 0)), None);
}

#[test]
fn transpose_is_an_involution() {
    let m = Mat3 {
        rx: v(1, 2, 3),
        ry: v(4, 5, 6),
        rz: v(7, 8, 9),
    };
    assert_eq!(m.transpose().transpose(), m);
    assert_eq!(m.transpose().rx, v(1, 4, 7));
}

#[test]
fn identity_multiplication_is_exact() {
    let m = Mat3 {
        rx: v(540_278, -841_469, 3),
        ry: v(841_469, 540_278, -7),
        rz: v(11, 13, SCALE),
    };
    assert_eq!(mat_mat(&Mat3::identity(), &m).unwrap(), m);
    assert_eq!(mat_mat(&m, &Mat3::identity()).unwrap(), m);
}

#[test]
fn zero_axis_rotation_is_identity() {
    assert_eq!(rot_from_scaled_axis(&v(0, 0, 0)).unwrap(), Mat3::identity());
}

#[test]
fn axis_columns_of_a_transform() {
    let tr = Transform3::identity();
    assert_eq!(tr.right_axis(), v(SCALE, 0, 0));
    assert_eq!(tr.up_axis(), v(0, SCALE, 0));
}

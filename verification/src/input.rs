//! Input handling: typed input events and the handlers that turn them
//! into camera motion.
//!
//! Every handler takes the event's parameters together with the focus
//! point of the active gesture and mutates the camera in place. Each one
//! is checked: when any intermediate value of the motion would leave the
//! storable range, the camera is left exactly as it was.

use vstd::prelude::*;
use crate::fixed::{fits, smul, sdiv, fx_mul, fx_div, FIX_MAX, SCALE};
use crate::geometry::{
    V3, T3, Vec3, Mat3, Transform3, sv_zero, sv_add, sv_sub, sv_neg, sv_mag, sm_identity,
    sm_transpose, st_translation, so_scale, so_rot_axis, so_mat_mat, so_compose, v3_fits,
    v3_bounded, m3_bounded, compose, v_sub, v_add, v_neg, v_scale, magnitude,
    rot_from_scaled_axis, mat_mat, scol_x, scol_y,
};
use crate::camera::{
    Camera, CamV, FocusPoint, cam_wf, scam_to_model, sposition, scursor_to_model, ROT_MAX,
    TRANS_MAX, FOCUS_MAX,
};
use crate::screen::NormalizedScreenPosition;

verus! {

/// An input event: one tick of a user gesture.
#[derive(Clone, Copy, PartialEq, Eq, Structural, Debug)]
pub enum InputEvent {
    /// Move the model sideways, between two successive cursor positions.
    Translation {
        previous: NormalizedScreenPosition,
        current: NormalizedScreenPosition,
    },
    /// Rotate the model around the focus point, by two angles in
    /// fixed-point radians.
    Rotation { angle_x: i64, angle_y: i64 },
    /// Move the model towards or away from the camera.
    Zoom(i64),
}

impl InputEvent {
    /// Cursor positions carried by the event are normalized.
    pub open spec fn wf(&self) -> bool {
        match *self {
            InputEvent::Translation { previous, current } => previous.wf() && current.wf(),
            _ => true,
        }
    }
}

/// The camera state a rotation event carries a camera to, or `None` when
/// any step of the motion leaves the storable range (the camera is then
/// left unchanged).
///
/// The model rotates, not the camera: the current rotation is inverted to
/// find the model-relative right and up axes, an incremental rotation
/// about the right axis (by `angle_x`) is composed after one about the up
/// axis (by `angle_y`), and the whole camera-to-model transform is
/// conjugated by a translation to the focus point, so the model turns
/// about the focus point. The rotational and translational parts of the
/// result are then extracted and stored back.
pub open spec fn srotation_applied(cam: CamV, ax: int, ay: int, fp: V3) -> Option<CamV> {
    if !fits(ax) || !fits(ay) {
        None
    } else {
        let inv_lin = sm_transpose(cam.rotation.lin);
        let right = scol_x(inv_lin);
        let up = scol_y(inv_lin);
        match (so_scale(right, ax), so_scale(up, ay)) {
            (Some(vx), Some(vy)) => match (so_rot_axis(vx), so_rot_axis(vy)) {
                (Some(rx), Some(ry)) => match so_mat_mat(rx, ry) {
                    Some(rot) => {
                        let c2m = scam_to_model(cam);
                        match so_compose(c2m, st_translation(fp)) {
                            Some(t1) => match so_compose(t1, T3 { lin: rot, t: sv_zero() }) {
                                Some(t2) => match so_compose(
                                    t2,
                                    T3 { lin: sm_identity(), t: sv_neg(fp) },
                                ) {
                                    Some(t3) => {
                                        if m3_bounded(t3.lin, ROT_MAX as int) && v3_bounded(
                                            t3.t,
                                            TRANS_MAX as int,
                                        ) {
                                            Some(
                                                CamV {
                                                    rotation: T3 { lin: t3.lin, t: sv_zero() },
                                                    translation: T3 {
                                                        lin: sm_identity(),
                                                        t: t3.t,
                                                    },
                                                    near: cam.near,
                                                    far: cam.far,
                                                },
                                            )
                                        } else {
                                            None
                                        }
                                    },
                                    None => None,
                                },
                                None => None,
                            },
                            None => None,
                        }
                    },
                    None => None,
                },
                _ => None,
            },
            _ => None,
        }
    }
}

/// Rotation of the model around the focus point.
pub struct Rotation;

impl Rotation {
    /// Apply a rotation event to the camera; on any overflow the camera
    /// is left unchanged.
    pub fn apply(angle_x: i64, angle_y: i64, focus_point: FocusPoint, camera: &mut Camera)
        requires
            old(camera).wf(),
            focus_point.wf(),
        ensures
            final(camera).wf(),
            match srotation_applied(old(camera)@, angle_x as int, angle_y as int, focus_point.0@) {
                Some(c) => final(camera)@ == c,
                None => final(camera)@ == old(camera)@,
            },
    {
        if angle_x < -FIX_MAX || angle_x > FIX_MAX || angle_y < -FIX_MAX || angle_y > FIX_MAX {
            return ;
        }
        // The model rotates, not the camera, so invert the rotation.
        let inv = Transform3 { lin: camera.rotation.lin.transpose(), t: Vec3::zero() };
        let right = inv.right_axis();
        let up = inv.up_axis();
        let vx = match v_scale(&right, angle_x) {
            Some(v) => v,
            None => {
                return ;
            },
        };
        let vy = match v_scale(&up, angle_y) {
            Some(v) => v,
            None => {
                return ;
            },
        };
        let rx = match rot_from_scaled_axis(&vx) {
            Some(m) => m,
            None => {
                return ;
            },
        };
        let ry = match rot_from_scaled_axis(&vy) {
            Some(m) => m,
            None => {
                return ;
            },
        };
        let rot = match mat_mat(&rx, &ry) {
            Some(m) => m,
            None => {
                return ;
            },
        };
        let c2m = camera.camera_to_model();
        let rotate_around = Transform3::translation(focus_point.0);
        let t1 = match compose(&c2m, &rotate_around) {
            Some(t) => t,
            None => {
                return ;
            },
        };
        let t2 = match compose(&t1, &Transform3 { lin: rot, t: Vec3::zero() }) {
            Some(t) => t,
            None => {
                return ;
            },
        };
        let around_inv = Transform3 { lin: Mat3::identity(), t: v_neg(&focus_point.0) };
        let t3 = match compose(&t2, &around_inv) {
            Some(t) => t,
            None => {
                return ;
            },
        };
        let lin_ok = t3.lin.rx.x >= -ROT_MAX && t3.lin.rx.x <= ROT_MAX && t3.lin.rx.y >= -ROT_MAX
            && t3.lin.rx.y <= ROT_MAX && t3.lin.rx.z >= -ROT_MAX && t3.lin.rx.z <= ROT_MAX
            && t3.lin.ry.x >= -ROT_MAX && t3.lin.ry.x <= ROT_MAX && t3.lin.ry.y >= -ROT_MAX
            && t3.lin.ry.y <= ROT_MAX && t3.lin.ry.z >= -ROT_MAX && t3.lin.ry.z <= ROT_MAX
            && t3.lin.rz.x >= -ROT_MAX && t3.lin.rz.x <= ROT_MAX && t3.lin.rz.y >= -ROT_MAX
            && t3.lin.rz.y <= ROT_MAX && t3.lin.rz.z >= -ROT_MAX && t3.lin.rz.z <= ROT_MAX;
        let t_ok = t3.t.x >= -TRANS_MAX && t3.t.x <= TRANS_MAX && t3.t.y >= -TRANS_MAX && t3.t.y
            <= TRANS_MAX && t3.t.z >= -TRANS_MAX && t3.t.z <= TRANS_MAX;
        if !(lin_ok && t_ok) {
            return ;
        }
        camera.rotation = Transform3 { lin: t3.lin, t: Vec3::zero() };
        camera.translation = Transform3 { lin: Mat3::identity(), t: t3.t };
    }
}

/// The camera state a zoom event carries a camera to, or `None` when the
/// motion leaves the storable range (the camera is then left unchanged).
///
/// The zoom speed scales with the distance to the focus point, for a
/// constant angular feel: the displacement is the zoom delta times that
/// distance, applied along the camera's local z axis.
pub open spec fn szoom_applied(cam: CamV, delta: int, fp: V3) -> Option<CamV> {
    if !fits(delta) {
        None
    } else {
        let dist = sv_mag(sv_sub(fp, sposition(cam)));
        if !fits(dist) {
            None
        } else {
            let disp = smul(delta, dist);
            if !fits(disp) {
                None
            } else {
                let nz = cam.translation.t.z + disp;
                if -(TRANS_MAX as int) <= nz <= TRANS_MAX as int {
                    Some(
                        CamV {
                            rotation: cam.rotation,
                            translation: T3 {
                                lin: sm_identity(),
                                t: V3 { x: cam.translation.t.x, y: cam.translation.t.y, z: nz },
                            },
                            near: cam.near,
                            far: cam.far,
                        },
                    )
                } else {
                    None
                }
            }
        }
    }
}

/// Zoom towards or away from the focus point.
pub struct Zoom;

impl Zoom {
    /// Apply a zoom event to the camera; on any overflow the camera is
    /// left unchanged.
    pub fn apply(zoom_delta: i64, focus_point: FocusPoint, camera: &mut Camera)
        requires
            old(camera).wf(),
            focus_point.wf(),
        ensures
            final(camera).wf(),
            match szoom_applied(old(camera)@, zoom_delta as int, focus_point.0@) {
                Some(c) => final(camera)@ == c,
                None => final(camera)@ == old(camera)@,
            },
    {
        if zoom_delta < -FIX_MAX || zoom_delta > FIX_MAX {
            return ;
        }
        let pos = camera.position();
        let dv = match v_sub(&focus_point.0, &pos) {
            Some(v) => v,
            None => {
                proof {
                    assert(false);
                }
                return ;
            },
        };
        let dist = match magnitude(&dv) {
            Some(m) => m,
            None => {
                return ;
            },
        };
        let disp = match fx_mul(zoom_delta, dist) {
            Some(v) => v,
            None => {
                return ;
            },
        };
        // Move along the camera's local z axis: composing the pure
        // translation with `translate(0, 0, disp)` offsets only z.
        let nz: i64 = camera.translation.t.z + disp;
        if nz < -TRANS_MAX || nz > TRANS_MAX {
            return ;
        }
        camera.translation = Transform3 {
            lin: Mat3::identity(),
            t: Vec3 { x: camera.translation.t.x, y: camera.translation.t.y, z: nz },
        };
    }
}

/// The camera state a pan event carries a camera to, or `None` when the
/// motion leaves the storable range (the camera is then left unchanged).
///
/// The on-screen cursor delta is carried into model space on the near
/// plane and scaled by the ratio of the focus-point distance to the
/// near-plane distance, so that at the focus point's depth the model
/// follows the cursor one to one.
pub open spec fn smovement_applied(
    cam: CamV,
    prev: NormalizedScreenPosition,
    curr: NormalizedScreenPosition,
    fp: V3,
) -> Option<CamV> {
    let pp = scursor_to_model(cam, prev);
    let cp = scursor_to_model(cam, curr);
    let pos = sposition(cam);
    let d1 = sv_mag(sv_sub(cp, pos));
    let d2 = sv_mag(sv_sub(fp, pos));
    if !fits(d1) || !fits(d2) || d1 == 0 {
        None
    } else {
        let ratio = sdiv(d2, d1);
        if !fits(ratio) {
            None
        } else {
            match so_scale(sv_sub(cp, pp), ratio) {
                Some(off) => {
                    let nt = sv_add(cam.translation.t, off);
                    if v3_bounded(nt, TRANS_MAX as int) {
                        Some(
                            CamV {
                                rotation: cam.rotation,
                                translation: T3 { lin: sm_identity(), t: nt },
                                near: cam.near,
                                far: cam.far,
                            },
                        )
                    } else {
                        None
                    }
                },
                None => None,
            }
        }
    }
}

/// Sideways movement of the model, following the cursor.
pub struct Movement;

impl Movement {
    /// Apply a pan event to the camera; on any overflow or a degenerate
    /// cursor ray the camera is left unchanged.
    pub fn apply(
        previous: NormalizedScreenPosition,
        current: NormalizedScreenPosition,
        focus_point: FocusPoint,
        camera: &mut Camera,
    )
        requires
            old(camera).wf(),
            focus_point.wf(),
            previous.wf(),
            current.wf(),
        ensures
            final(camera).wf(),
            match smovement_applied(old(camera)@, previous, current, focus_point.0@) {
                Some(c) => final(camera)@ == c,
                None => final(camera)@ == old(camera)@,
            },
    {
        let pp = camera.cursor_to_model_space(previous);
        let cp = camera.cursor_to_model_space(current);
        let pos = camera.position();
        let dv1 = match v_sub(&cp, &pos) {
            Some(v) => v,
            None => {
                proof {
                    assert(false);
                }
                return ;
            },
        };
        let d1 = match magnitude(&dv1) {
            Some(m) => m,
            None => {
                return ;
            },
        };
        let dv2 = match v_sub(&focus_point.0, &pos) {
            Some(v) => v,
            None => {
                proof {
                    assert(false);
                }
                return ;
            },
        };
        let d2 = match magnitude(&dv2) {
            Some(m) => m,
            None => {
                return ;
            },
        };
        if d1 == 0 {
            return ;
        }
        let ratio = match fx_div(d2, d1) {
            Some(v) => v,
            None => {
                return ;
            },
        };
        let delta = match v_sub(&cp, &pp) {
            Some(v) => v,
            None => {
                proof {
                    assert(false);
                }
                return ;
            },
        };
        let off = match v_scale(&delta, ratio) {
            Some(v) => v,
            None => {
                return ;
            },
        };
        let nt = match v_add(&camera.translation.t, &off) {
            Some(v) => v,
            None => {
                return ;
            },
        };
        if nt.x < -TRANS_MAX || nt.x > TRANS_MAX || nt.y < -TRANS_MAX || nt.y > TRANS_MAX || nt.z
            < -TRANS_MAX || nt.z > TRANS_MAX {
            return ;
        }
        camera.translation = Transform3 { lin: Mat3::identity(), t: nt };
    }
}

/// The camera state any input event carries a camera to: the matching
/// handler's result where its motion fits, the old state otherwise.
pub open spec fn shandle_event(cam: CamV, ev: InputEvent, fp: V3) -> CamV {
    match ev {
        InputEvent::Translation { previous, current } => {
            match smovement_applied(cam, previous, current, fp) {
                Some(c) => c,
                None => cam,
            }
        },
        InputEvent::Rotation { angle_x, angle_y } => {
            match srotation_applied(cam, angle_x as int, angle_y as int, fp) {
                Some(c) => c,
                None => cam,
            }
        },
        InputEvent::Zoom(delta) => {
            match szoom_applied(cam, delta as int, fp) {
                Some(c) => c,
                None => cam,
            }
        },
    }
}

/// Rotating by zero angles leaves the camera exactly unchanged: the
/// incremental rotation is the identity, and conjugating by the pivot
/// translation cancels exactly, because truncation toward zero is
/// symmetric under negation.
pub proof fn lemma_zero_rotation_identity(c: CamV, fp: V3)
    requires
        cam_wf(c),
        v3_bounded(fp, FOCUS_MAX as int),
    ensures
        shandle_event(c, InputEvent::Rotation { angle_x: 0, angle_y: 0 }, fp) == c,
{
    let inv_lin = sm_transpose(c.rotation.lin);
    let right = scol_x(inv_lin);
    let up = scol_y(inv_lin);
    vstd::arithmetic::div_mod::lemma_div_of0(SCALE as int);
    assert(so_scale(right, 0) == Some(sv_zero()));
    assert(so_scale(up, 0) == Some(sv_zero()));
    assert(so_rot_axis(sv_zero()) == Some(sm_identity()));
    crate::geometry::lemma_identity_mat_left(sm_identity());
    let r = c.rotation.lin;
    let t0 = c.translation.t;
    crate::geometry::lemma_identity_mat_right(r);
    crate::geometry::lemma_mat_vec_zero(r);
    let c2m = scam_to_model(c);
    match crate::geometry::so_mat_vec(r, fp) {
        None => {
            assert(so_compose(c2m, st_translation(fp)) is None);
        },
        Some(w0) => {
            let w = sv_add(w0, t0);
            if !crate::geometry::v3_fits(w) {
                assert(so_compose(c2m, st_translation(fp)) is None);
            } else {
                assert(so_compose(c2m, st_translation(fp)) == Some(T3 { lin: r, t: w }));
                assert(so_compose(T3 { lin: r, t: w }, T3 { lin: sm_identity(), t: sv_zero() })
                    == Some(T3 { lin: r, t: w }));
                crate::geometry::lemma_mat_vec_neg(r, fp);
                assert(crate::geometry::so_mat_vec(r, sv_neg(fp)) == Some(sv_neg(w0)));
                assert(sv_add(sv_neg(w0), w) == t0);
                assert(so_compose(T3 { lin: r, t: w }, T3 { lin: sm_identity(), t: sv_neg(fp) })
                    == Some(T3 { lin: r, t: t0 }));
                assert(srotation_applied(c, 0, 0, fp) == Some(c));
            }
        },
    }
}

/// Input handling abstraction.
///
/// Takes user input and applies it to the camera.
pub struct InputHandler;

impl InputHandler {
    /// Handle an input event: route it to the matching handler.
    pub fn handle_event(event: InputEvent, focus_point: FocusPoint, camera: &mut Camera)
        requires
            old(camera).wf(),
            focus_point.wf(),
            event.wf(),
        ensures
            final(camera).wf(),
            final(camera)@ == shandle_event(old(camera)@, event, focus_point.0@),
    {
        match event {
            InputEvent::Translation { previous, current } => {
                Movement::apply(previous, current, focus_point, camera);
            },
            InputEvent::Rotation { angle_x, angle_y } => {
                Rotation::apply(angle_x, angle_y, focus_point, camera);
            },
            InputEvent::Zoom(zoom_delta) => {
                Zoom::apply(zoom_delta, focus_point, camera);
            },
        }
    }
}

} // verus!

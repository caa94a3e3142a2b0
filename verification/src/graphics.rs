//! Per-frame data for a rendering backend: the uniform transforms derived
//! from the camera, and the selection of geometry passes.
//!
//! The GPU-specific submission mechanics live outside this library; what
//! is computed here is the pair of 4x4 transforms a backend writes into
//! its per-frame uniform buffer, and the draw toggles that gate which
//! passes it submits.

use vstd::prelude::*;
use crate::fixed::{fits, smul, sdiv, fx_mul, fx_div, FIX_MAX, SCALE};
use crate::camera::{Camera, CamV, sinv_lin, sposition};
use crate::screen::ScreenSize;

verus! {

/// Draw configuration: which geometry passes are submitted. The two
/// toggles are independent.
#[derive(Clone, Copy, PartialEq, Eq, Structural, Debug)]
pub struct DrawConfig {
    /// Whether the solid model pass is drawn.
    pub draw_model: bool,
    /// Whether the wireframe mesh pass is drawn.
    pub draw_mesh: bool,
}

impl Default for DrawConfig {
    /// The solid model is drawn, the wireframe is not.
    fn default() -> (r: Self)
        ensures
            r.draw_model == true,
            r.draw_mesh == false,
    {
        DrawConfig { draw_model: true, draw_mesh: false }
    }
}

/// Ghost model of a 4-vector.
pub ghost struct V4 {
    pub x: int,
    pub y: int,
    pub z: int,
    pub w: int,
}

/// Ghost model of a 4x4 matrix, held by rows.
pub ghost struct M4 {
    pub rx: V4,
    pub ry: V4,
    pub rz: V4,
    pub rw: V4,
}

/// An executable 4-vector of fixed-point components.
#[derive(Clone, Copy, PartialEq, Eq, Structural, Debug)]
pub struct Vec4 {
    pub x: i64,
    pub y: i64,
    pub z: i64,
    pub w: i64,
}

impl View for Vec4 {
    type V = V4;

    open spec fn view(&self) -> V4 {
        V4 { x: self.x as int, y: self.y as int, z: self.z as int, w: self.w as int }
    }
}

/// An executable 4x4 matrix, held by rows.
#[derive(Clone, Copy, PartialEq, Eq, Structural, Debug)]
pub struct Mat4 {
    pub rx: Vec4,
    pub ry: Vec4,
    pub rz: Vec4,
    pub rw: Vec4,
}

impl View for Mat4 {
    type V = M4;

    open spec fn view(&self) -> M4 {
        M4 { rx: self.rx@, ry: self.ry@, rz: self.rz@, rw: self.rw@ }
    }
}

/// Aspect ratio of a screen as a fixed-point scalar: width over height.
pub open spec fn saspect(size: ScreenSize) -> int {
    sdiv(size.width as int, size.height as int)
}

/// The transform for normals: the rotation part of the model-to-camera
/// transform, as a homogeneous matrix. A rigid transform carries normals
/// by its rotation alone.
pub open spec fn snormal_transform(c: CamV) -> M4 {
    let tt = sinv_lin(c);
    M4 {
        rx: V4 { x: tt.rx.x, y: tt.rx.y, z: tt.rx.z, w: 0 },
        ry: V4 { x: tt.ry.x, y: tt.ry.y, z: tt.ry.z, w: 0 },
        rz: V4 { x: tt.rz.x, y: tt.rz.y, z: tt.rz.z, w: 0 },
        rw: V4 { x: 0, y: 0, z: 0, w: SCALE as int },
    }
}

/// The transform for vertices: a perspective projection composed after
/// the model-to-camera transform, or `None` when the screen is
/// degenerate, the clip planes coincide, or an entry leaves the storable
/// range (the frame is then skipped).
///
/// With the 90-degree horizontal field of view the horizontal focal scale
/// is exactly one, so the first row is the model-to-camera x row as it
/// is; the second row is scaled by the aspect ratio; the third maps depth
/// into `[0, 1]` between the clip planes; the fourth carries `-z`.
pub open spec fn svertex_transform(c: CamV, size: ScreenSize) -> Option<M4> {
    if size.height == 0 || size.width == 0 || !fits(saspect(size)) {
        None
    } else {
        let a = saspect(size);
        let tt = sinv_lin(c);
        let pos = sposition(c);
        if c.near == c.far || !fits(sdiv(c.far, c.near - c.far)) {
            None
        } else {
            let p22 = sdiv(c.far, c.near - c.far);
            if !fits(smul(c.near, p22)) {
                None
            } else {
                let p23 = smul(c.near, p22);
                let m10 = smul(a, tt.ry.x);
                let m11 = smul(a, tt.ry.y);
                let m12 = smul(a, tt.ry.z);
                let m13 = smul(a, pos.y);
                let m20 = smul(p22, tt.rz.x);
                let m21 = smul(p22, tt.rz.y);
                let m22 = smul(p22, tt.rz.z);
                let m23 = smul(p22, pos.z) + p23;
                if fits(m10) && fits(m11) && fits(m12) && fits(m13) && fits(m20) && fits(m21)
                    && fits(m22) && fits(smul(p22, pos.z)) && fits(m23) {
                    Some(
                        M4 {
                            rx: V4 { x: tt.rx.x, y: tt.rx.y, z: tt.rx.z, w: pos.x },
                            ry: V4 { x: m10, y: m11, z: m12, w: m13 },
                            rz: V4 { x: m20, y: m21, z: m22, w: m23 },
                            rw: V4 { x: -tt.rz.x, y: -tt.rz.y, z: -tt.rz.z, w: -pos.z },
                        },
                    )
                } else {
                    None
                }
            }
        }
    }
}

/// Everything a rendering backend needs for one frame: the two uniform
/// transforms, and which passes to submit.
#[derive(Clone, Copy, PartialEq, Eq, Structural, Debug)]
pub struct Frame {
    /// Transform applied to vertices.
    pub transform: Mat4,
    /// Transform applied to normals.
    pub transform_normals: Mat4,
    /// Whether the solid model pass is submitted.
    pub draw_model: bool,
    /// Whether the wireframe mesh pass is submitted.
    pub draw_mesh: bool,
}

/// The transform for normals, from the camera.
pub fn normal_transform(camera: &Camera) -> (r: Mat4)
    requires
        camera.wf(),
    ensures
        r@ == snormal_transform(camera@),
{
    let tt = camera.rotation.lin.transpose();
    Mat4 {
        rx: Vec4 { x: tt.rx.x, y: tt.rx.y, z: tt.rx.z, w: 0 },
        ry: Vec4 { x: tt.ry.x, y: tt.ry.y, z: tt.ry.z, w: 0 },
        rz: Vec4 { x: tt.rz.x, y: tt.rz.y, z: tt.rz.z, w: 0 },
        rw: Vec4 { x: 0, y: 0, z: 0, w: SCALE },
    }
}

/// The transform for vertices, from the camera and the screen size.
pub fn vertex_transform(camera: &Camera, size: ScreenSize) -> (r: Option<Mat4>)
    requires
        camera.wf(),
    ensures
        match r {
            Some(m) => svertex_transform(camera@, size) == Some(m@),
            None => svertex_transform(camera@, size) is None,
        },
{
    if size.height == 0 || size.width == 0 {
        return None;
    }
    let a = match fx_div(size.width as i64, size.height as i64) {
        Some(a) => a,
        None => {
            return None;
        },
    };
    let tt = camera.rotation.lin.transpose();
    let pos = camera.position();
    let denom: i64 = camera.near_plane() - camera.far_plane();
    if denom == 0 {
        return None;
    }
    let p22 = match fx_div(camera.far_plane(), denom) {
        Some(v) => v,
        None => {
            return None;
        },
    };
    let p23 = match fx_mul(camera.near_plane(), p22) {
        Some(v) => v,
        None => {
            return None;
        },
    };
    let m10 = match fx_mul(a, tt.ry.x) {
        Some(v) => v,
        None => {
            return None;
        },
    };
    let m11 = match fx_mul(a, tt.ry.y) {
        Some(v) => v,
        None => {
            return None;
        },
    };
    let m12 = match fx_mul(a, tt.ry.z) {
        Some(v) => v,
        None => {
            return None;
        },
    };
    let m13 = match fx_mul(a, pos.y) {
        Some(v) => v,
        None => {
            return None;
        },
    };
    let m20 = match fx_mul(p22, tt.rz.x) {
        Some(v) => v,
        None => {
            return None;
        },
    };
    let m21 = match fx_mul(p22, tt.rz.y) {
        Some(v) => v,
        None => {
            return None;
        },
    };
    let m22 = match fx_mul(p22, tt.rz.z) {
        Some(v) => v,
        None => {
            return None;
        },
    };
    let m23a = match fx_mul(p22, pos.z) {
        Some(v) => v,
        None => {
            return None;
        },
    };
    let m23: i64 = m23a + p23;
    if m23 < -FIX_MAX || m23 > FIX_MAX {
        return None;
    }
    Some(
        Mat4 {
            rx: Vec4 { x: tt.rx.x, y: tt.rx.y, z: tt.rx.z, w: pos.x },
            ry: Vec4 { x: m10, y: m11, z: m12, w: m13 },
            rz: Vec4 { x: m20, y: m21, z: m22, w: m23 },
            rw: Vec4 { x: -tt.rz.x, y: -tt.rz.y, z: -tt.rz.z, w: -pos.z },
        },
    )
}

} // verus!

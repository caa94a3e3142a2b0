//! Vectors, 3x3 matrices and rigid transforms over fixed-point scalars.
//!
//! A rigid transform keeps its linear part and its translation separately;
//! applying it to a point multiplies by the linear part and then offsets by
//! the translation. Every operation is specified exactly over a ghost
//! integer model, with an explicit overflow gate wherever a computed
//! component might leave the storable range.

use vstd::prelude::*;
use crate::fixed::{
    fits, scomb3, smul, sdiv, smag3, tdiv, sqrt_floor, lemma_sqrt_floor, lemma_mul_bound,
    lemma_tdiv_bound, lemma_smul_fits, fx_comb3, fx_mul, fx_div, fx_mag3, FIX_MAX, SCALE,
};

verus! {

/// Ghost model of a 3-vector: exact integer components.
pub ghost struct V3 {
    pub x: int,
    pub y: int,
    pub z: int,
}

/// Ghost model of a 3x3 matrix, held by rows.
pub ghost struct M3 {
    pub rx: V3,
    pub ry: V3,
    pub rz: V3,
}

/// Ghost model of a rigid transform: linear part and translation.
pub ghost struct T3 {
    pub lin: M3,
    pub t: V3,
}

pub open spec fn v3_fits(v: V3) -> bool {
    fits(v.x) && fits(v.y) && fits(v.z)
}

pub open spec fn m3_fits(m: M3) -> bool {
    v3_fits(m.rx) && v3_fits(m.ry) && v3_fits(m.rz)
}

pub open spec fn t3_fits(t: T3) -> bool {
    m3_fits(t.lin) && v3_fits(t.t)
}

pub open spec fn sv_add(a: V3, b: V3) -> V3 {
    V3 { x: a.x + b.x, y: a.y + b.y, z: a.z + b.z }
}

pub open spec fn sv_sub(a: V3, b: V3) -> V3 {
    V3 { x: a.x - b.x, y: a.y - b.y, z: a.z - b.z }
}

pub open spec fn sv_neg(a: V3) -> V3 {
    V3 { x: -a.x, y: -a.y, z: -a.z }
}

pub open spec fn sv_zero() -> V3 {
    V3 { x: 0, y: 0, z: 0 }
}

/// Fixed-point dot product of a matrix row with a vector.
pub open spec fn srow_comb(r: V3, v: V3) -> int {
    scomb3(r.x, v.x, r.y, v.y, r.z, v.z)
}

pub open spec fn scol_x(m: M3) -> V3 {
    V3 { x: m.rx.x, y: m.ry.x, z: m.rz.x }
}

pub open spec fn scol_y(m: M3) -> V3 {
    V3 { x: m.rx.y, y: m.ry.y, z: m.rz.y }
}

pub open spec fn scol_z(m: M3) -> V3 {
    V3 { x: m.rx.z, y: m.ry.z, z: m.rz.z }
}

pub open spec fn sm_identity() -> M3 {
    M3 {
        rx: V3 { x: SCALE as int, y: 0, z: 0 },
        ry: V3 { x: 0, y: SCALE as int, z: 0 },
        rz: V3 { x: 0, y: 0, z: SCALE as int },
    }
}

pub open spec fn st_identity() -> T3 {
    T3 { lin: sm_identity(), t: sv_zero() }
}

pub open spec fn st_translation(v: V3) -> T3 {
    T3 { lin: sm_identity(), t: v }
}

pub open spec fn sm_transpose(m: M3) -> M3 {
    M3 { rx: scol_x(m), ry: scol_y(m), rz: scol_z(m) }
}

/// Matrix-vector product, gated on every component being storable.
pub open spec fn so_mat_vec(m: M3, v: V3) -> Option<V3> {
    let x = srow_comb(m.rx, v);
    let y = srow_comb(m.ry, v);
    let z = srow_comb(m.rz, v);
    if fits(x) && fits(y) && fits(z) {
        Some(V3 { x, y, z })
    } else {
        None
    }
}

/// One row of a matrix product: the row combined with each column.
pub open spec fn so_row_times(r: V3, b: M3) -> Option<V3> {
    let x = srow_comb(r, scol_x(b));
    let y = srow_comb(r, scol_y(b));
    let z = srow_comb(r, scol_z(b));
    if fits(x) && fits(y) && fits(z) {
        Some(V3 { x, y, z })
    } else {
        None
    }
}

/// Matrix product, gated on every entry being storable.
pub open spec fn so_mat_mat(a: M3, b: M3) -> Option<M3> {
    match (so_row_times(a.rx, b), so_row_times(a.ry, b), so_row_times(a.rz, b)) {
        (Some(rx), Some(ry), Some(rz)) => Some(M3 { rx, ry, rz }),
        _ => None,
    }
}

/// Composition of rigid transforms: the left transform applied after the
/// right one, exactly as applying them in turn.
pub open spec fn so_compose(a: T3, b: T3) -> Option<T3> {
    match (so_mat_mat(a.lin, b.lin), so_mat_vec(a.lin, b.t)) {
        (Some(lin), Some(tv)) => {
            let t = sv_add(tv, a.t);
            if v3_fits(t) {
                Some(T3 { lin, t })
            } else {
                None
            }
        },
        _ => None,
    }
}

/// A rigid transform applied to a point.
pub open spec fn so_apply(tr: T3, v: V3) -> Option<V3> {
    match so_mat_vec(tr.lin, v) {
        Some(mv) => {
            let w = sv_add(mv, tr.t);
            if v3_fits(w) {
                Some(w)
            } else {
                None
            }
        },
        None => None,
    }
}

/// Inverse of a rigid transform whose linear part is orthonormal: the
/// transposed linear part, and the negated, rotated translation.
pub open spec fn so_inv_rigid(tr: T3) -> Option<T3> {
    let tt = sm_transpose(tr.lin);
    match so_mat_vec(tt, tr.t) {
        Some(mv) => Some(T3 { lin: tt, t: sv_neg(mv) }),
        None => None,
    }
}

/// Fixed-point cross product, as a value.
pub open spec fn scross_val(a: V3, b: V3) -> V3 {
    V3 {
        x: scomb3(a.y, b.z, a.z, -b.y, 0, 0),
        y: scomb3(a.z, b.x, a.x, -b.z, 0, 0),
        z: scomb3(a.x, b.y, a.y, -b.x, 0, 0),
    }
}

/// Fixed-point cross product, gated on every component being storable.
pub open spec fn so_cross(a: V3, b: V3) -> Option<V3> {
    let c = scross_val(a, b);
    if v3_fits(c) {
        Some(c)
    } else {
        None
    }
}

pub open spec fn sv_mag(v: V3) -> int {
    smag3(v.x, v.y, v.z)
}

/// Scaling of a vector by a fixed-point scalar, gated on overflow.
pub open spec fn so_scale(v: V3, s: int) -> Option<V3> {
    let x = smul(v.x, s);
    let y = smul(v.y, s);
    let z = smul(v.z, s);
    if fits(x) && fits(y) && fits(z) {
        Some(V3 { x, y, z })
    } else {
        None
    }
}

/// Every component within one model-space unit, as the components of a
/// direction vector are.
pub open spec fn unit_bounded(v: V3) -> bool {
    -(SCALE as int) <= v.x <= SCALE as int && -(SCALE as int) <= v.y <= SCALE as int && -(
    SCALE as int) <= v.z <= SCALE as int
}

/// Direction of a vector: each component divided by the magnitude. `None`
/// for the zero vector and for a vector too large to take a magnitude of.
pub open spec fn so_normalize(v: V3) -> Option<V3> {
    let m = sv_mag(v);
    if m == 0 || !fits(m) {
        None
    } else {
        Some(V3 { x: sdiv(v.x, m), y: sdiv(v.y, m), z: sdiv(v.z, m) })
    }
}

/// An executable 3-vector of fixed-point components.
#[derive(Clone, Copy, PartialEq, Eq, Structural, Debug)]
pub struct Vec3 {
    pub x: i64,
    pub y: i64,
    pub z: i64,
}

impl View for Vec3 {
    type V = V3;

    open spec fn view(&self) -> V3 {
        V3 { x: self.x as int, y: self.y as int, z: self.z as int }
    }
}

impl Vec3 {
    pub open spec fn wf(&self) -> bool {
        v3_fits(self@)
    }

    pub fn new(x: i64, y: i64, z: i64) -> (r: Vec3)
        ensures
            r@ == (V3 { x: x as int, y: y as int, z: z as int }),
    {
        Vec3 { x, y, z }
    }

    pub fn zero() -> (r: Vec3)
        ensures
            r@ == sv_zero(),
            r.wf(),
    {
        Vec3 { x: 0, y: 0, z: 0 }
    }
}

/// An executable 3x3 matrix, held by rows.
#[derive(Clone, Copy, PartialEq, Eq, Structural, Debug)]
pub struct Mat3 {
    pub rx: Vec3,
    pub ry: Vec3,
    pub rz: Vec3,
}

impl View for Mat3 {
    type V = M3;

    open spec fn view(&self) -> M3 {
        M3 { rx: self.rx@, ry: self.ry@, rz: self.rz@ }
    }
}

impl Mat3 {
    pub open spec fn wf(&self) -> bool {
        m3_fits(self@)
    }

    pub fn identity() -> (r: Mat3)
        ensures
            r@ == sm_identity(),
            r.wf(),
    {
        Mat3 {
            rx: Vec3 { x: SCALE, y: 0, z: 0 },
            ry: Vec3 { x: 0, y: SCALE, z: 0 },
            rz: Vec3 { x: 0, y: 0, z: SCALE },
        }
    }

    pub fn transpose(&self) -> (r: Mat3)
        ensures
            r@ == sm_transpose(self@),
            self.wf() ==> r.wf(),
    {
        Mat3 {
            rx: Vec3 { x: self.rx.x, y: self.ry.x, z: self.rz.x },
            ry: Vec3 { x: self.rx.y, y: self.ry.y, z: self.rz.y },
            rz: Vec3 { x: self.rx.z, y: self.ry.z, z: self.rz.z },
        }
    }
}

/// An executable rigid transform.
#[derive(Clone, Copy, PartialEq, Eq, Structural, Debug)]
pub struct Transform3 {
    pub lin: Mat3,
    pub t: Vec3,
}

impl View for Transform3 {
    type V = T3;

    open spec fn view(&self) -> T3 {
        T3 { lin: self.lin@, t: self.t@ }
    }
}

impl Transform3 {
    pub open spec fn wf(&self) -> bool {
        t3_fits(self@)
    }

    pub fn identity() -> (r: Transform3)
        ensures
            r@ == st_identity(),
            r.wf(),
    {
        Transform3 { lin: Mat3::identity(), t: Vec3::zero() }
    }

    pub fn translation(v: Vec3) -> (r: Transform3)
        ensures
            r@ == st_translation(v@),
            v.wf() ==> r.wf(),
    {
        Transform3 { lin: Mat3::identity(), t: v }
    }

    /// First column of the linear part: where the x axis is carried.
    pub fn right_axis(&self) -> (r: Vec3)
        ensures
            r@ == scol_x(self@.lin),
            self.wf() ==> r.wf(),
    {
        Vec3 { x: self.lin.rx.x, y: self.lin.ry.x, z: self.lin.rz.x }
    }

    /// Second column of the linear part: where the y axis is carried.
    pub fn up_axis(&self) -> (r: Vec3)
        ensures
            r@ == scol_y(self@.lin),
            self.wf() ==> r.wf(),
    {
        Vec3 { x: self.lin.rx.y, y: self.lin.ry.y, z: self.lin.rz.y }
    }
}

/// Componentwise sum, gated on the result being storable.
pub fn v_add(a: &Vec3, b: &Vec3) -> (r: Option<Vec3>)
    requires
        a.wf(),
        b.wf(),
    ensures
        match r {
            Some(w) => w@ == sv_add(a@, b@) && w.wf(),
            None => !v3_fits(sv_add(a@, b@)),
        },
{
    let x: i64 = a.x + b.x;
    let y: i64 = a.y + b.y;
    let z: i64 = a.z + b.z;
    if x >= -FIX_MAX && x <= FIX_MAX && y >= -FIX_MAX && y <= FIX_MAX && z >= -FIX_MAX && z
        <= FIX_MAX {
        Some(Vec3 { x, y, z })
    } else {
        None
    }
}

/// Componentwise difference, gated on the result being storable.
pub fn v_sub(a: &Vec3, b: &Vec3) -> (r: Option<Vec3>)
    requires
        a.wf(),
        b.wf(),
    ensures
        match r {
            Some(w) => w@ == sv_sub(a@, b@) && w.wf(),
            None => !v3_fits(sv_sub(a@, b@)),
        },
{
    let x: i64 = a.x - b.x;
    let y: i64 = a.y - b.y;
    let z: i64 = a.z - b.z;
    if x >= -FIX_MAX && x <= FIX_MAX && y >= -FIX_MAX && y <= FIX_MAX && z >= -FIX_MAX && z
        <= FIX_MAX {
        Some(Vec3 { x, y, z })
    } else {
        None
    }
}

pub fn v_neg(a: &Vec3) -> (r: Vec3)
    requires
        a.wf(),
    ensures
        r@ == sv_neg(a@),
        r.wf(),
{
    Vec3 { x: -a.x, y: -a.y, z: -a.z }
}

/// Matrix-vector product.
pub fn mat_vec(m: &Mat3, v: &Vec3) -> (r: Option<Vec3>)
    requires
        m.wf(),
        v.wf(),
    ensures
        match r {
            Some(w) => so_mat_vec(m@, v@) == Some(w@) && w.wf(),
            None => so_mat_vec(m@, v@) is None,
        },
{
    let x = match fx_comb3(m.rx.x, v.x, m.rx.y, v.y, m.rx.z, v.z) {
        Some(c) => c,
        None => {
            return None;
        },
    };
    let y = match fx_comb3(m.ry.x, v.x, m.ry.y, v.y, m.ry.z, v.z) {
        Some(c) => c,
        None => {
            return None;
        },
    };
    let z = match fx_comb3(m.rz.x, v.x, m.rz.y, v.y, m.rz.z, v.z) {
        Some(c) => c,
        None => {
            return None;
        },
    };
    Some(Vec3 { x, y, z })
}

/// One row of a matrix product.
fn row_times(r: &Vec3, b: &Mat3) -> (w: Option<Vec3>)
    requires
        r.wf(),
        b.wf(),
    ensures
        match w {
            Some(v) => so_row_times(r@, b@) == Some(v@) && v.wf(),
            None => so_row_times(r@, b@) is None,
        },
{
    let x = match fx_comb3(r.x, b.rx.x, r.y, b.ry.x, r.z, b.rz.x) {
        Some(c) => c,
        None => {
            return None;
        },
    };
    let y = match fx_comb3(r.x, b.rx.y, r.y, b.ry.y, r.z, b.rz.y) {
        Some(c) => c,
        None => {
            return None;
        },
    };
    let z = match fx_comb3(r.x, b.rx.z, r.y, b.ry.z, r.z, b.rz.z) {
        Some(c) => c,
        None => {
            return None;
        },
    };
    Some(Vec3 { x, y, z })
}

/// Matrix product.
pub fn mat_mat(a: &Mat3, b: &Mat3) -> (r: Option<Mat3>)
    requires
        a.wf(),
        b.wf(),
    ensures
        match r {
            Some(m) => so_mat_mat(a@, b@) == Some(m@) && m.wf(),
            None => so_mat_mat(a@, b@) is None,
        },
{
    let rx = match row_times(&a.rx, b) {
        Some(v) => v,
        None => {
            return None;
        },
    };
    let ry = match row_times(&a.ry, b) {
        Some(v) => v,
        None => {
            return None;
        },
    };
    let rz = match row_times(&a.rz, b) {
        Some(v) => v,
        None => {
            return None;
        },
    };
    Some(Mat3 { rx, ry, rz })
}

/// Composition of rigid transforms: `a` applied after `b`.
pub fn compose(a: &Transform3, b: &Transform3) -> (r: Option<Transform3>)
    requires
        a.wf(),
        b.wf(),
    ensures
        match r {
            Some(t) => so_compose(a@, b@) == Some(t@) && t.wf(),
            None => so_compose(a@, b@) is None,
        },
{
    let lin = match mat_mat(&a.lin, &b.lin) {
        Some(m) => m,
        None => {
            return None;
        },
    };
    let tv = match mat_vec(&a.lin, &b.t) {
        Some(v) => v,
        None => {
            return None;
        },
    };
    match v_add(&tv, &a.t) {
        Some(t) => Some(Transform3 { lin, t }),
        None => None,
    }
}

/// A rigid transform applied to a point.
pub fn apply(tr: &Transform3, v: &Vec3) -> (r: Option<Vec3>)
    requires
        tr.wf(),
        v.wf(),
    ensures
        match r {
            Some(w) => so_apply(tr@, v@) == Some(w@) && w.wf(),
            None => so_apply(tr@, v@) is None,
        },
{
    let mv = match mat_vec(&tr.lin, v) {
        Some(w) => w,
        None => {
            return None;
        },
    };
    match v_add(&mv, &tr.t) {
        Some(w) => Some(w),
        None => None,
    }
}

/// Inverse of a rigid transform with an orthonormal linear part.
pub fn inv_rigid(tr: &Transform3) -> (r: Option<Transform3>)
    requires
        tr.wf(),
    ensures
        match r {
            Some(t) => so_inv_rigid(tr@) == Some(t@) && t.wf(),
            None => so_inv_rigid(tr@) is None,
        },
{
    let tt = tr.lin.transpose();
    match mat_vec(&tt, &tr.t) {
        Some(mv) => Some(Transform3 { lin: tt, t: v_neg(&mv) }),
        None => None,
    }
}

/// Cross product.
pub fn cross(a: &Vec3, b: &Vec3) -> (r: Option<Vec3>)
    requires
        a.wf(),
        b.wf(),
    ensures
        match r {
            Some(w) => so_cross(a@, b@) == Some(w@) && w.wf(),
            None => so_cross(a@, b@) is None,
        },
{
    let x = match fx_comb3(a.y, b.z, a.z, -b.y, 0, 0) {
        Some(c) => c,
        None => {
            return None;
        },
    };
    let y = match fx_comb3(a.z, b.x, a.x, -b.z, 0, 0) {
        Some(c) => c,
        None => {
            return None;
        },
    };
    let z = match fx_comb3(a.x, b.y, a.y, -b.x, 0, 0) {
        Some(c) => c,
        None => {
            return None;
        },
    };
    Some(Vec3 { x, y, z })
}

/// Fixed-point dot product of two vectors.
pub fn dot(a: &Vec3, b: &Vec3) -> (r: Option<i64>)
    requires
        a.wf(),
        b.wf(),
    ensures
        match r {
            Some(v) => v == srow_comb(a@, b@) && fits(v as int),
            None => !fits(srow_comb(a@, b@)),
        },
{
    fx_comb3(a.x, b.x, a.y, b.y, a.z, b.z)
}

/// Magnitude of a vector.
pub fn magnitude(v: &Vec3) -> (r: Option<i64>)
    requires
        v.wf(),
    ensures
        match r {
            Some(m) => m == sv_mag(v@) && fits(m as int) && m >= 0,
            None => !fits(sv_mag(v@)),
        },
{
    fx_mag3(v.x, v.y, v.z)
}

/// Scaling of a vector by a fixed-point scalar.
pub fn v_scale(v: &Vec3, s: i64) -> (r: Option<Vec3>)
    requires
        v.wf(),
        fits(s as int),
    ensures
        match r {
            Some(w) => so_scale(v@, s as int) == Some(w@) && w.wf(),
            None => so_scale(v@, s as int) is None,
        },
{
    let x = match fx_mul(v.x, s) {
        Some(c) => c,
        None => {
            return None;
        },
    };
    let y = match fx_mul(v.y, s) {
        Some(c) => c,
        None => {
            return None;
        },
    };
    let z = match fx_mul(v.z, s) {
        Some(c) => c,
        None => {
            return None;
        },
    };
    Some(Vec3 { x, y, z })
}

/// A square bound transfers to a bound: squares are monotone on the
/// non-negatives.
proof fn lemma_sq_le(a: int, b: int)
    by (nonlinear_arith)
    requires
        0 <= a,
        0 <= b,
        a * a < (b + 1) * (b + 1),
    ensures
        a <= b,
{
}

/// No component of a vector exceeds the vector's magnitude.
proof fn lemma_component_le_mag(v: V3)
    requires
        v3_fits(v),
    ensures
        -sv_mag(v) <= v.x <= sv_mag(v),
        -sv_mag(v) <= v.y <= sv_mag(v),
        -sv_mag(v) <= v.z <= sv_mag(v),
        sv_mag(v) >= 0,
{
    let n = v.x * v.x + v.y * v.y + v.z * v.z;
    assert(v.x * v.x >= 0 && v.y * v.y >= 0 && v.z * v.z >= 0) by (nonlinear_arith);
    lemma_sqrt_floor(n as nat);
    let m = sqrt_floor(n as nat) as int;
    assert(v.x * v.x <= n && v.y * v.y <= n && v.z * v.z <= n);
    assert(n < (m + 1) * (m + 1));
    if v.x >= 0 {
        lemma_sq_le(v.x, m);
    } else {
        assert((-v.x) * (-v.x) == v.x * v.x) by (nonlinear_arith);
        lemma_sq_le(-v.x, m);
    }
    if v.y >= 0 {
        lemma_sq_le(v.y, m);
    } else {
        assert((-v.y) * (-v.y) == v.y * v.y) by (nonlinear_arith);
        lemma_sq_le(-v.y, m);
    }
    if v.z >= 0 {
        lemma_sq_le(v.z, m);
    } else {
        assert((-v.z) * (-v.z) == v.z * v.z) by (nonlinear_arith);
        lemma_sq_le(-v.z, m);
    }
}

/// Direction of a vector.
pub fn normalize(v: &Vec3) -> (r: Option<Vec3>)
    requires
        v.wf(),
    ensures
        match r {
            Some(w) => so_normalize(v@) == Some(w@) && w.wf() && unit_bounded(w@),
            None => so_normalize(v@) is None,
        },
{
    let m = match magnitude(v) {
        Some(m) => m,
        None => {
            return None;
        },
    };
    if m == 0 {
        return None;
    }
    proof {
        lemma_component_le_mag(v@);
        lemma_mul_bound(v@.x, SCALE as int, m as int, SCALE as int);
        lemma_mul_bound(v@.y, SCALE as int, m as int, SCALE as int);
        lemma_mul_bound(v@.z, SCALE as int, m as int, SCALE as int);
        lemma_tdiv_bound(v@.x * (SCALE as int), (m as int) * (SCALE as int), m as int);
        lemma_tdiv_bound(v@.y * (SCALE as int), (m as int) * (SCALE as int), m as int);
        lemma_tdiv_bound(v@.z * (SCALE as int), (m as int) * (SCALE as int), m as int);
        vstd::arithmetic::div_mod::lemma_div_multiples_vanish(SCALE as int, m as int);
    }
    let x = match fx_div(v.x, m) {
        Some(c) => c,
        None => {
            proof {
                assert(false);
            }
            return None;
        },
    };
    let y = match fx_div(v.y, m) {
        Some(c) => c,
        None => {
            proof {
                assert(false);
            }
            return None;
        },
    };
    let z = match fx_div(v.z, m) {
        Some(c) => c,
        None => {
            proof {
                assert(false);
            }
            return None;
        },
    };
    Some(Vec3 { x, y, z })
}

/// Rotation matrix entries from an axis direction `k`, a sine `s`, a
/// cosine `c` and the complement `ic` of the cosine, by the axis-angle
/// (Rodrigues) form, gated on every entry being storable.
pub open spec fn so_rot_entries(k: V3, s: int, c: int, ic: int) -> Option<M3> {
    let kxx = smul(k.x, k.x);
    let kyy = smul(k.y, k.y);
    let kzz = smul(k.z, k.z);
    let kxy = smul(k.x, k.y);
    let kxz = smul(k.x, k.z);
    let kyz = smul(k.y, k.z);
    let e00 = c + smul(ic, kxx);
    let e01 = smul(ic, kxy) - smul(s, k.z);
    let e02 = smul(ic, kxz) + smul(s, k.y);
    let e10 = smul(ic, kxy) + smul(s, k.z);
    let e11 = c + smul(ic, kyy);
    let e12 = smul(ic, kyz) - smul(s, k.x);
    let e20 = smul(ic, kxz) - smul(s, k.y);
    let e21 = smul(ic, kyz) + smul(s, k.x);
    let e22 = c + smul(ic, kzz);
    if fits(e00) && fits(e01) && fits(e02) && fits(e10) && fits(e11) && fits(e12) && fits(e20)
        && fits(e21) && fits(e22) {
        Some(
            M3 {
                rx: V3 { x: e00, y: e01, z: e02 },
                ry: V3 { x: e10, y: e11, z: e12 },
                rz: V3 { x: e20, y: e21, z: e22 },
            },
        )
    } else {
        None
    }
}

/// Rotation matrix for a scaled axis vector: the direction of the vector
/// is the rotation axis and its magnitude the angle in radians. The zero
/// vector yields the identity exactly.
pub open spec fn so_rot_axis(v: V3) -> Option<M3> {
    if v == sv_zero() {
        Some(sm_identity())
    } else {
        match so_normalize(v) {
            Some(k) => {
                let m = sv_mag(v);
                match (crate::fixed::ssin(m), crate::fixed::scos(m)) {
                    (Some(s), Some(c)) => {
                        if fits((SCALE as int) - c) {
                            so_rot_entries(k, s, c, (SCALE as int) - c)
                        } else {
                            None
                        }
                    },
                    _ => None,
                }
            },
            None => None,
        }
    }
}

/// Rotation matrix from a scaled axis vector.
pub fn rot_from_scaled_axis(v: &Vec3) -> (r: Option<Mat3>)
    requires
        v.wf(),
    ensures
        match r {
            Some(m) => so_rot_axis(v@) == Some(m@) && m.wf(),
            None => so_rot_axis(v@) is None,
        },
{
    if v.x == 0 && v.y == 0 && v.z == 0 {
        return Some(Mat3::identity());
    }
    let k = match normalize(v) {
        Some(k) => k,
        None => {
            return None;
        },
    };
    let mg = match magnitude(v) {
        Some(m) => m,
        None => {
            proof {
                assert(false);
            }
            return None;
        },
    };
    let s = match crate::fixed::fx_sin(mg) {
        Some(s) => s,
        None => {
            return None;
        },
    };
    let c = match crate::fixed::fx_cos(mg) {
        Some(c) => c,
        None => {
            return None;
        },
    };
    let ic: i64 = SCALE - c;
    if ic < -FIX_MAX || ic > FIX_MAX {
        return None;
    }
    proof {
        let sc = SCALE as int;
        let fm = FIX_MAX as int;
        lemma_smul_fits(k@.x, k@.x, sc, sc);
        lemma_smul_fits(k@.y, k@.y, sc, sc);
        lemma_smul_fits(k@.z, k@.z, sc, sc);
        lemma_smul_fits(k@.x, k@.y, sc, sc);
        lemma_smul_fits(k@.x, k@.z, sc, sc);
        lemma_smul_fits(k@.y, k@.z, sc, sc);
        assert(sc * sc <= fm * sc) by (nonlinear_arith)
            requires
                sc == 1_000_000 && fm == 4_000_000_000_000_000,
        {
        }
    }
    let kxx = fx_mul_sure(k.x, k.x);
    let kyy = fx_mul_sure(k.y, k.y);
    let kzz = fx_mul_sure(k.z, k.z);
    let kxy = fx_mul_sure(k.x, k.y);
    let kxz = fx_mul_sure(k.x, k.z);
    let kyz = fx_mul_sure(k.y, k.z);
    proof {
        let sc = SCALE as int;
        let fm = FIX_MAX as int;
        lemma_smul_fits(ic as int, kxx as int, fm, sc);
        lemma_smul_fits(ic as int, kyy as int, fm, sc);
        lemma_smul_fits(ic as int, kzz as int, fm, sc);
        lemma_smul_fits(ic as int, kxy as int, fm, sc);
        lemma_smul_fits(ic as int, kxz as int, fm, sc);
        lemma_smul_fits(ic as int, kyz as int, fm, sc);
        lemma_smul_fits(s as int, k@.x, fm, sc);
        lemma_smul_fits(s as int, k@.y, fm, sc);
        lemma_smul_fits(s as int, k@.z, fm, sc);
    }
    let e00: i64 = c + fx_mul_sure(ic, kxx);
    let e01: i64 = fx_mul_sure(ic, kxy) - fx_mul_sure(s, k.z);
    let e02: i64 = fx_mul_sure(ic, kxz) + fx_mul_sure(s, k.y);
    let e10: i64 = fx_mul_sure(ic, kxy) + fx_mul_sure(s, k.z);
    let e11: i64 = c + fx_mul_sure(ic, kyy);
    let e12: i64 = fx_mul_sure(ic, kyz) - fx_mul_sure(s, k.x);
    let e20: i64 = fx_mul_sure(ic, kxz) - fx_mul_sure(s, k.y);
    let e21: i64 = fx_mul_sure(ic, kyz) + fx_mul_sure(s, k.x);
    let e22: i64 = c + fx_mul_sure(ic, kzz);
    if e00 >= -FIX_MAX && e00 <= FIX_MAX && e01 >= -FIX_MAX && e01 <= FIX_MAX && e02 >= -FIX_MAX
        && e02 <= FIX_MAX && e10 >= -FIX_MAX && e10 <= FIX_MAX && e11 >= -FIX_MAX && e11
        <= FIX_MAX && e12 >= -FIX_MAX && e12 <= FIX_MAX && e20 >= -FIX_MAX && e20 <= FIX_MAX
        && e21 >= -FIX_MAX && e21 <= FIX_MAX && e22 >= -FIX_MAX && e22 <= FIX_MAX {
        Some(
            Mat3 {
                rx: Vec3 { x: e00, y: e01, z: e02 },
                ry: Vec3 { x: e10, y: e11, z: e12 },
                rz: Vec3 { x: e20, y: e21, z: e22 },
            },
        )
    } else {
        None
    }
}

/// Componentwise bound on a ghost vector.
pub open spec fn v3_bounded(v: V3, b: int) -> bool {
    -b <= v.x <= b && -b <= v.y <= b && -b <= v.z <= b
}

/// Componentwise bound on every entry of a ghost matrix.
pub open spec fn m3_bounded(m: M3, b: int) -> bool {
    v3_bounded(m.rx, b) && v3_bounded(m.ry, b) && v3_bounded(m.rz, b)
}

/// A bounded row combined with a bounded vector gives a bounded scalar.
pub proof fn lemma_row_comb_bound(r: V3, v: V3, br: int, bv: int)
    requires
        v3_bounded(r, br),
        v3_bounded(v, bv),
        0 <= br,
        0 <= bv,
    ensures
        -((3 * br * bv) / (SCALE as int)) <= srow_comb(r, v) <= (3 * br * bv) / (SCALE as int),
{
    crate::fixed::lemma_scomb3_bound(r.x, v.x, r.y, v.y, r.z, v.z, br, bv);
}

/// The identity matrix carries a vector to itself.
pub proof fn lemma_identity_mat_vec(v: V3)
    requires
        v3_fits(v),
    ensures
        so_mat_vec(sm_identity(), v) == Some(v),
{
    crate::fixed::lemma_tdiv_mul_cancel(v.x, SCALE as int);
    crate::fixed::lemma_tdiv_mul_cancel(v.y, SCALE as int);
    crate::fixed::lemma_tdiv_mul_cancel(v.z, SCALE as int);
}

/// Multiplying by the identity on the left is exact.
pub proof fn lemma_identity_mat_left(m: M3)
    requires
        m3_fits(m),
    ensures
        so_mat_mat(sm_identity(), m) == Some(m),
{
    crate::fixed::lemma_tdiv_mul_cancel(m.rx.x, SCALE as int);
    crate::fixed::lemma_tdiv_mul_cancel(m.rx.y, SCALE as int);
    crate::fixed::lemma_tdiv_mul_cancel(m.rx.z, SCALE as int);
    crate::fixed::lemma_tdiv_mul_cancel(m.ry.x, SCALE as int);
    crate::fixed::lemma_tdiv_mul_cancel(m.ry.y, SCALE as int);
    crate::fixed::lemma_tdiv_mul_cancel(m.ry.z, SCALE as int);
    crate::fixed::lemma_tdiv_mul_cancel(m.rz.x, SCALE as int);
    crate::fixed::lemma_tdiv_mul_cancel(m.rz.y, SCALE as int);
    crate::fixed::lemma_tdiv_mul_cancel(m.rz.z, SCALE as int);
}

/// Multiplying by the identity on the right is exact.
pub proof fn lemma_identity_mat_right(m: M3)
    requires
        m3_fits(m),
    ensures
        so_mat_mat(m, sm_identity()) == Some(m),
{
    crate::fixed::lemma_tdiv_mul_cancel(m.rx.x, SCALE as int);
    crate::fixed::lemma_tdiv_mul_cancel(m.rx.y, SCALE as int);
    crate::fixed::lemma_tdiv_mul_cancel(m.rx.z, SCALE as int);
    crate::fixed::lemma_tdiv_mul_cancel(m.ry.x, SCALE as int);
    crate::fixed::lemma_tdiv_mul_cancel(m.ry.y, SCALE as int);
    crate::fixed::lemma_tdiv_mul_cancel(m.ry.z, SCALE as int);
    crate::fixed::lemma_tdiv_mul_cancel(m.rz.x, SCALE as int);
    crate::fixed::lemma_tdiv_mul_cancel(m.rz.y, SCALE as int);
    crate::fixed::lemma_tdiv_mul_cancel(m.rz.z, SCALE as int);
    assert(m.rx.x * (SCALE as int) == (SCALE as int) * m.rx.x) by (nonlinear_arith);
    assert(m.rx.y * (SCALE as int) == (SCALE as int) * m.rx.y) by (nonlinear_arith);
    assert(m.rx.z * (SCALE as int) == (SCALE as int) * m.rx.z) by (nonlinear_arith);
    assert(m.ry.x * (SCALE as int) == (SCALE as int) * m.ry.x) by (nonlinear_arith);
    assert(m.ry.y * (SCALE as int) == (SCALE as int) * m.ry.y) by (nonlinear_arith);
    assert(m.ry.z * (SCALE as int) == (SCALE as int) * m.ry.z) by (nonlinear_arith);
    assert(m.rz.x * (SCALE as int) == (SCALE as int) * m.rz.x) by (nonlinear_arith);
    assert(m.rz.y * (SCALE as int) == (SCALE as int) * m.rz.y) by (nonlinear_arith);
    assert(m.rz.z * (SCALE as int) == (SCALE as int) * m.rz.z) by (nonlinear_arith);
}

/// Any matrix carries the zero vector to the zero vector.
pub proof fn lemma_mat_vec_zero(m: M3)
    ensures
        so_mat_vec(m, sv_zero()) == Some(sv_zero()),
{
    assert(srow_comb(m.rx, sv_zero()) == tdiv(0, SCALE as int));
    assert(srow_comb(m.ry, sv_zero()) == tdiv(0, SCALE as int));
    assert(srow_comb(m.rz, sv_zero()) == tdiv(0, SCALE as int));
}

/// Carrying a negated vector through a matrix negates the result
/// exactly: truncation toward zero is symmetric.
pub proof fn lemma_mat_vec_neg(m: M3, v: V3)
    ensures
        so_mat_vec(m, sv_neg(v)) == (match so_mat_vec(m, v) {
            Some(w) => Some(sv_neg(w)),
            None => None,
        }),
{
    assert(m.rx.x * (-v.x) == -(m.rx.x * v.x)) by (nonlinear_arith);
    assert(m.rx.y * (-v.y) == -(m.rx.y * v.y)) by (nonlinear_arith);
    assert(m.rx.z * (-v.z) == -(m.rx.z * v.z)) by (nonlinear_arith);
    assert(m.ry.x * (-v.x) == -(m.ry.x * v.x)) by (nonlinear_arith);
    assert(m.ry.y * (-v.y) == -(m.ry.y * v.y)) by (nonlinear_arith);
    assert(m.ry.z * (-v.z) == -(m.ry.z * v.z)) by (nonlinear_arith);
    assert(m.rz.x * (-v.x) == -(m.rz.x * v.x)) by (nonlinear_arith);
    assert(m.rz.y * (-v.y) == -(m.rz.y * v.y)) by (nonlinear_arith);
    assert(m.rz.z * (-v.z) == -(m.rz.z * v.z)) by (nonlinear_arith);
    crate::fixed::lemma_tdiv_neg(m.rx.x * v.x + m.rx.y * v.y + m.rx.z * v.z, SCALE as int);
    crate::fixed::lemma_tdiv_neg(m.ry.x * v.x + m.ry.y * v.y + m.ry.z * v.z, SCALE as int);
    crate::fixed::lemma_tdiv_neg(m.rz.x * v.x + m.rz.y * v.y + m.rz.z * v.z, SCALE as int);
}

/// Composing a pure translation with a pure rotation keeps both parts
/// exactly: the linear part of the result is the rotation's, and the
/// translation part the translation's.
pub proof fn lemma_compose_translation_rotation(a: T3, b: T3)
    requires
        a.lin == sm_identity(),
        v3_fits(a.t),
        m3_fits(b.lin),
        b.t == sv_zero(),
    ensures
        so_compose(a, b) == Some(T3 { lin: b.lin, t: a.t }),
{
    lemma_identity_mat_left(b.lin);
    lemma_identity_mat_vec(sv_zero());
}

/// Fixed-point product whose operands are known to stay in range.
pub(crate) fn fx_mul_sure(a: i64, b: i64) -> (r: i64)
    requires
        fits(a as int),
        fits(b as int),
        fits(smul(a as int, b as int)),
    ensures
        r == smul(a as int, b as int),
{
    match fx_mul(a, b) {
        Some(v) => v,
        None => {
            proof {
                assert(false);
            }
            0
        },
    }
}

} // verus!

//! The camera abstraction.
//!
//! The metaphor (which shapes how input is handled) is not a camera flying
//! through a static scene: the camera is static, and the model is
//! translated and rotated in front of it. The camera owns the rigid view
//! transform, split into a pure rotation and a pure translation, and the
//! near and far clip distances.

use vstd::prelude::*;
use crate::fixed::{smul, tdiv, sabs, smin2, smax2, lemma_smul_fits, fx_divn, SCALE};
use crate::geometry::{
    V3, M3, T3, Vec3, Transform3, sv_zero, sv_add, sv_neg, sm_identity, sm_transpose,
    st_identity, st_translation, srow_comb, so_compose, so_inv_rigid, v3_bounded, m3_bounded,
    compose, inv_rigid, lemma_compose_translation_rotation, lemma_row_comb_bound,
};
use crate::scene::{Aabb, AabbV, scenter, scorner, COORD_MAX};
use crate::screen::NormalizedScreenPosition;

verus! {

/// Default distance of the near clip plane: 0.0001 model-space units.
pub const DEFAULT_NEAR_PLANE: i64 = 100;

/// Default distance of the far clip plane: 1000 model-space units.
pub const DEFAULT_FAR_PLANE: i64 = 1_000_000_000;

/// The fixed horizontal field of view: 90 degrees, as radians in
/// fixed-point units. The tangent of half this angle is exactly one, and
/// the projection math uses that exact tangent.
pub const FIELD_OF_VIEW_IN_X: i64 = 1_570_796;

/// Largest magnitude an entry of the rotation's linear part may take: two
/// model-space units, ample for a matrix that stays close to orthonormal.
pub const ROT_MAX: i64 = 2_000_000;

/// Largest magnitude a component of the camera translation may take
/// (10^8 model-space units).
pub const TRANS_MAX: i64 = 100_000_000_000_000;

/// Largest clip-plane distance the camera will hold (2 * 10^8 units).
pub const PLANE_MAX: i64 = 200_000_000_000_000;

/// Largest magnitude a component of the camera's world position can
/// reach: the rotated translation bound.
pub const POS_MAX: i64 = 600_000_000_000_000;

/// Largest magnitude a component of a focus point may take.
pub const FOCUS_MAX: i64 = 1_000_000_000_000_000;

/// The default camera state: identity transforms and default planes.
pub open spec fn scam_default() -> CamV {
    CamV {
        rotation: st_identity(),
        translation: st_identity(),
        near: DEFAULT_NEAR_PLANE as int,
        far: DEFAULT_FAR_PLANE as int,
    }
}

/// Ghost model of the camera state.
pub ghost struct CamV {
    pub rotation: T3,
    pub translation: T3,
    pub near: int,
    pub far: int,
}

/// A pure rotation: bounded linear part, no offset.
pub open spec fn rot_part_wf(t: T3) -> bool {
    m3_bounded(t.lin, ROT_MAX as int) && t.t == sv_zero()
}

/// A pure translation: identity linear part, bounded offset.
pub open spec fn trans_part_wf(t: T3) -> bool {
    t.lin == sm_identity() && v3_bounded(t.t, TRANS_MAX as int)
}

/// Well-formed camera state: a pure rotation, a pure translation, and
/// positive, bounded clip distances.
pub open spec fn cam_wf(c: CamV) -> bool {
    rot_part_wf(c.rotation) && trans_part_wf(c.translation) && 0 < c.near <= PLANE_MAX as int
        && 0 < c.far <= PLANE_MAX as int
}

/// The camera-to-model transform of a well-formed camera: composing the
/// pure translation after the pure rotation keeps both parts exactly.
pub open spec fn scam_to_model(c: CamV) -> T3 {
    T3 { lin: c.rotation.lin, t: c.translation.t }
}

/// Linear part of the model-to-camera transform: the transposed rotation.
pub open spec fn sinv_lin(c: CamV) -> M3 {
    sm_transpose(c.rotation.lin)
}

/// World position of the camera: the inverse camera-to-model transform
/// applied to the origin.
pub open spec fn sposition(c: CamV) -> V3 {
    sv_neg(
        V3 {
            x: srow_comb(sinv_lin(c).rx, c.translation.t),
            y: srow_comb(sinv_lin(c).ry, c.translation.t),
            z: srow_comb(sinv_lin(c).rz, c.translation.t),
        },
    )
}

/// The cursor on the near plane, in camera space: pinhole projection with
/// the tangent of half the field of view equal to one.
pub open spec fn scursor_point(c: CamV, cur: NormalizedScreenPosition) -> V3 {
    V3 { x: smul(cur.x as int, c.near), y: smul(cur.y as int, c.near), z: -c.near }
}

/// A camera-space point carried into model space by the inverse
/// camera-to-model transform.
pub open spec fn sto_model(c: CamV, p: V3) -> V3 {
    sv_add(
        V3 {
            x: srow_comb(sinv_lin(c).rx, p),
            y: srow_comb(sinv_lin(c).ry, p),
            z: srow_comb(sinv_lin(c).rz, p),
        },
        sposition(c),
    )
}

/// The model-space point a normalized cursor position projects to on the
/// near plane.
pub open spec fn scursor_to_model(c: CamV, cur: NormalizedScreenPosition) -> V3 {
    sto_model(c, scursor_point(c, cur))
}

/// Largest magnitude a component of a cursor point carried into model
/// space can reach.
pub const CURSOR_POINT_MAX: i64 = 1_800_000_000_000_000;

/// Largest projected corner distance a well-formed camera can produce
/// from a well-formed bounding box.
pub const DIST_MAX: i64 = 100_600_000_000_000;

/// The furthest extent of a bounding box from the origin in x and y,
/// folded in the order the distances are compared.
pub open spec fn sfurthest(a: AabbV) -> int {
    smax2(smax2(smax2(sabs(a.min.x), a.max.x), sabs(a.min.y)), a.max.y)
}

/// The initial camera distance: the model's highest point plus twice its
/// furthest horizontal extent (the tangent of half the field of view
/// divides it by exactly one).
pub open spec fn sinit_distance(a: AabbV) -> int {
    a.max.z + 2 * sfurthest(a)
}

/// The initial camera offset: the box's horizontal center moved to the
/// origin, and the camera pushed back by the initial distance along `-z`.
pub open spec fn sinit_offset(a: AabbV) -> V3 {
    V3 { x: -scenter(a).x, y: -scenter(a).y, z: -sinit_distance(a) }
}

/// Projected distance of a model-space point along the view direction
/// `(0, 0, -1)`: the magnitude of its camera-space z coordinate.
#[verifier::opaque]
pub open spec fn sproj_dist(c: CamV, v: V3) -> int {
    sabs(srow_comb(c.rotation.lin.rz, v) + c.translation.t.z)
}

/// Projected distance of corner `i` of a bounding box.
pub open spec fn scorner_dist(c: CamV, a: AabbV, i: int) -> int {
    sproj_dist(c, scorner(a, i))
}

/// Smallest projected corner distance, folded in comparison order.
pub open spec fn sdist_min(c: CamV, a: AabbV) -> int {
    smin2(
        smin2(
            smin2(
                smin2(
                    smin2(
                        smin2(
                            smin2(scorner_dist(c, a, 0), scorner_dist(c, a, 1)),
                            scorner_dist(c, a, 2),
                        ),
                        scorner_dist(c, a, 3),
                    ),
                    scorner_dist(c, a, 4),
                ),
                scorner_dist(c, a, 5),
            ),
            scorner_dist(c, a, 6),
        ),
        scorner_dist(c, a, 7),
    )
}

/// Largest projected corner distance, folded in comparison order.
pub open spec fn sdist_max(c: CamV, a: AabbV) -> int {
    smax2(
        smax2(
            smax2(
                smax2(
                    smax2(
                        smax2(
                            smax2(scorner_dist(c, a, 0), scorner_dist(c, a, 1)),
                            scorner_dist(c, a, 2),
                        ),
                        scorner_dist(c, a, 3),
                    ),
                    scorner_dist(c, a, 4),
                ),
                scorner_dist(c, a, 5),
            ),
            scorner_dist(c, a, 6),
        ),
        scorner_dist(c, a, 7),
    )
}

/// The near plane after a plane update: half the smallest projected
/// distance when the whole box is in front of the camera, floored at the
/// default, and the default otherwise.
pub open spec fn snear_after(c: CamV, a: AabbV) -> int {
    if sdist_min(c, a) > 0 {
        smax2(tdiv(sdist_min(c, a), 2), DEFAULT_NEAR_PLANE as int)
    } else {
        DEFAULT_NEAR_PLANE as int
    }
}

/// The far plane after a plane update: the largest projected distance if
/// positive, the default otherwise.
pub open spec fn sfar_after(c: CamV, a: AabbV) -> int {
    if sdist_max(c, a) > 0 {
        sdist_max(c, a)
    } else {
        DEFAULT_FAR_PLANE as int
    }
}

/// The point around which camera movement happens.
///
/// This is the point on the model that the cursor points at, if such a
/// point exists, falling back to the center of the model's bounding box.
#[derive(Clone, Copy, PartialEq, Eq, Structural, Debug)]
pub struct FocusPoint(pub Vec3);

impl FocusPoint {
    pub open spec fn wf(&self) -> bool {
        v3_bounded(self.0@, FOCUS_MAX as int)
    }
}

/// The camera.
#[derive(Clone, Copy, PartialEq, Eq, Structural, Debug)]
pub struct Camera {
    /// The rotational part of the transform.
    pub rotation: Transform3,
    /// The locational part of the transform.
    pub translation: Transform3,
    /// The distance to the near plane. Public so the whole state is
    /// visible to contracts; well-formedness is stated by `wf`.
    pub near_plane: i64,
    /// The distance to the far plane.
    pub far_plane: i64,
}

impl View for Camera {
    type V = CamV;

    open spec fn view(&self) -> CamV {
        CamV {
            rotation: self.rotation@,
            translation: self.translation@,
            near: self.near_plane as int,
            far: self.far_plane as int,
        }
    }
}

impl Camera {
    pub open spec fn wf(&self) -> bool {
        cam_wf(self@)
    }

    /// Returns a new camera with the identity view transform and the
    /// default clip planes.
    pub fn new() -> (r: Camera)
        ensures
            r@ == scam_default(),
            r.wf(),
    {
        Camera {
            rotation: Transform3::identity(),
            translation: Transform3::identity(),
            near_plane: DEFAULT_NEAR_PLANE,
            far_plane: DEFAULT_FAR_PLANE,
        }
    }

    /// Returns the minimum rendering distance of the camera.
    pub fn near_plane(&self) -> (r: i64)
        ensures
            r as int == self@.near,
    {
        self.near_plane
    }

    /// Returns the maximum rendering distance of the camera.
    pub fn far_plane(&self) -> (r: i64)
        ensures
            r as int == self@.far,
    {
        self.far_plane
    }

    /// Returns the horizontal field of view of the camera, in fixed-point
    /// radians.
    pub fn field_of_view_in_x(&self) -> (r: i64)
        ensures
            r == FIELD_OF_VIEW_IN_X,
    {
        FIELD_OF_VIEW_IN_X
    }

    /// Access the transform from camera space to model space: the
    /// translation composed after the rotation, exactly.
    pub fn camera_to_model(&self) -> (r: Transform3)
        requires
            self.wf(),
        ensures
            so_compose(self@.translation, self@.rotation) == Some(r@),
            r@ == scam_to_model(self@),
            r.wf(),
    {
        proof {
            lemma_compose_translation_rotation(self@.translation, self@.rotation);
        }
        match compose(&self.translation, &self.rotation) {
            Some(t) => t,
            None => {
                proof {
                    assert(false);
                }
                Transform3::identity()
            },
        }
    }

    /// Returns the position of the camera in world space: the inverse
    /// camera-to-model transform applied to the origin.
    pub fn position(&self) -> (r: Vec3)
        requires
            self.wf(),
        ensures
            r@ == sposition(self@),
            so_inv_rigid(scam_to_model(self@)) == Some(
                T3 { lin: sinv_lin(self@), t: r@ },
            ),
            v3_bounded(r@, POS_MAX as int),
            r.wf(),
    {
        let c2m = self.camera_to_model();
        proof {
            lemma_inv_applies(self@);
        }
        match inv_rigid(&c2m) {
            Some(inv) => inv.t,
            None => {
                proof {
                    assert(false);
                }
                Vec3::zero()
            },
        }
    }
}

impl Camera {
    /// Transform a normalized cursor position on the near plane into
    /// model space.
    pub fn cursor_to_model_space(&self, cursor: NormalizedScreenPosition) -> (r: Vec3)
        requires
            self.wf(),
            cursor.wf(),
        ensures
            r@ == scursor_to_model(self@, cursor),
            v3_bounded(r@, CURSOR_POINT_MAX as int),
            r.wf(),
    {
        proof {
            lemma_smul_fits(cursor.x as int, self@.near, SCALE as int, PLANE_MAX as int);
            lemma_smul_fits(cursor.y as int, self@.near, SCALE as int, PLANE_MAX as int);
        }
        // The tangent of half the 90-degree field of view is exactly one,
        // so the focal scale on the near plane is the near distance.
        let px = crate::geometry::fx_mul_sure(cursor.x, self.near_plane);
        let py = crate::geometry::fx_mul_sure(cursor.y, self.near_plane);
        let p = Vec3 { x: px, y: py, z: -self.near_plane };
        let c2m = self.camera_to_model();
        proof {
            lemma_inv_applies(self@);
            let tt = sinv_lin(self@);
            lemma_row_comb_bound(tt.rx, p@, ROT_MAX as int, PLANE_MAX as int);
            lemma_row_comb_bound(tt.ry, p@, ROT_MAX as int, PLANE_MAX as int);
            lemma_row_comb_bound(tt.rz, p@, ROT_MAX as int, PLANE_MAX as int);
        }
        let inv = match inv_rigid(&c2m) {
            Some(inv) => inv,
            None => {
                proof {
                    assert(false);
                }
                Transform3::identity()
            },
        };
        let mv = match crate::geometry::mat_vec(&inv.lin, &p) {
            Some(mv) => mv,
            None => {
                proof {
                    assert(false);
                }
                Vec3::zero()
            },
        };
        match crate::geometry::v_add(&mv, &inv.t) {
            Some(r) => r,
            None => {
                proof {
                    assert(false);
                }
                Vec3::zero()
            },
        }
    }

    /// Initialize the clip planes and frame the model.
    ///
    /// Called once, the first time a model becomes available: the camera
    /// is pushed back far enough along `-z` for the model to fill most of
    /// the view, and the model's horizontal center is moved to the
    /// origin. The rotation is left as it is.
    pub fn init_planes(&mut self, aabb: &Aabb)
        requires
            old(self).wf(),
            aabb.wf(),
        ensures
            final(self).wf(),
            final(self)@.rotation == old(self)@.rotation,
            final(self)@.near == old(self)@.near,
            final(self)@.far == old(self)@.far,
            final(self)@.translation == st_translation(sinit_offset(aabb@)),
    {
        // The model's highest point, and the furthest point from the
        // origin in x and y.
        let highest: i64 = aabb.max.z;
        let ax: i64 = if aabb.min.x < 0 {
            -aabb.min.x
        } else {
            aabb.min.x
        };
        let m1: i64 = if ax >= aabb.max.x {
            ax
        } else {
            aabb.max.x
        };
        let ay: i64 = if aabb.min.y < 0 {
            -aabb.min.y
        } else {
            aabb.min.y
        };
        let m2: i64 = if m1 >= ay {
            m1
        } else {
            ay
        };
        let furthest: i64 = if m2 >= aabb.max.y {
            m2
        } else {
            aabb.max.y
        };
        // Doubling leaves a margin so the model does not fill the whole
        // screen; the division by the tangent of half the field of view
        // is by exactly one and is left out.
        let distance: i64 = highest + 2 * furthest;
        let center = aabb.center();
        self.translation = Transform3::translation(
            Vec3 { x: -center.x, y: -center.y, z: -distance },
        );
    }

    /// Projected distance of one corner of a bounding box along the view
    /// direction `(0, 0, -1)`, in camera space.
    fn corner_dist(&self, aabb: &Aabb, i: usize) -> (d: i64)
        requires
            self.wf(),
            aabb.wf(),
            i < 8,
        ensures
            d as int == scorner_dist(self@, aabb@, i as int),
            0 <= d <= DIST_MAX,
    {
        let v = aabb.corner(i);
        proof {
            reveal(sproj_dist);
            crate::fixed::lemma_scomb3_bound(
                self@.rotation.lin.rz.x,
                v@.x,
                self@.rotation.lin.rz.y,
                v@.y,
                self@.rotation.lin.rz.z,
                v@.z,
                ROT_MAX as int,
                COORD_MAX as int,
            );
        }
        let c = match crate::fixed::fx_comb3(
            self.rotation.lin.rz.x,
            v.x,
            self.rotation.lin.rz.y,
            v.y,
            self.rotation.lin.rz.z,
            v.z,
        ) {
            Some(c) => c,
            None => {
                proof {
                    assert(false);
                }
                0
            },
        };
        let z: i64 = c + self.translation.t.z;
        if z < 0 {
            -z
        } else {
            z
        }
    }

    /// Update the clip planes so they tightly bracket the model.
    ///
    /// Called every frame: each corner of the bounding box is carried
    /// into camera space and projected onto the view direction, and the
    /// planes are fitted to the spread of the projected distances. The
    /// halving of the nearest distance compensates for near-plane
    /// clipping artifacts.
    #[verifier::rlimit(60)]
    pub fn update_planes(&mut self, aabb: &Aabb)
        requires
            old(self).wf(),
            aabb.wf(),
        ensures
            final(self).wf(),
            final(self)@.rotation == old(self)@.rotation,
            final(self)@.translation == old(self)@.translation,
            final(self)@.near == snear_after(old(self)@, aabb@),
            final(self)@.far == sfar_after(old(self)@, aabb@),
    {
        let d0 = self.corner_dist(aabb, 0);
        let d1 = self.corner_dist(aabb, 1);
        let d2 = self.corner_dist(aabb, 2);
        let d3 = self.corner_dist(aabb, 3);
        let d4 = self.corner_dist(aabb, 4);
        let d5 = self.corner_dist(aabb, 5);
        let d6 = self.corner_dist(aabb, 6);
        let d7 = self.corner_dist(aabb, 7);
        let mut dist_min: i64 = d0;
        let mut dist_max: i64 = d0;
        dist_min = if dist_min <= d1 {
            dist_min
        } else {
            d1
        };
        dist_min = if dist_min <= d2 {
            dist_min
        } else {
            d2
        };
        dist_min = if dist_min <= d3 {
            dist_min
        } else {
            d3
        };
        dist_min = if dist_min <= d4 {
            dist_min
        } else {
            d4
        };
        dist_min = if dist_min <= d5 {
            dist_min
        } else {
            d5
        };
        dist_min = if dist_min <= d6 {
            dist_min
        } else {
            d6
        };
        dist_min = if dist_min <= d7 {
            dist_min
        } else {
            d7
        };
        dist_max = if dist_max >= d1 {
            dist_max
        } else {
            d1
        };
        dist_max = if dist_max >= d2 {
            dist_max
        } else {
            d2
        };
        dist_max = if dist_max >= d3 {
            dist_max
        } else {
            d3
        };
        dist_max = if dist_max >= d4 {
            dist_max
        } else {
            d4
        };
        dist_max = if dist_max >= d5 {
            dist_max
        } else {
            d5
        };
        dist_max = if dist_max >= d6 {
            dist_max
        } else {
            d6
        };
        dist_max = if dist_max >= d7 {
            dist_max
        } else {
            d7
        };
        self.near_plane = if dist_min > 0 {
            let half = fx_divn(dist_min, 2);
            if half >= DEFAULT_NEAR_PLANE {
                half
            } else {
                DEFAULT_NEAR_PLANE
            }
        } else {
            DEFAULT_NEAR_PLANE
        };
        self.far_plane = if dist_max > 0 {
            dist_max
        } else {
            DEFAULT_FAR_PLANE
        };
    }
}

impl Default for Camera {
    fn default() -> (r: Self)
        ensures
            r@ == scam_default(),
            r.wf(),
    {
        Camera::new()
    }
}

/// The camera-to-model transform is, definitionally and exactly, the
/// translation composed after the rotation: for every well-formed camera
/// the composition succeeds and keeps the rotation's linear part and the
/// translation's offset unchanged.
pub proof fn lemma_camera_to_model_is_composition(c: CamV)
    requires
        cam_wf(c),
    ensures
        so_compose(c.translation, c.rotation) == Some(scam_to_model(c)),
{
    lemma_compose_translation_rotation(c.translation, c.rotation);
}

/// A plane update brackets the model: whenever the projected corner
/// distances spread past twice the default near distance, the updated
/// planes satisfy `0 < near < far`.
///
/// A box whose projected spread stays within twice the default near
/// distance (one lying degenerately close to the camera plane) can end
/// with `near >= far`, so that case is excluded here.
pub proof fn lemma_update_planes_brackets(c: CamV, a: AabbV)
    requires
        cam_wf(c),
        sdist_max(c, a) > 2 * DEFAULT_NEAR_PLANE as int,
    ensures
        0 < snear_after(c, a),
        snear_after(c, a) < sfar_after(c, a),
{
    reveal(sproj_dist);
    let dmin = sdist_min(c, a);
    let dmax = sdist_max(c, a);
    assert(0 <= dmin);
    assert(dmin <= dmax);
    if dmin > 0 {
        vstd::arithmetic::div_mod::lemma_div_is_ordered(dmin, dmax, 2);
        vstd::arithmetic::div_mod::lemma_div_is_strictly_smaller(dmax, 2);
        assert(tdiv(dmin, 2) <= dmax / 2 < dmax);
    }
}

/// For a well-formed camera, inverting the camera-to-model transform
/// succeeds and yields the transposed rotation with the negated, rotated
/// translation, every component within the position bound.
pub proof fn lemma_inv_applies(c: CamV)
    requires
        cam_wf(c),
    ensures
        so_inv_rigid(scam_to_model(c)) == Some(T3 { lin: sinv_lin(c), t: sposition(c) }),
        v3_bounded(sposition(c), POS_MAX as int),
{
    let tt = sinv_lin(c);
    lemma_row_comb_bound(tt.rx, c.translation.t, ROT_MAX as int, TRANS_MAX as int);
    lemma_row_comb_bound(tt.ry, c.translation.t, ROT_MAX as int, TRANS_MAX as int);
    lemma_row_comb_bound(tt.rz, c.translation.t, ROT_MAX as int, TRANS_MAX as int);
}

} // verus!

//! The focus resolver.
//!
//! Given a cursor position and a triangulated model, a ray is cast from
//! the camera through the cursor and intersected with every triangle of
//! the mesh; the nearest hit along the ray becomes the focus point of the
//! current gesture. When there is no cursor and when nothing is hit, the
//! caller falls back to the center of the model's bounding box.

use vstd::prelude::*;
use crate::fixed::{fits, sdiv, smul, agrees, fx_div, lemma_smul_fits, lemma_scomb3_bound,
    FIX_MAX, SCALE,
};
use crate::geometry::{
    V3, Vec3, sv_sub, sv_add, v3_fits, v3_bounded, unit_bounded, srow_comb, scross_val,
    so_cross, so_normalize, v_sub, v_add, cross, dot, normalize, v_scale,
};
use crate::scene::{Mesh, Model, Triangle3, TriV, tri_coord_fits, scenter, COORD_MAX};
use crate::camera::{Camera, CamV, FocusPoint, sposition, scursor_to_model, FOCUS_MAX};
use crate::screen::NormalizedScreenPosition;

verus! {

/// The ray parameter at which a ray meets a triangle, if it does: a
/// Moeller-Trumbore intersection over fixed-point scalars, accepting both
/// triangle orientations, `None` on a miss, a parallel triangle, or a
/// computation that leaves the storable range.
pub open spec fn stri_hit(o: V3, d: V3, tri: TriV) -> Option<int> {
    let e1 = sv_sub(tri.b, tri.a);
    let e2 = sv_sub(tri.c, tri.a);
    let p = scross_val(d, e2);
    if !fits(srow_comb(e1, p)) {
        None
    } else {
        let det = srow_comb(e1, p);
        if det == 0 {
            None
        } else if !v3_fits(sv_sub(o, tri.a)) {
            None
        } else {
            let tv = sv_sub(o, tri.a);
            if !fits(srow_comb(tv, p)) {
                None
            } else {
                let unum = srow_comb(tv, p);
                if !fits(sdiv(unum, det)) {
                    None
                } else {
                    let u = sdiv(unum, det);
                    if u < 0 || u > SCALE as int {
                        None
                    } else {
                        match so_cross(tv, e1) {
                            Some(q) => {
                                if !fits(srow_comb(d, q)) {
                                    None
                                } else {
                                    let vnum = srow_comb(d, q);
                                    if !fits(sdiv(vnum, det)) {
                                        None
                                    } else {
                                        let v = sdiv(vnum, det);
                                        if v < 0 || u + v > SCALE as int {
                                            None
                                        } else if !fits(srow_comb(e2, q)) {
                                            None
                                        } else {
                                            let tnum = srow_comb(e2, q);
                                            if !fits(sdiv(tnum, det)) {
                                                None
                                            } else {
                                                let tt = sdiv(tnum, det);
                                                if tt < 0 {
                                                    None
                                                } else {
                                                    Some(tt)
                                                }
                                            }
                                        }
                                    }
                                }
                            },
                            None => None,
                        }
                    }
                }
            }
        }
    }
}

/// The smallest hit parameter over a sequence of triangles, a later
/// triangle winning a tie, as the scan keeps the latest of equal hits.
pub open spec fn snearest_hit(tris: Seq<TriV>, o: V3, d: V3) -> Option<int>
    decreases tris.len(),
{
    if tris.len() == 0 {
        None
    } else {
        let prev = snearest_hit(tris.drop_last(), o, d);
        match stri_hit(o, d, tris.last()) {
            Some(t) => match prev {
                Some(m) => if t <= m {
                    Some(t)
                } else {
                    prev
                },
                None => Some(t),
            },
            None => prev,
        }
    }
}

/// Intersection of a ray with one triangle.
pub fn tri_hit(o: &Vec3, d: &Vec3, tri: &Triangle3) -> (r: Option<i64>)
    requires
        o.wf(),
        d.wf(),
        unit_bounded(d@),
        tri.wf(),
    ensures
        agrees(r, stri_hit(o@, d@, tri@)),
        r matches Some(t) ==> 0 <= t <= FIX_MAX,
{
    let e1 = match v_sub(&tri.b, &tri.a) {
        Some(v) => v,
        None => {
            proof {
                assert(false);
            }
            return None;
        },
    };
    let e2 = match v_sub(&tri.c, &tri.a) {
        Some(v) => v,
        None => {
            proof {
                assert(false);
            }
            return None;
        },
    };
    proof {
        lemma_scomb3_bound(
            d@.y,
            e2@.z,
            d@.z,
            -e2@.y,
            0,
            0,
            SCALE as int,
            2 * (COORD_MAX as int),
        );
        lemma_scomb3_bound(
            d@.z,
            e2@.x,
            d@.x,
            -e2@.z,
            0,
            0,
            SCALE as int,
            2 * (COORD_MAX as int),
        );
        lemma_scomb3_bound(
            d@.x,
            e2@.y,
            d@.y,
            -e2@.x,
            0,
            0,
            SCALE as int,
            2 * (COORD_MAX as int),
        );
    }
    let p = match cross(d, &e2) {
        Some(v) => v,
        None => {
            proof {
                assert(false);
            }
            return None;
        },
    };
    let det = match dot(&e1, &p) {
        Some(c) => c,
        None => {
            return None;
        },
    };
    if det == 0 {
        return None;
    }
    let tv = match v_sub(o, &tri.a) {
        Some(v) => v,
        None => {
            return None;
        },
    };
    let unum = match dot(&tv, &p) {
        Some(c) => c,
        None => {
            return None;
        },
    };
    let u = match fx_div(unum, det) {
        Some(c) => c,
        None => {
            return None;
        },
    };
    if u < 0 || u > SCALE {
        return None;
    }
    let q = match cross(&tv, &e1) {
        Some(v) => v,
        None => {
            return None;
        },
    };
    let vnum = match dot(d, &q) {
        Some(c) => c,
        None => {
            return None;
        },
    };
    let v = match fx_div(vnum, det) {
        Some(c) => c,
        None => {
            return None;
        },
    };
    if v < 0 || u + v > SCALE {
        return None;
    }
    let tnum = match dot(&e2, &q) {
        Some(c) => c,
        None => {
            return None;
        },
    };
    let t = match fx_div(tnum, det) {
        Some(c) => c,
        None => {
            return None;
        },
    };
    if t < 0 {
        return None;
    }
    Some(t)
}

/// The nearest hit of a ray over all triangles of a mesh.
pub fn nearest_hit(mesh: &Mesh, o: &Vec3, d: &Vec3) -> (r: Option<i64>)
    requires
        mesh.wf(),
        o.wf(),
        d.wf(),
        unit_bounded(d@),
    ensures
        agrees(r, snearest_hit(mesh@, o@, d@)),
        r matches Some(t) ==> 0 <= t <= FIX_MAX,
{
    let mut best: Option<i64> = None;
    let n = mesh.triangles.len();
    let mut i: usize = 0;
    while i < n
        invariant
            i <= n,
            n == mesh.triangles@.len(),
            mesh.wf(),
            o.wf(),
            d.wf(),
            unit_bounded(d@),
            agrees(best, snearest_hit(mesh@.take(i as int), o@, d@)),
            best matches Some(m) ==> 0 <= m <= FIX_MAX,
        decreases n - i,
    {
        let tri = mesh.triangles[i];
        proof {
            assert(tri@ == mesh@[i as int]);
            assert(tri_coord_fits(mesh@[i as int]));
        }
        let h = tri_hit(o, d, &tri);
        proof {
            assert(mesh@.take(i + 1).drop_last() =~= mesh@.take(i as int));
            assert(mesh@.take(i + 1).last() == mesh@[i as int]);
        }
        match h {
            Some(t) => {
                best = match best {
                    Some(m) => if t <= m {
                        Some(t)
                    } else {
                        Some(m)
                    },
                    None => Some(t),
                };
            },
            None => {},
        }
        i += 1;
    }
    proof {
        assert(mesh@.take(n as int) =~= mesh@);
    }
    best
}

/// The focus point a cursor resolves to against a mesh, if any: the
/// nearest surface point under the cursor, `None` when there is no
/// cursor, no hit, or no storable result.
pub open spec fn scalc_focus(
    c: CamV,
    cursor: Option<NormalizedScreenPosition>,
    mesh: Seq<TriV>,
) -> Option<V3> {
    match cursor {
        None => None,
        Some(cur) => {
            let origin = sposition(c);
            let dirv = sv_sub(scursor_to_model(c, cur), origin);
            match so_normalize(dirv) {
                None => None,
                Some(dir) => match snearest_hit(mesh, origin, dir) {
                    None => None,
                    Some(t) => {
                        let f = sv_add(
                            origin,
                            V3 { x: smul(dir.x, t), y: smul(dir.y, t), z: smul(dir.z, t) },
                        );
                        if v3_bounded(f, FOCUS_MAX as int) {
                            Some(f)
                        } else {
                            None
                        }
                    },
                },
            }
        },
    }
}

/// The focus point a viewer stores at the start of a gesture: the cursor
/// hit where one exists, the center of the model's bounding box otherwise.
pub open spec fn sfocus_point(
    c: CamV,
    cursor: Option<NormalizedScreenPosition>,
    mesh: Seq<TriV>,
    aabb: crate::scene::AabbV,
) -> V3 {
    match scalc_focus(c, cursor, mesh) {
        Some(f) => f,
        None => scenter(aabb),
    }
}

impl Camera {
    /// The model point the cursor points at, if it points at one.
    fn calculate_focus_point(
        &self,
        cursor: Option<NormalizedScreenPosition>,
        mesh: &Mesh,
    ) -> (r: Option<Vec3>)
        requires
            self.wf(),
            mesh.wf(),
            match cursor {
                Some(cur) => cur.wf(),
                None => true,
            },
        ensures
            match r {
                Some(f) => scalc_focus(self@, cursor, mesh@) == Some(f@) && v3_bounded(
                    f@,
                    FOCUS_MAX as int,
                ) && f.wf(),
                None => scalc_focus(self@, cursor, mesh@) is None,
            },
    {
        let cur = match cursor {
            Some(cur) => cur,
            None => {
                return None;
            },
        };
        let origin = self.position();
        let cpoint = self.cursor_to_model_space(cur);
        let dirv = match v_sub(&cpoint, &origin) {
            Some(v) => v,
            None => {
                proof {
                    assert(false);
                }
                return None;
            },
        };
        let dir = match normalize(&dirv) {
            Some(v) => v,
            None => {
                return None;
            },
        };
        let t = match nearest_hit(mesh, &origin, &dir) {
            Some(t) => t,
            None => {
                return None;
            },
        };
        proof {
            lemma_smul_fits(dir@.x, t as int, SCALE as int, FIX_MAX as int);
            lemma_smul_fits(dir@.y, t as int, SCALE as int, FIX_MAX as int);
            lemma_smul_fits(dir@.z, t as int, SCALE as int, FIX_MAX as int);
        }
        let step = match v_scale(&dir, t) {
            Some(v) => v,
            None => {
                proof {
                    assert(false);
                }
                return None;
            },
        };
        let f = match v_add(&origin, &step) {
            Some(v) => v,
            None => {
                return None;
            },
        };
        if f.x >= -FOCUS_MAX && f.x <= FOCUS_MAX && f.y >= -FOCUS_MAX && f.y <= FOCUS_MAX && f.z
            >= -FOCUS_MAX && f.z <= FOCUS_MAX {
            Some(f)
        } else {
            None
        }
    }

    /// Compute the point on the model that the cursor currently points
    /// to, falling back to the center of the model's bounding box when
    /// there is no cursor or no hit.
    pub fn focus_point(&self, cursor: Option<NormalizedScreenPosition>, model: &Model) -> (r:
        FocusPoint)
        requires
            self.wf(),
            model.wf(),
            match cursor {
                Some(cur) => cur.wf(),
                None => true,
            },
        ensures
            r.0@ == sfocus_point(self@, cursor, model.mesh@, model.aabb@),
            r.wf(),
    {
        match self.calculate_focus_point(cursor, &model.mesh) {
            Some(f) => FocusPoint(f),
            None => FocusPoint(model.aabb.center()),
        }
    }
}

} // verus!

//! The model a viewer session displays: a triangulated mesh together with
//! its axis-aligned bounding box.
//!
//! Mesh and box are produced outside this library (by whatever builds and
//! triangulates the geometry) and handed over as plain fixed-point
//! coordinates. They are replaced wholesale on update and never mutated in
//! place.

use vstd::prelude::*;
use crate::fixed::{tdiv, fx_divn, lemma_tdiv_bound};
use crate::geometry::{V3, Vec3};

verus! {

/// Largest magnitude a model-space coordinate may take (10^5 model-space
/// units). Keeping scene coordinates well under the general scalar bound
/// leaves room for the products ray casting and plane fitting form.
pub const COORD_MAX: i64 = 100_000_000_000;

/// A coordinate of the scene: bounded more tightly than a general scalar.
pub open spec fn coord_fits(x: int) -> bool {
    -(COORD_MAX as int) <= x <= COORD_MAX as int
}

pub open spec fn v3_coord_fits(v: V3) -> bool {
    coord_fits(v.x) && coord_fits(v.y) && coord_fits(v.z)
}

/// Ghost model of an axis-aligned bounding box.
pub ghost struct AabbV {
    pub min: V3,
    pub max: V3,
}

/// An axis-aligned bounding box of a model.
#[derive(Clone, Copy, PartialEq, Eq, Structural, Debug)]
pub struct Aabb {
    pub min: Vec3,
    pub max: Vec3,
}

impl View for Aabb {
    type V = AabbV;

    open spec fn view(&self) -> AabbV {
        AabbV { min: self.min@, max: self.max@ }
    }
}

/// Center point of a bounding box, truncated toward zero per component.
pub open spec fn scenter(a: AabbV) -> V3 {
    V3 {
        x: tdiv(a.min.x + a.max.x, 2),
        y: tdiv(a.min.y + a.max.y, 2),
        z: tdiv(a.min.z + a.max.z, 2),
    }
}

/// Corner `i` of a bounding box, for `i` in `0 .. 8`: bit 0 selects the x
/// extent, bit 1 the y extent, bit 2 the z extent.
pub open spec fn scorner(a: AabbV, i: int) -> V3 {
    V3 {
        x: if i % 2 == 1 {
            a.max.x
        } else {
            a.min.x
        },
        y: if (i / 2) % 2 == 1 {
            a.max.y
        } else {
            a.min.y
        },
        z: if i / 4 == 1 {
            a.max.z
        } else {
            a.min.z
        },
    }
}

impl Aabb {
    pub open spec fn wf(&self) -> bool {
        v3_coord_fits(self@.min) && v3_coord_fits(self@.max)
    }

    /// A degenerate box at the origin, standing in while no model is set.
    pub fn empty() -> (r: Aabb)
        ensures
            r@.min == crate::geometry::sv_zero(),
            r@.max == crate::geometry::sv_zero(),
            r.wf(),
    {
        Aabb { min: Vec3::zero(), max: Vec3::zero() }
    }

    /// Center of the box.
    pub fn center(&self) -> (r: Vec3)
        requires
            self.wf(),
        ensures
            r@ == scenter(self@),
            v3_coord_fits(r@),
            r.wf(),
    {
        proof {
            lemma_tdiv_bound(self@.min.x + self@.max.x, 2 * (COORD_MAX as int), 2);
            lemma_tdiv_bound(self@.min.y + self@.max.y, 2 * (COORD_MAX as int), 2);
            lemma_tdiv_bound(self@.min.z + self@.max.z, 2 * (COORD_MAX as int), 2);
            vstd::arithmetic::div_mod::lemma_div_multiples_vanish(COORD_MAX as int, 2);
        }
        Vec3 {
            x: fx_divn(self.min.x + self.max.x, 2),
            y: fx_divn(self.min.y + self.max.y, 2),
            z: fx_divn(self.min.z + self.max.z, 2),
        }
    }

    /// Corner `i` of the box, for `i` in `0 .. 8`.
    pub fn corner(&self, i: usize) -> (r: Vec3)
        requires
            self.wf(),
            i < 8,
        ensures
            r@ == scorner(self@, i as int),
            v3_coord_fits(r@),
            r.wf(),
    {
        let x: i64 = if i % 2 == 1 {
            self.max.x
        } else {
            self.min.x
        };
        let y: i64 = if (i / 2) % 2 == 1 {
            self.max.y
        } else {
            self.min.y
        };
        let z: i64 = if i / 4 == 1 {
            self.max.z
        } else {
            self.min.z
        };
        Vec3 { x, y, z }
    }
}

/// Ghost model of a triangle.
pub ghost struct TriV {
    pub a: V3,
    pub b: V3,
    pub c: V3,
}

/// One triangle of a mesh, by its three corner points.
#[derive(Clone, Copy, PartialEq, Eq, Structural, Debug)]
pub struct Triangle3 {
    pub a: Vec3,
    pub b: Vec3,
    pub c: Vec3,
}

impl View for Triangle3 {
    type V = TriV;

    open spec fn view(&self) -> TriV {
        TriV { a: self.a@, b: self.b@, c: self.c@ }
    }
}

pub open spec fn tri_coord_fits(t: TriV) -> bool {
    v3_coord_fits(t.a) && v3_coord_fits(t.b) && v3_coord_fits(t.c)
}

impl Triangle3 {
    pub open spec fn wf(&self) -> bool {
        tri_coord_fits(self@)
    }
}

/// A triangulated mesh: the triangles a ray is cast against.
#[derive(Clone, PartialEq, Debug)]
pub struct Mesh {
    pub triangles: Vec<Triangle3>,
}

impl View for Mesh {
    type V = Seq<TriV>;

    open spec fn view(&self) -> Seq<TriV> {
        self.triangles@.map_values(|t: Triangle3| t@)
    }
}

impl Mesh {
    pub open spec fn wf(&self) -> bool {
        forall|i: int| 0 <= i < self@.len() ==> tri_coord_fits(#[trigger] self@[i])
    }
}

/// Ghost model of a model: the triangle sequence and the box.
pub ghost struct ModelV {
    pub mesh: Seq<TriV>,
    pub aabb: AabbV,
}

/// A model: a triangulated mesh bundled with its bounding box.
#[derive(Clone, PartialEq, Debug)]
pub struct Model {
    pub mesh: Mesh,
    pub aabb: Aabb,
}

impl View for Model {
    type V = ModelV;

    open spec fn view(&self) -> ModelV {
        ModelV { mesh: self.mesh@, aabb: self.aabb@ }
    }
}

impl Model {
    pub open spec fn wf(&self) -> bool {
        self.mesh.wf() && self.aabb.wf()
    }
}

} // verus!

//! Fixed-point geometry: points measured in thousandths of a world unit and
//! affine transforms with integer linear parts.
use vstd::arithmetic::mul::{
    lemma_mul_is_associative, lemma_mul_is_distributive_add, lemma_mul_is_distributive_add_other_way,
};
use vstd::prelude::*;

verus! {

/// Number of fixed-point steps in one world unit.
pub const UNIT: i32 = 1000;

/// A model-space point, each coordinate in fixed-point steps.
#[derive(Clone, Copy, Debug, PartialEq, Eq, Structural)]
pub struct LocalPoint {
    pub x: i16,
    pub y: i16,
    pub z: i16,
}

/// A world-space point, each coordinate in fixed-point steps.
#[derive(Clone, Copy, Debug, PartialEq, Eq, Structural)]
pub struct Point3 {
    pub x: i64,
    pub y: i64,
    pub z: i64,
}

/// One row of an affine transform: `a*x + b*y + c*z + t`.
/// `a`, `b`, `c` are plain integer factors; `t` is in fixed-point steps.
#[derive(Clone, Copy, Debug, PartialEq, Eq, Structural)]
pub struct Row {
    pub a: i32,
    pub b: i32,
    pub c: i32,
    pub t: i32,
}

/// An affine transform (the homogeneous row is always `0 0 0 1`).
///
/// Only linear parts with whole-number factors are modelled: integer scales,
/// shears and axis permutations, composed with any translation in fixed-point
/// steps. Rotations by other than quarter turns, and fractional scales, are
/// not representable, so every image of a point is exact and no rounding occurs.
#[derive(Clone, Copy, Debug, PartialEq, Eq, Structural)]
pub struct Transform {
    pub x: Row,
    pub y: Row,
    pub z: Row,
}

/// A pure translation by `(x, y, z)` fixed-point steps.
pub open spec fn translation_spec(x: i32, y: i32, z: i32) -> Transform {
    Transform {
        x: Row { a: 1, b: 0, c: 0, t: x },
        y: Row { a: 0, b: 1, c: 0, t: y },
        z: Row { a: 0, b: 0, c: 1, t: z },
    }
}

/// A scaling along the three axes by integer factors.
pub open spec fn scaling_spec(x: i32, y: i32, z: i32) -> Transform {
    Transform {
        x: Row { a: x, b: 0, c: 0, t: 0 },
        y: Row { a: 0, b: y, c: 0, t: 0 },
        z: Row { a: 0, b: 0, c: z, t: 0 },
    }
}

/// Value of one row at an integer point.
pub open spec fn row_at(r: Row, x: int, y: int, z: int) -> int {
    r.a * x + r.b * y + r.c * z + r.t
}

/// The world-space image of a model-space point.
pub open spec fn transform_point(m: Transform, p: LocalPoint) -> Point3 {
    Point3 {
        x: row_at(m.x, p.x as int, p.y as int, p.z as int) as i64,
        y: row_at(m.y, p.x as int, p.y as int, p.z as int) as i64,
        z: row_at(m.z, p.x as int, p.y as int, p.z as int) as i64,
    }
}

/// The row `r` applied after the transform `inner`, as unbounded integers
/// `(a, b, c, t)`.
pub open spec fn composed_row(r: Row, inner: Transform) -> (int, int, int, int) {
    (
        r.a * inner.x.a + r.b * inner.y.a + r.c * inner.z.a,
        r.a * inner.x.b + r.b * inner.y.b + r.c * inner.z.b,
        r.a * inner.x.c + r.b * inner.y.c + r.c * inner.z.c,
        r.a * inner.x.t + r.b * inner.y.t + r.c * inner.z.t + r.t,
    )
}

pub open spec fn fits_i32(v: int) -> bool {
    i32::MIN <= v <= i32::MAX
}

pub open spec fn row_fits(q: (int, int, int, int)) -> bool {
    fits_i32(q.0) && fits_i32(q.1) && fits_i32(q.2) && fits_i32(q.3)
}

pub open spec fn row_matches(r: Row, q: (int, int, int, int)) -> bool {
    r.a == q.0 && r.b == q.1 && r.c == q.2 && r.t == q.3
}

/// The product `outer × inner` has every entry within `i32`.
pub open spec fn composable(outer: Transform, inner: Transform) -> bool {
    row_fits(composed_row(outer.x, inner)) && row_fits(composed_row(outer.y, inner))
        && row_fits(composed_row(outer.z, inner))
}

/// The product `outer × inner`: `inner` is applied first.
pub open spec fn compose_spec(outer: Transform, inner: Transform) -> Transform
    recommends
        composable(outer, inner),
{
    Transform {
        x: row_of(composed_row(outer.x, inner)),
        y: row_of(composed_row(outer.y, inner)),
        z: row_of(composed_row(outer.z, inner)),
    }
}

pub open spec fn row_of(q: (int, int, int, int)) -> Row {
    Row { a: q.0 as i32, b: q.1 as i32, c: q.2 as i32, t: q.3 as i32 }
}

/// Composition is application in sequence: the row of `outer × inner` at a
/// point equals the row of `outer` at the image of that point under `inner`.
pub proof fn lemma_composed_row_at(r: Row, inner: Transform, x: int, y: int, z: int)
    ensures
        ({
            let q = composed_row(r, inner);
            q.0 * x + q.1 * y + q.2 * z + q.3 == row_at(
                r,
                row_at(inner.x, x, y, z),
                row_at(inner.y, x, y, z),
                row_at(inner.z, x, y, z),
            )
        }),
{
    let (x0, y0, z0) = (row_at(inner.x, x, y, z), row_at(inner.y, x, y, z), row_at(inner.z, x, y, z));
    lemma_distribute(r.a as int, inner.x, x, y, z);
    lemma_distribute(r.b as int, inner.y, x, y, z);
    lemma_distribute(r.c as int, inner.z, x, y, z);
    let (ra, rb, rc) = (r.a as int, r.b as int, r.c as int);
    lemma_sum3_mul(ra * inner.x.a, rb * inner.y.a, rc * inner.z.a, x);
    lemma_sum3_mul(ra * inner.x.b, rb * inner.y.b, rc * inner.z.b, y);
    lemma_sum3_mul(ra * inner.x.c, rb * inner.y.c, rc * inner.z.c, z);
}

proof fn lemma_distribute(f: int, row: Row, x: int, y: int, z: int)
    ensures
        f * row_at(row, x, y, z) == (f * row.a) * x + (f * row.b) * y + (f * row.c) * z + f * row.t,
{
    let (a, b, c, t) = (row.a as int, row.b as int, row.c as int, row.t as int);
    lemma_mul_is_distributive_add(f, a * x + b * y + c * z, t);
    lemma_mul_is_distributive_add(f, a * x + b * y, c * z);
    lemma_mul_is_distributive_add(f, a * x, b * y);
    lemma_mul_is_associative(f, a, x);
    lemma_mul_is_associative(f, b, y);
    lemma_mul_is_associative(f, c, z);
}

proof fn lemma_sum3_mul(p: int, q: int, r: int, v: int)
    ensures
        (p + q + r) * v == p * v + q * v + r * v,
{
    lemma_mul_is_distributive_add_other_way(v, p + q, r);
    lemma_mul_is_distributive_add_other_way(v, p, q);
}

/// Applying `outer × inner` to a point gives the same world point as applying
/// `inner` and then `outer`, read as unbounded integers.
pub proof fn lemma_compose_apply(outer: Transform, inner: Transform, p: LocalPoint)
    requires
        composable(outer, inner),
    ensures
        ({
            let m = compose_spec(outer, inner);
            let (x, y, z) = (p.x as int, p.y as int, p.z as int);
            let (ix, iy, iz) = (row_at(inner.x, x, y, z), row_at(inner.y, x, y, z), row_at(inner.z, x, y, z));
            &&& row_at(m.x, x, y, z) == row_at(outer.x, ix, iy, iz)
            &&& row_at(m.y, x, y, z) == row_at(outer.y, ix, iy, iz)
            &&& row_at(m.z, x, y, z) == row_at(outer.z, ix, iy, iz)
        }),
{
    lemma_composed_row_at(outer.x, inner, p.x as int, p.y as int, p.z as int);
    lemma_composed_row_at(outer.y, inner, p.x as int, p.y as int, p.z as int);
    lemma_composed_row_at(outer.z, inner, p.x as int, p.y as int, p.z as int);
}

proof fn lemma_i32_product(f: i32, g: i32)
    ensures
        -0x4000_0000_0000_0000 <= f * g <= 0x4000_0000_0000_0000,
{
    assert(-0x4000_0000_0000_0000 <= (f as int) * (g as int) <= 0x4000_0000_0000_0000)
        by (nonlinear_arith)
        requires
            i32::MIN <= f <= i32::MAX,
            i32::MIN <= g <= i32::MAX,
    ;
}

proof fn lemma_i32_products()
    ensures
        forall|f: i32, g: i32|
            -0x4000_0000_0000_0000 <= #[trigger] (f * g) <= 0x4000_0000_0000_0000,
{
    assert forall|f: i32, g: i32|
        -0x4000_0000_0000_0000 <= #[trigger] (f * g) <= 0x4000_0000_0000_0000 by {
        lemma_i32_product(f, g);
    }
}

proof fn lemma_term_bound(f: int, v: int)
    requires
        -0x8000_0000 <= f <= 0x7fff_ffff,
        -0x8000 <= v <= 0x7fff,
    ensures
        -0x4000_0000_0000 <= f * v <= 0x4000_0000_0000,
{
    assert(-0x4000_0000_0000 <= f * v <= 0x4000_0000_0000) by (nonlinear_arith)
        requires
            -0x8000_0000 <= f <= 0x7fff_ffff,
            -0x8000 <= v <= 0x7fff,
    ;
}

impl Row {
    fn eval(&self, p: &LocalPoint) -> (v: i64)
        ensures
            v as int == row_at(*self, p.x as int, p.y as int, p.z as int),
    {
        proof {
            lemma_term_bound(self.a as int, p.x as int);
            lemma_term_bound(self.b as int, p.y as int);
            lemma_term_bound(self.c as int, p.z as int);
        }
        let ax = (self.a as i64) * (p.x as i64);
        let by = (self.b as i64) * (p.y as i64);
        let cz = (self.c as i64) * (p.z as i64);
        ax + by + cz + self.t as i64
    }
}

impl Transform {
    /// A pure translation by `(x, y, z)` fixed-point steps.
    pub fn translation(x: i32, y: i32, z: i32) -> (m: Transform)
        ensures
            m == translation_spec(x, y, z),
    {
        Transform {
            x: Row { a: 1, b: 0, c: 0, t: x },
            y: Row { a: 0, b: 1, c: 0, t: y },
            z: Row { a: 0, b: 0, c: 1, t: z },
        }
    }

    /// A scaling along the three axes by integer factors.
    pub fn scaling(x: i32, y: i32, z: i32) -> (m: Transform)
        ensures
            m == scaling_spec(x, y, z),
    {
        Transform {
            x: Row { a: x, b: 0, c: 0, t: 0 },
            y: Row { a: 0, b: y, c: 0, t: 0 },
            z: Row { a: 0, b: 0, c: z, t: 0 },
        }
    }

    fn compose_row(r: &Row, inner: &Transform) -> (o: Row)
        requires
            row_fits(composed_row(*r, *inner)),
        ensures
            row_matches(o, composed_row(*r, *inner)),
    {
        proof {
            lemma_i32_products();
        }
        let (ra, rb, rc) = (r.a as i128, r.b as i128, r.c as i128);
        let a = ra * (inner.x.a as i128) + rb * (inner.y.a as i128) + rc * (inner.z.a as i128);
        let b = ra * (inner.x.b as i128) + rb * (inner.y.b as i128) + rc * (inner.z.b as i128);
        let c = ra * (inner.x.c as i128) + rb * (inner.y.c as i128) + rc * (inner.z.c as i128);
        let t = ra * (inner.x.t as i128) + rb * (inner.y.t as i128) + rc * (inner.z.t as i128)
            + r.t as i128;
        Row { a: a as i32, b: b as i32, c: c as i32, t: t as i32 }
    }

    /// The product `self × inner`: the result maps a point as `inner` does
    /// and then as `self` does.
    pub fn compose(&self, inner: &Transform) -> (m: Transform)
        requires
            composable(*self, *inner),
        ensures
            m == compose_spec(*self, *inner),
    {
        Transform {
            x: Transform::compose_row(&self.x, inner),
            y: Transform::compose_row(&self.y, inner),
            z: Transform::compose_row(&self.z, inner),
        }
    }

    /// Maps a model-space point into world space.
    pub fn apply(&self, p: &LocalPoint) -> (r: Point3)
        ensures
            r == transform_point(*self, *p),
            r.x as int == row_at(self.x, p.x as int, p.y as int, p.z as int),
            r.y as int == row_at(self.y, p.x as int, p.y as int, p.z as int),
            r.z as int == row_at(self.z, p.x as int, p.y as int, p.z as int),
    {
        Point3 { x: self.x.eval(p), y: self.y.eval(p), z: self.z.eval(p) }
    }
}

} // verus!

//! Points, rectangles and affine transforms: pure value math with no error
//! conditions.
//!
//! Coordinates are integers in device-independent units. Every operation is
//! exact; nothing is rounded, so transform composition is associative (see
//! [`lemma_compose_associative`]). Callers that work in fractional units pick
//! their own fixed-point scale when they hand coordinates in.

use vstd::prelude::*;

verus! {

/// Largest magnitude a scene coordinate may have. Keeps every product that
/// the rendering contract forms (a size times a pixel ratio) inside `i64`.
pub const COORD_LIMIT: i64 = 2147483648;

/// Largest magnitude a transform coefficient may have. Keeps every
/// coefficient of a composition of two well-formed transforms inside `i64`.
pub const TRANSFORM_LIMIT: i64 = 1048576;

/// Largest pixel ratio a frame may have.
pub const PIXEL_RATIO_LIMIT: i64 = 65536;

/// A point or a vector; a plain value type.
#[derive(Clone, Copy, Debug, PartialEq, Eq, Structural)]
pub struct Vec2D {
    pub x: i64,
    pub y: i64,
}

/// An axis-aligned region, used as a world-space viewport.
#[derive(Clone, Copy, Debug, PartialEq, Eq, Structural)]
pub struct Rect2D {
    pub position: Vec2D,
    pub size: Vec2D,
}

/// A 2D affine map stored as six coefficients `(a, b, c, d, e, f)`
/// representing `[x', y'] = [a c; b d] * [x, y] + [e, f]`.
///
/// Transforms are immutable value types; composition is matrix
/// multiplication and never commutes in general.
#[derive(Clone, Copy, Debug, PartialEq, Eq, Structural)]
pub struct Transform2D {
    pub a: i64,
    pub b: i64,
    pub c: i64,
    pub d: i64,
    pub e: i64,
    pub f: i64,
}

/// The mathematical model of an affine map: the same six coefficients as
/// unbounded integers.
pub struct Affine {
    pub a: int,
    pub b: int,
    pub c: int,
    pub d: int,
    pub e: int,
    pub f: int,
}

impl View for Transform2D {
    type V = Affine;

    open spec fn view(&self) -> Affine {
        Affine {
            a: self.a as int,
            b: self.b as int,
            c: self.c as int,
            d: self.d as int,
            e: self.e as int,
            f: self.f as int,
        }
    }
}

/// Exact composition of two affine maps: the matrix product `m * n`, so that
/// applying the result means applying `n` first and `m` second. Composing a
/// parent with a child expresses the child's geometry in the parent's
/// coordinate space.
pub open spec fn affine_compose(m: Affine, n: Affine) -> Affine {
    Affine {
        a: m.a * n.a + m.c * n.b,
        b: m.b * n.a + m.d * n.b,
        c: m.a * n.c + m.c * n.d,
        d: m.b * n.c + m.d * n.d,
        e: m.a * n.e + m.c * n.f + m.e,
        f: m.b * n.e + m.d * n.f + m.f,
    }
}

/// Where an affine map sends the point `(x, y)`.
pub open spec fn affine_apply(m: Affine, x: int, y: int) -> (int, int) {
    (m.a * x + m.c * y + m.e, m.b * x + m.d * y + m.f)
}

pub open spec fn vec2_wf(v: Vec2D) -> bool {
    &&& -COORD_LIMIT <= v.x <= COORD_LIMIT
    &&& -COORD_LIMIT <= v.y <= COORD_LIMIT
}

pub open spec fn rect_wf(r: Rect2D) -> bool {
    vec2_wf(r.position) && vec2_wf(r.size)
}

pub open spec fn transform_wf(t: Transform2D) -> bool {
    &&& -TRANSFORM_LIMIT <= t.a <= TRANSFORM_LIMIT
    &&& -TRANSFORM_LIMIT <= t.b <= TRANSFORM_LIMIT
    &&& -TRANSFORM_LIMIT <= t.c <= TRANSFORM_LIMIT
    &&& -TRANSFORM_LIMIT <= t.d <= TRANSFORM_LIMIT
    &&& -TRANSFORM_LIMIT <= t.e <= TRANSFORM_LIMIT
    &&& -TRANSFORM_LIMIT <= t.f <= TRANSFORM_LIMIT
}

/// The composition of two transform values, coefficient for coefficient.
/// For well-formed operands this is exactly [`affine_compose`] of their
/// models (see [`lemma_compose_exact`]).
pub open spec fn compose_transforms(m: Transform2D, n: Transform2D) -> Transform2D {
    Transform2D {
        a: (m.a * n.a + m.c * n.b) as i64,
        b: (m.b * n.a + m.d * n.b) as i64,
        c: (m.a * n.c + m.c * n.d) as i64,
        d: (m.b * n.c + m.d * n.d) as i64,
        e: (m.a * n.e + m.c * n.f + m.e) as i64,
        f: (m.b * n.e + m.d * n.f + m.f) as i64,
    }
}

impl Vec2D {
    pub fn new(x: i64, y: i64) -> (r: Vec2D)
        ensures
            r == (Vec2D { x, y }),
    {
        Vec2D { x, y }
    }

    /// The origin.
    pub fn zero() -> (r: Vec2D)
        ensures
            r == (Vec2D { x: 0, y: 0 }),
    {
        Vec2D { x: 0, y: 0 }
    }
}

impl Rect2D {
    pub fn new(position: Vec2D, size: Vec2D) -> (r: Rect2D)
        ensures
            r == (Rect2D { position, size }),
    {
        Rect2D { position, size }
    }
}

impl Transform2D {
    /// The identity map, also the default orientation of every scene object.
    pub fn identity() -> (r: Transform2D)
        ensures
            r == identity_transform(),
    {
        Transform2D { a: 1, b: 0, c: 0, d: 1, e: 0, f: 0 }
    }

    /// A pure translation by `v`.
    pub fn translate(v: Vec2D) -> (r: Transform2D)
        requires
            -TRANSFORM_LIMIT <= v.x <= TRANSFORM_LIMIT,
            -TRANSFORM_LIMIT <= v.y <= TRANSFORM_LIMIT,
        ensures
            r == (Transform2D { a: 1, b: 0, c: 0, d: 1, e: v.x, f: v.y }),
            transform_wf(r),
    {
        Transform2D { a: 1, b: 0, c: 0, d: 1, e: v.x, f: v.y }
    }

    /// A scale by `sx` along x and `sy` along y.
    pub fn scale(sx: i64, sy: i64) -> (r: Transform2D)
        requires
            -TRANSFORM_LIMIT <= sx <= TRANSFORM_LIMIT,
            -TRANSFORM_LIMIT <= sy <= TRANSFORM_LIMIT,
        ensures
            r == (Transform2D { a: sx, b: 0, c: 0, d: sy, e: 0, f: 0 }),
            transform_wf(r),
    {
        Transform2D { a: sx, b: 0, c: 0, d: sy, e: 0, f: 0 }
    }

    /// Matrix multiplication `self * child`: the child's geometry expressed
    /// in this transform's coordinate space. Exact: no rounding happens.
    pub fn compose(&self, child: &Transform2D) -> (r: Transform2D)
        requires
            transform_wf(*self),
            transform_wf(*child),
        ensures
            r == compose_transforms(*self, *child),
            r@ == affine_compose(self@, child@),
    {
        proof {
            lemma_compose_in_range(*self, *child);
        }
        let r = Transform2D {
            a: self.a * child.a + self.c * child.b,
            b: self.b * child.a + self.d * child.b,
            c: self.a * child.c + self.c * child.d,
            d: self.b * child.c + self.d * child.d,
            e: self.a * child.e + self.c * child.f + self.e,
            f: self.b * child.e + self.d * child.f + self.f,
        };
        proof {
            lemma_compose_exact(*self, *child);
        }
        r
    }

    /// The six coefficients in the order `(a, b, c, d, e, f)`, the form a
    /// backend consumes.
    pub fn to_matrix(&self) -> (r: [i64; 6])
        ensures
            r@ == seq![self.a, self.b, self.c, self.d, self.e, self.f],
    {
        let r = [self.a, self.b, self.c, self.d, self.e, self.f];
        proof {
            assert(r@ =~= seq![self.a, self.b, self.c, self.d, self.e, self.f]);
        }
        r
    }
}

pub open spec fn identity_transform() -> Transform2D {
    Transform2D { a: 1, b: 0, c: 0, d: 1, e: 0, f: 0 }
}

/// Every coefficient of a composition of well-formed transforms stays well
/// inside `i64`.
proof fn lemma_compose_in_range(m: Transform2D, n: Transform2D)
    requires
        transform_wf(m),
        transform_wf(n),
    ensures
        forall|p: int, q: int|
            -TRANSFORM_LIMIT <= p <= TRANSFORM_LIMIT && -TRANSFORM_LIMIT <= q <= TRANSFORM_LIMIT
                ==> #[trigger] (p * q) <= TRANSFORM_LIMIT * TRANSFORM_LIMIT && -(TRANSFORM_LIMIT
                * TRANSFORM_LIMIT) <= p * q,
{
    assert forall|p: int, q: int|
        -TRANSFORM_LIMIT <= p <= TRANSFORM_LIMIT && -TRANSFORM_LIMIT <= q <= TRANSFORM_LIMIT
            implies #[trigger] (p * q) <= TRANSFORM_LIMIT * TRANSFORM_LIMIT && -(TRANSFORM_LIMIT
            * TRANSFORM_LIMIT) <= p * q by {
        assert(p * q <= TRANSFORM_LIMIT * TRANSFORM_LIMIT && -(TRANSFORM_LIMIT * TRANSFORM_LIMIT)
            <= p * q) by (nonlinear_arith)
            requires
                -TRANSFORM_LIMIT <= p <= TRANSFORM_LIMIT,
                -TRANSFORM_LIMIT <= q <= TRANSFORM_LIMIT,
        ;
    }
}

/// For well-formed operands the value-level composition agrees with the
/// exact mathematical one: no coefficient is truncated.
pub proof fn lemma_compose_exact(m: Transform2D, n: Transform2D)
    requires
        transform_wf(m),
        transform_wf(n),
    ensures
        compose_transforms(m, n)@ == affine_compose(m@, n@),
{
    lemma_compose_in_range(m, n);
}

/// Composition of affine maps is associative: `(x * y) * z == x * (y * z)`.
/// Coordinates are exact integers, so this holds with no tolerance at all.
pub proof fn lemma_compose_associative(x: Affine, y: Affine, z: Affine)
    ensures
        affine_compose(affine_compose(x, y), z) == affine_compose(x, affine_compose(y, z)),
{
    lemma_row_assoc(x.a, x.c, y.a, y.b, y.c, y.d, 0, 0, z.a, z.b, 0);
    lemma_row_assoc(x.b, x.d, y.a, y.b, y.c, y.d, 0, 0, z.a, z.b, 0);
    lemma_row_assoc(x.a, x.c, y.a, y.b, y.c, y.d, 0, 0, z.c, z.d, 0);
    lemma_row_assoc(x.b, x.d, y.a, y.b, y.c, y.d, 0, 0, z.c, z.d, 0);
    lemma_row_assoc(x.a, x.c, y.a, y.b, y.c, y.d, y.e, y.f, z.e, z.f, x.e);
    lemma_row_assoc(x.b, x.d, y.a, y.b, y.c, y.d, y.e, y.f, z.e, z.f, x.f);
}

/// One coefficient of the associativity identity: a row `(p, q)` of the left
/// matrix distributed over a column `(u, v, 1)` mapped through the middle
/// matrix, with `w` the row's own translation term.
proof fn lemma_row_assoc(
    p: int,
    q: int,
    ya: int,
    yb: int,
    yc: int,
    yd: int,
    ye: int,
    yf: int,
    u: int,
    v: int,
    w: int,
)
    ensures
        (p * ya + q * yb) * u + (p * yc + q * yd) * v + (p * ye + q * yf + w) == p * (ya * u + yc
            * v + ye) + q * (yb * u + yd * v + yf) + w,
{
    vstd::arithmetic::mul::lemma_mul_is_distributive_add_other_way(u, p * ya, q * yb);
    vstd::arithmetic::mul::lemma_mul_is_associative(p, ya, u);
    vstd::arithmetic::mul::lemma_mul_is_associative(q, yb, u);
    vstd::arithmetic::mul::lemma_mul_is_distributive_add_other_way(v, p * yc, q * yd);
    vstd::arithmetic::mul::lemma_mul_is_associative(p, yc, v);
    vstd::arithmetic::mul::lemma_mul_is_associative(q, yd, v);
    vstd::arithmetic::mul::lemma_mul_is_distributive_add(p, ya * u + yc * v, ye);
    vstd::arithmetic::mul::lemma_mul_is_distributive_add(p, ya * u, yc * v);
    vstd::arithmetic::mul::lemma_mul_is_distributive_add(q, yb * u + yd * v, yf);
    vstd::arithmetic::mul::lemma_mul_is_distributive_add(q, yb * u, yd * v);
}

/// Composition means "apply the child, then the parent": applying `m * n` to
/// a point is applying `n` first and `m` to the result.
pub proof fn lemma_compose_applies(m: Affine, n: Affine, x: int, y: int)
    ensures
        affine_apply(affine_compose(m, n), x, y) == affine_apply(
            m,
            affine_apply(n, x, y).0,
            affine_apply(n, x, y).1,
        ),
{
    lemma_row_assoc(m.a, m.c, n.a, n.b, n.c, n.d, n.e, n.f, x, y, m.e);
    lemma_row_assoc(m.b, m.d, n.a, n.b, n.c, n.d, n.e, n.f, x, y, m.f);
}

} // verus!

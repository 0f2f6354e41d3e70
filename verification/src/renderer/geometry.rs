//! The geometry behind the intersection tests, in exact arithmetic.
//!
//! The renderer computes with rounded numbers. What it computes are the
//! formulas of this module, and what makes them the right formulas is
//! proved here over the integers, where nothing is rounded: the identities
//! are polynomial and hold as well over the rationals and the reals.

use vstd::prelude::*;

verus! {

/// A point or a vector of space with exact coordinates.
pub struct Exact {
    pub x: int,
    pub y: int,
    pub z: int,
}

/// The sum of two vectors.
pub open spec fn plus(a: Exact, b: Exact) -> Exact {
    Exact { x: a.x + b.x, y: a.y + b.y, z: a.z + b.z }
}

/// The difference of two vectors.
pub open spec fn minus(a: Exact, b: Exact) -> Exact {
    Exact { x: a.x - b.x, y: a.y - b.y, z: a.z - b.z }
}

/// A vector stretched by `t`.
pub open spec fn scaled(t: int, a: Exact) -> Exact {
    Exact { x: t * a.x, y: t * a.y, z: t * a.z }
}

/// The dot product.
pub open spec fn inner(a: Exact, b: Exact) -> int {
    a.x * b.x + a.y * b.y + a.z * b.z
}

/// The point of the ray from `origin` along `direction` at parameter `t`.
pub open spec fn along(origin: Exact, direction: Exact, t: int) -> Exact {
    plus(origin, scaled(t, direction))
}

/// The quadratic of the sphere test at `t`: `a t² + 2 half_b t + c` with
/// `a = D·D`, `half_b = (O - C)·D` and `c = |O - C|² - r²`.
pub open spec fn sphere_quadratic(origin: Exact, direction: Exact, center: Exact, radius: int, t: int)
    -> int {
    let oc = minus(origin, center);
    inner(direction, direction) * t * t + 2 * inner(oc, direction) * t + (inner(oc, oc) - radius
        * radius)
}

/// The cross product.
pub open spec fn cross(a: Exact, b: Exact) -> Exact {
    Exact { x: a.y * b.z - a.z * b.y, y: a.z * b.x - a.x * b.z, z: a.x * b.y - a.y * b.x }
}

/// `v` mirrored at the plane with normal `n`: `v - 2 (v·n) n`.
pub open spec fn mirrored(v: Exact, n: Exact) -> Exact {
    minus(v, scaled(2 * inner(v, n), n))
}

/// The dot product is linear in each argument and symmetric.
pub proof fn lemma_inner_is_bilinear(a: Exact, b: Exact, c: Exact, t: int)
    ensures
        inner(a, b) == inner(b, a),
        inner(plus(a, b), c) == inner(a, c) + inner(b, c),
        inner(minus(a, b), c) == inner(a, c) - inner(b, c),
        inner(scaled(t, a), b) == t * inner(a, b),
{
    assert(inner(a, b) == inner(b, a)) by (nonlinear_arith)
        requires
            inner(a, b) == a.x * b.x + a.y * b.y + a.z * b.z,
            inner(b, a) == b.x * a.x + b.y * a.y + b.z * a.z,
    ;
    assert(inner(plus(a, b), c) == inner(a, c) + inner(b, c)) by (nonlinear_arith)
        requires
            inner(plus(a, b), c) == (a.x + b.x) * c.x + (a.y + b.y) * c.y + (a.z + b.z) * c.z,
            inner(a, c) == a.x * c.x + a.y * c.y + a.z * c.z,
            inner(b, c) == b.x * c.x + b.y * c.y + b.z * c.z,
    ;
    assert(inner(minus(a, b), c) == inner(a, c) - inner(b, c)) by (nonlinear_arith)
        requires
            inner(minus(a, b), c) == (a.x - b.x) * c.x + (a.y - b.y) * c.y + (a.z - b.z) * c.z,
            inner(a, c) == a.x * c.x + a.y * c.y + a.z * c.z,
            inner(b, c) == b.x * c.x + b.y * c.y + b.z * c.z,
    ;
    assert((t * a.x) * b.x == t * (a.x * b.x)) by (nonlinear_arith);
    assert((t * a.y) * b.y == t * (a.y * b.y)) by (nonlinear_arith);
    assert((t * a.z) * b.z == t * (a.z * b.z)) by (nonlinear_arith);
    let (p, q, r) = (a.x * b.x, a.y * b.y, a.z * b.z);
    assert(t * (p + q + r) == t * p + t * q + t * r) by (nonlinear_arith);
}

/// The quadratic of the sphere test measures how far the point of the ray
/// is from the sphere's surface: at every `t` it is the squared distance
/// of the point from the centre, less the squared radius. So the points of
/// the ray on the sphere are exactly the roots of the quadratic.
pub proof fn lemma_sphere_quadratic_is_distance(
    origin: Exact,
    direction: Exact,
    center: Exact,
    radius: int,
    t: int,
)
    ensures
        ({
            let to_point = minus(along(origin, direction, t), center);
            inner(to_point, to_point) - radius * radius == sphere_quadratic(
                origin,
                direction,
                center,
                radius,
                t,
            )
        }),
        ({
            let to_point = minus(along(origin, direction, t), center);
            inner(to_point, to_point) == radius * radius <==> sphere_quadratic(
                origin,
                direction,
                center,
                radius,
                t,
            ) == 0
        }),
{
    let oc = minus(origin, center);
    let step = scaled(t, direction);
    let to_point = minus(along(origin, direction, t), center);
    assert(to_point == plus(oc, step));
    lemma_inner_is_bilinear(oc, step, plus(oc, step), t);
    lemma_inner_is_bilinear(oc, step, oc, t);
    lemma_inner_is_bilinear(oc, step, step, t);
    lemma_inner_is_bilinear(direction, oc, oc, t);
    lemma_inner_is_bilinear(direction, step, step, t);
    lemma_inner_is_bilinear(step, oc, direction, t);
    lemma_inner_is_bilinear(direction, direction, direction, t);
    let dd = inner(direction, direction);
    let od = inner(oc, direction);
    let oo = inner(oc, oc);
    assert(inner(step, oc) == t * inner(direction, oc));
    assert(inner(step, step) == t * inner(direction, step));
    assert(inner(direction, step) == inner(step, direction));
    assert(inner(step, direction) == t * dd);
    assert(inner(to_point, to_point) == oo + inner(oc, step) + inner(step, oc) + inner(step, step));
    assert(inner(oc, step) == inner(step, oc));
    assert(inner(direction, oc) == od);
    assert(oo + t * od + t * od + t * (t * dd) == dd * t * t + 2 * od * t + oo) by (nonlinear_arith);
}

/// The square of a coordinate of the ray at `t`.
proof fn lemma_coordinate_square(o: int, d: int, t: int)
    ensures
        (o + t * d) * (o + t * d) == (d * d) * t * t + 2 * (o * d) * t + o * o,
{
    assert((o + t * d) * (o + t * d) == (d * d) * t * t + 2 * (o * d) * t + o * o)
        by (nonlinear_arith);
}

/// The quadratic of the cylinder test measures how far the point of the
/// ray is from the cylinder's wall: with `o` the ray's origin seen from
/// the cylinder's centre, `a = dx² + dz²`, `b = 2 (ox dx + oz dz)` and
/// `c = ox² + oz² - r²`, the value `a t² + b t + c` is the squared
/// distance of the point from the axis, less the squared radius.
pub proof fn lemma_cylinder_quadratic_is_distance(o: Exact, direction: Exact, radius: int, t: int)
    ensures
        ({
            let p = along(o, direction, t);
            let a = direction.x * direction.x + direction.z * direction.z;
            let b = 2 * (o.x * direction.x + o.z * direction.z);
            let c = o.x * o.x + o.z * o.z - radius * radius;
            p.x * p.x + p.z * p.z - radius * radius == a * t * t + b * t + c
        }),
{
    lemma_coordinate_square(o.x, direction.x, t);
    lemma_coordinate_square(o.z, direction.z, t);
    let (dx2, dz2) = (direction.x * direction.x, direction.z * direction.z);
    let (ox, oz) = (o.x * direction.x, o.z * direction.z);
    assert((dx2 + dz2) * t * t == dx2 * t * t + dz2 * t * t) by (nonlinear_arith);
    assert((2 * (ox + oz)) * t == 2 * ox * t + 2 * oz * t) by (nonlinear_arith);
}

/// The quadratic of the cone test vanishes on the cone: with `o` the ray's
/// origin seen from the cone's centre, `top` half the cone's height and
/// `k2` the square of radius over height, the value `a t² + b t + c` of
/// the test is `x² + z² - k2 (y - top)²` at the point of the ray.
pub proof fn lemma_cone_quadratic_is_distance(o: Exact, direction: Exact, k2: int, top: int, t: int)
    ensures
        ({
            let p = along(o, direction, t);
            let a = direction.x * direction.x + direction.z * direction.z - k2 * direction.y
                * direction.y;
            let b = 2 * (o.x * direction.x + o.z * direction.z - k2 * (o.y - top) * direction.y);
            let c = o.x * o.x + o.z * o.z - k2 * (o.y - top) * (o.y - top);
            p.x * p.x + p.z * p.z - k2 * ((p.y - top) * (p.y - top)) == a * t * t + b * t + c
        }),
{
    lemma_coordinate_square(o.x, direction.x, t);
    lemma_coordinate_square(o.z, direction.z, t);
    lemma_coordinate_square(o.y - top, direction.y, t);
    let (dx2, dz2, dy2) = (
        direction.x * direction.x,
        direction.z * direction.z,
        direction.y * direction.y,
    );
    let (ox, oz, oy) = (o.x * direction.x, o.z * direction.z, (o.y - top) * direction.y);
    let oo = (o.y - top) * (o.y - top);
    let p = along(o, direction, t);
    assert(p.y - top == (o.y - top) + t * direction.y);
    assert(k2 * (dy2 * t * t + 2 * oy * t + oo) == (k2 * dy2) * t * t + 2 * (k2 * oy) * t + k2
        * oo) by (nonlinear_arith);
    assert((dx2 + dz2 - k2 * dy2) * t * t == dx2 * t * t + dz2 * t * t - (k2 * dy2) * t * t)
        by (nonlinear_arith);
    assert((2 * (ox + oz - k2 * oy)) * t == 2 * ox * t + 2 * oz * t - 2 * (k2 * oy) * t)
        by (nonlinear_arith);
    assert(k2 * (o.y - top) * direction.y == k2 * oy) by (nonlinear_arith)
        requires
            oy == (o.y - top) * direction.y,
    ;
    assert(k2 * direction.y * direction.y == k2 * dy2) by (nonlinear_arith)
        requires
            dy2 == direction.y * direction.y,
    ;
    assert(k2 * (o.y - top) * (o.y - top) == k2 * oo) by (nonlinear_arith)
        requires
            oo == (o.y - top) * (o.y - top),
    ;
}

/// The roots that the sphere test takes are roots: a `t` with
/// `a t + half_b = s` for a square root `s` of the discriminant
/// `half_b² - a c` makes `a t² + 2 half_b t + c` vanish, where `a` is not
/// zero.
pub proof fn lemma_root_formula(a: int, half_b: int, c: int, s: int, t: int)
    requires
        a != 0,
        s * s == half_b * half_b - a * c,
        a * t + half_b == s || a * t + half_b == -s,
    ensures
        a * t * t + 2 * half_b * t + c == 0,
{
    assert(a * (a * t * t + 2 * half_b * t + c) == (a * t + half_b) * (a * t + half_b) - (half_b
        * half_b - a * c)) by (nonlinear_arith);
    assert((a * t + half_b) * (a * t + half_b) == s * s) by (nonlinear_arith)
        requires
            a * t + half_b == s || a * t + half_b == -s,
    ;
    assert(a * t * t + 2 * half_b * t + c == 0) by (nonlinear_arith)
        requires
            a != 0,
            a * (a * t * t + 2 * half_b * t + c) == 0,
    ;
}

/// A hit shows the front of a surface exactly when the ray comes from
/// outside: where the hit lies ahead on the ray, the ray's direction makes
/// a negative dot product with the outward normal exactly when the ray's
/// origin lies on the side of the surface point to which the normal
/// points.
pub proof fn lemma_front_face_is_outside(origin: Exact, direction: Exact, normal: Exact, t: int)
    requires
        t > 0,
    ensures
        inner(direction, normal) < 0 <==> inner(
            minus(origin, along(origin, direction, t)),
            normal,
        ) > 0,
{
    let back = minus(origin, along(origin, direction, t));
    assert(-(t * direction.x) == (-t) * direction.x) by (nonlinear_arith);
    assert(-(t * direction.y) == (-t) * direction.y) by (nonlinear_arith);
    assert(-(t * direction.z) == (-t) * direction.z) by (nonlinear_arith);
    assert(back == scaled(-t, direction));
    lemma_inner_is_bilinear(direction, normal, normal, -t);
    let facing = inner(direction, normal);
    assert(inner(back, normal) == (-t) * facing);
    assert(facing < 0 <==> (-t) * facing > 0) by (nonlinear_arith)
        requires
            t > 0,
    ;
}

/// The distance of the plane test is where the ray crosses the plane: with
/// `denominator = n·D`, a `t` with `t * denominator = (P - O)·n` puts the
/// point of the ray into the plane through `P` with normal `n`.
pub proof fn lemma_plane_crossing(origin: Exact, direction: Exact, point: Exact, normal: Exact, t: int)
    requires
        t * inner(normal, direction) == inner(minus(point, origin), normal),
    ensures
        inner(minus(along(origin, direction, t), point), normal) == 0,
{
    let step = scaled(t, direction);
    let po = minus(point, origin);
    assert(minus(along(origin, direction, t), point) == minus(step, po));
    lemma_inner_is_bilinear(step, po, normal, t);
    lemma_inner_is_bilinear(direction, normal, normal, t);
    lemma_inner_is_bilinear(normal, direction, direction, t);
}

/// One coordinate of the double cross product.
proof fn lemma_double_cross_coordinate(
    a1: int,
    a2: int,
    a3: int,
    b1: int,
    b2: int,
    b3: int,
    c1: int,
    c2: int,
    c3: int,
)
    ensures
        a2 * (b1 * c2 - b2 * c1) - a3 * (b3 * c1 - b1 * c3) == (a1 * c1 + a2 * c2 + a3 * c3) * b1
            - (a1 * b1 + a2 * b2 + a3 * b3) * c1,
{
    assert(a2 * (b1 * c2 - b2 * c1) == a2 * (b1 * c2) - a2 * (b2 * c1)) by (nonlinear_arith);
    assert(a3 * (b3 * c1 - b1 * c3) == a3 * (b3 * c1) - a3 * (b1 * c3)) by (nonlinear_arith);
    assert(a2 * (b1 * c2) == (a2 * c2) * b1) by (nonlinear_arith);
    assert(a2 * (b2 * c1) == (a2 * b2) * c1) by (nonlinear_arith);
    assert(a3 * (b3 * c1) == (a3 * b3) * c1) by (nonlinear_arith);
    assert(a3 * (b1 * c3) == (a3 * c3) * b1) by (nonlinear_arith);
    assert((a1 * c1) * b1 == (a1 * b1) * c1) by (nonlinear_arith);
    let (p, q, r) = (a1 * c1, a2 * c2, a3 * c3);
    assert((p + q + r) * b1 == p * b1 + q * b1 + r * b1) by (nonlinear_arith);
    let (u, v, w) = (a1 * b1, a2 * b2, a3 * b3);
    assert((u + v + w) * c1 == u * c1 + v * c1 + w * c1) by (nonlinear_arith);
}

/// The double cross product: `a × (b × c) = (a·c) b - (a·b) c`.
pub proof fn lemma_double_cross(a: Exact, b: Exact, c: Exact)
    ensures
        cross(a, cross(b, c)) == minus(scaled(inner(a, c), b), scaled(inner(a, b), c)),
{
    lemma_double_cross_coordinate(a.x, a.y, a.z, b.x, b.y, b.z, c.x, c.y, c.z);
    lemma_double_cross_coordinate(a.y, a.z, a.x, b.y, b.z, b.x, c.y, c.z, c.x);
    lemma_double_cross_coordinate(a.z, a.x, a.y, b.z, b.x, b.y, c.z, c.x, c.y);
}

/// Swapping the factors of a cross product turns it around.
pub proof fn lemma_cross_swaps(a: Exact, b: Exact)
    ensures
        cross(a, b) == scaled(-1, cross(b, a)),
{
    assert(a.y * b.z - a.z * b.y == -1 * (b.y * a.z - b.z * a.y)) by (nonlinear_arith);
    assert(a.z * b.x - a.x * b.z == -1 * (b.z * a.x - b.x * a.z)) by (nonlinear_arith);
    assert(a.x * b.y - a.y * b.x == -1 * (b.x * a.y - b.y * a.x)) by (nonlinear_arith);
}

/// The triangle test solves the right equation: with `h = D × E2`,
/// `a = E1·h`, `s = O - V0` and `q = s × E1`, the numbers `a u = s·h`,
/// `a v = D·q` and `a t = E2·q` satisfy `s + t D = u E1 + v E2`, each side
/// times `a`. So where `a` is not zero, the point of the ray at `t` is the
/// point of the triangle's plane with the barycentric coordinates `u` and
/// `v`.
pub proof fn lemma_triangle_solution(origin: Exact, direction: Exact, v0: Exact, e1: Exact, e2: Exact)
    ensures
        ({
            let h = cross(direction, e2);
            let a = inner(e1, h);
            let s = minus(origin, v0);
            let q = cross(s, e1);
            plus(scaled(a, s), scaled(inner(e2, q), direction)) == plus(
                scaled(inner(s, h), e1),
                scaled(inner(direction, q), e2),
            )
        }),
{
    let h = cross(direction, e2);
    let s = minus(origin, v0);
    let q = cross(s, e1);
    // a s - u e1 = h × (s × e1) = h × q
    lemma_double_cross(h, s, e1);
    lemma_inner_is_bilinear(h, e1, s, 0);
    lemma_inner_is_bilinear(h, s, e1, 0);
    // v e2 - t d = q × (e2 × d) = q × (-h) = h × q
    lemma_double_cross(q, e2, direction);
    lemma_inner_is_bilinear(q, direction, e2, 0);
    lemma_inner_is_bilinear(q, e2, direction, 0);
    lemma_cross_swaps(e2, direction);
    let back = cross(e2, direction);
    assert(back == scaled(-1, h));
    lemma_cross_swaps(h, q);
    let hq = cross(h, q);
    let qh = cross(q, h);
    assert(q.y * back.z - q.z * back.y == -1 * qh.x) by (nonlinear_arith)
        requires
            back.z == -1 * h.z,
            back.y == -1 * h.y,
            qh.x == q.y * h.z - q.z * h.y,
    ;
    assert(q.z * back.x - q.x * back.z == -1 * qh.y) by (nonlinear_arith)
        requires
            back.x == -1 * h.x,
            back.z == -1 * h.z,
            qh.y == q.z * h.x - q.x * h.z,
    ;
    assert(q.x * back.y - q.y * back.x == -1 * qh.z) by (nonlinear_arith)
        requires
            back.x == -1 * h.x,
            back.y == -1 * h.y,
            qh.z == q.x * h.y - q.y * h.x,
    ;
    assert(cross(q, back) == hq);
}

/// Mirroring at a surface with a unit normal turns the part of a vector
/// along the normal around and keeps the vector's length.
pub proof fn lemma_mirror(v: Exact, n: Exact)
    requires
        inner(n, n) == 1,
    ensures
        inner(mirrored(v, n), n) == -inner(v, n),
        inner(mirrored(v, n), mirrored(v, n)) == inner(v, v),
{
    let k = 2 * inner(v, n);
    let part = scaled(k, n);
    lemma_inner_is_bilinear(v, part, n, k);
    lemma_inner_is_bilinear(n, n, n, k);
    lemma_inner_is_bilinear(v, part, mirrored(v, n), k);
    lemma_inner_is_bilinear(v, part, v, k);
    lemma_inner_is_bilinear(v, part, part, k);
    lemma_inner_is_bilinear(n, v, v, k);
    lemma_inner_is_bilinear(n, part, part, k);
    lemma_inner_is_bilinear(part, v, n, k);
    lemma_inner_is_bilinear(v, mirrored(v, n), n, k);
    lemma_inner_is_bilinear(part, mirrored(v, n), n, k);
    let vn = inner(v, n);
    assert(inner(part, n) == k * 1);
    assert(inner(mirrored(v, n), n) == vn - k);
    assert(inner(part, v) == k * inner(n, v));
    assert(inner(n, v) == vn);
    assert(inner(v, part) == inner(part, v));
    assert(inner(n, part) == inner(part, n));
    assert(inner(part, part) == k * inner(n, part));
    assert(inner(mirrored(v, n), mirrored(v, n)) == inner(v, v) - inner(part, v) - inner(v, part)
        + inner(part, part));
    assert(inner(v, v) - k * vn - k * vn + k * (k * 1) == inner(v, v)) by (nonlinear_arith)
        requires
            k == 2 * vn,
    ;
}

} // verus!

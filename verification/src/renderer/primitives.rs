//! The shapes of a scene and where a ray meets them.
//!
//! Solving the equations of a shape along a ray is arithmetic and is the
//! caller's. Which of the solutions counts is decided here: the range test,
//! the bounds of the shape, and the order in which candidates are tried.

use vstd::prelude::*;
use crate::math::scalar::{Scalar, INFINITY_BITS};
use crate::math::transform::Transform;
use crate::math::vector::Vec3;
use crate::renderer::material::SharedMaterial;
use crate::renderer::select::{nearest, nearest_upto, Trial};

verus! {

/// Bits of `1e-6`: below this magnitude a denominator counts as zero.
pub const PARALLEL_BITS: u32 = 0x3586_37bd;

/// `t` lies before `t_min` or after `t_max`.
pub open spec fn outside(t: Scalar, t_min: Scalar, t_max: Scalar) -> bool {
    t.less(t_min) || t_max.less(t)
}

/// `t_min <= t <= t_max`.
pub open spec fn within(t: Scalar, t_min: Scalar, t_max: Scalar) -> bool {
    t_min.less_eq(t) && t.less_eq(t_max)
}

/// `|x| < 1e-6`.
pub open spec fn negligible(x: Scalar) -> bool {
    x.magnitude_of().less(Scalar { bits: PARALLEL_BITS })
}

fn is_outside(t: Scalar, t_min: Scalar, t_max: Scalar) -> (r: bool)
    ensures
        r == outside(t, t_min, t_max),
{
    t.lt(t_min) || t_max.lt(t)
}

fn is_within(t: Scalar, t_min: Scalar, t_max: Scalar) -> (r: bool)
    ensures
        r == within(t, t_min, t_max),
{
    t.ge(t_min) && t.le(t_max)
}

fn is_negligible(x: Scalar) -> (r: bool)
    ensures
        r == negligible(x),
{
    x.abs().lt(Scalar::from_bits(PARALLEL_BITS))
}

/// Which of the two roots of a quadratic.
#[derive(Clone, Copy, Debug, PartialEq, Eq, Structural)]
pub enum Root {
    Near,
    Far,
}

/// One solution along the ray: its distance, and the height at which the
/// ray is there, measured as the shape asks.
#[derive(Clone, Copy, Debug, PartialEq, Eq, Structural)]
pub struct Crossing {
    pub t: Scalar,
    pub height: Scalar,
}

/// A quadratic along the ray: its discriminant and, where that is not
/// negative, its two roots with the smaller first.
#[derive(Clone, Copy, Debug, PartialEq, Eq, Structural)]
pub struct Quadratic {
    pub discriminant: Scalar,
    pub near: Crossing,
    pub far: Crossing,
}

impl Quadratic {
    /// The discriminant is zero or more.
    pub open spec fn solvable(self) -> bool {
        (Scalar { bits: 0 }).less_eq(self.discriminant)
    }

    pub open spec fn crossing(self, root: Root) -> Crossing {
        match root {
            Root::Near => self.near,
            Root::Far => self.far,
        }
    }

    pub fn has_roots(&self) -> (r: bool)
        ensures
            r == self.solvable(),
    {
        self.discriminant.ge(Scalar::zero())
    }

    pub fn at(&self, root: Root) -> (c: Crossing)
        ensures
            c == self.crossing(root),
    {
        match root {
            Root::Near => self.near,
            Root::Far => self.far,
        }
    }
}

/// A sphere.
#[derive(Clone, Copy, Debug, PartialEq, Eq, Structural)]
pub struct Sphere {
    pub center: Vec3,
    pub radius: Scalar,
    pub material: Option<SharedMaterial>,
    pub transform: Transform,
}

impl Sphere {
    /// The root at which a ray meets a sphere: the smaller one unless it is
    /// outside `[t_min, t_max]`, then the larger one unless that is outside
    /// too. No root where the discriminant is negative.
    pub open spec fn meets(discriminant: Scalar, near: Scalar, far: Scalar, t_min: Scalar, t_max: Scalar)
        -> Option<Root> {
        if discriminant.less(Scalar { bits: 0 }) {
            None
        } else if !outside(near, t_min, t_max) {
            Some(Root::Near)
        } else if !outside(far, t_min, t_max) {
            Some(Root::Far)
        } else {
            None
        }
    }

    pub fn new(center: Vec3, radius: Scalar) -> (s: Sphere)
        ensures
            s == (Sphere { center, radius, material: None, transform: Transform::neutral() }),
    {
        Sphere { center, radius, material: None, transform: Transform::identity() }
    }

    pub fn with_material(center: Vec3, radius: Scalar, material: SharedMaterial) -> (s: Sphere)
        ensures
            s == (Sphere {
                center,
                radius,
                material: Some(material),
                transform: Transform::neutral(),
            }),
    {
        Sphere { center, radius, material: Some(material), transform: Transform::identity() }
    }

    pub fn set_material(&mut self, material: SharedMaterial)
        ensures
            *final(self) == (Sphere { material: Some(material), ..*old(self) }),
    {
        self.material = Some(material);
    }

    /// Which root of `|O + tD - C|² = r²` is the hit. `discriminant` is
    /// that of the equation, `near` and `far` its roots.
    pub fn intersect(discriminant: Scalar, near: Scalar, far: Scalar, t_min: Scalar, t_max: Scalar)
        -> (root: Option<Root>)
        ensures
            root == Sphere::meets(discriminant, near, far, t_min, t_max),
    {
        if discriminant.lt(Scalar::zero()) {
            None
        } else if !is_outside(near, t_min, t_max) {
            Some(Root::Near)
        } else if !is_outside(far, t_min, t_max) {
            Some(Root::Far)
        } else {
            None
        }
    }
}

/// An unbounded plane through `point`, with unit `normal`.
#[derive(Clone, Copy, Debug, PartialEq, Eq, Structural)]
pub struct Plane {
    pub point: Vec3,
    pub normal: Vec3,
    pub material: Option<SharedMaterial>,
    pub transform: Transform,
}

/// Where a ray crosses a plane: the normal on the ray's side, and the dot
/// product of the ray's direction with it.
#[derive(Clone, Copy, Debug, PartialEq, Eq, Structural)]
pub struct PlaneCrossing {
    pub normal: Vec3,
    pub facing: Scalar,
}

impl Plane {
    /// Whether a ray crosses the plane within range. `denominator` is the
    /// dot product of the plane's normal with the ray's direction and `t`
    /// the solution of the linear equation.
    pub open spec fn crossed(denominator: Scalar, t: Scalar, t_min: Scalar, t_max: Scalar) -> bool {
        !negligible(denominator) && !outside(t, t_min, t_max)
    }

    /// The normal on the side that the ray comes from.
    pub open spec fn side(self, denominator: Scalar) -> PlaneCrossing {
        if denominator.less(Scalar { bits: 0 }) {
            PlaneCrossing { normal: self.normal, facing: denominator }
        } else {
            PlaneCrossing { normal: self.normal.negated(), facing: denominator.negated() }
        }
    }

    /// A plane through `point` with `normal`, which the caller has
    /// normalised.
    pub fn new(point: Vec3, normal: Vec3) -> (p: Plane)
        ensures
            p == (Plane { point, normal, material: None, transform: Transform::neutral() }),
    {
        Plane { point, normal, material: None, transform: Transform::identity() }
    }

    pub fn with_material(point: Vec3, normal: Vec3, material: SharedMaterial) -> (p: Plane)
        ensures
            p == (Plane { point, normal, material: Some(material), transform: Transform::neutral() }),
    {
        Plane { point, normal, material: Some(material), transform: Transform::identity() }
    }

    pub fn set_material(&mut self, material: SharedMaterial)
        ensures
            *final(self) == (Plane { material: Some(material), ..*old(self) }),
    {
        self.material = Some(material);
    }

    /// The side of the plane that a ray hits, or `None` where the ray runs
    /// along the plane (`|denominator| < 1e-6`) or crosses it out of range.
    pub fn intersect(&self, denominator: Scalar, t: Scalar, t_min: Scalar, t_max: Scalar) -> (hit:
        Option<PlaneCrossing>)
        ensures
            hit == (if Plane::crossed(denominator, t, t_min, t_max) {
                Some(self.side(denominator))
            } else {
                None
            }),
    {
        if is_negligible(denominator) {
            return None;
        }
        if is_outside(t, t_min, t_max) {
            return None;
        }
        if denominator.lt(Scalar::zero()) {
            Some(PlaneCrossing { normal: self.normal, facing: denominator })
        } else {
            Some(PlaneCrossing { normal: self.normal.neg(), facing: denominator.neg() })
        }
    }
}

/// A triangle with a normal at each corner.
#[derive(Clone, Copy, Debug)]
pub struct Triangle {
    pub vertices: [Vec3; 3],
    pub normals: [Vec3; 3],
    pub uvs: [Vec3; 3],
    pub material: Option<SharedMaterial>,
    pub transform: Transform,
}

/// What the Möller–Trumbore equations give for one ray: the determinant,
/// the barycentric coordinates `u` and `v`, their sum, and the distance.
#[derive(Clone, Copy, Debug, PartialEq, Eq, Structural)]
pub struct Barycentric {
    pub determinant: Scalar,
    pub u: Scalar,
    pub v: Scalar,
    pub sum: Scalar,
    pub t: Scalar,
}

impl Triangle {
    /// Whether the solution lies in the triangle and in range: the
    /// determinant is not within `1e-6` of zero, `u` is in `[0, 1]`, `v` is
    /// not negative, `u + v` is at most 1, and `t` is not outside
    /// `[t_min, t_max]`.
    pub open spec fn covers(b: Barycentric, t_min: Scalar, t_max: Scalar) -> bool {
        let zero = Scalar { bits: 0 };
        let one = Scalar { bits: 0x3f80_0000 };
        let edge = Scalar { bits: PARALLEL_BITS };
        &&& !(edge.negated().less(b.determinant) && b.determinant.less(edge))
        &&& !(b.u.less(zero) || one.less(b.u))
        &&& !(b.v.less(zero) || one.less(b.sum))
        &&& !outside(b.t, t_min, t_max)
    }

    /// A triangle on three corners with the same `normal` at each. The
    /// caller gives the unit normal of the triangle's plane.
    pub fn new(v0: Vec3, v1: Vec3, v2: Vec3, normal: Vec3) -> (t: Triangle)
        ensures
            t.vertices@ == seq![v0, v1, v2],
            t.normals@ == seq![normal, normal, normal],
            t.material.is_none(),
            t.transform == Transform::neutral(),
    {
        let zero = Scalar::zero();
        let one = Scalar::one();
        Triangle {
            vertices: [v0, v1, v2],
            normals: [normal, normal, normal],
            uvs: [Vec3::zero(), Vec3::new(one, zero, zero), Vec3::new(zero, one, zero)],
            material: None,
            transform: Transform::identity(),
        }
    }

    pub fn with_material(v0: Vec3, v1: Vec3, v2: Vec3, normal: Vec3, material: SharedMaterial) -> (t:
        Triangle)
        ensures
            t.vertices@ == seq![v0, v1, v2],
            t.normals@ == seq![normal, normal, normal],
            t.material == Some(material),
            t.transform == Transform::neutral(),
    {
        let mut triangle = Triangle::new(v0, v1, v2, normal);
        triangle.material = Some(material);
        triangle
    }

    /// Sets the three corner normals, which the caller has normalised.
    pub fn set_normals(&mut self, n0: Vec3, n1: Vec3, n2: Vec3)
        ensures
            final(self).normals@ == seq![n0, n1, n2],
            final(self).vertices == old(self).vertices,
            final(self).uvs == old(self).uvs,
            final(self).material == old(self).material,
            final(self).transform == old(self).transform,
    {
        self.normals = [n0, n1, n2];
    }

    pub fn set_material(&mut self, material: SharedMaterial)
        ensures
            final(self).material == Some(material),
            final(self).vertices == old(self).vertices,
            final(self).normals == old(self).normals,
            final(self).uvs == old(self).uvs,
            final(self).transform == old(self).transform,
    {
        self.material = Some(material);
    }

    /// The distance of the hit, or `None` where the ray misses.
    pub fn intersect(b: &Barycentric, t_min: Scalar, t_max: Scalar) -> (t: Option<Scalar>)
        ensures
            t == (if Triangle::covers(*b, t_min, t_max) {
                Some(b.t)
            } else {
                None
            }),
    {
        let zero = Scalar::zero();
        let one = Scalar::one();
        let edge = Scalar::from_bits(PARALLEL_BITS);
        if b.determinant.gt(edge.neg()) && b.determinant.lt(edge) {
            return None;
        }
        if b.u.lt(zero) || b.u.gt(one) {
            return None;
        }
        if b.v.lt(zero) || b.sum.gt(one) {
            return None;
        }
        if is_outside(b.t, t_min, t_max) {
            return None;
        }
        Some(b.t)
    }
}

/// A box of the given size around `center`, in its own space.
#[derive(Clone, Copy, Debug, PartialEq, Eq, Structural)]
pub struct Cube {
    pub center: Vec3,
    pub size: Vec3,
    pub material: Option<SharedMaterial>,
    pub transform: Transform,
}

/// One axis of the slab test: the ray's direction and origin on that axis,
/// the box's two faces, and the distances `t1` and `t2` at which the ray
/// crosses the lower and the upper face.
#[derive(Clone, Copy, Debug, PartialEq, Eq, Structural)]
pub struct Slab {
    pub direction: Scalar,
    pub origin: Scalar,
    pub min: Scalar,
    pub max: Scalar,
    pub t1: Scalar,
    pub t2: Scalar,
}

/// A face of a box: an axis, 0 to 2, and the side of the box on it.
#[derive(Clone, Copy, Debug, PartialEq, Eq, Structural)]
pub struct Face {
    pub axis: usize,
    pub positive: bool,
}

/// The span of distances in which the ray is inside all slabs looked at so
/// far, and the face through which it entered the last of them.
#[derive(Clone, Copy, Debug, PartialEq, Eq, Structural)]
pub struct Span {
    pub near: Scalar,
    pub far: Scalar,
    pub entry: Option<Face>,
}

/// Where a ray enters a box.
#[derive(Clone, Copy, Debug, PartialEq, Eq, Structural)]
pub struct BoxHit {
    pub t: Scalar,
    pub entry: Option<Face>,
}

impl Slab {
    /// The span narrowed by this slab, or `None` where the ray cannot be
    /// in the slab within the span.
    ///
    /// A ray along the slab (`|direction| < 1e-6`) leaves the span as it is
    /// if its origin is between the faces and misses otherwise. Any other
    /// ray enters at the smaller of `t1`, `t2` and leaves at the larger.
    /// The span's start moves up to the entry, its end down to the exit.
    /// The ray entered through the lower face when `t1 < t2`.
    pub open spec fn narrow(self, span: Span, axis: usize) -> Option<Span> {
        if negligible(self.direction) {
            if self.origin.less(self.min) || self.max.less(self.origin) {
                None
            } else {
                Some(span)
            }
        } else {
            let rising = self.t1.less(self.t2);
            let enter = if rising {
                self.t1
            } else {
                self.t2
            };
            let leave = if rising {
                self.t2
            } else {
                self.t1
            };
            let near = if span.near.less(enter) {
                enter
            } else {
                span.near
            };
            let entry = if span.near.less(enter) {
                Some(Face { axis, positive: !rising })
            } else {
                span.entry
            };
            let far = if leave.less(span.far) {
                leave
            } else {
                span.far
            };
            if far.less(near) {
                None
            } else {
                Some(Span { near, far, entry })
            }
        }
    }

    fn apply(&self, span: Span, axis: usize) -> (next: Option<Span>)
        ensures
            next == self.narrow(span, axis),
    {
        if is_negligible(self.direction) {
            if self.origin.lt(self.min) || self.origin.gt(self.max) {
                None
            } else {
                Some(span)
            }
        } else {
            let rising = self.t1.lt(self.t2);
            let enter = if rising {
                self.t1
            } else {
                self.t2
            };
            let leave = if rising {
                self.t2
            } else {
                self.t1
            };
            let mut near = span.near;
            let mut entry = span.entry;
            let mut far = span.far;
            if enter.gt(near) {
                near = enter;
                entry = Some(Face { axis, positive: !rising });
            }
            if leave.lt(far) {
                far = leave;
            }
            if near.gt(far) {
                None
            } else {
                Some(Span { near, far, entry })
            }
        }
    }
}

impl Cube {
    /// The span left after the first `n` slabs, starting from
    /// `[t_min, t_max]`.
    pub open spec fn span_after(slabs: Seq<Slab>, t_min: Scalar, t_max: Scalar, n: int) -> Option<Span>
        decreases n,
    {
        if n <= 0 {
            Some(Span { near: t_min, far: t_max, entry: None })
        } else {
            match Cube::span_after(slabs, t_min, t_max, n - 1) {
                None => None,
                Some(span) => slabs[n - 1].narrow(span, (n - 1) as usize),
            }
        }
    }

    /// Where the ray enters the box: the start of the span left by the
    /// three slabs, or its end where the start lies before `t_min`; nothing
    /// where no span is left or that distance is outside `[t_min, t_max]`.
    pub open spec fn entered(slabs: Seq<Slab>, t_min: Scalar, t_max: Scalar) -> Option<BoxHit> {
        match Cube::span_after(slabs, t_min, t_max, 3) {
            None => None,
            Some(span) => {
                let t = if t_min.less_eq(span.near) {
                    span.near
                } else {
                    span.far
                };
                if outside(t, t_min, t_max) {
                    None
                } else {
                    Some(BoxHit { t, entry: span.entry })
                }
            },
        }
    }

    pub fn new(center: Vec3, size: Vec3) -> (c: Cube)
        ensures
            c == (Cube { center, size, material: None, transform: Transform::neutral() }),
    {
        Cube { center, size, material: None, transform: Transform::identity() }
    }

    /// The box of side 1 around the origin.
    pub fn unit() -> (c: Cube)
        ensures
            c == (Cube {
                center: Vec3::origin(),
                size: Vec3::ones(),
                material: None,
                transform: Transform::neutral(),
            }),
    {
        Cube::new(Vec3::zero(), Vec3::one())
    }

    pub fn with_material(center: Vec3, size: Vec3, material: SharedMaterial) -> (c: Cube)
        ensures
            c == (Cube { center, size, material: Some(material), transform: Transform::neutral() }),
    {
        Cube { center, size, material: Some(material), transform: Transform::identity() }
    }

    pub fn set_material(&mut self, material: SharedMaterial)
        ensures
            *final(self) == (Cube { material: Some(material), ..*old(self) }),
    {
        self.material = Some(material);
    }

    /// The slab test on the three axes of the box, in the order x, y, z.
    pub fn intersect(slabs: &[Slab; 3], t_min: Scalar, t_max: Scalar) -> (hit: Option<BoxHit>)
        ensures
            hit == Cube::entered(slabs@, t_min, t_max),
    {
        let mut span = Span { near: t_min, far: t_max, entry: None };
        let mut axis: usize = 0;
        while axis < 3
            invariant
                axis <= 3,
                Cube::span_after(slabs@, t_min, t_max, axis as int) == Some(span),
            decreases 3 - axis,
        {
            match slabs[axis].apply(span, axis) {
                None => {
                    assert(Cube::span_after(slabs@, t_min, t_max, axis + 1) == None::<Span>);
                    assert(Cube::span_after(slabs@, t_min, t_max, 3) == None::<Span>) by {
                        reveal_with_fuel(Cube::span_after, 4);
                    }
                    return None;
                },
                Some(next) => {
                    span = next;
                },
            }
            axis = axis + 1;
        }
        let t = if span.near.ge(t_min) {
            span.near
        } else {
            span.far
        };
        if is_outside(t, t_min, t_max) {
            None
        } else {
            Some(BoxHit { t, entry: span.entry })
        }
    }
}

/// An upright cylinder: a wall of the given radius around the y axis
/// through `center`, `height` tall, without caps.
#[derive(Clone, Copy, Debug, PartialEq, Eq, Structural)]
pub struct Cylinder {
    pub center: Vec3,
    pub radius: Scalar,
    pub height: Scalar,
    pub material: Option<SharedMaterial>,
    pub transform: Transform,
}

impl Cylinder {
    /// A crossing counts when it is in range and no farther than
    /// `half_height` from the centre's level. Its `height` is that
    /// distance, `|y - center.y|`.
    pub open spec fn admits(c: Crossing, half_height: Scalar, t_min: Scalar, t_max: Scalar) -> bool {
        within(c.t, t_min, t_max) && c.height.less_eq(half_height)
    }

    /// The first root that counts, the smaller one first.
    pub open spec fn meets(q: Quadratic, half_height: Scalar, t_min: Scalar, t_max: Scalar) -> Option<
        Root,
    > {
        if q.discriminant.less(Scalar { bits: 0 }) {
            None
        } else if Cylinder::admits(q.near, half_height, t_min, t_max) {
            Some(Root::Near)
        } else if Cylinder::admits(q.far, half_height, t_min, t_max) {
            Some(Root::Far)
        } else {
            None
        }
    }

    pub fn new(center: Vec3, radius: Scalar, height: Scalar) -> (c: Cylinder)
        ensures
            c == (Cylinder { center, radius, height, material: None, transform: Transform::neutral() }),
    {
        Cylinder { center, radius, height, material: None, transform: Transform::identity() }
    }

    pub fn with_material(center: Vec3, radius: Scalar, height: Scalar, material: SharedMaterial) -> (c:
        Cylinder)
        ensures
            c == (Cylinder {
                center,
                radius,
                height,
                material: Some(material),
                transform: Transform::neutral(),
            }),
    {
        Cylinder { center, radius, height, material: Some(material), transform: Transform::identity() }
    }

    pub fn set_material(&mut self, material: SharedMaterial)
        ensures
            *final(self) == (Cylinder { material: Some(material), ..*old(self) }),
    {
        self.material = Some(material);
    }

    /// Which root of the wall's equation is the hit. `half_height` is half
    /// the cylinder's height.
    pub fn intersect(q: &Quadratic, half_height: Scalar, t_min: Scalar, t_max: Scalar) -> (root:
        Option<Root>)
        ensures
            root == Cylinder::meets(*q, half_height, t_min, t_max),
    {
        if q.discriminant.lt(Scalar::zero()) {
            None
        } else if is_within(q.near.t, t_min, t_max) && q.near.height.le(half_height) {
            Some(Root::Near)
        } else if is_within(q.far.t, t_min, t_max) && q.far.height.le(half_height) {
            Some(Root::Far)
        } else {
            None
        }
    }
}

/// An upright cone around the y axis through `center`.
#[derive(Clone, Copy, Debug, PartialEq, Eq, Structural)]
pub struct Cone {
    pub center: Vec3,
    pub radius: Scalar,
    pub height: Scalar,
    pub material: Option<SharedMaterial>,
    pub transform: Transform,
}

impl Cone {
    /// A crossing counts when it is in range and between half a height
    /// below and half a height above the centre. Its `height` is
    /// `y - center.y`.
    pub open spec fn admits(c: Crossing, half_height: Scalar, t_min: Scalar, t_max: Scalar) -> bool {
        within(c.t, t_min, t_max) && within(c.height, half_height.negated(), half_height)
    }

    /// The first root that counts, the smaller one first.
    pub open spec fn meets(q: Quadratic, half_height: Scalar, t_min: Scalar, t_max: Scalar) -> Option<
        Root,
    > {
        if q.discriminant.less(Scalar { bits: 0 }) {
            None
        } else if Cone::admits(q.near, half_height, t_min, t_max) {
            Some(Root::Near)
        } else if Cone::admits(q.far, half_height, t_min, t_max) {
            Some(Root::Far)
        } else {
            None
        }
    }

    pub fn new(center: Vec3, radius: Scalar, height: Scalar) -> (c: Cone)
        ensures
            c == (Cone { center, radius, height, material: None, transform: Transform::neutral() }),
    {
        Cone { center, radius, height, material: None, transform: Transform::identity() }
    }

    pub fn with_material(center: Vec3, radius: Scalar, height: Scalar, material: SharedMaterial) -> (c:
        Cone)
        ensures
            c == (Cone {
                center,
                radius,
                height,
                material: Some(material),
                transform: Transform::neutral(),
            }),
    {
        Cone { center, radius, height, material: Some(material), transform: Transform::identity() }
    }

    pub fn set_material(&mut self, material: SharedMaterial)
        ensures
            *final(self) == (Cone { material: Some(material), ..*old(self) }),
    {
        self.material = Some(material);
    }

    /// Which root of the cone's equation is the hit. `half_height` is half
    /// the cone's height.
    pub fn intersect(q: &Quadratic, half_height: Scalar, t_min: Scalar, t_max: Scalar) -> (root:
        Option<Root>)
        ensures
            root == Cone::meets(*q, half_height, t_min, t_max),
    {
        let low = half_height.neg();
        if q.discriminant.lt(Scalar::zero()) {
            None
        } else if is_within(q.near.t, t_min, t_max) && is_within(q.near.height, low, half_height) {
            Some(Root::Near)
        } else if is_within(q.far.t, t_min, t_max) && is_within(q.far.height, low, half_height) {
            Some(Root::Far)
        } else {
            None
        }
    }
}

/// A cylinder closed by a half sphere at each end.
#[derive(Clone, Copy, Debug, PartialEq, Eq, Structural)]
pub struct Capsule {
    pub center: Vec3,
    pub radius: Scalar,
    pub height: Scalar,
    pub material: Option<SharedMaterial>,
    pub transform: Transform,
}

/// The three surfaces of a capsule.
#[derive(Clone, Copy, Debug, PartialEq, Eq, Structural)]
pub enum CapsulePart {
    Top,
    Bottom,
    Body,
}

/// Where a ray meets a capsule: on which surface, and at which root of
/// that surface's equation.
#[derive(Clone, Copy, Debug, PartialEq, Eq, Structural)]
pub struct CapsuleHit {
    pub part: CapsulePart,
    pub root: Root,
}

/// The equations of the three surfaces of a capsule along one ray.
///
/// The crossings of the two spheres carry the `y` of the point as their
/// height; those of the body carry `|y - center.y|`.
#[derive(Clone, Copy, Debug, PartialEq, Eq, Structural)]
pub struct CapsuleProbe {
    pub top: Quadratic,
    pub bottom: Quadratic,
    pub body: Quadratic,
}

impl Capsule {
    /// The hit that stands at place `k` of the order in which candidates
    /// are tried: top, bottom, body, and of each the smaller root first.
    pub open spec fn candidate(k: int) -> CapsuleHit {
        CapsuleHit {
            part: if k < 2 {
                CapsulePart::Top
            } else if k < 4 {
                CapsulePart::Bottom
            } else {
                CapsulePart::Body
            },
            root: if k % 2 == 0 {
                Root::Near
            } else {
                Root::Far
            },
        }
    }

    /// Whether a crossing lies on the part of its surface that belongs to
    /// the capsule: the upper half of the top sphere, the lower half of the
    /// bottom one, the body between the two centres.
    pub open spec fn on_part(self, part: CapsulePart, c: Crossing, half_height: Scalar) -> bool {
        match part {
            CapsulePart::Top => self.center.y.less_eq(c.height),
            CapsulePart::Bottom => c.height.less_eq(self.center.y),
            CapsulePart::Body => c.height.less_eq(half_height),
        }
    }

    /// One candidate as a trial: admitted when its equation has roots, it
    /// is in range, and it lies on its part.
    pub open spec fn trial(
        self,
        part: CapsulePart,
        q: Quadratic,
        root: Root,
        half_height: Scalar,
        t_min: Scalar,
        t_max: Scalar,
    ) -> Trial {
        let c = q.crossing(root);
        Trial {
            admitted: q.solvable() && within(c.t, t_min, t_max) && self.on_part(
                part,
                c,
                half_height,
            ),
            t: c.t,
        }
    }

    /// The six candidates in the order in which they are tried.
    pub open spec fn trials(self, probe: CapsuleProbe, half_height: Scalar, t_min: Scalar, t_max: Scalar)
        -> Seq<Trial> {
        seq![
            self.trial(CapsulePart::Top, probe.top, Root::Near, half_height, t_min, t_max),
            self.trial(CapsulePart::Top, probe.top, Root::Far, half_height, t_min, t_max),
            self.trial(CapsulePart::Bottom, probe.bottom, Root::Near, half_height, t_min, t_max),
            self.trial(CapsulePart::Bottom, probe.bottom, Root::Far, half_height, t_min, t_max),
            self.trial(CapsulePart::Body, probe.body, Root::Near, half_height, t_min, t_max),
            self.trial(CapsulePart::Body, probe.body, Root::Far, half_height, t_min, t_max),
        ]
    }

    /// The nearest candidate that is admitted and nearer than infinity.
    pub open spec fn meets(self, probe: CapsuleProbe, half_height: Scalar, t_min: Scalar, t_max: Scalar)
        -> Option<CapsuleHit> {
        match nearest_upto(
            self.trials(probe, half_height, t_min, t_max),
            Some(Scalar { bits: INFINITY_BITS }),
            6,
        ) {
            None => None,
            Some(k) => Some(Capsule::candidate(k)),
        }
    }

    pub fn new(center: Vec3, radius: Scalar, height: Scalar) -> (c: Capsule)
        ensures
            c == (Capsule { center, radius, height, material: None, transform: Transform::neutral() }),
    {
        Capsule { center, radius, height, material: None, transform: Transform::identity() }
    }

    pub fn with_material(center: Vec3, radius: Scalar, height: Scalar, material: SharedMaterial) -> (c:
        Capsule)
        ensures
            c == (Capsule {
                center,
                radius,
                height,
                material: Some(material),
                transform: Transform::neutral(),
            }),
    {
        Capsule { center, radius, height, material: Some(material), transform: Transform::identity() }
    }

    pub fn set_material(&mut self, material: SharedMaterial)
        ensures
            *final(self) == (Capsule { material: Some(material), ..*old(self) }),
    {
        self.material = Some(material);
    }

    fn try_root(
        &self,
        part: CapsulePart,
        q: &Quadratic,
        root: Root,
        half_height: Scalar,
        t_min: Scalar,
        t_max: Scalar,
    ) -> (trial: Trial)
        ensures
            trial == self.trial(part, *q, root, half_height, t_min, t_max),
    {
        let c = q.at(root);
        let on_part = match part {
            CapsulePart::Top => c.height.ge(self.center.y),
            CapsulePart::Bottom => c.height.le(self.center.y),
            CapsulePart::Body => c.height.le(half_height),
        };
        Trial { admitted: q.has_roots() && is_within(c.t, t_min, t_max) && on_part, t: c.t }
    }

    /// Where the ray meets the capsule: the nearest crossing in range over
    /// its three surfaces. `half_height` is half the capsule's height.
    pub fn intersect(&self, probe: &CapsuleProbe, half_height: Scalar, t_min: Scalar, t_max: Scalar)
        -> (hit: Option<CapsuleHit>)
        ensures
            hit == self.meets(*probe, half_height, t_min, t_max),
    {
        let mut trials: Vec<Trial> = Vec::new();
        trials.push(self.try_root(CapsulePart::Top, &probe.top, Root::Near, half_height, t_min, t_max));
        trials.push(self.try_root(CapsulePart::Top, &probe.top, Root::Far, half_height, t_min, t_max));
        trials.push(
            self.try_root(CapsulePart::Bottom, &probe.bottom, Root::Near, half_height, t_min, t_max),
        );
        trials.push(
            self.try_root(CapsulePart::Bottom, &probe.bottom, Root::Far, half_height, t_min, t_max),
        );
        trials.push(self.try_root(CapsulePart::Body, &probe.body, Root::Near, half_height, t_min, t_max));
        trials.push(self.try_root(CapsulePart::Body, &probe.body, Root::Far, half_height, t_min, t_max));
        assert(trials@ =~= self.trials(*probe, half_height, t_min, t_max));
        match nearest(&trials, Some(Scalar::infinity())) {
            None => None,
            Some(k) => {
                let part = if k < 2 {
                    CapsulePart::Top
                } else if k < 4 {
                    CapsulePart::Bottom
                } else {
                    CapsulePart::Body
                };
                let root = if k % 2 == 0 {
                    Root::Near
                } else {
                    Root::Far
                };
                Some(CapsuleHit { part, root })
            },
        }
    }
}

/// Any of the seven shapes.
#[derive(Clone, Copy, Debug)]
pub enum SceneObject {
    Sphere(Sphere),
    Plane(Plane),
    Triangle(Triangle),
    Cube(Cube),
    Cylinder(Cylinder),
    Cone(Cone),
    Capsule(Capsule),
}

impl SceneObject {
    pub open spec fn surface(self) -> Option<SharedMaterial> {
        match self {
            SceneObject::Sphere(s) => s.material,
            SceneObject::Plane(s) => s.material,
            SceneObject::Triangle(s) => s.material,
            SceneObject::Cube(s) => s.material,
            SceneObject::Cylinder(s) => s.material,
            SceneObject::Cone(s) => s.material,
            SceneObject::Capsule(s) => s.material,
        }
    }

    pub open spec fn placement(self) -> Transform {
        match self {
            SceneObject::Sphere(s) => s.transform,
            SceneObject::Plane(s) => s.transform,
            SceneObject::Triangle(s) => s.transform,
            SceneObject::Cube(s) => s.transform,
            SceneObject::Cylinder(s) => s.transform,
            SceneObject::Cone(s) => s.transform,
            SceneObject::Capsule(s) => s.transform,
        }
    }

    pub fn material(&self) -> (m: Option<SharedMaterial>)
        ensures
            m == self.surface(),
    {
        match self {
            SceneObject::Sphere(s) => s.material,
            SceneObject::Plane(s) => s.material,
            SceneObject::Triangle(s) => s.material,
            SceneObject::Cube(s) => s.material,
            SceneObject::Cylinder(s) => s.material,
            SceneObject::Cone(s) => s.material,
            SceneObject::Capsule(s) => s.material,
        }
    }

    pub fn transform(&self) -> (t: Transform)
        ensures
            t == self.placement(),
    {
        match self {
            SceneObject::Sphere(s) => s.transform,
            SceneObject::Plane(s) => s.transform,
            SceneObject::Triangle(s) => s.transform,
            SceneObject::Cube(s) => s.transform,
            SceneObject::Cylinder(s) => s.transform,
            SceneObject::Cone(s) => s.transform,
            SceneObject::Capsule(s) => s.transform,
        }
    }

    pub fn set_transform(&mut self, transform: Transform)
        ensures
            final(self).placement() == transform,
            final(self).surface() == old(self).surface(),
    {
        match self {
            SceneObject::Sphere(s) => {
                s.transform = transform;
            },
            SceneObject::Plane(s) => {
                s.transform = transform;
            },
            SceneObject::Triangle(s) => {
                s.transform = transform;
            },
            SceneObject::Cube(s) => {
                s.transform = transform;
            },
            SceneObject::Cylinder(s) => {
                s.transform = transform;
            },
            SceneObject::Cone(s) => {
                s.transform = transform;
            },
            SceneObject::Capsule(s) => {
                s.transform = transform;
            },
        }
    }
}

/// Neither distance of the slab is a NaN, unless the ray runs along it.
pub open spec fn slab_is_numeric(slab: Slab) -> bool {
    negligible(slab.direction) || (!slab.t1.nan() && !slab.t2.nan())
}

/// `t` lies between the two distances at which the ray crosses the slab,
/// unless the ray runs along it.
pub open spec fn inside_slab(slab: Slab, t: Scalar) -> bool {
    negligible(slab.direction) || (slab.t1.less_eq(t) && t.less_eq(slab.t2)) || (slab.t2.less_eq(
        t,
    ) && t.less_eq(slab.t1))
}

/// What the span means where no distance is a NaN and the range is in
/// order: it lies in the range, its start before its end, and it lies in
/// every slab looked at so far.
pub proof fn lemma_span_lies_in_slabs(slabs: Seq<Slab>, t_min: Scalar, t_max: Scalar, n: int)
    requires
        0 <= n <= slabs.len(),
        t_min.less_eq(t_max),
        forall|k: int| 0 <= k < n ==> slab_is_numeric(#[trigger] slabs[k]),
    ensures
        Cube::span_after(slabs, t_min, t_max, n) matches Some(span) ==> {
            &&& t_min.less_eq(span.near)
            &&& span.near.less_eq(span.far)
            &&& span.far.less_eq(t_max)
            &&& forall|k: int|
                0 <= k < n ==> inside_slab(#[trigger] slabs[k], span.near) && inside_slab(
                    slabs[k],
                    span.far,
                )
        },
    decreases n,
{
    if n > 0 {
        lemma_span_lies_in_slabs(slabs, t_min, t_max, n - 1);
        match Cube::span_after(slabs, t_min, t_max, n - 1) {
            None => {},
            Some(before) => {
                match slabs[n - 1].narrow(before, (n - 1) as usize) {
                    None => {},
                    Some(span) => {
                        assert(slab_is_numeric(slabs[n - 1]));
                        assert forall|k: int| 0 <= k < n implies inside_slab(
                            #[trigger] slabs[k],
                            span.near,
                        ) && inside_slab(slabs[k], span.far) by {
                            if k < n - 1 {
                                assert(inside_slab(slabs[k], before.near));
                                assert(inside_slab(slabs[k], before.far));
                                assert(slab_is_numeric(slabs[k]));
                            }
                        }
                    },
                }
            },
        }
    }
}

/// Where a ray enters a box, it is in the box: the distance of the hit
/// lies in the range and between the two faces of every slab that the ray
/// crosses. This holds where no distance is a NaN and the range is in
/// order.
pub proof fn lemma_box_hit_is_in_box(slabs: Seq<Slab>, t_min: Scalar, t_max: Scalar)
    requires
        slabs.len() == 3,
        t_min.less_eq(t_max),
        forall|k: int| 0 <= k < 3 ==> slab_is_numeric(#[trigger] slabs[k]),
    ensures
        Cube::entered(slabs, t_min, t_max) matches Some(hit) ==> {
            &&& within(hit.t, t_min, t_max)
            &&& forall|k: int| 0 <= k < 3 ==> inside_slab(#[trigger] slabs[k], hit.t)
        },
        Cube::entered(slabs, t_min, t_max).is_some() == Cube::span_after(
            slabs,
            t_min,
            t_max,
            3,
        ).is_some(),
{
    lemma_span_lies_in_slabs(slabs, t_min, t_max, 3);
}

/// A ray that crosses a plane within range sees the plane's front: the
/// normal that it is given makes a negative dot product with its
/// direction.
pub proof fn lemma_plane_faces_ray(plane: Plane, denominator: Scalar, t: Scalar, t_min: Scalar, t_max: Scalar)
    requires
        Plane::crossed(denominator, t, t_min, t_max),
        !denominator.nan(),
    ensures
        plane.side(denominator).facing.less(Scalar { bits: 0 }),
{
    assert(denominator.key() != 0);
}

/// The root that a sphere gives is not outside the range, and the smaller
/// root is passed over only when it is outside.
pub proof fn lemma_sphere_root_in_range(
    discriminant: Scalar,
    near: Scalar,
    far: Scalar,
    t_min: Scalar,
    t_max: Scalar,
)
    ensures
        Sphere::meets(discriminant, near, far, t_min, t_max) == Some(Root::Near) ==> !outside(
            near,
            t_min,
            t_max,
        ),
        Sphere::meets(discriminant, near, far, t_min, t_max) == Some(Root::Far) ==> outside(
            near,
            t_min,
            t_max,
        ) && !outside(far, t_min, t_max),
        Sphere::meets(discriminant, near, far, t_min, t_max).is_none() ==> discriminant.less(
            Scalar { bits: 0 },
        ) || (outside(near, t_min, t_max) && outside(far, t_min, t_max)),
{
}

} // verus!

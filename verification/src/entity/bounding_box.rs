//! Axis-aligned bounding boxes and the slab test.

use vstd::prelude::*;
use core::ops::Index;
use crate::ray::Ray;
use crate::scalar::{lemma_total_order_separates, Scalar};
use crate::utils::OrderedFloat32;
use crate::vec3::Vec3;

verus! {

/// The x components of the points, in their order.
pub open spec fn xs(points: Seq<Vec3>) -> Seq<Scalar> {
    Seq::new(points.len(), |i: int| points[i].x)
}

/// The y components of the points, in their order.
pub open spec fn ys(points: Seq<Vec3>) -> Seq<Scalar> {
    Seq::new(points.len(), |i: int| points[i].y)
}

/// The z components of the points, in their order.
pub open spec fn zs(points: Seq<Vec3>) -> Seq<Scalar> {
    Seq::new(points.len(), |i: int| points[i].z)
}

/// `k` is one of `keys`, and none of them comes before it in the total order.
pub open spec fn least_of(keys: Seq<Scalar>, k: Scalar) -> bool {
    &&& exists|i: int| 0 <= i < keys.len() && keys[i] == k
    &&& forall|i: int| 0 <= i < keys.len() ==> k.total_ordinal() <= #[trigger] keys[i].total_ordinal()
}

/// `k` is one of `keys`, and none of them comes after it in the total order.
pub open spec fn greatest_of(keys: Seq<Scalar>, k: Scalar) -> bool {
    &&& exists|i: int| 0 <= i < keys.len() && keys[i] == k
    &&& forall|i: int| 0 <= i < keys.len() ==> #[trigger] keys[i].total_ordinal() <= k.total_ordinal()
}

/// `x` if it is a number below `y`, else `y`. With a NaN on either side the
/// result is `y`.
pub open spec fn lesser(x: Scalar, y: Scalar) -> Scalar {
    if x.below(y) {
        x
    } else {
        y
    }
}

/// `x` if it is a number above `y`, else `y`. With a NaN on either side the
/// result is `y`.
pub open spec fn greater(x: Scalar, y: Scalar) -> Scalar {
    if y.below(x) {
        x
    } else {
        y
    }
}

fn min(x: Scalar, y: Scalar) -> (r: Scalar)
    ensures
        r == lesser(x, y),
{
    if x.lt(y) {
        x
    } else {
        y
    }
}

fn max(x: Scalar, y: Scalar) -> (r: Scalar)
    ensures
        r == greater(x, y),
{
    if x.gt(y) {
        x
    } else {
        y
    }
}

/// The smallest box, with sides along the axes, that holds a set of points.
#[derive(Clone, Copy, Debug)]
pub struct BoundingBox {
    min: Vec3,
    max: Vec3,
}

impl BoundingBox {
    /// The corner with the least coordinates.
    pub closed spec fn lower(self) -> Vec3 {
        self.min
    }

    /// The corner with the greatest coordinates.
    pub closed spec fn upper(self) -> Vec3 {
        self.max
    }

    /// The corner that `index` names: the lower one for 0, the upper one for
    /// anything else.
    pub open spec fn corner(self, index: int) -> Vec3 {
        if index == 0 {
            self.lower()
        } else {
            self.upper()
        }
    }

    /// Where a ray enters the slabs of this box: on each axis the lower bound
    /// if the ray runs upward there, the upper bound if it runs downward.
    pub open spec fn entry_of(self, ray: Ray) -> Vec3 {
        Vec3 {
            x: self.corner(ray.sign_x as int).x,
            y: self.corner(ray.sign_y as int).y,
            z: self.corner(ray.sign_z as int).z,
        }
    }

    /// Where a ray leaves the slabs of this box: on each axis the bound
    /// opposite to that of `entry_of`.
    pub open spec fn exit_of(self, ray: Ray) -> Vec3 {
        Vec3 {
            x: self.corner(1 - ray.sign_x).x,
            y: self.corner(1 - ray.sign_y).y,
            z: self.corner(1 - ray.sign_z).z,
        }
    }

    /// The slab rule on the three pairs of distances along the ray at which it
    /// crosses the bounds of the box: the latest entry, but not before the
    /// ray's origin, is not after the earliest exit.
    pub open spec fn slabs_met(near: Vec3, far: Vec3) -> bool {
        let entry = greater(greater(near.x, near.y), near.z);
        let exit = lesser(lesser(far.x, far.y), far.z);
        greater(entry, Scalar { bits: 0 }).at_most(exit)
    }

    /// This is the box of `points`: on each axis it reaches from the least of
    /// their coordinates to the greatest, by the total order.
    pub open spec fn bounds(self, points: Seq<Vec3>) -> bool {
        &&& least_of(xs(points), self.lower().x)
        &&& least_of(ys(points), self.lower().y)
        &&& least_of(zs(points), self.lower().z)
        &&& greatest_of(xs(points), self.upper().x)
        &&& greatest_of(ys(points), self.upper().y)
        &&& greatest_of(zs(points), self.upper().z)
    }

    /// The box of a set of points, which must not be empty.
    pub fn new(points: &[Vec3]) -> (b: BoundingBox)
        requires
            points@.len() > 0,
        ensures
            b.bounds(points@),
    {
        let first = points[0];
        let mut min = first;
        let mut max = first;
        let mut k: usize = 1;
        assert(xs(points@.take(1))[0] == first.x);
        assert(ys(points@.take(1))[0] == first.y);
        assert(zs(points@.take(1))[0] == first.z);
        while k < points.len()
            invariant
                1 <= k <= points@.len(),
                least_of(xs(points@.take(k as int)), min.x),
                least_of(ys(points@.take(k as int)), min.y),
                least_of(zs(points@.take(k as int)), min.z),
                greatest_of(xs(points@.take(k as int)), max.x),
                greatest_of(ys(points@.take(k as int)), max.y),
                greatest_of(zs(points@.take(k as int)), max.z),
            decreases points@.len() - k,
        {
            let p = points[k];
            proof {
                let seen = points@.take(k as int);
                lemma_extend(points@, k as int);
                lemma_least_push(xs(seen), min.x, p.x);
                lemma_least_push(ys(seen), min.y, p.y);
                lemma_least_push(zs(seen), min.z, p.z);
                lemma_greatest_push(xs(seen), max.x, p.x);
                lemma_greatest_push(ys(seen), max.y, p.y);
                lemma_greatest_push(zs(seen), max.z, p.z);
            }
            if OrderedFloat32::new(p.x).precedes(&OrderedFloat32::new(min.x)) {
                min.x = p.x;
            }
            if OrderedFloat32::new(p.y).precedes(&OrderedFloat32::new(min.y)) {
                min.y = p.y;
            }
            if OrderedFloat32::new(p.z).precedes(&OrderedFloat32::new(min.z)) {
                min.z = p.z;
            }
            if !OrderedFloat32::new(p.x).precedes(&OrderedFloat32::new(max.x)) {
                max.x = p.x;
            }
            if !OrderedFloat32::new(p.y).precedes(&OrderedFloat32::new(max.y)) {
                max.y = p.y;
            }
            if !OrderedFloat32::new(p.z).precedes(&OrderedFloat32::new(max.z)) {
                max.z = p.z;
            }
            k = k + 1;
        }
        assert(points@.take(k as int) =~= points@);
        BoundingBox { min, max }
    }

    /// The lower corner.
    pub fn min(&self) -> (p: Vec3)
        ensures
            p == self.lower(),
    {
        self.min
    }

    /// The upper corner.
    pub fn max(&self) -> (p: Vec3)
        ensures
            p == self.upper(),
    {
        self.max
    }

    /// The bounds at which `ray` enters the slabs of the box, one per axis.
    pub fn entry_bounds(&self, ray: &Ray) -> (p: Vec3)
        ensures
            p == self.entry_of(*ray),
    {
        Vec3::new(
            self.index(ray.sign_x).x,
            self.index(ray.sign_y).y,
            self.index(ray.sign_z).z,
        )
    }

    /// The bounds at which `ray` leaves the slabs of the box, one per axis. The
    /// signs of the ray must be 0 or 1, as they are in a ray made by `Ray::new`.
    pub fn exit_bounds(&self, ray: &Ray) -> (p: Vec3)
        requires
            ray.sign_x <= 1,
            ray.sign_y <= 1,
            ray.sign_z <= 1,
        ensures
            p == self.exit_of(*ray),
    {
        Vec3::new(
            self.index(1 - ray.sign_x).x,
            self.index(1 - ray.sign_y).y,
            self.index(1 - ray.sign_z).z,
        )
    }

    /// The slab test. `near` holds, per axis, the distance along the ray at
    /// which it crosses the bound of `entry_bounds`, and `far` the distance at
    /// which it crosses the bound of `exit_bounds`. True when the ray may pass
    /// through the box in front of its origin.
    pub fn ray_check_intersect_standard(near: Vec3, far: Vec3) -> (hit: bool)
        ensures
            hit == Self::slabs_met(near, far),
    {
        let mut ray_min = near.x;
        let mut ray_max = far.x;
        ray_min = max(ray_min, near.y);
        ray_max = min(ray_max, far.y);
        ray_min = max(ray_min, near.z);
        ray_max = min(ray_max, far.z);
        max(ray_min, Scalar::zero()).le(ray_max)
    }
}

impl Index<usize> for BoundingBox {
    type Output = Vec3;

    /// The lower corner for index 0, the upper corner for any other.
    fn index(&self, index: usize) -> (p: &Vec3)
        ensures
            *p == self.corner(index as int),
    {
        if index == 0 {
            &self.min
        } else {
            &self.max
        }
    }
}

impl vstd::std_specs::core::IndexSpecImpl<usize> for BoundingBox {
    open spec fn index_req(&self, index: &usize) -> bool {
        true
    }
}

/// A sequence of keys has one least key and one greatest.
pub proof fn lemma_extremes_unique(keys: Seq<Scalar>, a: Scalar, b: Scalar)
    ensures
        least_of(keys, a) && least_of(keys, b) ==> a == b,
        greatest_of(keys, a) && greatest_of(keys, b) ==> a == b,
{
    lemma_total_order_separates(a, b);
    if least_of(keys, a) && least_of(keys, b) {
        let i = choose|i: int| 0 <= i < keys.len() && keys[i] == a;
        let j = choose|j: int| 0 <= j < keys.len() && keys[j] == b;
        assert(b.total_ordinal() <= keys[i].total_ordinal());
        assert(a.total_ordinal() <= keys[j].total_ordinal());
    }
    if greatest_of(keys, a) && greatest_of(keys, b) {
        let i = choose|i: int| 0 <= i < keys.len() && keys[i] == a;
        let j = choose|j: int| 0 <= j < keys.len() && keys[j] == b;
        assert(keys[i].total_ordinal() <= b.total_ordinal());
        assert(keys[j].total_ordinal() <= a.total_ordinal());
    }
}

/// A set of points has one box.
pub proof fn lemma_box_unique(a: BoundingBox, b: BoundingBox, points: Seq<Vec3>)
    requires
        a.bounds(points),
        b.bounds(points),
    ensures
        a.lower() == b.lower(),
        a.upper() == b.upper(),
{
    lemma_extremes_unique(xs(points), a.lower().x, b.lower().x);
    lemma_extremes_unique(ys(points), a.lower().y, b.lower().y);
    lemma_extremes_unique(zs(points), a.lower().z, b.lower().z);
    lemma_extremes_unique(xs(points), a.upper().x, b.upper().x);
    lemma_extremes_unique(ys(points), a.upper().y, b.upper().y);
    lemma_extremes_unique(zs(points), a.upper().z, b.upper().z);
}

/// The box holds its points: a point whose coordinates are numbers lies, on
/// each axis, between the lower and the upper corner.
pub proof fn lemma_box_holds(b: BoundingBox, points: Seq<Vec3>, i: int)
    requires
        b.bounds(points),
        0 <= i < points.len(),
    ensures
        !points[i].x.nan() && !b.lower().x.nan() ==> b.lower().x.at_most(points[i].x),
        !points[i].y.nan() && !b.lower().y.nan() ==> b.lower().y.at_most(points[i].y),
        !points[i].z.nan() && !b.lower().z.nan() ==> b.lower().z.at_most(points[i].z),
        !points[i].x.nan() && !b.upper().x.nan() ==> points[i].x.at_most(b.upper().x),
        !points[i].y.nan() && !b.upper().y.nan() ==> points[i].y.at_most(b.upper().y),
        !points[i].z.nan() && !b.upper().z.nan() ==> points[i].z.at_most(b.upper().z),
{
    assert(xs(points)[i] == points[i].x);
    assert(ys(points)[i] == points[i].y);
    assert(zs(points)[i] == points[i].z);
    assert(b.lower().x.total_ordinal() <= xs(points)[i].total_ordinal());
    assert(b.lower().y.total_ordinal() <= ys(points)[i].total_ordinal());
    assert(b.lower().z.total_ordinal() <= zs(points)[i].total_ordinal());
    assert(xs(points)[i].total_ordinal() <= b.upper().x.total_ordinal());
    assert(ys(points)[i].total_ordinal() <= b.upper().y.total_ordinal());
    assert(zs(points)[i].total_ordinal() <= b.upper().z.total_ordinal());
}

/// One more point moves each coordinate sequence on by one key.
proof fn lemma_extend(points: Seq<Vec3>, k: int)
    requires
        0 <= k < points.len(),
    ensures
        xs(points.take(k + 1)) == xs(points.take(k)).push(points[k].x),
        ys(points.take(k + 1)) == ys(points.take(k)).push(points[k].y),
        zs(points.take(k + 1)) == zs(points.take(k)).push(points[k].z),
{
    assert(xs(points.take(k + 1)) =~= xs(points.take(k)).push(points[k].x));
    assert(ys(points.take(k + 1)) =~= ys(points.take(k)).push(points[k].y));
    assert(zs(points.take(k + 1)) =~= zs(points.take(k)).push(points[k].z));
}

/// The least of a sequence with one more key is that key or the former least.
proof fn lemma_least_push(keys: Seq<Scalar>, least: Scalar, next: Scalar)
    requires
        least_of(keys, least),
    ensures
        least_of(
            keys.push(next),
            if next.total_ordinal() < least.total_ordinal() {
                next
            } else {
                least
            },
        ),
{
    let longer = keys.push(next);
    let i = choose|i: int| 0 <= i < keys.len() && keys[i] == least;
    assert(longer[i] == least);
    assert(longer[keys.len() as int] == next);
    assert forall|j: int| 0 <= j < keys.len() implies longer[j] == keys[j] by {}
}

/// The greatest of a sequence with one more key is that key or the former
/// greatest.
proof fn lemma_greatest_push(keys: Seq<Scalar>, greatest: Scalar, next: Scalar)
    requires
        greatest_of(keys, greatest),
    ensures
        greatest_of(
            keys.push(next),
            if next.total_ordinal() < greatest.total_ordinal() {
                greatest
            } else {
                next
            },
        ),
{
    let longer = keys.push(next);
    let i = choose|i: int| 0 <= i < keys.len() && keys[i] == greatest;
    assert(longer[i] == greatest);
    assert(longer[keys.len() as int] == next);
    assert forall|j: int| 0 <= j < keys.len() implies longer[j] == keys[j] by {}
}

} // verus!

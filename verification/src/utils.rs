//! The tolerance, the total order on numbers, and the shared point and
//! material buffers.

use vstd::prelude::*;
use core::cmp::Ordering;
use crate::material::Material;
use crate::scalar::Scalar;
use crate::vec3::Vec3;

verus! {

/// The encoding of the tolerance `1e-3`, below which a distance, a determinant
/// or a weight counts as nothing.
pub const EPSILON_BITS: u32 = 0x3a83_126f;

/// The tolerance `1e-3`, as it stands in contracts.
pub open spec fn spec_tolerance() -> Scalar {
    Scalar { bits: EPSILON_BITS }
}

/// The tolerance `1e-3`.
#[verifier::when_used_as_spec(spec_tolerance)]
pub fn tolerance() -> (r: Scalar)
    ensures
        r == spec_tolerance(),
{
    Scalar { bits: EPSILON_BITS }
}

/// A number as a sort key. `cmp` compares by IEEE-754's total order, under
/// which every encoding has its place, negative zero comes before positive
/// zero, and two keys are equal only when they are the same bits. The
/// operators `==` and `<` compare as numbers do: a NaN is unordered and equal
/// to nothing, and the two zeros are equal.
#[derive(Clone, Copy, Debug)]
pub struct OrderedFloat32 {
    pub val: Scalar,
}

impl OrderedFloat32 {
    /// Where `self` stands to `other` in the total order.
    pub open spec fn total_order(self, other: OrderedFloat32) -> Ordering {
        if self.val.total_ordinal() < other.val.total_ordinal() {
            Ordering::Less
        } else if self.val.total_ordinal() == other.val.total_ordinal() {
            Ordering::Equal
        } else {
            Ordering::Greater
        }
    }

    /// Where `self` stands to `other` as a number; nowhere, if either is a NaN.
    pub open spec fn numeric_order(self, other: OrderedFloat32) -> Option<Ordering> {
        if self.val.below(other.val) {
            Some(Ordering::Less)
        } else if self.val.same_value(other.val) {
            Some(Ordering::Equal)
        } else if other.val.below(self.val) {
            Some(Ordering::Greater)
        } else {
            None
        }
    }

    pub fn new(val: Scalar) -> (k: OrderedFloat32)
        ensures
            k.val == val,
    {
        OrderedFloat32 { val }
    }

    /// `self` comes strictly before `other` in the total order.
    pub fn precedes(&self, other: &OrderedFloat32) -> (r: bool)
        ensures
            r == (self.val.total_ordinal() < other.val.total_ordinal()),
    {
        self.val.total_key() < other.val.total_key()
    }

    /// Compares by the total order.
    pub fn cmp(&self, other: &OrderedFloat32) -> (o: Ordering)
        ensures
            o == self.total_order(*other),
    {
        let a: i64 = self.val.total_key();
        let b: i64 = other.val.total_key();
        if a < b {
            Ordering::Less
        } else if a == b {
            Ordering::Equal
        } else {
            Ordering::Greater
        }
    }
}

impl PartialEq for OrderedFloat32 {
    fn eq(&self, other: &OrderedFloat32) -> (r: bool) {
        self.val == other.val
    }
}

impl vstd::std_specs::cmp::PartialEqSpecImpl for OrderedFloat32 {
    open spec fn obeys_eq_spec() -> bool {
        true
    }

    open spec fn eq_spec(&self, other: &OrderedFloat32) -> bool {
        self.val.same_value(other.val)
    }
}

impl PartialOrd for OrderedFloat32 {
    fn partial_cmp(&self, other: &OrderedFloat32) -> (r: Option<Ordering>) {
        if self.val.lt(other.val) {
            Some(Ordering::Less)
        } else if self.val == other.val {
            Some(Ordering::Equal)
        } else if self.val.gt(other.val) {
            Some(Ordering::Greater)
        } else {
            None
        }
    }
}

impl vstd::std_specs::cmp::PartialOrdSpecImpl for OrderedFloat32 {
    open spec fn obeys_partial_cmp_spec() -> bool {
        true
    }

    open spec fn partial_cmp_spec(&self, other: &OrderedFloat32) -> Option<Ordering> {
        self.numeric_order(*other)
    }
}

pub type Vec3Idx = u32;

pub type MaterialIdx = u32;

/// The points of the scene, found again by index.
#[derive(Clone, Debug)]
pub struct VecBuf {
    pub points: Vec<Vec3>,
}

impl View for VecBuf {
    type V = Seq<Vec3>;

    /// The points in the order in which they were appended.
    open spec fn view(&self) -> Seq<Vec3> {
        self.points@
    }
}

impl VecBuf {
    /// Appends a point and returns its index. The index is the former length,
    /// cut to 32 bits.
    pub fn push(&mut self, vec: Vec3) -> (idx: Vec3Idx)
        ensures
            final(self)@ == old(self)@.push(vec),
            idx == old(self)@.len() % 0x1_0000_0000,
    {
        self.points.push(vec);
        let last: u64 = (self.points.len() - 1) as u64;
        assert(#[verifier::truncate] (last as u32) == last % 0x1_0000_0000) by (bit_vector);
        #[verifier::truncate]
        (last as u32)
    }

    /// The point stored under `idx`.
    pub fn load(&self, idx: Vec3Idx) -> (p: &Vec3)
        requires
            idx < self@.len(),
        ensures
            *p == self@[idx as int],
    {
        &self.points[idx as usize]
    }
}

/// The materials of the scene, found again by index.
#[derive(Clone, Debug)]
pub struct MaterialBuf {
    pub materials: Vec<Material>,
}

impl View for MaterialBuf {
    type V = Seq<Material>;

    /// The materials in the order in which they were appended.
    open spec fn view(&self) -> Seq<Material> {
        self.materials@
    }
}

impl MaterialBuf {
    /// Appends a material and returns its index. The index is the former
    /// length, cut to 32 bits.
    pub fn push(&mut self, material: Material) -> (idx: MaterialIdx)
        ensures
            final(self)@ == old(self)@.push(material),
            idx == old(self)@.len() % 0x1_0000_0000,
    {
        self.materials.push(material);
        let last: u64 = (self.materials.len() - 1) as u64;
        assert(#[verifier::truncate] (last as u32) == last % 0x1_0000_0000) by (bit_vector);
        #[verifier::truncate]
        (last as u32)
    }

    /// The material stored under `idx`.
    pub fn load(&self, idx: MaterialIdx) -> (m: &Material)
        requires
            idx < self@.len(),
        ensures
            *m == self@[idx as int],
    {
        &self.materials[idx as usize]
    }
}

} // verus!

//! IEEE-754 binary32 numbers by their encoding: sign, ordering and equality.

use vstd::prelude::*;
use vstd::arithmetic::power2::{lemma_pow2_pos, lemma_pow2_strictly_increases, lemma_pow2_unfold, pow2};

verus! {

/// The sign bit of a binary32 encoding.
pub const SIGN_BIT: u32 = 0x8000_0000;

/// The encoding of positive infinity. A larger magnitude is not a number.
pub const INFINITY_BITS: u32 = 0x7f80_0000;

/// The encoding of `1.0`.
pub const ONE_BITS: u32 = 0x3f80_0000;

/// The weight of the hidden bit: 2 to the 23, the number of fraction bits.
pub const HIDDEN_BIT: u32 = 0x80_0000;

/// The number that a magnitude below that of infinity encodes, counted in
/// units of 2 to the -149, the least positive number: the fraction alone
/// where the exponent field is zero, else the fraction with the hidden bit,
/// doubled once for each step of the exponent above one.
pub open spec fn magnitude_value(m: int) -> int {
    let exponent = m / (HIDDEN_BIT as int);
    let fraction = m % (HIDDEN_BIT as int);
    if exponent == 0 {
        fraction
    } else {
        (HIDDEN_BIT + fraction) * pow2((exponent - 1) as nat)
    }
}

/// A binary32 number, held by its encoding.
///
/// Two encodings are `==` in specifications when they are the same bits. The
/// numeric equality of IEEE-754, under which a NaN equals nothing and the two
/// zeros equal each other, is `same_value`, and it is what `==` computes in
/// executable code.
#[derive(Clone, Copy, Debug)]
pub struct Scalar {
    pub bits: u32,
}

impl Scalar {
    /// The sign bit is set.
    pub open spec fn sign(self) -> bool {
        self.bits >= SIGN_BIT
    }

    /// The encoding with the sign bit cleared.
    pub open spec fn magnitude(self) -> int {
        if self.bits >= SIGN_BIT {
            self.bits - SIGN_BIT
        } else {
            self.bits as int
        }
    }

    /// The encoding is a number and not an infinity.
    pub open spec fn finite(self) -> bool {
        self.magnitude() < INFINITY_BITS
    }

    /// The number encoded, counted in units of 2 to the -149. Meaningful for
    /// finite encodings.
    pub open spec fn value(self) -> int {
        if self.sign() {
            -magnitude_value(self.magnitude())
        } else {
            magnitude_value(self.magnitude())
        }
    }

    /// The encoding is a NaN.
    pub open spec fn nan(self) -> bool {
        self.magnitude() > INFINITY_BITS
    }

    /// Position in the numeric order: increasing in the number encoded, with
    /// both zeros at 0. Meaningful for every encoding but a NaN.
    pub open spec fn ordinal(self) -> int {
        if self.sign() {
            -self.magnitude()
        } else {
            self.magnitude()
        }
    }

    /// Position in the total order of IEEE-754: as `ordinal`, but with negative
    /// zero just below positive zero, negative NaNs below everything and
    /// positive NaNs above everything.
    pub open spec fn total_ordinal(self) -> int {
        if self.sign() {
            -self.magnitude() - 1
        } else {
            self.magnitude()
        }
    }

    /// `self < other` as numbers: false when either is a NaN.
    pub open spec fn below(self, other: Scalar) -> bool {
        !self.nan() && !other.nan() && self.ordinal() < other.ordinal()
    }

    /// `self <= other` as numbers: false when either is a NaN.
    pub open spec fn at_most(self, other: Scalar) -> bool {
        !self.nan() && !other.nan() && self.ordinal() <= other.ordinal()
    }

    /// `self == other` as numbers: false when either is a NaN, true of the two
    /// zeros.
    pub open spec fn same_value(self, other: Scalar) -> bool {
        !self.nan() && !other.nan() && self.ordinal() == other.ordinal()
    }

    /// The encoding with the sign bit flipped.
    pub open spec fn negated(self) -> Scalar {
        if self.bits >= SIGN_BIT {
            Scalar { bits: (self.bits - SIGN_BIT) as u32 }
        } else {
            Scalar { bits: (self.bits + SIGN_BIT) as u32 }
        }
    }

    /// The encoding with the sign bit cleared.
    pub open spec fn absolute(self) -> Scalar {
        Scalar { bits: self.magnitude() as u32 }
    }

    pub fn from_bits(bits: u32) -> (r: Scalar)
        ensures
            r.bits == bits,
    {
        Scalar { bits }
    }

    pub fn to_bits(self) -> (r: u32)
        ensures
            r == self.bits,
    {
        self.bits
    }

    /// Positive zero.
    pub fn zero() -> (r: Scalar)
        ensures
            r.bits == 0,
    {
        Scalar { bits: 0 }
    }

    /// The number one.
    pub fn one() -> (r: Scalar)
        ensures
            r.bits == ONE_BITS,
    {
        Scalar { bits: ONE_BITS }
    }

    pub fn is_nan(self) -> (r: bool)
        ensures
            r == self.nan(),
    {
        let m: u32 = if self.bits >= SIGN_BIT {
            self.bits - SIGN_BIT
        } else {
            self.bits
        };
        m > INFINITY_BITS
    }

    /// `-self`: flips the sign bit, of a NaN and of a zero too.
    pub fn neg(self) -> (r: Scalar)
        ensures
            r == self.negated(),
    {
        let bits = self.bits;
        assert(bits ^ 0x8000_0000u32 == if bits >= 0x8000_0000u32 {
            (bits - 0x8000_0000u32) as u32
        } else {
            (bits + 0x8000_0000u32) as u32
        }) by (bit_vector);
        Scalar { bits: bits ^ SIGN_BIT }
    }

    /// `|self|`: clears the sign bit, of a NaN too.
    pub fn abs(self) -> (r: Scalar)
        ensures
            r == self.absolute(),
    {
        let bits = self.bits;
        assert(bits & 0x7fff_ffffu32 == if bits >= 0x8000_0000u32 {
            (bits - 0x8000_0000u32) as u32
        } else {
            bits
        }) by (bit_vector);
        Scalar { bits: bits & 0x7fff_ffff }
    }

    /// `self < other`.
    pub fn lt(self, other: Scalar) -> (r: bool)
        ensures
            r == self.below(other),
    {
        if self.is_nan() || other.is_nan() {
            return false;
        }
        let a: i64 = self.ordinal_of();
        let b: i64 = other.ordinal_of();
        a < b
    }

    /// `self <= other`.
    pub fn le(self, other: Scalar) -> (r: bool)
        ensures
            r == self.at_most(other),
    {
        if self.is_nan() || other.is_nan() {
            return false;
        }
        let a: i64 = self.ordinal_of();
        let b: i64 = other.ordinal_of();
        a <= b
    }

    /// `self > other`.
    pub fn gt(self, other: Scalar) -> (r: bool)
        ensures
            r == other.below(self),
    {
        other.lt(self)
    }

    /// `self >= other`.
    pub fn ge(self, other: Scalar) -> (r: bool)
        ensures
            r == other.at_most(self),
    {
        other.le(self)
    }

    /// The key under which IEEE-754's total order is the order of integers.
    pub fn total_key(self) -> (r: i64)
        ensures
            r == self.total_ordinal(),
    {
        if self.bits >= SIGN_BIT {
            let m: u32 = self.bits - SIGN_BIT;
            -(m as i64) - 1
        } else {
            self.bits as i64
        }
    }

    fn ordinal_of(self) -> (r: i64)
        ensures
            r == self.ordinal(),
    {
        if self.bits >= SIGN_BIT {
            let m: u32 = self.bits - SIGN_BIT;
            -(m as i64)
        } else {
            self.bits as i64
        }
    }
}

/// A larger magnitude encodes a larger number.
proof fn lemma_magnitude_value_increases(m1: int, m2: int)
    requires
        0 <= m1 < m2,
    ensures
        0 <= magnitude_value(m1) < magnitude_value(m2),
{
    let h = HIDDEN_BIT as int;
    let e1 = m1 / h;
    let f1 = m1 % h;
    let e2 = m2 / h;
    let f2 = m2 % h;
    vstd::arithmetic::div_mod::lemma_fundamental_div_mod(m1, h);
    vstd::arithmetic::div_mod::lemma_fundamental_div_mod(m2, h);
    assert(0 <= e1 <= e2 && (e1 == e2 ==> f1 < f2)) by (nonlinear_arith)
        requires
            0 <= m1 < m2,
            h == 0x80_0000,
            m1 == h * e1 + f1,
            m2 == h * e2 + f2,
            0 <= f1 < h,
            0 <= f2 < h,
    ;
    if e1 == 0 {
        if e2 > 0 {
            let high_step = pow2((e2 - 1) as nat) as int;
            lemma_pow2_pos((e2 - 1) as nat);
            assert(f1 < (h + f2) * high_step) by (nonlinear_arith)
                requires
                    0 <= f1 < h,
                    0 <= f2,
                    high_step >= 1,
            ;
        }
    } else {
        let low_step = pow2((e1 - 1) as nat) as int;
        let high_step = pow2((e2 - 1) as nat) as int;
        lemma_pow2_pos((e1 - 1) as nat);
        if e1 == e2 {
            assert((h + f1) * low_step < (h + f2) * low_step) by (nonlinear_arith)
                requires
                    f1 < f2,
                    low_step >= 1,
            ;
        } else {
            lemma_pow2_unfold(e1 as nat);
            if e1 < e2 - 1 {
                lemma_pow2_strictly_increases(e1 as nat, (e2 - 1) as nat);
            }
            assert((h + f1) * low_step < (h + f2) * high_step) by (nonlinear_arith)
                requires
                    0 <= f1 < h,
                    0 <= f2,
                    h > 0,
                    low_step >= 1,
                    2 * low_step <= high_step,
            ;
        }
        assert(0 <= (h + f1) * low_step) by (nonlinear_arith)
            requires
                0 <= f1,
                h > 0,
                low_step >= 1,
        ;
    }
}

/// The numeric order of finite encodings is the order of the numbers they
/// encode, and they are the same value exactly when they encode the same
/// number.
pub proof fn lemma_order_of_values(a: Scalar, b: Scalar)
    requires
        a.finite(),
        b.finite(),
    ensures
        a.below(b) <==> a.value() < b.value(),
        a.same_value(b) <==> a.value() == b.value(),
        a.at_most(b) <==> a.value() <= b.value(),
{
    let ma = a.magnitude();
    let mb = b.magnitude();
    assert(magnitude_value(0) == 0);
    if ma > 0 {
        lemma_magnitude_value_increases(0, ma);
    }
    if mb > 0 {
        lemma_magnitude_value_increases(0, mb);
    }
    if ma < mb {
        lemma_magnitude_value_increases(ma, mb);
    } else if mb < ma {
        lemma_magnitude_value_increases(mb, ma);
    }
}

/// Every finite number lies strictly between the two infinities.
pub proof fn lemma_infinities_bound(a: Scalar)
    requires
        a.finite(),
    ensures
        a.below(Scalar { bits: INFINITY_BITS }),
        (Scalar { bits: INFINITY_BITS }).negated().below(a),
{
}

/// The total order tells any two encodings apart.
pub proof fn lemma_total_order_separates(a: Scalar, b: Scalar)
    ensures
        a.total_ordinal() == b.total_ordinal() <==> a == b,
{
}

/// Among numbers the total order agrees with the numeric order: what is below
/// comes before, and what comes before is not above.
pub proof fn lemma_total_order_refines(a: Scalar, b: Scalar)
    requires
        !a.nan(),
        !b.nan(),
    ensures
        a.below(b) ==> a.total_ordinal() < b.total_ordinal(),
        a.total_ordinal() <= b.total_ordinal() ==> a.at_most(b),
{
}

/// Of two numbers exactly one holds: the first is below the second, they are
/// the same value, or the second is below the first. A NaN stands in none of
/// the three to anything.
pub proof fn lemma_numeric_order(a: Scalar, b: Scalar)
    ensures
        !a.nan() && !b.nan() ==> (a.below(b) || a.same_value(b) || b.below(a)),
        !(a.below(b) && b.below(a)),
        !(a.below(b) && a.same_value(b)),
        a.at_most(b) <==> a.below(b) || a.same_value(b),
        a.nan() || b.nan() ==> !a.below(b) && !a.same_value(b) && !b.below(a),
{
}

/// Negating twice gives the encoding back, and negating both sides turns the
/// numeric order round.
pub proof fn lemma_negation(a: Scalar, b: Scalar)
    ensures
        a.negated().negated() == a,
        a.negated().nan() == a.nan(),
        a.negated().ordinal() == -a.ordinal(),
        a.below(b) <==> b.negated().below(a.negated()),
{
}

/// The absolute value is never below zero, and is the number itself or its
/// negation.
pub proof fn lemma_absolute(a: Scalar)
    ensures
        !a.absolute().sign(),
        a.absolute() == a || a.absolute() == a.negated(),
        a.absolute().nan() == a.nan(),
        !a.absolute().below(Scalar { bits: 0 }),
{
}

impl PartialEq for Scalar {
    /// Numeric equality: a NaN equals nothing, the two zeros equal each other.
    fn eq(&self, other: &Scalar) -> (r: bool) {
        if self.is_nan() || other.is_nan() {
            return false;
        }
        let a: i64 = self.ordinal_of();
        let b: i64 = other.ordinal_of();
        a == b
    }
}

impl vstd::std_specs::cmp::PartialEqSpecImpl for Scalar {
    open spec fn obeys_eq_spec() -> bool {
        true
    }

    open spec fn eq_spec(&self, other: &Scalar) -> bool {
        self.same_value(*other)
    }
}

} // verus!

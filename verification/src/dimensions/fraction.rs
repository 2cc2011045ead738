//! `DimensionlessFraction`, an exact rational number kept as the numerator and denominator it was
//! built from.
use vstd::prelude::*;
use core::cmp::Ordering;
use core::ops::{Add, AddAssign, Div, DivAssign, Mul, MulAssign, Neg, Sub, SubAssign};
use super::{fits_i64, trunc_div, DimensionlessInteger, Time};
use super::transmute_safe::{transmute_unit_safe, OnlyRepresents, Transparent};

verus! {

/// The numerator of `n/d` once the sign of the denominator has been moved to the numerator.
pub open spec fn normalized_numerator(n: int, d: int) -> int {
    if d < 0 {
        -n
    } else {
        n
    }
}

/// The absolute value of a denominator.
pub open spec fn normalized_denominator(d: int) -> int {
    if d < 0 {
        -d
    } else {
        d
    }
}

/// Comparing `n1/d1` with `n2/d2` through cross products with positive denominators.
pub open spec fn rational_less(n1: int, d1: int, n2: int, d2: int) -> bool {
    normalized_numerator(n1, d1) * normalized_denominator(d2) < normalized_numerator(n2, d2)
        * normalized_denominator(d1)
}

/// `n1/d1` and `n2/d2` are the same rational number.
pub open spec fn rational_equal(n1: int, d1: int, n2: int, d2: int) -> bool {
    normalized_numerator(n1, d1) * normalized_denominator(d2) == normalized_numerator(n2, d2)
        * normalized_denominator(d1)
}

proof fn lemma_normalized_cross(n1: int, d1: int, n2: int, d2: int)
    requires
        d1 != 0,
        d2 != 0,
    ensures
        (d1 < 0) == (d2 < 0) ==> normalized_numerator(n1, d1) * normalized_denominator(d2) == n1
            * d2 && normalized_numerator(n2, d2) * normalized_denominator(d1) == d1 * n2,
        (d1 < 0) != (d2 < 0) ==> normalized_numerator(n1, d1) * normalized_denominator(d2) == -(n1
            * d2) && normalized_numerator(n2, d2) * normalized_denominator(d1) == -(d1 * n2),
{
    assert((-n1) * (-d2) == n1 * d2) by (nonlinear_arith);
    assert((-n2) * (-d1) == d1 * n2) by (nonlinear_arith);
    assert(n2 * d1 == d1 * n2) by (nonlinear_arith);
    assert((-n1) * d2 == -(n1 * d2)) by (nonlinear_arith);
    assert(n1 * (-d2) == -(n1 * d2)) by (nonlinear_arith);
    assert((-n2) * d1 == -(d1 * n2)) by (nonlinear_arith);
    assert(n2 * (-d1) == -(d1 * n2)) by (nonlinear_arith);
}

proof fn lemma_i64_product_fits_i128(a: i64, b: i64)
    ensures
        i128::MIN <= (a as int) * (b as int) <= i128::MAX,
{
    assert(-0x8000_0000_0000_0000 <= a <= 0x7fff_ffff_ffff_ffff);
    assert(-0x8000_0000_0000_0000 <= b <= 0x7fff_ffff_ffff_ffff);
    assert(-0x4000_0000_0000_0000_0000_0000_0000_0000 <= (a as int) * (b as int)
        <= 0x4000_0000_0000_0000_0000_0000_0000_0000) by (nonlinear_arith)
        requires
            -0x8000_0000_0000_0000 <= a <= 0x7fff_ffff_ffff_ffff,
            -0x8000_0000_0000_0000 <= b <= 0x7fff_ffff_ffff_ffff,
    ;
}

/// Three-way comparison of the rational numbers `n1/d1` and `n2/d2`: -1, 0 or 1.
fn compare_rationals(n1: i64, d1: i64, n2: i64, d2: i64) -> (r: i8)
    requires
        d1 != 0,
        d2 != 0,
    ensures
        r == -1 <==> rational_less(n1 as int, d1 as int, n2 as int, d2 as int),
        r == 0 <==> rational_equal(n1 as int, d1 as int, n2 as int, d2 as int),
        r == 1 <==> rational_less(n2 as int, d2 as int, n1 as int, d1 as int),
{
    proof {
        lemma_i64_product_fits_i128(n1, d2);
        lemma_i64_product_fits_i128(d1, n2);
        lemma_normalized_cross(n1 as int, d1 as int, n2 as int, d2 as int);
    }
    let a: i128 = (n1 as i128) * (d2 as i128);
    let b: i128 = (d1 as i128) * (n2 as i128);
    let base: i8 = if a < b {
        -1
    } else if a == b {
        0
    } else {
        1
    };
    if (d1 < 0) == (d2 < 0) {
        base
    } else {
        -base
    }
}

///An exact rational number type for dimensionless values.
///
///The denominator is never zero: every constructor requires a nonzero denominator, and the type
///invariant keeps it so.
#[derive(Clone, Copy, Debug)]
pub struct DimensionlessFraction {
    num: i64,
    den: i64,
}

impl DimensionlessFraction {
    #[verifier::type_invariant]
    spec fn denominator_nonzero(self) -> bool {
        self.den != 0
    }

    /// The numerator as it was given.
    pub closed spec fn numer(self) -> int {
        self.num as int
    }

    /// The denominator as it was given.
    pub closed spec fn denom(self) -> int {
        self.den as int
    }

    /// The numerator with the sign of the denominator moved onto it.
    pub open spec fn snum(self) -> int {
        normalized_numerator(self.numer(), self.denom())
    }

    /// The absolute value of the denominator.
    pub open spec fn sden(self) -> int {
        normalized_denominator(self.denom())
    }

    /// The fraction is strictly less than `other` as a rational number.
    pub open spec fn rational_lt(self, other: Self) -> bool {
        rational_less(self.numer(), self.denom(), other.numer(), other.denom())
    }

    /// The fraction equals `other` as a rational number.
    pub open spec fn rational_eq(self, other: Self) -> bool {
        rational_equal(self.numer(), self.denom(), other.numer(), other.denom())
    }

    ///Checks that the denominator is nonzero. Since the type keeps its denominator nonzero, this
    ///never fails; it makes that fact available to the caller.
    pub fn assert_valid(&self)
        ensures
            self.denom() != 0,
    {
        proof {
            use_type_invariant(self);
        }
    }

    ///Identical to [`assert_valid`](Self::assert_valid).
    pub fn debug_assert_valid(&self)
        ensures
            self.denom() != 0,
    {
        proof {
            use_type_invariant(self);
        }
    }

    ///Constructor from raw `i64` values for numerator and denominator. The denominator must be
    ///nonzero.
    pub fn from_raw(num: i64, denom: i64) -> (r: Self)
        requires
            denom != 0,
        ensures
            r.numer() == num,
            r.denom() == denom,
    {
        DimensionlessFraction { num, den: denom }
    }

    ///Constructor from a numerator and a denominator of types that hold an `i64` and always
    ///represent the same unit. The denominator must be nonzero.
    pub fn new<N, D>(num: N, denom: D) -> (r: Self) where
        N: Transparent<Inner = i64> + OnlyRepresents + Copy,
        D: Transparent<Inner = i64> + OnlyRepresents<Unit = N::Unit> + Copy,

        requires
            denom.inner_value() != 0,
        ensures
            r.numer() == num.inner_value(),
            r.denom() == denom.inner_value(),
    {
        let n: i64 = transmute_unit_safe(num);
        let d: i64 = transmute_unit_safe(denom);
        Self::from_raw(n, d)
    }

    ///Constructor that does not check the denominator at run time. The denominator must be
    ///nonzero, which callers prove.
    pub fn new_unchecked<N, D>(num: N, denom: D) -> (r: Self) where
        N: Transparent<Inner = i64> + OnlyRepresents + Copy,
        D: Transparent<Inner = i64> + OnlyRepresents<Unit = N::Unit> + Copy,

        requires
            denom.inner_value() != 0,
        ensures
            r.numer() == num.inner_value(),
            r.denom() == denom.inner_value(),
    {
        Self::new(num, denom)
    }

    ///Constructor from raw `i64` values that does not check the denominator at run time. The
    ///denominator must be nonzero, which callers prove.
    pub fn from_raw_unchecked(num: i64, denom: i64) -> (r: Self)
        requires
            denom != 0,
        ensures
            r.numer() == num,
            r.denom() == denom,
    {
        DimensionlessFraction { num, den: denom }
    }

    ///Whether the denominator is nonzero, which the type guarantees.
    pub fn is_valid(&self) -> (r: bool)
        ensures
            r == (self.denom() != 0),
            r,
    {
        proof {
            use_type_invariant(self);
        }
        self.den != 0
    }

    ///Reciprocal function (1/x) that does not check the new denominator at run time. The
    ///fraction must not be zero, which callers prove.
    pub fn reciprocal_unchecked(&self) -> (r: Self)
        requires
            self.numer() != 0,
        ensures
            r.numer() == self.denom(),
            r.denom() == self.numer(),
    {
        DimensionlessFraction { num: self.den, den: self.num }
    }

    ///Reciprocal function (1/x). The fraction must not be zero.
    pub fn reciprocal(&self) -> (r: Self)
        requires
            self.numer() != 0,
        ensures
            r.numer() == self.denom(),
            r.denom() == self.numer(),
    {
        DimensionlessFraction { num: self.den, den: self.num }
    }

    ///Converts the fraction into a tuple `(numerator, denominator)`.
    pub fn into_components(self) -> (r: (DimensionlessInteger, DimensionlessInteger))
        ensures
            r.0.0 == self.numer(),
            r.1.0 == self.denom(),
            r.1.0 != 0,
    {
        proof {
            use_type_invariant(&self);
        }
        (DimensionlessInteger(self.num), DimensionlessInteger(self.den))
    }

    ///Returns true if the numerators and denominators are directly equal. For example, for
    ///fractions a/b and c/d, `==` tests whether a/b=c/d, but this method tests whether a=c and
    ///b=d.
    pub fn raw_eq(&self, rhs: &Self) -> (r: bool)
        ensures
            r == (self.numer() == rhs.numer() && self.denom() == rhs.denom()),
    {
        self.num == rhs.num && self.den == rhs.den
    }
}

///The default `DimensionlessFraction` is 0, specifically 0/1.
impl Default for DimensionlessFraction {
    fn default() -> (r: Self)
        ensures
            r.numer() == 0,
            r.denom() == 1,
    {
        DimensionlessFraction { num: 0, den: 1 }
    }
}

impl From<DimensionlessInteger> for DimensionlessFraction {
    fn from(was: DimensionlessInteger) -> (r: Self)
        ensures
            r.numer() == was.0,
            r.denom() == 1,
    {
        DimensionlessFraction { num: was.0, den: 1 }
    }
}

impl vstd::std_specs::convert::FromSpecImpl<DimensionlessInteger> for DimensionlessFraction {
    open spec fn obeys_from_spec() -> bool {
        true
    }

    closed spec fn from_spec(v: DimensionlessInteger) -> DimensionlessFraction {
        DimensionlessFraction { num: v.0, den: 1 }
    }
}

impl PartialEq for DimensionlessFraction {
    fn eq(&self, rhs: &Self) -> (r: bool) {
        proof {
            use_type_invariant(self);
            use_type_invariant(rhs);
        }
        compare_rationals(self.num, self.den, rhs.num, rhs.den) == 0
    }
}

impl Eq for DimensionlessFraction {

}

impl vstd::std_specs::cmp::PartialEqSpecImpl for DimensionlessFraction {
    open spec fn obeys_eq_spec() -> bool {
        true
    }

    open spec fn eq_spec(&self, other: &Self) -> bool {
        self.rational_eq(*other)
    }
}

impl PartialOrd for DimensionlessFraction {
    fn partial_cmp(&self, rhs: &Self) -> (r: Option<Ordering>) {
        proof {
            use_type_invariant(self);
            use_type_invariant(rhs);
        }
        let c = compare_rationals(self.num, self.den, rhs.num, rhs.den);
        if c == -1 {
            Some(Ordering::Less)
        } else if c == 0 {
            Some(Ordering::Equal)
        } else {
            Some(Ordering::Greater)
        }
    }
}

impl vstd::std_specs::cmp::PartialOrdSpecImpl for DimensionlessFraction {
    open spec fn obeys_partial_cmp_spec() -> bool {
        true
    }

    open spec fn partial_cmp_spec(&self, other: &Self) -> Option<Ordering> {
        if self.rational_lt(*other) {
            Some(Ordering::Less)
        } else if self.rational_eq(*other) {
            Some(Ordering::Equal)
        } else {
            Some(Ordering::Greater)
        }
    }
}

impl Neg for DimensionlessFraction {
    type Output = Self;

    fn neg(self) -> (r: Self)
        ensures
            r.numer() == -self.numer(),
            r.denom() == self.denom(),
    {
        proof {
            use_type_invariant(&self);
        }
        DimensionlessFraction { num: -self.num, den: self.den }
    }
}


impl vstd::std_specs::ops::NegSpecImpl for DimensionlessFraction {
    open spec fn obeys_neg_spec() -> bool {
        true
    }

    open spec fn neg_req(self) -> bool {
        self.numer() != i64::MIN
    }

    closed spec fn neg_spec(self) -> Self {
        DimensionlessFraction { num: (-self.num) as i64, den: self.den }
    }
}

impl Mul for DimensionlessFraction {
    type Output = Self;

    fn mul(self, rhs: Self) -> (r: Self)
        ensures
            r.numer() == self.numer() * rhs.numer(),
            r.denom() == self.denom() * rhs.denom(),
    {
        proof {
            use_type_invariant(&self);
            use_type_invariant(&rhs);
            assert(self.den * rhs.den != 0) by (nonlinear_arith)
                requires
                    self.den != 0,
                    rhs.den != 0,
            ;
        }
        DimensionlessFraction { num: self.num * rhs.num, den: self.den * rhs.den }
    }
}

impl vstd::std_specs::ops::MulSpecImpl for DimensionlessFraction {
    open spec fn obeys_mul_spec() -> bool {
        true
    }

    open spec fn mul_req(self, rhs: Self) -> bool {
        fits_i64(self.numer() * rhs.numer()) && fits_i64(self.denom() * rhs.denom())
    }

    closed spec fn mul_spec(self, rhs: Self) -> Self {
        DimensionlessFraction { num: (self.num * rhs.num) as i64, den: (self.den * rhs.den) as i64 }
    }
}

impl MulAssign for DimensionlessFraction {
    fn mul_assign(&mut self, rhs: Self)
        requires
            fits_i64(old(self).numer() * rhs.numer()),
            fits_i64(old(self).denom() * rhs.denom()),
        ensures
            final(self).numer() == old(self).numer() * rhs.numer(),
            final(self).denom() == old(self).denom() * rhs.denom(),
    {
        *self = *self * rhs;
    }
}

impl Div for DimensionlessFraction {
    type Output = Self;

    fn div(self, rhs: Self) -> (r: Self)
        ensures
            r.numer() == self.numer() * rhs.denom(),
            r.denom() == self.denom() * rhs.numer(),
    {
        self * rhs.reciprocal()
    }
}

impl vstd::std_specs::ops::DivSpecImpl for DimensionlessFraction {
    open spec fn obeys_div_spec() -> bool {
        true
    }

    open spec fn div_req(self, rhs: Self) -> bool {
        rhs.numer() != 0 && fits_i64(self.numer() * rhs.denom()) && fits_i64(
            self.denom() * rhs.numer(),
        )
    }

    closed spec fn div_spec(self, rhs: Self) -> Self {
        DimensionlessFraction { num: (self.num * rhs.den) as i64, den: (self.den * rhs.num) as i64 }
    }
}

impl DivAssign for DimensionlessFraction {
    fn div_assign(&mut self, rhs: Self)
        requires
            rhs.numer() != 0,
            fits_i64(old(self).numer() * rhs.denom()),
            fits_i64(old(self).denom() * rhs.numer()),
        ensures
            final(self).numer() == old(self).numer() * rhs.denom(),
            final(self).denom() == old(self).denom() * rhs.numer(),
    {
        *self = *self / rhs;
    }
}

/// The components of the sum `n1/d1 + n2/d2` are computable in `i64`.
pub open spec fn sum_fits(n1: int, d1: int, n2: int, d2: int) -> bool {
    &&& fits_i64(n1 * d2)
    &&& fits_i64(n2 * d1)
    &&& fits_i64(n1 * d2 + n2 * d1)
    &&& fits_i64(d1 * d2)
}

impl Add for DimensionlessFraction {
    type Output = Self;

    fn add(self, rhs: Self) -> (r: Self)
        ensures
            r.numer() == self.numer() * rhs.denom() + rhs.numer() * self.denom(),
            r.denom() == self.denom() * rhs.denom(),
    {
        proof {
            use_type_invariant(&self);
            use_type_invariant(&rhs);
            assert(self.den * rhs.den != 0) by (nonlinear_arith)
                requires
                    self.den != 0,
                    rhs.den != 0,
            ;
        }
        Self::from_raw(self.num * rhs.den + rhs.num * self.den, self.den * rhs.den)
    }
}

impl vstd::std_specs::ops::AddSpecImpl for DimensionlessFraction {
    open spec fn obeys_add_spec() -> bool {
        true
    }

    open spec fn add_req(self, rhs: Self) -> bool {
        sum_fits(self.numer(), self.denom(), rhs.numer(), rhs.denom())
    }

    closed spec fn add_spec(self, rhs: Self) -> Self {
        DimensionlessFraction {
            num: (self.num * rhs.den + rhs.num * self.den) as i64,
            den: (self.den * rhs.den) as i64,
        }
    }
}

impl AddAssign for DimensionlessFraction {
    fn add_assign(&mut self, rhs: Self)
        requires
            sum_fits(old(self).numer(), old(self).denom(), rhs.numer(), rhs.denom()),
        ensures
            final(self).numer() == old(self).numer() * rhs.denom() + rhs.numer() * old(
                self,
            ).denom(),
            final(self).denom() == old(self).denom() * rhs.denom(),
    {
        *self = *self + rhs;
    }
}

impl Sub for DimensionlessFraction {
    type Output = Self;

    fn sub(self, rhs: Self) -> (r: Self)
        ensures
            r.numer() == self.numer() * rhs.denom() - rhs.numer() * self.denom(),
            r.denom() == self.denom() * rhs.denom(),
    {
        proof {
            assert((-rhs.numer()) * self.denom() == -(rhs.numer() * self.denom())) by (nonlinear_arith);
        }
        self + rhs.neg()
    }
}

impl vstd::std_specs::ops::SubSpecImpl for DimensionlessFraction {
    open spec fn obeys_sub_spec() -> bool {
        true
    }

    open spec fn sub_req(self, rhs: Self) -> bool {
        rhs.numer() != i64::MIN && sum_fits(self.numer(), self.denom(), -rhs.numer(), rhs.denom())
    }

    closed spec fn sub_spec(self, rhs: Self) -> Self {
        DimensionlessFraction {
            num: (self.num * rhs.den - rhs.num * self.den) as i64,
            den: (self.den * rhs.den) as i64,
        }
    }
}

impl SubAssign for DimensionlessFraction {
    fn sub_assign(&mut self, rhs: Self)
        requires
            rhs.numer() != i64::MIN,
            sum_fits(old(self).numer(), old(self).denom(), -rhs.numer(), rhs.denom()),
        ensures
            final(self).numer() == old(self).numer() * rhs.denom() - rhs.numer() * old(
                self,
            ).denom(),
            final(self).denom() == old(self).denom() * rhs.denom(),
    {
        *self = *self - rhs;
    }
}

impl Mul<DimensionlessInteger> for DimensionlessFraction {
    type Output = Self;

    fn mul(self, rhs: DimensionlessInteger) -> (r: Self)
        ensures
            r.numer() == self.numer() * rhs.0,
            r.denom() == self.denom(),
    {
        proof {
            use_type_invariant(&self);
        }
        DimensionlessFraction { num: self.num * rhs.0, den: self.den }
    }
}

impl vstd::std_specs::ops::MulSpecImpl<DimensionlessInteger> for DimensionlessFraction {
    open spec fn obeys_mul_spec() -> bool {
        true
    }

    open spec fn mul_req(self, rhs: DimensionlessInteger) -> bool {
        fits_i64(self.numer() * rhs.0)
    }

    closed spec fn mul_spec(self, rhs: DimensionlessInteger) -> Self {
        DimensionlessFraction { num: (self.num * rhs.0) as i64, den: self.den }
    }
}

impl MulAssign<DimensionlessInteger> for DimensionlessFraction {
    fn mul_assign(&mut self, rhs: DimensionlessInteger)
        requires
            fits_i64(old(self).numer() * rhs.0),
        ensures
            final(self).numer() == old(self).numer() * rhs.0,
            final(self).denom() == old(self).denom(),
    {
        *self = *self * rhs;
    }
}

impl Div<DimensionlessInteger> for DimensionlessFraction {
    type Output = Self;

    fn div(self, rhs: DimensionlessInteger) -> (r: Self)
        ensures
            r.numer() == self.numer(),
            r.denom() == self.denom() * rhs.0,
    {
        proof {
            use_type_invariant(&self);
            assert(self.den * rhs.0 != 0) by (nonlinear_arith)
                requires
                    self.den != 0,
                    rhs.0 != 0,
            ;
        }
        Self::from_raw(self.num, self.den * rhs.0)
    }
}

impl vstd::std_specs::ops::DivSpecImpl<DimensionlessInteger> for DimensionlessFraction {
    open spec fn obeys_div_spec() -> bool {
        true
    }

    open spec fn div_req(self, rhs: DimensionlessInteger) -> bool {
        rhs.0 != 0 && fits_i64(self.denom() * rhs.0)
    }

    closed spec fn div_spec(self, rhs: DimensionlessInteger) -> Self {
        DimensionlessFraction { num: self.num, den: (self.den * rhs.0) as i64 }
    }
}

impl DivAssign<DimensionlessInteger> for DimensionlessFraction {
    fn div_assign(&mut self, rhs: DimensionlessInteger)
        requires
            rhs.0 != 0,
            fits_i64(old(self).denom() * rhs.0),
        ensures
            final(self).numer() == old(self).numer(),
            final(self).denom() == old(self).denom() * rhs.0,
    {
        *self = *self / rhs;
    }
}

impl Add<DimensionlessInteger> for DimensionlessFraction {
    type Output = Self;

    fn add(self, rhs: DimensionlessInteger) -> (r: Self)
        ensures
            r.numer() == self.numer() + rhs.0 * self.denom(),
            r.denom() == self.denom(),
    {
        self + Self::from(rhs)
    }
}

impl vstd::std_specs::ops::AddSpecImpl<DimensionlessInteger> for DimensionlessFraction {
    open spec fn obeys_add_spec() -> bool {
        true
    }

    open spec fn add_req(self, rhs: DimensionlessInteger) -> bool {
        sum_fits(self.numer(), self.denom(), rhs.0 as int, 1)
    }

    closed spec fn add_spec(self, rhs: DimensionlessInteger) -> Self {
        DimensionlessFraction { num: (self.num + rhs.0 * self.den) as i64, den: self.den }
    }
}

impl AddAssign<DimensionlessInteger> for DimensionlessFraction {
    fn add_assign(&mut self, rhs: DimensionlessInteger)
        requires
            sum_fits(old(self).numer(), old(self).denom(), rhs.0 as int, 1),
        ensures
            final(self).numer() == old(self).numer() + rhs.0 * old(self).denom(),
            final(self).denom() == old(self).denom(),
    {
        *self = *self + rhs;
    }
}

impl Sub<DimensionlessInteger> for DimensionlessFraction {
    type Output = Self;

    fn sub(self, rhs: DimensionlessInteger) -> (r: Self)
        ensures
            r.numer() == self.numer() - rhs.0 * self.denom(),
            r.denom() == self.denom(),
    {
        proof {
            assert((-rhs.0) * self.denom() == -(rhs.0 * self.denom())) by (nonlinear_arith);
        }
        self + Self::from(rhs.neg())
    }
}

impl vstd::std_specs::ops::SubSpecImpl<DimensionlessInteger> for DimensionlessFraction {
    open spec fn obeys_sub_spec() -> bool {
        true
    }

    open spec fn sub_req(self, rhs: DimensionlessInteger) -> bool {
        rhs.0 != i64::MIN && sum_fits(self.numer(), self.denom(), -rhs.0, 1)
    }

    closed spec fn sub_spec(self, rhs: DimensionlessInteger) -> Self {
        DimensionlessFraction { num: (self.num - rhs.0 * self.den) as i64, den: self.den }
    }
}

impl SubAssign<DimensionlessInteger> for DimensionlessFraction {
    fn sub_assign(&mut self, rhs: DimensionlessInteger)
        requires
            rhs.0 != i64::MIN,
            sum_fits(old(self).numer(), old(self).denom(), -rhs.0, 1),
        ensures
            final(self).numer() == old(self).numer() - rhs.0 * old(self).denom(),
            final(self).denom() == old(self).denom(),
    {
        *self = *self - rhs;
    }
}

impl Mul<Time> for DimensionlessFraction {
    type Output = Time;

    fn mul(self, rhs: Time) -> (r: Time)
        ensures
            r.0 == trunc_div(rhs.0 * self.numer(), self.denom()) as i64,
    {
        proof {
            use_type_invariant(&self);
        }
        Time(rhs.0 * self.num / self.den)
    }
}

impl vstd::std_specs::ops::MulSpecImpl<Time> for DimensionlessFraction {
    open spec fn obeys_mul_spec() -> bool {
        true
    }

    open spec fn mul_req(self, rhs: Time) -> bool {
        fits_i64(rhs.0 * self.numer()) && !(rhs.0 * self.numer() == i64::MIN && self.denom() == -1)
    }

    open spec fn mul_spec(self, rhs: Time) -> Time {
        Time(trunc_div(rhs.0 * self.numer(), self.denom()) as i64)
    }
}

impl Mul<DimensionlessFraction> for DimensionlessInteger {
    type Output = DimensionlessFraction;

    fn mul(self, rhs: DimensionlessFraction) -> (r: DimensionlessFraction)
        ensures
            r.numer() == rhs.numer() * self.0,
            r.denom() == rhs.denom(),
    {
        rhs * self
    }
}

impl vstd::std_specs::ops::MulSpecImpl<DimensionlessFraction> for DimensionlessInteger {
    open spec fn obeys_mul_spec() -> bool {
        true
    }

    open spec fn mul_req(self, rhs: DimensionlessFraction) -> bool {
        fits_i64(rhs.numer() * self.0)
    }

    closed spec fn mul_spec(self, rhs: DimensionlessFraction) -> DimensionlessFraction {
        DimensionlessFraction { num: (rhs.num * self.0) as i64, den: rhs.den }
    }
}

impl Div<DimensionlessFraction> for DimensionlessInteger {
    type Output = DimensionlessFraction;

    fn div(self, rhs: DimensionlessFraction) -> (r: DimensionlessFraction)
        ensures
            r.numer() == rhs.denom() * self.0,
            r.denom() == rhs.numer(),
    {
        self * rhs.reciprocal()
    }
}

impl vstd::std_specs::ops::DivSpecImpl<DimensionlessFraction> for DimensionlessInteger {
    open spec fn obeys_div_spec() -> bool {
        true
    }

    open spec fn div_req(self, rhs: DimensionlessFraction) -> bool {
        rhs.numer() != 0 && fits_i64(rhs.denom() * self.0)
    }

    closed spec fn div_spec(self, rhs: DimensionlessFraction) -> DimensionlessFraction {
        DimensionlessFraction { num: (rhs.den * self.0) as i64, den: rhs.num }
    }
}

impl Mul<DimensionlessFraction> for Time {
    type Output = Time;

    fn mul(self, rhs: DimensionlessFraction) -> (r: Time)
        ensures
            r.0 == trunc_div(self.0 * rhs.numer(), rhs.denom()) as i64,
    {
        rhs * self
    }
}

impl vstd::std_specs::ops::MulSpecImpl<DimensionlessFraction> for Time {
    open spec fn obeys_mul_spec() -> bool {
        true
    }

    open spec fn mul_req(self, rhs: DimensionlessFraction) -> bool {
        fits_i64(self.0 * rhs.numer()) && !(self.0 * rhs.numer() == i64::MIN && rhs.denom() == -1)
    }

    open spec fn mul_spec(self, rhs: DimensionlessFraction) -> Time {
        Time(trunc_div(self.0 * rhs.numer(), rhs.denom()) as i64)
    }
}

impl MulAssign<DimensionlessFraction> for Time {
    fn mul_assign(&mut self, rhs: DimensionlessFraction)
        requires
            fits_i64(old(self).0 * rhs.numer()),
            !(old(self).0 * rhs.numer() == i64::MIN && rhs.denom() == -1),
        ensures
            final(self).0 == trunc_div(old(self).0 * rhs.numer(), rhs.denom()) as i64,
    {
        *self = *self * rhs;
    }
}

impl Div<DimensionlessFraction> for Time {
    type Output = Time;

    fn div(self, rhs: DimensionlessFraction) -> (r: Time)
        ensures
            r.0 == trunc_div(self.0 * rhs.denom(), rhs.numer()) as i64,
    {
        self * rhs.reciprocal()
    }
}

impl vstd::std_specs::ops::DivSpecImpl<DimensionlessFraction> for Time {
    open spec fn obeys_div_spec() -> bool {
        true
    }

    open spec fn div_req(self, rhs: DimensionlessFraction) -> bool {
        &&& rhs.numer() != 0
        &&& fits_i64(self.0 * rhs.denom())
        &&& !(self.0 * rhs.denom() == i64::MIN && rhs.numer() == -1)
    }

    open spec fn div_spec(self, rhs: DimensionlessFraction) -> Time {
        Time(trunc_div(self.0 * rhs.denom(), rhs.numer()) as i64)
    }
}

impl DivAssign<DimensionlessFraction> for Time {
    fn div_assign(&mut self, rhs: DimensionlessFraction)
        requires
            rhs.numer() != 0,
            fits_i64(old(self).0 * rhs.denom()),
            !(old(self).0 * rhs.denom() == i64::MIN && rhs.numer() == -1),
        ensures
            final(self).0 == trunc_div(old(self).0 * rhs.denom(), rhs.numer()) as i64,
    {
        *self = *self / rhs;
    }
}

impl Add<DimensionlessFraction> for DimensionlessInteger {
    type Output = DimensionlessFraction;

    fn add(self, rhs: DimensionlessFraction) -> (r: DimensionlessFraction)
        ensures
            r.numer() == rhs.numer() + self.0 * rhs.denom(),
            r.denom() == rhs.denom(),
    {
        rhs + self
    }
}

impl vstd::std_specs::ops::AddSpecImpl<DimensionlessFraction> for DimensionlessInteger {
    open spec fn obeys_add_spec() -> bool {
        true
    }

    open spec fn add_req(self, rhs: DimensionlessFraction) -> bool {
        sum_fits(rhs.numer(), rhs.denom(), self.0 as int, 1)
    }

    closed spec fn add_spec(self, rhs: DimensionlessFraction) -> DimensionlessFraction {
        DimensionlessFraction { num: (rhs.num + self.0 * rhs.den) as i64, den: rhs.den }
    }
}

impl Sub<DimensionlessFraction> for DimensionlessInteger {
    type Output = DimensionlessFraction;

    fn sub(self, rhs: DimensionlessFraction) -> (r: DimensionlessFraction)
        ensures
            r.numer() == self.0 * rhs.denom() - rhs.numer(),
            r.denom() == rhs.denom(),
    {
        DimensionlessFraction::from(self) - rhs
    }
}

impl vstd::std_specs::ops::SubSpecImpl<DimensionlessFraction> for DimensionlessInteger {
    open spec fn obeys_sub_spec() -> bool {
        true
    }

    open spec fn sub_req(self, rhs: DimensionlessFraction) -> bool {
        rhs.numer() != i64::MIN && sum_fits(self.0 as int, 1, -rhs.numer(), rhs.denom())
    }

    closed spec fn sub_spec(self, rhs: DimensionlessFraction) -> DimensionlessFraction {
        DimensionlessFraction { num: (self.0 * rhs.den - rhs.num) as i64, den: rhs.den }
    }
}

impl Div for DimensionlessInteger {
    type Output = DimensionlessFraction;

    fn div(self, rhs: DimensionlessInteger) -> (r: DimensionlessFraction)
        ensures
            r.numer() == self.0,
            r.denom() == rhs.0,
    {
        DimensionlessFraction::new(self, rhs)
    }
}

impl vstd::std_specs::ops::DivSpecImpl for DimensionlessInteger {
    open spec fn obeys_div_spec() -> bool {
        true
    }

    open spec fn div_req(self, rhs: DimensionlessInteger) -> bool {
        rhs.0 != 0
    }

    closed spec fn div_spec(self, rhs: DimensionlessInteger) -> DimensionlessFraction {
        DimensionlessFraction { num: self.0, den: rhs.0 }
    }
}

proof fn lemma_swap_middle(a: int, b: int, c: int, d: int)
    ensures
        (a * b) * (c * d) == (a * c) * (b * d),
{
    assert((a * b) * (c * d) == (a * c) * (b * d)) by (nonlinear_arith);
}

/// With nonzero denominators, `n1/d1` and `n2/d2` are the same rational number exactly when the
/// cross products are equal, whatever the signs of the denominators.
proof fn lemma_rational_equal_cross(n1: int, d1: int, n2: int, d2: int)
    requires
        d1 != 0,
        d2 != 0,
    ensures
        rational_equal(n1, d1, n2, d2) <==> n1 * d2 == n2 * d1,
{
    lemma_normalized_cross(n1, d1, n2, d2);
    assert(d1 * n2 == n2 * d1) by (nonlinear_arith);
}

/// Equality of fractions as rational numbers, which `==` computes, is an equivalence relation:
/// reflexive, symmetric and transitive.
pub proof fn law_equality_is_equivalence(a: DimensionlessFraction, b: DimensionlessFraction, c: DimensionlessFraction)
    requires
        a.denom() != 0,
        b.denom() != 0,
        c.denom() != 0,
    ensures
        a.rational_eq(a),
        a.rational_eq(b) ==> b.rational_eq(a),
        a.rational_eq(b) && b.rational_eq(c) ==> a.rational_eq(c),
{
    let (n1, d1, n2, d2, n3, d3) = (a.snum(), a.sden(), b.snum(), b.sden(), c.snum(), c.sden());
    assert(n1 * d1 == n1 * d1);
    if a.rational_eq(b) && b.rational_eq(c) {
        assert(n1 * d3 == n3 * d1) by (nonlinear_arith)
            requires
                n1 * d2 == n2 * d1,
                n2 * d3 == n3 * d2,
                d2 > 0,
        {
            assert(n1 * d2 * d3 == n2 * d1 * d3);
            assert(n2 * d3 * d1 == n3 * d2 * d1);
            assert((n1 * d3) * d2 == (n3 * d1) * d2);
        }
    }
}

/// The order of fractions, which `<` and `partial_cmp` compute, is total: of `a < b`, `a == b`
/// and `b < a` exactly one holds.
pub proof fn law_order_is_total(a: DimensionlessFraction, b: DimensionlessFraction)
    requires
        a.denom() != 0,
        b.denom() != 0,
    ensures
        a.rational_lt(b) || a.rational_eq(b) || b.rational_lt(a),
        !(a.rational_lt(b) && a.rational_eq(b)),
        !(a.rational_lt(b) && b.rational_lt(a)),
        !(a.rational_eq(b) && b.rational_lt(a)),
{
    assert(b.snum() * a.sden() == a.sden() * b.snum()) by (nonlinear_arith);
    assert(a.snum() * b.sden() == b.sden() * a.snum()) by (nonlinear_arith);
}

/// The order of fractions is transitive.
pub proof fn law_order_is_transitive(a: DimensionlessFraction, b: DimensionlessFraction, c: DimensionlessFraction)
    requires
        a.denom() != 0,
        b.denom() != 0,
        c.denom() != 0,
        a.rational_lt(b),
        b.rational_lt(c),
    ensures
        a.rational_lt(c),
{
    let (n1, d1, n2, d2, n3, d3) = (a.snum(), a.sden(), b.snum(), b.sden(), c.snum(), c.sden());
    assert(n1 * d3 < n3 * d1) by (nonlinear_arith)
        requires
            n1 * d2 < n2 * d1,
            n2 * d3 < n3 * d2,
            d1 > 0,
            d2 > 0,
            d3 > 0,
    {
        assert(n1 * d2 * d3 < n2 * d1 * d3);
        assert(n2 * d3 * d1 < n3 * d2 * d1);
        assert((n1 * d3) * d2 < (n3 * d1) * d2);
    }
}

/// Multiplication respects equality as rational numbers: the numerator and denominator that `*`
/// computes for `a * b` and for `a2 * b2` give the same rational number when `a == a2` and
/// `b == b2`; so does division.
pub proof fn law_product_respects_equality(
    a: DimensionlessFraction,
    a2: DimensionlessFraction,
    b: DimensionlessFraction,
    b2: DimensionlessFraction,
)
    requires
        a.denom() != 0,
        a2.denom() != 0,
        b.denom() != 0,
        b2.denom() != 0,
        a.rational_eq(a2),
        b.rational_eq(b2),
    ensures
        rational_equal(
            a.numer() * b.numer(),
            a.denom() * b.denom(),
            a2.numer() * b2.numer(),
            a2.denom() * b2.denom(),
        ),
        b.numer() != 0 ==> rational_equal(
            a.numer() * b.denom(),
            a.denom() * b.numer(),
            a2.numer() * b2.denom(),
            a2.denom() * b2.numer(),
        ),
{
    let (n1, d1, m1, e1) = (a.numer(), a.denom(), a2.numer(), a2.denom());
    let (n2, d2, m2, e2) = (b.numer(), b.denom(), b2.numer(), b2.denom());
    lemma_rational_equal_cross(n1, d1, m1, e1);
    lemma_rational_equal_cross(n2, d2, m2, e2);
    assert(d1 * d2 != 0 && e1 * e2 != 0) by (nonlinear_arith)
        requires
            d1 != 0,
            d2 != 0,
            e1 != 0,
            e2 != 0,
    ;
    assert((n1 * n2) * (e1 * e2) == (m1 * m2) * (d1 * d2)) by (nonlinear_arith)
        requires
            n1 * e1 == m1 * d1,
            n2 * e2 == m2 * d2,
    ;
    lemma_rational_equal_cross(n1 * n2, d1 * d2, m1 * m2, e1 * e2);
    if n2 != 0 {
        assert(m2 != 0) by (nonlinear_arith)
            requires
                n2 * e2 == m2 * d2,
                n2 != 0,
                e2 != 0,
        ;
        assert(d1 * n2 != 0 && e1 * m2 != 0) by (nonlinear_arith)
            requires
                d1 != 0,
                n2 != 0,
                e1 != 0,
                m2 != 0,
        ;
        assert((n1 * d2) * (e1 * m2) == (m1 * e2) * (d1 * n2)) by (nonlinear_arith)
            requires
                n1 * e1 == m1 * d1,
                n2 * e2 == m2 * d2,
        ;
        lemma_rational_equal_cross(n1 * d2, d1 * n2, m1 * e2, e1 * m2);
    }
}

/// Addition respects equality as rational numbers: the numerator and denominator that `+`
/// computes for `a + b` and for `a2 + b2` give the same rational number when `a == a2` and
/// `b == b2`.
pub proof fn law_sum_respects_equality(
    a: DimensionlessFraction,
    a2: DimensionlessFraction,
    b: DimensionlessFraction,
    b2: DimensionlessFraction,
)
    requires
        a.denom() != 0,
        a2.denom() != 0,
        b.denom() != 0,
        b2.denom() != 0,
        a.rational_eq(a2),
        b.rational_eq(b2),
    ensures
        rational_equal(
            a.numer() * b.denom() + b.numer() * a.denom(),
            a.denom() * b.denom(),
            a2.numer() * b2.denom() + b2.numer() * a2.denom(),
            a2.denom() * b2.denom(),
        ),
{
    let (n1, d1, m1, e1) = (a.numer(), a.denom(), a2.numer(), a2.denom());
    let (n2, d2, m2, e2) = (b.numer(), b.denom(), b2.numer(), b2.denom());
    lemma_rational_equal_cross(n1, d1, m1, e1);
    lemma_rational_equal_cross(n2, d2, m2, e2);
    assert(d1 * d2 != 0 && e1 * e2 != 0) by (nonlinear_arith)
        requires
            d1 != 0,
            d2 != 0,
            e1 != 0,
            e2 != 0,
    ;
    assert((n1 * d2 + n2 * d1) * (e1 * e2) == (m1 * e2 + m2 * e1) * (d1 * d2)) by {
        vstd::arithmetic::mul::lemma_mul_is_distributive_add_other_way(e1 * e2, n1 * d2, n2 * d1);
        vstd::arithmetic::mul::lemma_mul_is_distributive_add_other_way(d1 * d2, m1 * e2, m2 * e1);
        lemma_swap_middle(n1, d2, e1, e2);
        lemma_swap_middle(n2, d1, e2, e1);
        lemma_swap_middle(m1, e2, d1, d2);
        lemma_swap_middle(m2, e1, d2, d1);
        assert(d2 * e2 == e2 * d2 && d1 * e1 == e1 * d1) by (nonlinear_arith);
    }
    lemma_rational_equal_cross(n1 * d2 + n2 * d1, d1 * d2, m1 * e2 + m2 * e1, e1 * e2);
}

/// Addition and multiplication are commutative as rational numbers.
pub proof fn law_sum_and_product_commute(a: DimensionlessFraction, b: DimensionlessFraction)
    requires
        a.denom() != 0,
        b.denom() != 0,
    ensures
        rational_equal(
            a.numer() * b.denom() + b.numer() * a.denom(),
            a.denom() * b.denom(),
            b.numer() * a.denom() + a.numer() * b.denom(),
            b.denom() * a.denom(),
        ),
        rational_equal(
            a.numer() * b.numer(),
            a.denom() * b.denom(),
            b.numer() * a.numer(),
            b.denom() * a.denom(),
        ),
{
    let (n1, d1, n2, d2) = (a.numer(), a.denom(), b.numer(), b.denom());
    assert(d1 * d2 != 0 && d2 * d1 == d1 * d2 && n2 * n1 == n1 * n2) by (nonlinear_arith)
        requires
            d1 != 0,
            d2 != 0,
    ;
    lemma_rational_equal_cross(n1 * d2 + n2 * d1, d1 * d2, n2 * d1 + n1 * d2, d2 * d1);
    lemma_rational_equal_cross(n1 * n2, d1 * d2, n2 * n1, d2 * d1);
}

} // verus!

//! Exact integer time and dimensionless quantities.
//!
//! `Time` counts nanoseconds in an `i64`, `DimensionlessInteger` is a plain `i64` factor and
//! `DimensionlessFraction` is an exact rational number with a nonzero denominator. Arithmetic on
//! these types is exact: every operation states the integers it produces, and operations whose
//! results would not fit in `i64` are left out by their preconditions.
use vstd::prelude::*;
use core::cmp::Ordering;
use core::ops::{Add, AddAssign, Div, DivAssign, Mul, MulAssign, Neg, Sub, SubAssign};

mod fraction;
pub mod transmute_safe;
mod unit;

pub use fraction::DimensionlessFraction;
pub use unit::Unit;

verus! {

/// The value of an integer fits in an `i64`.
pub open spec fn fits_i64(x: int) -> bool {
    i64::MIN <= x <= i64::MAX
}

/// Rust's signed integer division, which truncates toward zero, on mathematical integers.
pub open spec fn trunc_div(a: int, b: int) -> int {
    if a >= 0 {
        a / b
    } else {
        -((-a) / b)
    }
}

/// Three-way comparison of two integers as an `Ordering`.
pub open spec fn int_ordering(a: int, b: int) -> Ordering {
    if a < b {
        Ordering::Less
    } else if a == b {
        Ordering::Equal
    } else {
        Ordering::Greater
    }
}

///A time stored internally in `i64` nanoseconds.
#[derive(Clone, Copy, Debug, PartialEq, Eq, Structural, Ord)]
pub struct Time(pub i64);

impl Time {
    ///Zero time, the same as `Time::from_nanoseconds(0)` and `Time::default()`.
    pub fn zero() -> (r: Time)
        ensures
            r.0 == 0,
    {
        Time(0)
    }

    ///Construct a `Time` from `i64` nanoseconds, which is how the time is stored internally.
    pub fn from_nanoseconds(value: i64) -> (r: Time)
        ensures
            r.0 == value,
    {
        Time(value)
    }

    ///The constructor for [`Time`] from nanoseconds.
    pub fn new(value: i64) -> (r: Time)
        ensures
            r.0 == value,
    {
        Time(value)
    }

    ///Get the internal `i64` nanoseconds from the `Time`.
    pub fn as_nanoseconds(self) -> (r: i64)
        ensures
            r == self.0,
    {
        self.0
    }
}

impl Default for Time {
    ///Zero time.
    fn default() -> (r: Time)
        ensures
            r.0 == 0,
    {
        Time(0)
    }
}

impl PartialOrd for Time {
    fn partial_cmp(&self, other: &Time) -> (r: Option<Ordering>) {
        if self.0 < other.0 {
            Some(Ordering::Less)
        } else if self.0 == other.0 {
            Some(Ordering::Equal)
        } else {
            Some(Ordering::Greater)
        }
    }
}

impl vstd::std_specs::cmp::PartialOrdSpecImpl for Time {
    open spec fn obeys_partial_cmp_spec() -> bool {
        true
    }

    open spec fn partial_cmp_spec(&self, other: &Time) -> Option<Ordering> {
        if self.0 < other.0 {
            Some(Ordering::Less)
        } else if self.0 == other.0 {
            Some(Ordering::Equal)
        } else {
            Some(Ordering::Greater)
        }
    }
}

impl From<i64> for Time {
    fn from(was: i64) -> (r: Time) {
        Time(was)
    }
}

impl vstd::std_specs::convert::FromSpecImpl<i64> for Time {
    open spec fn obeys_from_spec() -> bool {
        true
    }

    open spec fn from_spec(v: i64) -> Time {
        Time(v)
    }
}

impl From<Time> for i64 {
    fn from(was: Time) -> (r: i64) {
        was.0
    }
}

impl vstd::std_specs::convert::FromSpecImpl<Time> for i64 {
    open spec fn obeys_from_spec() -> bool {
        true
    }

    open spec fn from_spec(v: Time) -> i64 {
        v.0
    }
}

impl Add for Time {
    type Output = Time;

    fn add(self, rhs: Time) -> (r: Time) {
        Time(self.0 + rhs.0)
    }
}

impl vstd::std_specs::ops::AddSpecImpl for Time {
    open spec fn obeys_add_spec() -> bool {
        true
    }

    open spec fn add_req(self, rhs: Time) -> bool {
        fits_i64(self.0 + rhs.0)
    }

    open spec fn add_spec(self, rhs: Time) -> Time {
        Time((self.0 + rhs.0) as i64)
    }
}

impl AddAssign for Time {
    fn add_assign(&mut self, rhs: Time)
        requires
            fits_i64(old(self).0 + rhs.0),
        ensures
            final(self).0 == old(self).0 + rhs.0,
    {
        self.0 = self.0 + rhs.0;
    }
}

impl Sub for Time {
    type Output = Time;

    fn sub(self, rhs: Time) -> (r: Time) {
        Time(self.0 - rhs.0)
    }
}

impl vstd::std_specs::ops::SubSpecImpl for Time {
    open spec fn obeys_sub_spec() -> bool {
        true
    }

    open spec fn sub_req(self, rhs: Time) -> bool {
        fits_i64(self.0 - rhs.0)
    }

    open spec fn sub_spec(self, rhs: Time) -> Time {
        Time((self.0 - rhs.0) as i64)
    }
}

impl SubAssign for Time {
    fn sub_assign(&mut self, rhs: Time)
        requires
            fits_i64(old(self).0 - rhs.0),
        ensures
            final(self).0 == old(self).0 - rhs.0,
    {
        self.0 = self.0 - rhs.0;
    }
}

impl Neg for Time {
    type Output = Time;

    fn neg(self) -> (r: Time) {
        Time(-self.0)
    }
}

impl vstd::std_specs::ops::NegSpecImpl for Time {
    open spec fn obeys_neg_spec() -> bool {
        true
    }

    open spec fn neg_req(self) -> bool {
        self.0 != i64::MIN
    }

    open spec fn neg_spec(self) -> Time {
        Time((-self.0) as i64)
    }
}

impl Mul<DimensionlessInteger> for Time {
    type Output = Time;

    fn mul(self, rhs: DimensionlessInteger) -> (r: Time) {
        Time(self.0 * rhs.0)
    }
}

impl vstd::std_specs::ops::MulSpecImpl<DimensionlessInteger> for Time {
    open spec fn obeys_mul_spec() -> bool {
        true
    }

    open spec fn mul_req(self, rhs: DimensionlessInteger) -> bool {
        fits_i64(self.0 * rhs.0)
    }

    open spec fn mul_spec(self, rhs: DimensionlessInteger) -> Time {
        Time((self.0 * rhs.0) as i64)
    }
}

impl MulAssign<DimensionlessInteger> for Time {
    fn mul_assign(&mut self, rhs: DimensionlessInteger)
        requires
            fits_i64(old(self).0 * rhs.0),
        ensures
            final(self).0 == old(self).0 * rhs.0,
    {
        self.0 = self.0 * rhs.0;
    }
}

impl Div<DimensionlessInteger> for Time {
    type Output = Time;

    fn div(self, rhs: DimensionlessInteger) -> (r: Time) {
        Time(self.0 / rhs.0)
    }
}

impl vstd::std_specs::ops::DivSpecImpl<DimensionlessInteger> for Time {
    open spec fn obeys_div_spec() -> bool {
        true
    }

    open spec fn div_req(self, rhs: DimensionlessInteger) -> bool {
        rhs.0 != 0 && !(self.0 == i64::MIN && rhs.0 == -1)
    }

    open spec fn div_spec(self, rhs: DimensionlessInteger) -> Time {
        Time(trunc_div(self.0 as int, rhs.0 as int) as i64)
    }
}

impl DivAssign<DimensionlessInteger> for Time {
    fn div_assign(&mut self, rhs: DimensionlessInteger)
        requires
            rhs.0 != 0,
            !(old(self).0 == i64::MIN && rhs.0 == -1),
        ensures
            final(self).0 == trunc_div(old(self).0 as int, rhs.0 as int) as i64,
    {
        self.0 = self.0 / rhs.0;
    }
}

///A dimensionless value stored as an integer. Used almost exclusively for when a time, stored
///as an integer, must be multiplied by a constant factor as in numerical integrals and motion
///profiles.
#[derive(Clone, Copy, Debug, Default, PartialEq, Eq, Structural, Ord)]
pub struct DimensionlessInteger(pub i64);

impl DimensionlessInteger {
    ///Constructor for [`DimensionlessInteger`].
    pub fn new(value: i64) -> (r: DimensionlessInteger)
        ensures
            r.0 == value,
    {
        DimensionlessInteger(value)
    }

    ///`x.const_eq(y)` is exactly equivalent to `x == y`.
    pub fn const_eq(&self, rhs: &Self) -> (r: bool)
        ensures
            r == (self.0 == rhs.0),
    {
        self.0 == rhs.0
    }

    ///Checks if the integer is zero.
    pub fn is_zero(&self) -> (r: bool)
        ensures
            r == (self.0 == 0),
    {
        self.0 == 0
    }
}

impl PartialOrd for DimensionlessInteger {
    fn partial_cmp(&self, other: &DimensionlessInteger) -> (r: Option<Ordering>) {
        if self.0 < other.0 {
            Some(Ordering::Less)
        } else if self.0 == other.0 {
            Some(Ordering::Equal)
        } else {
            Some(Ordering::Greater)
        }
    }
}

impl vstd::std_specs::cmp::PartialOrdSpecImpl for DimensionlessInteger {
    open spec fn obeys_partial_cmp_spec() -> bool {
        true
    }

    open spec fn partial_cmp_spec(&self, other: &DimensionlessInteger) -> Option<Ordering> {
        if self.0 < other.0 {
            Some(Ordering::Less)
        } else if self.0 == other.0 {
            Some(Ordering::Equal)
        } else {
            Some(Ordering::Greater)
        }
    }
}

impl From<i64> for DimensionlessInteger {
    fn from(was: i64) -> (r: DimensionlessInteger) {
        DimensionlessInteger(was)
    }
}

impl vstd::std_specs::convert::FromSpecImpl<i64> for DimensionlessInteger {
    open spec fn obeys_from_spec() -> bool {
        true
    }

    open spec fn from_spec(v: i64) -> DimensionlessInteger {
        DimensionlessInteger(v)
    }
}

impl From<DimensionlessInteger> for i64 {
    fn from(was: DimensionlessInteger) -> (r: i64) {
        was.0
    }
}

impl vstd::std_specs::convert::FromSpecImpl<DimensionlessInteger> for i64 {
    open spec fn obeys_from_spec() -> bool {
        true
    }

    open spec fn from_spec(v: DimensionlessInteger) -> i64 {
        v.0
    }
}

impl Add for DimensionlessInteger {
    type Output = DimensionlessInteger;

    fn add(self, rhs: DimensionlessInteger) -> (r: DimensionlessInteger) {
        DimensionlessInteger(self.0 + rhs.0)
    }
}

impl vstd::std_specs::ops::AddSpecImpl for DimensionlessInteger {
    open spec fn obeys_add_spec() -> bool {
        true
    }

    open spec fn add_req(self, rhs: DimensionlessInteger) -> bool {
        fits_i64(self.0 + rhs.0)
    }

    open spec fn add_spec(self, rhs: DimensionlessInteger) -> DimensionlessInteger {
        DimensionlessInteger((self.0 + rhs.0) as i64)
    }
}

impl AddAssign for DimensionlessInteger {
    fn add_assign(&mut self, rhs: DimensionlessInteger)
        requires
            fits_i64(old(self).0 + rhs.0),
        ensures
            final(self).0 == old(self).0 + rhs.0,
    {
        self.0 = self.0 + rhs.0;
    }
}

impl Sub for DimensionlessInteger {
    type Output = DimensionlessInteger;

    fn sub(self, rhs: DimensionlessInteger) -> (r: DimensionlessInteger) {
        DimensionlessInteger(self.0 - rhs.0)
    }
}

impl vstd::std_specs::ops::SubSpecImpl for DimensionlessInteger {
    open spec fn obeys_sub_spec() -> bool {
        true
    }

    open spec fn sub_req(self, rhs: DimensionlessInteger) -> bool {
        fits_i64(self.0 - rhs.0)
    }

    open spec fn sub_spec(self, rhs: DimensionlessInteger) -> DimensionlessInteger {
        DimensionlessInteger((self.0 - rhs.0) as i64)
    }
}

impl SubAssign for DimensionlessInteger {
    fn sub_assign(&mut self, rhs: DimensionlessInteger)
        requires
            fits_i64(old(self).0 - rhs.0),
        ensures
            final(self).0 == old(self).0 - rhs.0,
    {
        self.0 = self.0 - rhs.0;
    }
}

impl Mul for DimensionlessInteger {
    type Output = DimensionlessInteger;

    fn mul(self, rhs: DimensionlessInteger) -> (r: DimensionlessInteger) {
        DimensionlessInteger(self.0 * rhs.0)
    }
}

impl vstd::std_specs::ops::MulSpecImpl for DimensionlessInteger {
    open spec fn obeys_mul_spec() -> bool {
        true
    }

    open spec fn mul_req(self, rhs: DimensionlessInteger) -> bool {
        fits_i64(self.0 * rhs.0)
    }

    open spec fn mul_spec(self, rhs: DimensionlessInteger) -> DimensionlessInteger {
        DimensionlessInteger((self.0 * rhs.0) as i64)
    }
}

impl MulAssign for DimensionlessInteger {
    fn mul_assign(&mut self, rhs: DimensionlessInteger)
        requires
            fits_i64(old(self).0 * rhs.0),
        ensures
            final(self).0 == old(self).0 * rhs.0,
    {
        self.0 = self.0 * rhs.0;
    }
}

impl Neg for DimensionlessInteger {
    type Output = DimensionlessInteger;

    fn neg(self) -> (r: DimensionlessInteger) {
        DimensionlessInteger(-self.0)
    }
}

impl vstd::std_specs::ops::NegSpecImpl for DimensionlessInteger {
    open spec fn obeys_neg_spec() -> bool {
        true
    }

    open spec fn neg_req(self) -> bool {
        self.0 != i64::MIN
    }

    open spec fn neg_spec(self) -> DimensionlessInteger {
        DimensionlessInteger((-self.0) as i64)
    }
}

impl Mul<Time> for DimensionlessInteger {
    type Output = Time;

    fn mul(self, rhs: Time) -> (r: Time) {
        Time(self.0 * rhs.0)
    }
}

impl vstd::std_specs::ops::MulSpecImpl<Time> for DimensionlessInteger {
    open spec fn obeys_mul_spec() -> bool {
        true
    }

    open spec fn mul_req(self, rhs: Time) -> bool {
        fits_i64(self.0 * rhs.0)
    }

    open spec fn mul_spec(self, rhs: Time) -> Time {
        Time((self.0 * rhs.0) as i64)
    }
}

} // verus!

//!Runtime units: the exponents of millimeters and seconds.
use vstd::prelude::*;
use core::ops::{Add, AddAssign, Div, DivAssign, Mul, MulAssign, Neg, Sub, SubAssign};
use crate::error::CannotConvert;
use crate::position::{position_derivative_of_piece, MotionProfilePiece, PositionDerivative};

verus! {

///A unit of a quantity, like millimeters per second, stored as the exponents of the base units:
///millimeters per second squared is mm^1*s^-2.
#[derive(Clone, Copy, Debug, PartialEq, Eq, Structural)]
pub struct Unit {
    millimeter_exp: i8,
    second_exp: i8,
}

///The exponent of seconds in the unit of a position derivative.
pub open spec fn second_exp_of(pd: PositionDerivative) -> int {
    match pd {
        PositionDerivative::Position => 0,
        PositionDerivative::Velocity => -1,
        PositionDerivative::Acceleration => -2,
    }
}

impl Unit {
    ///Unit exponent for millimeters.
    pub closed spec fn mm(self) -> int {
        self.millimeter_exp as int
    }

    ///Unit exponent for seconds.
    pub closed spec fn s(self) -> int {
        self.second_exp as int
    }

    ///Two units are the same exactly when their exponents are.
    pub proof fn lemma_eq_iff_exponents(self, other: Self)
        ensures
            (self == other) <==> (self.mm() == other.mm() && self.s() == other.s()),
    {
    }

    ///Constructor for `Unit`.
    pub fn new(millimeter_exp: i8, second_exp: i8) -> (r: Self)
        ensures
            r.mm() == millimeter_exp,
            r.s() == second_exp,
    {
        Unit { millimeter_exp, second_exp }
    }

    ///`foo.const_eq(&bar)` works exactly like `foo == bar`.
    pub fn const_eq(&self, rhs: &Self) -> (r: bool)
        ensures
            r == (*self == *rhs),
    {
        self.millimeter_exp == rhs.millimeter_exp && self.second_exp == rhs.second_exp
    }

    ///Asserts that the units are equal. The units must be equal.
    pub fn const_assert_eq(&self, rhs: &Self)
        requires
            *self == *rhs,
    {
    }

    ///With dimension checking on, as here, behaves exactly like [`const_eq`](Unit::const_eq).
    pub fn eq_assume_true(&self, rhs: &Self) -> (r: bool)
        ensures
            r == (*self == *rhs),
    {
        self.const_eq(rhs)
    }

    ///With dimension checking on, as here, behaves exactly like [`const_eq`](Unit::const_eq).
    pub fn eq_assume_false(&self, rhs: &Self) -> (r: bool)
        ensures
            r == (*self == *rhs),
    {
        self.const_eq(rhs)
    }

    ///With dimension checking on, as here, behaves exactly like
    ///[`const_assert_eq`](Unit::const_assert_eq). The units must be equal.
    pub fn assert_eq_assume_ok(&self, rhs: &Self)
        requires
            *self == *rhs,
    {
    }

    ///With dimension checking on, as here, behaves exactly like
    ///[`const_assert_eq`](Unit::const_assert_eq). The units must be equal.
    pub fn assert_eq_assume_not_ok(&self, rhs: &Self)
        requires
            *self == *rhs,
    {
    }
}

impl From<PositionDerivative> for Unit {
    fn from(was: PositionDerivative) -> (r: Self)
        ensures
            r.mm() == 1,
            r.s() == second_exp_of(was),
    {
        Unit {
            millimeter_exp: 1,
            second_exp: match was {
                PositionDerivative::Position => 0,
                PositionDerivative::Velocity => -1,
                PositionDerivative::Acceleration => -2,
            },
        }
    }
}

impl vstd::std_specs::convert::TryFromSpecImpl<MotionProfilePiece> for Unit {
    open spec fn obeys_try_from_spec() -> bool {
        true
    }

    closed spec fn try_from_spec(was: MotionProfilePiece) -> Result<Unit, CannotConvert> {
        match position_derivative_of_piece(was) {
            Some(pd) => Ok(Unit { millimeter_exp: 1, second_exp: second_exp_of(pd) as i8 }),
            None => Err(CannotConvert),
        }
    }
}

impl vstd::std_specs::convert::FromSpecImpl<PositionDerivative> for Unit {
    open spec fn obeys_from_spec() -> bool {
        true
    }

    closed spec fn from_spec(was: PositionDerivative) -> Unit {
        Unit { millimeter_exp: 1, second_exp: second_exp_of(was) as i8 }
    }
}

impl TryFrom<MotionProfilePiece> for Unit {
    type Error = CannotConvert;

    fn try_from(was: MotionProfilePiece) -> (r: Result<Self, CannotConvert>)
        ensures
            position_derivative_of_piece(was) is None ==> r == Err::<Unit, CannotConvert>(
                CannotConvert,
            ),
            position_derivative_of_piece(was) matches Some(pd) ==> r matches Ok(u) && u.mm() == 1
                && u.s() == second_exp_of(pd),
    {
        let pos_der = PositionDerivative::try_from(was)?;
        Ok(Unit::from(pos_der))
    }
}

///Adding quantities of a unit keeps the unit; the units must be the same.
impl Add for Unit {
    type Output = Self;

    fn add(self, rhs: Self) -> (r: Self) {
        self
    }
}

impl vstd::std_specs::ops::AddSpecImpl for Unit {
    open spec fn obeys_add_spec() -> bool {
        true
    }

    open spec fn add_req(self, rhs: Self) -> bool {
        self == rhs
    }

    open spec fn add_spec(self, rhs: Self) -> Self {
        self
    }
}

impl AddAssign for Unit {
    fn add_assign(&mut self, rhs: Self)
        requires
            *old(self) == rhs,
        ensures
            *final(self) == *old(self),
    {
    }
}

///Subtracting quantities of a unit keeps the unit; the units must be the same.
impl Sub for Unit {
    type Output = Self;

    fn sub(self, rhs: Self) -> (r: Self) {
        self
    }
}

impl vstd::std_specs::ops::SubSpecImpl for Unit {
    open spec fn obeys_sub_spec() -> bool {
        true
    }

    open spec fn sub_req(self, rhs: Self) -> bool {
        self == rhs
    }

    open spec fn sub_spec(self, rhs: Self) -> Self {
        self
    }
}

impl SubAssign for Unit {
    fn sub_assign(&mut self, rhs: Self)
        requires
            *old(self) == rhs,
        ensures
            *final(self) == *old(self),
    {
    }
}

///Multiplying quantities adds the exponents of their units.
impl Mul for Unit {
    type Output = Self;

    fn mul(self, rhs: Self) -> (r: Self)
        ensures
            r.mm() == self.mm() + rhs.mm(),
            r.s() == self.s() + rhs.s(),
    {
        Unit {
            millimeter_exp: self.millimeter_exp + rhs.millimeter_exp,
            second_exp: self.second_exp + rhs.second_exp,
        }
    }
}

impl vstd::std_specs::ops::MulSpecImpl for Unit {
    open spec fn obeys_mul_spec() -> bool {
        true
    }

    open spec fn mul_req(self, rhs: Self) -> bool {
        i8::MIN <= self.mm() + rhs.mm() <= i8::MAX && i8::MIN <= self.s() + rhs.s() <= i8::MAX
    }

    closed spec fn mul_spec(self, rhs: Self) -> Self {
        Unit {
            millimeter_exp: (self.millimeter_exp + rhs.millimeter_exp) as i8,
            second_exp: (self.second_exp + rhs.second_exp) as i8,
        }
    }
}

impl MulAssign for Unit {
    fn mul_assign(&mut self, rhs: Self)
        requires
            i8::MIN <= old(self).mm() + rhs.mm() <= i8::MAX,
            i8::MIN <= old(self).s() + rhs.s() <= i8::MAX,
        ensures
            final(self).mm() == old(self).mm() + rhs.mm(),
            final(self).s() == old(self).s() + rhs.s(),
    {
        *self = *self * rhs;
    }
}

///Dividing quantities subtracts the exponents of the divisor's unit.
impl Div for Unit {
    type Output = Self;

    fn div(self, rhs: Self) -> (r: Self)
        ensures
            r.mm() == self.mm() - rhs.mm(),
            r.s() == self.s() - rhs.s(),
    {
        Unit {
            millimeter_exp: self.millimeter_exp - rhs.millimeter_exp,
            second_exp: self.second_exp - rhs.second_exp,
        }
    }
}

impl vstd::std_specs::ops::DivSpecImpl for Unit {
    open spec fn obeys_div_spec() -> bool {
        true
    }

    open spec fn div_req(self, rhs: Self) -> bool {
        i8::MIN <= self.mm() - rhs.mm() <= i8::MAX && i8::MIN <= self.s() - rhs.s() <= i8::MAX
    }

    closed spec fn div_spec(self, rhs: Self) -> Self {
        Unit {
            millimeter_exp: (self.millimeter_exp - rhs.millimeter_exp) as i8,
            second_exp: (self.second_exp - rhs.second_exp) as i8,
        }
    }
}

impl DivAssign for Unit {
    fn div_assign(&mut self, rhs: Self)
        requires
            i8::MIN <= old(self).mm() - rhs.mm() <= i8::MAX,
            i8::MIN <= old(self).s() - rhs.s() <= i8::MAX,
        ensures
            final(self).mm() == old(self).mm() - rhs.mm(),
            final(self).s() == old(self).s() - rhs.s(),
    {
        *self = *self / rhs;
    }
}

///Negating a quantity keeps its unit.
impl Neg for Unit {
    type Output = Self;

    fn neg(self) -> (r: Self) {
        self
    }
}

impl vstd::std_specs::ops::NegSpecImpl for Unit {
    open spec fn obeys_neg_spec() -> bool {
        true
    }

    open spec fn neg_req(self) -> bool {
        true
    }

    open spec fn neg_spec(self) -> Self {
        self
    }
}

} // verus!

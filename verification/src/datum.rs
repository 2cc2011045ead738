//!Timestamped values.
use vstd::prelude::*;
use core::ops::{Add, AddAssign, Div, DivAssign, Mul, MulAssign, Neg, Not, Sub, SubAssign};
use crate::compile_time_integer::{Integer, NegativeOnePlus, OnePlus, Zero};
use crate::dimensions::{DimensionlessFraction, DimensionlessInteger, Time};
use crate::error::{CannotConvert, NoSuchProcess, UnitInvalid};
use vstd::std_specs::ops::{AddSpec, DivSpec, MulSpec, NegSpec, NotSpec, SubSpec};

verus! {

///A container for a time and something else.
#[derive(Clone, Copy, Debug, PartialEq, Eq)]
pub struct Datum<T> {
    ///Timestamp for the datum. This should probably be absolute.
    pub time: Time,
    ///The thing with the timestamp.
    pub value: T,
}

///The later of two timestamps, the first on a tie.
pub open spec fn later_time(a: Time, b: Time) -> Time {
    if a.0 >= b.0 {
        a
    } else {
        b
    }
}

///The newer of two data; the first one on a tie.
pub open spec fn newer<T>(dat1: Datum<T>, dat2: Datum<T>) -> Datum<T> {
    if dat1.time.0 >= dat2.time.0 {
        dat1
    } else {
        dat2
    }
}

///The later of two timestamps.
pub fn max_time(a: Time, b: Time) -> (r: Time)
    ensures
        r == later_time(a, b),
{
    if a.0 >= b.0 {
        a
    } else {
        b
    }
}

impl<T> Datum<T> {
    ///Constructor for [`Datum`] type.
    pub fn new(time: Time, value: T) -> (r: Datum<T>)
        ensures
            r.time == time,
            r.value == value,
    {
        Datum { time, value }
    }

    ///Replaces `self` with `maybe_replace_with` if `maybe_replace_with`'s timestamp is newer than
    ///`self`'s. Returns true if `self` was replaced and false otherwise.
    pub fn replace_if_older_than(&mut self, maybe_replace_with: Self) -> (r: bool)
        ensures
            r == (maybe_replace_with.time.0 > old(self).time.0),
            *final(self) == if r {
                maybe_replace_with
            } else {
                *old(self)
            },
    {
        if maybe_replace_with.time.0 > self.time.0 {
            *self = maybe_replace_with;
            return true;
        }
        false
    }

    ///Applies a function to the value, keeping the timestamp.
    pub fn map<U, F: FnOnce(T) -> U>(self, f: F) -> (r: Datum<U>)
        requires
            f.requires((self.value,)),
        ensures
            r.time == self.time,
            f.ensures((self.value,), r.value),
    {
        Datum { time: self.time, value: f(self.value) }
    }
}

///Get the newer of two [`Datum`] objects, the first one if their timestamps are equal.
pub fn latest<T>(dat1: Datum<T>, dat2: Datum<T>) -> (r: Datum<T>)
    ensures
        r == newer(dat1, dat2),
{
    if dat1.time.0 >= dat2.time.0 {
        dat1
    } else {
        dat2
    }
}

///Extension methods for `Option<Datum<T>>`.
pub trait OptionDatumExt<T>: Sized {
    ///If `self` is `None`, replaces it with `Some(maybe_replace_with)`. If `self` is `Some`,
    ///replaces it with `Some(maybe_replace_with)` if `maybe_replace_with`'s timestamp is newer
    ///than its. Returns true if `self` was replaced and false otherwise.
    fn replace_if_none_or_older_than(&mut self, maybe_replace_with: Datum<T>) -> bool;

    ///If `maybe_replace_with` is `Some`, calls `replace_if_none_or_older_than`. If it is `None`,
    ///returns false immediately.
    fn replace_if_none_or_older_than_option(&mut self, maybe_replace_with: Self) -> bool;

    ///The optional datum that `self` is.
    spec fn as_option_datum(self) -> Option<Datum<T>>;

    ///Applies a function to the value of the datum, if there is one.
    fn map_value<U, F: FnOnce(T) -> U>(self, f: F) -> (r: Option<Datum<U>>)
        requires
            self.as_option_datum() matches Some(d) ==> f.requires((d.value,)),
        ensures
            self.as_option_datum() is None ==> r is None,
            self.as_option_datum() matches Some(d) ==> r matches Some(rd) && rd.time == d.time
                && f.ensures((d.value,), rd.value),
    ;
}

///Whether `candidate` replaces `current` in `replace_if_none_or_older_than`.
pub open spec fn replaces<T>(current: Option<Datum<T>>, candidate: Datum<T>) -> bool {
    match current {
        None => true,
        Some(d) => d.time.0 < candidate.time.0,
    }
}

impl<T> OptionDatumExt<T> for Option<Datum<T>> {
    fn replace_if_none_or_older_than(&mut self, maybe_replace_with: Datum<T>) -> (r: bool)
        ensures
            r == replaces(*old(self), maybe_replace_with),
            *final(self) == if r {
                Some(maybe_replace_with)
            } else {
                *old(self)
            },
    {
        if let Some(self_datum) = self {
            if self_datum.time.0 >= maybe_replace_with.time.0 {
                return false;
            }
        }
        *self = Some(maybe_replace_with);
        true
    }

    fn replace_if_none_or_older_than_option(&mut self, maybe_replace_with: Self) -> (r: bool)
        ensures
            r == (maybe_replace_with matches Some(d) && replaces(*old(self), d)),
            *final(self) == if r {
                maybe_replace_with
            } else {
                *old(self)
            },
    {
        let maybe_replace_with = match maybe_replace_with {
            Some(x) => x,
            None => return false,
        };
        self.replace_if_none_or_older_than(maybe_replace_with)
    }

    open spec fn as_option_datum(self) -> Option<Datum<T>> {
        self
    }

    fn map_value<U, F: FnOnce(T) -> U>(self, f: F) -> (r: Option<Datum<U>>) {
        match self {
            Some(d) => Some(Datum { time: d.time, value: f(d.value) }),
            None => None,
        }
    }
}

///A generic output type when something may return an error, nothing, or something with a
///timestamp.
pub type Output<T, E> = Result<Option<Datum<T>>, E>;

///Extension methods for [`Output`].
pub trait OutputExt<T, E>: Sized {
    ///The output that `self` is.
    spec fn as_output(self) -> Output<T, E>;

    ///Applies a function to the `Ok` variant, leaving an error unchanged.
    fn map_ok<U, F: FnOnce(Option<Datum<T>>) -> Option<Datum<U>>>(self, f: F) -> (r: Output<U, E>)
        requires
            self.as_output() matches Ok(o) ==> f.requires((o,)),
        ensures
            self.as_output() matches Err(e) ==> r == Err::<Option<Datum<U>>, E>(e),
            self.as_output() matches Ok(o) ==> r matches Ok(ro) && f.ensures((o,), ro),
    ;

    ///Applies a function to the datum of the `Ok(Some(_))` variant, leaving `Ok(None)` and
    ///errors unchanged.
    fn map_ok_some<U, F: FnOnce(Datum<T>) -> Datum<U>>(self, f: F) -> (r: Output<U, E>)
        requires
            self.as_output() matches Ok(Some(d)) ==> f.requires((d,)),
        ensures
            self.as_output() matches Err(e) ==> r == Err::<Option<Datum<U>>, E>(e),
            self.as_output() matches Ok(None) ==> r == Ok::<Option<Datum<U>>, E>(None),
            self.as_output() matches Ok(Some(d)) ==> r matches Ok(Some(rd)) && f.ensures((d,), rd),
    ;

    ///Applies a function to the value of the `Ok(Some(_))` variant, keeping its timestamp and
    ///leaving `Ok(None)` and errors unchanged.
    fn map_ok_some_value<U, F: FnOnce(T) -> U>(self, f: F) -> (r: Output<U, E>)
        requires
            self.as_output() matches Ok(Some(d)) ==> f.requires((d.value,)),
        ensures
            self.as_output() matches Err(e) ==> r == Err::<Option<Datum<U>>, E>(e),
            self.as_output() matches Ok(None) ==> r == Ok::<Option<Datum<U>>, E>(None),
            self.as_output() matches Ok(Some(d)) ==> r matches Ok(Some(rd)) && rd.time == d.time
                && f.ensures((d.value,), rd.value),
    ;
}

impl<T, E> OutputExt<T, E> for Output<T, E> {
    open spec fn as_output(self) -> Output<T, E> {
        self
    }

    fn map_ok<U, F: FnOnce(Option<Datum<T>>) -> Option<Datum<U>>>(self, f: F) -> (r: Output<U, E>) {
        match self {
            Ok(o) => Ok(f(o)),
            Err(e) => Err(e),
        }
    }

    fn map_ok_some<U, F: FnOnce(Datum<T>) -> Datum<U>>(self, f: F) -> (r: Output<U, E>) {
        match self {
            Ok(Some(d)) => Ok(Some(f(d))),
            Ok(None) => Ok(None),
            Err(e) => Err(e),
        }
    }

    fn map_ok_some_value<U, F: FnOnce(T) -> U>(self, f: F) -> (r: Output<U, E>) {
        match self {
            Ok(Some(d)) => Ok(Some(Datum { time: d.time, value: f(d.value) })),
            Ok(None) => Ok(None),
            Err(e) => Err(e),
        }
    }
}

///Implemented for every type that is not [`Datum`] itself, so that arithmetic between a datum and
///a plain value can be told apart from arithmetic between two data.
pub trait NotDatum {

}

impl NotDatum for u8 {

}

impl NotDatum for u16 {

}

impl NotDatum for u32 {

}

impl NotDatum for u64 {

}

impl NotDatum for u128 {

}

impl NotDatum for usize {

}

impl NotDatum for i8 {

}

impl NotDatum for i16 {

}

impl NotDatum for i32 {

}

impl NotDatum for i64 {

}

impl NotDatum for i128 {

}

impl NotDatum for isize {

}

impl NotDatum for bool {

}

impl<T> NotDatum for Option<T> {

}

impl<T, E> NotDatum for Result<T, E> {

}

impl<T, const N: usize> NotDatum for [T; N] {

}

impl<T> NotDatum for Vec<T> {

}

impl NotDatum for Time {

}

impl NotDatum for DimensionlessInteger {

}

impl NotDatum for DimensionlessFraction {

}

impl NotDatum for CannotConvert {

}

impl NotDatum for UnitInvalid {

}

impl NotDatum for NoSuchProcess {

}

impl NotDatum for Zero {

}

impl<T: Integer> NotDatum for OnePlus<T> {

}

impl<T: Integer> NotDatum for NegativeOnePlus<T> {

}

impl<T: Not<Output = O>, O> Not for Datum<T> {
    type Output = Datum<O>;

    fn not(self) -> (r: Datum<O>) {
        Datum { time: self.time, value: self.value.not() }
    }
}

impl<T: Not<Output = O>, O> vstd::std_specs::ops::NotSpecImpl for Datum<T> {
    open spec fn obeys_not_spec() -> bool {
        T::obeys_not_spec()
    }

    open spec fn not_req(self) -> bool {
        self.value.not_req()
    }

    open spec fn not_spec(self) -> Datum<O> {
        Datum { time: self.time, value: self.value.not_spec() }
    }
}

impl<T: Neg<Output = O>, O> Neg for Datum<T> {
    type Output = Datum<O>;

    fn neg(self) -> (r: Datum<O>) {
        Datum { time: self.time, value: self.value.neg() }
    }
}

impl<T: Neg<Output = O>, O> vstd::std_specs::ops::NegSpecImpl for Datum<T> {
    open spec fn obeys_neg_spec() -> bool {
        T::obeys_neg_spec()
    }

    open spec fn neg_req(self) -> bool {
        self.value.neg_req()
    }

    open spec fn neg_spec(self) -> Datum<O> {
        Datum { time: self.time, value: self.value.neg_spec() }
    }
}

impl<T: Add<TR, Output = O>, TR, O> Add<Datum<TR>> for Datum<T> {
    type Output = Datum<O>;

    fn add(self, other: Datum<TR>) -> (r: Datum<O>) {
        let time = max_time(self.time, other.time);
        Datum { time, value: self.value.add(other.value) }
    }
}

impl<T: Add<TR, Output = O>, TR, O> vstd::std_specs::ops::AddSpecImpl<Datum<TR>> for Datum<T> {
    open spec fn obeys_add_spec() -> bool {
        T::obeys_add_spec()
    }

    open spec fn add_req(self, rhs: Datum<TR>) -> bool {
        self.value.add_req(rhs.value)
    }

    open spec fn add_spec(self, rhs: Datum<TR>) -> Datum<O> {
        Datum { time: later_time(self.time, rhs.time), value: self.value.add_spec(rhs.value) }
    }
}

impl<T: Add<TR, Output = T> + Copy, TR> AddAssign<Datum<TR>> for Datum<T> {
    fn add_assign(&mut self, other: Datum<TR>)
        requires
            old(self).value.add_req(other.value),
        ensures
            final(self).time == later_time(old(self).time, other.time),
            T::obeys_add_spec() ==> final(self).value == old(self).value.add_spec(other.value),
    {
        self.value = self.value.add(other.value);
        self.time = max_time(self.time, other.time);
    }
}

impl<T: Add<TR, Output = O>, TR: NotDatum, O> Add<TR> for Datum<T> {
    type Output = Datum<O>;

    fn add(self, other: TR) -> (r: Datum<O>) {
        Datum { time: self.time, value: self.value.add(other) }
    }
}

impl<T: Add<TR, Output = O>, TR: NotDatum, O> vstd::std_specs::ops::AddSpecImpl<TR> for Datum<T> {
    open spec fn obeys_add_spec() -> bool {
        T::obeys_add_spec()
    }

    open spec fn add_req(self, rhs: TR) -> bool {
        self.value.add_req(rhs)
    }

    open spec fn add_spec(self, rhs: TR) -> Datum<O> {
        Datum { time: self.time, value: self.value.add_spec(rhs) }
    }
}

impl<T: Add<TR, Output = T> + Copy, TR: NotDatum> AddAssign<TR> for Datum<T> {
    fn add_assign(&mut self, other: TR)
        requires
            old(self).value.add_req(other),
        ensures
            final(self).time == old(self).time,
            T::obeys_add_spec() ==> final(self).value == old(self).value.add_spec(other),
    {
        self.value = self.value.add(other);
    }
}

impl<T: Sub<TR, Output = O>, TR, O> Sub<Datum<TR>> for Datum<T> {
    type Output = Datum<O>;

    fn sub(self, other: Datum<TR>) -> (r: Datum<O>) {
        let time = max_time(self.time, other.time);
        Datum { time, value: self.value.sub(other.value) }
    }
}

impl<T: Sub<TR, Output = O>, TR, O> vstd::std_specs::ops::SubSpecImpl<Datum<TR>> for Datum<T> {
    open spec fn obeys_sub_spec() -> bool {
        T::obeys_sub_spec()
    }

    open spec fn sub_req(self, rhs: Datum<TR>) -> bool {
        self.value.sub_req(rhs.value)
    }

    open spec fn sub_spec(self, rhs: Datum<TR>) -> Datum<O> {
        Datum { time: later_time(self.time, rhs.time), value: self.value.sub_spec(rhs.value) }
    }
}

impl<T: Sub<TR, Output = T> + Copy, TR> SubAssign<Datum<TR>> for Datum<T> {
    fn sub_assign(&mut self, other: Datum<TR>)
        requires
            old(self).value.sub_req(other.value),
        ensures
            final(self).time == later_time(old(self).time, other.time),
            T::obeys_sub_spec() ==> final(self).value == old(self).value.sub_spec(other.value),
    {
        self.value = self.value.sub(other.value);
        self.time = max_time(self.time, other.time);
    }
}

impl<T: Sub<TR, Output = O>, TR: NotDatum, O> Sub<TR> for Datum<T> {
    type Output = Datum<O>;

    fn sub(self, other: TR) -> (r: Datum<O>) {
        Datum { time: self.time, value: self.value.sub(other) }
    }
}

impl<T: Sub<TR, Output = O>, TR: NotDatum, O> vstd::std_specs::ops::SubSpecImpl<TR> for Datum<T> {
    open spec fn obeys_sub_spec() -> bool {
        T::obeys_sub_spec()
    }

    open spec fn sub_req(self, rhs: TR) -> bool {
        self.value.sub_req(rhs)
    }

    open spec fn sub_spec(self, rhs: TR) -> Datum<O> {
        Datum { time: self.time, value: self.value.sub_spec(rhs) }
    }
}

impl<T: Sub<TR, Output = T> + Copy, TR: NotDatum> SubAssign<TR> for Datum<T> {
    fn sub_assign(&mut self, other: TR)
        requires
            old(self).value.sub_req(other),
        ensures
            final(self).time == old(self).time,
            T::obeys_sub_spec() ==> final(self).value == old(self).value.sub_spec(other),
    {
        self.value = self.value.sub(other);
    }
}

impl<T: Mul<TR, Output = O>, TR, O> Mul<Datum<TR>> for Datum<T> {
    type Output = Datum<O>;

    fn mul(self, other: Datum<TR>) -> (r: Datum<O>) {
        let time = max_time(self.time, other.time);
        Datum { time, value: self.value.mul(other.value) }
    }
}

impl<T: Mul<TR, Output = O>, TR, O> vstd::std_specs::ops::MulSpecImpl<Datum<TR>> for Datum<T> {
    open spec fn obeys_mul_spec() -> bool {
        T::obeys_mul_spec()
    }

    open spec fn mul_req(self, rhs: Datum<TR>) -> bool {
        self.value.mul_req(rhs.value)
    }

    open spec fn mul_spec(self, rhs: Datum<TR>) -> Datum<O> {
        Datum { time: later_time(self.time, rhs.time), value: self.value.mul_spec(rhs.value) }
    }
}

impl<T: Mul<TR, Output = T> + Copy, TR> MulAssign<Datum<TR>> for Datum<T> {
    fn mul_assign(&mut self, other: Datum<TR>)
        requires
            old(self).value.mul_req(other.value),
        ensures
            final(self).time == later_time(old(self).time, other.time),
            T::obeys_mul_spec() ==> final(self).value == old(self).value.mul_spec(other.value),
    {
        self.value = self.value.mul(other.value);
        self.time = max_time(self.time, other.time);
    }
}

impl<T: Mul<TR, Output = O>, TR: NotDatum, O> Mul<TR> for Datum<T> {
    type Output = Datum<O>;

    fn mul(self, other: TR) -> (r: Datum<O>) {
        Datum { time: self.time, value: self.value.mul(other) }
    }
}

impl<T: Mul<TR, Output = O>, TR: NotDatum, O> vstd::std_specs::ops::MulSpecImpl<TR> for Datum<T> {
    open spec fn obeys_mul_spec() -> bool {
        T::obeys_mul_spec()
    }

    open spec fn mul_req(self, rhs: TR) -> bool {
        self.value.mul_req(rhs)
    }

    open spec fn mul_spec(self, rhs: TR) -> Datum<O> {
        Datum { time: self.time, value: self.value.mul_spec(rhs) }
    }
}

impl<T: Mul<TR, Output = T> + Copy, TR: NotDatum> MulAssign<TR> for Datum<T> {
    fn mul_assign(&mut self, other: TR)
        requires
            old(self).value.mul_req(other),
        ensures
            final(self).time == old(self).time,
            T::obeys_mul_spec() ==> final(self).value == old(self).value.mul_spec(other),
    {
        self.value = self.value.mul(other);
    }
}

impl<T: Div<TR, Output = O>, TR, O> Div<Datum<TR>> for Datum<T> {
    type Output = Datum<O>;

    fn div(self, other: Datum<TR>) -> (r: Datum<O>) {
        let time = max_time(self.time, other.time);
        Datum { time, value: self.value.div(other.value) }
    }
}

impl<T: Div<TR, Output = O>, TR, O> vstd::std_specs::ops::DivSpecImpl<Datum<TR>> for Datum<T> {
    open spec fn obeys_div_spec() -> bool {
        T::obeys_div_spec()
    }

    open spec fn div_req(self, rhs: Datum<TR>) -> bool {
        self.value.div_req(rhs.value)
    }

    open spec fn div_spec(self, rhs: Datum<TR>) -> Datum<O> {
        Datum { time: later_time(self.time, rhs.time), value: self.value.div_spec(rhs.value) }
    }
}

impl<T: Div<TR, Output = T> + Copy, TR> DivAssign<Datum<TR>> for Datum<T> {
    fn div_assign(&mut self, other: Datum<TR>)
        requires
            old(self).value.div_req(other.value),
        ensures
            final(self).time == later_time(old(self).time, other.time),
            T::obeys_div_spec() ==> final(self).value == old(self).value.div_spec(other.value),
    {
        self.value = self.value.div(other.value);
        self.time = max_time(self.time, other.time);
    }
}

impl<T: Div<TR, Output = O>, TR: NotDatum, O> Div<TR> for Datum<T> {
    type Output = Datum<O>;

    fn div(self, other: TR) -> (r: Datum<O>) {
        Datum { time: self.time, value: self.value.div(other) }
    }
}

impl<T: Div<TR, Output = O>, TR: NotDatum, O> vstd::std_specs::ops::DivSpecImpl<TR> for Datum<T> {
    open spec fn obeys_div_spec() -> bool {
        T::obeys_div_spec()
    }

    open spec fn div_req(self, rhs: TR) -> bool {
        self.value.div_req(rhs)
    }

    open spec fn div_spec(self, rhs: TR) -> Datum<O> {
        Datum { time: self.time, value: self.value.div_spec(rhs) }
    }
}

impl<T: Div<TR, Output = T> + Copy, TR: NotDatum> DivAssign<TR> for Datum<T> {
    fn div_assign(&mut self, other: TR)
        requires
            old(self).value.div_req(other),
        ensures
            final(self).time == old(self).time,
            T::obeys_div_spec() ==> final(self).value == old(self).value.div_spec(other),
    {
        self.value = self.value.div(other);
    }
}

} // verus!

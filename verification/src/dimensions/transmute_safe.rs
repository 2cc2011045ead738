//!Conversions between types that hold the same inner number, checked for unit correctness by
//!the type system.
//!
//!A type that is [`Transparent`] holds exactly one value of its `Inner` type and converts to and
//!from it without change. [`transmute_memory_safe`] moves the inner value from one such type to
//!another. [`transmute_unit_safe`] does the same but only when the destination can represent
//!the unit that the source is marked with.
use vstd::prelude::*;
use crate::compile_time_dimensions::Quantity;
use crate::compile_time_integer::{Integer, Zero};
use super::{DimensionlessFraction, DimensionlessInteger, Time};

pub mod unit_markers;

verus! {

///A marker for a unit.
pub trait UnitMarker {

}

///Implemented by types that can hold a value marked with the unit `U`.
pub trait CanRepresent<U: UnitMarker> {

}

///Implemented by types whose values are always marked with one unit.
pub trait OnlyRepresents: CanRepresent<<Self as OnlyRepresents>::Unit> {
    ///The unit that values of the type are marked with.
    type Unit: UnitMarker;
}

///A type that holds exactly one value of its `Inner` type.
pub trait Transparent: Sized {
    ///The type of the held value.
    type Inner;

    ///The held value.
    spec fn inner_value(self) -> Self::Inner;

    ///Takes the held value out.
    fn into_transparent_inner(self) -> (r: Self::Inner)
        ensures
            r == self.inner_value(),
    ;

    ///Wraps a value.
    fn from_transparent_inner(inner: Self::Inner) -> (r: Self)
        ensures
            r.inner_value() == inner,
    ;
}

///Moves the inner value of one [`Transparent`] type into another with the same inner type.
pub fn transmute_memory_safe<A, B>(was: A) -> (r: B) where
    A: Transparent + Copy,
    B: Transparent<Inner = A::Inner> + Copy,

    ensures
        r.inner_value() == was.inner_value(),
{
    B::from_transparent_inner(was.into_transparent_inner())
}

///Moves the inner value of one [`Transparent`] type into another with the same inner type when
///the destination can represent the unit that the source always represents.
pub fn transmute_unit_safe<A, B>(was: A) -> (r: B) where
    A: Transparent + Copy + OnlyRepresents,
    B: Transparent<Inner = A::Inner> + Copy + CanRepresent<A::Unit>,

    ensures
        r.inner_value() == was.inner_value(),
{
    transmute_memory_safe(was)
}

impl<T, MM: Integer, S: Integer> CanRepresent<unit_markers::MillimeterSecond<MM, S>> for Quantity<
    T,
    MM,
    S,
> {

}

impl<T, MM: Integer, S: Integer> OnlyRepresents for Quantity<T, MM, S> {
    type Unit = unit_markers::MillimeterSecond<MM, S>;
}

impl<T, MM, S> Transparent for Quantity<T, MM, S> {
    type Inner = T;

    open spec fn inner_value(self) -> T {
        self.inner()
    }

    fn into_transparent_inner(self) -> (r: T) {
        self.into_inner()
    }

    fn from_transparent_inner(inner: T) -> (r: Self) {
        Quantity::new(inner)
    }
}

impl CanRepresent<unit_markers::MillimeterSecond<Zero, Zero>> for DimensionlessFraction {

}

impl OnlyRepresents for DimensionlessFraction {
    type Unit = unit_markers::MillimeterSecond<Zero, Zero>;
}

impl CanRepresent<unit_markers::MillimeterSecond<Zero, Zero>> for DimensionlessInteger {

}

impl CanRepresent<unit_markers::Nanosecond> for Time {

}

impl OnlyRepresents for DimensionlessInteger {
    type Unit = unit_markers::MillimeterSecond<Zero, Zero>;
}

impl OnlyRepresents for Time {
    type Unit = unit_markers::Nanosecond;
}

impl Transparent for DimensionlessInteger {
    type Inner = i64;

    open spec fn inner_value(self) -> i64 {
        self.0
    }

    fn into_transparent_inner(self) -> (r: i64) {
        self.0
    }

    fn from_transparent_inner(inner: i64) -> (r: Self) {
        DimensionlessInteger(inner)
    }
}

impl Transparent for Time {
    type Inner = i64;

    open spec fn inner_value(self) -> i64 {
        self.0
    }

    fn into_transparent_inner(self) -> (r: i64) {
        self.0
    }

    fn from_transparent_inner(inner: i64) -> (r: Self) {
        Time(inner)
    }
}

impl<U: UnitMarker> CanRepresent<U> for u8 {

}

impl Transparent for u8 {
    type Inner = u8;

    open spec fn inner_value(self) -> u8 {
        self
    }

    fn into_transparent_inner(self) -> (r: u8) {
        self
    }

    fn from_transparent_inner(inner: u8) -> (r: u8) {
        inner
    }
}

impl<U: UnitMarker> CanRepresent<U> for u16 {

}

impl Transparent for u16 {
    type Inner = u16;

    open spec fn inner_value(self) -> u16 {
        self
    }

    fn into_transparent_inner(self) -> (r: u16) {
        self
    }

    fn from_transparent_inner(inner: u16) -> (r: u16) {
        inner
    }
}

impl<U: UnitMarker> CanRepresent<U> for u32 {

}

impl Transparent for u32 {
    type Inner = u32;

    open spec fn inner_value(self) -> u32 {
        self
    }

    fn into_transparent_inner(self) -> (r: u32) {
        self
    }

    fn from_transparent_inner(inner: u32) -> (r: u32) {
        inner
    }
}

impl<U: UnitMarker> CanRepresent<U> for u64 {

}

impl Transparent for u64 {
    type Inner = u64;

    open spec fn inner_value(self) -> u64 {
        self
    }

    fn into_transparent_inner(self) -> (r: u64) {
        self
    }

    fn from_transparent_inner(inner: u64) -> (r: u64) {
        inner
    }
}

impl<U: UnitMarker> CanRepresent<U> for u128 {

}

impl Transparent for u128 {
    type Inner = u128;

    open spec fn inner_value(self) -> u128 {
        self
    }

    fn into_transparent_inner(self) -> (r: u128) {
        self
    }

    fn from_transparent_inner(inner: u128) -> (r: u128) {
        inner
    }
}

impl<U: UnitMarker> CanRepresent<U> for usize {

}

impl Transparent for usize {
    type Inner = usize;

    open spec fn inner_value(self) -> usize {
        self
    }

    fn into_transparent_inner(self) -> (r: usize) {
        self
    }

    fn from_transparent_inner(inner: usize) -> (r: usize) {
        inner
    }
}

impl<U: UnitMarker> CanRepresent<U> for i8 {

}

impl Transparent for i8 {
    type Inner = i8;

    open spec fn inner_value(self) -> i8 {
        self
    }

    fn into_transparent_inner(self) -> (r: i8) {
        self
    }

    fn from_transparent_inner(inner: i8) -> (r: i8) {
        inner
    }
}

impl<U: UnitMarker> CanRepresent<U> for i16 {

}

impl Transparent for i16 {
    type Inner = i16;

    open spec fn inner_value(self) -> i16 {
        self
    }

    fn into_transparent_inner(self) -> (r: i16) {
        self
    }

    fn from_transparent_inner(inner: i16) -> (r: i16) {
        inner
    }
}

impl<U: UnitMarker> CanRepresent<U> for i32 {

}

impl Transparent for i32 {
    type Inner = i32;

    open spec fn inner_value(self) -> i32 {
        self
    }

    fn into_transparent_inner(self) -> (r: i32) {
        self
    }

    fn from_transparent_inner(inner: i32) -> (r: i32) {
        inner
    }
}

impl<U: UnitMarker> CanRepresent<U> for i64 {

}

impl Transparent for i64 {
    type Inner = i64;

    open spec fn inner_value(self) -> i64 {
        self
    }

    fn into_transparent_inner(self) -> (r: i64) {
        self
    }

    fn from_transparent_inner(inner: i64) -> (r: i64) {
        inner
    }
}

impl<U: UnitMarker> CanRepresent<U> for i128 {

}

impl Transparent for i128 {
    type Inner = i128;

    open spec fn inner_value(self) -> i128 {
        self
    }

    fn into_transparent_inner(self) -> (r: i128) {
        self
    }

    fn from_transparent_inner(inner: i128) -> (r: i128) {
        inner
    }
}

impl<U: UnitMarker> CanRepresent<U> for isize {

}

impl Transparent for isize {
    type Inner = isize;

    open spec fn inner_value(self) -> isize {
        self
    }

    fn into_transparent_inner(self) -> (r: isize) {
        self
    }

    fn from_transparent_inner(inner: isize) -> (r: isize) {
        inner
    }
}

} // verus!

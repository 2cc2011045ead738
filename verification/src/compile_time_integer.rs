//!A compile-time integer system. 0 is represented by the [`Zero`] struct. Positive integers are
//!created by wrapping [`Zero`] with [`OnePlus`] a given number of times, e.g., 2 is represented by
//!`OnePlus<OnePlus<Zero>>`. Negative numbers are created similarly but with [`NegativeOnePlus`]
//!instead of [`OnePlus`]: -2 is `NegativeOnePlus<NegativeOnePlus<Zero>>`. A number's type read
//!left-to-right is a mathematical expression that evaluates to the number.
use vstd::prelude::*;

pub mod aliases;
pub use aliases::{Neg1, Neg2, Neg3, Neg4, Neg5, Neg6, Neg7, Neg8, Neg9, Neg10, Pos1, Pos2, Pos3, Pos4, Pos5, Pos6, Pos7, Pos8, Pos9, Pos10};

verus! {

///A trait for numbers in the compile-time integer system. Use the provided types rather than
///implementing it yourself.
pub trait Integer: Copy + Sized {
    ///The type representing **n + 1** where **n** is the implementor's value.
    type PlusOne;

    ///The type representing **n - 1** where **n** is the implementor's value.
    type MinusOne;

    ///The integer that the type represents.
    spec fn value() -> int;

    ///Every number met while reading the type from the innermost `Zero` outward fits in an
    ///`i8`, so that [`as_i8`](Integer::as_i8) can compute it.
    spec fn fits_i8() -> bool;

    ///The one instance of the number object: `Zero`, or the wrapper around the instance of the
    ///number it wraps.
    spec fn instance() -> Self;

    ///Create an instance of the number object.
    fn new() -> (r: Self)
        ensures
            r == Self::instance(),
    ;

    ///Create an [`i8`] with the same value as the number.
    fn as_i8() -> (r: i8)
        requires
            Self::fits_i8(),
        ensures
            r == Self::value(),
    ;
}

///Type representing zero in the compile-time integer system.
#[derive(Clone, Copy, Debug, PartialEq, Eq)]
pub struct Zero;

impl Integer for Zero {
    type PlusOne = OnePlus<Zero>;

    type MinusOne = NegativeOnePlus<Zero>;

    open spec fn value() -> int {
        0
    }

    open spec fn fits_i8() -> bool {
        true
    }

    open spec fn instance() -> Self {
        Zero
    }

    fn new() -> (r: Self) {
        Zero
    }

    fn as_i8() -> (r: i8) {
        0
    }
}

///Type representing something added to one in the compile-time integer system.
#[derive(Clone, Copy, Debug, PartialEq, Eq)]
pub struct OnePlus<T>(T);

impl<T: Integer> Integer for OnePlus<T> {
    type PlusOne = OnePlus<OnePlus<T>>;

    type MinusOne = T;

    open spec fn value() -> int {
        1 + T::value()
    }

    open spec fn fits_i8() -> bool {
        T::fits_i8() && 1 + T::value() <= i8::MAX
    }

    closed spec fn instance() -> Self {
        OnePlus(T::instance())
    }

    fn new() -> (r: Self) {
        OnePlus(T::new())
    }

    fn as_i8() -> (r: i8) {
        1 + T::as_i8()
    }
}

///Type representing something added to negative one, or one subtracted from something, in the
///compile-time integer system.
#[derive(Clone, Copy, Debug, PartialEq, Eq)]
pub struct NegativeOnePlus<T>(T);

impl<T: Integer> Integer for NegativeOnePlus<T> {
    type PlusOne = T;

    type MinusOne = NegativeOnePlus<NegativeOnePlus<T>>;

    open spec fn value() -> int {
        -1 + T::value()
    }

    open spec fn fits_i8() -> bool {
        T::fits_i8() && i8::MIN <= -1 + T::value()
    }

    closed spec fn instance() -> Self {
        NegativeOnePlus(T::instance())
    }

    fn new() -> (r: Self) {
        NegativeOnePlus(T::new())
    }

    fn as_i8() -> (r: i8) {
        -1 + T::as_i8()
    }
}

} // verus!

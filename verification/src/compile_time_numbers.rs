//!A second form of the compile-time integer system, in which every number also names the numbers
//!one above and one below it.
use vstd::prelude::*;

verus! {

///A number in the compile-time number system.
pub trait Num: Copy + Sized {
    ///The type representing **n + 1** where **n** is the implementor's value.
    type PlusOne;

    ///The type representing **n - 1** where **n** is the implementor's value.
    type MinusOne;

    ///The integer that the type represents.
    spec fn value() -> int;

    ///The one instance of the number object: `Zero`, or the wrapper around the instance of the
    ///number it wraps.
    spec fn instance() -> Self;

    ///Create an instance of the number object.
    fn new() -> (r: Self)
        ensures
            r == Self::instance(),
    ;
}

///Type representing zero.
#[derive(Clone, Copy, Debug, PartialEq, Eq)]
pub struct Zero;

impl Num for Zero {
    type PlusOne = OnePlus<Zero>;

    type MinusOne = NegativeOnePlus<Zero>;

    open spec fn value() -> int {
        0
    }

    open spec fn instance() -> Self {
        Zero
    }

    fn new() -> (r: Self) {
        Zero
    }
}

///Type representing one more than `T`.
#[derive(Clone, Copy, Debug, PartialEq, Eq)]
pub struct OnePlus<T>(T);

impl<T: Num> Num for OnePlus<T> {
    type PlusOne = OnePlus<OnePlus<T>>;

    type MinusOne = T;

    open spec fn value() -> int {
        1 + T::value()
    }

    closed spec fn instance() -> Self {
        OnePlus(T::instance())
    }

    fn new() -> (r: Self) {
        OnePlus(T::new())
    }
}

///Type representing one less than `T`.
#[derive(Clone, Copy, Debug, PartialEq, Eq)]
pub struct NegativeOnePlus<T>(T);

impl<T: Num> Num for NegativeOnePlus<T> {
    type PlusOne = T;

    type MinusOne = NegativeOnePlus<NegativeOnePlus<T>>;

    open spec fn value() -> int {
        -1 + T::value()
    }

    closed spec fn instance() -> Self {
        NegativeOnePlus(T::instance())
    }

    fn new() -> (r: Self) {
        NegativeOnePlus(T::new())
    }
}

} // verus!

//!A compile-time dimensional analysis system: a [`Quantity`] carries its unit's exponents of
//!millimeters and seconds as compile-time integers in its type, and holds only a value at runtime.
use vstd::prelude::*;
use vstd::std_specs::ops::{AddSpec, SubSpec};
use core::marker::PhantomData;
use core::ops::{Add, Sub};
use crate::stulta::Half;

pub mod aliases;

verus! {

///A quantity with a unit. The type parameters `MM` and `S` are compile-time integers giving the
///exponents of millimeters and seconds.
#[derive(Debug, PartialEq)]
pub struct Quantity<T, MM, S>(PhantomData<MM>, PhantomData<S>, T);

impl<T, MM, S> Quantity<T, MM, S> {
    ///The quantity holding `inner`.
    pub closed spec fn spec_new(inner: T) -> Self {
        Quantity(PhantomData, PhantomData, inner)
    }

    ///The value held.
    pub closed spec fn inner(self) -> T {
        self.2
    }

    ///Constructor for `Quantity`.
    pub fn new(inner: T) -> (r: Self)
        ensures
            r == Self::spec_new(inner),
            r.inner() == inner,
    {
        Quantity(PhantomData, PhantomData, inner)
    }

    ///Converts the `Quantity` into its inner contained object, consuming it.
    pub fn into_inner(self) -> (r: T)
        ensures
            r == self.inner(),
    {
        self.2
    }

    ///A quantity holds exactly the value it was made with.
    pub proof fn lemma_inner_of_new(inner: T)
        ensures
            Self::spec_new(inner).inner() == inner,
    {
    }
}

impl<T: Clone, MM, S> Clone for Quantity<T, MM, S> {
    fn clone(&self) -> (r: Self) {
        Quantity(PhantomData, PhantomData, self.2.clone())
    }
}

impl<T: Copy, MM, S> Copy for Quantity<T, MM, S> {

}

impl<T, MM, S> From<T> for Quantity<T, MM, S> {
    fn from(was: T) -> (r: Self) {
        Quantity(PhantomData, PhantomData, was)
    }
}

impl<T, MM, S> vstd::std_specs::convert::FromSpecImpl<T> for Quantity<T, MM, S> {
    open spec fn obeys_from_spec() -> bool {
        true
    }

    open spec fn from_spec(was: T) -> Self {
        Self::spec_new(was)
    }
}

impl<T: Add<U, Output = O>, U, O, MM, S> Add<Quantity<U, MM, S>> for Quantity<T, MM, S> {
    type Output = Quantity<O, MM, S>;

    fn add(self, rhs: Quantity<U, MM, S>) -> (r: Quantity<O, MM, S>) {
        Quantity(PhantomData, PhantomData, self.2 + rhs.2)
    }
}

impl<T: Add<U, Output = O>, U, O, MM, S> vstd::std_specs::ops::AddSpecImpl<Quantity<U, MM, S>> for Quantity<T, MM, S> {
    ///A sum of quantities follows the sum of their values.
    open spec fn obeys_add_spec() -> bool {
        <T as AddSpec<U>>::obeys_add_spec()
    }

    open spec fn add_req(self, rhs: Quantity<U, MM, S>) -> bool {
        self.inner().add_req(rhs.inner())
    }

    open spec fn add_spec(self, rhs: Quantity<U, MM, S>) -> Quantity<O, MM, S> {
        Quantity::spec_new(self.inner().add_spec(rhs.inner()))
    }
}

impl<T: Sub<U, Output = O>, U, O, MM, S> Sub<Quantity<U, MM, S>> for Quantity<T, MM, S> {
    type Output = Quantity<O, MM, S>;

    fn sub(self, rhs: Quantity<U, MM, S>) -> (r: Quantity<O, MM, S>) {
        Quantity(PhantomData, PhantomData, self.2 - rhs.2)
    }
}

impl<T: Sub<U, Output = O>, U, O, MM, S> vstd::std_specs::ops::SubSpecImpl<Quantity<U, MM, S>> for Quantity<T, MM, S> {
    ///A difference of quantities follows the difference of their values.
    open spec fn obeys_sub_spec() -> bool {
        <T as SubSpec<U>>::obeys_sub_spec()
    }

    open spec fn sub_req(self, rhs: Quantity<U, MM, S>) -> bool {
        self.inner().sub_req(rhs.inner())
    }

    open spec fn sub_spec(self, rhs: Quantity<U, MM, S>) -> Quantity<O, MM, S> {
        Quantity::spec_new(self.inner().sub_spec(rhs.inner()))
    }
}

impl<T: Half, MM, S> Half for Quantity<T, MM, S> {
    ///A quantity's half follows its value's.
    open spec fn obeys_half_spec() -> bool {
        T::obeys_half_spec()
    }

    ///Half of the value, with the same unit.
    open spec fn half_spec(self) -> Self {
        Self::spec_new(self.inner().half_spec())
    }

    fn half(self) -> (r: Self) {
        Quantity(PhantomData, PhantomData, self.2.half())
    }
}

} // verus!

//!Types that name units for [`CanRepresent`](super::CanRepresent) and
//![`OnlyRepresents`](super::OnlyRepresents).
use vstd::prelude::*;
use core::marker::PhantomData;
use crate::compile_time_integer::Integer;
use super::UnitMarker;

verus! {

///The unit millimeter to the power `MM` times second to the power `S`.
pub struct MillimeterSecond<MM, S>(PhantomData<MM>, PhantomData<S>);

impl<MM: Integer, S: Integer> UnitMarker for MillimeterSecond<MM, S> {

}

///The unit nanosecond, in which [`Time`](crate::Time) is stored.
#[non_exhaustive]
pub struct Nanosecond;

impl UnitMarker for Nanosecond {

}

} // verus!

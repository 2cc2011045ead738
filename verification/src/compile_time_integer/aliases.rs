//!Type aliases for compile-time integers from -10 to 10.
use vstd::prelude::*;
use super::{NegativeOnePlus, OnePlus, Zero};

verus! {

///-1.
pub type Neg1 = NegativeOnePlus<Zero>;
///-2.
pub type Neg2 = NegativeOnePlus<Neg1>;
///-3.
pub type Neg3 = NegativeOnePlus<Neg2>;
///-4.
pub type Neg4 = NegativeOnePlus<Neg3>;
///-5.
pub type Neg5 = NegativeOnePlus<Neg4>;
///-6.
pub type Neg6 = NegativeOnePlus<Neg5>;
///-7.
pub type Neg7 = NegativeOnePlus<Neg6>;
///-8.
pub type Neg8 = NegativeOnePlus<Neg7>;
///-9.
pub type Neg9 = NegativeOnePlus<Neg8>;
///-10.
pub type Neg10 = NegativeOnePlus<Neg9>;
///1.
pub type Pos1 = OnePlus<Zero>;
///2.
pub type Pos2 = OnePlus<Pos1>;
///3.
pub type Pos3 = OnePlus<Pos2>;
///4.
pub type Pos4 = OnePlus<Pos3>;
///5.
pub type Pos5 = OnePlus<Pos4>;
///6.
pub type Pos6 = OnePlus<Pos5>;
///7.
pub type Pos7 = OnePlus<Pos6>;
///8.
pub type Pos8 = OnePlus<Pos7>;
///9.
pub type Pos9 = OnePlus<Pos8>;
///10.
pub type Pos10 = OnePlus<Pos9>;

} // verus!

//!Type aliases for [`Quantity`] types of different dimensions, from millimeters and seconds to the
//!power -3 up to the power 3.
use vstd::prelude::*;
use crate::compile_time_integer::Zero;
use crate::compile_time_integer::aliases::{Neg1, Neg2, Neg3, Pos1, Pos2, Pos3};
use super::Quantity;

verus! {

///A quantity in millimeter^-3 times second^-3.
pub type InverseMillimeterCubedSecondCubed<T> = Quantity<T, Neg3, Neg3>;

///A quantity in millimeter^-3 times second^-2.
pub type InverseMillimeterCubedSecondSquared<T> = Quantity<T, Neg3, Neg2>;

///A quantity in millimeter^-3 times second^-1.
pub type InverseMillimeterCubedSecond<T> = Quantity<T, Neg3, Neg1>;

///A quantity in millimeter^-3.
pub type InverseMillimeterCubed<T> = Quantity<T, Neg3, Zero>;

///A quantity in millimeter^-3 times second.
pub type SecondPerMillimeterCubed<T> = Quantity<T, Neg3, Pos1>;

///A quantity in millimeter^-3 times second^2.
pub type SecondSquaredPerMillimeterCubed<T> = Quantity<T, Neg3, Pos2>;

///A quantity in millimeter^-3 times second^3.
pub type SecondCubedPerMillimeterCubed<T> = Quantity<T, Neg3, Pos3>;

///A quantity in millimeter^-2 times second^-3.
pub type InverseMillimeterSquaredSecondCubed<T> = Quantity<T, Neg2, Neg3>;

///A quantity in millimeter^-2 times second^-2.
pub type InverseMillimeterSquaredSecondSquared<T> = Quantity<T, Neg2, Neg2>;

///A quantity in millimeter^-2 times second^-1.
pub type InverseMillimeterSquaredSecond<T> = Quantity<T, Neg2, Neg1>;

///A quantity in millimeter^-2.
pub type InverseMillimeterSquared<T> = Quantity<T, Neg2, Zero>;

///A quantity in millimeter^-2 times second.
pub type SecondPerMillimeterSquared<T> = Quantity<T, Neg2, Pos1>;

///A quantity in millimeter^-2 times second^2.
pub type SecondSquaredPerMillimeterSquared<T> = Quantity<T, Neg2, Pos2>;

///A quantity in millimeter^-2 times second^3.
pub type SecondCubedPerMillimeterSquared<T> = Quantity<T, Neg2, Pos3>;

///A quantity in millimeter^-1 times second^-3.
pub type InverseMillimeterSecondCubed<T> = Quantity<T, Neg1, Neg3>;

///A quantity in millimeter^-1 times second^-2.
pub type InverseMillimeterSecondSquared<T> = Quantity<T, Neg1, Neg2>;

///A quantity in millimeter^-1 times second^-1.
pub type InverseMillimeterSecond<T> = Quantity<T, Neg1, Neg1>;

///A quantity in millimeter^-1.
pub type InverseMillimeter<T> = Quantity<T, Neg1, Zero>;

///A quantity in millimeter^-1 times second.
pub type SecondPerMillimeter<T> = Quantity<T, Neg1, Pos1>;

///A quantity in millimeter^-1 times second^2.
pub type SecondSquaredPerMillimeter<T> = Quantity<T, Neg1, Pos2>;

///A quantity in millimeter^-1 times second^3.
pub type SecondCubedPerMillimeter<T> = Quantity<T, Neg1, Pos3>;

///A quantity in second^-3.
pub type InverseSecondCubed<T> = Quantity<T, Zero, Neg3>;

///A quantity in second^-2.
pub type InverseSecondSquared<T> = Quantity<T, Zero, Neg2>;

///A quantity in second^-1.
pub type InverseSecond<T> = Quantity<T, Zero, Neg1>;

///A quantity in no unit.
pub type Dimensionless<T> = Quantity<T, Zero, Zero>;

///A quantity in second.
pub type Second<T> = Quantity<T, Zero, Pos1>;

///A quantity in second^2.
pub type SecondSquared<T> = Quantity<T, Zero, Pos2>;

///A quantity in second^3.
pub type SecondCubed<T> = Quantity<T, Zero, Pos3>;

///A quantity in millimeter times second^-3.
pub type MillimeterPerSecondCubed<T> = Quantity<T, Pos1, Neg3>;

///A quantity in millimeter times second^-2.
pub type MillimeterPerSecondSquared<T> = Quantity<T, Pos1, Neg2>;

///A quantity in millimeter times second^-1.
pub type MillimeterPerSecond<T> = Quantity<T, Pos1, Neg1>;

///A quantity in millimeter.
pub type Millimeter<T> = Quantity<T, Pos1, Zero>;

///A quantity in millimeter times second.
pub type MillimeterSecond<T> = Quantity<T, Pos1, Pos1>;

///A quantity in millimeter times second^2.
pub type MillimeterSecondSquared<T> = Quantity<T, Pos1, Pos2>;

///A quantity in millimeter times second^3.
pub type MillimeterSecondCubed<T> = Quantity<T, Pos1, Pos3>;

///A quantity in millimeter^2 times second^-3.
pub type MillimeterSquaredPerSecondCubed<T> = Quantity<T, Pos2, Neg3>;

///A quantity in millimeter^2 times second^-2.
pub type MillimeterSquaredPerSecondSquared<T> = Quantity<T, Pos2, Neg2>;

///A quantity in millimeter^2 times second^-1.
pub type MillimeterSquaredPerSecond<T> = Quantity<T, Pos2, Neg1>;

///A quantity in millimeter^2.
pub type MillimeterSquared<T> = Quantity<T, Pos2, Zero>;

///A quantity in millimeter^2 times second.
pub type MillimeterSquaredSecond<T> = Quantity<T, Pos2, Pos1>;

///A quantity in millimeter^2 times second^2.
pub type MillimeterSquaredSecondSquared<T> = Quantity<T, Pos2, Pos2>;

///A quantity in millimeter^2 times second^3.
pub type MillimeterSquaredSecondCubed<T> = Quantity<T, Pos2, Pos3>;

///A quantity in millimeter^3 times second^-3.
pub type MillimeterCubedPerSecondCubed<T> = Quantity<T, Pos3, Neg3>;

///A quantity in millimeter^3 times second^-2.
pub type MillimeterCubedPerSecondSquared<T> = Quantity<T, Pos3, Neg2>;

///A quantity in millimeter^3 times second^-1.
pub type MillimeterCubedPerSecond<T> = Quantity<T, Pos3, Neg1>;

///A quantity in millimeter^3.
pub type MillimeterCubed<T> = Quantity<T, Pos3, Zero>;

///A quantity in millimeter^3 times second.
pub type MillimeterCubedSecond<T> = Quantity<T, Pos3, Pos1>;

///A quantity in millimeter^3 times second^2.
pub type MillimeterCubedSecondSquared<T> = Quantity<T, Pos3, Pos2>;

///A quantity in millimeter^3 times second^3.
pub type MillimeterCubedSecondCubed<T> = Quantity<T, Pos3, Pos3>;

} // verus!

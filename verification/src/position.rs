//!Position derivatives and the pieces of a motion profile.
use vstd::prelude::*;
use crate::error::CannotConvert;

verus! {

///A derivative of position: position, velocity, or acceleration.
#[derive(Clone, Copy, Debug, PartialEq, Eq, Structural)]
pub enum PositionDerivative {
    ///Where you are.
    Position,
    ///How fast you're going.
    Velocity,
    ///How fast how fast you're going's changing.
    Acceleration,
}

///Where you are in following a motion profile.
#[derive(Clone, Copy, Debug, PartialEq, Eq, Structural)]
pub enum MotionProfilePiece {
    ///You have not yet started the motion profile.
    BeforeStart,
    ///You are changing velocity at the beginning.
    InitialAcceleration,
    ///You are moving at a constant speed.
    ConstantVelocity,
    ///You are changing velocity at the end.
    EndAcceleration,
    ///You are done with the motion profile.
    Complete,
}

///The position derivative that is controlled during a piece of a motion profile, if any.
pub open spec fn position_derivative_of_piece(piece: MotionProfilePiece) -> Option<
    PositionDerivative,
> {
    match piece {
        MotionProfilePiece::BeforeStart => None,
        MotionProfilePiece::InitialAcceleration => Some(PositionDerivative::Acceleration),
        MotionProfilePiece::ConstantVelocity => Some(PositionDerivative::Velocity),
        MotionProfilePiece::EndAcceleration => Some(PositionDerivative::Acceleration),
        MotionProfilePiece::Complete => None,
    }
}

impl TryFrom<MotionProfilePiece> for PositionDerivative {
    type Error = CannotConvert;

    fn try_from(was: MotionProfilePiece) -> (r: Result<Self, CannotConvert>)
        ensures
            r == match position_derivative_of_piece(was) {
                Some(pd) => Ok(pd),
                None => Err(CannotConvert),
            },
    {
        match was {
            MotionProfilePiece::BeforeStart | MotionProfilePiece::Complete => Err(CannotConvert),
            MotionProfilePiece::InitialAcceleration | MotionProfilePiece::EndAcceleration => Ok(
                PositionDerivative::Acceleration,
            ),
            MotionProfilePiece::ConstantVelocity => Ok(PositionDerivative::Velocity),
        }
    }
}

impl vstd::std_specs::convert::TryFromSpecImpl<MotionProfilePiece> for PositionDerivative {
    open spec fn obeys_try_from_spec() -> bool {
        true
    }

    open spec fn try_from_spec(was: MotionProfilePiece) -> Result<Self, CannotConvert> {
        match position_derivative_of_piece(was) {
            Some(pd) => Ok(pd),
            None => Err(CannotConvert),
        }
    }
}

} // verus!

//! Rust Robotics ToolKit: a data flow-based robotics framework built around getters, settables
//! and streams, with exact integer time and dimensionless arithmetic.
use vstd::prelude::*;

pub mod compile_time_dimensions;
pub mod compile_time_integer;
pub mod compile_time_numbers;
mod datum;
pub mod devices;
pub mod dimensions;
pub mod error;
pub mod prelude;
mod interfaces;
mod pointer_dereferencer;
mod position;
mod process;
pub mod streams;
mod stulta;

pub use datum::{latest, Datum, NotDatum, OptionDatumExt, Output, OutputExt};
pub use dimensions::{DimensionlessFraction, DimensionlessInteger, Time, Unit};
pub use error::NothingOrError;
pub use stulta::{AbsoluteValue, Half};
pub use pointer_dereferencer::PointerDereferencer;
pub use process::{ManagerSignal, Process, ProcessSignal};
pub use position::{MotionProfilePiece, PositionDerivative};
pub use interfaces::{
    Chronology, ConstantGetter, Device, Feeder, Getter, GetterFromChronology, NoneGetter, Settable,
    TimeGetter, TimeGetterFromGetter, TimeOutput, Updatable,
};

verus! {

} // verus!

//!Error types.
use vstd::prelude::*;

verus! {

///The error type used when an operation fails due to mismatched runtime dimensions.
#[derive(Clone, Copy, Debug, PartialEq, Eq, Structural)]
pub struct UnitInvalid;

///The error type used when a `TryFrom` fails.
#[derive(Clone, Copy, Debug, PartialEq, Eq, Structural)]
pub struct CannotConvert;

///The error type used when a process that is asked for does not exist.
#[derive(Clone, Copy, Debug, PartialEq, Eq, Structural)]
pub struct NoSuchProcess;

///An error from one of two sources, `A` and `B`, or from both.
#[derive(Clone, Copy, Debug, PartialEq, Eq)]
pub enum PossibleDoubleError<E> {
    ///Only source `A` failed.
    A(E),
    ///Only source `B` failed.
    B(E),
    ///Both sources failed.
    AB(E, E),
}

///The error of source `A`, if any.
pub open spec fn error_a<E>(x: PossibleDoubleError<E>) -> Option<E> {
    match x {
        PossibleDoubleError::A(a) => Some(a),
        PossibleDoubleError::B(_) => None,
        PossibleDoubleError::AB(a, _) => Some(a),
    }
}

///The error of source `B`, if any.
pub open spec fn error_b<E>(x: PossibleDoubleError<E>) -> Option<E> {
    match x {
        PossibleDoubleError::A(_) => None,
        PossibleDoubleError::B(b) => Some(b),
        PossibleDoubleError::AB(_, b) => Some(b),
    }
}

///The double error made of the optional errors of the two sources, if either failed.
pub open spec fn double_error_from<E>(a: Option<E>, b: Option<E>) -> Option<PossibleDoubleError<E>> {
    match (a, b) {
        (None, None) => None,
        (Some(a), None) => Some(PossibleDoubleError::A(a)),
        (None, Some(b)) => Some(PossibleDoubleError::B(b)),
        (Some(a), Some(b)) => Some(PossibleDoubleError::AB(a, b)),
    }
}

impl<E> PossibleDoubleError<E> {
    ///Combines the optional errors of the two sources. Returns `None` if neither failed.
    pub fn from_options(a: Option<E>, b: Option<E>) -> (r: Option<Self>)
        ensures
            r == double_error_from(a, b),
    {
        match (a, b) {
            (None, None) => None,
            (Some(a), None) => Some(PossibleDoubleError::A(a)),
            (None, Some(b)) => Some(PossibleDoubleError::B(b)),
            (Some(a), Some(b)) => Some(PossibleDoubleError::AB(a, b)),
        }
    }

    ///The error of source `A`, if it failed.
    pub fn keep_only_a(self) -> (r: Option<E>)
        ensures
            r == error_a(self),
    {
        match self {
            PossibleDoubleError::A(a) => Some(a),
            PossibleDoubleError::B(_) => None,
            PossibleDoubleError::AB(a, _) => Some(a),
        }
    }

    ///The error of source `B`, if it failed.
    pub fn keep_only_b(self) -> (r: Option<E>)
        ensures
            r == error_b(self),
    {
        match self {
            PossibleDoubleError::A(_) => None,
            PossibleDoubleError::B(b) => Some(b),
            PossibleDoubleError::AB(_, b) => Some(b),
        }
    }

    ///One error: that of source `A` if it failed, otherwise that of source `B`.
    pub fn prioritize_a(self) -> (r: E)
        ensures
            r == match error_a(self) {
                Some(a) => a,
                None => error_b(self).unwrap(),
            },
    {
        match self {
            PossibleDoubleError::A(a) => a,
            PossibleDoubleError::B(b) => b,
            PossibleDoubleError::AB(a, _) => a,
        }
    }

    ///One error: that of source `B` if it failed, otherwise that of source `A`.
    pub fn prioritize_b(self) -> (r: E)
        ensures
            r == match error_b(self) {
                Some(b) => b,
                None => error_a(self).unwrap(),
            },
    {
        match self {
            PossibleDoubleError::A(a) => a,
            PossibleDoubleError::B(b) => b,
            PossibleDoubleError::AB(_, b) => b,
        }
    }
}

///Splitting the double error made from two optional errors gives those errors back, and a double
///error is rebuilt from the errors of its two sources.
pub proof fn law_double_error_round_trip<E>(a: Option<E>, b: Option<E>, x: PossibleDoubleError<E>)
    ensures
        double_error_from(a, b) matches Some(d) ==> error_a(d) == a && error_b(d) == b,
        double_error_from(a, b) is None <==> (a is None && b is None),
        double_error_from(error_a(x), error_b(x)) == Some(x),
{
}

///The result of something that returns either nothing or an error.
pub type NothingOrError<E> = Result<(), E>;

///Conversions between [`NothingOrError`] and an optional error.
pub trait NothingOrErrorExt<E>: Sized {
    ///`Ok(())` from `None` and `Err(e)` from `Some(e)`.
    fn from_option(maybe_error: Option<E>) -> Self;

    ///`None` from `Ok(())` and `Some(e)` from `Err(e)`.
    fn into_option(self) -> Option<E>;
}

///`Ok(())` for no error and `Err(e)` for the error `e`.
pub open spec fn nothing_or_error_from<E>(maybe_error: Option<E>) -> NothingOrError<E> {
    match maybe_error {
        Some(e) => Err(e),
        None => Ok(()),
    }
}

///The error of a [`NothingOrError`], if any.
pub open spec fn error_of<E>(x: NothingOrError<E>) -> Option<E> {
    match x {
        Ok(()) => None,
        Err(e) => Some(e),
    }
}

impl<E> NothingOrErrorExt<E> for NothingOrError<E> {
    fn from_option(maybe_error: Option<E>) -> (r: Self)
        ensures
            r == nothing_or_error_from(maybe_error),
    {
        match maybe_error {
            Some(e) => Err(e),
            None => Ok(()),
        }
    }

    fn into_option(self) -> (r: Option<E>)
        ensures
            r == error_of(self),
    {
        match self {
            Ok(()) => None,
            Err(e) => Some(e),
        }
    }
}

///Converting an optional error to a [`NothingOrError`] and back is the identity, and so is the
///other way round.
pub proof fn law_nothing_or_error_round_trip<E>(maybe_error: Option<E>, x: NothingOrError<E>)
    ensures
        error_of(nothing_or_error_from(maybe_error)) == maybe_error,
        nothing_or_error_from(error_of(x)) == x,
{
    match x {
        Ok(u) => {
            assert(u == ());
        },
        Err(_) => {},
    }
}

} // verus!

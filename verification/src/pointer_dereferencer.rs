//!A wrapper for a pointer to something in the stream system.
use vstd::prelude::*;

verus! {

///A wrapper holding a pointer (or any other handle) to a [`Getter`](crate::Getter),
///[`Settable`](crate::Settable) or [`TimeGetter`](crate::TimeGetter). The wrapper only keeps the
///pointer and hands it back; following a raw pointer to the object takes unsafe code, which this
///library leaves to its users.
#[derive(Clone, Copy, Debug, PartialEq, Eq)]
pub struct PointerDereferencer<P> {
    pointer: P,
}

impl<P> PointerDereferencer<P> {
    ///The pointer held.
    pub closed spec fn pointer(self) -> P {
        self.pointer
    }

    ///The constructor for `PointerDereferencer`.
    pub fn new(pointer: P) -> (r: Self)
        ensures
            r.pointer() == pointer,
    {
        PointerDereferencer { pointer }
    }

    ///Returns the inner pointer that the wrapper contains by consuming it.
    pub fn into_inner(self) -> (r: P)
        ensures
            r == self.pointer(),
    {
        self.pointer
    }
}

impl<P: Clone> PointerDereferencer<P> {
    ///Clones and returns the inner pointer that the wrapper contains.
    pub fn clone_inner(&self) -> (r: P)
        ensures
            cloned(self.pointer(), r),
    {
        self.pointer.clone()
    }
}

impl<P: Copy> PointerDereferencer<P> {
    ///Returns a copy of the inner pointer that the wrapper contains.
    pub fn copy_inner(&self) -> (r: P)
        ensures
            r == self.pointer(),
    {
        self.pointer
    }
}

} // verus!

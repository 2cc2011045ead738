//!Streams for control flow.
use vstd::prelude::*;
use crate::datum::Output;
use crate::error::NothingOrError;
use crate::interfaces::{may_get, readable_after_update, Getter, Updatable};
use crate::streams::{three_updates, two_updates};

verus! {

///Propagates its input if a `Getter<bool, _>` returns `Ok(Some(true))`, otherwise returns
///`Ok(None)`.
pub struct IfStream<GC, GI> {
    condition: GC,
    input: GI,
}

impl<GC, GI> IfStream<GC, GI> {
    ///Constructor for [`IfStream`].
    pub fn new(condition: GC, input: GI) -> (r: Self)
        ensures
            r.condition() == condition,
            r.input() == input,
    {
        IfStream { condition, input }
    }

    ///The condition getter.
    pub closed spec fn condition(self) -> GC {
        self.condition
    }

    ///The input getter.
    pub closed spec fn input(self) -> GI {
        self.input
    }
}

///The output of an [`IfStream`] whose condition returns `cond` and whose input returns `input`:
///an error from the condition, the input's output when the condition is a `true` datum, and
///`Ok(None)` otherwise.
pub open spec fn if_output<T, E>(cond: Output<bool, E>, input: Output<T, E>) -> Output<T, E> {
    match cond {
        Err(e) => Err(e),
        Ok(Some(c)) => if c.value {
            input
        } else {
            Ok(None)
        },
        Ok(None) => Ok(None),
    }
}

impl<T, GC: Getter<bool, E>, GI: Getter<T, E>, E> Getter<T, E> for IfStream<GC, GI> {
    open spec fn obeys_get_spec() -> bool {
        GC::obeys_get_spec() && GI::obeys_get_spec()
    }

    open spec fn get_spec(&self) -> Output<T, E> {
        if_output(self.condition().get_spec(), self.input().get_spec())
    }

    open spec fn get_req(&self) -> bool {
        self.condition().get_req() && self.input().get_req()
    }

    fn get(&self) -> (r: Output<T, E>) {
        let condition = match self.condition.get()? {
            Some(output) => output.value,
            None => false,
        };
        if condition {
            self.input.get()
        } else {
            Ok(None)
        }
    }
}

impl<GC: Updatable<E>, GI: Updatable<E>, E> Updatable<E> for IfStream<GC, GI> {
    open spec fn update_spec(before: Self, after: Self, r: NothingOrError<E>) -> bool {
        two_updates(before.input(), after.input(), before.condition(), after.condition(), r)
    }

    open spec fn update_req(&self) -> bool {
        self.condition().update_req() && self.input().update_req()
    }

    fn update(&mut self) -> (r: NothingOrError<E>) {
        self.input.update()?;
        self.condition.update()?;
        Ok(())
    }
}

///Returns the output of one input if a `Getter<bool, _>` returns `Ok(Some(true))` and another if
///it returns `Ok(Some(false))`. Returns `Ok(None)` if the `Getter<bool, _>` does.
pub struct IfElseStream<GC, GT, GF> {
    condition: GC,
    true_output: GT,
    false_output: GF,
}

impl<GC, GT, GF> IfElseStream<GC, GT, GF> {
    ///Constructor for [`IfElseStream`].
    pub fn new(condition: GC, true_output: GT, false_output: GF) -> (r: Self)
        ensures
            r.condition() == condition,
            r.true_output() == true_output,
            r.false_output() == false_output,
    {
        IfElseStream { condition, true_output, false_output }
    }

    ///The condition getter.
    pub closed spec fn condition(self) -> GC {
        self.condition
    }

    ///The getter whose output is returned when the condition is true.
    pub closed spec fn true_output(self) -> GT {
        self.true_output
    }

    ///The getter whose output is returned when the condition is false.
    pub closed spec fn false_output(self) -> GF {
        self.false_output
    }
}

///The output of an [`IfElseStream`]: an error or `Ok(None)` from the condition as it is, and
///otherwise the output of the branch that the condition's value picks.
pub open spec fn if_else_output<T, E>(
    cond: Output<bool, E>,
    when_true: Output<T, E>,
    when_false: Output<T, E>,
) -> Output<T, E> {
    match cond {
        Err(e) => Err(e),
        Ok(None) => Ok(None),
        Ok(Some(c)) => if c.value {
            when_true
        } else {
            when_false
        },
    }
}

impl<T, GC: Getter<bool, E>, GT: Getter<T, E>, GF: Getter<T, E>, E> Getter<T, E> for IfElseStream<
    GC,
    GT,
    GF,
> {
    open spec fn obeys_get_spec() -> bool {
        GC::obeys_get_spec() && GT::obeys_get_spec() && GF::obeys_get_spec()
    }

    open spec fn get_spec(&self) -> Output<T, E> {
        if_else_output(
            self.condition().get_spec(),
            self.true_output().get_spec(),
            self.false_output().get_spec(),
        )
    }

    open spec fn get_req(&self) -> bool {
        self.condition().get_req() && self.true_output().get_req() && self.false_output().get_req()
    }

    fn get(&self) -> (r: Output<T, E>) {
        let condition = match self.condition.get()? {
            Some(output) => output.value,
            None => return Ok(None),
        };
        if condition {
            self.true_output.get()
        } else {
            self.false_output.get()
        }
    }
}

impl<GC: Updatable<E>, GT: Updatable<E>, GF: Updatable<E>, E> Updatable<E> for IfElseStream<
    GC,
    GT,
    GF,
> {
    open spec fn update_spec(before: Self, after: Self, r: NothingOrError<E>) -> bool {
        three_updates(
            before.true_output(),
            after.true_output(),
            before.false_output(),
            after.false_output(),
            before.condition(),
            after.condition(),
            r,
        )
    }

    open spec fn update_req(&self) -> bool {
        self.condition().update_req() && self.true_output().update_req()
            && self.false_output().update_req()
    }

    fn update(&mut self) -> (r: NothingOrError<E>) {
        self.true_output.update()?;
        self.false_output.update()?;
        self.condition.update()?;
        Ok(())
    }
}

///"Freezes" the output of a `Getter` (the "Input Getter") based on whether a second, boolean
///`Getter` (the "Condition Getter") is returning true.
///
///Both `Getter`s are updated regardless of whether or not the stream is frozen.
///
///- If the Condition Getter returns `Err(_)` or `Ok(None)`, that value is returned instead of that
///  of the Input Getter.
///- If the Condition Getter returns true, the last value that was being returned before the
///  Condition Getter was returning true is maintained. This is the frozen state.
///- If the Condition Getter returns false, the value of the Input Getter is returned. This is the
///  unfrozen state.
pub struct FreezeStream<T, GC, GI, E> {
    condition: GC,
    input: GI,
    freeze_value: Output<T, E>,
}

impl<T, GC, GI, E> FreezeStream<T, GC, GI, E> {
    ///Constructor for [`FreezeStream`].
    pub fn new(condition: GC, input: GI) -> (r: Self)
        ensures
            r.condition() == condition,
            r.input() == input,
            r.freeze_value() == Ok::<Option<crate::datum::Datum<T>>, E>(None),
    {
        FreezeStream { condition, input, freeze_value: Ok(None) }
    }

    ///The condition getter.
    pub closed spec fn condition(self) -> GC {
        self.condition
    }

    ///The input getter.
    pub closed spec fn input(self) -> GI {
        self.input
    }

    ///The output that is being held.
    pub closed spec fn freeze_value(self) -> Output<T, E> {
        self.freeze_value
    }
}

///The step that a [`FreezeStream`] takes once both of its inputs have been updated, given what
///the condition and the input return then and the output held before: the new output held and
///the result of the update.
pub open spec fn freeze_step<T, E>(
    cond: Output<bool, E>,
    input: Output<T, E>,
    held: Output<T, E>,
) -> (Output<T, E>, NothingOrError<E>) {
    match cond {
        Err(e) => (Err(e), Err(e)),
        Ok(None) => (Ok(None), Ok(())),
        Ok(Some(c)) => if c.value {
            (held, Ok(()))
        } else {
            match input {
                Err(e) => (Err(e), Err(e)),
                Ok(o) => (Ok(o), Ok(())),
            }
        },
    }
}

impl<T: Copy, GC: Getter<bool, E>, GI: Getter<T, E>, E: Copy> Getter<T, E> for FreezeStream<
    T,
    GC,
    GI,
    E,
> {
    open spec fn obeys_get_spec() -> bool {
        true
    }

    open spec fn get_spec(&self) -> Output<T, E> {
        self.freeze_value()
    }

    open spec fn get_req(&self) -> bool {
        true
    }

    fn get(&self) -> (r: Output<T, E>) {
        self.freeze_value
    }
}

impl<T: Copy, GC: Getter<bool, E>, GI: Getter<T, E>, E: Copy> Updatable<E> for FreezeStream<
    T,
    GC,
    GI,
    E,
> {
    open spec fn update_spec(before: Self, after: Self, r: NothingOrError<E>) -> bool {
        exists|ru: NothingOrError<E>|
            #[trigger] two_updates(
                before.input(),
                after.input(),
                before.condition(),
                after.condition(),
                ru,
            ) && match ru {
                Err(e) => r == Err::<(), E>(e) && after.freeze_value() == before.freeze_value(),
                Ok(_) => exists|c: Output<bool, E>, i: Output<T, E>|
                    #[trigger] may_get(after.condition(), c) && #[trigger] may_get(after.input(), i)
                        && (after.freeze_value(), r) == freeze_step(c, i, before.freeze_value()),
            }
    }

    open spec fn update_req(&self) -> bool {
        &&& self.condition().update_req()
        &&& self.input().update_req()
        &&& readable_after_update(self.condition())
        &&& readable_after_update(self.input())
    }

    fn update(&mut self) -> (r: NothingOrError<E>) {
        let ghost before = *self;
        let ri = self.input.update();
        if let Err(e) = ri {
            assert(two_updates(before.input(), self.input(), before.condition(), self.condition(), ri));
            return Err(e);
        }
        let rc = self.condition.update();
        assert(two_updates(before.input(), self.input(), before.condition(), self.condition(), rc));
        if let Err(e) = rc {
            return Err(e);
        }
        let ghost mut i_seen: Output<T, E> = if GI::obeys_get_spec() {
            self.input().get_spec()
        } else {
            Ok(None)
        };
        let c_seen = self.condition.get();
        assert(may_get(self.condition(), c_seen));
        assert(may_get(self.input(), i_seen));
        let condition = match c_seen {
            Err(error) => {
                self.freeze_value = Err(error);
                assert(two_updates(before.input(), self.input(), before.condition(), self.condition(), rc));
                assert(may_get(self.condition(), c_seen) && may_get(self.input(), i_seen));
                return Err(error);
            },
            Ok(None) => {
                self.freeze_value = Ok(None);
                assert(two_updates(before.input(), self.input(), before.condition(), self.condition(), rc));
                assert(may_get(self.condition(), c_seen) && may_get(self.input(), i_seen));
                return Ok(());
            },
            Ok(Some(condition)) => condition.value,
        };
        if !condition {
            let gotten = self.input.get();
            proof {
                i_seen = gotten;
            }
            self.freeze_value = gotten;
            match gotten {
                Ok(_) => {},
                Err(error) => {
                    assert(two_updates(before.input(), self.input(), before.condition(), self.condition(), rc));
                    assert(may_get(self.condition(), c_seen) && may_get(self.input(), i_seen));
                    return Err(error);
                },
            }
        }
        assert(two_updates(before.input(), self.input(), before.condition(), self.condition(), rc));
        assert(may_get(self.condition(), c_seen) && may_get(self.input(), i_seen));
        Ok(())
    }
}

} // verus!

//!Streams that convert from one type to another. Some of these also do keep the same type and are
//!for convenience in certain situations, for example when you do not want to handle a [`None`]
//!variant yourself.
use vstd::prelude::*;
use core::marker::PhantomData;
use crate::compile_time_dimensions::Quantity;
use crate::compile_time_integer::Integer;
use crate::datum::{Datum, Output};
use crate::error::{NothingOrError, PossibleDoubleError};
use crate::interfaces::{Getter, TimeGetter, Updatable};
use crate::streams::two_updates;
use vstd::std_specs::convert::IntoSpec;

verus! {

///A stream converting all `Ok(None)` values from its input to `Err(_)` variants.
pub struct NoneToError<T, G, E> {
    input: G,
    from_none: E,
    phantom_t: PhantomData<T>,
}

impl<T, G, E> NoneToError<T, G, E> {
    ///Constructor for [`NoneToError`].
    pub fn new(input: G, from_none: E) -> (r: Self)
        ensures
            r.input() == input,
            r.from_none() == from_none,
    {
        NoneToError { input, from_none, phantom_t: PhantomData }
    }

    ///The input getter.
    pub closed spec fn input(self) -> G {
        self.input
    }

    ///The error returned in place of `Ok(None)`.
    pub closed spec fn from_none(self) -> E {
        self.from_none
    }
}

impl<T, G: Getter<T, E>, E: Copy> Getter<T, E> for NoneToError<T, G, E> {
    open spec fn obeys_get_spec() -> bool {
        G::obeys_get_spec()
    }

    open spec fn get_spec(&self) -> Output<T, E> {
        match self.input().get_spec() {
            Ok(None) => Err(self.from_none()),
            other => other,
        }
    }

    open spec fn get_req(&self) -> bool {
        self.input().get_req()
    }

    fn get(&self) -> (r: Output<T, E>) {
        let output = self.input.get()?;
        match output {
            Some(_) => Ok(output),
            None => Err(self.from_none),
        }
    }
}

impl<T, G: Getter<T, E>, E: Copy> Updatable<E> for NoneToError<T, G, E> {
    open spec fn update_spec(before: Self, after: Self, r: NothingOrError<E>) -> bool {
        &&& G::update_spec(before.input(), after.input(), r)
        &&& after.from_none() == before.from_none()
    }

    open spec fn update_req(&self) -> bool {
        self.input().update_req()
    }

    fn update(&mut self) -> (r: NothingOrError<E>) {
        self.input.update()?;
        Ok(())
    }
}

///A stream converting all `Ok(None)` values from its input to a default `Ok(Some(_))` value,
///timestamped with the time from a [`TimeGetter`].
pub struct NoneToValue<T, G, TG, E> {
    input: G,
    time_getter: TG,
    none_value: T,
    phantom_e: PhantomData<E>,
}

impl<T, G, TG, E> NoneToValue<T, G, TG, E> {
    ///Constructor for [`NoneToValue`].
    pub fn new(input: G, time_getter: TG, none_value: T) -> (r: Self)
        ensures
            r.input() == input,
            r.time_getter() == time_getter,
            r.none_value() == none_value,
    {
        NoneToValue { input, time_getter, none_value, phantom_e: PhantomData }
    }

    ///The input getter.
    pub closed spec fn input(self) -> G {
        self.input
    }

    ///The time getter.
    pub closed spec fn time_getter(self) -> TG {
        self.time_getter
    }

    ///The value returned in place of `Ok(None)`.
    pub closed spec fn none_value(self) -> T {
        self.none_value
    }
}

///The output of the input as it is unless it is `Ok(None)`; then `value`, timestamped with the
///time that `time` holds, or the error that it holds.
pub open spec fn fill_none<T, E>(input: Output<T, E>, time: Result<crate::dimensions::Time, E>, value: T) -> Output<
    T,
    E,
> {
    match input {
        Ok(None) => match time {
            Ok(t) => Ok(Some(Datum { time: t, value })),
            Err(e) => Err(e),
        },
        other => other,
    }
}

impl<T: Copy, G: Getter<T, E>, TG: TimeGetter<E>, E> Getter<T, E> for NoneToValue<T, G, TG, E> {
    open spec fn obeys_get_spec() -> bool {
        G::obeys_get_spec() && TG::obeys_time_get_spec()
    }

    open spec fn get_spec(&self) -> Output<T, E> {
        fill_none(self.input().get_spec(), self.time_getter().time_get_spec(), self.none_value())
    }

    open spec fn get_req(&self) -> bool {
        self.input().get_req() && self.time_getter().time_get_req()
    }

    fn get(&self) -> (r: Output<T, E>) {
        let output = self.input.get()?;
        match output {
            Some(_) => Ok(output),
            None => Ok(Some(Datum::new(self.time_getter.get()?, self.none_value))),
        }
    }
}

impl<T: Copy, G: Getter<T, E>, TG: TimeGetter<E>, E> Updatable<E> for NoneToValue<T, G, TG, E> {
    open spec fn update_spec(before: Self, after: Self, r: NothingOrError<E>) -> bool {
        &&& two_updates(before.time_getter(), after.time_getter(), before.input(), after.input(), r)
        &&& after.none_value() == before.none_value()
    }

    open spec fn update_req(&self) -> bool {
        self.input().update_req() && self.time_getter().update_req()
    }

    fn update(&mut self) -> (r: NothingOrError<E>) {
        self.time_getter.update()?;
        self.input.update()?;
        Ok(())
    }
}

///Converts all `Ok(None)` values to `Ok(Some(T::default()))`, timestamped with the time from a
///[`TimeGetter`]. Errors from the input are reported as [`PossibleDoubleError::A`] and errors from
///the time getter as [`PossibleDoubleError::B`]. The default value is made once, by the
///constructor. An update updates the time getter and then, if that succeeds, the input, stopping
///at the first error.
pub struct NoneToDefault<T, G, TG, E> {
    input: G,
    time_getter: TG,
    default_value: T,
    phantom_e: PhantomData<E>,
}

impl<T: Default, G, TG, E> NoneToDefault<T, G, TG, E> {
    ///Constructor for `NoneToDefault`.
    pub fn new(input: G, time_getter: TG) -> (r: Self)
        ensures
            r.input() == input,
            r.time_getter() == time_getter,
            call_ensures(T::default, (), r.default_value()),
    {
        NoneToDefault { input, time_getter, default_value: T::default(), phantom_e: PhantomData }
    }
}

impl<T, G, TG, E> NoneToDefault<T, G, TG, E> {
    ///The input getter.
    pub closed spec fn input(self) -> G {
        self.input
    }

    ///The time getter.
    pub closed spec fn time_getter(self) -> TG {
        self.time_getter
    }

    ///The value returned in place of `Ok(None)`: what `T::default()` returned to the constructor.
    pub closed spec fn default_value(self) -> T {
        self.default_value
    }
}

///[`fill_none`] with the errors of the input marked `A` and those of the time marked `B`.
pub open spec fn fill_none_double<T, E>(
    input: Output<T, E>,
    time: Result<crate::dimensions::Time, E>,
    value: T,
) -> Output<T, PossibleDoubleError<E>> {
    match input {
        Err(e) => Err(PossibleDoubleError::A(e)),
        Ok(Some(d)) => Ok(Some(d)),
        Ok(None) => match time {
            Ok(t) => Ok(Some(Datum { time: t, value })),
            Err(e) => Err(PossibleDoubleError::B(e)),
        },
    }
}

///Updating the time getter from `t0` to `t1` and then, if that succeeds, the input from `i0` to
///`i1`, stopping at the first error: an error of the time getter is marked `B` and leaves the
///input as it was, and one of the input is marked `A`.
pub open spec fn time_then_input_updates<I: Updatable<E>, TG: Updatable<E>, E>(
    t0: TG,
    t1: TG,
    i0: I,
    i1: I,
    r: NothingOrError<PossibleDoubleError<E>>,
) -> bool {
    exists|rt: NothingOrError<E>|
        #[trigger] TG::update_spec(t0, t1, rt) && match rt {
            Err(e) => r == Err::<(), PossibleDoubleError<E>>(PossibleDoubleError::B(e)) && i1 == i0,
            Ok(_) => exists|ri: NothingOrError<E>|
                #[trigger] I::update_spec(i0, i1, ri) && r == match ri {
                    Err(e) => Err::<(), PossibleDoubleError<E>>(PossibleDoubleError::A(e)),
                    Ok(_) => Ok::<(), PossibleDoubleError<E>>(()),
                },
        }
}

impl<T: Copy + Default, G: Getter<T, E>, TG: TimeGetter<E>, E> Getter<T, PossibleDoubleError<E>> for NoneToDefault<
    T,
    G,
    TG,
    E,
> {
    open spec fn obeys_get_spec() -> bool {
        G::obeys_get_spec() && TG::obeys_time_get_spec()
    }

    open spec fn get_spec(&self) -> Output<T, PossibleDoubleError<E>> {
        fill_none_double(
            self.input().get_spec(),
            self.time_getter().time_get_spec(),
            self.default_value(),
        )
    }

    open spec fn get_req(&self) -> bool {
        self.input().get_req() && self.time_getter().time_get_req()
    }

    fn get(&self) -> (r: Output<T, PossibleDoubleError<E>>) {
        match self.input.get() {
            Err(e) => Err(PossibleDoubleError::A(e)),
            Ok(Some(datum)) => Ok(Some(datum)),
            Ok(None) => match self.time_getter.get() {
                Ok(time) => Ok(Some(Datum::new(time, self.default_value))),
                Err(e) => Err(PossibleDoubleError::B(e)),
            },
        }
    }
}

impl<T: Copy + Default, G: Getter<T, E>, TG: TimeGetter<E>, E> Updatable<PossibleDoubleError<E>> for NoneToDefault<
    T,
    G,
    TG,
    E,
> {
    open spec fn update_spec(
        before: Self,
        after: Self,
        r: NothingOrError<PossibleDoubleError<E>>,
    ) -> bool {
        &&& time_then_input_updates(
            before.time_getter(),
            after.time_getter(),
            before.input(),
            after.input(),
            r,
        )
        &&& after.default_value() == before.default_value()
    }

    open spec fn update_req(&self) -> bool {
        self.input().update_req() && self.time_getter().update_req()
    }

    fn update(&mut self) -> (r: NothingOrError<PossibleDoubleError<E>>) {
        let rt = self.time_getter.update();
        assert(TG::update_spec(old(self).time_getter(), self.time_getter(), rt));
        if let Err(e) = rt {
            return Err(PossibleDoubleError::B(e));
        }
        let ri = self.input.update();
        assert(G::update_spec(old(self).input(), self.input(), ri));
        match ri {
            Err(e) => Err(PossibleDoubleError::A(e)),
            Ok(()) => Ok(()),
        }
    }
}

///The output with the value inside a datum converted through `Into`.
pub open spec fn into_output<TI: Into<TO>, TO, E>(o: Output<TI, E>) -> Output<TO, E> {
    match o {
        Err(e) => Err(e),
        Ok(None) => Ok(None),
        Ok(Some(d)) => Ok(Some(Datum { time: d.time, value: d.value.into_spec() })),
    }
}

///Converts the output of a getter to another type through [`Into`]. Leaves the timestamp the same
///and passes through `Err(_)` and `Ok(None)` identically.
pub struct IntoConverter<TI, G, E> {
    input: G,
    phantom_ti: PhantomData<TI>,
    phantom_e: PhantomData<E>,
}

impl<TI, G, E> IntoConverter<TI, G, E> {
    ///Constructor for `IntoConverter`.
    pub fn new(input: G) -> (r: Self)
        ensures
            r.input() == input,
    {
        IntoConverter { input, phantom_ti: PhantomData, phantom_e: PhantomData }
    }

    ///The input getter.
    pub closed spec fn input(self) -> G {
        self.input
    }
}

impl<TI: Into<TO>, TO, G: Getter<TI, E>, E> Getter<TO, E> for IntoConverter<TI, G, E> {
    open spec fn obeys_get_spec() -> bool {
        G::obeys_get_spec()
    }

    open spec fn get_spec(&self) -> Output<TO, E> {
        into_output(self.input().get_spec())
    }

    open spec fn get_req(&self) -> bool {
        self.input().get_req() && <TI as IntoSpec<TO>>::obeys_into_spec()
    }

    fn get(&self) -> (r: Output<TO, E>) {
        match self.input.get()? {
            None => Ok(None),
            Some(datum) => Ok(Some(Datum::new(datum.time, datum.value.into()))),
        }
    }
}

impl<TI, G: Updatable<E>, E> Updatable<E> for IntoConverter<TI, G, E> {
    open spec fn update_spec(before: Self, after: Self, r: NothingOrError<E>) -> bool {
        G::update_spec(before.input(), after.input(), r)
    }

    open spec fn update_req(&self) -> bool {
        self.input().update_req()
    }

    fn update(&mut self) -> (r: NothingOrError<E>) {
        self.input.update()?;
        Ok(())
    }
}

///A result with its error converted through `Into`.
pub open spec fn error_into<V, EI: Into<EO>, EO>(o: Result<V, EI>) -> Result<V, EO> {
    match o {
        Ok(v) => Ok(v),
        Err(e) => Err(e.into_spec()),
    }
}

///Converts errors returned by a getter to another type through [`Into`]. Leaves `Ok` values
///unchanged.
pub struct ErrorIntoConverter<T, G, EI> {
    input: G,
    phantom_t: PhantomData<T>,
    phantom_ei: PhantomData<EI>,
}

impl<T, G, EI> ErrorIntoConverter<T, G, EI> {
    ///Constructor for `ErrorIntoConverter`.
    pub fn new(input: G) -> (r: Self)
        ensures
            r.input() == input,
    {
        ErrorIntoConverter { input, phantom_t: PhantomData, phantom_ei: PhantomData }
    }

    ///The input getter.
    pub closed spec fn input(self) -> G {
        self.input
    }
}

impl<T, G: Getter<T, EI>, EI: Into<EO>, EO> Getter<T, EO> for ErrorIntoConverter<T, G, EI> {
    open spec fn obeys_get_spec() -> bool {
        G::obeys_get_spec()
    }

    open spec fn get_spec(&self) -> Output<T, EO> {
        error_into(self.input().get_spec())
    }

    open spec fn get_req(&self) -> bool {
        self.input().get_req() && <EI as IntoSpec<EO>>::obeys_into_spec()
    }

    fn get(&self) -> (r: Output<T, EO>) {
        match self.input.get() {
            Ok(output) => Ok(output),
            Err(error) => Err(error.into()),
        }
    }
}

impl<T, G: Updatable<EI>, EI: Into<EO>, EO> Updatable<EO> for ErrorIntoConverter<T, G, EI> {
    open spec fn update_spec(before: Self, after: Self, r: NothingOrError<EO>) -> bool {
        exists|ri: NothingOrError<EI>|
            #[trigger] G::update_spec(before.input(), after.input(), ri) && r == error_into(ri)
    }

    open spec fn update_req(&self) -> bool {
        self.input().update_req() && <EI as IntoSpec<EO>>::obeys_into_spec()
    }

    fn update(&mut self) -> (r: NothingOrError<EO>) {
        let ri = self.input.update();
        assert(G::update_spec(old(self).input(), self.input(), ri));
        match ri {
            Ok(()) => Ok(()),
            Err(error) => Err(error.into()),
        }
    }
}

///A result whose [`PossibleDoubleError`] is reduced to one error, preferring `A` (`prefer_a`) or
///`B`.
pub open spec fn prioritized<V, E>(o: Result<V, PossibleDoubleError<E>>, prefer_a: bool) -> Result<
    V,
    E,
> {
    match o {
        Ok(v) => Ok(v),
        Err(PossibleDoubleError::A(a)) => Err(a),
        Err(PossibleDoubleError::B(b)) => Err(b),
        Err(PossibleDoubleError::AB(a, b)) => Err(
            if prefer_a {
                a
            } else {
                b
            },
        ),
    }
}

///Reduces the [`PossibleDoubleError`]s of a getter to single errors, keeping `A` where both are
///present.
pub struct PrioritizeA<G> {
    input: G,
}

impl<G> PrioritizeA<G> {
    ///Constructor for `PrioritizeA`.
    pub fn new(input: G) -> (r: Self)
        ensures
            r.input() == input,
    {
        PrioritizeA { input }
    }

    ///The input getter.
    pub closed spec fn input(self) -> G {
        self.input
    }
}

impl<T, G: Getter<T, PossibleDoubleError<E>>, E> Getter<T, E> for PrioritizeA<G> {
    open spec fn obeys_get_spec() -> bool {
        G::obeys_get_spec()
    }

    open spec fn get_spec(&self) -> Output<T, E> {
        prioritized(self.input().get_spec(), true)
    }

    open spec fn get_req(&self) -> bool {
        self.input().get_req()
    }

    fn get(&self) -> (r: Output<T, E>) {
        match self.input.get() {
            Ok(output) => Ok(output),
            Err(error) => Err(error.prioritize_a()),
        }
    }
}

impl<G: Updatable<PossibleDoubleError<E>>, E> Updatable<E> for PrioritizeA<G> {
    open spec fn update_spec(before: Self, after: Self, r: NothingOrError<E>) -> bool {
        exists|ri: NothingOrError<PossibleDoubleError<E>>|
            #[trigger] G::update_spec(before.input(), after.input(), ri) && r == prioritized(
                ri,
                true,
            )
    }

    open spec fn update_req(&self) -> bool {
        self.input().update_req()
    }

    fn update(&mut self) -> (r: NothingOrError<E>) {
        let ri = self.input.update();
        assert(G::update_spec(old(self).input(), self.input(), ri));
        match ri {
            Ok(()) => Ok(()),
            Err(error) => Err(error.prioritize_a()),
        }
    }
}

///Reduces the [`PossibleDoubleError`]s of a getter to single errors, keeping `B` where both are
///present.
pub struct PrioritizeB<G> {
    input: G,
}

impl<G> PrioritizeB<G> {
    ///Constructor for `PrioritizeB`.
    pub fn new(input: G) -> (r: Self)
        ensures
            r.input() == input,
    {
        PrioritizeB { input }
    }

    ///The input getter.
    pub closed spec fn input(self) -> G {
        self.input
    }
}

impl<T, G: Getter<T, PossibleDoubleError<E>>, E> Getter<T, E> for PrioritizeB<G> {
    open spec fn obeys_get_spec() -> bool {
        G::obeys_get_spec()
    }

    open spec fn get_spec(&self) -> Output<T, E> {
        prioritized(self.input().get_spec(), false)
    }

    open spec fn get_req(&self) -> bool {
        self.input().get_req()
    }

    fn get(&self) -> (r: Output<T, E>) {
        match self.input.get() {
            Ok(output) => Ok(output),
            Err(error) => Err(error.prioritize_b()),
        }
    }
}

impl<G: Updatable<PossibleDoubleError<E>>, E> Updatable<E> for PrioritizeB<G> {
    open spec fn update_spec(before: Self, after: Self, r: NothingOrError<E>) -> bool {
        exists|ri: NothingOrError<PossibleDoubleError<E>>|
            #[trigger] G::update_spec(before.input(), after.input(), ri) && r == prioritized(
                ri,
                false,
            )
    }

    open spec fn update_req(&self) -> bool {
        self.input().update_req()
    }

    fn update(&mut self) -> (r: NothingOrError<E>) {
        let ri = self.input.update();
        assert(G::update_spec(old(self).input(), self.input(), ri));
        match ri {
            Ok(()) => Ok(()),
            Err(error) => Err(error.prioritize_b()),
        }
    }
}

///Adds a compile-time [`Quantity`] wrapper with a specific unit around a number.
pub struct DimensionAdder<T, MM, S, G, E> {
    input: G,
    phantom_t: PhantomData<T>,
    phantom_mm: PhantomData<MM>,
    phantom_s: PhantomData<S>,
    phantom_e: PhantomData<E>,
}

impl<T, MM, S, G, E> DimensionAdder<T, MM, S, G, E> {
    ///Constructor for `DimensionAdder`.
    pub fn new(input: G) -> (r: Self)
        ensures
            r.input() == input,
    {
        DimensionAdder {
            input,
            phantom_t: PhantomData,
            phantom_mm: PhantomData,
            phantom_s: PhantomData,
            phantom_e: PhantomData,
        }
    }

    ///The input getter.
    pub closed spec fn input(self) -> G {
        self.input
    }
}

impl<T, MM: Integer, S: Integer, G: Getter<T, E>, E> Getter<Quantity<T, MM, S>, E> for DimensionAdder<T, MM, S, G, E> {
    open spec fn obeys_get_spec() -> bool {
        G::obeys_get_spec()
    }

    open spec fn get_spec(&self) -> Output<Quantity<T, MM, S>, E> {
        match self.input().get_spec() {
            Err(e) => Err(e),
            Ok(None) => Ok(None),
            Ok(Some(d)) => Ok(Some(Datum { time: d.time, value: Quantity::spec_new(d.value) })),
        }
    }

    open spec fn get_req(&self) -> bool {
        self.input().get_req()
    }

    fn get(&self) -> (r: Output<Quantity<T, MM, S>, E>) {
        match self.input.get()? {
            None => Ok(None),
            Some(x) => Ok(Some(Datum::new(x.time, Quantity::new(x.value)))),
        }
    }
}

impl<T, MM, S, G: Updatable<E>, E> Updatable<E> for DimensionAdder<T, MM, S, G, E> {
    open spec fn update_spec(before: Self, after: Self, r: NothingOrError<E>) -> bool {
        G::update_spec(before.input(), after.input(), r)
    }

    open spec fn update_req(&self) -> bool {
        self.input().update_req()
    }

    fn update(&mut self) -> (r: NothingOrError<E>) {
        self.input.update()?;
        Ok(())
    }
}

///Gets the inner number from the output of a getter returning compile-time [`Quantity`].
pub struct DimensionRemover<T, MM, S, G, E> {
    input: G,
    phantom_t: PhantomData<T>,
    phantom_mm: PhantomData<MM>,
    phantom_s: PhantomData<S>,
    phantom_e: PhantomData<E>,
}

impl<T, MM, S, G, E> DimensionRemover<T, MM, S, G, E> {
    ///Constructor for `DimensionRemover`.
    pub fn new(input: G) -> (r: Self)
        ensures
            r.input() == input,
    {
        DimensionRemover {
            input,
            phantom_t: PhantomData,
            phantom_mm: PhantomData,
            phantom_s: PhantomData,
            phantom_e: PhantomData,
        }
    }

    ///The input getter.
    pub closed spec fn input(self) -> G {
        self.input
    }
}

impl<T, MM: Integer, S: Integer, G: Getter<Quantity<T, MM, S>, E>, E> Getter<T, E> for DimensionRemover<
    T,
    MM,
    S,
    G,
    E,
> {
    open spec fn obeys_get_spec() -> bool {
        G::obeys_get_spec()
    }

    open spec fn get_spec(&self) -> Output<T, E> {
        match self.input().get_spec() {
            Err(e) => Err(e),
            Ok(None) => Ok(None),
            Ok(Some(d)) => Ok(Some(Datum { time: d.time, value: d.value.inner() })),
        }
    }

    open spec fn get_req(&self) -> bool {
        self.input().get_req()
    }

    fn get(&self) -> (r: Output<T, E>) {
        match self.input.get()? {
            None => Ok(None),
            Some(x) => Ok(Some(Datum::new(x.time, x.value.into_inner()))),
        }
    }
}

impl<T, MM, S, G: Updatable<E>, E> Updatable<E> for DimensionRemover<T, MM, S, G, E> {
    open spec fn update_spec(before: Self, after: Self, r: NothingOrError<E>) -> bool {
        G::update_spec(before.input(), after.input(), r)
    }

    open spec fn update_req(&self) -> bool {
        self.input().update_req()
    }

    fn update(&mut self) -> (r: NothingOrError<E>) {
        self.input.update()?;
        Ok(())
    }
}

} // verus!

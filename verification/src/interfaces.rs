//!The traits that everything in the stream system is built on, and the simplest implementors of
//!them.
//!
//!A [`Getter`]'s output is a function of its state, named by [`Getter::get_spec`]. An
//![`Updatable`]'s update is a relation between the state before, the state after and the result,
//!named by [`Updatable::update_spec`]; it may be nondeterministic, since updates are where
//!hardware is sampled. A [`Settable`]'s `set` is such a relation too. Each trait also names a
//!requirement on the object's current state (such as the arithmetic that it performs on the
//!values its inputs return not overflowing), which a call needs.
//!
//!These spec functions have default bodies, so that implementors written outside verified code,
//!such as hardware drivers, need not mention them. What `get` returns is tied to its spec
//!function only for types that say they obey it (`obeys_get_spec` and its like), which defaults
//!to `false`: of a getter written outside verified code nothing is known of what it returns, and
//!a stream built on it promises its own output only as far as its inputs obey theirs. Every
//!implementor in this library obeys its spec functions whenever its inputs obey theirs.
use vstd::prelude::*;
use core::marker::PhantomData;
use crate::datum::{Datum, Output};
use crate::dimensions::{fits_i64, Time};
use crate::error::{
    double_error_from, error_of, nothing_or_error_from, NothingOrError, PossibleDoubleError,
};

verus! {

///Returned from [`TimeGetter`] objects, which may return either a time or an error.
pub type TimeOutput<E> = Result<Time, E>;

///Something with an [`update`](Updatable::update) method.
pub trait Updatable<E>: Sized {
    ///Whether an update that started in `before`, ended in `after` and returned `r` is one that
    ///the implementor can make.
    open spec fn update_spec(before: Self, after: Self, r: NothingOrError<E>) -> bool {
        true
    }

    ///What a call of `update` needs of the object's current state.
    open spec fn update_req(&self) -> bool {
        true
    }

    ///Updates the object; exactly what this does depends on the implementor.
    fn update(&mut self) -> (r: NothingOrError<E>)
        requires
            old(self).update_req(),
        ensures
            Self::update_spec(*old(self), *final(self), r),
    ;
}

///Something with a [`get`](Getter::get) method. Data processing getters holding other getters
///are called streams.
pub trait Getter<G, E>: Updatable<E> {
    ///Whether `get` returns [`get_spec`](Getter::get_spec). Implementors outside verified code
    ///keep the default `false`.
    open spec fn obeys_get_spec() -> bool {
        false
    }

    ///What `get` returns in the current state, for a type that obeys it.
    open spec fn get_spec(&self) -> Output<G, E> {
        arbitrary()
    }

    ///What a call of `get` needs of the current state.
    open spec fn get_req(&self) -> bool {
        true
    }

    ///Get something.
    fn get(&self) -> (r: Output<G, E>)
        requires
            self.get_req(),
        ensures
            Self::obeys_get_spec() ==> r == self.get_spec(),
    ;
}

///An object for getting the absolute time.
pub trait TimeGetter<E>: Updatable<E> {
    ///Whether `get` returns [`time_get_spec`](TimeGetter::time_get_spec). Implementors outside
    ///verified code keep the default `false`.
    open spec fn obeys_time_get_spec() -> bool {
        false
    }

    ///What `get` returns in the current state, for a type that obeys it.
    open spec fn time_get_spec(&self) -> TimeOutput<E> {
        arbitrary()
    }

    ///What a call of `get` needs of the current state.
    open spec fn time_get_req(&self) -> bool {
        true
    }

    ///Get the time.
    fn get(&self) -> (r: TimeOutput<E>)
        requires
            self.time_get_req(),
        ensures
            Self::obeys_time_get_spec() ==> r == self.time_get_spec(),
    ;
}

///Something with a [`set`](Settable::set) method, usually a motor or another mechanical
///component.
pub trait Settable<S, E>: Updatable<E> {
    ///Whether setting `value` from `before`, ending in `after` and returning `r`, is something
    ///the implementor can do.
    open spec fn set_spec(before: Self, after: Self, value: S, r: NothingOrError<E>) -> bool {
        true
    }

    ///What a call of `set` with `value` needs of the current state.
    open spec fn set_req(&self, value: S) -> bool {
        true
    }

    ///Set something to a value. For example, this could set a motor to a voltage.
    fn set(&mut self, value: S) -> (r: NothingOrError<E>)
        requires
            old(self).set_req(value),
        ensures
            Self::set_spec(*old(self), *final(self), value, r),
    ;
}

///A mechanical device that owns terminals, the places where it connects to other devices.
pub trait Device<E>: Updatable<E> {
    ///Call only the `update` methods of owned terminals and do not update anything else with the
    ///device.
    fn update_terminals(&mut self) -> NothingOrError<E>;
}

///`o` is an output that `g` may return: the one its spec function names, if its type obeys it,
///and any output otherwise.
pub open spec fn may_get<T, G: Getter<T, E>, E>(g: G, o: Output<T, E>) -> bool {
    G::obeys_get_spec() ==> o == g.get_spec()
}

///After any successful update from `g`, the getter can be read.
pub open spec fn readable_after_update<T, G: Getter<T, E>, E>(g: G) -> bool {
    forall|g1: G, r: NothingOrError<E>|
        #[trigger] G::update_spec(g, g1, r) && r is Ok ==> g1.get_req()
}

///An object that can return a value, like a [`Getter`], for a given time.
pub trait Chronology<T> {
    ///Whether `get` returns [`chronology_get_spec`](Chronology::chronology_get_spec).
    ///Implementors outside verified code keep the default `false`.
    open spec fn obeys_chronology_get_spec() -> bool {
        false
    }

    ///What `get` returns for `time`, for a type that obeys it.
    open spec fn chronology_get_spec(&self, time: Time) -> Option<Datum<T>> {
        arbitrary()
    }

    ///Get a value at a time.
    fn get(&self, time: Time) -> (r: Option<Datum<T>>)
        ensures
            Self::obeys_chronology_get_spec() ==> r == self.chronology_get_spec(time),
    ;
}

///Getter always returning `Ok(None)`.
#[derive(Clone, Copy, Debug, Default)]
pub struct NoneGetter;

impl NoneGetter {
    ///Constructor for [`NoneGetter`].
    pub fn new() -> (r: Self) {
        NoneGetter
    }
}

impl<T, E> Getter<T, E> for NoneGetter {
    open spec fn obeys_get_spec() -> bool {
        true
    }

    open spec fn get_spec(&self) -> Output<T, E> {
        Ok(None)
    }

    open spec fn get_req(&self) -> bool {
        true
    }

    fn get(&self) -> (r: Output<T, E>) {
        Ok(None)
    }
}

impl<E> Updatable<E> for NoneGetter {
    open spec fn update_spec(before: Self, after: Self, r: NothingOrError<E>) -> bool {
        r == Ok::<(), E>(())
    }

    open spec fn update_req(&self) -> bool {
        true
    }

    fn update(&mut self) -> (r: NothingOrError<E>) {
        Ok(())
    }
}

impl<E> TimeGetter<E> for Time {
    open spec fn obeys_time_get_spec() -> bool {
        true
    }

    open spec fn time_get_spec(&self) -> TimeOutput<E> {
        Ok(*self)
    }

    open spec fn time_get_req(&self) -> bool {
        true
    }

    fn get(&self) -> (r: TimeOutput<E>) {
        Ok(*self)
    }
}

impl<E> Updatable<E> for Time {
    open spec fn update_spec(before: Self, after: Self, r: NothingOrError<E>) -> bool {
        after == before && r == Ok::<(), E>(())
    }

    open spec fn update_req(&self) -> bool {
        true
    }

    fn update(&mut self) -> (r: NothingOrError<E>) {
        Ok(())
    }
}

///Getter for returning a constant value, timestamped with the time from a [`TimeGetter`].
pub struct ConstantGetter<T, TG, E> {
    time_getter: TG,
    value: T,
    phantom_e: PhantomData<E>,
}

impl<T, TG, E> ConstantGetter<T, TG, E> {
    ///Constructor for [`ConstantGetter`].
    pub fn new(time_getter: TG, value: T) -> (r: Self)
        ensures
            r.time_getter() == time_getter,
            r.value() == value,
    {
        ConstantGetter { time_getter, value, phantom_e: PhantomData }
    }

    ///The time getter.
    pub closed spec fn time_getter(self) -> TG {
        self.time_getter
    }

    ///The constant value.
    pub closed spec fn value(self) -> T {
        self.value
    }
}

impl<T: Copy, TG: TimeGetter<E>, E> Getter<T, E> for ConstantGetter<T, TG, E> {
    open spec fn obeys_get_spec() -> bool {
        TG::obeys_time_get_spec()
    }

    open spec fn get_spec(&self) -> Output<T, E> {
        match self.time_getter().time_get_spec() {
            Err(e) => Err(e),
            Ok(time) => Ok(Some(Datum { time, value: self.value() })),
        }
    }

    open spec fn get_req(&self) -> bool {
        self.time_getter().time_get_req()
    }

    fn get(&self) -> (r: Output<T, E>) {
        let time = self.time_getter.get()?;
        Ok(Some(Datum::new(time, self.value)))
    }
}

impl<T: Copy, TG: TimeGetter<E>, E> Settable<T, E> for ConstantGetter<T, TG, E> {
    open spec fn set_spec(before: Self, after: Self, value: T, r: NothingOrError<E>) -> bool {
        &&& after.value() == value
        &&& after.time_getter() == before.time_getter()
        &&& r == Ok::<(), E>(())
    }

    open spec fn set_req(&self, value: T) -> bool {
        true
    }

    fn set(&mut self, value: T) -> (r: NothingOrError<E>) {
        self.value = value;
        Ok(())
    }
}

impl<T: Copy, TG: TimeGetter<E>, E> Updatable<E> for ConstantGetter<T, TG, E> {
    open spec fn update_spec(before: Self, after: Self, r: NothingOrError<E>) -> bool {
        &&& TG::update_spec(before.time_getter(), after.time_getter(), r)
        &&& after.value() == before.value()
    }

    open spec fn update_req(&self) -> bool {
        self.time_getter().update_req()
    }

    fn update(&mut self) -> (r: NothingOrError<E>) {
        self.time_getter.update()?;
        Ok(())
    }
}

///Feeds the output of a [`Getter`] into a [`Settable`]. An update updates the getter and, if that
///succeeds, gets its output and sets the settable to the value of a datum that it holds; then the
///settable is updated. A failure of the getter (its update or its get) is reported as
///[`PossibleDoubleError::A`] and does not stop the settable's update, whose failure is reported as
///[`PossibleDoubleError::B`]; a failure of `set` is reported as `B` at once and the settable is not
///updated.
pub struct Feeder<T, G, S, E> {
    getter: G,
    settable: S,
    phantom_t: PhantomData<T>,
    phantom_e: PhantomData<E>,
}

impl<T, G, S, E> Feeder<T, G, S, E> {
    ///Constructor for `Feeder`.
    pub fn new(getter: G, settable: S) -> (r: Self)
        ensures
            r.getter() == getter,
            r.settable() == settable,
    {
        Feeder { getter, settable, phantom_t: PhantomData, phantom_e: PhantomData }
    }

    ///The getter whose output is fed.
    pub closed spec fn getter(self) -> G {
        self.getter
    }

    ///The settable that is fed.
    pub closed spec fn settable(self) -> S {
        self.settable
    }
}

///Updating the settable from `s0` to `s1` after the getter's part ended with `getter_error`, with
///`r` as the result of the whole update.
pub open spec fn settle<T, S: Settable<T, E>, E>(
    s0: S,
    s1: S,
    getter_error: Option<E>,
    r: NothingOrError<PossibleDoubleError<E>>,
) -> bool {
    exists|rs: NothingOrError<E>|
        #[trigger] S::update_spec(s0, s1, rs) && r == nothing_or_error_from(
            double_error_from(getter_error, error_of(rs)),
        )
}

///The settable's part of a [`Feeder`]'s update, from `s0` to `s1`, when the getter gave a datum
///holding `value`: setting `value` and, if that succeeds, updating.
pub open spec fn feed<T, S: Settable<T, E>, E>(
    s0: S,
    s1: S,
    value: T,
    r: NothingOrError<PossibleDoubleError<E>>,
) -> bool {
    exists|mid: S, rset: NothingOrError<E>|
        #[trigger] S::set_spec(s0, mid, value, rset) && match rset {
            Err(e) => r == Err::<(), PossibleDoubleError<E>>(PossibleDoubleError::B(e)) && s1 == mid,
            Ok(_) => settle(mid, s1, None, r),
        }
}

///The settable can be set to `value`, and after a successful set it can be updated.
pub open spec fn feedable<T, S: Settable<T, E>, E>(s0: S, value: T) -> bool {
    &&& s0.set_req(value)
    &&& forall|mid: S, rset: NothingOrError<E>|
        #[trigger] S::set_spec(s0, mid, value, rset) && rset is Ok ==> mid.update_req()
}

impl<T, G: Getter<T, E>, S: Settable<T, E>, E> Updatable<PossibleDoubleError<E>> for Feeder<
    T,
    G,
    S,
    E,
> {
    open spec fn update_spec(
        before: Self,
        after: Self,
        r: NothingOrError<PossibleDoubleError<E>>,
    ) -> bool {
        exists|rg: NothingOrError<E>|
            #[trigger] G::update_spec(before.getter(), after.getter(), rg) && match rg {
                Err(e) => settle(before.settable(), after.settable(), Some(e), r),
                Ok(_) => exists|o: Output<T, E>|
                    #[trigger] may_get(after.getter(), o) && match o {
                        Err(e) => settle(before.settable(), after.settable(), Some(e), r),
                        Ok(None) => settle(before.settable(), after.settable(), None, r),
                        Ok(Some(d)) => feed(before.settable(), after.settable(), d.value, r),
                    },
            }
    }

    ///The getter can be updated; after a successful update it can be read, and the settable can
    ///be set to the value read and then updated; the settable can also be updated as it is.
    open spec fn update_req(&self) -> bool {
        &&& self.getter().update_req()
        &&& self.settable().update_req()
        &&& forall|g1: G, rg: NothingOrError<E>|
            #[trigger] G::update_spec(self.getter(), g1, rg) && rg is Ok ==> {
                &&& g1.get_req()
                &&& forall|o: Output<T, E>|
                    #[trigger] may_get(g1, o) && o is Ok && o->Ok_0 is Some ==> feedable(
                        self.settable(),
                        o->Ok_0->Some_0.value,
                    )
            }
    }

    fn update(&mut self) -> (r: NothingOrError<PossibleDoubleError<E>>) {
        let ghost s0 = self.settable();
        let rg = self.getter.update();
        assert(G::update_spec(old(self).getter(), self.getter(), rg));
        let ghost mut seen: Output<T, E> = Ok(None);
        let ghost mut set_result: NothingOrError<E> = Ok(());
        let getter_error = match rg {
            Err(e) => Some(e),
            Ok(()) => {
              let gotten = self.getter.get();
              assert(may_get(self.getter(), gotten));
              proof {
                  seen = gotten;
              }
              match gotten {
                Err(e) => Some(e),
                Ok(None) => None,
                Ok(Some(datum)) => {
                    let ghost v = datum.value;
                    let rset = self.settable.set(datum.value);
                    assert(S::set_spec(s0, self.settable(), v, rset));
                    proof {
                        set_result = rset;
                    }
                    if let Err(e) = rset {
                        assert(feed(s0, self.settable(), v, Err(PossibleDoubleError::B(e))));
                        assert(may_get(self.getter(), seen));
                        return Err(PossibleDoubleError::B(e));
                    }
                    None
                },
              }
            },
        };
        let ghost s_mid = self.settable();
        let rs = self.settable.update();
        assert(S::update_spec(s_mid, self.settable(), rs));
        let settable_error = match rs {
            Ok(()) => None,
            Err(e) => Some(e),
        };
        let r = match PossibleDoubleError::from_options(getter_error, settable_error) {
            Some(e) => Err(e),
            None => Ok(()),
        };
        assert(settle(s_mid, self.settable(), getter_error, r));
        proof {
            if rg is Ok {
                assert(may_get(self.getter(), seen));
                match seen {
                    Ok(Some(d)) => {
                        assert(S::set_spec(s0, s_mid, d.value, set_result));
                        assert(feed(s0, self.settable(), d.value, r));
                    },
                    _ => {
                        assert(s_mid == s0);
                    },
                }
                assert(match seen {
                    Err(e) => settle(s0, self.settable(), Some(e), r),
                    Ok(None) => settle(s0, self.settable(), None, r),
                    Ok(Some(d)) => feed(s0, self.settable(), d.value, r),
                });
                assert(exists|o: Output<T, E>|
                    #[trigger] may_get(self.getter(), o) && match o {
                        Err(e) => settle(s0, self.settable(), Some(e), r),
                        Ok(None) => settle(s0, self.settable(), None, r),
                        Ok(Some(d)) => feed(s0, self.settable(), d.value, r),
                    });
            }
            assert(G::update_spec(old(self).getter(), self.getter(), rg));
            assert(s0 == old(self).settable());
        }
        r
    }
}

///Because [`Getter`]s always return a timestamp (as long as they don't return `Err(_)` or
///`Ok(None)`), we can use this to treat them like [`TimeGetter`]s.
pub struct TimeGetterFromGetter<T, G, E> {
    getter: G,
    none_error: E,
    phantom_t: PhantomData<T>,
}

impl<T, G, E> TimeGetterFromGetter<T, G, E> {
    ///Constructor for [`TimeGetterFromGetter`].
    pub fn new(getter: G, none_error: E) -> (r: Self)
        ensures
            r.getter() == getter,
            r.none_error() == none_error,
    {
        TimeGetterFromGetter { getter, none_error, phantom_t: PhantomData }
    }

    ///The getter whose timestamps are returned.
    pub closed spec fn getter(self) -> G {
        self.getter
    }

    ///The error returned when the getter returns `Ok(None)`.
    pub closed spec fn none_error(self) -> E {
        self.none_error
    }
}

impl<T, G: Getter<T, E>, E: Copy> TimeGetter<E> for TimeGetterFromGetter<T, G, E> {
    open spec fn obeys_time_get_spec() -> bool {
        G::obeys_get_spec()
    }

    open spec fn time_get_spec(&self) -> TimeOutput<E> {
        match self.getter().get_spec() {
            Err(e) => Err(e),
            Ok(None) => Err(self.none_error()),
            Ok(Some(d)) => Ok(d.time),
        }
    }

    open spec fn time_get_req(&self) -> bool {
        self.getter().get_req()
    }

    fn get(&self) -> (r: TimeOutput<E>) {
        match self.getter.get() {
            Err(error) => Err(error),
            Ok(None) => Err(self.none_error),
            Ok(Some(datum)) => Ok(datum.time),
        }
    }
}

impl<T, G: Getter<T, E>, E: Copy> Updatable<E> for TimeGetterFromGetter<T, G, E> {
    open spec fn update_spec(before: Self, after: Self, r: NothingOrError<E>) -> bool {
        after == before && r == Ok::<(), E>(())
    }

    open spec fn update_req(&self) -> bool {
        true
    }

    fn update(&mut self) -> (r: NothingOrError<E>) {
        Ok(())
    }
}

///As chronologies return values at times, we can ask them to return values at the time of now
///or now with a delta. The datum returned carries the time from the [`TimeGetter`], and the
///chronology is asked at that time plus the delta.
pub struct GetterFromChronology<T, C, TG, E> {
    chronology: C,
    time_getter: TG,
    time_delta: Time,
    phantom_t: PhantomData<T>,
    phantom_e: PhantomData<E>,
}

///The time at which the chronology is asked: `time + delta` in 64-bit arithmetic, wrapping
///around at the ends of the range of `i64`.
pub open spec fn request_time(time: Time, delta: Time) -> Time {
    Time(vstd::wrapping::i64_specs::wrapping_add(time.0, delta.0))
}

impl<T, C, TG, E> GetterFromChronology<T, C, TG, E> {
    ///The chronology.
    pub closed spec fn chronology(self) -> C {
        self.chronology
    }

    ///The time getter.
    pub closed spec fn time_getter(self) -> TG {
        self.time_getter
    }

    ///The delta added to the time before the chronology is asked.
    pub closed spec fn time_delta(self) -> Time {
        self.time_delta
    }

    ///Constructor such that the time in the request to the chronology will be directly that
    ///returned from the [`TimeGetter`] with no delta.
    pub fn new_no_delta(chronology: C, time_getter: TG) -> (r: Self)
        ensures
            r.chronology() == chronology,
            r.time_getter() == time_getter,
            r.time_delta() == Time(0),
    {
        GetterFromChronology {
            chronology,
            time_getter,
            time_delta: Time(0),
            phantom_t: PhantomData,
            phantom_e: PhantomData,
        }
    }

    ///Constructor with a custom time delta.
    pub fn new_custom_delta(chronology: C, time_getter: TG, time_delta: Time) -> (r: Self)
        ensures
            r.chronology() == chronology,
            r.time_getter() == time_getter,
            r.time_delta() == time_delta,
    {
        GetterFromChronology {
            chronology,
            time_getter,
            time_delta,
            phantom_t: PhantomData,
            phantom_e: PhantomData,
        }
    }

    ///Set the time delta.
    pub fn set_delta(&mut self, time_delta: Time)
        ensures
            final(self).time_delta() == time_delta,
            final(self).chronology() == old(self).chronology(),
            final(self).time_getter() == old(self).time_getter(),
    {
        self.time_delta = time_delta;
    }
}

impl<T, C, TG: TimeGetter<E>, E> GetterFromChronology<T, C, TG, E> {
    ///Constructor such that the times requested from the [`Chronology`] will begin at zero where
    ///zero is the moment this constructor is called: the delta is the negated current time. The
    ///time getter's error is returned if it fails.
    pub fn new_start_at_zero(chronology: C, time_getter: TG) -> (r: Result<Self, E>)
        requires
            TG::obeys_time_get_spec(),
            time_getter.time_get_req(),
            time_getter.time_get_spec() matches Ok(now) ==> now.0 > i64::MIN,
        ensures
            match time_getter.time_get_spec() {
                Err(e) => r == Err::<Self, E>(e),
                Ok(now) => r matches Ok(g) && g.chronology() == chronology && g.time_getter()
                    == time_getter && g.time_delta().0 == -now.0,
            },
    {
        let now = time_getter.get()?;
        let time_delta = Time(-now.0);
        Ok(GetterFromChronology {
            chronology,
            time_getter,
            time_delta,
            phantom_t: PhantomData,
            phantom_e: PhantomData,
        })
    }

    ///Constructor such that the times requested from the [`Chronology`] will start at a given
    ///time with that time defined as the moment of construction: the delta is `start` minus the
    ///current time. The time getter's error is returned if it fails.
    pub fn new_custom_start(chronology: C, time_getter: TG, start: Time) -> (r: Result<Self, E>)
        requires
            TG::obeys_time_get_spec(),
            time_getter.time_get_req(),
            time_getter.time_get_spec() matches Ok(now) ==> fits_i64(start.0 - now.0),
        ensures
            match time_getter.time_get_spec() {
                Err(e) => r == Err::<Self, E>(e),
                Ok(now) => r matches Ok(g) && g.chronology() == chronology && g.time_getter()
                    == time_getter && g.time_delta().0 == start.0 - now.0,
            },
    {
        let now = time_getter.get()?;
        let time_delta = Time(start.0 - now.0);
        Ok(GetterFromChronology {
            chronology,
            time_getter,
            time_delta,
            phantom_t: PhantomData,
            phantom_e: PhantomData,
        })
    }

    ///Define now as a given time in the chronology: the delta becomes `time` minus the current
    ///time. If the time getter fails, its error is returned and nothing changes.
    pub fn set_time(&mut self, time: Time) -> (r: NothingOrError<E>)
        requires
            TG::obeys_time_get_spec(),
            old(self).time_getter().time_get_req(),
            old(self).time_getter().time_get_spec() matches Ok(now) ==> fits_i64(time.0 - now.0),
        ensures
            final(self).chronology() == old(self).chronology(),
            final(self).time_getter() == old(self).time_getter(),
            match old(self).time_getter().time_get_spec() {
                Err(e) => r == Err::<(), E>(e) && final(self).time_delta() == old(self).time_delta(),
                Ok(now) => r == Ok::<(), E>(()) && final(self).time_delta().0 == time.0 - now.0,
            },
    {
        let now = self.time_getter.get()?;
        self.time_delta = Time(time.0 - now.0);
        Ok(())
    }
}

impl<T, C: Chronology<T>, TG: TimeGetter<E>, E> Getter<T, E> for GetterFromChronology<T, C, TG, E> {
    open spec fn obeys_get_spec() -> bool {
        TG::obeys_time_get_spec() && C::obeys_chronology_get_spec()
    }

    open spec fn get_spec(&self) -> Output<T, E> {
        match self.time_getter().time_get_spec() {
            Err(e) => Err(e),
            Ok(time) => match self.chronology().chronology_get_spec(
                request_time(time, self.time_delta()),
            ) {
                Some(d) => Ok(Some(Datum { time, value: d.value })),
                None => Ok(None),
            },
        }
    }

    open spec fn get_req(&self) -> bool {
        self.time_getter().time_get_req()
    }

    fn get(&self) -> (r: Output<T, E>) {
        let time = self.time_getter.get()?;
        let at = Time(time.0.wrapping_add(self.time_delta.0));
        match self.chronology.get(at) {
            Some(datum) => Ok(Some(Datum::new(time, datum.value))),
            None => Ok(None),
        }
    }
}

impl<T, C, TG: TimeGetter<E>, E> Updatable<E> for GetterFromChronology<T, C, TG, E> {
    open spec fn update_spec(before: Self, after: Self, r: NothingOrError<E>) -> bool {
        &&& TG::update_spec(before.time_getter(), after.time_getter(), r)
        &&& after.chronology() == before.chronology()
        &&& after.time_delta() == before.time_delta()
    }

    open spec fn update_req(&self) -> bool {
        self.time_getter().update_req()
    }

    fn update(&mut self) -> (r: NothingOrError<E>) {
        self.time_getter.update()?;
        Ok(())
    }
}

///With no delta, a [`GetterFromChronology`] asks its chronology at exactly the time that the
///time getter returns.
pub proof fn law_no_delta_asks_now(now: Time)
    ensures
        request_time(now, Time(0)) == now,
{
}

///The delta that `new_custom_start` and `set_time` compute from the current time `now` and the
///wanted time `start` makes the getter ask its chronology at `start` while the time getter still
///returns `now`; `new_start_at_zero` is the case where `start` is zero.
pub proof fn law_start_is_asked_now(now: Time, start: Time)
    requires
        fits_i64(start.0 - now.0),
    ensures
        request_time(now, Time((start.0 - now.0) as i64)) == start,
        now.0 > i64::MIN ==> request_time(now, Time((-now.0) as i64)) == Time(0),
{
}

///Time moves on for the chronology as it does for the time getter: if a getter asks at `t` when
///the time getter returns `now`, it asks at `t + dt` when the time getter returns `now + dt`
///(all within the range of `i64`).
pub proof fn law_request_time_shifts(now: Time, later: Time, delta: Time)
    requires
        fits_i64(now.0 + delta.0),
        fits_i64(later.0 + delta.0),
    ensures
        request_time(later, delta).0 - request_time(now, delta).0 == later.0 - now.0,
{
}

} // verus!

//!Streams that perform mathematical operations.
//!
//!The arithmetic of the value types goes through their `Add`, `Sub`, `Mul` and `Div`
//!implementations. The streams' outputs are stated for value types whose operations follow their
//!specifications, and each stream requires that the operations it performs on the values that
//!its inputs return at that moment succeed (`get_req`, `update_req`). Since those values must be
//!known for that, the streams that compute require inputs that obey their spec functions.
use vstd::prelude::*;
use core::marker::PhantomData;
use core::ops::{Add, Div, Mul, Sub};
use vstd::std_specs::ops::{AddSpec, DivSpec, MulSpec, SubSpec};
use crate::datum::{later_time, max_time, Datum, Output};
use crate::error::NothingOrError;
use crate::dimensions::{fits_i64, Time};
use crate::interfaces::{Getter, Updatable};
use crate::streams::{all_get_req, all_update_req};
use crate::stulta::Half;
use crate::streams::{outputs_of, two_updates, update_all, updates_in_order};

verus! {

///Combines the outputs in order with `combine`: the first output that is not `Ok(Some(_))` is the
///result; otherwise the data are combined from the left, the timestamp being the latest one.
pub open spec fn fold_outputs<T, E>(outs: Seq<Output<T, E>>, combine: spec_fn(T, T) -> T) -> Output<
    T,
    E,
>
    decreases outs.len(),
{
    if outs.len() <= 1 {
        if outs.len() == 0 {
            Ok(None)
        } else {
            outs[0]
        }
    } else {
        match fold_outputs(outs.drop_last(), combine) {
            Ok(Some(acc)) => match outs.last() {
                Ok(Some(d)) => Ok(
                    Some(Datum { time: later_time(acc.time, d.time), value: combine(acc.value, d.value) }),
                ),
                other => other,
            },
            other => other,
        }
    }
}

///Once a prefix of the outputs folds to something other than `Ok(Some(_))`, so does the whole.
pub proof fn lemma_fold_outputs_failure_sticks<T, E>(
    outs: Seq<Output<T, E>>,
    combine: spec_fn(T, T) -> T,
    i: int,
)
    requires
        1 <= i <= outs.len(),
        !(fold_outputs(outs.take(i), combine) is Ok && fold_outputs(outs.take(i), combine)->Ok_0 is Some),
    ensures
        fold_outputs(outs, combine) == fold_outputs(outs.take(i), combine),
    decreases outs.len() - i,
{
    if i < outs.len() {
        assert(outs.take(i + 1).drop_last() =~= outs.take(i));
        lemma_fold_outputs_failure_sticks(outs, combine, i + 1);
    } else {
        assert(outs.take(i) =~= outs);
    }
}

///The sum of two values by the type's `Add` specification.
pub open spec fn add_values<T: Add<Output = T>>() -> spec_fn(T, T) -> T {
    |a: T, b: T| a.add_spec(b)
}

///The product of two values by the type's `Mul` specification.
pub open spec fn mul_values<T: Mul<Output = T>>() -> spec_fn(T, T) -> T {
    |a: T, b: T| a.mul_spec(b)
}

///Whether `op` is defined on two values, by the type's `Add` specification.
pub open spec fn add_defined<A: Add<B>, B>() -> spec_fn(A, B) -> bool {
    |a: A, b: B| a.add_req(b)
}

///Whether `op` is defined on two values, by the type's `Mul` specification.
pub open spec fn mul_defined<A: Mul<B>, B>() -> spec_fn(A, B) -> bool {
    |a: A, b: B| a.mul_req(b)
}

///Whether `op` is defined on two values, by the type's `Sub` specification.
pub open spec fn sub_defined<A: Sub<B>, B>() -> spec_fn(A, B) -> bool {
    |a: A, b: B| a.sub_req(b)
}

///Whether `op` is defined on two values, by the type's `Div` specification.
pub open spec fn div_defined<A: Div<B>, B>() -> spec_fn(A, B) -> bool {
    |a: A, b: B| a.div_req(b)
}

///Every combination that [`fold_outputs`] makes is one for which `defined` holds: whenever the
///outputs folded so far give a datum and the next output is a datum, their values satisfy it.
pub open spec fn fold_defined<T, E>(
    outs: Seq<Output<T, E>>,
    combine: spec_fn(T, T) -> T,
    defined: spec_fn(T, T) -> bool,
) -> bool
    decreases outs.len(),
{
    if outs.len() <= 1 {
        true
    } else {
        &&& fold_defined(outs.drop_last(), combine, defined)
        &&& match (fold_outputs(outs.drop_last(), combine), outs.last()) {
            (Ok(Some(acc)), Ok(Some(d))) => defined(acc.value, d.value),
            _ => true,
        }
    }
}

///What [`fold_defined`] says of all the outputs it says of every prefix.
pub proof fn lemma_fold_defined_prefix<T, E>(
    outs: Seq<Output<T, E>>,
    combine: spec_fn(T, T) -> T,
    defined: spec_fn(T, T) -> bool,
    k: int,
)
    requires
        0 <= k <= outs.len(),
        fold_defined(outs, combine, defined),
    ensures
        fold_defined(outs.take(k), combine, defined),
    decreases outs.len(),
{
    if k == outs.len() {
        assert(outs.take(k) =~= outs);
    } else if outs.len() > 1 {
        assert(outs.drop_last().take(k) =~= outs.take(k));
        lemma_fold_defined_prefix(outs.drop_last(), combine, defined, k);
    }
}

///The operation that two outputs are combined with is defined on their values when both hold a
///datum.
pub open spec fn both_defined<A, B, E>(
    o1: Output<A, E>,
    o2: Output<B, E>,
    defined: spec_fn(A, B) -> bool,
) -> bool {
    match (o1, o2) {
        (Ok(Some(x)), Ok(Some(y))) => defined(x.value, y.value),
        _ => true,
    }
}

///A stream that adds all its inputs in order. For this stream to return a value, all of its
///inputs must return the `Ok(Some(_))` variant; otherwise the first input output that is not is
///returned.
pub struct SumStream<const N: usize, G> {
    addends: [G; N],
}

impl<const N: usize, G> SumStream<N, G> {
    ///Constructor for [`SumStream`]. There must be at least one input.
    pub fn new(addends: [G; N]) -> (r: Self)
        requires
            N >= 1,
        ensures
            r.addends() == addends@,
    {
        SumStream { addends }
    }

    ///The inputs.
    pub closed spec fn addends(self) -> Seq<G> {
        self.addends@
    }
}

impl<T: Add<Output = T> + Copy, const N: usize, G: Getter<T, E>, E> Getter<T, E> for SumStream<
    N,
    G,
> {
    open spec fn obeys_get_spec() -> bool {
        G::obeys_get_spec()
    }

    open spec fn get_spec(&self) -> Output<T, E> {
        fold_outputs(outputs_of(self.addends()), add_values())
    }

    open spec fn get_req(&self) -> bool {
        &&& G::obeys_get_spec()
        &&& all_get_req::<T, G, E>(self.addends())
        &&& T::obeys_add_spec()
        &&& fold_defined(outputs_of(self.addends()), add_values(), add_defined::<T, T>())
    }

    fn get(&self) -> (r: Output<T, E>) {
        let ghost outs = outputs_of::<T, E, G>(self.addends@);
        let ghost combine = add_values::<T>();
        let mut total: Option<Datum<T>> = None;
        let mut i: usize = 0;
        while i < N
            invariant
                G::obeys_get_spec(),
                all_get_req::<T, G, E>(self.addends@),
                T::obeys_add_spec(),
                fold_defined(outs, combine, add_defined::<T, T>()),
                0 <= i <= N,
                outs.len() == N,
                outs == outputs_of::<T, E, G>(self.addends@),
                combine == add_values::<T>(),
                i == 0 ==> total is None,
                i > 0 ==> fold_outputs(outs.take(i as int), combine) == Ok::<
                    Option<Datum<T>>,
                    E,
                >(total) && total is Some,
            decreases N - i,
        {
            assert(outs.take(i + 1).drop_last() =~= outs.take(i as int));
            let gotten = self.addends[i].get();
            match gotten {
                Ok(Some(d)) => {
                    match total {
                        None => {
                            assert(outs.take(1)[0] == outs[0]);
                            total = Some(d);
                        },
                        Some(acc) => {
                            proof {
                                lemma_fold_defined_prefix(outs, combine, add_defined::<T, T>(), i + 1);
                                assert(outs.take(i + 1).last() == outs[i as int]);
                            }
                            total = Some(
                                Datum { time: max_time(acc.time, d.time), value: acc.value.add(d.value) },
                            );
                        },
                    }
                },
                _ => {
                    proof {
                        if i == 0 {
                            assert(outs.take(1)[0] == outs[0]);
                        }
                        lemma_fold_outputs_failure_sticks(outs, combine, i + 1);
                    }
                    return gotten;
                },
            }
            i += 1;
        }
        if N > 0 {
            assert(outs.take(N as int) =~= outs);
        }
        Ok(total)
    }
}

impl<const N: usize, G: Updatable<E>, E> Updatable<E> for SumStream<N, G> {
    open spec fn update_spec(before: Self, after: Self, r: NothingOrError<E>) -> bool {
        updates_in_order(before.addends(), after.addends(), r)
    }

    open spec fn update_req(&self) -> bool {
        all_update_req(self.addends())
    }

    fn update(&mut self) -> (r: NothingOrError<E>) {
        update_all(&mut self.addends)
    }
}

///A stream that multiplies all its inputs in order. For this stream to return a value, all of
///its inputs must return the `Ok(Some(_))` variant; otherwise the first input output that is not
///is returned.
pub struct ProductStream<const N: usize, G> {
    factors: [G; N],
}

impl<const N: usize, G> ProductStream<N, G> {
    ///Constructor for [`ProductStream`]. There must be at least one input.
    pub fn new(factors: [G; N]) -> (r: Self)
        requires
            N >= 1,
        ensures
            r.factors() == factors@,
    {
        ProductStream { factors }
    }

    ///The inputs.
    pub closed spec fn factors(self) -> Seq<G> {
        self.factors@
    }
}

impl<T: Mul<Output = T> + Copy, const N: usize, G: Getter<T, E>, E> Getter<T, E> for ProductStream<
    N,
    G,
> {
    open spec fn obeys_get_spec() -> bool {
        G::obeys_get_spec()
    }

    open spec fn get_spec(&self) -> Output<T, E> {
        fold_outputs(outputs_of(self.factors()), mul_values())
    }

    open spec fn get_req(&self) -> bool {
        &&& G::obeys_get_spec()
        &&& all_get_req::<T, G, E>(self.factors())
        &&& T::obeys_mul_spec()
        &&& fold_defined(outputs_of(self.factors()), mul_values(), mul_defined::<T, T>())
    }

    fn get(&self) -> (r: Output<T, E>) {
        let ghost outs = outputs_of::<T, E, G>(self.factors@);
        let ghost combine = mul_values::<T>();
        let mut total: Option<Datum<T>> = None;
        let mut i: usize = 0;
        while i < N
            invariant
                G::obeys_get_spec(),
                all_get_req::<T, G, E>(self.factors@),
                T::obeys_mul_spec(),
                fold_defined(outs, combine, mul_defined::<T, T>()),
                0 <= i <= N,
                outs.len() == N,
                outs == outputs_of::<T, E, G>(self.factors@),
                combine == mul_values::<T>(),
                i == 0 ==> total is None,
                i > 0 ==> fold_outputs(outs.take(i as int), combine) == Ok::<
                    Option<Datum<T>>,
                    E,
                >(total) && total is Some,
            decreases N - i,
        {
            assert(outs.take(i + 1).drop_last() =~= outs.take(i as int));
            let gotten = self.factors[i].get();
            match gotten {
                Ok(Some(d)) => {
                    match total {
                        None => {
                            assert(outs.take(1)[0] == outs[0]);
                            total = Some(d);
                        },
                        Some(acc) => {
                            proof {
                                lemma_fold_defined_prefix(outs, combine, mul_defined::<T, T>(), i + 1);
                                assert(outs.take(i + 1).last() == outs[i as int]);
                            }
                            total = Some(
                                Datum { time: max_time(acc.time, d.time), value: acc.value.mul(d.value) },
                            );
                        },
                    }
                },
                _ => {
                    proof {
                        if i == 0 {
                            assert(outs.take(1)[0] == outs[0]);
                        }
                        lemma_fold_outputs_failure_sticks(outs, combine, i + 1);
                    }
                    return gotten;
                },
            }
            i += 1;
        }
        if N > 0 {
            assert(outs.take(N as int) =~= outs);
        }
        Ok(total)
    }
}

impl<const N: usize, G: Updatable<E>, E> Updatable<E> for ProductStream<N, G> {
    open spec fn update_spec(before: Self, after: Self, r: NothingOrError<E>) -> bool {
        updates_in_order(before.factors(), after.factors(), r)
    }

    open spec fn update_req(&self) -> bool {
        all_update_req(self.factors())
    }

    fn update(&mut self) -> (r: NothingOrError<E>) {
        update_all(&mut self.factors)
    }
}

///Combining two outputs with `op`, asking the second only when the first holds a datum: an error
///or `None` from the first is returned as it is, then the same for the second.
pub open spec fn combine_lazily<A, B, C, E>(o1: Output<A, E>, o2: Output<B, E>, op: spec_fn(A, B) -> C) -> Output<C, E> {
    match o1 {
        Err(e) => Err(e),
        Ok(None) => Ok(None),
        Ok(Some(x)) => match o2 {
            Err(e) => Err(e),
            Ok(None) => Ok(None),
            Ok(Some(y)) => Ok(Some(Datum { time: later_time(x.time, y.time), value: op(x.value, y.value) })),
        },
    }
}

///Combining two outputs with `op` after asking both: an error from the first, then from the
///second, is returned; otherwise `None` if either is `None`.
pub open spec fn combine_eagerly<A, B, C, E>(o1: Output<A, E>, o2: Output<B, E>, op: spec_fn(A, B) -> C) -> Output<C, E> {
    match o1 {
        Err(e) => Err(e),
        Ok(x) => match o2 {
            Err(e) => Err(e),
            Ok(y) => match (x, y) {
                (Some(x), Some(y)) => Ok(Some(Datum { time: later_time(x.time, y.time), value: op(x.value, y.value) })),
                _ => Ok(None),
            },
        },
    }
}

///The output of [`Sum2`] for the outputs of its inputs.
pub open spec fn add_lazily<A: Add<B, Output = C>, B, C, E>(o1: Output<A, E>, o2: Output<B, E>) -> Output<C, E> {
    combine_lazily(o1, o2, |a: A, b: B| a.add_spec(b))
}

///The output of [`Product2`] for the outputs of its inputs.
pub open spec fn mul_lazily<A: Mul<B, Output = C>, B, C, E>(o1: Output<A, E>, o2: Output<B, E>) -> Output<C, E> {
    combine_lazily(o1, o2, |a: A, b: B| a.mul_spec(b))
}

///The output of [`DifferenceStream`] for the outputs of its inputs.
pub open spec fn sub_eagerly<A: Sub<B, Output = C>, B, C, E>(o1: Output<A, E>, o2: Output<B, E>) -> Output<C, E> {
    combine_eagerly(o1, o2, |a: A, b: B| a.sub_spec(b))
}

///The output of [`QuotientStream`] for the outputs of its inputs.
pub open spec fn div_eagerly<A: Div<B, Output = C>, B, C, E>(o1: Output<A, E>, o2: Output<B, E>) -> Output<C, E> {
    combine_eagerly(o1, o2, |a: A, b: B| a.div_spec(b))
}

///A stream that adds two inputs. Returns `Ok(None)` if either input does; the second input is
///only asked when the first returns a datum.
pub struct Sum2<T1, T2, G1, G2> {
    addend1: G1,
    addend2: G2,
    phantom_1: PhantomData<T1>,
    phantom_2: PhantomData<T2>,
}

impl<T1, T2, G1, G2> Sum2<T1, T2, G1, G2> {
    ///Constructor for [`Sum2`].
    pub fn new(addend1: G1, addend2: G2) -> (r: Self)
        ensures
            r.addend1() == addend1,
            r.addend2() == addend2,
    {
        Sum2 { addend1, addend2, phantom_1: PhantomData, phantom_2: PhantomData }
    }

    ///The first addend.
    pub closed spec fn addend1(self) -> G1 {
        self.addend1
    }

    ///The second addend.
    pub closed spec fn addend2(self) -> G2 {
        self.addend2
    }
}

impl<T1, T2, G1: Updatable<E>, G2: Updatable<E>, E> Updatable<E> for Sum2<T1, T2, G1, G2> {
    open spec fn update_spec(before: Self, after: Self, r: NothingOrError<E>) -> bool {
        two_updates(before.addend1(), after.addend1(), before.addend2(), after.addend2(), r)
    }

    open spec fn update_req(&self) -> bool {
        self.addend1().update_req() && self.addend2().update_req()
    }

    fn update(&mut self) -> (r: NothingOrError<E>) {
        self.addend1.update()?;
        self.addend2.update()?;
        Ok(())
    }
}

impl<T1, T2, TO, G1, G2, E> Getter<TO, E> for Sum2<T1, T2, G1, G2> where
    T1: Add<T2, Output = TO>,
    G1: Getter<T1, E>,
    G2: Getter<T2, E>,
 {
    open spec fn obeys_get_spec() -> bool {
        G1::obeys_get_spec() && G2::obeys_get_spec()
    }

    open spec fn get_spec(&self) -> Output<TO, E> {
        add_lazily(self.addend1().get_spec(), self.addend2().get_spec())
    }

    open spec fn get_req(&self) -> bool {
        &&& G1::obeys_get_spec()
        &&& G2::obeys_get_spec()
        &&& self.addend1().get_req()
        &&& self.addend2().get_req()
        &&& T1::obeys_add_spec()
        &&& both_defined(self.addend1().get_spec(), self.addend2().get_spec(), add_defined::<T1, T2>())
    }

    fn get(&self) -> (r: Output<TO, E>) {
        let x = match self.addend1.get()? {
            Some(x) => x,
            None => return Ok(None),
        };
        let y = match self.addend2.get()? {
            Some(y) => y,
            None => return Ok(None),
        };
        Ok(Some(Datum::new(max_time(x.time, y.time), x.value.add(y.value))))
    }
}

///A stream that subtracts one of its inputs from the other. Both inputs are asked; an error from
///either is returned, and otherwise `Ok(None)` if either returns it.
pub struct DifferenceStream<TM, TS, G1, G2> {
    minuend: G1,
    subtrahend: G2,
    phantom_1: PhantomData<TM>,
    phantom_2: PhantomData<TS>,
}

impl<TM, TS, G1, G2> DifferenceStream<TM, TS, G1, G2> {
    ///Constructor for [`DifferenceStream`].
    pub fn new(minuend: G1, subtrahend: G2) -> (r: Self)
        ensures
            r.minuend() == minuend,
            r.subtrahend() == subtrahend,
    {
        DifferenceStream { minuend, subtrahend, phantom_1: PhantomData, phantom_2: PhantomData }
    }

    ///The minuend.
    pub closed spec fn minuend(self) -> G1 {
        self.minuend
    }

    ///The subtrahend.
    pub closed spec fn subtrahend(self) -> G2 {
        self.subtrahend
    }
}

impl<TM, TS, G1: Updatable<E>, G2: Updatable<E>, E> Updatable<E> for DifferenceStream<TM, TS, G1, G2> {
    open spec fn update_spec(before: Self, after: Self, r: NothingOrError<E>) -> bool {
        two_updates(before.minuend(), after.minuend(), before.subtrahend(), after.subtrahend(), r)
    }

    open spec fn update_req(&self) -> bool {
        self.minuend().update_req() && self.subtrahend().update_req()
    }

    fn update(&mut self) -> (r: NothingOrError<E>) {
        self.minuend.update()?;
        self.subtrahend.update()?;
        Ok(())
    }
}

impl<TM, TS, TO, G1, G2, E> Getter<TO, E> for DifferenceStream<TM, TS, G1, G2> where
    TM: Sub<TS, Output = TO>,
    G1: Getter<TM, E>,
    G2: Getter<TS, E>,
 {
    open spec fn obeys_get_spec() -> bool {
        G1::obeys_get_spec() && G2::obeys_get_spec()
    }

    open spec fn get_spec(&self) -> Output<TO, E> {
        sub_eagerly(self.minuend().get_spec(), self.subtrahend().get_spec())
    }

    open spec fn get_req(&self) -> bool {
        &&& G1::obeys_get_spec()
        &&& G2::obeys_get_spec()
        &&& self.minuend().get_req()
        &&& self.subtrahend().get_req()
        &&& TM::obeys_sub_spec()
        &&& both_defined(self.minuend().get_spec(), self.subtrahend().get_spec(), sub_defined::<TM, TS>())
    }

    fn get(&self) -> (r: Output<TO, E>) {
        let x = self.minuend.get()?;
        let y = self.subtrahend.get()?;
        let x = match x {
            Some(x) => x,
            None => return Ok(None),
        };
        let y = match y {
            Some(y) => y,
            None => return Ok(None),
        };
        Ok(Some(Datum::new(max_time(x.time, y.time), x.value.sub(y.value))))
    }
}

///A stream that multiplies two inputs. Returns `Ok(None)` if either input does; the second input
///is only asked when the first returns a datum.
pub struct Product2<T1, T2, G1, G2> {
    factor1: G1,
    factor2: G2,
    phantom_1: PhantomData<T1>,
    phantom_2: PhantomData<T2>,
}

impl<T1, T2, G1, G2> Product2<T1, T2, G1, G2> {
    ///Constructor for [`Product2`].
    pub fn new(factor1: G1, factor2: G2) -> (r: Self)
        ensures
            r.factor1() == factor1,
            r.factor2() == factor2,
    {
        Product2 { factor1, factor2, phantom_1: PhantomData, phantom_2: PhantomData }
    }

    ///The first factor.
    pub closed spec fn factor1(self) -> G1 {
        self.factor1
    }

    ///The second factor.
    pub closed spec fn factor2(self) -> G2 {
        self.factor2
    }
}

impl<T1, T2, G1: Updatable<E>, G2: Updatable<E>, E> Updatable<E> for Product2<T1, T2, G1, G2> {
    open spec fn update_spec(before: Self, after: Self, r: NothingOrError<E>) -> bool {
        two_updates(before.factor1(), after.factor1(), before.factor2(), after.factor2(), r)
    }

    open spec fn update_req(&self) -> bool {
        self.factor1().update_req() && self.factor2().update_req()
    }

    fn update(&mut self) -> (r: NothingOrError<E>) {
        self.factor1.update()?;
        self.factor2.update()?;
        Ok(())
    }
}

impl<T1, T2, TO, G1, G2, E> Getter<TO, E> for Product2<T1, T2, G1, G2> where
    T1: Mul<T2, Output = TO>,
    G1: Getter<T1, E>,
    G2: Getter<T2, E>,
 {
    open spec fn obeys_get_spec() -> bool {
        G1::obeys_get_spec() && G2::obeys_get_spec()
    }

    open spec fn get_spec(&self) -> Output<TO, E> {
        mul_lazily(self.factor1().get_spec(), self.factor2().get_spec())
    }

    open spec fn get_req(&self) -> bool {
        &&& G1::obeys_get_spec()
        &&& G2::obeys_get_spec()
        &&& self.factor1().get_req()
        &&& self.factor2().get_req()
        &&& T1::obeys_mul_spec()
        &&& both_defined(self.factor1().get_spec(), self.factor2().get_spec(), mul_defined::<T1, T2>())
    }

    fn get(&self) -> (r: Output<TO, E>) {
        let x = match self.factor1.get()? {
            Some(x) => x,
            None => return Ok(None),
        };
        let y = match self.factor2.get()? {
            Some(y) => y,
            None => return Ok(None),
        };
        Ok(Some(Datum::new(max_time(x.time, y.time), x.value.mul(y.value))))
    }
}

///A stream that divides one of its inputs by the other. Both inputs are asked; an error from
///either is returned, and otherwise `Ok(None)` if either returns it.
pub struct QuotientStream<TD, TS, G1, G2> {
    dividend: G1,
    divisor: G2,
    phantom_1: PhantomData<TD>,
    phantom_2: PhantomData<TS>,
}

impl<TD, TS, G1, G2> QuotientStream<TD, TS, G1, G2> {
    ///Constructor for [`QuotientStream`].
    pub fn new(dividend: G1, divisor: G2) -> (r: Self)
        ensures
            r.dividend() == dividend,
            r.divisor() == divisor,
    {
        QuotientStream { dividend, divisor, phantom_1: PhantomData, phantom_2: PhantomData }
    }

    ///The dividend.
    pub closed spec fn dividend(self) -> G1 {
        self.dividend
    }

    ///The divisor.
    pub closed spec fn divisor(self) -> G2 {
        self.divisor
    }
}

impl<TD, TS, G1: Updatable<E>, G2: Updatable<E>, E> Updatable<E> for QuotientStream<TD, TS, G1, G2> {
    open spec fn update_spec(before: Self, after: Self, r: NothingOrError<E>) -> bool {
        two_updates(before.dividend(), after.dividend(), before.divisor(), after.divisor(), r)
    }

    open spec fn update_req(&self) -> bool {
        self.dividend().update_req() && self.divisor().update_req()
    }

    fn update(&mut self) -> (r: NothingOrError<E>) {
        self.dividend.update()?;
        self.divisor.update()?;
        Ok(())
    }
}

impl<TD, TS, TO, G1, G2, E> Getter<TO, E> for QuotientStream<TD, TS, G1, G2> where
    TD: Div<TS, Output = TO>,
    G1: Getter<TD, E>,
    G2: Getter<TS, E>,
 {
    open spec fn obeys_get_spec() -> bool {
        G1::obeys_get_spec() && G2::obeys_get_spec()
    }

    open spec fn get_spec(&self) -> Output<TO, E> {
        div_eagerly(self.dividend().get_spec(), self.divisor().get_spec())
    }

    open spec fn get_req(&self) -> bool {
        &&& G1::obeys_get_spec()
        &&& G2::obeys_get_spec()
        &&& self.dividend().get_req()
        &&& self.divisor().get_req()
        &&& TD::obeys_div_spec()
        &&& both_defined(self.dividend().get_spec(), self.divisor().get_spec(), div_defined::<TD, TS>())
    }

    fn get(&self) -> (r: Output<TO, E>) {
        let x = self.dividend.get()?;
        let y = self.divisor.get()?;
        let x = match x {
            Some(x) => x,
            None => return Ok(None),
        };
        let y = match y {
            Some(y) => y,
            None => return Ok(None),
        };
        Ok(Some(Datum::new(max_time(x.time, y.time), x.value.div(y.value))))
    }
}

///The time from `earlier` to `later` in 64-bit arithmetic, wrapping around at the ends of the
///range of `i64`.
pub open spec fn time_between(later: Time, earlier: Time) -> Time {
    Time(vstd::wrapping::i64_specs::wrapping_sub(later.0, earlier.0))
}

pub(crate) fn time_between_exec(later: Time, earlier: Time) -> (r: Time)
    ensures
        r == time_between(later, earlier),
{
    Time(later.0.wrapping_sub(earlier.0))
}

///How a [`DerivativeStream`] moves on once its input has been updated, from the output `value`
///and the datum `prev` kept from before and what the input returns now: the new output, the new
///datum kept, and the result of the update. An error or `Ok(None)` from the input becomes the
///output and clears the kept datum; the first datum is only kept; each later one gives the
///difference quotient with the kept one, timestamped with the newer time.
pub open spec fn derivative_step<T: Sub<Output = N1>, N1: Div<Time, Output = O>, O, E>(
    value: Output<O, E>,
    prev: Option<Datum<T>>,
    input: Output<T, E>,
) -> (Output<O, E>, Option<Datum<T>>, NothingOrError<E>) {
    match input {
        Err(e) => (Err(e), None, Err(e)),
        Ok(None) => (Ok(None), None, Ok(())),
        Ok(Some(o)) => match prev {
            None => (value, Some(o), Ok(())),
            Some(p) => (
                Ok(
                    Some(
                        Datum {
                            time: o.time,
                            value: o.value.sub_spec(p.value).div_spec(time_between(o.time, p.time)),
                        },
                    ),
                ),
                Some(o),
                Ok(()),
            ),
        },
    }
}

///The arithmetic of [`derivative_step`] is defined: when the input returns a datum and one is
///kept, their difference and its quotient by the time between them can be computed.
pub open spec fn derivative_defined<T: Sub<Output = N1>, N1: Div<Time>, E>(
    prev: Option<Datum<T>>,
    input: Output<T, E>,
) -> bool {
    match (input, prev) {
        (Ok(Some(o)), Some(p)) => o.value.sub_req(p.value) && o.value.sub_spec(p.value).div_req(
            time_between(o.time, p.time),
        ),
        _ => true,
    }
}

///A stream that computes the numerical derivative of its input. The time between two data is
///computed in 64-bit arithmetic that wraps around at the ends of the range of `i64`.
pub struct DerivativeStream<T, O, G, E> {
    input: G,
    value: Output<O, E>,
    prev_output: Option<Datum<T>>,
}

impl<T, O, G, E> DerivativeStream<T, O, G, E> {
    ///Constructor for [`DerivativeStream`].
    pub fn new(input: G) -> (r: Self)
        ensures
            r.input() == input,
            r.value() == Ok::<Option<Datum<O>>, E>(None),
            r.prev_output() == None::<Datum<T>>,
    {
        DerivativeStream { input, value: Ok(None), prev_output: None }
    }

    ///The input getter.
    pub closed spec fn input(self) -> G {
        self.input
    }

    ///The output held.
    pub closed spec fn value(self) -> Output<O, E> {
        self.value
    }

    ///The last datum of the input, kept for the next difference.
    pub closed spec fn prev_output(self) -> Option<Datum<T>> {
        self.prev_output
    }
}

impl<T, N1, O, G, E> Getter<O, E> for DerivativeStream<T, O, G, E> where
    T: Copy + Sub<Output = N1>,
    N1: Div<Time, Output = O>,
    O: Copy,
    G: Getter<T, E>,
    E: Copy,
 {
    open spec fn obeys_get_spec() -> bool {
        true
    }

    open spec fn get_spec(&self) -> Output<O, E> {
        self.value()
    }

    open spec fn get_req(&self) -> bool {
        true
    }

    fn get(&self) -> (r: Output<O, E>) {
        self.value
    }
}

impl<T, N1, O, G, E> Updatable<E> for DerivativeStream<T, O, G, E> where
    T: Copy + Sub<Output = N1>,
    N1: Div<Time, Output = O>,
    O: Copy,
    G: Getter<T, E>,
    E: Copy,
 {
    open spec fn update_spec(before: Self, after: Self, r: NothingOrError<E>) -> bool {
        exists|ri: NothingOrError<E>|
            #[trigger] G::update_spec(before.input(), after.input(), ri) && match ri {
                Err(e) => r == Err::<(), E>(e) && after.value() == before.value()
                    && after.prev_output() == before.prev_output(),
                Ok(_) => (after.value(), after.prev_output(), r) == derivative_step(
                    before.value(),
                    before.prev_output(),
                    after.input().get_spec(),
                ),
            }
    }

    ///The input can be updated and then read, and the difference quotient of what it returns
    ///then with the datum kept can be computed.
    open spec fn update_req(&self) -> bool {
        &&& self.input().update_req()
        &&& G::obeys_get_spec()
        &&& T::obeys_sub_spec()
        &&& N1::obeys_div_spec()
        &&& forall|g1: G, ri: NothingOrError<E>|
            #[trigger] G::update_spec(self.input(), g1, ri) && ri is Ok ==> g1.get_req()
                && derivative_defined(self.prev_output(), g1.get_spec())
    }

    fn update(&mut self) -> (r: NothingOrError<E>) {
        let ri = self.input.update();
        assert(G::update_spec(old(self).input(), self.input(), ri));
        if let Err(e) = ri {
            return Err(e);
        }
        let ghost input_after = self.input();
        let r = match self.input.get() {
            Err(error) => {
                self.value = Err(error);
                self.prev_output = None;
                Err(error)
            },
            Ok(None) => {
                self.value = Ok(None);
                self.prev_output = None;
                Ok(())
            },
            Ok(Some(output)) => match self.prev_output {
                None => {
                    self.prev_output = Some(output);
                    Ok(())
                },
                Some(prev) => {
                    let delta = time_between_exec(output.time, prev.time);
                    let value = output.value.sub(prev.value).div(delta);
                    self.value = Ok(Some(Datum::new(output.time, value)));
                    self.prev_output = Some(output);
                    Ok(())
                },
            },
        };
        assert(self.input() == input_after);
        assert(G::update_spec(old(self).input(), self.input(), ri));
        r
    }
}

///How an [`IntegralStream`] moves on once its input has been updated, from the output `value`
///and the datum `prev` kept from before and what the input returns now. An error or `Ok(None)`
///from the input becomes the output and clears the kept datum; the first datum is only kept;
///each later one adds the trapezoid between it and the kept one (half of the time between them
///times the sum of their values) to the integral held, or starts the integral with it if none is
///held, timestamped with the newer time.
pub open spec fn integral_step<T: Add<Output = N1>, N1, O: Half + Add<O, Output = O>, E>(
    value: Output<O, E>,
    prev: Option<Datum<T>>,
    input: Output<T, E>,
) -> (Output<O, E>, Option<Datum<T>>, NothingOrError<E>) where Time: Mul<N1, Output = O> {
    match input {
        Err(e) => (Err(e), None, Err(e)),
        Ok(None) => (Ok(None), None, Ok(())),
        Ok(Some(o)) => match prev {
            None => (value, Some(o), Ok(())),
            Some(p) => {
                let addend = time_between(o.time, p.time).mul_spec(
                    p.value.add_spec(o.value),
                ).half_spec();
                let total = match value {
                    Ok(Some(v)) => addend.add_spec(v.value),
                    _ => addend,
                };
                (Ok(Some(Datum { time: o.time, value: total })), Some(o), Ok(()))
            },
        },
    }
}

///The arithmetic of [`integral_step`] is defined: when the input returns a datum and one is
///kept, the sum of their values, its product with the time between them, and the sum of half of
///that with the integral held (if any) can be computed.
pub open spec fn integral_defined<T: Add<Output = N1>, N1, O: Half + Add<O, Output = O>, E>(
    value: Output<O, E>,
    prev: Option<Datum<T>>,
    input: Output<T, E>,
) -> bool where Time: Mul<N1, Output = O> {
    match (input, prev) {
        (Ok(Some(o)), Some(p)) => {
            let addend = time_between(o.time, p.time).mul_spec(p.value.add_spec(o.value)).half_spec();
            &&& p.value.add_req(o.value)
            &&& time_between(o.time, p.time).mul_req(p.value.add_spec(o.value))
            &&& value matches Ok(Some(v)) ==> addend.add_req(v.value)
        },
        _ => true,
    }
}

///A stream that computes the trapezoidal numerical integral of its input. The time between two
///data is computed in 64-bit arithmetic that wraps around at the ends of the range of `i64`.
pub struct IntegralStream<T, O, G, E> {
    input: G,
    value: Output<O, E>,
    prev_output: Option<Datum<T>>,
}

impl<T, O, G, E> IntegralStream<T, O, G, E> {
    ///Constructor for [`IntegralStream`].
    pub fn new(input: G) -> (r: Self)
        ensures
            r.input() == input,
            r.value() == Ok::<Option<Datum<O>>, E>(None),
            r.prev_output() == None::<Datum<T>>,
    {
        IntegralStream { input, value: Ok(None), prev_output: None }
    }

    ///The input getter.
    pub closed spec fn input(self) -> G {
        self.input
    }

    ///The integral held.
    pub closed spec fn value(self) -> Output<O, E> {
        self.value
    }

    ///The last datum of the input, kept for the next trapezoid.
    pub closed spec fn prev_output(self) -> Option<Datum<T>> {
        self.prev_output
    }
}

impl<T, N1, O, G, E> Getter<O, E> for IntegralStream<T, O, G, E> where
    T: Copy + Add<Output = N1>,
    Time: Mul<N1, Output = O>,
    O: Copy + Half + Add<O, Output = O>,
    G: Getter<T, E>,
    E: Copy,
 {
    open spec fn obeys_get_spec() -> bool {
        true
    }

    open spec fn get_spec(&self) -> Output<O, E> {
        self.value()
    }

    open spec fn get_req(&self) -> bool {
        true
    }

    fn get(&self) -> (r: Output<O, E>) {
        self.value
    }
}

impl<T, N1, O, G, E> Updatable<E> for IntegralStream<T, O, G, E> where
    T: Copy + Add<Output = N1>,
    Time: Mul<N1, Output = O>,
    O: Copy + Half + Add<O, Output = O>,
    G: Getter<T, E>,
    E: Copy,
 {
    open spec fn update_spec(before: Self, after: Self, r: NothingOrError<E>) -> bool {
        exists|ri: NothingOrError<E>|
            #[trigger] G::update_spec(before.input(), after.input(), ri) && match ri {
                Err(e) => r == Err::<(), E>(e) && after.value() == before.value()
                    && after.prev_output() == before.prev_output(),
                Ok(_) => (after.value(), after.prev_output(), r) == integral_step(
                    before.value(),
                    before.prev_output(),
                    after.input().get_spec(),
                ),
            }
    }

    ///The input can be updated and then read, and the trapezoid of what it returns then with the
    ///datum kept, and its sum with the integral held, can be computed.
    open spec fn update_req(&self) -> bool {
        &&& self.input().update_req()
        &&& G::obeys_get_spec()
        &&& T::obeys_add_spec()
        &&& Time::obeys_mul_spec()
        &&& O::obeys_add_spec()
        &&& O::obeys_half_spec()
        &&& forall|g1: G, ri: NothingOrError<E>|
            #[trigger] G::update_spec(self.input(), g1, ri) && ri is Ok ==> g1.get_req()
                && integral_defined(self.value(), self.prev_output(), g1.get_spec())
    }

    fn update(&mut self) -> (r: NothingOrError<E>) {
        let ri = self.input.update();
        assert(G::update_spec(old(self).input(), self.input(), ri));
        if let Err(e) = ri {
            return Err(e);
        }
        let ghost input_after = self.input();
        let r = match self.input.get() {
            Err(error) => {
                self.value = Err(error);
                self.prev_output = None;
                Err(error)
            },
            Ok(None) => {
                self.value = Ok(None);
                self.prev_output = None;
                Ok(())
            },
            Ok(Some(output)) => match self.prev_output {
                None => {
                    self.prev_output = Some(output);
                    Ok(())
                },
                Some(prev) => {
                    let delta_time = time_between_exec(output.time, prev.time);
                    let value_addend = delta_time.mul(prev.value.add(output.value)).half();
                    let value = match self.value {
                        Ok(Some(real_value)) => value_addend.add(real_value.value),
                        _ => value_addend,
                    };
                    self.value = Ok(Some(Datum::new(output.time, value)));
                    self.prev_output = Some(output);
                    Ok(())
                },
            },
        };
        assert(self.input() == input_after);
        assert(G::update_spec(old(self).input(), self.input(), ri));
        r
    }
}


///After an update in which the input returned a datum `o` and nothing failed, a
///[`DerivativeStream`] keeps `o` for the next difference; if it kept a datum `p` before, its
///output is the difference quotient of `o` and `p`, timestamped with `o`'s time.
pub proof fn law_derivative_step<T, N1, O, G, E>(
    before: DerivativeStream<T, O, G, E>,
    after: DerivativeStream<T, O, G, E>,
    r: NothingOrError<E>,
    o: Datum<T>,
) where
    T: Copy + Sub<Output = N1>,
    N1: Div<Time, Output = O>,
    O: Copy,
    G: Getter<T, E>,
    E: Copy,

    requires
        <DerivativeStream<T, O, G, E> as Updatable<E>>::update_spec(before, after, r),
        after.input().get_spec() == Ok::<Option<Datum<T>>, E>(Some(o)),
        r is Ok,
    ensures
        after.prev_output() == Some(o),
        before.prev_output() matches Some(p) ==> fits_i64(o.time.0 - p.time.0) ==> after.value()
            == Ok::<Option<Datum<O>>, E>(
            Some(
                Datum {
                    time: o.time,
                    value: o.value.sub_spec(p.value).div_spec(Time((o.time.0 - p.time.0) as i64)),
                },
            ),
        ),
{
}

///Two successive updates of a [`DerivativeStream`] in which the input returns `o1` and then `o2`
///leave as output the difference quotient of these two most recent data, whatever was kept
///before.
pub proof fn law_derivative_of_latest_two<T, N1, O, G, E>(
    s0: DerivativeStream<T, O, G, E>,
    s1: DerivativeStream<T, O, G, E>,
    s2: DerivativeStream<T, O, G, E>,
    r1: NothingOrError<E>,
    r2: NothingOrError<E>,
    o1: Datum<T>,
    o2: Datum<T>,
) where
    T: Copy + Sub<Output = N1>,
    N1: Div<Time, Output = O>,
    O: Copy,
    G: Getter<T, E>,
    E: Copy,

    requires
        <DerivativeStream<T, O, G, E> as Updatable<E>>::update_spec(s0, s1, r1),
        <DerivativeStream<T, O, G, E> as Updatable<E>>::update_spec(s1, s2, r2),
        s1.input().get_spec() == Ok::<Option<Datum<T>>, E>(Some(o1)),
        s2.input().get_spec() == Ok::<Option<Datum<T>>, E>(Some(o2)),
        r1 is Ok,
        r2 is Ok,
        fits_i64(o2.time.0 - o1.time.0),
    ensures
        s2.prev_output() == Some(o2),
        s2.value() == Ok::<Option<Datum<O>>, E>(
            Some(
                Datum {
                    time: o2.time,
                    value: o2.value.sub_spec(o1.value).div_spec(Time((o2.time.0 - o1.time.0) as i64)),
                },
            ),
        ),
{
    law_derivative_step(s0, s1, r1, o1);
    law_derivative_step(s1, s2, r2, o2);
}

///After an update in which the input returned a datum `o` and nothing failed, an
///[`IntegralStream`] keeps `o`; if it kept a datum `p` before, it adds to the integral held (if
///any) the trapezoid between `p` and `o`: half of the time between them times the sum of their
///values, timestamped with `o`'s time.
pub proof fn law_integral_step<T, N1, O, G, E>(
    before: IntegralStream<T, O, G, E>,
    after: IntegralStream<T, O, G, E>,
    r: NothingOrError<E>,
    o: Datum<T>,
) where
    T: Copy + Add<Output = N1>,
    Time: Mul<N1, Output = O>,
    O: Copy + Half + Add<O, Output = O>,
    G: Getter<T, E>,
    E: Copy,

    requires
        <IntegralStream<T, O, G, E> as Updatable<E>>::update_spec(before, after, r),
        after.input().get_spec() == Ok::<Option<Datum<T>>, E>(Some(o)),
        r is Ok,
    ensures
        after.prev_output() == Some(o),
        before.prev_output() is None ==> after.value() == before.value(),
        before.prev_output() matches Some(p) ==> fits_i64(o.time.0 - p.time.0) ==> {
            let trapezoid = Time((o.time.0 - p.time.0) as i64).mul_spec(p.value.add_spec(o.value)).half_spec();
            after.value() == Ok::<Option<Datum<O>>, E>(
                Some(
                    Datum {
                        time: o.time,
                        value: match before.value() {
                            Ok(Some(v)) => trapezoid.add_spec(v.value),
                            _ => trapezoid,
                        },
                    },
                ),
            )
        },
{
}

///Starting from a new [`IntegralStream`] (no integral held, no datum kept), two successive
///updates in which the input returns `o1` and then `o2` leave as integral exactly the trapezoid
///between them: half of the time between them times the sum of their values.
pub proof fn law_integral_of_first_two<T, N1, O, G, E>(
    s0: IntegralStream<T, O, G, E>,
    s1: IntegralStream<T, O, G, E>,
    s2: IntegralStream<T, O, G, E>,
    r1: NothingOrError<E>,
    r2: NothingOrError<E>,
    o1: Datum<T>,
    o2: Datum<T>,
) where
    T: Copy + Add<Output = N1>,
    Time: Mul<N1, Output = O>,
    O: Copy + Half + Add<O, Output = O>,
    G: Getter<T, E>,
    E: Copy,

    requires
        s0.value() == Ok::<Option<Datum<O>>, E>(None),
        s0.prev_output() == None::<Datum<T>>,
        <IntegralStream<T, O, G, E> as Updatable<E>>::update_spec(s0, s1, r1),
        <IntegralStream<T, O, G, E> as Updatable<E>>::update_spec(s1, s2, r2),
        s1.input().get_spec() == Ok::<Option<Datum<T>>, E>(Some(o1)),
        s2.input().get_spec() == Ok::<Option<Datum<T>>, E>(Some(o2)),
        r1 is Ok,
        r2 is Ok,
        fits_i64(o2.time.0 - o1.time.0),
    ensures
        s2.value() == Ok::<Option<Datum<O>>, E>(
            Some(
                Datum {
                    time: o2.time,
                    value: Time((o2.time.0 - o1.time.0) as i64).mul_spec(
                        o1.value.add_spec(o2.value),
                    ).half_spec(),
                },
            ),
        ),
{
    law_integral_step(s0, s1, r1, o1);
    law_integral_step(s1, s2, r2, o2);
}

///The timestamp of a sum or product of outputs is the latest of the inputs' timestamps: when the
///fold gives a datum, every input is a datum no later than it, and one of them has its time.
pub proof fn law_fold_time_is_latest<T, E>(outs: Seq<Output<T, E>>, combine: spec_fn(T, T) -> T)
    requires
        fold_outputs(outs, combine) is Ok,
        fold_outputs(outs, combine)->Ok_0 is Some,
    ensures
        ({
            let d = fold_outputs(outs, combine)->Ok_0->Some_0;
            &&& forall|i: int|
                0 <= i < outs.len() ==> (#[trigger] outs[i]) is Ok && outs[i]->Ok_0 is Some
                    && outs[i]->Ok_0->Some_0.time.0 <= d.time.0
            &&& exists|i: int|
                0 <= i < outs.len() && #[trigger] outs[i] == Ok::<Option<Datum<T>>, E>(
                    Some(Datum { time: d.time, value: outs[i]->Ok_0->Some_0.value }),
                )
        }),
    decreases outs.len(),
{
    if outs.len() > 1 {
        let init = outs.drop_last();
        law_fold_time_is_latest(init, combine);
        let acc = fold_outputs(init, combine)->Ok_0->Some_0;
        let last = outs.last()->Ok_0->Some_0;
        let d = fold_outputs(outs, combine)->Ok_0->Some_0;
        assert forall|i: int| 0 <= i < outs.len() implies (#[trigger] outs[i]) is Ok
            && outs[i]->Ok_0 is Some && outs[i]->Ok_0->Some_0.time.0 <= d.time.0 by {
            if i < outs.len() - 1 {
                assert(outs[i] == init[i]);
            }
        }
        if acc.time.0 >= last.time.0 {
            let k = choose|k: int|
                0 <= k < init.len() && #[trigger] init[k] == Ok::<Option<Datum<T>>, E>(
                    Some(Datum { time: acc.time, value: init[k]->Ok_0->Some_0.value }),
                );
            assert(outs[k] == init[k]);
        } else {
            assert(outs[outs.len() - 1] == outs.last());
        }
    } else {
        assert(outs.len() == 1);
    }
}


///The result of combining two outputs (as [`Sum2`], [`Product2`], [`DifferenceStream`] and
///[`QuotientStream`] do) is a datum only when both outputs are, and it carries the later of their
///two times.
pub proof fn law_pair_time_is_latest<A, B, C, E>(
    o1: Output<A, E>,
    o2: Output<B, E>,
    op: spec_fn(A, B) -> C,
)
    ensures
        combine_lazily(o1, o2, op) matches Ok(Some(d)) ==> (o1 matches Ok(Some(x)) && (o2 matches Ok(
            Some(y),
        ) && x.time.0 <= d.time.0 && y.time.0 <= d.time.0 && (d.time == x.time || d.time
            == y.time))),
        combine_eagerly(o1, o2, op) matches Ok(Some(d)) ==> (o1 matches Ok(Some(x)) && (o2 matches Ok(
            Some(y),
        ) && x.time.0 <= d.time.0 && y.time.0 <= d.time.0 && (d.time == x.time || d.time
            == y.time))),
{
}

} // verus!

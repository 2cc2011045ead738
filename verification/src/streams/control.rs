//!Streams that smooth their input over time.
use vstd::prelude::*;
use std::collections::VecDeque;
use core::ops::{Add, Div, Mul};
use vstd::std_specs::ops::{AddSpec, DivSpec, MulSpec};
use crate::datum::{Datum, Output};
use crate::dimensions::Time;
use crate::error::NothingOrError;
use crate::interfaces::{Getter, Updatable};
use crate::streams::math::{time_between, time_between_exec};

verus! {



///The data still inside the window: those at the front whose timestamps are at or before
///`cutoff` are dropped, up to the first one after it.
pub open spec fn drop_expired<T>(data: Seq<Datum<T>>, cutoff: Time) -> Seq<Datum<T>>
    decreases data.len(),
{
    if data.len() > 0 && data[0].time.0 <= cutoff.0 {
        drop_expired(data.drop_first(), cutoff)
    } else {
        data
    }
}

///The weight of the datum at `i`: the time since the datum before it, or since `cutoff` for the
///first one.
pub open spec fn weight<T>(data: Seq<Datum<T>>, cutoff: Time, i: int) -> Time {
    time_between(
        data[i].time,
        if i == 0 {
            cutoff
        } else {
            data[i - 1].time
        },
    )
}

///`start` plus the values of the first `n` data, each multiplied by its weight, added from the
///front.
pub open spec fn weighted_sum<T: Mul<Time>>(
    data: Seq<Datum<T>>,
    cutoff: Time,
    start: <T as Mul<Time>>::Output,
    n: nat,
) -> <T as Mul<Time>>::Output where <T as Mul<Time>>::Output: Add<Output = <T as Mul<Time>>::Output>
    decreases n,
{
    if n == 0 {
        start
    } else {
        weighted_sum(data, cutoff, start, (n - 1) as nat).add_spec(
            data[n - 1].value.mul_spec(weight(data, cutoff, n - 1)),
        )
    }
}

///The arithmetic of the weighted average of `data` over `window`, with the sum starting at
///`start`, stays within what the types can compute: every product of a value and its weight,
///every partial sum, and the final division.
pub open spec fn average_defined<T: Mul<Time>>(
    data: Seq<Datum<T>>,
    cutoff: Time,
    start: <T as Mul<Time>>::Output,
    window: Time,
) -> bool where
    <T as Mul<Time>>::Output: Add<Output = <T as Mul<Time>>::Output> + Div<Time, Output = T>,
 {
    &&& forall|i: int|
        0 <= i < data.len() ==> #[trigger] data[i].value.mul_req(weight(data, cutoff, i))
            && weighted_sum(data, cutoff, start, i as nat).add_req(
            data[i].value.mul_spec(weight(data, cutoff, i)),
        )
    &&& weighted_sum(data, cutoff, start, data.len()).div_req(window)
}

///A moving average stream for use with the stream system. Each update updates the input and,
///when it returns a datum, keeps the data of the last `window` of time and returns their average
///weighted by the time each of them covers, timestamped with the newest one. The weighted sum
///starts from the `Default` value of the product of a value and a time. Time differences are computed in 64-bit arithmetic that wraps
///around at the ends of the range of `i64`.
pub struct MovingAverageStream<T, G, E> {
    input: G,
    window: Time,
    value: Output<T, E>,
    input_values: VecDeque<Datum<T>>,
}

impl<T, G, E> MovingAverageStream<T, G, E> {
    ///Constructor for [`MovingAverageStream`].
    pub fn new(input: G, window: Time) -> (r: Self)
        ensures
            r.input() == input,
            r.window() == window,
            r.value() == Ok::<Option<Datum<T>>, E>(None),
            r.input_values() == Seq::<Datum<T>>::empty(),
    {
        MovingAverageStream { input, window, value: Ok(None), input_values: VecDeque::new() }
    }

    ///The input getter.
    pub closed spec fn input(self) -> G {
        self.input
    }

    ///The length of time over which the average is taken.
    pub closed spec fn window(self) -> Time {
        self.window
    }

    ///The output held.
    pub closed spec fn value(self) -> Output<T, E> {
        self.value
    }

    ///The data inside the window, oldest first.
    pub closed spec fn input_values(self) -> Seq<Datum<T>> {
        self.input_values@
    }
}

impl<T: Copy, G: Getter<T, E>, E: Copy> Getter<T, E> for MovingAverageStream<T, G, E> where
    T: Mul<Time>,
    <T as Mul<Time>>::Output: Default + Add<Output = <T as Mul<Time>>::Output> + Div<
        Time,
        Output = T,
    >,
 {
    open spec fn obeys_get_spec() -> bool {
        true
    }

    open spec fn get_spec(&self) -> Output<T, E> {
        self.value()
    }

    open spec fn get_req(&self) -> bool {
        true
    }

    fn get(&self) -> (r: Output<T, E>) {
        self.value
    }
}

impl<T: Copy, G: Getter<T, E>, E: Copy> Updatable<E> for MovingAverageStream<T, G, E> where
    T: Mul<Time>,
    <T as Mul<Time>>::Output: Default + Add<Output = <T as Mul<Time>>::Output> + Div<
        Time,
        Output = T,
    >,
 {
    open spec fn update_spec(before: Self, after: Self, r: NothingOrError<E>) -> bool {
        exists|ri: NothingOrError<E>|
            #[trigger] G::update_spec(before.input(), after.input(), ri) && after.window()
                == before.window() && match ri {
                Err(e) => r == Err::<(), E>(e) && after.value() == before.value()
                    && after.input_values() == before.input_values(),
                Ok(_) => match after.input().get_spec() {
                    Err(e) => r == Err::<(), E>(e) && after.value() == Err::<Option<Datum<T>>, E>(
                        e,
                    ) && after.input_values() == Seq::<Datum<T>>::empty(),
                    Ok(None) => r == Ok::<(), E>(()) && after.input_values()
                        == before.input_values() && after.value() == if before.value() is Err {
                        Ok::<Option<Datum<T>>, E>(None)
                    } else {
                        before.value()
                    },
                    Ok(Some(d)) => {
                        let cutoff = time_between(d.time, before.window());
                        let kept = drop_expired(before.input_values().push(d), cutoff);
                        &&& r == Ok::<(), E>(())
                        &&& after.input_values() == kept
                        &&& exists|start: <T as Mul<Time>>::Output|
                            call_ensures(<T as Mul<Time>>::Output::default, (), start)
                                && after.value() == Ok::<Option<Datum<T>>, E>(
                                Some(
                                    Datum {
                                        time: d.time,
                                        value: weighted_sum(
                                            kept,
                                            cutoff,
                                            start,
                                            kept.len(),
                                        ).div_spec(before.window()),
                                    },
                                ),
                            )
                    },
                },
            }
    }

    ///The input can be updated and then read, and the average of the data kept after it returns
    ///a datum can be computed, starting from any value that `default` may return.
    open spec fn update_req(&self) -> bool {
        &&& self.input().update_req()
        &&& G::obeys_get_spec()
        &&& T::obeys_mul_spec()
        &&& <T as Mul<Time>>::Output::obeys_add_spec()
        &&& <T as Mul<Time>>::Output::obeys_div_spec()
        &&& forall|g1: G, ri: NothingOrError<E>|
            #[trigger] G::update_spec(self.input(), g1, ri) && ri is Ok ==> {
                &&& g1.get_req()
                &&& g1.get_spec() matches Ok(Some(d)) ==> forall|start: <T as Mul<Time>>::Output|
                    #[trigger] call_ensures(<T as Mul<Time>>::Output::default, (), start)
                        ==> average_defined(
                        drop_expired(self.input_values().push(d), time_between(d.time, self.window())),
                        time_between(d.time, self.window()),
                        start,
                        self.window(),
                    )
            }
    }

    fn update(&mut self) -> (r: NothingOrError<E>) {
        let ri = self.input.update();
        assert(G::update_spec(old(self).input(), self.input(), ri));
        if let Err(e) = ri {
            return Err(e);
        }
        let ghost input_after = self.input();
        let r = match self.input.get() {
            Err(error) => {
                self.value = Err(error);
                self.input_values.clear();
                Err(error)
            },
            Ok(None) => {
                if let Err(_) = self.value {
                    self.value = Ok(None);
                }
                Ok(())
            },
            Ok(Some(output)) => {
                let cutoff = time_between_exec(output.time, self.window);
                self.input_values.push_back(output);
                let ghost kept = drop_expired(self.input_values@, cutoff);
                while self.input_values.len() > 0 && self.input_values[0].time.0 <= cutoff.0
                    invariant
                        drop_expired(self.input_values@, cutoff) == kept,
                        self.input() == input_after,
                        self.window() == old(self).window(),
                    decreases self.input_values@.len(),
                {
                    let ghost current = self.input_values@;
                    assert(drop_expired(current, cutoff) == drop_expired(
                        current.drop_first(),
                        cutoff,
                    ));
                    self.input_values.pop_front();
                    assert(self.input_values@ =~= current.drop_first());
                }
                assert(self.input_values@ == kept);
                let mut value = <T as Mul<Time>>::Output::default();
                let ghost start = value;
                let n = self.input_values.len();
                let mut i: usize = 0;
                while i < n
                    invariant
                        T::obeys_mul_spec(),
                        <T as Mul<Time>>::Output::obeys_add_spec(),
                        average_defined(kept, cutoff, start, old(self).window()),
                        self.input_values@ == kept,
                        n == kept.len(),
                        0 <= i <= n,
                        value == weighted_sum(kept, cutoff, start, i as nat),
                        self.input() == input_after,
                        self.window() == old(self).window(),
                    decreases n - i,
                {
                    let since = if i == 0 {
                        cutoff
                    } else {
                        self.input_values[i - 1].time
                    };
                    let w = time_between_exec(self.input_values[i].time, since);
                    assert(w == weight(kept, cutoff, i as int));
                    assert(kept[i as int].value.mul_req(weight(kept, cutoff, i as int)));
                    value = value.add(self.input_values[i].value.mul(w));
                    i += 1;
                }
                let average = value.div(self.window);
                self.value = Ok(Some(Datum::new(output.time, average)));
                Ok(())
            },
        };
        assert(self.input() == input_after);
        assert(G::update_spec(old(self).input(), self.input(), ri));
        r
    }
}

} // verus!

//!There are some special [`Getter`]s that hold other `Getter`s that they use as input for some
//!form of data processing. These are called *streams*. Streams are designed to be chained
//!together for more complex operations.
//!
//!Each stream's output is stated as a function of its inputs' outputs, and each stream's update
//!as the updates of its inputs in the order in which it makes them: an input whose update fails
//!stops the update there, and the inputs after it are left as they were.
use vstd::prelude::*;
use crate::datum::{newer, Datum, Output};
use crate::error::NothingOrError;
use crate::interfaces::{Getter, TimeGetter, Updatable};
use crate::dimensions::Time;

pub mod control;
pub mod converters;
pub mod flow;
pub mod logic;
pub mod math;

verus! {

///Errors for streams.
#[derive(Clone, Copy, Debug)]
pub enum StreamError<O> {
    ///Returned when a `SumStream` has no inputs.
    EmptyAddendVec,
    ///Returned when a `ProductStream` has no inputs.
    EmptyFactorVec,
    ///Returned when a `None` is elevated to an error by a `NoneToError`.
    FromNone,
    ///Another error.
    Other(O),
}

///Updating `a0` to `a1` and then, if that succeeded, `b0` to `b1`, with result `r`. If the
///first update fails, its error is the result and `b` is left as it was.
pub open spec fn two_updates<A: Updatable<E>, B: Updatable<E>, E>(
    a0: A,
    a1: A,
    b0: B,
    b1: B,
    r: NothingOrError<E>,
) -> bool {
    exists|ra: NothingOrError<E>|
        #[trigger] A::update_spec(a0, a1, ra) && match ra {
            Ok(_) => B::update_spec(b0, b1, r),
            Err(e) => r == Err::<(), E>(e) && b1 == b0,
        }
}

///Updating three objects in order, stopping at the first failure.
pub open spec fn three_updates<A: Updatable<E>, B: Updatable<E>, C: Updatable<E>, E>(
    a0: A,
    a1: A,
    b0: B,
    b1: B,
    c0: C,
    c1: C,
    r: NothingOrError<E>,
) -> bool {
    exists|ra: NothingOrError<E>|
        #[trigger] A::update_spec(a0, a1, ra) && match ra {
            Ok(_) => two_updates(b0, b1, c0, c1, r),
            Err(e) => r == Err::<(), E>(e) && b1 == b0 && c1 == c0,
        }
}

///Updating a sequence of objects in order, stopping at the first failure: the objects before
///index `k` were updated successfully, the one at `k` (if any) failed with the returned error,
///and the rest were left as they were.
pub open spec fn updates_in_order<G: Updatable<E>, E>(
    before: Seq<G>,
    after: Seq<G>,
    r: NothingOrError<E>,
) -> bool {
    &&& before.len() == after.len()
    &&& exists|k: int|
        #![trigger updated_prefix(before, after, k)]
        0 <= k <= before.len() && updated_prefix(before, after, k) && (forall|i: int|
            k < i < before.len() ==> after[i] == before[i]) && if k == before.len() {
            r == Ok::<(), E>(())
        } else {
            exists|e: E| #[trigger] G::update_spec(before[k], after[k], Err(e)) && r == Err::<(), E>(e)
        }
}

///The objects before index `k` were all updated successfully.
pub open spec fn updated_prefix<G: Updatable<E>, E>(before: Seq<G>, after: Seq<G>, k: int) -> bool {
    forall|i: int| 0 <= i < k ==> #[trigger] G::update_spec(before[i], after[i], Ok(()))
}

///Every object of the sequence can be updated.
pub open spec fn all_update_req<G: Updatable<E>, E>(s: Seq<G>) -> bool {
    forall|i: int| 0 <= i < s.len() ==> #[trigger] s[i].update_req()
}

///Every getter of the sequence can be read.
pub open spec fn all_get_req<T, G: Getter<T, E>, E>(s: Seq<G>) -> bool {
    forall|i: int| 0 <= i < s.len() ==> #[trigger] s[i].get_req()
}

///Updates every element of `inputs` in order, stopping at the first failure.
pub fn update_all<const C: usize, G: Updatable<E>, E>(inputs: &mut [G; C]) -> (r: NothingOrError<E>)
    requires
        all_update_req(old(inputs)@),
    ensures
        updates_in_order(old(inputs)@, final(inputs)@, r),
{
    let ghost before = inputs@;
    let mut i: usize = 0;
    while i < C
        invariant
            all_update_req(before),
            0 <= i <= C,
            inputs@.len() == C,
            before.len() == C,
            before == old(inputs)@,
            updated_prefix(before, inputs@, i as int),
            forall|j: int| i <= j < C ==> inputs@[j] == before[j],
        decreases C - i,
    {
        let ghost mid = inputs@;
        assert(before[i as int].update_req());
        let ri = inputs[i].update();
        assert(forall|j: int| 0 <= j < C && j != i ==> inputs@[j] == mid[j]);
        assert(updated_prefix(before, inputs@, i as int)) by {
            assert forall|j: int| 0 <= j < i implies #[trigger] G::update_spec(
                before[j],
                inputs@[j],
                Ok(()),
            ) by {
                assert(inputs@[j] == mid[j]);
            }
        }
        match ri {
            Ok(u) => {
                assert(ri == Ok::<(), E>(()));
                assert(updated_prefix(before, inputs@, i + 1)) by {
                    assert forall|j: int| 0 <= j < i + 1 implies #[trigger] G::update_spec(
                        before[j],
                        inputs@[j],
                        Ok(()),
                    ) by {
                        if j < i {
                            assert(inputs@[j] == mid[j]);
                        }
                    }
                }
            },
            Err(e) => {
                assert(G::update_spec(before[i as int], inputs@[i as int], Err(e)));
                assert(forall|j: int| i < j < C ==> inputs@[j] == before[j]);
                return Err(e);
            },
        }
        i += 1;
    }
    assert(updated_prefix(before, inputs@, C as int));
    Ok(())
}

///Returns the output of whichever input has the latest timestamp, the earliest such input on a
///tie. This is almost identical to [`Latest2`] except that it can hold an arbitrary number of
///inputs and those inputs need to be of the same type.
pub struct Latest<const C: usize, G> {
    inputs: [G; C],
}

///The latest of the outputs, processed in order: the first error stops the search, `None`s are
///skipped, and a datum replaces the one found so far only when it is strictly newer.
pub open spec fn latest_of<T, E>(outs: Seq<Output<T, E>>) -> Output<T, E>
    decreases outs.len(),
{
    if outs.len() == 0 {
        Ok(None)
    } else {
        match latest_of(outs.drop_last()) {
            Err(e) => Err(e),
            Ok(found) => match outs.last() {
                Err(e) => Err(e),
                Ok(None) => Ok(found),
                Ok(Some(g)) => Ok(
                    Some(
                        match found {
                            None => g,
                            Some(f) => if g.time.0 > f.time.0 {
                                g
                            } else {
                                f
                            },
                        },
                    ),
                ),
            },
        }
    }
}

///Once the outputs processed so far hold an error, that error is the result whatever follows.
pub proof fn lemma_latest_of_error_sticks<T, E>(outs: Seq<Output<T, E>>, i: int)
    requires
        0 <= i <= outs.len(),
        latest_of(outs.take(i)) is Err,
    ensures
        latest_of(outs) == latest_of(outs.take(i)),
    decreases outs.len() - i,
{
    if i < outs.len() {
        assert(outs.take(i + 1).drop_last() =~= outs.take(i));
        lemma_latest_of_error_sticks(outs, i + 1);
    } else {
        assert(outs.take(i) =~= outs);
    }
}

///The outputs of the elements of a sequence of getters.
pub open spec fn outputs_of<T, E, G: Getter<T, E>>(gs: Seq<G>) -> Seq<Output<T, E>> {
    gs.map_values(|g: G| g.get_spec())
}

impl<const C: usize, G> Latest<C, G> {
    ///Constructor for [`Latest`].
    pub fn new(inputs: [G; C]) -> (r: Self)
        ensures
            r.inputs() == inputs@,
    {
        Latest { inputs }
    }

    ///The inputs.
    pub closed spec fn inputs(self) -> Seq<G> {
        self.inputs@
    }
}

impl<T, const C: usize, G: Getter<T, E>, E> Getter<T, E> for Latest<C, G> {
    open spec fn obeys_get_spec() -> bool {
        G::obeys_get_spec()
    }

    open spec fn get_spec(&self) -> Output<T, E> {
        latest_of(outputs_of(self.inputs()))
    }

    open spec fn get_req(&self) -> bool {
        all_get_req::<T, G, E>(self.inputs())
    }

    fn get(&self) -> (r: Output<T, E>) {
        let ghost outs = outputs_of::<T, E, G>(self.inputs@);
        let mut output: Option<Datum<T>> = None;
        let mut i: usize = 0;
        while i < C
            invariant
                all_get_req::<T, G, E>(self.inputs@),
                0 <= i <= C,
                outs.len() == C,
                outs == outputs_of::<T, E, G>(self.inputs@),
                G::obeys_get_spec() ==> latest_of(outs.take(i as int)) == Ok::<Option<Datum<T>>, E>(
                    output,
                ),
            decreases C - i,
        {
            assert(outs.take(i + 1).drop_last() =~= outs.take(i as int));
            let gotten = self.inputs[i].get();
            match gotten {
                Err(e) => {
                    proof {
                        if G::obeys_get_spec() {
                            lemma_latest_of_error_sticks(outs, i + 1);
                        }
                    }
                    return Err(e);
                },
                Ok(None) => {},
                Ok(Some(g)) => {
                    match output {
                        Some(f) => {
                            if g.time.0 > f.time.0 {
                                output = Some(g);
                            } else {
                                output = Some(f);
                            }
                        },
                        None => {
                            output = Some(g);
                        },
                    }
                },
            }
            i += 1;
        }
        assert(outs.take(C as int) =~= outs);
        Ok(output)
    }
}

impl<const C: usize, G: Updatable<E>, E> Updatable<E> for Latest<C, G> {
    open spec fn update_spec(before: Self, after: Self, r: NothingOrError<E>) -> bool {
        updates_in_order(before.inputs(), after.inputs(), r)
    }

    open spec fn update_req(&self) -> bool {
        all_update_req(self.inputs())
    }

    fn update(&mut self) -> (r: NothingOrError<E>) {
        update_all(&mut self.inputs)
    }
}

///Returns the output of whichever input has the latest timestamp, the first input on a tie.
///This is almost identical to [`Latest`] except that it can only hold 2 inputs and those inputs
///can be of different types.
pub struct Latest2<G1, G2> {
    input1: G1,
    input2: G2,
}

///The output of [`Latest2`] for the outputs of its two inputs.
pub open spec fn latest2_of<T, E>(o1: Output<T, E>, o2: Output<T, E>) -> Output<T, E> {
    match o1 {
        Err(e) => Err(e),
        Ok(None) => o2,
        Ok(Some(d1)) => match o2 {
            Err(e) => Err(e),
            Ok(None) => Ok(Some(d1)),
            Ok(Some(d2)) => Ok(Some(newer(d1, d2))),
        },
    }
}

impl<G1, G2> Latest2<G1, G2> {
    ///Constructor for `Latest2`.
    pub fn new(input1: G1, input2: G2) -> (r: Self)
        ensures
            r.input1() == input1,
            r.input2() == input2,
    {
        Latest2 { input1, input2 }
    }

    ///The first input.
    pub closed spec fn input1(self) -> G1 {
        self.input1
    }

    ///The second input.
    pub closed spec fn input2(self) -> G2 {
        self.input2
    }
}

impl<G1: Updatable<E>, G2: Updatable<E>, E> Updatable<E> for Latest2<G1, G2> {
    open spec fn update_spec(before: Self, after: Self, r: NothingOrError<E>) -> bool {
        two_updates(before.input1(), after.input1(), before.input2(), after.input2(), r)
    }

    open spec fn update_req(&self) -> bool {
        self.input1().update_req() && self.input2().update_req()
    }

    fn update(&mut self) -> (r: NothingOrError<E>) {
        self.input1.update()?;
        self.input2.update()
    }
}

impl<T, G1: Getter<T, E>, G2: Getter<T, E>, E> Getter<T, E> for Latest2<G1, G2> {
    open spec fn obeys_get_spec() -> bool {
        G1::obeys_get_spec() && G2::obeys_get_spec()
    }

    open spec fn get_spec(&self) -> Output<T, E> {
        latest2_of(self.input1().get_spec(), self.input2().get_spec())
    }

    open spec fn get_req(&self) -> bool {
        self.input1().get_req() && self.input2().get_req()
    }

    fn get(&self) -> (r: Output<T, E>) {
        let gotten_from_1 = match self.input1.get() {
            Err(error) => return Err(error),
            Ok(None) => return self.input2.get(),
            Ok(Some(datum)) => datum,
        };
        match self.input2.get() {
            Err(error) => Err(error),
            Ok(None) => Ok(Some(gotten_from_1)),
            Ok(Some(gotten_from_2)) => Ok(Some(crate::datum::latest(gotten_from_1, gotten_from_2))),
        }
    }
}

///Expires data that are too old to be useful. Timestamps of data from the input `Getter` are
///compared to the current time sourced from the `TimeGetter`, and `Ok(None)` is returned instead
///of the datum if the difference exceeds `max_time_delta`.
pub struct Expirer<G, TG> {
    input: G,
    time_getter: TG,
    max_time_delta: Time,
}

impl<G, TG> Expirer<G, TG> {
    ///Constructor for [`Expirer`].
    pub fn new(input: G, time_getter: TG, max_time_delta: Time) -> (r: Self)
        ensures
            r.input() == input,
            r.time_getter() == time_getter,
            r.max_time_delta() == max_time_delta,
    {
        Expirer { input, time_getter, max_time_delta }
    }

    ///The input.
    pub closed spec fn input(self) -> G {
        self.input
    }

    ///The time getter.
    pub closed spec fn time_getter(self) -> TG {
        self.time_getter
    }

    ///The greatest age of a datum that is still passed on.
    pub closed spec fn max_time_delta(self) -> Time {
        self.max_time_delta
    }
}

impl<T, G: Getter<T, E>, TG: TimeGetter<E>, E> Getter<T, E> for Expirer<G, TG> {
    open spec fn obeys_get_spec() -> bool {
        G::obeys_get_spec() && TG::obeys_time_get_spec()
    }

    open spec fn get_spec(&self) -> Output<T, E> {
        match self.input().get_spec() {
            Err(e) => Err(e),
            Ok(None) => Ok(None),
            Ok(Some(d)) => match self.time_getter().time_get_spec() {
                Err(e) => Err(e),
                Ok(now) => if now.0 - d.time.0 > self.max_time_delta().0 {
                    Ok(None)
                } else {
                    Ok(Some(d))
                },
            },
        }
    }

    open spec fn get_req(&self) -> bool {
        self.input().get_req() && self.time_getter().time_get_req()
    }

    fn get(&self) -> (r: Output<T, E>) {
        let output = match self.input.get()? {
            Some(datum) => datum,
            None => return Ok(None),
        };
        let time = self.time_getter.get()?;
        let age: i128 = time.0 as i128 - output.time.0 as i128;
        if age > self.max_time_delta.0 as i128 {
            return Ok(None);
        }
        Ok(Some(output))
    }
}

impl<G: Updatable<E>, TG: Updatable<E>, E> Updatable<E> for Expirer<G, TG> {
    open spec fn update_spec(before: Self, after: Self, r: NothingOrError<E>) -> bool {
        &&& two_updates(
            before.time_getter(),
            after.time_getter(),
            before.input(),
            after.input(),
            r,
        )
        &&& after.max_time_delta() == before.max_time_delta()
    }

    open spec fn update_req(&self) -> bool {
        self.time_getter().update_req() && self.input().update_req()
    }

    fn update(&mut self) -> (r: NothingOrError<E>) {
        self.time_getter.update()?;
        self.input.update()?;
        Ok(())
    }
}

///The text that messages of a debug stream with the given name start with: the name followed by
///`": "`, or nothing without a name.
pub open spec fn debug_prefix(name: Option<Seq<char>>) -> Seq<char> {
    match name {
        Some(n) => n + seq![':', ' '],
        None => Seq::empty(),
    }
}

///The settings of a debug stream, which prints what passes through it: whether it is silent, and
///the name that its messages start with. The printing itself is left to the program around the
///library.
pub struct DebugLabel {
    silent: bool,
    name: Option<String>,
}

impl DebugLabel {
    ///Whether printing is disabled.
    pub closed spec fn silent(&self) -> bool {
        self.silent
    }

    ///The name prepended to all messages, if any.
    pub closed spec fn name(&self) -> Option<Seq<char>> {
        match self.name {
            Some(n) => Some(n@),
            None => None,
        }
    }

    ///Settings that print, with no name.
    pub fn new() -> (r: Self)
        ensures
            !r.silent(),
            r.name() == None::<Seq<char>>,
    {
        DebugLabel { silent: false, name: None }
    }

    ///Settings that print, with a name that will be prepended to all messages.
    pub fn with_name(name: String) -> (r: Self)
        ensures
            !r.silent(),
            r.name() == Some(name@),
    {
        DebugLabel { silent: false, name: Some(name) }
    }

    ///Enable or disable printing: `true` disables it and `false` reenables it.
    pub fn set_silent(&mut self, silent: bool)
        ensures
            final(self).silent() == silent,
            final(self).name() == old(self).name(),
    {
        self.silent = silent;
    }

    ///Change, add, or remove the name that is prepended to all messages.
    pub fn change_name(&mut self, name: Option<String>)
        ensures
            final(self).silent() == old(self).silent(),
            final(self).name() == match name {
                Some(n) => Some(n@),
                None => None::<Seq<char>>,
            },
    {
        self.name = name;
    }

    ///Whether printing is disabled.
    pub fn is_silent(&self) -> (r: bool)
        ensures
            r == self.silent(),
    {
        self.silent
    }

    ///The text that messages start with: the name followed by `": "`, or nothing.
    pub fn to_prepend(&self) -> (r: String)
        ensures
            r@ == debug_prefix(self.name()),
    {
        match &self.name {
            Some(name) => {
                proof {
                    reveal_strlit(": ");
                }
                name.clone().concat(": ")
            },
            None => String::new(),
        }
    }
}

///The output holds no datum with a later timestamp than `d`.
pub open spec fn no_later_datum<T, E>(o: Output<T, E>, d: Datum<T>) -> bool {
    match o {
        Ok(Some(x)) => x.time.0 <= d.time.0,
        _ => true,
    }
}

///What [`Latest`] returns is the newest datum: a datum that one of the inputs returned, with no
///input returning a datum with a later timestamp; `Ok(None)` only when every input returns
///`Ok(None)`; and an error only when an input returns it and no input before it does.
pub proof fn law_latest_is_newest<T, E>(outs: Seq<Output<T, E>>)
    ensures
        latest_of(outs) matches Ok(Some(d)) ==> (exists|i: int|
            0 <= i < outs.len() && outs[i] == Ok::<Option<Datum<T>>, E>(Some(d))) && (forall|i: int|
            0 <= i < outs.len() ==> no_later_datum(#[trigger] outs[i], d)),
        latest_of(outs) == Ok::<Option<Datum<T>>, E>(None) ==> forall|i: int|
            0 <= i < outs.len() ==> #[trigger] outs[i] == Ok::<Option<Datum<T>>, E>(None),
        latest_of(outs) matches Err(e) ==> exists|i: int|
            0 <= i < outs.len() && outs[i] == Err::<Option<Datum<T>>, E>(e) && forall|j: int|
                0 <= j < i ==> #[trigger] outs[j] is Ok,
        latest_of(outs) is Ok ==> forall|i: int| 0 <= i < outs.len() ==> #[trigger] outs[i] is Ok,
    decreases outs.len(),
{
    if outs.len() > 0 {
        let prefix = outs.drop_last();
        law_latest_is_newest(prefix);
        let last = outs.len() - 1;
        assert(forall|i: int| 0 <= i < last ==> #[trigger] prefix[i] == outs[i]);
        match latest_of(prefix) {
            Err(e) => {
                let i = choose|i: int|
                    0 <= i < prefix.len() && prefix[i] == Err::<Option<Datum<T>>, E>(e) && forall|
                        j: int,
                    | 0 <= j < i ==> #[trigger] prefix[j] is Ok;
                assert(outs[i] == Err::<Option<Datum<T>>, E>(e));
                assert forall|j: int| 0 <= j < i implies #[trigger] outs[j] is Ok by {
                    assert(prefix[j] == outs[j]);
                }
            },
            Ok(found) => {
                assert forall|j: int| 0 <= j < last implies #[trigger] outs[j] is Ok by {
                    assert(prefix[j] == outs[j]);
                }
                match outs.last() {
                    Err(e) => {
                        assert(outs[last] == Err::<Option<Datum<T>>, E>(e));
                    },
                    Ok(None) => {
                        match found {
                            None => {
                                assert forall|i: int| 0 <= i < outs.len() implies #[trigger] outs[i]
                                    == Ok::<Option<Datum<T>>, E>(None) by {
                                    if i < last {
                                        assert(prefix[i] == outs[i]);
                                    }
                                }
                            },
                            Some(f) => {
                                let i = choose|i: int|
                                    0 <= i < prefix.len() && prefix[i] == Ok::<
                                        Option<Datum<T>>,
                                        E,
                                    >(Some(f));
                                assert(outs[i] == Ok::<Option<Datum<T>>, E>(Some(f)));
                                assert forall|k: int| 0 <= k < outs.len() implies no_later_datum(
                                    #[trigger] outs[k],
                                    f,
                                ) by {
                                    if k < last {
                                        assert(prefix[k] == outs[k]);
                                    }
                                }
                            },
                        }
                    },
                    Ok(Some(g)) => {
                        match found {
                            None => {
                                assert(outs[last] == Ok::<Option<Datum<T>>, E>(Some(g)));
                                assert forall|k: int| 0 <= k < outs.len() implies no_later_datum(
                                    #[trigger] outs[k],
                                    g,
                                ) by {
                                    if k < last {
                                        assert(prefix[k] == outs[k]);
                                    }
                                }
                            },
                            Some(f) => {
                                let i = choose|i: int|
                                    0 <= i < prefix.len() && prefix[i] == Ok::<
                                        Option<Datum<T>>,
                                        E,
                                    >(Some(f));
                                assert(outs[i] == Ok::<Option<Datum<T>>, E>(Some(f)));
                                assert(outs[last] == Ok::<Option<Datum<T>>, E>(Some(g)));
                                let d = if g.time.0 > f.time.0 {
                                    g
                                } else {
                                    f
                                };
                                assert forall|k: int| 0 <= k < outs.len() implies no_later_datum(
                                    #[trigger] outs[k],
                                    d,
                                ) by {
                                    if k < last {
                                        assert(prefix[k] == outs[k]);
                                        assert(no_later_datum(prefix[k], f));
                                    }
                                }
                            },
                        }
                    },
                }
            },
        }
    }
}

///[`Latest2`] returns what [`Latest`] returns for the same two inputs in the same order.
pub proof fn law_latest2_matches_latest<T, E>(o1: Output<T, E>, o2: Output<T, E>)
    ensures
        latest2_of(o1, o2) == latest_of(seq![o1, o2]),
{
    assert(seq![o1, o2].drop_last() =~= seq![o1]);
    assert(seq![o1].drop_last() =~= Seq::<Output<T, E>>::empty());
    reveal_with_fuel(latest_of, 3);
}

} // verus!

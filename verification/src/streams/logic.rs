//!Logic operations for boolean getters, in three-valued logic: a getter returning `Ok(None)` is
//!an unknown truth value.
use vstd::prelude::*;
use core::marker::PhantomData;
use crate::datum::{Datum, Output};
use crate::dimensions::Time;
use crate::error::NothingOrError;
use crate::interfaces::{Getter, Updatable};
use crate::streams::{all_get_req, all_update_req, outputs_of, two_updates, update_all, updates_in_order};

verus! {

#[derive(Clone, Copy, Debug, PartialEq, Eq, Structural)]
enum LogicState {
    ReturnableFalse,
    NeitherReturnable,
    ReturnableTrue,
}

impl LogicState {
    fn not_returnable_true(&mut self)
        ensures
            *final(self) == if *old(self) == LogicState::ReturnableTrue {
                LogicState::NeitherReturnable
            } else {
                *old(self)
            },
    {
        if let LogicState::ReturnableTrue = self {
            *self = LogicState::NeitherReturnable;
        }
    }

    fn not_returnable_false(&mut self)
        ensures
            *final(self) == if *old(self) == LogicState::ReturnableFalse {
                LogicState::NeitherReturnable
            } else {
                *old(self)
            },
    {
        if let LogicState::ReturnableFalse = self {
            *self = LogicState::NeitherReturnable;
        }
    }
}

///What has been seen in a sequence of boolean outputs processed in order: whether the deciding
///value (`false` for and, `true` for or) was seen, whether an unknown value was seen, and the
///latest timestamp of the data, counted from zero. The first error ends the processing.
pub open spec fn logic_fold<E>(outs: Seq<Output<bool, E>>, deciding: bool) -> Result<
    (bool, bool, Time),
    E,
>
    decreases outs.len(),
{
    if outs.len() == 0 {
        Ok((false, false, Time(0)))
    } else {
        match logic_fold(outs.drop_last(), deciding) {
            Err(e) => Err(e),
            Ok((decided, unknown, time)) => match outs.last() {
                Err(e) => Err(e),
                Ok(None) => Ok((decided, true, time)),
                Ok(Some(d)) => Ok(
                    (
                        decided || d.value == deciding,
                        unknown,
                        if d.time.0 > time.0 {
                            d.time
                        } else {
                            time
                        },
                    ),
                ),
            },
        }
    }
}

///Three-valued `and` (`deciding == false`) or `or` (`deciding == true`) of the outputs: the first
///error; otherwise the deciding value if any input has it; otherwise unknown if any input is;
///otherwise the other value. Known results carry the latest timestamp of the data, counted from
///zero.
pub open spec fn logic_of<E>(outs: Seq<Output<bool, E>>, deciding: bool) -> Output<bool, E> {
    match logic_fold(outs, deciding) {
        Err(e) => Err(e),
        Ok((decided, unknown, time)) => if decided {
            Ok(Some(Datum { time, value: deciding }))
        } else if unknown {
            Ok(None)
        } else {
            Ok(Some(Datum { time, value: !deciding }))
        },
    }
}

///Once the outputs processed so far hold an error, that error is the result whatever follows.
pub proof fn lemma_logic_fold_error_sticks<E>(outs: Seq<Output<bool, E>>, deciding: bool, i: int)
    requires
        0 <= i <= outs.len(),
        logic_fold(outs.take(i), deciding) is Err,
    ensures
        logic_fold(outs, deciding) == logic_fold(outs.take(i), deciding),
    decreases outs.len() - i,
{
    if i < outs.len() {
        assert(outs.take(i + 1).drop_last() =~= outs.take(i));
        lemma_logic_fold_error_sticks(outs, deciding, i + 1);
    } else {
        assert(outs.take(i) =~= outs);
    }
}

///The state of the search for a three-valued result matches what has been seen.
spec fn state_matches(state: LogicState, decided: bool, unknown: bool, deciding: bool) -> bool {
    if decided {
        state == if deciding {
            LogicState::ReturnableTrue
        } else {
            LogicState::ReturnableFalse
        }
    } else if unknown {
        state == LogicState::NeitherReturnable
    } else {
        state == if deciding {
            LogicState::ReturnableFalse
        } else {
            LogicState::ReturnableTrue
        }
    }
}

///Computes [`logic_of`] for the outputs of the getters.
fn evaluate_logic<const N: usize, G: Getter<bool, E>, E>(inputs: &[G; N], deciding: bool) -> (r:
    Output<bool, E>)
    requires
        all_get_req::<bool, G, E>(inputs@),
    ensures
        G::obeys_get_spec() ==> r == logic_of(outputs_of(inputs@), deciding),
{
    let ghost outs = outputs_of::<bool, E, G>(inputs@);
    let mut logic_state = if deciding {
        LogicState::ReturnableFalse
    } else {
        LogicState::ReturnableTrue
    };
    let mut time = Time(0);
    let mut i: usize = 0;
    while i < N
        invariant
            all_get_req::<bool, G, E>(inputs@),
            0 <= i <= N,
            outs.len() == N,
            outs == outputs_of::<bool, E, G>(inputs@),
            G::obeys_get_spec() ==> (logic_fold(outs.take(i as int), deciding) matches Ok(
                (decided, unknown, t),
            ) && t == time && state_matches(logic_state, decided, unknown, deciding)),
        decreases N - i,
    {
        assert(outs.take(i + 1).drop_last() =~= outs.take(i as int));
        match inputs[i].get() {
            Err(e) => {
                proof {
                    if G::obeys_get_spec() {
                        lemma_logic_fold_error_sticks(outs, deciding, i + 1);
                    }
                }
                return Err(e);
            },
            Ok(None) => {
                if deciding {
                    logic_state.not_returnable_false();
                } else {
                    logic_state.not_returnable_true();
                }
            },
            Ok(Some(datum)) => {
                if datum.time.0 > time.0 {
                    time = datum.time;
                }
                if datum.value == deciding {
                    logic_state = if deciding {
                        LogicState::ReturnableTrue
                    } else {
                        LogicState::ReturnableFalse
                    };
                }
            },
        }
        i += 1;
    }
    assert(outs.take(N as int) =~= outs);
    match logic_state {
        LogicState::ReturnableTrue => Ok(Some(Datum::new(time, true))),
        LogicState::ReturnableFalse => Ok(Some(Datum::new(time, false))),
        LogicState::NeitherReturnable => Ok(None),
    }
}

///Three-valued `and` of boolean getters: `false` if any input returns `false`, otherwise
///`Ok(None)` if any input does, otherwise `true` (also with no inputs). The first error from an
///input is returned.
pub struct GoodAndStream<const N: usize, G, E> {
    inputs: [G; N],
    phantom_e: PhantomData<E>,
}

impl<const N: usize, G, E> GoodAndStream<N, G, E> {
    ///Constructor for [`GoodAndStream`].
    pub fn new(inputs: [G; N]) -> (r: Self)
        ensures
            r.inputs() == inputs@,
    {
        GoodAndStream { inputs, phantom_e: PhantomData }
    }

    ///The inputs.
    pub closed spec fn inputs(self) -> Seq<G> {
        self.inputs@
    }
}

impl<const N: usize, G: Updatable<E>, E> Updatable<E> for GoodAndStream<N, G, E> {
    open spec fn update_spec(before: Self, after: Self, r: NothingOrError<E>) -> bool {
        updates_in_order(before.inputs(), after.inputs(), r)
    }

    open spec fn update_req(&self) -> bool {
        all_update_req(self.inputs())
    }

    fn update(&mut self) -> (r: NothingOrError<E>) {
        update_all(&mut self.inputs)
    }
}

impl<const N: usize, G: Getter<bool, E>, E> Getter<bool, E> for GoodAndStream<N, G, E> {
    open spec fn obeys_get_spec() -> bool {
        G::obeys_get_spec()
    }

    open spec fn get_spec(&self) -> Output<bool, E> {
        logic_of(outputs_of(self.inputs()), false)
    }

    open spec fn get_req(&self) -> bool {
        all_get_req::<bool, G, E>(self.inputs())
    }

    fn get(&self) -> (r: Output<bool, E>) {
        evaluate_logic(&self.inputs, false)
    }
}

///Three-valued `or` of boolean getters: `true` if any input returns `true`, otherwise `Ok(None)`
///if any input does, otherwise `false` (also with no inputs). The first error from an input is
///returned.
pub struct GoodOrStream<const N: usize, G, E> {
    inputs: [G; N],
    phantom_e: PhantomData<E>,
}

impl<const N: usize, G, E> GoodOrStream<N, G, E> {
    ///Constructor for [`GoodOrStream`].
    pub fn new(inputs: [G; N]) -> (r: Self)
        ensures
            r.inputs() == inputs@,
    {
        GoodOrStream { inputs, phantom_e: PhantomData }
    }

    ///The inputs.
    pub closed spec fn inputs(self) -> Seq<G> {
        self.inputs@
    }
}

impl<const N: usize, G: Updatable<E>, E> Updatable<E> for GoodOrStream<N, G, E> {
    open spec fn update_spec(before: Self, after: Self, r: NothingOrError<E>) -> bool {
        updates_in_order(before.inputs(), after.inputs(), r)
    }

    open spec fn update_req(&self) -> bool {
        all_update_req(self.inputs())
    }

    fn update(&mut self) -> (r: NothingOrError<E>) {
        update_all(&mut self.inputs)
    }
}

impl<const N: usize, G: Getter<bool, E>, E> Getter<bool, E> for GoodOrStream<N, G, E> {
    open spec fn obeys_get_spec() -> bool {
        G::obeys_get_spec()
    }

    open spec fn get_spec(&self) -> Output<bool, E> {
        logic_of(outputs_of(self.inputs()), true)
    }

    open spec fn get_req(&self) -> bool {
        all_get_req::<bool, G, E>(self.inputs())
    }

    fn get(&self) -> (r: Output<bool, E>) {
        evaluate_logic(&self.inputs, true)
    }
}

///Three-valued `and` of boolean getters of one type. Like [`GoodAndStream`] except that with no
///inputs the result is `Ok(None)`.
pub struct AndStream<const N: usize, G> {
    inputs: [G; N],
}

impl<const N: usize, G> AndStream<N, G> {
    ///Constructor for [`AndStream`].
    pub fn new(inputs: [G; N]) -> (r: Self)
        ensures
            r.inputs() == inputs@,
    {
        AndStream { inputs }
    }

    ///The inputs.
    pub closed spec fn inputs(self) -> Seq<G> {
        self.inputs@
    }
}

impl<const N: usize, G: Updatable<E>, E> Updatable<E> for AndStream<N, G> {
    open spec fn update_spec(before: Self, after: Self, r: NothingOrError<E>) -> bool {
        updates_in_order(before.inputs(), after.inputs(), r)
    }

    open spec fn update_req(&self) -> bool {
        all_update_req(self.inputs())
    }

    fn update(&mut self) -> (r: NothingOrError<E>) {
        update_all(&mut self.inputs)
    }
}

impl<const N: usize, G: Getter<bool, E>, E> Getter<bool, E> for AndStream<N, G> {
    open spec fn obeys_get_spec() -> bool {
        G::obeys_get_spec()
    }

    open spec fn get_spec(&self) -> Output<bool, E> {
        if N == 0 {
            Ok(None)
        } else {
            logic_of(outputs_of(self.inputs()), false)
        }
    }

    open spec fn get_req(&self) -> bool {
        all_get_req::<bool, G, E>(self.inputs())
    }

    fn get(&self) -> (r: Output<bool, E>) {
        if N == 0 {
            return Ok(None);
        }
        evaluate_logic(&self.inputs, false)
    }
}

///Three-valued `or` of boolean getters of one type. Like [`GoodOrStream`] except that with no
///inputs the result is `Ok(None)`.
pub struct OrStream<const N: usize, G> {
    inputs: [G; N],
}

impl<const N: usize, G> OrStream<N, G> {
    ///Constructor for [`OrStream`].
    pub fn new(inputs: [G; N]) -> (r: Self)
        ensures
            r.inputs() == inputs@,
    {
        OrStream { inputs }
    }

    ///The inputs.
    pub closed spec fn inputs(self) -> Seq<G> {
        self.inputs@
    }
}

impl<const N: usize, G: Updatable<E>, E> Updatable<E> for OrStream<N, G> {
    open spec fn update_spec(before: Self, after: Self, r: NothingOrError<E>) -> bool {
        updates_in_order(before.inputs(), after.inputs(), r)
    }

    open spec fn update_req(&self) -> bool {
        all_update_req(self.inputs())
    }

    fn update(&mut self) -> (r: NothingOrError<E>) {
        update_all(&mut self.inputs)
    }
}

impl<const N: usize, G: Getter<bool, E>, E> Getter<bool, E> for OrStream<N, G> {
    open spec fn obeys_get_spec() -> bool {
        G::obeys_get_spec()
    }

    open spec fn get_spec(&self) -> Output<bool, E> {
        if N == 0 {
            Ok(None)
        } else {
            logic_of(outputs_of(self.inputs()), true)
        }
    }

    open spec fn get_req(&self) -> bool {
        all_get_req::<bool, G, E>(self.inputs())
    }

    fn get(&self) -> (r: Output<bool, E>) {
        if N == 0 {
            return Ok(None);
        }
        evaluate_logic(&self.inputs, true)
    }
}

///Computes [`logic_of`] for two outputs.
fn evaluate_logic2<E>(o1: Output<bool, E>, o2: Output<bool, E>, deciding: bool) -> (r: Output<
    bool,
    E,
>)
    ensures
        r == logic_of(seq![o1, o2], deciding),
{
    let ghost outs = seq![o1, o2];
    assert(outs.drop_last() =~= seq![o1]);
    assert(seq![o1].drop_last() =~= Seq::<Output<bool, E>>::empty());
    proof {
        reveal_with_fuel(logic_fold, 3);
    }
    let mut decided = false;
    let mut unknown = false;
    let mut time = Time(0);
    match o1 {
        Err(e) => return Err(e),
        Ok(None) => {
            unknown = true;
        },
        Ok(Some(d)) => {
            if d.time.0 > time.0 {
                time = d.time;
            }
            if d.value == deciding {
                decided = true;
            }
        },
    }
    match o2 {
        Err(e) => return Err(e),
        Ok(None) => {
            unknown = true;
        },
        Ok(Some(d)) => {
            if d.time.0 > time.0 {
                time = d.time;
            }
            if d.value == deciding {
                decided = true;
            }
        },
    }
    if decided {
        Ok(Some(Datum::new(time, deciding)))
    } else if unknown {
        Ok(None)
    } else {
        Ok(Some(Datum::new(time, !deciding)))
    }
}

///Three-valued `and` of two boolean getters, which may be of different types. Both inputs are
///asked; it behaves like [`AndStream`] with the two of them as inputs.
pub struct And2<G1, G2> {
    input1: G1,
    input2: G2,
}

impl<G1, G2> And2<G1, G2> {
    ///Constructor for [`And2`].
    pub fn new(input1: G1, input2: G2) -> (r: Self)
        ensures
            r.input1() == input1,
            r.input2() == input2,
    {
        And2 { input1, input2 }
    }

    ///The first input.
    pub closed spec fn input1(self) -> G1 {
        self.input1
    }

    ///The second input.
    pub closed spec fn input2(self) -> G2 {
        self.input2
    }
}

impl<G1: Updatable<E>, G2: Updatable<E>, E> Updatable<E> for And2<G1, G2> {
    open spec fn update_spec(before: Self, after: Self, r: NothingOrError<E>) -> bool {
        two_updates(before.input1(), after.input1(), before.input2(), after.input2(), r)
    }

    open spec fn update_req(&self) -> bool {
        self.input1().update_req() && self.input2().update_req()
    }

    fn update(&mut self) -> (r: NothingOrError<E>) {
        self.input1.update()?;
        self.input2.update()
    }
}

impl<G1: Getter<bool, E>, G2: Getter<bool, E>, E> Getter<bool, E> for And2<G1, G2> {
    open spec fn obeys_get_spec() -> bool {
        G1::obeys_get_spec() && G2::obeys_get_spec()
    }

    open spec fn get_spec(&self) -> Output<bool, E> {
        logic_of(seq![self.input1().get_spec(), self.input2().get_spec()], false)
    }

    open spec fn get_req(&self) -> bool {
        self.input1().get_req() && self.input2().get_req()
    }

    fn get(&self) -> (r: Output<bool, E>) {
        evaluate_logic2(self.input1.get(), self.input2.get(), false)
    }
}

///Three-valued `or` of two boolean getters, which may be of different types. Both inputs are
///asked; it behaves like [`OrStream`] with the two of them as inputs.
pub struct Or2<G1, G2> {
    input1: G1,
    input2: G2,
}

impl<G1, G2> Or2<G1, G2> {
    ///Constructor for [`Or2`].
    pub fn new(input1: G1, input2: G2) -> (r: Self)
        ensures
            r.input1() == input1,
            r.input2() == input2,
    {
        Or2 { input1, input2 }
    }

    ///The first input.
    pub closed spec fn input1(self) -> G1 {
        self.input1
    }

    ///The second input.
    pub closed spec fn input2(self) -> G2 {
        self.input2
    }
}

impl<G1: Updatable<E>, G2: Updatable<E>, E> Updatable<E> for Or2<G1, G2> {
    open spec fn update_spec(before: Self, after: Self, r: NothingOrError<E>) -> bool {
        two_updates(before.input1(), after.input1(), before.input2(), after.input2(), r)
    }

    open spec fn update_req(&self) -> bool {
        self.input1().update_req() && self.input2().update_req()
    }

    fn update(&mut self) -> (r: NothingOrError<E>) {
        self.input1.update()?;
        self.input2.update()
    }
}

impl<G1: Getter<bool, E>, G2: Getter<bool, E>, E> Getter<bool, E> for Or2<G1, G2> {
    open spec fn obeys_get_spec() -> bool {
        G1::obeys_get_spec() && G2::obeys_get_spec()
    }

    open spec fn get_spec(&self) -> Output<bool, E> {
        logic_of(seq![self.input1().get_spec(), self.input2().get_spec()], true)
    }

    open spec fn get_req(&self) -> bool {
        self.input1().get_req() && self.input2().get_req()
    }

    fn get(&self) -> (r: Output<bool, E>) {
        evaluate_logic2(self.input1.get(), self.input2.get(), true)
    }
}

///The negation of a boolean output; unknown stays unknown.
pub open spec fn not_output<E>(o: Output<bool, E>) -> Output<bool, E> {
    match o {
        Ok(Some(d)) => Ok(Some(Datum { time: d.time, value: !d.value })),
        other => other,
    }
}

///Performs a not operation on a boolean getter.
pub struct NotStream<G, E> {
    input: G,
    phantom_e: PhantomData<E>,
}

impl<G, E> NotStream<G, E> {
    ///Constructor for [`NotStream`].
    pub fn new(input: G) -> (r: Self)
        ensures
            r.input() == input,
    {
        NotStream { input, phantom_e: PhantomData }
    }

    ///The input.
    pub closed spec fn input(self) -> G {
        self.input
    }
}

impl<G: Getter<bool, E>, E> Getter<bool, E> for NotStream<G, E> {
    open spec fn obeys_get_spec() -> bool {
        G::obeys_get_spec()
    }

    open spec fn get_spec(&self) -> Output<bool, E> {
        not_output(self.input().get_spec())
    }

    open spec fn get_req(&self) -> bool {
        self.input().get_req()
    }

    fn get(&self) -> (r: Output<bool, E>) {
        match self.input.get() {
            Ok(Some(datum)) => Ok(Some(Datum::new(datum.time, !datum.value))),
            Ok(None) => Ok(None),
            Err(error) => Err(error),
        }
    }
}

impl<G: Getter<bool, E>, E> Updatable<E> for NotStream<G, E> {
    open spec fn update_spec(before: Self, after: Self, r: NothingOrError<E>) -> bool {
        G::update_spec(before.input(), after.input(), r)
    }

    open spec fn update_req(&self) -> bool {
        self.input().update_req()
    }

    fn update(&mut self) -> (r: NothingOrError<E>) {
        self.input.update()?;
        Ok(())
    }
}

///Negating every output swaps the roles of `true` and `false`: processing the negated outputs
///looking for `!deciding` sees what processing the outputs looking for `deciding` sees.
proof fn lemma_logic_fold_negated<E>(outs: Seq<Output<bool, E>>, deciding: bool)
    ensures
        logic_fold(outs.map_values(|o: Output<bool, E>| not_output(o)), !deciding) == logic_fold(
            outs,
            deciding,
        ),
    decreases outs.len(),
{
    let negated = outs.map_values(|o: Output<bool, E>| not_output(o));
    if outs.len() > 0 {
        assert(negated.drop_last() =~= outs.drop_last().map_values(
            |o: Output<bool, E>| not_output(o),
        ));
        lemma_logic_fold_negated(outs.drop_last(), deciding);
        assert(negated.last() == not_output(outs.last()));
    }
}

///De Morgan's laws in three-valued logic: the negation of the `and` of some outputs is the `or`
///of their negations, and the negation of their `or` is the `and` of their negations. Errors and
///unknown values pass through, and the timestamp is the same.
pub proof fn law_de_morgan<E>(outs: Seq<Output<bool, E>>, deciding: bool)
    ensures
        logic_of(outs.map_values(|o: Output<bool, E>| not_output(o)), !deciding) == not_output(
            logic_of(outs, deciding),
        ),
{
    lemma_logic_fold_negated(outs, deciding);
}

///Negating twice gives back the output.
pub proof fn law_double_negation<E>(o: Output<bool, E>)
    ensures
        not_output(not_output(o)) == o,
{
}


///What [`logic_fold`] gathers of the time: when no error is met, the time is at least zero and at
///least every datum's time, and it is zero or the time of one of the data.
proof fn lemma_logic_fold_time<E>(outs: Seq<Output<bool, E>>, deciding: bool)
    requires
        logic_fold(outs, deciding) is Ok,
    ensures
        ({
            let t = logic_fold(outs, deciding)->Ok_0.2;
            &&& t.0 >= 0
            &&& forall|i: int|
                0 <= i < outs.len() && (#[trigger] outs[i]) is Ok && outs[i]->Ok_0 is Some
                    ==> outs[i]->Ok_0->Some_0.time.0 <= t.0
            &&& t == Time(0) || exists|i: int|
                0 <= i < outs.len() && (#[trigger] outs[i]) is Ok && outs[i]->Ok_0 is Some
                    && outs[i]->Ok_0->Some_0.time == t
        }),
    decreases outs.len(),
{
    if outs.len() > 0 {
        let init = outs.drop_last();
        lemma_logic_fold_time(init, deciding);
        let t0 = logic_fold(init, deciding)->Ok_0.2;
        let t = logic_fold(outs, deciding)->Ok_0.2;
        assert forall|i: int|
            0 <= i < outs.len() && (#[trigger] outs[i]) is Ok && outs[i]->Ok_0 is Some implies outs[i]->Ok_0->Some_0.time.0
            <= t.0 by {
            if i < outs.len() - 1 {
                assert(outs[i] == init[i]);
            }
        }
        if t != Time(0) {
            if t == t0 {
                let k = choose|k: int|
                    0 <= k < init.len() && (#[trigger] init[k]) is Ok && init[k]->Ok_0 is Some
                        && init[k]->Ok_0->Some_0.time == t0;
                assert(outs[k] == init[k]);
            } else {
                assert(outs[outs.len() - 1] == outs.last());
            }
        }
    }
}

///A known result of three-valued `and` or `or` is timestamped with the latest time of the input
///data, counted from zero: no input datum is later, and its time is zero or that of an input
///datum.
pub proof fn law_logic_time_is_latest<E>(outs: Seq<Output<bool, E>>, deciding: bool)
    requires
        logic_of(outs, deciding) is Ok,
        logic_of(outs, deciding)->Ok_0 is Some,
    ensures
        ({
            let d = logic_of(outs, deciding)->Ok_0->Some_0;
            &&& d.time.0 >= 0
            &&& forall|i: int|
                0 <= i < outs.len() && (#[trigger] outs[i]) is Ok && outs[i]->Ok_0 is Some
                    ==> outs[i]->Ok_0->Some_0.time.0 <= d.time.0
            &&& d.time == Time(0) || exists|i: int|
                0 <= i < outs.len() && (#[trigger] outs[i]) is Ok && outs[i]->Ok_0 is Some
                    && outs[i]->Ok_0->Some_0.time == d.time
        }),
{
    lemma_logic_fold_time(outs, deciding);
}

} // verus!

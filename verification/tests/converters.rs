use std::cell::Cell;
use std::rc::Rc;

use rrtk::compile_time_dimensions::Quantity;
use rrtk::compile_time_integer::{Neg1, Pos1};
use rrtk::error::PossibleDoubleError;
use rrtk::streams::converters::{
    DimensionAdder, DimensionRemover, ErrorIntoConverter, IntoConverter, NoneToDefault, PrioritizeA,
    PrioritizeB,
};
use rrtk::streams::DebugLabel;
use rrtk::{Datum, Getter, NothingOrError, Output, Time, TimeGetter, TimeOutput, Updatable};

#[derive(Clone, Debug, PartialEq, Eq)]
struct MyError(u8);

fn counter() -> Rc<Cell<u8>> {
    Rc::new(Cell::new(0))
}

fn bump(c: &Rc<Cell<u8>>) {
    c.set(c.get() + 1);
}

#[test]
fn none_to_default() {
    struct MyGetter {
        update_calls: Rc<Cell<u8>>,
        get_calls: Rc<Cell<u8>>,
    }
    impl Updatable<MyError> for MyGetter {
        fn update(&mut self) -> NothingOrError<MyError> {
            bump(&self.update_calls);
            Ok(())
        }
    }
    impl Getter<u8, MyError> for MyGetter {
        fn get(&self) -> Output<u8, MyError> {
            bump(&self.get_calls);
            match self.update_calls.get() {
                0 => panic!("missed update call"),
                1 => Ok(Some(Datum::new(Time(2_000_000_000), 1))),
                2 => Ok(Some(Datum::new(Time(2_100_000_000), 2))),
                3 => Ok(None),
                4 => Ok(None),
                5 => Ok(None),
                6 => Err(MyError(1)),
                _ => panic!("update called too many times"),
            }
        }
    }
    struct MyTimeGetter {
        getter_update_calls: Rc<Cell<u8>>,
        update_calls: Rc<Cell<u8>>,
        get_calls: Rc<Cell<u8>>,
    }
    impl Updatable<MyError> for MyTimeGetter {
        fn update(&mut self) -> NothingOrError<MyError> {
            bump(&self.update_calls);
            Ok(())
        }
    }
    impl TimeGetter<MyError> for MyTimeGetter {
        fn get(&self) -> TimeOutput<MyError> {
            bump(&self.get_calls);
            match self.getter_update_calls.get() {
                0 => panic!("missed update call"),
                1 => panic!("TimeGetter is not needed here"),
                2 => panic!("TimeGetter is not needed here"),
                3 => Ok(Time(2_200_000_000)),
                4 => Ok(Time(2_300_000_000)),
                5 => Err(MyError(2)),
                6 => panic!("TimeGetter is not needed here"),
                _ => panic!("update called too many times"),
            }
        }
    }
    let (g_u, g_g, tg_u, tg_g) = (counter(), counter(), counter(), counter());
    let mut test = NoneToDefault::new(
        MyGetter { update_calls: g_u.clone(), get_calls: g_g.clone() },
        MyTimeGetter {
            getter_update_calls: g_u.clone(),
            update_calls: tg_u.clone(),
            get_calls: tg_g.clone(),
        },
    );
    let expected: [(u8, u8, u8, u8, Output<u8, PossibleDoubleError<MyError>>, u8, u8, u8, u8); 6] = [
        (1, 1, 0, 0, Ok(Some(Datum::new(Time(2_000_000_000), 1))), 1, 1, 1, 0),
        (2, 2, 1, 0, Ok(Some(Datum::new(Time(2_100_000_000), 2))), 2, 2, 2, 0),
        (3, 3, 2, 0, Ok(Some(Datum::new(Time(2_200_000_000), 0))), 3, 3, 3, 1),
        (4, 4, 3, 1, Ok(Some(Datum::new(Time(2_300_000_000), 0))), 4, 4, 4, 2),
        (5, 5, 4, 2, Err(PossibleDoubleError::B(MyError(2))), 5, 5, 5, 3),
        (6, 6, 5, 3, Err(PossibleDoubleError::A(MyError(1))), 6, 6, 6, 3),
    ];
    for (g_u_1, tg_u_1, g_g_1, tg_g_1, gotten, g_u_2, tg_u_2, g_g_2, tg_g_2) in expected {
        test.update().unwrap();
        assert_eq!(g_u.get(), g_u_1);
        assert_eq!(tg_u.get(), tg_u_1);
        assert_eq!(g_g.get(), g_g_1);
        assert_eq!(tg_g.get(), tg_g_1);
        assert_eq!(test.get(), gotten);
        assert_eq!(g_u.get(), g_u_2);
        assert_eq!(tg_u.get(), tg_u_2);
        assert_eq!(g_g.get(), g_g_2);
        assert_eq!(tg_g.get(), tg_g_2);
    }
}

#[test]
fn into_converter() {
    struct MyGetter {
        update_calls: Rc<Cell<u8>>,
        get_calls: Rc<Cell<u8>>,
    }
    impl Updatable<MyError> for MyGetter {
        fn update(&mut self) -> NothingOrError<MyError> {
            bump(&self.update_calls);
            Ok(())
        }
    }
    impl Getter<u8, MyError> for MyGetter {
        fn get(&self) -> Output<u8, MyError> {
            bump(&self.get_calls);
            match self.update_calls.get() {
                0 => panic!("missed update call"),
                1 => Ok(Some(Datum::new(Time(2_000_000_000), 1))),
                2 => Ok(None),
                3 => Err(MyError(1)),
                _ => panic!("update called too many times"),
            }
        }
    }
    let (g_u, g_g) = (counter(), counter());
    let mut test = IntoConverter::new(MyGetter { update_calls: g_u.clone(), get_calls: g_g.clone() });
    let expected: [(u8, u8, Output<i16, MyError>, u8, u8); 3] = [
        (1, 0, Ok(Some(Datum::new(Time(2_000_000_000), 1i16))), 1, 1),
        (2, 1, Ok(None::<Datum<i16>>), 2, 2),
        (3, 2, Err::<Option<Datum<i16>>, _>(MyError(1)), 3, 3),
    ];
    for (g_u_1, g_g_1, gotten, g_u_2, g_g_2) in expected {
        test.update().unwrap();
        assert_eq!(g_u.get(), g_u_1);
        assert_eq!(g_g.get(), g_g_1);
        assert_eq!(test.get(), gotten);
        assert_eq!(g_u.get(), g_u_2);
        assert_eq!(g_g.get(), g_g_2);
    }
}

#[test]
fn error_into_converter() {
    struct MyGetter {
        update_calls: Rc<Cell<u8>>,
        get_calls: Rc<Cell<u8>>,
    }
    impl Updatable<i16> for MyGetter {
        fn update(&mut self) -> NothingOrError<i16> {
            bump(&self.update_calls);
            Ok(())
        }
    }
    impl Getter<u8, i16> for MyGetter {
        fn get(&self) -> Output<u8, i16> {
            bump(&self.get_calls);
            match self.update_calls.get() {
                0 => panic!("missed update call"),
                1 => Ok(Some(Datum::new(Time(2_000_000_000), 1))),
                2 => Ok(None),
                3 => Err(100),
                _ => panic!("update called too many times"),
            }
        }
    }
    let (g_u, g_g) = (counter(), counter());
    let mut test =
        ErrorIntoConverter::new(MyGetter { update_calls: g_u.clone(), get_calls: g_g.clone() });
    let expected: [(u8, u8, Output<u8, i64>, u8, u8); 3] = [
        (1, 0, Ok::<_, i64>(Some(Datum::new(Time(2_000_000_000), 1u8))), 1, 1),
        (2, 1, Ok::<_, i64>(None), 2, 2),
        (3, 2, Err(100i64), 3, 3),
    ];
    for (g_u_1, g_g_1, gotten, g_u_2, g_g_2) in expected {
        <ErrorIntoConverter<_, _, _> as Updatable<i64>>::update(&mut test).unwrap();
        assert_eq!(g_u.get(), g_u_1);
        assert_eq!(g_g.get(), g_g_1);
        assert_eq!(test.get(), gotten);
        assert_eq!(g_u.get(), g_u_2);
        assert_eq!(g_g.get(), g_g_2);
    }
}

#[test]
fn dimension_adder() {
    struct MyGetter {
        update_calls: Rc<Cell<u8>>,
        get_calls: Rc<Cell<u8>>,
    }
    impl Updatable<MyError> for MyGetter {
        fn update(&mut self) -> NothingOrError<MyError> {
            bump(&self.update_calls);
            Ok(())
        }
    }
    impl Getter<f32, MyError> for MyGetter {
        fn get(&self) -> Output<f32, MyError> {
            bump(&self.get_calls);
            match self.update_calls.get() {
                0 => panic!("missed update call"),
                1 => Ok(Some(Datum::new(Time(2_000_000_000), 1.0))),
                2 => Ok(None),
                3 => Err(MyError(1)),
                _ => panic!("update called too many times"),
            }
        }
    }
    let (g_u, g_g) = (counter(), counter());
    let mut test = DimensionAdder::<f32, Pos1, Neg1, _, _>::new(MyGetter {
        update_calls: g_u.clone(),
        get_calls: g_g.clone(),
    });
    let expected: [(u8, u8, Output<Quantity<f32, Pos1, Neg1>, MyError>, u8, u8); 3] = [
        (1, 0, Ok(Some(Datum::new(Time(2_000_000_000), Quantity::new(1.0)))), 1, 1),
        (2, 1, Ok(None), 2, 2),
        (3, 2, Err(MyError(1)), 3, 3),
    ];
    for (g_u_1, g_g_1, gotten, g_u_2, g_g_2) in expected {
        test.update().unwrap();
        assert_eq!(g_u.get(), g_u_1);
        assert_eq!(g_g.get(), g_g_1);
        assert_eq!(test.get(), gotten);
        assert_eq!(g_u.get(), g_u_2);
        assert_eq!(g_g.get(), g_g_2);
    }
}

#[test]
fn dimension_remover() {
    struct MyGetter {
        update_calls: Rc<Cell<u8>>,
        get_calls: Rc<Cell<u8>>,
    }
    impl Updatable<MyError> for MyGetter {
        fn update(&mut self) -> NothingOrError<MyError> {
            bump(&self.update_calls);
            Ok(())
        }
    }
    impl Getter<Quantity<f32, Pos1, Neg1>, MyError> for MyGetter {
        fn get(&self) -> Output<Quantity<f32, Pos1, Neg1>, MyError> {
            bump(&self.get_calls);
            match self.update_calls.get() {
                0 => panic!("missed update call"),
                1 => Ok(Some(Datum::new(Time(2_000_000_000), Quantity::new(1.0)))),
                2 => Ok(None),
                3 => Err(MyError(1)),
                _ => panic!("update called too many times"),
            }
        }
    }
    let (g_u, g_g) = (counter(), counter());
    let mut test =
        DimensionRemover::new(MyGetter { update_calls: g_u.clone(), get_calls: g_g.clone() });
    let expected: [(u8, u8, Output<f32, MyError>, u8, u8); 3] = [
        (1, 0, Ok(Some(Datum::new(Time(2_000_000_000), 1.0))), 1, 1),
        (2, 1, Ok(None), 2, 2),
        (3, 2, Err(MyError(1)), 3, 3),
    ];
    for (g_u_1, g_g_1, gotten, g_u_2, g_g_2) in expected {
        test.update().unwrap();
        assert_eq!(g_u.get(), g_u_1);
        assert_eq!(g_g.get(), g_g_1);
        assert_eq!(test.get(), gotten);
        assert_eq!(g_u.get(), g_u_2);
        assert_eq!(g_g.get(), g_g_2);
    }
}

///Fails its first three updates with `A`, `B` and `AB` errors, then gets `A`, `B` and `AB`
///errors after the next three.
struct DoubleErrorGetter {
    update_calls: Rc<Cell<u8>>,
    get_calls: Rc<Cell<u8>>,
}

impl Updatable<PossibleDoubleError<u8>> for DoubleErrorGetter {
    fn update(&mut self) -> NothingOrError<PossibleDoubleError<u8>> {
        bump(&self.update_calls);
        match self.update_calls.get() {
            0 => unreachable!(),
            1 => Err(PossibleDoubleError::A(1)),
            2 => Err(PossibleDoubleError::B(2)),
            3 => Err(PossibleDoubleError::AB(3, 4)),
            4..=6 => Ok(()),
            _ => panic!("update called too many times"),
        }
    }
}

impl Getter<u8, PossibleDoubleError<u8>> for DoubleErrorGetter {
    fn get(&self) -> Output<u8, PossibleDoubleError<u8>> {
        bump(&self.get_calls);
        match self.update_calls.get() {
            0 => panic!("missed update call"),
            1 => Ok(Some(Datum::new(Time(1_500_000_000), 20))),
            2 => Ok(None),
            3 => Ok(None),
            4 => Err(PossibleDoubleError::A(5)),
            5 => Err(PossibleDoubleError::B(6)),
            6 => Err(PossibleDoubleError::AB(7, 8)),
            _ => panic!("update called too many times"),
        }
    }
}

fn prioritize_expected(first_choice: u8, second_choice: u8) -> [(NothingOrError<u8>, u8, u8, Output<u8, u8>, u8, u8); 6] {
    [
        (Err(1), 1, 0, Ok(Some(Datum::new(Time(1_500_000_000), 20))), 1, 1),
        (Err(2), 2, 1, Ok(None), 2, 2),
        (Err(first_choice), 3, 2, Ok(None), 3, 3),
        (Ok(()), 4, 3, Err(5), 4, 4),
        (Ok(()), 5, 4, Err(6), 5, 5),
        (Ok(()), 6, 5, Err(second_choice), 6, 6),
    ]
}

#[test]
fn prioritize_a() {
    let (g_u, g_g) = (counter(), counter());
    let mut test =
        PrioritizeA::new(DoubleErrorGetter { update_calls: g_u.clone(), get_calls: g_g.clone() });
    for (update_value, g_u_1, g_g_1, gotten, g_u_2, g_g_2) in prioritize_expected(3, 7) {
        assert_eq!(test.update(), update_value);
        assert_eq!(g_u.get(), g_u_1);
        assert_eq!(g_g.get(), g_g_1);
        assert_eq!(test.get(), gotten);
        assert_eq!(g_u.get(), g_u_2);
        assert_eq!(g_g.get(), g_g_2);
    }
}

#[test]
fn prioritize_b() {
    let (g_u, g_g) = (counter(), counter());
    let mut test =
        PrioritizeB::new(DoubleErrorGetter { update_calls: g_u.clone(), get_calls: g_g.clone() });
    for (update_value, g_u_1, g_g_1, gotten, g_u_2, g_g_2) in prioritize_expected(4, 8) {
        assert_eq!(test.update(), update_value);
        assert_eq!(g_u.get(), g_u_1);
        assert_eq!(g_g.get(), g_g_1);
        assert_eq!(test.get(), gotten);
        assert_eq!(g_u.get(), g_u_2);
        assert_eq!(g_g.get(), g_g_2);
    }
}

struct CountingGetter(Rc<Cell<u8>>);

impl Updatable<MyError> for CountingGetter {
    fn update(&mut self) -> NothingOrError<MyError> {
        bump(&self.0);
        Ok(())
    }
}

impl Getter<u8, MyError> for CountingGetter {
    fn get(&self) -> Output<u8, MyError> {
        Ok(None)
    }
}

struct FailingTimeGetter;

impl Updatable<MyError> for FailingTimeGetter {
    fn update(&mut self) -> NothingOrError<MyError> {
        Err(MyError(7))
    }
}

impl TimeGetter<MyError> for FailingTimeGetter {
    fn get(&self) -> TimeOutput<MyError> {
        Err(MyError(8))
    }
}

#[test]
fn none_to_default_update_stops_at_time_getter_error() {
    let calls = counter();
    let mut test = NoneToDefault::<u8, _, _, MyError>::new(CountingGetter(calls.clone()), FailingTimeGetter);
    assert_eq!(test.update(), Err(PossibleDoubleError::B(MyError(7))));
    assert_eq!(calls.get(), 0);
    assert_eq!(test.get(), Err(PossibleDoubleError::B(MyError(8))));
}

#[test]
fn debug_label_prefix() {
    let mut label = DebugLabel::with_name(String::from("motor"));
    assert!(!label.is_silent());
    assert_eq!(label.to_prepend(), "motor: ");
    label.change_name(None);
    assert_eq!(label.to_prepend(), "");
    label.set_silent(true);
    assert!(label.is_silent());
    assert_eq!(DebugLabel::new().to_prepend(), "");
}
